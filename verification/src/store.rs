//! The record store: the definitions of one profile, in file order, with
//! filtered lookup, insertion and removal.
//!
//! The store works in memory. Its caller reads the backing file before
//! [`ProcessManager::install`] and writes [`ProcessManager::processes`] back
//! after every change.

use crate::error::ManagerError;
use crate::item::{ProcessDefinition, ProcessItem};
use crate::search::{Criteria, SearchArgs};
use crate::text::contains;
use vstd::prelude::*;

verus! {

/// The model of a [`ProcessManager`]: the path of its backing file and its
/// definitions in file order.
pub struct Store {
    pub path: Seq<char>,
    pub definitions: Seq<ProcessDefinition>,
}

/// The content of the backing file.
struct Conf {
    processes: Vec<ProcessItem>,
}

/// The store of one profile.
pub struct ProcessManager {
    conf_path: String,
    conf: Conf,
}

/// What the caller found at the path of the backing file.
pub enum ConfFile {
    /// No file exists there.
    Absent,
    /// A file exists but could not be opened or read.
    Unreadable,
    /// The text of the file.
    Text(String),
}

/// How to go on loading: the text to parse, and whether a file holding that
/// text has to be created first.
pub struct LoadPlan {
    pub create: bool,
    pub text: String,
}

/// What is appended to the profile directory to name the backing file.
pub open spec fn conf_file_suffix() -> Seq<char> {
    seq!['/', '.', 'c', 'o', 'n', 'f', 'i', 'g', '.', 'j', 's', 'o', 'n']
}

/// The text of a backing file that holds no definition.
pub open spec fn empty_conf_text() -> Seq<char> {
    seq!['{', '"', 'p', 'r', 'o', 'c', 'e', 's', 's', 'e', 's', '"', ':', ' ', '[', ']', '}']
}

/// The predicate "meets the criteria `c`".
pub open spec fn admitted_by(c: Criteria) -> spec_fn(ProcessDefinition) -> bool {
    |d: ProcessDefinition| c.admits(d)
}

/// The predicate "is named by one of `names`".
pub open spec fn named_in(names: Seq<Seq<char>>) -> spec_fn(ProcessDefinition) -> bool {
    |d: ProcessDefinition| names.contains(d.name)
}

/// The predicate "is named by none of `names`".
pub open spec fn not_named_in(names: Seq<Seq<char>>) -> spec_fn(ProcessDefinition) -> bool {
    |d: ProcessDefinition| !names.contains(d.name)
}

/// What the caller is to do with what it found at the path of the backing
/// file.
pub open spec fn load_plan(found: ConfFile) -> Result<(bool, Seq<char>), ManagerError> {
    match found {
        ConfFile::Absent => Ok((true, empty_conf_text())),
        ConfFile::Unreadable => Err(ManagerError::ConfigReadError),
        ConfFile::Text(text) => Ok((false, text@)),
    }
}

impl View for ProcessManager {
    type V = Store;

    closed spec fn view(&self) -> Store {
        Store { path: self.conf_path@, definitions: self.conf.processes.deep_view() }
    }
}

impl ProcessManager {
    /// An empty store for the profile directory `profile_path`, backed by the
    /// file `.config.json` in that directory.
    pub fn new(profile_path: &str) -> (store: Self)
        ensures
            store@.path == profile_path@ + conf_file_suffix(),
            store@.definitions == Seq::<ProcessDefinition>::empty(),
    {
        proof {
            reveal_strlit("/.config.json");
            assert("/.config.json"@ =~= conf_file_suffix());
        }
        let mut conf_path = String::from_str(profile_path);
        conf_path.append("/.config.json");
        let store = ProcessManager { conf_path, conf: Conf { processes: Vec::new() } };
        assert(store.conf.processes.deep_view() =~= Seq::<ProcessDefinition>::empty());
        store
    }

    /// The path of the backing file.
    pub fn conf_path(&self) -> (path: &String)
        ensures
            path@ == self@.path,
    {
        &self.conf_path
    }

    /// The definitions, in file order: what a rewrite of the backing file
    /// has to hold.
    pub fn processes(&self) -> (items: &Vec<ProcessItem>)
        ensures
            items.deep_view() == self@.definitions,
    {
        &self.conf.processes
    }

    /// The text that a fresh backing file holds: an empty list.
    pub fn initial_content() -> (text: String)
        ensures
            text@ == empty_conf_text(),
    {
        proof {
            reveal_strlit("{\"processes\": []}");
            assert("{\"processes\": []}"@ =~= empty_conf_text());
        }
        String::from_str("{\"processes\": []}")
    }

    /// Decides how loading goes on. An absent file is created with an empty
    /// list, which is then parsed; an unreadable one is an error; otherwise
    /// the text that was read is parsed.
    pub fn load_conf(found: ConfFile) -> (plan: Result<LoadPlan, ManagerError>)
        ensures
            match plan {
                Ok(p) => load_plan(found) == Ok::<(bool, Seq<char>), ManagerError>(
                    (p.create, p.text@),
                ),
                Err(e) => load_plan(found) == Err::<(bool, Seq<char>), ManagerError>(e),
            },
    {
        match found {
            ConfFile::Absent => Ok(
                LoadPlan { create: true, text: ProcessManager::initial_content() },
            ),
            ConfFile::Unreadable => Err(ManagerError::ConfigReadError),
            ConfFile::Text(text) => Ok(LoadPlan { create: false, text }),
        }
    }

    /// Takes over what parsing the backing file gave. `None` stands for a
    /// text that is no list of definitions: the store keeps what it held.
    pub fn install(&mut self, parsed: Option<Vec<ProcessItem>>) -> (done: Result<
        (),
        ManagerError,
    >)
        ensures
            final(self)@.path == old(self)@.path,
            match parsed {
                Some(items) => done == Ok::<(), ManagerError>(()) && final(self)@.definitions
                    == items.deep_view(),
                None => done == Err::<(), ManagerError>(ManagerError::ConfigParseError)
                    && final(self)@.definitions == old(self)@.definitions,
            },
    {
        match parsed {
            Some(items) => {
                self.conf.processes = items;
                Ok(())
            },
            None => Err(ManagerError::ConfigParseError),
        }
    }

    /// The definitions that meet `search_args`, in file order.
    pub fn list(&self, search_args: SearchArgs) -> (found: Vec<&ProcessItem>)
        ensures
            found.deep_view() == self@.definitions.filter(admitted_by(search_args@)),
    {
        let ghost all = self.conf.processes.deep_view();
        let ghost wanted = admitted_by(search_args@);
        let mut found: Vec<&ProcessItem> = Vec::new();
        let mut i: usize = 0;
        proof {
            reveal(Seq::filter);
            assert(all.take(0).filter(wanted) =~= Seq::<ProcessDefinition>::empty());
            assert(found.deep_view() =~= Seq::<ProcessDefinition>::empty());
        }
        while i < self.conf.processes.len()
            invariant
                i <= self.conf.processes.len(),
                all == self.conf.processes.deep_view(),
                wanted == admitted_by(search_args@),
                found.deep_view() == all.take(i as int).filter(wanted),
            decreases self.conf.processes.len() - i,
        {
            let item = &self.conf.processes[i];
            let ghost before = found.deep_view();
            proof {
                reveal(Seq::filter);
                assert(all.take(i + 1).drop_last() =~= all.take(i as int));
                assert(all.take(i + 1).last() == item@);
            }
            if ProcessManager::filter(item, &search_args) {
                found.push(item);
                assert(found.deep_view() =~= before.push(item@));
            }
            i += 1;
        }
        assert(all.take(i as int) =~= all);
        found
    }

    /// Whether `ele` meets every criterion of `search_args` that is given.
    pub fn filter(ele: &ProcessItem, search_args: &SearchArgs) -> (ok: bool)
        ensures
            ok == search_args@.admits(ele@),
    {
        search_args.matches(ele)
    }

    /// Appends `process_item` to the definitions. Names are not checked for
    /// uniqueness.
    pub fn add(&mut self, process_item: ProcessItem)
        ensures
            final(self)@.path == old(self)@.path,
            final(self)@.definitions == old(self)@.definitions.push(process_item@),
    {
        self.conf.processes.push(process_item);
        assert(self.conf.processes.deep_view() =~= old(self).conf.processes.deep_view().push(
            process_item@,
        ));
    }

    /// Drops every definition whose name is one of `names`, and keeps the
    /// others in their order. A name that no definition bears changes
    /// nothing.
    pub fn remove(&mut self, names: Vec<String>)
        ensures
            final(self)@.path == old(self)@.path,
            final(self)@.definitions == old(self)@.definitions.filter(
                not_named_in(names.deep_view()),
            ),
    {
        let ghost all = self.conf.processes.deep_view();
        let ghost kept = not_named_in(names.deep_view());
        let total = self.conf.processes.len();
        let mut seen: usize = 0;
        let mut at: usize = 0;
        proof {
            reveal(Seq::filter);
            assert(all.take(0).filter(kept) =~= Seq::<ProcessDefinition>::empty());
            assert(all.skip(0) =~= all);
            assert(Seq::<ProcessDefinition>::empty() + all =~= all);
        }
        while seen < total
            invariant
                self.conf_path == old(self).conf_path,
                total == all.len(),
                seen <= total,
                kept == not_named_in(names.deep_view()),
                at == all.take(seen as int).filter(kept).len(),
                self.conf.processes.deep_view() == all.take(seen as int).filter(kept) + all.skip(
                    seen as int,
                ),
            decreases total - seen,
        {
            let ghost items = self.conf.processes@;
            let ghost current = self.conf.processes.deep_view();
            let ghost head = all.take(seen as int).filter(kept);
            proof {
                reveal(Seq::filter);
                assert(all.take(seen + 1).drop_last() =~= all.take(seen as int));
                assert(all.take(seen + 1).last() == all[seen as int]);
                assert(current.len() == head.len() + all.skip(seen as int).len());
                assert(self.conf.processes@.len() == current.len());
                assert(current[at as int] == all.skip(seen as int)[0]);
                assert(self.conf.processes@[at as int]@ == current[at as int]);
            }
            if contains(&names, &self.conf.processes[at].name) {
                self.conf.processes.remove(at);
                proof {
                    let shorter = self.conf.processes.deep_view();
                    let wanted = head + all.skip(seen + 1);
                    assert(self.conf.processes@ == items.remove(at as int));
                    assert(shorter.len() == wanted.len());
                    assert forall|j: int| 0 <= j < shorter.len() implies shorter[j]
                        == wanted[j] by {
                        if j < at {
                            assert(shorter[j] == items[j]@);
                            assert(current[j] == items[j]@);
                        } else {
                            assert(shorter[j] == items[j + 1]@);
                            assert(current[j + 1] == items[j + 1]@);
                            assert(current[j + 1] == all.skip(seen as int)[j + 1 - at]);
                        }
                    }
                    assert(shorter =~= wanted);
                }
            } else {
                assert(current =~= head.push(all[seen as int]) + all.skip(seen + 1));
                at += 1;
            }
            seen += 1;
        }
        proof {
            assert(all.take(total as int) =~= all);
            assert(all.skip(total as int) =~= Seq::<ProcessDefinition>::empty());
            assert(self.conf.processes.deep_view() =~= all.filter(kept));
        }
    }
}

} // verus!
