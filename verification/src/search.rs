//! Search criteria over process definitions.

use crate::item::{ProcessDefinition, ProcessItem};
use crate::text::{contains, intersects, overlap};
use vstd::prelude::*;

verus! {

/// The model of [`SearchArgs`]: for each field, either no restriction or the
/// list of accepted values.
pub struct Criteria {
    pub tags: Option<Seq<Seq<char>>>,
    pub name: Option<Seq<Seq<char>>>,
    pub command: Option<Seq<Seq<char>>>,
    pub process_type: Option<Seq<Seq<char>>>,
    pub log_path: Option<Seq<Seq<char>>>,
    pub detection_start_cmd: Option<Seq<Seq<char>>>,
}

/// A filter per field. A field left out accepts every definition; a field
/// that is given accepts the definitions whose value is one of those listed.
/// For tags, one shared tag is enough.
#[derive(Clone, Debug, PartialEq, Eq)]
pub struct SearchArgs {
    pub tags: Option<Vec<String>>,
    pub name: Option<Vec<String>>,
    pub command: Option<Vec<String>>,
    pub process_type: Option<Vec<String>>,
    pub log_path: Option<Vec<String>>,
    pub detection_start_cmd: Option<Vec<String>>,
}

/// The model of an optional list of strings.
pub open spec fn choices(list: Option<Vec<String>>) -> Option<Seq<Seq<char>>> {
    match list {
        Some(values) => Some(values.deep_view()),
        None => None,
    }
}

/// Whether `value` passes a filter on a single-valued field.
pub open spec fn accepts(filter: Option<Seq<Seq<char>>>, value: Seq<char>) -> bool {
    match filter {
        Some(values) => values.contains(value),
        None => true,
    }
}

/// Whether `values` pass a filter on a many-valued field: one value in
/// common with the filter suffices.
pub open spec fn accepts_any(filter: Option<Seq<Seq<char>>>, values: Seq<Seq<char>>) -> bool {
    match filter {
        Some(wanted) => intersects(wanted, values),
        None => true,
    }
}

impl Criteria {
    /// The criteria that restrict nothing.
    pub open spec fn none() -> Criteria {
        Criteria {
            tags: None,
            name: None,
            command: None,
            process_type: None,
            log_path: None,
            detection_start_cmd: None,
        }
    }

    /// The criteria that restrict the name alone.
    pub open spec fn by_name(names: Seq<Seq<char>>) -> Criteria {
        Criteria { name: Some(names), ..Criteria::none() }
    }

    /// The criteria that restrict the tags alone.
    pub open spec fn by_tags(tags: Seq<Seq<char>>) -> Criteria {
        Criteria { tags: Some(tags), ..Criteria::none() }
    }

    /// Whether a definition meets every criterion that is given.
    pub open spec fn admits(self, d: ProcessDefinition) -> bool {
        &&& accepts(self.command, d.command)
        &&& accepts_any(self.tags, d.tags)
        &&& accepts(self.name, d.name)
        &&& accepts(self.process_type, d.process_type)
        &&& accepts(self.log_path, d.log_path)
        &&& accepts(self.detection_start_cmd, d.detection_start_cmd)
    }
}

impl View for SearchArgs {
    type V = Criteria;

    open spec fn view(&self) -> Criteria {
        Criteria {
            tags: choices(self.tags),
            name: choices(self.name),
            command: choices(self.command),
            process_type: choices(self.process_type),
            log_path: choices(self.log_path),
            detection_start_cmd: choices(self.detection_start_cmd),
        }
    }
}

/// Decides a filter on a single-valued field.
pub fn field_accepts(filter: &Option<Vec<String>>, value: &String) -> (ok: bool)
    ensures
        ok == accepts(choices(*filter), value@),
{
    match filter {
        Some(values) => contains(values, value),
        None => true,
    }
}

/// Decides a filter on the tags.
pub fn tags_accept(filter: &Option<Vec<String>>, tags: &Vec<String>) -> (ok: bool)
    ensures
        ok == accepts_any(choices(*filter), tags.deep_view()),
{
    match filter {
        Some(wanted) => overlap(wanted, tags),
        None => true,
    }
}

impl SearchArgs {
    /// Criteria that accept every definition.
    pub fn all() -> (args: SearchArgs)
        ensures
            args@ == Criteria::none(),
    {
        SearchArgs {
            tags: None,
            name: None,
            command: None,
            process_type: None,
            log_path: None,
            detection_start_cmd: None,
        }
    }

    /// Criteria that accept the definitions whose name is one of `names`.
    pub fn with_names(names: Vec<String>) -> (args: SearchArgs)
        ensures
            args@ == Criteria::by_name(names.deep_view()),
    {
        SearchArgs {
            tags: None,
            name: Some(names),
            command: None,
            process_type: None,
            log_path: None,
            detection_start_cmd: None,
        }
    }

    /// Whether `item` meets every criterion that is given.
    pub fn matches(&self, item: &ProcessItem) -> (ok: bool)
        ensures
            ok == self@.admits(item@),
    {
        field_accepts(&self.command, &item.command) && tags_accept(&self.tags, &item.tags)
            && field_accepts(&self.name, &item.name) && field_accepts(
            &self.process_type,
            &item.process_type,
        ) && field_accepts(&self.log_path, &item.log_path) && field_accepts(
            &self.detection_start_cmd,
            &item.detection_start_cmd,
        )
    }
}

} // verus!
