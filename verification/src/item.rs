//! The persisted record of one managed process, and its mathematical model.

use crate::text::{join, joined};
use vstd::prelude::*;

verus! {

/// What a [`ProcessItem`] stands for: every field as a sequence of
/// characters, the tags as a sequence of such sequences, in their order.
pub struct ProcessDefinition {
    pub name: Seq<char>,
    pub tags: Seq<Seq<char>>,
    pub command: Seq<char>,
    pub process_type: Seq<char>,
    pub log_path: Seq<char>,
    pub detection_start_cmd: Seq<char>,
    pub comment: Seq<char>,
}

/// One process definition as it is kept in the store.
#[derive(Clone, Debug, PartialEq, Eq)]
pub struct ProcessItem {
    /// Identifier of the definition. The store does not enforce uniqueness.
    pub name: String,
    /// Free-form labels, in the order given; repeats are allowed.
    pub tags: Vec<String>,
    /// Shell command line that starts the process.
    pub command: String,
    /// Free-form classification label.
    pub process_type: String,
    /// Where the combined output of the process is written.
    pub log_path: String,
    /// Shell command whose non-empty output means "already running".
    pub detection_start_cmd: String,
    /// Free-form annotation.
    pub comment: String,
}

impl View for ProcessItem {
    type V = ProcessDefinition;

    open spec fn view(&self) -> ProcessDefinition {
        ProcessDefinition {
            name: self.name@,
            tags: self.tags.deep_view(),
            command: self.command@,
            process_type: self.process_type@,
            log_path: self.log_path@,
            detection_start_cmd: self.detection_start_cmd@,
            comment: self.comment@,
        }
    }
}

impl DeepView for ProcessItem {
    type V = ProcessDefinition;

    open spec fn deep_view(&self) -> ProcessDefinition {
        self.view()
    }
}

impl ProcessDefinition {
    /// The tags written on one line, separated by a comma and a space.
    pub open spec fn tag_line(self) -> Seq<char> {
        joined(self.tags, seq![',', ' '])
    }

    /// The one-line rendering of a definition: type, name, tags, command,
    /// detection command and log path, separated by tabs.
    pub open spec fn line(self) -> Seq<char> {
        self.process_type + seq!['\t'] + self.name + seq!['\t'] + self.tag_line() + seq!['\t']
            + self.command + seq!['\t'] + self.detection_start_cmd + seq!['\t'] + self.log_path
    }

    /// The cells of the definition's row in a listing: name, command, tags,
    /// type, log path, detection command, comment.
    pub open spec fn row(self) -> Seq<Seq<char>> {
        seq![
            self.name,
            self.command,
            self.tag_line(),
            self.process_type,
            self.log_path,
            self.detection_start_cmd,
            self.comment,
        ]
    }
}

impl ProcessItem {
    /// The tags on one line, separated by `", "`.
    pub fn tag_line(&self) -> (line: String)
        ensures
            line@ == self@.tag_line(),
    {
        proof {
            reveal_strlit(", ");
            assert(", "@ == seq![',', ' ']);
        }
        join(&self.tags, ", ")
    }

    /// Renders the definition on one tab-separated line.
    pub fn format(&self) -> (line: String)
        ensures
            line@ == self@.line(),
    {
        proof {
            reveal_strlit("\t");
            assert("\t"@ == seq!['\t']);
        }
        let tags = self.tag_line();
        let mut line = self.process_type.clone();
        line.append("\t");
        line.append(self.name.as_str());
        line.append("\t");
        line.append(tags.as_str());
        line.append("\t");
        line.append(self.command.as_str());
        line.append("\t");
        line.append(self.detection_start_cmd.as_str());
        line.append("\t");
        line.append(self.log_path.as_str());
        line
    }

    /// The cells of this definition's row in a listing.
    pub fn table_row(&self) -> (cells: Vec<String>)
        ensures
            cells.deep_view() == self@.row(),
    {
        let mut cells: Vec<String> = Vec::new();
        cells.push(self.name.clone());
        cells.push(self.command.clone());
        cells.push(self.tag_line());
        cells.push(self.process_type.clone());
        cells.push(self.log_path.clone());
        cells.push(self.detection_start_cmd.clone());
        cells.push(self.comment.clone());
        assert(cells.deep_view() =~= self@.row());
        cells
    }
}

} // verus!
