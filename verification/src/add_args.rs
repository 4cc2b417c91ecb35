//! Drafting a new definition: the fields given so far, and the dialogue
//! that completes them.
//!
//! The dialogue asks for the required fields that are missing, then shows
//! the draft for confirmation; as long as the user wants changes, it lets
//! them pick a field and edit it. The caller shows the prompts and reads the answers: it asks
//! [`Dialogue::prompt`] what to show and hands the answer to
//! [`Dialogue::reply`].

use crate::item::{ProcessDefinition, ProcessItem};
use crate::text::{join, joined, split_and_trim, split_trimmed};
use vstd::prelude::*;

verus! {

/// The fields of a definition that the dialogue can ask for, in the order
/// in which they are offered for editing.
#[derive(Clone, Copy, Debug, PartialEq, Eq, Structural)]
pub enum Field {
    Name,
    Command,
    Tags,
    ProcessType,
    LogPath,
    DetectionStartCmd,
    Comment,
}

/// Where the dialogue stands.
#[derive(Clone, Copy, Debug, PartialEq, Eq, Structural)]
pub enum Phase {
    /// Required fields are being collected, or the draft awaits confirmation.
    Collect,
    /// The user wants a change and is to pick a field.
    Choose,
    /// The user is editing this field.
    Edit(Field),
    /// The user accepted the draft.
    Done,
}

/// The model of [`AddArgs`].
pub struct Draft {
    pub pid: Option<u32>,
    pub tags: Option<Seq<Seq<char>>>,
    pub name: Option<Seq<char>>,
    pub command: Option<Seq<char>>,
    pub process_type: Option<Seq<char>>,
    pub log_path: Option<Seq<char>>,
    pub detection_start_cmd: Option<Seq<char>>,
    pub pid_search_cmd: Option<Seq<char>>,
    pub comment: Option<Seq<char>>,
}

/// What is known of a definition before it is added: every field is
/// optional, and `pid` names a running process to take the command from.
#[derive(Clone, Debug, PartialEq, Eq)]
pub struct AddArgs {
    pub pid: Option<u32>,
    pub tags: Option<Vec<String>>,
    pub name: Option<String>,
    pub command: Option<String>,
    pub process_type: Option<String>,
    pub log_path: Option<String>,
    pub detection_start_cmd: Option<String>,
    pub pid_search_cmd: Option<String>,
    pub comment: Option<String>,
}

/// The model of a [`Prompt`].
pub enum Question {
    Ask(Field),
    Confirm,
    Choose,
    Edit(Field, Seq<char>),
    Done,
}

/// The model of a [`Reply`].
pub enum Answer {
    Text(Seq<char>),
    More(bool),
    Choice(int),
}

/// The model of a [`Dialogue`].
pub struct Talk {
    pub draft: Draft,
    pub phase: Phase,
}

/// What the caller is to show.
#[derive(Clone, Debug, PartialEq, Eq)]
pub enum Prompt {
    /// Ask for this required field, which has no value yet.
    Ask(Field),
    /// Show the draft and ask whether anything is left to change.
    Confirm,
    /// Let the user pick the field to change.
    Choose,
    /// Ask for a new value of this field, starting from the text given.
    Edit(Field, String),
    /// The draft is accepted.
    Done,
}

/// What the user answered.
#[derive(Clone, Debug, PartialEq, Eq)]
pub enum Reply {
    /// The text that was typed.
    Text(String),
    /// Whether anything is left to change.
    More(bool),
    /// The position of the field that was picked.
    Choice(usize),
}

/// The dialogue over a draft.
pub struct Dialogue {
    args: AddArgs,
    phase: Phase,
}

/// The model of an optional string.
pub open spec fn text_of(value: Option<String>) -> Option<Seq<char>> {
    match value {
        Some(text) => Some(text@),
        None => None,
    }
}

/// The model of an optional list of strings.
pub open spec fn texts_of(value: Option<Vec<String>>) -> Option<Seq<Seq<char>>> {
    match value {
        Some(list) => Some(list.deep_view()),
        None => None,
    }
}

/// The text of an optional field: empty where it has no value.
pub open spec fn or_empty(value: Option<Seq<char>>) -> Seq<char> {
    match value {
        Some(text) => text,
        None => Seq::empty(),
    }
}

/// The field offered at `position`, counted from zero.
pub open spec fn field_at(position: int) -> Option<Field> {
    if position == 0 {
        Some(Field::Name)
    } else if position == 1 {
        Some(Field::Command)
    } else if position == 2 {
        Some(Field::Tags)
    } else if position == 3 {
        Some(Field::ProcessType)
    } else if position == 4 {
        Some(Field::LogPath)
    } else if position == 5 {
        Some(Field::DetectionStartCmd)
    } else if position == 6 {
        Some(Field::Comment)
    } else {
        None
    }
}

impl Field {
    /// The position at which this field is offered.
    pub open spec fn position(self) -> int {
        match self {
            Field::Name => 0,
            Field::Command => 1,
            Field::Tags => 2,
            Field::ProcessType => 3,
            Field::LogPath => 4,
            Field::DetectionStartCmd => 5,
            Field::Comment => 6,
        }
    }

    /// The field offered at `position`, if there is one.
    pub fn from_index(position: usize) -> (field: Option<Field>)
        ensures
            field == field_at(position as int),
    {
        if position == 0 {
            Some(Field::Name)
        } else if position == 1 {
            Some(Field::Command)
        } else if position == 2 {
            Some(Field::Tags)
        } else if position == 3 {
            Some(Field::ProcessType)
        } else if position == 4 {
            Some(Field::LogPath)
        } else if position == 5 {
            Some(Field::DetectionStartCmd)
        } else if position == 6 {
            Some(Field::Comment)
        } else {
            None
        }
    }

    /// The position at which this field is offered.
    pub fn index(&self) -> (position: usize)
        ensures
            position == self.position(),
            field_at(position as int) == Some(*self),
    {
        match self {
            Field::Name => 0,
            Field::Command => 1,
            Field::Tags => 2,
            Field::ProcessType => 3,
            Field::LogPath => 4,
            Field::DetectionStartCmd => 5,
            Field::Comment => 6,
        }
    }
}

impl Draft {
    /// The required field to ask for next: the name, then the command.
    pub open spec fn missing(self) -> Option<Field> {
        if self.name is None {
            Some(Field::Name)
        } else if self.command is None {
            Some(Field::Command)
        } else {
            None
        }
    }

    /// The text from which an edit of `field` starts: its value, the tags
    /// joined by a comma and a space, or nothing where it has no value.
    pub open spec fn shown(self, field: Field) -> Seq<char> {
        match field {
            Field::Name => or_empty(self.name),
            Field::Command => or_empty(self.command),
            Field::Tags => match self.tags {
                Some(tags) => joined(tags, seq![',', ' ']),
                None => Seq::empty(),
            },
            Field::ProcessType => or_empty(self.process_type),
            Field::LogPath => or_empty(self.log_path),
            Field::DetectionStartCmd => or_empty(self.detection_start_cmd),
            Field::Comment => or_empty(self.comment),
        }
    }

    /// The draft with `field` set from `text`. Tags are the pieces of the
    /// text between commas, each trimmed; any other field is the text as it
    /// is.
    pub open spec fn with(self, field: Field, text: Seq<char>) -> Draft {
        match field {
            Field::Name => Draft { name: Some(text), ..self },
            Field::Command => Draft { command: Some(text), ..self },
            Field::Tags => Draft { tags: Some(split_trimmed(text, ',')), ..self },
            Field::ProcessType => Draft { process_type: Some(text), ..self },
            Field::LogPath => Draft { log_path: Some(text), ..self },
            Field::DetectionStartCmd => Draft { detection_start_cmd: Some(text), ..self },
            Field::Comment => Draft { comment: Some(text), ..self },
        }
    }

    /// The definition that the draft makes: there is one once name and
    /// command are given; a field without a value is empty in it.
    pub open spec fn item(self) -> Option<ProcessDefinition> {
        if self.name is Some && self.command is Some {
            Some(
                ProcessDefinition {
                    name: self.name->0,
                    tags: match self.tags {
                        Some(tags) => tags,
                        None => Seq::empty(),
                    },
                    command: self.command->0,
                    process_type: or_empty(self.process_type),
                    log_path: or_empty(self.log_path),
                    detection_start_cmd: or_empty(self.detection_start_cmd),
                    comment: or_empty(self.comment),
                },
            )
        } else {
            None
        }
    }
}

impl View for AddArgs {
    type V = Draft;

    open spec fn view(&self) -> Draft {
        Draft {
            pid: self.pid,
            tags: texts_of(self.tags),
            name: text_of(self.name),
            command: text_of(self.command),
            process_type: text_of(self.process_type),
            log_path: text_of(self.log_path),
            detection_start_cmd: text_of(self.detection_start_cmd),
            pid_search_cmd: text_of(self.pid_search_cmd),
            comment: text_of(self.comment),
        }
    }
}

/// The text of an optional field, empty where it has no value.
pub fn text_or_empty(value: &Option<String>) -> (text: String)
    ensures
        text@ == or_empty(text_of(*value)),
{
    match value {
        Some(text) => text.clone(),
        None => String::new(),
    }
}

impl AddArgs {
    /// A draft with no field given.
    pub fn empty() -> (args: AddArgs)
        ensures
            args@.pid is None,
            args@.tags is None,
            args@.name is None,
            args@.command is None,
            args@.process_type is None,
            args@.log_path is None,
            args@.detection_start_cmd is None,
            args@.pid_search_cmd is None,
            args@.comment is None,
    {
        AddArgs {
            pid: None,
            tags: None,
            name: None,
            command: None,
            process_type: None,
            log_path: None,
            detection_start_cmd: None,
            pid_search_cmd: None,
            comment: None,
        }
    }

    /// Takes the command from the description of a running process, where
    /// there is one; leaves the draft as it is where there is none.
    pub fn prefill(&mut self, info: &Option<(String, String, u64)>)
        ensures
            match *info {
                Some(found) => final(self)@ == (Draft { command: Some(found.0@), ..old(self)@ }),
                None => final(self)@ == old(self)@,
            },
    {
        match info {
            Some(found) => {
                self.command = Some(found.0.clone());
            },
            None => {},
        }
    }

    /// The required field to ask for next, if one is missing.
    pub fn missing(&self) -> (field: Option<Field>)
        ensures
            field == self@.missing(),
    {
        if self.name.is_none() {
            Some(Field::Name)
        } else if self.command.is_none() {
            Some(Field::Command)
        } else {
            None
        }
    }

    /// The text from which an edit of `field` starts.
    pub fn current(&self, field: Field) -> (text: String)
        ensures
            text@ == self@.shown(field),
    {
        match field {
            Field::Name => text_or_empty(&self.name),
            Field::Command => text_or_empty(&self.command),
            Field::Tags => match &self.tags {
                Some(tags) => {
                    proof {
                        reveal_strlit(", ");
                        assert(", "@ =~= seq![',', ' ']);
                    }
                    join(tags, ", ")
                },
                None => String::new(),
            },
            Field::ProcessType => text_or_empty(&self.process_type),
            Field::LogPath => text_or_empty(&self.log_path),
            Field::DetectionStartCmd => text_or_empty(&self.detection_start_cmd),
            Field::Comment => text_or_empty(&self.comment),
        }
    }

    /// Sets `field` from the text that was typed.
    pub fn set(&mut self, field: Field, text: String)
        ensures
            final(self)@ == old(self)@.with(field, text@),
    {
        match field {
            Field::Name => {
                self.name = Some(text);
            },
            Field::Command => {
                self.command = Some(text);
            },
            Field::Tags => {
                self.tags = Some(split_and_trim(text.as_str(), ','));
            },
            Field::ProcessType => {
                self.process_type = Some(text);
            },
            Field::LogPath => {
                self.log_path = Some(text);
            },
            Field::DetectionStartCmd => {
                self.detection_start_cmd = Some(text);
            },
            Field::Comment => {
                self.comment = Some(text);
            },
        }
    }
}

/// Makes the definition out of a draft: `None` as long as name or command
/// is missing; a field without a value is empty in the definition.
pub fn build_process_item(add_args: AddArgs) -> (built: Option<ProcessItem>)
    ensures
        match built {
            Some(item) => add_args@.item() == Some(item@),
            None => add_args@.item() is None,
        },
{
    let AddArgs { name, command, tags, process_type, log_path, detection_start_cmd, comment, .. } =
        add_args;
    match (name, command) {
        (Some(name), Some(command)) => {
            let tags = match tags {
                Some(list) => list,
                None => Vec::new(),
            };
            let item = ProcessItem {
                name,
                tags,
                command,
                process_type: text_or_empty(&process_type),
                log_path: text_or_empty(&log_path),
                detection_start_cmd: text_or_empty(&detection_start_cmd),
                comment: text_or_empty(&comment),
            };
            assert(item@.tags =~= add_args@.item()->0.tags);
            Some(item)
        },
        _ => None,
    }
}

impl Talk {
    /// A dialogue that begins with `draft`.
    pub open spec fn begin(draft: Draft) -> Talk {
        Talk { draft, phase: Phase::Collect }
    }

    /// Past the collection of required fields, none of them is missing.
    pub open spec fn wf(self) -> bool {
        !(self.phase is Collect) ==> self.draft.missing() is None
    }

    /// What is to be shown next.
    pub open spec fn prompt(self) -> Question {
        match self.phase {
            Phase::Collect => match self.draft.missing() {
                Some(field) => Question::Ask(field),
                None => Question::Confirm,
            },
            Phase::Choose => Question::Choose,
            Phase::Edit(field) => Question::Edit(field, self.draft.shown(field)),
            Phase::Done => Question::Done,
        }
    }

    /// The dialogue after `answer`. An answer of another kind than the
    /// prompt asks for, or a choice that names no field, changes nothing.
    pub open spec fn reply(self, answer: Answer) -> Talk {
        match (self.prompt(), answer) {
            (Question::Ask(field), Answer::Text(text)) => Talk {
                draft: self.draft.with(field, text),
                ..self
            },
            (Question::Confirm, Answer::More(more)) => Talk {
                phase: if more {
                    Phase::Choose
                } else {
                    Phase::Done
                },
                ..self
            },
            (Question::Choose, Answer::Choice(position)) => match field_at(position) {
                Some(field) => Talk { phase: Phase::Edit(field), ..self },
                None => self,
            },
            (Question::Edit(field, _), Answer::Text(text)) => Talk {
                draft: self.draft.with(field, text),
                phase: Phase::Collect,
            },
            _ => self,
        }
    }
}

impl View for Prompt {
    type V = Question;

    open spec fn view(&self) -> Question {
        match self {
            Prompt::Ask(field) => Question::Ask(*field),
            Prompt::Confirm => Question::Confirm,
            Prompt::Choose => Question::Choose,
            Prompt::Edit(field, text) => Question::Edit(*field, text@),
            Prompt::Done => Question::Done,
        }
    }
}

impl View for Reply {
    type V = Answer;

    open spec fn view(&self) -> Answer {
        match self {
            Reply::Text(text) => Answer::Text(text@),
            Reply::More(more) => Answer::More(*more),
            Reply::Choice(position) => Answer::Choice(*position as int),
        }
    }
}

impl View for Dialogue {
    type V = Talk;

    closed spec fn view(&self) -> Talk {
        Talk { draft: self.args@, phase: self.phase }
    }
}

impl Dialogue {
    #[verifier::type_invariant]
    spec fn inv(self) -> bool {
        !(self.phase is Collect) ==> self.args@.missing() is None
    }

    /// Begins the dialogue over `args`.
    pub fn new(args: AddArgs) -> (dialogue: Self)
        ensures
            dialogue@ == Talk::begin(args@),
    {
        Dialogue { args, phase: Phase::Collect }
    }

    /// The draft as it stands.
    pub fn args(&self) -> (args: &AddArgs)
        ensures
            args@ == self@.draft,
    {
        &self.args
    }

    /// What the caller is to show next.
    pub fn prompt(&self) -> (prompt: Prompt)
        ensures
            prompt@ == self@.prompt(),
            self@.wf(),
    {
        proof {
            use_type_invariant(self);
        }
        match self.phase {
            Phase::Collect => match self.args.missing() {
                Some(field) => Prompt::Ask(field),
                None => Prompt::Confirm,
            },
            Phase::Choose => Prompt::Choose,
            Phase::Edit(field) => Prompt::Edit(field, self.args.current(field)),
            Phase::Done => Prompt::Done,
        }
    }

    /// Sets `field` of the draft while required fields are collected.
    fn edit(&mut self, field: Field, text: String)
        requires
            old(self).phase is Collect,
        ensures
            final(self).phase == old(self).phase,
            final(self).args@ == old(self).args@.with(field, text@),
    {
        let mut args = AddArgs::empty();
        core::mem::swap(&mut self.args, &mut args);
        args.set(field, text);
        self.args = args;
    }

    /// Takes note of what the user answered.
    pub fn reply(&mut self, reply: Reply)
        ensures
            final(self)@ == old(self)@.reply(reply@),
            final(self)@.wf(),
    {
        proof {
            use_type_invariant(&*self);
        }
        match self.phase {
            Phase::Collect => match self.args.missing() {
                Some(field) => match reply {
                    Reply::Text(text) => {
                        self.edit(field, text);
                    },
                    _ => {},
                },
                None => match reply {
                    Reply::More(more) => {
                        if more {
                            self.phase = Phase::Choose;
                        } else {
                            self.phase = Phase::Done;
                        }
                    },
                    _ => {},
                },
            },
            Phase::Choose => match reply {
                Reply::Choice(position) => match Field::from_index(position) {
                    Some(field) => {
                        self.phase = Phase::Edit(field);
                    },
                    None => {},
                },
                _ => {},
            },
            Phase::Edit(field) => match reply {
                Reply::Text(text) => {
                    self.phase = Phase::Collect;
                    self.edit(field, text);
                },
                _ => {},
            },
            Phase::Done => {},
        }
    }

    /// Ends the dialogue: the definition, once the user has accepted the
    /// draft; `None` before that.
    pub fn finish(self) -> (built: Option<ProcessItem>)
        ensures
            self@.wf(),
            match built {
                Some(item) => self@.phase is Done && self@.draft.item() == Some(item@),
                None => !(self@.phase is Done),
            },
    {
        proof {
            use_type_invariant(&self);
        }
        match self.phase {
            Phase::Done => build_process_item(self.args),
            _ => None,
        }
    }
}

/// An answer keeps the dialogue well formed.
pub proof fn lemma_reply_keeps_wf(talk: Talk, answer: Answer)
    requires
        talk.wf(),
    ensures
        talk.reply(answer).wf(),
{
}

/// The dialogue accepts a draft only when name and command are given: once
/// it is done, the draft makes a definition, and no answer changes it.
pub proof fn lemma_done_has_item(talk: Talk, answer: Answer)
    requires
        talk.wf(),
        talk.phase is Done,
    ensures
        talk.draft.item() is Some,
        talk.reply(answer) == talk,
{
}

/// As long as a required field is missing the dialogue asks for it, the
/// name before the command, and the draft is shown for confirmation only
/// once both are given.
pub proof fn lemma_required_first(talk: Talk)
    requires
        talk.wf(),
        talk.phase is Collect,
    ensures
        talk.draft.name is None ==> talk.prompt() == Question::Ask(Field::Name),
        talk.draft.name is Some && talk.draft.command is None ==> talk.prompt() == Question::Ask(
            Field::Command,
        ),
        talk.prompt() is Confirm <==> talk.draft.name is Some && talk.draft.command is Some,
{
}

/// An edit changes the field that was picked and no other.
pub proof fn lemma_edit_changes_one_field(draft: Draft, field: Field, text: Seq<char>, other: Field)
    requires
        other != field,
    ensures
        draft.with(field, text).shown(other) == draft.shown(other),
        field != Field::Tags ==> draft.with(field, text).shown(field) == text,
        draft.with(field, text).pid == draft.pid,
        draft.with(field, text).pid_search_cmd == draft.pid_search_cmd,
{
}

} // verus!
