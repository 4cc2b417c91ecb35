//! Starting a selection of definitions, one decision at a time.
//!
//! For each selected definition, in file order, its detection command is run
//! first; the process is launched only if that command printed nothing. The
//! caller runs the commands: it asks [`StartRun::action`] what to do, does
//! it, and reports the outcome to [`StartRun::advance`]. The first failure
//! ends the run.

use crate::error::ManagerError;
use crate::item::{ProcessDefinition, ProcessItem};
use crate::laws::lemma_list_by_name;
use crate::process::{shell_argv, swpan, Launch};
use crate::search::SearchArgs;
use crate::store::{named_in, ProcessManager};
use vstd::prelude::*;

verus! {

/// Where a run stands with the definition it has reached.
#[derive(Clone, Copy, Debug, PartialEq, Eq, Structural)]
pub enum Stage {
    /// The detection command is to be run.
    Detect,
    /// The detection command printed nothing: the process is to be launched.
    Spawn,
    /// A command failed; the run is over.
    Failed(ManagerError),
}

/// The model of a [`StartRun`]: the selected definitions, how many of them
/// are dealt with, and the stage of the one that is next.
pub struct Run {
    pub targets: Seq<ProcessDefinition>,
    pub next: nat,
    pub stage: Stage,
}

/// The model of a [`StartEvent`].
pub enum Outcome {
    Output(Seq<char>),
    Spawned,
    Failed,
}

/// The model of a [`StartAction`].
pub enum Step {
    Detect(Seq<char>),
    Spawn(Seq<Seq<char>>, Seq<char>),
    Finish,
    Abort(ManagerError),
}

/// What the caller reports back.
#[derive(Clone, Debug, PartialEq, Eq)]
pub enum StartEvent {
    /// The detection command ran; this is what it printed.
    Output(String),
    /// The launch was handed off.
    Spawned,
    /// The command that was asked for could not be run.
    Failed,
}

/// What the caller is to do next.
#[derive(Clone, Debug, PartialEq, Eq)]
pub enum StartAction {
    /// Run this detection command through the shell and capture its output.
    Detect(String),
    /// Perform this launch.
    Spawn(Launch),
    /// Nothing is left to do.
    Finish,
    /// Stop: the run failed with this error.
    Abort(ManagerError),
}

/// A run over the selected definitions.
pub struct StartRun<'a> {
    targets: Vec<&'a ProcessItem>,
    next: usize,
    stage: Stage,
}

impl View for StartEvent {
    type V = Outcome;

    open spec fn view(&self) -> Outcome {
        match self {
            StartEvent::Output(text) => Outcome::Output(text@),
            StartEvent::Spawned => Outcome::Spawned,
            StartEvent::Failed => Outcome::Failed,
        }
    }
}

impl View for StartAction {
    type V = Step;

    open spec fn view(&self) -> Step {
        match self {
            StartAction::Detect(command) => Step::Detect(command@),
            StartAction::Spawn(launch) => Step::Spawn(launch.argv.deep_view(), launch.log_path@),
            StartAction::Finish => Step::Finish,
            StartAction::Abort(error) => Step::Abort(*error),
        }
    }
}

impl Run {
    /// A run that has dealt with none of `targets`.
    pub open spec fn fresh(targets: Seq<ProcessDefinition>) -> Run {
        Run { targets, next: 0, stage: Stage::Detect }
    }

    /// No more definitions are dealt with than were selected.
    pub open spec fn wf(self) -> bool {
        self.next <= self.targets.len()
    }

    /// Whether the run is over, by success or by failure.
    pub open spec fn over(self) -> bool {
        self.stage is Failed || self.next >= self.targets.len()
    }

    /// What is to be done next.
    pub open spec fn pending(self) -> Step {
        match self.stage {
            Stage::Failed(error) => Step::Abort(error),
            Stage::Detect => if self.next >= self.targets.len() {
                Step::Finish
            } else {
                Step::Detect(self.targets[self.next as int].detection_start_cmd)
            },
            Stage::Spawn => if self.next >= self.targets.len() {
                Step::Finish
            } else {
                Step::Spawn(
                    shell_argv(self.targets[self.next as int].command),
                    self.targets[self.next as int].log_path,
                )
            },
        }
    }

    /// The run after `outcome` is reported. A definition whose detection
    /// command printed something is passed over; one whose command printed
    /// nothing is launched, and passed once the launch is reported. A
    /// failure ends the run with the error of the command that failed. An
    /// outcome that answers nothing that was asked changes nothing.
    pub open spec fn step(self, outcome: Outcome) -> Run {
        if self.over() {
            self
        } else {
            match (self.stage, outcome) {
                (Stage::Detect, Outcome::Output(text)) => if text.len() > 0 {
                    Run { next: self.next + 1, ..self }
                } else {
                    Run { stage: Stage::Spawn, ..self }
                },
                (Stage::Detect, Outcome::Failed) => Run {
                    stage: Stage::Failed(ManagerError::DetectionCommandError),
                    ..self
                },
                (Stage::Spawn, Outcome::Spawned) => Run {
                    next: self.next + 1,
                    stage: Stage::Detect,
                    ..self
                },
                (Stage::Spawn, Outcome::Failed) => Run {
                    stage: Stage::Failed(ManagerError::SpawnError),
                    ..self
                },
                _ => self,
            }
        }
    }

    /// How far the run is from its end, counted in outcomes.
    pub open spec fn remaining(self) -> nat {
        if self.over() {
            0
        } else if self.stage is Detect {
            (2 * (self.targets.len() - self.next)) as nat
        } else {
            (2 * (self.targets.len() - self.next) - 1) as nat
        }
    }

    /// Whether `outcome` answers what is pending.
    pub open spec fn answers(self, outcome: Outcome) -> bool {
        match (self.pending(), outcome) {
            (Step::Detect(_), Outcome::Output(_)) => true,
            (Step::Detect(_), Outcome::Failed) => true,
            (Step::Spawn(_, _), Outcome::Spawned) => true,
            (Step::Spawn(_, _), Outcome::Failed) => true,
            _ => false,
        }
    }
}

impl<'a> View for StartRun<'a> {
    type V = Run;

    closed spec fn view(&self) -> Run {
        Run { targets: self.targets.deep_view(), next: self.next as nat, stage: self.stage }
    }
}

impl<'a> StartRun<'a> {
    #[verifier::type_invariant]
    spec fn inv(self) -> bool {
        self.next <= self.targets.len()
    }

    /// A run over `targets`, in their order.
    pub fn new(targets: Vec<&'a ProcessItem>) -> (run: Self)
        ensures
            run@ == Run::fresh(targets.deep_view()),
    {
        StartRun { targets, next: 0, stage: Stage::Detect }
    }

    /// What the caller is to do next.
    pub fn action(&self) -> (action: StartAction)
        ensures
            action@ == self@.pending(),
            self@.wf(),
    {
        proof {
            use_type_invariant(self);
        }
        match self.stage {
            Stage::Failed(error) => StartAction::Abort(error),
            Stage::Detect => {
                if self.next >= self.targets.len() {
                    StartAction::Finish
                } else {
                    let item = self.targets[self.next];
                    StartAction::Detect(item.detection_start_cmd.clone())
                }
            },
            Stage::Spawn => {
                if self.next >= self.targets.len() {
                    StartAction::Finish
                } else {
                    let item = self.targets[self.next];
                    StartAction::Spawn(swpan(item.command.as_str(), item.log_path.as_str()))
                }
            },
        }
    }

    /// Takes note of what the caller reports.
    pub fn advance(&mut self, event: StartEvent)
        ensures
            final(self)@ == old(self)@.step(event@),
            final(self)@.wf(),
    {
        proof {
            use_type_invariant(&*self);
        }
        if self.next >= self.targets.len() {
            return ;
        }
        match self.stage {
            Stage::Failed(_) => {},
            Stage::Detect => match event {
                StartEvent::Output(text) => {
                    if crate::process::is_started(text.as_str()) {
                        self.next = self.next + 1;
                    } else {
                        self.stage = Stage::Spawn;
                    }
                },
                StartEvent::Failed => {
                    self.stage = Stage::Failed(ManagerError::DetectionCommandError);
                },
                StartEvent::Spawned => {},
            },
            Stage::Spawn => match event {
                StartEvent::Spawned => {
                    self.next = self.next + 1;
                    self.stage = Stage::Detect;
                },
                StartEvent::Failed => {
                    self.stage = Stage::Failed(ManagerError::SpawnError);
                },
                StartEvent::Output(_) => {},
            },
        }
    }
}

impl ProcessManager {
    /// Begins starting the definitions whose name is one of `collect`, in
    /// file order.
    pub fn start(&self, collect: Vec<String>) -> (run: StartRun<'_>)
        ensures
            run@ == Run::fresh(self@.definitions.filter(named_in(collect.deep_view()))),
    {
        proof {
            lemma_list_by_name(self@.definitions, collect.deep_view());
        }
        StartRun::new(self.list(SearchArgs::with_names(collect)))
    }
}

/// Reporting an outcome keeps a run well formed and never changes which
/// definitions were selected.
pub proof fn lemma_step_keeps_targets(run: Run, outcome: Outcome)
    requires
        run.wf(),
    ensures
        run.step(outcome).wf(),
        run.step(outcome).targets == run.targets,
        run.step(outcome).next >= run.next,
{
}

/// Every outcome that answers what was asked brings the run closer to its
/// end; a run with nothing remaining is over.
pub proof fn lemma_step_progress(run: Run, outcome: Outcome)
    requires
        run.wf(),
        run.answers(outcome),
    ensures
        !run.over(),
        run.step(outcome).remaining() < run.remaining(),
{
}

/// A definition whose detection command printed something is never
/// launched: the run passes on to the next definition.
pub proof fn lemma_running_is_skipped(run: Run, output: Seq<char>)
    requires
        run.wf(),
        !run.over(),
        run.stage is Detect,
        output.len() > 0,
    ensures
        run.step(Outcome::Output(output)).next == run.next + 1,
        run.step(Outcome::Output(output)).stage is Detect,
        !(run.step(Outcome::Output(output)).pending() is Spawn),
{
}

/// A definition whose detection command printed nothing is launched next,
/// with its own command and log path.
pub proof fn lemma_idle_is_launched(run: Run)
    requires
        run.wf(),
        !run.over(),
        run.stage is Detect,
    ensures
        run.step(Outcome::Output(Seq::empty())).pending() == Step::Spawn(
            shell_argv(run.targets[run.next as int].command),
            run.targets[run.next as int].log_path,
        ),
        run.step(Outcome::Output(Seq::empty())).step(Outcome::Spawned).next == run.next + 1,
{
}

/// A failure is final: whatever is reported afterwards, the run stays
/// aborted with the same error.
pub proof fn lemma_failure_is_final(run: Run, outcome: Outcome, later: Outcome)
    requires
        run.wf(),
        run.answers(outcome),
        outcome is Failed,
    ensures
        run.step(outcome).pending() is Abort,
        run.step(outcome).step(later) == run.step(outcome),
        run.stage is Detect ==> run.step(outcome).pending() == Step::Abort(
            ManagerError::DetectionCommandError,
        ),
        run.stage is Spawn ==> run.step(outcome).pending() == Step::Abort(
            ManagerError::SpawnError,
        ),
{
}

} // verus!
