//! How a caller drives a statement: what to do after each step outcome, as an
//! explicit state machine from state and outcome to next state and action.
//!
//! The engine never blocks: a step hands back an outcome, and the caller
//! decides whether to step again, to service pending I/O first, to prepare the
//! statement anew, or to stop. This module holds those decisions. The loop
//! that performs them lives with the caller.

use vstd::prelude::*;
use crate::outcome::{CheckpointOutcome, StepOutcome};

verus! {

/// What a run expects of the statement it drives.
#[derive(Clone, Copy, Debug, PartialEq, Eq, Structural)]
pub enum Mode {
    /// A statement that changes data: it yields no rows and must run to its end.
    Write,
    /// A query whose every row is read; contention is a failure.
    Scan,
    /// A query whose every row is read; any outcome but a row or pending I/O
    /// ends the run quietly.
    Relaxed,
    /// A query of which only the first row is read.
    First,
    /// A query that must yield one row: a run that ends without a row is
    /// started again.
    Single,
}

/// Why a run failed.
#[derive(Clone, Copy, Debug, PartialEq, Eq, Structural)]
pub enum Failure {
    /// The engine reported contention where the run does not tolerate it.
    Busy,
    /// The engine reported an outcome that the mode does not allow.
    Unexpected,
    /// A row arrived without the value that the run reads from it.
    MissingValue,
}

/// What the caller does next.
#[derive(Clone, Copy, Debug, PartialEq, Eq, Structural)]
pub enum Action {
    /// Step the statement again.
    Step,
    /// Let the I/O collaborator make progress, then step again.
    RunIo,
    /// Prepare the statement anew, then step it.
    Restart,
    /// The run is over; what it read is complete.
    Stop,
    /// The run failed.
    Fail(Failure),
}

/// Where a run stands.
#[derive(Clone, Copy, Debug, PartialEq, Eq, Structural)]
pub enum RunState {
    /// The statement has not been stepped since it was prepared or reset.
    Ready,
    /// The statement has been stepped and is to be stepped further.
    Running,
    /// The run ended normally.
    Finished,
    /// The run failed.
    Failed(Failure),
}

impl RunState {
    /// True while the statement is to be stepped: the run has neither ended
    /// nor failed.
    pub open spec fn is_live(self) -> bool {
        self == RunState::Ready || self == RunState::Running
    }
}

/// The mathematical model of a run: its mode, the values read so far, in the
/// order of their rows, and where it stands.
pub struct RunModel<T> {
    pub mode: Mode,
    pub items: Seq<T>,
    pub state: RunState,
}

/// The action that `mode` prescribes after `outcome`; `has_value` tells
/// whether a row outcome came with the value that the run reads.
pub open spec fn action_for(mode: Mode, outcome: StepOutcome, has_value: bool) -> Action {
    match outcome {
        StepOutcome::Io => Action::RunIo,
        StepOutcome::Row => match mode {
            Mode::Write => Action::Fail(Failure::Unexpected),
            Mode::Scan | Mode::Relaxed => if has_value {
                Action::Step
            } else {
                Action::Fail(Failure::MissingValue)
            },
            Mode::First | Mode::Single => if has_value {
                Action::Stop
            } else {
                Action::Fail(Failure::MissingValue)
            },
        },
        StepOutcome::Done => match mode {
            Mode::Single => Action::Restart,
            _ => Action::Stop,
        },
        StepOutcome::Interrupt => match mode {
            Mode::Write => Action::Fail(Failure::Unexpected),
            Mode::Single => Action::Restart,
            _ => Action::Stop,
        },
        StepOutcome::Busy => match mode {
            Mode::Write => Action::Fail(Failure::Unexpected),
            Mode::Scan | Mode::Single => Action::Fail(Failure::Busy),
            Mode::Relaxed | Mode::First => Action::Stop,
        },
    }
}

/// The state in which `action` leaves a live run.
pub open spec fn state_after(action: Action) -> RunState {
    match action {
        Action::Step | Action::RunIo => RunState::Running,
        Action::Restart => RunState::Ready,
        Action::Stop => RunState::Finished,
        Action::Fail(f) => RunState::Failed(f),
    }
}

/// The action that a run which has ended or failed answers with.
pub open spec fn settled_action(state: RunState) -> Action {
    match state {
        RunState::Failed(f) => Action::Fail(f),
        _ => Action::Stop,
    }
}

/// True when `outcome` with `item` adds a value to a run of kind `mode`.
pub open spec fn reads_value<T>(mode: Mode, outcome: StepOutcome, item: Option<T>) -> bool {
    outcome == StepOutcome::Row && item.is_some() && mode != Mode::Write
}

/// One transition of the model: the run after `outcome`, which came with
/// `item` where the row held the value that the run reads.
pub open spec fn step_model<T>(run: RunModel<T>, outcome: StepOutcome, item: Option<T>) -> RunModel<
    T,
> {
    if !run.state.is_live() {
        run
    } else {
        RunModel {
            mode: run.mode,
            items: if reads_value(run.mode, outcome, item) {
                run.items.push(item.unwrap())
            } else {
                run.items
            },
            state: state_after(action_for(run.mode, outcome, item.is_some())),
        }
    }
}

/// The action that the model answers `outcome` with.
pub open spec fn step_action<T>(run: RunModel<T>, outcome: StepOutcome, item: Option<T>) -> Action {
    if !run.state.is_live() {
        settled_action(run.state)
    } else {
        action_for(run.mode, outcome, item.is_some())
    }
}

/// The model of a run that has read nothing yet.
pub open spec fn fresh<T>(mode: Mode) -> RunModel<T> {
    RunModel { mode, items: Seq::empty(), state: RunState::Ready }
}

/// The run rewound for another pass: nothing read, the mode kept.
pub open spec fn rewound<T>(run: RunModel<T>) -> RunModel<T> {
    fresh(run.mode)
}

/// Decides what the caller does after `outcome` in a run of kind `mode`.
pub fn next_action(mode: Mode, outcome: StepOutcome, has_value: bool) -> (action: Action)
    ensures
        action == action_for(mode, outcome, has_value),
{
    match outcome {
        StepOutcome::Io => Action::RunIo,
        StepOutcome::Row => match mode {
            Mode::Write => Action::Fail(Failure::Unexpected),
            Mode::Scan | Mode::Relaxed => if has_value {
                Action::Step
            } else {
                Action::Fail(Failure::MissingValue)
            },
            Mode::First | Mode::Single => if has_value {
                Action::Stop
            } else {
                Action::Fail(Failure::MissingValue)
            },
        },
        StepOutcome::Done => match mode {
            Mode::Single => Action::Restart,
            _ => Action::Stop,
        },
        StepOutcome::Interrupt => match mode {
            Mode::Write => Action::Fail(Failure::Unexpected),
            Mode::Single => Action::Restart,
            _ => Action::Stop,
        },
        StepOutcome::Busy => match mode {
            Mode::Write => Action::Fail(Failure::Unexpected),
            Mode::Scan | Mode::Single => Action::Fail(Failure::Busy),
            Mode::Relaxed | Mode::First => Action::Stop,
        },
    }
}

/// The action after one call of a flush: pending I/O is serviced and the
/// flush called again, until it reports that it is done.
pub open spec fn flush_action(outcome: CheckpointOutcome) -> Action {
    match outcome {
        CheckpointOutcome::Done => Action::Stop,
        CheckpointOutcome::Io => Action::RunIo,
    }
}

/// Decides what the caller does after one call of a flush.
pub fn after_flush(outcome: CheckpointOutcome) -> (action: Action)
    ensures
        action == flush_action(outcome),
{
    match outcome {
        CheckpointOutcome::Done => Action::Stop,
        CheckpointOutcome::Io => Action::RunIo,
    }
}

/// A run of one statement: the mode it is driven in, the values read from its
/// rows so far, and where it stands.
pub struct Run<T> {
    mode: Mode,
    items: Vec<T>,
    state: RunState,
}

impl<T> View for Run<T> {
    type V = RunModel<T>;

    closed spec fn view(&self) -> RunModel<T> {
        RunModel { mode: self.mode, items: self.items@, state: self.state }
    }
}

impl<T> Run<T> {
    /// A run that has read nothing yet.
    pub fn new(mode: Mode) -> (run: Self)
        ensures
            run@ == fresh::<T>(mode),
    {
        Run { mode, items: Vec::new(), state: RunState::Ready }
    }

    /// Takes in the outcome of one step, with the value read from the row
    /// where there is one, and says what the caller does next. A run that has
    /// ended or failed stays as it is.
    pub fn advance(&mut self, outcome: StepOutcome, item: Option<T>) -> (action: Action)
        ensures
            final(self)@ == step_model(old(self)@, outcome, item),
            action == step_action(old(self)@, outcome, item),
    {
        match self.state {
            RunState::Finished => Action::Stop,
            RunState::Failed(f) => Action::Fail(f),
            RunState::Ready | RunState::Running => {
                let action = next_action(self.mode, outcome, item.is_some());
                match (outcome, self.mode, item) {
                    (StepOutcome::Row, Mode::Write, _) => {},
                    (StepOutcome::Row, _, Some(value)) => {
                        self.items.push(value);
                    },
                    _ => {},
                }
                self.state = match action {
                    Action::Step | Action::RunIo => RunState::Running,
                    Action::Restart => RunState::Ready,
                    Action::Stop => RunState::Finished,
                    Action::Fail(f) => RunState::Failed(f),
                };
                action
            },
        }
    }

    /// Rewinds the run for another pass over the same statement: what was read
    /// is dropped, the mode stays.
    pub fn reset(&mut self)
        ensures
            final(self)@ == rewound(old(self)@),
    {
        self.items = Vec::new();
        self.state = RunState::Ready;
    }

    /// The mode of the run.
    pub fn mode(&self) -> (mode: Mode)
        ensures
            mode == self@.mode,
    {
        self.mode
    }

    /// Where the run stands.
    pub fn state(&self) -> (state: RunState)
        ensures
            state == self@.state,
    {
        self.state
    }

    /// The values read so far, in the order of their rows.
    pub fn items(&self) -> (items: &Vec<T>)
        ensures
            items@ == self@.items,
    {
        &self.items
    }

    /// Ends the run and hands out what it read.
    pub fn into_items(self) -> (items: Vec<T>)
        ensures
            items@ == self@.items,
    {
        self.items
    }
}

} // verus!
