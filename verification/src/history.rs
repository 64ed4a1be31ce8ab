//! What holds of a run over a whole history of steps.
//!
//! A history is the sequence of outcomes that the engine reported, each with
//! the value read from its row where there was one. `replay` gives the run
//! that a history leads to, and the laws below are stated over it.

use vstd::prelude::*;
use crate::drive::{fresh, rewound, step_model, Mode, RunModel, RunState};
use crate::outcome::StepOutcome;

verus! {

/// One recorded step: its outcome, and the value read from its row where
/// there is one.
pub type Event<T> = (StepOutcome, Option<T>);

/// The run that results from taking in `events` one after another.
pub open spec fn replay<T>(run: RunModel<T>, events: Seq<Event<T>>) -> RunModel<T>
    decreases events.len(),
{
    if events.len() == 0 {
        run
    } else {
        let last = events.last();
        step_model(replay(run, events.drop_last()), last.0, last.1)
    }
}

/// True for a step that reported pending I/O.
pub open spec fn is_io<T>(event: Event<T>) -> bool {
    event.0 == StepOutcome::Io
}

/// True for a step that produced a row with the value that the run reads.
pub open spec fn is_row<T>(event: Event<T>) -> bool {
    event.0 == StepOutcome::Row && event.1.is_some()
}

/// The events that are left when the steps that reported pending I/O are
/// taken out.
pub open spec fn without_io<T>(events: Seq<Event<T>>) -> Seq<Event<T>>
    decreases events.len(),
{
    if events.len() == 0 {
        events
    } else if is_io(events.last()) {
        without_io(events.drop_last())
    } else {
        without_io(events.drop_last()).push(events.last())
    }
}

/// True when every event is pending I/O or a row that holds its value.
pub open spec fn only_rows_and_io<T>(events: Seq<Event<T>>) -> bool {
    forall|i: int| 0 <= i < events.len() ==> is_io(#[trigger] events[i]) || is_row(events[i])
}

/// The values that the row events hold, in their order.
pub open spec fn values_of<T>(events: Seq<Event<T>>) -> Seq<T>
    decreases events.len(),
{
    if events.len() == 0 {
        Seq::empty()
    } else if is_row(events.last()) {
        values_of(events.drop_last()).push(events.last().1.unwrap())
    } else {
        values_of(events.drop_last())
    }
}

/// A run that has ended or failed takes in further outcomes without change.
pub proof fn lemma_settled_run_absorbs<T>(run: RunModel<T>, events: Seq<Event<T>>)
    requires
        !run.state.is_live(),
    ensures
        replay(run, events) == run,
    decreases events.len(),
{
    if events.len() > 0 {
        lemma_settled_run_absorbs(run, events.drop_last());
    }
}

/// The mode of a run never changes.
pub proof fn lemma_replay_keeps_mode<T>(run: RunModel<T>, events: Seq<Event<T>>)
    ensures
        replay(run, events).mode == run.mode,
    decreases events.len(),
{
    if events.len() > 0 {
        lemma_replay_keeps_mode(run, events.drop_last());
    }
}

/// In every mode but `Single`, which prepares its statement anew, a run that
/// has left `Ready` does not come back to it but by a reset.
pub proof fn lemma_never_ready_again<T>(run: RunModel<T>, events: Seq<Event<T>>)
    requires
        run.state != RunState::Ready,
        run.mode != Mode::Single,
    ensures
        replay(run, events).state != RunState::Ready,
    decreases events.len(),
{
    if events.len() > 0 {
        lemma_never_ready_again(run, events.drop_last());
        lemma_replay_keeps_mode(run, events.drop_last());
    }
}

/// Pending I/O leaves a running statement as it is: the steps that only
/// reported pending I/O can be taken out of the history of a run that is
/// under way without changing what the run read or where it stands.
pub proof fn lemma_io_is_transparent<T>(run: RunModel<T>, events: Seq<Event<T>>)
    requires
        run.state != RunState::Ready,
        run.mode != Mode::Single,
    ensures
        replay(run, without_io(events)) == replay(run, events),
    decreases events.len(),
{
    if events.len() > 0 {
        let last = events.last();
        let front = events.drop_last();
        lemma_io_is_transparent(run, front);
        if is_io(last) {
            lemma_never_ready_again(run, front);
        } else {
            let kept = without_io(front);
            assert(kept.push(last).drop_last() =~= kept);
            assert(kept.push(last).last() == last);
        }
    }
}

/// From a new run on, pending I/O changes nothing of what is read, nor
/// whether and how the run ends: with the steps that reported pending I/O
/// taken out, a history leads to the same values, and to the same state but
/// that a run which saw nothing but pending I/O is `Running`, not `Ready`.
pub proof fn lemma_io_changes_no_result<T>(mode: Mode, events: Seq<Event<T>>)
    ensures
        replay(fresh::<T>(mode), without_io(events)).items == replay(fresh::<T>(mode), events).items,
        replay(fresh::<T>(mode), without_io(events)).state.is_live() == replay(
            fresh::<T>(mode),
            events,
        ).state.is_live(),
        !replay(fresh::<T>(mode), events).state.is_live() ==> replay(
            fresh::<T>(mode),
            without_io(events),
        ) == replay(fresh::<T>(mode), events),
    decreases events.len(),
{
    if events.len() > 0 {
        let last = events.last();
        let front = events.drop_last();
        lemma_io_changes_no_result(mode, front);
        lemma_replay_keeps_mode(fresh::<T>(mode), front);
        lemma_replay_keeps_mode(fresh::<T>(mode), without_io(front));
        if !is_io(last) {
            let kept = without_io(front);
            assert(kept.push(last).drop_last() =~= kept);
            assert(kept.push(last).last() == last);
        }
    }
}

/// A scan that sees only rows and pending I/O has read exactly the values of
/// those rows, in their order, and goes on.
pub proof fn lemma_scan_reads_every_row<T>(events: Seq<Event<T>>)
    requires
        only_rows_and_io(events),
    ensures
        replay(fresh::<T>(Mode::Scan), events).mode == Mode::Scan,
        replay(fresh::<T>(Mode::Scan), events).items == values_of(events),
        replay(fresh::<T>(Mode::Scan), events).state.is_live(),
    decreases events.len(),
{
    if events.len() > 0 {
        let front = events.drop_last();
        assert forall|i: int| 0 <= i < front.len() implies is_io(#[trigger] front[i]) || is_row(
            front[i],
        ) by {
            assert(front[i] == events[i]);
        }
        lemma_scan_reads_every_row(front);
        assert(events.last() == events[events.len() - 1]);
    } else {
        assert(values_of(events) =~= Seq::<T>::empty());
    }
}

/// A scan that sees only rows and pending I/O and then the end of the program
/// finishes with exactly the values of those rows, in their order.
pub proof fn lemma_scan_to_completion<T>(events: Seq<Event<T>>)
    requires
        only_rows_and_io(events),
    ensures
        replay(fresh::<T>(Mode::Scan), events.push((StepOutcome::Done, None))) == (RunModel::<T> {
            mode: Mode::Scan,
            items: values_of(events),
            state: RunState::Finished,
        }),
{
    lemma_scan_reads_every_row(events);
    let all = events.push((StepOutcome::Done, None::<T>));
    assert(all.drop_last() =~= events);
    assert(all.last() == (StepOutcome::Done, None::<T>));
}

/// A write that sees only pending I/O and then the end of the program
/// finishes, and has read nothing.
pub proof fn lemma_write_to_completion<T>(events: Seq<Event<T>>)
    requires
        forall|i: int| 0 <= i < events.len() ==> is_io(#[trigger] events[i]),
    ensures
        replay(fresh::<T>(Mode::Write), events).items == Seq::<T>::empty(),
        replay(fresh::<T>(Mode::Write), events).state.is_live(),
        replay(fresh::<T>(Mode::Write), events.push((StepOutcome::Done, None))) == (RunModel::<T> {
            mode: Mode::Write,
            items: Seq::empty(),
            state: RunState::Finished,
        }),
    decreases events.len(),
{
    lemma_replay_keeps_mode(fresh::<T>(Mode::Write), events);
    if events.len() > 0 {
        let front = events.drop_last();
        assert forall|i: int| 0 <= i < front.len() implies is_io(#[trigger] front[i]) by {
            assert(front[i] == events[i]);
        }
        lemma_write_to_completion(front);
        assert(is_io(events[events.len() - 1]));
    }
    let all = events.push((StepOutcome::Done, None::<T>));
    assert(all.drop_last() =~= events);
    assert(all.last() == (StepOutcome::Done, None::<T>));
}

/// A write never reads a value, whatever the engine reports.
pub proof fn lemma_write_reads_nothing<T>(events: Seq<Event<T>>)
    ensures
        replay(fresh::<T>(Mode::Write), events).items == Seq::<T>::empty(),
    decreases events.len(),
{
    if events.len() > 0 {
        lemma_write_reads_nothing::<T>(events.drop_last());
        lemma_replay_keeps_mode(fresh::<T>(Mode::Write), events.drop_last());
    }
}

/// A run that stops at the first row holds no value while it goes on, at most
/// one when it has ended, and none when it has failed. A run that must yield
/// one row holds exactly one when it has ended.
pub proof fn lemma_first_row_only<T>(mode: Mode, events: Seq<Event<T>>)
    requires
        mode == Mode::First || mode == Mode::Single,
    ensures
        ({
            let run = replay(fresh::<T>(mode), events);
            &&& run.state.is_live() ==> run.items.len() == 0
            &&& run.state is Failed ==> run.items.len() == 0
            &&& run.state == RunState::Finished ==> run.items.len() <= 1
            &&& run.state == RunState::Finished && mode == Mode::Single ==> run.items.len() == 1
        }),
    decreases events.len(),
{
    if events.len() > 0 {
        lemma_first_row_only::<T>(mode, events.drop_last());
        lemma_replay_keeps_mode(fresh::<T>(mode), events.drop_last());
    }
}

/// Running a statement again after a reset gives what the first run gave:
/// when a run has taken in `events`, in whatever state that left it, and is
/// rewound, the same events bring it to the state that they brought the first
/// run to, with the same values read in the same order.
pub proof fn lemma_reset_reproduces<T>(mode: Mode, events: Seq<Event<T>>)
    ensures
        replay(rewound(replay(fresh::<T>(mode), events)), events) == replay(
            fresh::<T>(mode),
            events,
        ),
{
    lemma_replay_keeps_mode(fresh::<T>(mode), events);
}

} // verus!
