//! What holds of the coordinator over whole sequences of events.
//!
//! A history is the list of events a coordinator has taken, oldest first.
//! The functions here replay a history through [`step`]; the lemmas state
//! what no history can do: move a phase backwards, order a second teardown,
//! dispatch a message after the loop was left, or return to the caller once
//! a signal has arrived.

use vstd::prelude::*;
use crate::lifecycle::{step, winding_down, ActionView, EventView, Phase, StatusMessageView, StopCause};

verus! {

/// The phase reached from `phase` once every event of `events` was taken.
pub open spec fn run(phase: Phase, events: Seq<EventView>) -> Phase
    decreases events.len(),
{
    if events.len() == 0 {
        phase
    } else {
        step(run(phase, events.drop_last()), events.last()).0
    }
}

/// The phase in which event number `i` of `events` is taken.
pub open spec fn phase_before(phase: Phase, events: Seq<EventView>, i: int) -> Phase {
    run(phase, events.take(i))
}

/// The action that answers event number `i` of `events`.
pub open spec fn action_at(phase: Phase, events: Seq<EventView>, i: int) -> ActionView {
    step(phase_before(phase, events, i), events[i]).1
}

/// How many teardowns are ordered while `events` are taken from `phase`.
pub open spec fn teardowns(phase: Phase, events: Seq<EventView>) -> nat
    decreases events.len(),
{
    if events.len() == 0 {
        0
    } else {
        let earlier = teardowns(phase, events.drop_last());
        if step(run(phase, events.drop_last()), events.last()).1 is Teardown {
            earlier + 1
        } else {
            earlier
        }
    }
}

/// Position of a phase on the one path a coordinator can walk.
pub open spec fn rank(phase: Phase) -> nat {
    match phase {
        Phase::Starting => 0,
        Phase::Running => 1,
        Phase::Stopping(_) => 2,
        Phase::Stopped(_) => 3,
    }
}

/// True for the two messages that end the dispatch loop.
pub open spec fn ends_stream(message: StatusMessageView) -> bool {
    message is EndOfStream || message is Error
}

/// True if the phase records a signal as the cause of the stop.
pub open spec fn stopped_by_signal(phase: Phase) -> bool {
    phase == Phase::Stopping(StopCause::Signal) || phase == Phase::Stopped(StopCause::Signal)
}

proof fn lemma_take_step(events: Seq<EventView>, i: int)
    requires
        0 <= i < events.len(),
    ensures
        events.take(i + 1).drop_last() == events.take(i),
        events.take(i + 1).last() == events[i],
        events.take(events.len() as int) == events,
{
    assert(events.take(i + 1).drop_last() =~= events.take(i));
    assert(events.take(events.len() as int) =~= events);
}

/// One step never moves a phase backwards; it orders a teardown exactly
/// when it leads from before the stop into it; and an event that is dropped
/// leaves the phase as it was.
pub proof fn lemma_step_advances(phase: Phase, event: EventView)
    ensures
        rank(phase) <= rank(step(phase, event).0),
        step(phase, event).1 is Teardown <==> !winding_down(phase) && winding_down(
            step(phase, event).0,
        ),
        step(phase, event).1 is Discard ==> step(phase, event).0 == phase,
{
}

/// Taking event `i` leads from the phase before it to the phase before
/// event `i + 1`.
pub proof fn lemma_phase_unfolds(phase: Phase, events: Seq<EventView>, i: int)
    requires
        0 <= i < events.len(),
    ensures
        phase_before(phase, events, 0) == phase,
        phase_before(phase, events, i + 1) == step(phase_before(phase, events, i), events[i]).0,
        phase_before(phase, events, events.len() as int) == run(phase, events),
{
    lemma_take_step(events, i);
    assert(events.take(0).len() == 0);
}

/// Phases follow the path starting, running, stopping, stopped and never
/// turn back: whatever the events, the phase before a later event is at
/// least as far along as the phase before an earlier one.
pub proof fn lemma_phases_only_advance(phase: Phase, events: Seq<EventView>, i: int, j: int)
    requires
        0 <= i <= j <= events.len(),
    ensures
        rank(phase_before(phase, events, i)) <= rank(phase_before(phase, events, j)),
    decreases j - i,
{
    if i < j {
        lemma_phases_only_advance(phase, events, i, j - 1);
        lemma_phase_unfolds(phase, events, j - 1);
        lemma_step_advances(phase_before(phase, events, j - 1), events[j - 1]);
    }
}

/// A teardown is ordered at most once. Exactly one is ordered if the
/// history begins before the stop and ends after it; none otherwise, so a
/// pipeline that was torn down is never torn down again.
pub proof fn lemma_teardown_is_ordered_once(phase: Phase, events: Seq<EventView>)
    ensures
        teardowns(phase, events) == if !winding_down(phase) && winding_down(run(phase, events)) {
            1nat
        } else {
            0nat
        },
    decreases events.len(),
{
    if events.len() > 0 {
        let earlier = events.drop_last();
        lemma_teardown_is_ordered_once(phase, earlier);
        lemma_step_advances(run(phase, earlier), events.last());
        let n = earlier.len() as int;
        assert(earlier.take(n) =~= earlier);
        assert(earlier.take(0).len() == 0);
        lemma_phases_only_advance(phase, earlier, 0, n);
    }
}

/// The message that ends the stream is the last one dispatched. If the loop
/// is running when event `i` brings end of stream or an error, that event
/// orders the teardown, with the error's report and with none for end of
/// stream; the loop is left for the stopping phase; every later message is
/// dropped without a change of phase; and over the whole history the
/// teardown is ordered exactly once.
pub proof fn lemma_stream_end_stops_dispatch(phase: Phase, events: Seq<EventView>, i: int)
    requires
        0 <= i < events.len(),
        phase_before(phase, events, i) == Phase::Running,
        events[i] matches EventView::Message(message) && ends_stream(message),
    ensures
        events[i] == EventView::Message(StatusMessageView::EndOfStream) ==> {
            &&& action_at(phase, events, i) == ActionView::Teardown { report: None }
            &&& phase_before(phase, events, i + 1) == Phase::Stopping(StopCause::EndOfStream)
        },
        events[i] matches EventView::Message(StatusMessageView::Error(report)) ==> {
            &&& action_at(phase, events, i) == ActionView::Teardown { report: Some(report) }
            &&& phase_before(phase, events, i + 1) == Phase::Stopping(StopCause::PipelineError)
        },
        forall|j: int|
            i < j < events.len() && events[j] is Message ==> {
                &&& #[trigger] action_at(phase, events, j) == ActionView::Discard
                &&& phase_before(phase, events, j + 1) == phase_before(phase, events, j)
            },
        teardowns(phase, events) == 1,
{
    lemma_phase_unfolds(phase, events, i);
    assert forall|j: int| i < j < events.len() && events[j] is Message implies {
        &&& #[trigger] action_at(phase, events, j) == ActionView::Discard
        &&& phase_before(phase, events, j + 1) == phase_before(phase, events, j)
    } by {
        lemma_phases_only_advance(phase, events, i + 1, j);
        lemma_phase_unfolds(phase, events, j);
    }
    lemma_phases_only_advance(phase, events, 0, i);
    lemma_phases_only_advance(phase, events, i + 1, events.len() as int);
    lemma_teardown_is_ordered_once(phase, events);
}

/// A signal ends the process and never orders a second teardown. If event
/// `i` is a signal, it orders the teardown when none was ordered before and
/// the exit of the process when one was. From then on the signal stays the
/// recorded cause; every later event is answered with the exit of the
/// process or dropped, so no further teardown is ordered and control is
/// never handed back to the caller; and the end of the teardown that the
/// signal ordered is answered with the exit of the process.
pub proof fn lemma_signal_forces_exit(phase: Phase, events: Seq<EventView>, i: int)
    requires
        0 <= i < events.len(),
        events[i] == EventView::Signal,
    ensures
        action_at(phase, events, i) == if winding_down(phase_before(phase, events, i)) {
            ActionView::ExitProcess
        } else {
            ActionView::Teardown { report: None }
        },
        forall|j: int|
            i < j <= events.len() ==> stopped_by_signal(#[trigger] phase_before(phase, events, j)),
        forall|j: int|
            i < j < events.len() ==> {
                ||| #[trigger] action_at(phase, events, j) == ActionView::ExitProcess
                ||| action_at(phase, events, j) == ActionView::Discard
            },
        forall|j: int|
            i < j < events.len() && events[j] == EventView::TornDown && phase_before(
                phase,
                events,
                j,
            ) is Stopping ==> #[trigger] action_at(phase, events, j) == ActionView::ExitProcess,
        teardowns(phase, events) <= 1,
{
    assert forall|j: int| i < j <= events.len() implies stopped_by_signal(
        #[trigger] phase_before(phase, events, j),
    ) by {
        lemma_signal_is_remembered(phase, events, i, j);
    }
    lemma_teardown_is_ordered_once(phase, events);
}

proof fn lemma_signal_is_remembered(phase: Phase, events: Seq<EventView>, i: int, j: int)
    requires
        0 <= i < j <= events.len(),
        events[i] == EventView::Signal,
    ensures
        stopped_by_signal(phase_before(phase, events, j)),
    decreases j - i,
{
    lemma_phase_unfolds(phase, events, j - 1);
    if i < j - 1 {
        lemma_signal_is_remembered(phase, events, i, j - 1);
    }
}

/// Without a signal the process is never ended from here. If no signal is
/// recorded in `phase` and none is among the events up to number `i`, then
/// none is recorded when event `i` is taken, the event is not answered with
/// the exit of the process, and if it is the end of a teardown, control is
/// handed back to the caller.
pub proof fn lemma_without_signal_control_returns(phase: Phase, events: Seq<EventView>, i: int)
    requires
        0 <= i < events.len(),
        !stopped_by_signal(phase),
        forall|k: int| 0 <= k <= i ==> events[k] != EventView::Signal,
    ensures
        !stopped_by_signal(phase_before(phase, events, i)),
        action_at(phase, events, i) != ActionView::ExitProcess,
        events[i] == EventView::TornDown && phase_before(phase, events, i) is Stopping
            ==> action_at(phase, events, i) == ActionView::ReturnToCaller,
    decreases i,
{
    lemma_phase_unfolds(phase, events, i);
    if i > 0 {
        lemma_without_signal_control_returns(phase, events, i - 1);
        lemma_phase_unfolds(phase, events, i - 1);
    }
}

} // verus!
