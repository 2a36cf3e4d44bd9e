//! What the drift-correction loop does over whole passes.
//!
//! The loop is stated one report at a time. Here reports are put in a row:
//! the theorems say which actions a pass consists of, that a pass writes to
//! the device exactly when the reading has drifted, and that a loop that has
//! seen the flag cleared never acts again.

use vstd::prelude::*;
use crate::drift::DriftLoopView;
use crate::drift::LoopAction;
use crate::drift::LoopEvent;
use crate::drift::LoopPhase;
use crate::drift::Note;
use crate::drift::Step;
use crate::level::drifted;
use crate::level::Level;

verus! {

/// The state of the loop after a series of reports.
pub open spec fn after_all(state: DriftLoopView, events: Seq<LoopEvent>) -> DriftLoopView
    decreases events.len(),
{
    if events.len() == 0 {
        state
    } else {
        after_all(state, events.drop_last()).after(events.last())
    }
}

/// The actions that the loop names in answer to a series of reports, one
/// for each report.
pub open spec fn actions(state: DriftLoopView, events: Seq<LoopEvent>) -> Seq<LoopAction>
    decreases events.len(),
{
    if events.len() == 0 {
        Seq::empty()
    } else {
        actions(state, events.drop_last()).push(
            after_all(state, events.drop_last()).answer(events.last()).action,
        )
    }
}

/// How many of the actions are writes to the device.
pub open spec fn writes(actions: Seq<LoopAction>) -> nat
    decreases actions.len(),
{
    if actions.len() == 0 {
        0
    } else if actions.last() is WriteLevel {
        writes(actions.drop_last()) + 1
    } else {
        writes(actions.drop_last())
    }
}

/// How many of the actions are sleeps.
pub open spec fn sleeps(actions: Seq<LoopAction>) -> nat
    decreases actions.len(),
{
    if actions.len() == 0 {
        0
    } else if actions.last() is Sleep {
        sleeps(actions.drop_last()) + 1
    } else {
        sleeps(actions.drop_last())
    }
}

/// The reports of one pass in which the flag is set and the device gives
/// `reading`: the flag, the reading, the result of the write if the reading
/// calls for one, and the end of the sleep.
pub open spec fn pass(target: Level, reading: i64, written: bool) -> Seq<LoopEvent> {
    if drifted(reading as int, target@) {
        seq![
            LoopEvent::Flag(true),
            LoopEvent::Level(reading),
            if written {
                LoopEvent::Written
            } else {
                LoopEvent::WriteFailed
            },
            LoopEvent::Woke,
        ]
    } else {
        seq![LoopEvent::Flag(true), LoopEvent::Level(reading), LoopEvent::Woke]
    }
}

/// One more report adds one state and one action.
pub proof fn lemma_one_more(state: DriftLoopView, events: Seq<LoopEvent>, event: LoopEvent)
    ensures
        after_all(state, events.push(event)) == after_all(state, events).after(event),
        actions(state, events.push(event)) == actions(state, events).push(
            after_all(state, events).answer(event).action,
        ),
{
    assert(events.push(event).drop_last() =~= events);
}

/// One more action adds one to the count of its kind.
pub proof fn lemma_one_more_action(actions: Seq<LoopAction>, action: LoopAction)
    ensures
        writes(actions.push(action)) == writes(actions) + (if action is WriteLevel {
            1nat
        } else {
            0nat
        }),
        sleeps(actions.push(action)) == sleeps(actions) + (if action is Sleep {
            1nat
        } else {
            0nat
        }),
{
    assert(actions.push(action).drop_last() =~= actions);
}

/// A pass writes to the device exactly once if the reading has drifted
/// from the target by more than the tolerance, and not at all if it has not.
/// Either way the pass sleeps once, for the interval, and ends where it
/// began: with the check of the flag.
pub proof fn theorem_pass(state: DriftLoopView, reading: i64, written: bool)
    requires
        state.wf(),
        state.phase == LoopPhase::Checking,
    ensures
        drifted(reading as int, state.target@) ==> actions(
            state,
            pass(state.target, reading, written),
        ) == seq![
            LoopAction::ReadLevel,
            LoopAction::WriteLevel(state.target),
            LoopAction::Sleep(state.interval@ as u64),
            LoopAction::CheckFlag,
        ],
        !drifted(reading as int, state.target@) ==> actions(
            state,
            pass(state.target, reading, written),
        ) == seq![
            LoopAction::ReadLevel,
            LoopAction::Sleep(state.interval@ as u64),
            LoopAction::CheckFlag,
        ],
        writes(actions(state, pass(state.target, reading, written))) == (if drifted(
            reading as int,
            state.target@,
        ) {
            1nat
        } else {
            0nat
        }),
        sleeps(actions(state, pass(state.target, reading, written))) == 1,
        after_all(state, pass(state.target, reading, written)) == state,
{
    let none = Seq::<LoopEvent>::empty();
    let flag = LoopEvent::Flag(true);
    let level = LoopEvent::Level(reading);
    let result = if written {
        LoopEvent::Written
    } else {
        LoopEvent::WriteFailed
    };
    let sleep = LoopAction::Sleep(state.interval@ as u64);
    let write = LoopAction::WriteLevel(state.target);
    let no_action = Seq::<LoopAction>::empty();
    lemma_one_more(state, none, flag);
    lemma_one_more(state, none.push(flag), level);
    lemma_one_more_action(no_action, LoopAction::ReadLevel);
    if drifted(reading as int, state.target@) {
        lemma_one_more(state, none.push(flag).push(level), result);
        lemma_one_more(state, none.push(flag).push(level).push(result), LoopEvent::Woke);
        assert(pass(state.target, reading, written) =~= none.push(flag).push(level).push(
            result,
        ).push(LoopEvent::Woke));
        lemma_one_more_action(no_action.push(LoopAction::ReadLevel), write);
        lemma_one_more_action(no_action.push(LoopAction::ReadLevel).push(write), sleep);
        lemma_one_more_action(
            no_action.push(LoopAction::ReadLevel).push(write).push(sleep),
            LoopAction::CheckFlag,
        );
        assert(actions(state, pass(state.target, reading, written)) =~= seq![
            LoopAction::ReadLevel,
            write,
            sleep,
            LoopAction::CheckFlag,
        ]);
    } else {
        lemma_one_more(state, none.push(flag).push(level), LoopEvent::Woke);
        assert(pass(state.target, reading, written) =~= none.push(flag).push(level).push(
            LoopEvent::Woke,
        ));
        lemma_one_more_action(no_action.push(LoopAction::ReadLevel), sleep);
        lemma_one_more_action(
            no_action.push(LoopAction::ReadLevel).push(sleep),
            LoopAction::CheckFlag,
        );
        assert(actions(state, pass(state.target, reading, written)) =~= seq![
            LoopAction::ReadLevel,
            sleep,
            LoopAction::CheckFlag,
        ]);
    }
}

/// A series of reports followed by another is answered as the first series
/// is, and then as the second is answered from where the first one led.
pub proof fn lemma_in_a_row(state: DriftLoopView, first: Seq<LoopEvent>, second: Seq<LoopEvent>)
    ensures
        after_all(state, first + second) == after_all(after_all(state, first), second),
        actions(state, first + second) == actions(state, first) + actions(
            after_all(state, first),
            second,
        ),
    decreases second.len(),
{
    if second.len() == 0 {
        assert(first + second =~= first);
        assert(actions(state, first) + Seq::<LoopAction>::empty() =~= actions(state, first));
    } else {
        lemma_in_a_row(state, first, second.drop_last());
        assert((first + second).drop_last() =~= first + second.drop_last());
        assert((first + second).last() == second.last());
        let middle = after_all(state, first);
        let last = after_all(middle, second.drop_last()).answer(second.last()).action;
        assert((actions(state, first) + actions(middle, second.drop_last())).push(last)
            =~= actions(state, first) + actions(middle, second.drop_last()).push(last));
    }
}

/// The writes and the sleeps among two series of actions add up.
pub proof fn lemma_counts_add(first: Seq<LoopAction>, second: Seq<LoopAction>)
    ensures
        writes(first + second) == writes(first) + writes(second),
        sleeps(first + second) == sleeps(first) + sleeps(second),
    decreases second.len(),
{
    if second.len() == 0 {
        assert(first + second =~= first);
    } else {
        lemma_counts_add(first, second.drop_last());
        assert((first + second).drop_last() =~= first + second.drop_last());
        assert((first + second).last() == second.last());
    }
}

/// The reports of a series of passes, each given by the reading of the
/// device and by whether a write, if one is made, succeeds.
pub open spec fn passes(target: Level, readings: Seq<(i64, bool)>) -> Seq<LoopEvent>
    decreases readings.len(),
{
    if readings.len() == 0 {
        Seq::empty()
    } else {
        passes(target, readings.drop_last()) + pass(
            target,
            readings.last().0,
            readings.last().1,
        )
    }
}

/// How many of the readings have drifted from the target by more than the
/// tolerance.
pub open spec fn drifts(target: Level, readings: Seq<(i64, bool)>) -> nat
    decreases readings.len(),
{
    if readings.len() == 0 {
        0
    } else if drifted(readings.last().0 as int, target@) {
        drifts(target, readings.drop_last()) + 1
    } else {
        drifts(target, readings.drop_last())
    }
}

/// Over any number of passes the loop writes to the device as often as a
/// reading has drifted, and no more: readings that stay within the
/// tolerance never lead to a write. It sleeps once in every pass.
pub proof fn theorem_passes(state: DriftLoopView, readings: Seq<(i64, bool)>)
    requires
        state.wf(),
        state.phase == LoopPhase::Checking,
    ensures
        writes(actions(state, passes(state.target, readings))) == drifts(state.target, readings),
        sleeps(actions(state, passes(state.target, readings))) == readings.len(),
        after_all(state, passes(state.target, readings)) == state,
    decreases readings.len(),
{
    if readings.len() > 0 {
        let before = passes(state.target, readings.drop_last());
        let last = pass(state.target, readings.last().0, readings.last().1);
        theorem_passes(state, readings.drop_last());
        theorem_pass(state, readings.last().0, readings.last().1);
        lemma_in_a_row(state, before, last);
        lemma_counts_add(actions(state, before), actions(state, last));
    }
}

/// A pass in which the device cannot be read writes nothing, sleeps once
/// and goes on with the next pass.
pub proof fn theorem_pass_without_reading(state: DriftLoopView)
    requires
        state.wf(),
        state.phase == LoopPhase::Checking,
    ensures
        actions(state, seq![LoopEvent::Flag(true), LoopEvent::ReadFailed, LoopEvent::Woke])
            == seq![
            LoopAction::ReadLevel,
            LoopAction::Sleep(state.interval@ as u64),
            LoopAction::CheckFlag,
        ],
        after_all(state, seq![LoopEvent::Flag(true), LoopEvent::ReadFailed, LoopEvent::Woke])
            == state,
{
    let none = Seq::<LoopEvent>::empty();
    let flag = LoopEvent::Flag(true);
    let events = seq![flag, LoopEvent::ReadFailed, LoopEvent::Woke];
    lemma_one_more(state, none, flag);
    lemma_one_more(state, none.push(flag), LoopEvent::ReadFailed);
    lemma_one_more(state, none.push(flag).push(LoopEvent::ReadFailed), LoopEvent::Woke);
    assert(events =~= none.push(flag).push(LoopEvent::ReadFailed).push(LoopEvent::Woke));
    assert(actions(state, events) =~= seq![
        LoopAction::ReadLevel,
        LoopAction::Sleep(state.interval@ as u64),
        LoopAction::CheckFlag,
    ]);
}

/// The loop begins with the write of the target, and goes on to the first
/// check of the flag whether or not that write succeeds.
pub proof fn theorem_startup(state: DriftLoopView, event: LoopEvent)
    requires
        state.phase == LoopPhase::Leveling,
        event == LoopEvent::Written || event == LoopEvent::WriteFailed,
    ensures
        state.pending() == LoopAction::WriteLevel(state.target),
        state.answer(event).action == LoopAction::CheckFlag,
        state.after(event).phase == LoopPhase::Checking,
{
}

/// The flag is looked at when the sleep ends, before anything else is done;
/// a cleared flag ends the loop there and then.
pub proof fn theorem_cancellation(state: DriftLoopView)
    requires
        state.phase == LoopPhase::Sleeping,
    ensures
        state.answer(LoopEvent::Woke).action == LoopAction::CheckFlag,
        state.after(LoopEvent::Woke).answer(LoopEvent::Flag(false)) == (Step {
            action: LoopAction::Exit,
            note: Note::Stopped,
        }),
        state.after(LoopEvent::Woke).after(LoopEvent::Flag(false)).phase == LoopPhase::Stopped,
{
}

/// A loop that has stopped stays stopped: whatever is reported to it, it
/// names no action but `Exit` and writes nothing to the device.
pub proof fn theorem_stopped_is_final(state: DriftLoopView, events: Seq<LoopEvent>)
    requires
        state.phase == LoopPhase::Stopped,
    ensures
        after_all(state, events) == state,
        actions(state, events).len() == events.len(),
        forall|i: int| 0 <= i < events.len() ==> #[trigger] actions(state, events)[i]
            == LoopAction::Exit,
        writes(actions(state, events)) == 0,
    decreases events.len(),
{
    if events.len() > 0 {
        theorem_stopped_is_final(state, events.drop_last());
        lemma_one_more_action(actions(state, events.drop_last()), LoopAction::Exit);
    }
}

/// A write is named only for a reason: at startup, or in answer to a
/// reading that has drifted. No other report that the loop waits for is
/// answered with a write.
pub proof fn theorem_write_needs_drift(state: DriftLoopView, event: LoopEvent)
    requires
        state.expects(event),
        state.answer(event).action is WriteLevel,
    ensures
        state.phase == LoopPhase::Reading,
        event matches LoopEvent::Level(reading) && drifted(reading as int, state.target@),
        state.answer(event).action == LoopAction::WriteLevel(state.target),
{
}

} // verus!
