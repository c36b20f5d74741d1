//! The laws the control loop obeys, proved over the spec-level state
//! machine of [`crate::app`]: torque accumulation, quit latching, release
//! filtering, and render atomicity.

use vstd::prelude::*;

use crate::app::{
    command_of, dispatch_all, event_action, key_action, run_commands, run_state, step_state,
    Action, Command, CtrlState,
};
use crate::events::{Event, KeyData};
use crate::game::DRIVE_TORQUE_MILLI;

verus! {

/// The signed count of drive actions dispatched since the most recent tick,
/// folded front to back starting from `c`: a tick resets the count,
/// `Accelerate` raises it, `Deccelerate` lowers it, everything else leaves
/// it.
pub open spec fn net_drive_count(acts: Seq<Action>, c: int) -> int
    decreases acts.len(),
{
    if acts.len() == 0 {
        c
    } else {
        let c2 = match acts[0] {
            Action::Tick => 0int,
            Action::Accelerate => c + 1,
            Action::Deccelerate => c - 1,
            _ => c,
        };
        net_drive_count(acts.drop_first(), c2)
    }
}

spec fn iabs(x: int) -> int {
    if x >= 0 {
        x
    } else {
        -x
    }
}

proof fn lemma_accum_rec(m: CtrlState, acts: Seq<Action>, c: int)
    requires
        m.pending == DRIVE_TORQUE_MILLI * c,
        (iabs(c) + acts.len()) * (DRIVE_TORQUE_MILLI as int) <= i64::MAX as int,
    ensures
        dispatch_all(m, acts).pending == DRIVE_TORQUE_MILLI * net_drive_count(acts, c),
    decreases acts.len(),
{
    if acts.len() > 0 {
        let m1 = step_state(m, acts[0]);
        let c2 = match acts[0] {
            Action::Tick => 0int,
            Action::Accelerate => c + 1,
            Action::Deccelerate => c - 1,
            _ => c,
        };
        assert(iabs(c2) <= iabs(c) + 1);
        assert(DRIVE_TORQUE_MILLI * iabs(c2) <= (iabs(c) + 1) * (DRIVE_TORQUE_MILLI as int));
        assert(m1.pending == DRIVE_TORQUE_MILLI * c2);
        lemma_accum_rec(m1, acts.drop_first(), c2);
    }
}

/// Accumulation law: starting right after a step (empty accumulator), the
/// net torque pending before the next step equals the fixed magnitude times
/// the signed count of drive actions dispatched since the most recent tick,
/// for any interleaving of drive actions with ticks and other actions. The
/// bound keeps the accumulator inside `i64`, where the addition is exact.
pub proof fn lemma_torque_accumulation(m: CtrlState, acts: Seq<Action>)
    requires
        m.pending == 0,
        acts.len() * (DRIVE_TORQUE_MILLI as int) <= i64::MAX as int,
    ensures
        dispatch_all(m, acts).pending == DRIVE_TORQUE_MILLI * net_drive_count(acts, 0),
{
    lemma_accum_rec(m, acts, 0);
}

/// An event batch drives the controller exactly as the action sequence it
/// translates to: the event-level fold is the action-level fold of the
/// translated batch. Through this, the accumulation law speaks of event
/// batches too.
pub proof fn lemma_run_state_is_dispatch(m: CtrlState, evs: Seq<Event>)
    ensures
        run_state(m, evs) == dispatch_all(m, evs.map_values(|e: Event| event_action(e))),
    decreases evs.len(),
{
    let acts = evs.map_values(|e: Event| event_action(e));
    if evs.len() == 0 {
        assert(acts.len() == 0);
    } else {
        assert(acts[0] == event_action(evs[0]));
        assert(evs.drop_first().map_values(|e: Event| event_action(e)) =~= acts.drop_first());
        lemma_run_state_is_dispatch(step_state(m, event_action(evs[0])), evs.drop_first());
    }
}

/// No action ever clears the quit flag: once quit has been dispatched, every
/// later batch leaves the loop quitting.
pub proof fn lemma_quit_latched(m: CtrlState, evs: Seq<Event>)
    requires
        m.quitting,
    ensures
        run_state(m, evs).quitting,
    decreases evs.len(),
{
    if evs.len() > 0 {
        lemma_quit_latched(step_state(m, event_action(evs[0])), evs.drop_first());
    }
}

/// The loop is quitting after a batch exactly when it already was, or some
/// event of the batch translates to a quit action. With the runtime stopping
/// on the flag right after each batch, termination is prompt: the first
/// batch holding a quit is the last one dispatched.
pub proof fn lemma_quit_exactly_when(m: CtrlState, evs: Seq<Event>)
    ensures
        run_state(m, evs).quitting <==> (m.quitting || exists|i: int|
            0 <= i < evs.len() && event_action(evs[i]) == Action::Quit),
    decreases evs.len(),
{
    if evs.len() > 0 {
        let m1 = step_state(m, event_action(evs[0]));
        lemma_quit_exactly_when(m1, evs.drop_first());
        if run_state(m, evs).quitting {
            if m1.quitting {
                if !m.quitting {
                    assert(event_action(evs[0]) == Action::Quit);
                }
            } else {
                let j = choose|j: int|
                    0 <= j < evs.drop_first().len() && event_action(evs.drop_first()[j])
                        == Action::Quit;
                assert(evs.drop_first()[j] == evs[j + 1]);
                assert(event_action(evs[j + 1]) == Action::Quit);
            }
        }
        if m.quitting || exists|i: int|
            0 <= i < evs.len() && event_action(evs[i]) == Action::Quit {
            if !m1.quitting {
                let i = choose|i: int|
                    0 <= i < evs.len() && event_action(evs[i]) == Action::Quit;
                assert(i > 0);
                assert(evs.drop_first()[i - 1] == evs[i]);
                assert(event_action(evs.drop_first()[i - 1]) == Action::Quit);
            }
        }
    }
}

/// A release transition never yields an action, whatever the key code.
pub proof fn lemma_release_filtered(k: KeyData)
    requires
        k.kind is Release,
    ensures
        key_action(k) == Action::Noop,
{
}

/// The number of step commands in a command sequence.
pub open spec fn steps_in(cmds: Seq<Command>) -> int
    decreases cmds.len(),
{
    if cmds.len() == 0 {
        0int
    } else {
        (if cmds[0] is Step {
            1int
        } else {
            0int
        }) + steps_in(cmds.drop_first())
    }
}

/// A batch produces exactly one command per event.
pub proof fn lemma_run_commands_len(m: CtrlState, evs: Seq<Event>)
    ensures
        run_commands(m, evs).len() == evs.len(),
    decreases evs.len(),
{
    if evs.len() > 0 {
        lemma_run_commands_len(step_state(m, event_action(evs[0])), evs.drop_first());
    }
}

proof fn lemma_steps_in_cons(c: Command, t: Seq<Command>)
    ensures
        steps_in(seq![c] + t) == (if c is Step {
            1int
        } else {
            0int
        }) + steps_in(t),
{
    assert((seq![c] + t)[0] == c);
    assert((seq![c] + t).drop_first() =~= t);
}

/// Render atomicity: every draw command a batch produces carries the exact
/// number of steps completed when it was emitted — the initial count plus
/// the step commands before it in the batch. A redraw therefore always reads
/// the pose left by a whole number of completed steps, never one mid-step,
/// and reads it at the batch position the render request was queued at.
pub proof fn lemma_draw_epoch(m: CtrlState, evs: Seq<Event>, i: int)
    requires
        0 <= i < evs.len(),
        m.steps + evs.len() <= u64::MAX as nat,
    ensures
        run_commands(m, evs)[i] matches Command::Draw(n) ==> n as int == m.steps + steps_in(
            run_commands(m, evs).take(i),
        ),
    decreases evs.len(),
{
    let cmds = run_commands(m, evs);
    let a0 = event_action(evs[0]);
    let c0 = command_of(m, a0);
    let m1 = step_state(m, a0);
    let rest = run_commands(m1, evs.drop_first());
    assert(cmds == seq![c0] + rest);
    lemma_run_commands_len(m1, evs.drop_first());
    if i == 0 {
        assert(cmds[0] == c0);
        assert(cmds.take(0) =~= Seq::<Command>::empty());
        if c0 is Draw {
            assert(a0 is Render);
            assert(c0->Draw_0 == m.steps as u64);
        }
    } else {
        assert(m1.steps + evs.drop_first().len() <= u64::MAX as nat);
        lemma_draw_epoch(m1, evs.drop_first(), i - 1);
        assert(cmds[i] == rest[i - 1]);
        assert(cmds.take(i) =~= seq![c0] + rest.take(i - 1));
        lemma_steps_in_cons(c0, rest.take(i - 1));
        assert(m1.steps == m.steps + (if c0 is Step {
            1int
        } else {
            0int
        }));
    }
}

/// Order preservation: the command at each position of a batch is exactly
/// the command of the event at that position, dispatched in the state the
/// preceding events left behind. The controller never reorders the
/// multiplexed queue — a render queued after a run of ticks reads the state
/// after all of them, one queued before them reads the state before any.
pub proof fn lemma_commands_in_order(m: CtrlState, evs: Seq<Event>, i: int)
    requires
        0 <= i < evs.len(),
    ensures
        run_commands(m, evs)[i] == command_of(
            run_state(m, evs.take(i)),
            event_action(evs[i]),
        ),
    decreases evs.len(),
{
    let a0 = event_action(evs[0]);
    let m1 = step_state(m, a0);
    if i == 0 {
        assert(evs.take(0) =~= Seq::<Event>::empty());
        assert(run_commands(m, evs)[0] == command_of(m, a0));
    } else {
        lemma_commands_in_order(m1, evs.drop_first(), i - 1);
        lemma_run_commands_len(m1, evs.drop_first());
        assert(run_commands(m, evs)[i] == run_commands(m1, evs.drop_first())[i - 1]);
        assert(evs.drop_first()[i - 1] == evs[i]);
        assert(evs.take(i)[0] == evs[0]);
        assert(evs.take(i).drop_first() =~= evs.drop_first().take(i - 1));
        assert(run_state(m, evs.take(i)) == run_state(m1, evs.drop_first().take(i - 1)));
    }
}

/// A stretch with no drive action leaves an empty accumulator empty: ticks
/// keep it zero and everything else leaves it alone.
pub proof fn lemma_no_drive_keeps_empty(m: CtrlState, acts: Seq<Action>)
    requires
        m.pending == 0,
        forall|i: int|
            0 <= i < acts.len() ==> acts[i] != Action::Accelerate && acts[i]
                != Action::Deccelerate,
    ensures
        dispatch_all(m, acts).pending == 0,
    decreases acts.len(),
{
    if acts.len() > 0 {
        let m1 = step_state(m, acts[0]);
        assert(m1.pending == 0);
        assert(forall|i: int|
            0 <= i < acts.drop_first().len() ==> acts.drop_first()[i] == acts[i + 1]);
        lemma_no_drive_keeps_empty(m1, acts.drop_first());
    }
}

/// Single-shot consumption: whatever torque was accumulated, the first tick
/// consumes it, and it stays consumed through any further actions that apply
/// no new drive torque — in particular through any run of bare ticks.
pub proof fn lemma_torque_consumed_by_step(m: CtrlState, acts: Seq<Action>, j: int)
    requires
        0 <= j < acts.len(),
        acts[j] == Action::Tick,
        forall|i: int|
            j < i < acts.len() ==> acts[i] != Action::Accelerate && acts[i]
                != Action::Deccelerate,
    ensures
        dispatch_all(m, acts).pending == 0,
    decreases acts.len(),
{
    let m1 = step_state(m, acts[0]);
    assert(forall|i: int|
        0 <= i < acts.drop_first().len() ==> acts.drop_first()[i] == acts[i + 1]);
    if j == 0 {
        assert(m1.pending == 0);
        lemma_no_drive_keeps_empty(m1, acts.drop_first());
    } else {
        lemma_torque_consumed_by_step(m1, acts.drop_first(), j - 1);
    }
}

} // verus!
