//! The control loop's decisions.
//!
//! Each loop iteration the runtime hands over the batch of events that are
//! already queued (the one it blocked on, plus everything drained without
//! blocking) and [`App::run_iteration`] translates and dispatches them all,
//! in arrival order, before the quit flag is consulted. Dispatching an
//! action updates the actuation state and yields one [`Command`] telling the
//! runtime what to perform: advance the physics, apply a drive torque,
//! redraw, or nothing. The whole per-iteration behaviour is pinned down by
//! the spec-level state machine [`step_state`] / [`command_of`] and its
//! folds [`run_state`] / [`run_commands`].

use vstd::prelude::*;

use crate::events::{Event, KeyCode, KeyData, KeyKind};
use crate::game::{sat_add_i64, sat_inc_u64, Car, Game, DRIVE_TORQUE_MILLI};

verus! {

/// The semantic command derived from one raw event.
#[derive(Clone, Copy, PartialEq, Eq, Structural, Debug)]
pub enum Action {
    Noop,
    Tick,
    Quit,
    Render,
    Accelerate,
    Deccelerate,
}

/// What the runtime must perform for one dispatched action. `Step` advances
/// the solver by one fixed timestep; `ApplyTorque` adds the given milli-unit
/// torque to the drive wheel; `Draw(n)` redraws from the pose left by the
/// first `n` completed steps — a pose between steps, never one mid-step.
#[derive(Clone, Copy, PartialEq, Eq, Structural, Debug)]
pub enum Command {
    NoOp,
    Step,
    ApplyTorque(i64),
    Draw(u64),
}

/// The mathematical state of the controller: the actuation state plus the
/// quit flag.
pub struct CtrlState {
    pub pending: int,
    pub steps: nat,
    pub quitting: bool,
}

/// The key table. A release transition never yields an action; otherwise
/// `q` quits, the right arrow accelerates, the left arrow deccelerates, and
/// every other key does nothing.
pub open spec fn key_action(k: KeyData) -> Action {
    if k.kind is Release {
        Action::Noop
    } else {
        match k.code {
            KeyCode::Char(c) => if c == 'q' {
                Action::Quit
            } else {
                Action::Noop
            },
            KeyCode::Right => Action::Accelerate,
            KeyCode::Left => Action::Deccelerate,
            KeyCode::Other => Action::Noop,
        }
    }
}

/// The action a key event yields; any event that is not a key event yields
/// none here.
pub open spec fn input_action(e: Event) -> Action {
    match e {
        Event::Key(k) => key_action(k),
        _ => Action::Noop,
    }
}

/// The action dispatched for one event: tick and render requests pass
/// through directly, key events go through the key table, and a failed
/// input read dissolves into a no-op.
pub open spec fn event_action(e: Event) -> Action {
    match e {
        Event::Tick => Action::Tick,
        Event::Render => Action::Render,
        Event::Error => Action::Noop,
        Event::Key(k) => key_action(k),
    }
}

/// How one dispatched action transforms the controller state: a tick
/// consumes the torque accumulator and completes one step, the drive
/// actions accumulate a fixed-magnitude torque, quit latches the flag, and
/// render and no-op leave the state alone.
pub open spec fn step_state(m: CtrlState, a: Action) -> CtrlState {
    match a {
        Action::Noop => m,
        Action::Tick => CtrlState { pending: 0, steps: sat_inc_u64(m.steps), ..m },
        Action::Quit => CtrlState { quitting: true, ..m },
        Action::Render => m,
        Action::Accelerate => CtrlState {
            pending: sat_add_i64(m.pending, DRIVE_TORQUE_MILLI as int),
            ..m
        },
        Action::Deccelerate => CtrlState {
            pending: sat_add_i64(m.pending, -DRIVE_TORQUE_MILLI as int),
            ..m
        },
    }
}

/// The command emitted for one dispatched action, from the state it is
/// dispatched in. A render command carries the number of steps completed at
/// that point.
pub open spec fn command_of(m: CtrlState, a: Action) -> Command {
    match a {
        Action::Noop => Command::NoOp,
        Action::Tick => Command::Step,
        Action::Quit => Command::NoOp,
        Action::Render => Command::Draw(m.steps as u64),
        Action::Accelerate => Command::ApplyTorque(DRIVE_TORQUE_MILLI),
        Action::Deccelerate => Command::ApplyTorque((-DRIVE_TORQUE_MILLI) as i64),
    }
}

/// Folding one action sequence over the controller state, front to back.
pub open spec fn dispatch_all(m: CtrlState, acts: Seq<Action>) -> CtrlState
    decreases acts.len(),
{
    if acts.len() == 0 {
        m
    } else {
        dispatch_all(step_state(m, acts[0]), acts.drop_first())
    }
}

/// The controller state after one batch of events, dispatched in arrival
/// order.
pub open spec fn run_state(m: CtrlState, evs: Seq<Event>) -> CtrlState
    decreases evs.len(),
{
    if evs.len() == 0 {
        m
    } else {
        run_state(step_state(m, event_action(evs[0])), evs.drop_first())
    }
}

/// The commands a batch of events produces, one per event, in arrival order.
pub open spec fn run_commands(m: CtrlState, evs: Seq<Event>) -> Seq<Command>
    decreases evs.len(),
{
    if evs.len() == 0 {
        Seq::empty()
    } else {
        seq![command_of(m, event_action(evs[0]))] + run_commands(
            step_state(m, event_action(evs[0])),
            evs.drop_first(),
        )
    }
}

/// Appending one event to a batch dispatches it last, on the state the rest
/// of the batch left behind.
pub proof fn lemma_run_state_snoc(m: CtrlState, evs: Seq<Event>, e: Event)
    ensures
        run_state(m, evs.push(e)) == step_state(run_state(m, evs), event_action(e)),
    decreases evs.len(),
{
    if evs.len() == 0 {
        assert(evs.push(e)[0] == e);
        assert(evs.push(e).drop_first() =~= Seq::<Event>::empty());
        assert(run_state(m, evs) == m);
        assert(run_state(m, evs.push(e)) == run_state(
            step_state(m, event_action(e)),
            evs.push(e).drop_first(),
        ));
        assert(run_state(step_state(m, event_action(e)), evs.push(e).drop_first())
            == step_state(m, event_action(e)));
    } else {
        assert(evs.push(e)[0] == evs[0]);
        assert(evs.push(e).drop_first() =~= evs.drop_first().push(e));
        lemma_run_state_snoc(step_state(m, event_action(evs[0])), evs.drop_first(), e);
    }
}

/// Appending one event to a batch appends its command, computed on the
/// state the rest of the batch left behind.
pub proof fn lemma_run_commands_snoc(m: CtrlState, evs: Seq<Event>, e: Event)
    ensures
        run_commands(m, evs.push(e)) == run_commands(m, evs).push(
            command_of(run_state(m, evs), event_action(e)),
        ),
    decreases evs.len(),
{
    if evs.len() == 0 {
        assert(evs.push(e)[0] == e);
        assert(evs.push(e).drop_first() =~= Seq::<Event>::empty());
        assert(run_commands(step_state(m, event_action(e)), evs.push(e).drop_first())
            =~= Seq::<Command>::empty());
        assert(run_commands(m, evs) =~= Seq::<Command>::empty());
        assert(run_state(m, evs) == m);
        assert(run_commands(m, evs.push(e)) =~= run_commands(m, evs).push(
            command_of(run_state(m, evs), event_action(e)),
        ));
    } else {
        assert(evs.push(e)[0] == evs[0]);
        assert(evs.push(e).drop_first() =~= evs.drop_first().push(e));
        let m1 = step_state(m, event_action(evs[0]));
        lemma_run_commands_snoc(m1, evs.drop_first(), e);
        assert(run_commands(m, evs.push(e)) == seq![command_of(m, event_action(evs[0]))]
            + run_commands(m1, evs.drop_first().push(e)));
        assert(run_commands(m, evs) == seq![command_of(m, event_action(evs[0]))]
            + run_commands(m1, evs.drop_first()));
        assert(run_state(m, evs) == run_state(m1, evs.drop_first()));
        assert(run_commands(m, evs.push(e)) =~= run_commands(m, evs).push(
            command_of(run_state(m, evs), event_action(e)),
        ));
    }
}

/// The control-loop state: the vehicle's actuation state and the quit flag.
pub struct App {
    pub game: Game,
    quitting: bool,
}

impl App {
    pub closed spec fn car_dims(self) -> Car {
        self.game.car_dims()
    }

    pub closed spec fn model(self) -> CtrlState {
        CtrlState {
            pending: self.game.model().pending,
            steps: self.game.model().steps,
            quitting: self.quitting,
        }
    }

    /// A fresh controller is not quitting and owns a fresh actuation state.
    pub fn new(car: Car) -> (app: App)
        ensures
            app.model() == (CtrlState { pending: 0, steps: 0, quitting: false }),
            app.car_dims() == car,
    {
        App { game: Game::new(car), quitting: false }
    }

    /// The key table, as the loop applies it: a key event is looked up (a
    /// release yields nothing), and any other event yields nothing here.
    pub fn get_action(&self, event: Event) -> (a: Action)
        ensures
            a == input_action(event),
    {
        if let Event::Key(key) = event {
            if key.kind != KeyKind::Release {
                return match key.code {
                    KeyCode::Char(c) => if c == 'q' {
                        Action::Quit
                    } else {
                        Action::Noop
                    },
                    KeyCode::Right => Action::Accelerate,
                    KeyCode::Left => Action::Deccelerate,
                    KeyCode::Other => Action::Noop,
                };
            }
        }
        Action::Noop
    }

    /// Dispatches one action: updates the controller state exactly as
    /// [`step_state`] says and returns the command the runtime must perform,
    /// exactly as [`command_of`] says.
    pub fn handle_events(&mut self, action: Action) -> (c: Command)
        ensures
            final(self).model() == step_state(old(self).model(), action),
            c == command_of(old(self).model(), action),
            final(self).car_dims() == old(self).car_dims(),
    {
        match action {
            Action::Quit => {
                self.quitting = true;
                Command::NoOp
            },
            Action::Tick => {
                self.game.step_physics();
                Command::Step
            },
            Action::Accelerate => {
                self.game.apply_torque(DRIVE_TORQUE_MILLI);
                Command::ApplyTorque(DRIVE_TORQUE_MILLI)
            },
            Action::Deccelerate => {
                self.game.apply_torque(-DRIVE_TORQUE_MILLI);
                Command::ApplyTorque(-DRIVE_TORQUE_MILLI)
            },
            Action::Render => Command::Draw(self.game.steps_completed()),
            Action::Noop => Command::NoOp,
        }
    }

    /// One loop iteration: translates and dispatches a whole batch of queued
    /// events, in arrival order, and returns the commands to perform, one
    /// per event and in the same order. The batch is always processed to its
    /// end, even past a quit — everything in it was already queued when the
    /// iteration began.
    pub fn run_iteration(&mut self, events: &Vec<Event>) -> (cmds: Vec<Command>)
        ensures
            final(self).model() == run_state(old(self).model(), events@),
            cmds@ == run_commands(old(self).model(), events@),
            final(self).car_dims() == old(self).car_dims(),
    {
        let ghost m0 = self.model();
        let mut cmds: Vec<Command> = Vec::new();
        let mut i: usize = 0;
        while i < events.len()
            invariant
                i <= events.len(),
                self.model() == run_state(m0, events@.take(i as int)),
                cmds@ == run_commands(m0, events@.take(i as int)),
                self.car_dims() == old(self).car_dims(),
                m0 == old(self).model(),
            decreases events.len() - i,
        {
            let event = events[i];
            let action = match event {
                Event::Tick => Action::Tick,
                Event::Render => Action::Render,
                Event::Error => Action::Noop,
                Event::Key(_) => self.get_action(event),
            };
            assert(action == event_action(event));
            proof {
                lemma_run_state_snoc(m0, events@.take(i as int), event);
                lemma_run_commands_snoc(m0, events@.take(i as int), event);
                assert(events@.take(i + 1) =~= events@.take(i as int).push(event));
            }
            let c = self.handle_events(action);
            cmds.push(c);
            i = i + 1;
        }
        proof {
            assert(events@.take(events@.len() as int) =~= events@);
        }
        cmds
    }

    /// Whether a quit action has been dispatched; the runtime stops its loop
    /// once this holds, after the current batch.
    pub fn should_quit(&self) -> (q: bool)
        ensures
            q == self.model().quitting,
    {
        self.quitting
    }
}

} // verus!
