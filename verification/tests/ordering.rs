//! Queue-order preservation: a render queued after a run of ticks reads the
//! pose after all of them; queued first, it reads the pose before any.

use hillclimb::app::{App, Command};
use hillclimb::events::Event;
use hillclimb::game::Car;

fn app() -> App {
    App::new(Car::new(500, 500, 2000, 500))
}

#[test]
fn render_queued_last_sees_all_thousand_steps() {
    let mut a = app();
    let mut events: Vec<Event> = Vec::new();
    for _ in 0..1000 {
        events.push(Event::Tick);
    }
    events.push(Event::Render);
    let cmds = a.run_iteration(&events);
    assert_eq!(cmds.len(), 1001);
    for i in 0..1000 {
        assert_eq!(cmds[i], Command::Step);
    }
    assert_eq!(cmds[1000], Command::Draw(1000));
    assert_eq!(a.game.steps_completed(), 1000);
}

#[test]
fn render_queued_first_sees_the_prior_pose() {
    let mut a = app();
    let mut events: Vec<Event> = vec![Event::Render];
    for _ in 0..1000 {
        events.push(Event::Tick);
    }
    let cmds = a.run_iteration(&events);
    assert_eq!(cmds.len(), 1001);
    assert_eq!(cmds[0], Command::Draw(0));
    for i in 1..1001 {
        assert_eq!(cmds[i], Command::Step);
    }
    assert_eq!(a.game.steps_completed(), 1000);
}

#[test]
fn interleaved_renders_see_the_steps_before_them() {
    let mut a = app();
    let events = vec![
        Event::Render,
        Event::Tick,
        Event::Render,
        Event::Tick,
        Event::Tick,
        Event::Render,
    ];
    let cmds = a.run_iteration(&events);
    assert_eq!(
        cmds,
        vec![
            Command::Draw(0),
            Command::Step,
            Command::Draw(1),
            Command::Step,
            Command::Step,
            Command::Draw(3),
        ]
    );
}
