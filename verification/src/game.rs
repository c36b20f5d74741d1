//! The vehicle's actuation state and the static scene it is built into.
//!
//! The rigid-body solver that integrates the scene is an outside collaborator
//! and works in floating point; this crate does not touch it. What the crate
//! does own is everything the control loop decides with: the drive-wheel
//! torque accumulated since the last physics step, the count of completed
//! steps, and the construction-time description of the scene (dimensions,
//! spawn positions, damping, restitution, joint anchors), all held in
//! milli-units so that the contracts are exact integer statements. The
//! runtime converts milli-units to the solver's floating-point units at the
//! boundary.

use vstd::prelude::*;

verus! {

/// Magnitude of the torque, in milli-units, applied to the drive wheel by a
/// single `Accelerate` (positive) or `Deccelerate` (negative) action.
pub const DRIVE_TORQUE_MILLI: i64 = 5_000_000;

/// Ground collider half-extents, milli-units.
pub const GROUND_HALF_WIDTH_MILLI: i64 = 100_000;
pub const GROUND_HALF_HEIGHT_MILLI: i64 = 1_000;

/// Chassis spawn position, milli-units. The chassis spawns above the ground
/// collider, whose top edge sits at `GROUND_HALF_HEIGHT_MILLI`.
pub const CHASSIS_SPAWN_X_MILLI: i64 = 0;
pub const CHASSIS_SPAWN_Y_MILLI: i64 = 10_000;

/// Damping parameters, milli-units.
pub const CHASSIS_LINEAR_DAMPING_MILLI: i64 = 500;
pub const WHEEL_ANGULAR_DAMPING_MILLI: i64 = 1_000;

/// Collider restitution, milli-units. The rear (drive) wheel is bouncy; the
/// front wheel is not. The asymmetry is a deliberate tuning choice.
pub const REAR_RESTITUTION_MILLI: i64 = 700;
pub const FRONT_RESTITUTION_MILLI: i64 = 0;

/// Gravity, milli-units.
pub const GRAVITY_X_MILLI: i64 = 0;
pub const GRAVITY_Y_MILLI: i64 = -9_810;

/// Upper bound on the chassis half-width of a well-formed car, milli-units.
pub const BODY_HALF_WIDTH_LIMIT_MILLI: i64 = 1_000_000_000;

/// Static dimensions of the car, milli-units.
#[derive(Clone, Copy, PartialEq, Eq, Structural, Debug)]
pub struct Car {
    pub rear_wheel_radius: i64,
    pub front_wheel_radius: i64,
    pub body_half_width: i64,
    pub body_half_height: i64,
}

impl Car {
    /// A car is well formed when its dimensions are positive, its half-width
    /// is bounded, and every body it spawns clears the top of the ground
    /// collider from the chassis spawn height.
    pub open spec fn wf(self) -> bool {
        &&& 0 < self.rear_wheel_radius
            < CHASSIS_SPAWN_Y_MILLI - GROUND_HALF_HEIGHT_MILLI
        &&& 0 < self.front_wheel_radius
            < CHASSIS_SPAWN_Y_MILLI - GROUND_HALF_HEIGHT_MILLI
        &&& 0 < self.body_half_width <= BODY_HALF_WIDTH_LIMIT_MILLI
        &&& 0 < self.body_half_height
            < CHASSIS_SPAWN_Y_MILLI - GROUND_HALF_HEIGHT_MILLI
    }

    pub fn new(
        rear_wheel_radius: i64,
        front_wheel_radius: i64,
        body_half_width: i64,
        body_half_height: i64,
    ) -> (c: Car)
        ensures
            c == (Car {
                rear_wheel_radius,
                front_wheel_radius,
                body_half_width,
                body_half_height,
            }),
    {
        Car { rear_wheel_radius, front_wheel_radius, body_half_width, body_half_height }
    }
}

/// Addition on the torque accumulator: exact while the sum fits in `i64`,
/// clamped to the nearer bound once it does not.
pub open spec fn sat_add_i64(a: int, b: int) -> int {
    if a + b > i64::MAX as int {
        i64::MAX as int
    } else if a + b < i64::MIN as int {
        i64::MIN as int
    } else {
        a + b
    }
}

/// Increment on the step counter: exact until `u64::MAX`, where it stays.
pub open spec fn sat_inc_u64(s: nat) -> nat {
    if s + 1 > u64::MAX as nat {
        u64::MAX as nat
    } else {
        s + 1
    }
}

/// The mathematical view of the actuation state: the net drive torque
/// accumulated since the last step (milli-units) and the number of completed
/// fixed-timestep advances.
pub struct GameModel {
    pub pending: int,
    pub steps: nat,
}

/// The actuation state of the vehicle. The solver's own bodies, colliders
/// and caches live with the runtime; this type carries what the control
/// loop's decisions and contracts are about: the drive-wheel torque that the
/// next step will consume, and how many steps have completed.
pub struct Game {
    car: Car,
    pending_torque: i64,
    steps_done: u64,
}

impl Game {
    pub closed spec fn model(self) -> GameModel {
        GameModel { pending: self.pending_torque as int, steps: self.steps_done as nat }
    }

    pub closed spec fn car_dims(self) -> Car {
        self.car
    }

    /// A freshly built game has an empty torque accumulator and no completed
    /// steps.
    pub fn new(car: Car) -> (g: Game)
        ensures
            g.model().pending == 0,
            g.model().steps == 0,
            g.car_dims() == car,
    {
        Game { car, pending_torque: 0, steps_done: 0 }
    }

    /// One fixed-timestep advance. The step consumes the accumulated drive
    /// torque: actuation is impulse-per-interval, so the accumulator is zero
    /// afterwards, whatever it held.
    pub fn step_physics(&mut self)
        ensures
            final(self).model().pending == 0,
            final(self).model().steps == sat_inc_u64(old(self).model().steps),
            final(self).car_dims() == old(self).car_dims(),
    {
        self.pending_torque = 0;
        self.steps_done = self.steps_done.saturating_add(1);
    }

    /// Adds `torque` to the drive wheel's accumulator for the next step only.
    /// Repeated calls before that step accumulate additively.
    pub fn apply_torque(&mut self, torque: i64)
        ensures
            final(self).model().pending == sat_add_i64(
                old(self).model().pending,
                torque as int,
            ),
            final(self).model().steps == old(self).model().steps,
            final(self).car_dims() == old(self).car_dims(),
    {
        self.pending_torque = match self.pending_torque.checked_add(torque) {
            Some(sum) => sum,
            None => if torque >= 0 {
                i64::MAX
            } else {
                i64::MIN
            },
        };
    }

    /// The net drive torque accumulated since the last step, milli-units.
    pub fn get_rear_wheel_torque(&self) -> (t: i64)
        ensures
            t as int == self.model().pending,
    {
        self.pending_torque
    }

    /// How many fixed-timestep advances have completed.
    pub fn steps_completed(&self) -> (n: u64)
        ensures
            n as int == self.model().steps,
    {
        self.steps_done
    }

    pub fn get_car(&self) -> (c: &Car)
        ensures
            *c == self.car_dims(),
    {
        &self.car
    }
}

/// Everything the runtime needs to build the static scene, milli-units. One
/// ground cuboid, one chassis cuboid, two wheel balls, and one revolute
/// joint per wheel anchored at the chassis corners with wheel-chassis
/// contacts disabled.
#[derive(Clone, Copy, PartialEq, Eq, Structural, Debug)]
pub struct SceneConfig {
    pub ground_half_width: i64,
    pub ground_half_height: i64,
    pub chassis_x: i64,
    pub chassis_y: i64,
    pub chassis_half_width: i64,
    pub chassis_half_height: i64,
    pub chassis_linear_damping: i64,
    pub rear_wheel_radius: i64,
    pub front_wheel_radius: i64,
    pub rear_wheel_x: i64,
    pub rear_wheel_y: i64,
    pub front_wheel_x: i64,
    pub front_wheel_y: i64,
    pub wheel_angular_damping: i64,
    pub rear_restitution: i64,
    pub front_restitution: i64,
    pub rear_anchor_x: i64,
    pub rear_anchor_y: i64,
    pub front_anchor_x: i64,
    pub front_anchor_y: i64,
    pub wheel_contacts_enabled: bool,
    pub gravity_x: i64,
    pub gravity_y: i64,
}

/// The scene built for a given car: spawn positions at the configured
/// heights, the rear wheel under the chassis origin, the front wheel one
/// half-width ahead, both anchored at the chassis's bottom corners.
pub open spec fn scene_of(car: Car) -> SceneConfig {
    SceneConfig {
        ground_half_width: GROUND_HALF_WIDTH_MILLI,
        ground_half_height: GROUND_HALF_HEIGHT_MILLI,
        chassis_x: CHASSIS_SPAWN_X_MILLI,
        chassis_y: CHASSIS_SPAWN_Y_MILLI,
        chassis_half_width: car.body_half_width,
        chassis_half_height: car.body_half_height,
        chassis_linear_damping: CHASSIS_LINEAR_DAMPING_MILLI,
        rear_wheel_radius: car.rear_wheel_radius,
        front_wheel_radius: car.front_wheel_radius,
        rear_wheel_x: CHASSIS_SPAWN_X_MILLI,
        rear_wheel_y: CHASSIS_SPAWN_Y_MILLI,
        front_wheel_x: (CHASSIS_SPAWN_X_MILLI + car.body_half_width) as i64,
        front_wheel_y: CHASSIS_SPAWN_Y_MILLI,
        wheel_angular_damping: WHEEL_ANGULAR_DAMPING_MILLI,
        rear_restitution: REAR_RESTITUTION_MILLI,
        front_restitution: FRONT_RESTITUTION_MILLI,
        rear_anchor_x: (-car.body_half_width) as i64,
        rear_anchor_y: (-car.body_half_height) as i64,
        front_anchor_x: car.body_half_width,
        front_anchor_y: (-car.body_half_height) as i64,
        wheel_contacts_enabled: false,
        gravity_x: GRAVITY_X_MILLI,
        gravity_y: GRAVITY_Y_MILLI,
    }
}

/// Builds the scene description for `car`. Succeeds exactly when the car is
/// well formed; an ill-formed car has no scene, which the caller treats as a
/// construction-time invariant violation.
pub fn scene_config(car: &Car) -> (s: Option<SceneConfig>)
    ensures
        s is Some <==> car.wf(),
        s matches Some(sc) ==> sc == scene_of(*car),
{
    let spawn_clearance = CHASSIS_SPAWN_Y_MILLI - GROUND_HALF_HEIGHT_MILLI;
    if 0 < car.rear_wheel_radius && car.rear_wheel_radius < spawn_clearance
        && 0 < car.front_wheel_radius && car.front_wheel_radius < spawn_clearance
        && 0 < car.body_half_width && car.body_half_width <= BODY_HALF_WIDTH_LIMIT_MILLI
        && 0 < car.body_half_height && car.body_half_height < spawn_clearance
    {
        Some(SceneConfig {
            ground_half_width: GROUND_HALF_WIDTH_MILLI,
            ground_half_height: GROUND_HALF_HEIGHT_MILLI,
            chassis_x: CHASSIS_SPAWN_X_MILLI,
            chassis_y: CHASSIS_SPAWN_Y_MILLI,
            chassis_half_width: car.body_half_width,
            chassis_half_height: car.body_half_height,
            chassis_linear_damping: CHASSIS_LINEAR_DAMPING_MILLI,
            rear_wheel_radius: car.rear_wheel_radius,
            front_wheel_radius: car.front_wheel_radius,
            rear_wheel_x: CHASSIS_SPAWN_X_MILLI,
            rear_wheel_y: CHASSIS_SPAWN_Y_MILLI,
            front_wheel_x: CHASSIS_SPAWN_X_MILLI + car.body_half_width,
            front_wheel_y: CHASSIS_SPAWN_Y_MILLI,
            wheel_angular_damping: WHEEL_ANGULAR_DAMPING_MILLI,
            rear_restitution: REAR_RESTITUTION_MILLI,
            front_restitution: FRONT_RESTITUTION_MILLI,
            rear_anchor_x: -car.body_half_width,
            rear_anchor_y: -car.body_half_height,
            front_anchor_x: car.body_half_width,
            front_anchor_y: -car.body_half_height,
            wheel_contacts_enabled: false,
            gravity_x: GRAVITY_X_MILLI,
            gravity_y: GRAVITY_Y_MILLI,
        })
    } else {
        None
    }
}

/// Construction policy of the scene, for any well-formed car: every body
/// spawns clear of the ground, the wheels hang at the chassis's bottom
/// corners with direct wheel-chassis contacts disabled, only the rear wheel
/// collider is bouncy, and gravity points down.
pub proof fn lemma_scene_policy(car: Car)
    requires
        car.wf(),
    ensures
        scene_of(car).chassis_y - car.body_half_height > scene_of(car).ground_half_height,
        scene_of(car).rear_wheel_y - car.rear_wheel_radius > scene_of(car).ground_half_height,
        scene_of(car).front_wheel_y - car.front_wheel_radius > scene_of(car).ground_half_height,
        scene_of(car).rear_anchor_x == -car.body_half_width,
        scene_of(car).rear_anchor_y == -car.body_half_height,
        scene_of(car).front_anchor_x == car.body_half_width,
        scene_of(car).front_anchor_y == -car.body_half_height,
        !scene_of(car).wheel_contacts_enabled,
        scene_of(car).rear_restitution > 0,
        scene_of(car).front_restitution == 0,
        scene_of(car).gravity_y < 0,
{
}

} // verus!
