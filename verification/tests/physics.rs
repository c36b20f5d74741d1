//! The scene description handed to the rigid-body solver: the car settles
//! onto the ground under gravity, and a single drive impulse is consumed by
//! one step and sets the chassis moving.

use hillclimb::game::{scene_config, Car, DRIVE_TORQUE_MILLI};

use rapier2d_f64::dynamics::{
    CCDSolver, ImpulseJointSet, IntegrationParameters, IslandManager, MultibodyJointSet,
    RevoluteJointBuilder, RigidBodyBuilder, RigidBodyHandle, RigidBodySet, SoftBodySet,
};
use rapier2d_f64::geometry::{ColliderBuilder, ColliderSet, DefaultBroadPhase, NarrowPhase};
use rapier2d_f64::math::Vector;
use rapier2d_f64::pipeline::PhysicsPipeline;

fn units(v: i64) -> f64 {
    v as f64 / 1000.0
}

struct World {
    gravity: Vector,
    integration_parameters: IntegrationParameters,
    pipeline: PhysicsPipeline,
    islands: IslandManager,
    broad_phase: DefaultBroadPhase,
    narrow_phase: NarrowPhase,
    bodies: RigidBodySet,
    colliders: ColliderSet,
    impulse_joints: ImpulseJointSet,
    multibody_joints: MultibodyJointSet,
    soft_bodies: SoftBodySet,
    ccd_solver: CCDSolver,
    chassis: RigidBodyHandle,
    rear_wheel: RigidBodyHandle,
}

fn build(car: Car) -> World {
    let sc = scene_config(&car).expect("a well-formed car has a scene");

    let mut bodies = RigidBodySet::new();
    let mut colliders = ColliderSet::new();
    let mut impulse_joints = ImpulseJointSet::new();

    let ground =
        ColliderBuilder::cuboid(units(sc.ground_half_width), units(sc.ground_half_height));
    colliders.insert(ground);

    let chassis_body = RigidBodyBuilder::dynamic()
        .translation(Vector::new(units(sc.chassis_x), units(sc.chassis_y)))
        .linear_damping(units(sc.chassis_linear_damping));
    let chassis = bodies.insert(chassis_body);
    let chassis_collider =
        ColliderBuilder::cuboid(units(sc.chassis_half_width), units(sc.chassis_half_height));
    colliders.insert_with_parent(chassis_collider, chassis, &mut bodies);

    let rear_body = RigidBodyBuilder::dynamic()
        .translation(Vector::new(units(sc.rear_wheel_x), units(sc.rear_wheel_y)))
        .angular_damping(units(sc.wheel_angular_damping));
    let rear_wheel = bodies.insert(rear_body);
    let rear_collider = ColliderBuilder::ball(units(sc.rear_wheel_radius))
        .restitution(units(sc.rear_restitution));
    colliders.insert_with_parent(rear_collider, rear_wheel, &mut bodies);

    let front_body = RigidBodyBuilder::dynamic()
        .translation(Vector::new(units(sc.front_wheel_x), units(sc.front_wheel_y)))
        .angular_damping(units(sc.wheel_angular_damping));
    let front_wheel = bodies.insert(front_body);
    let front_collider = ColliderBuilder::ball(units(sc.front_wheel_radius))
        .restitution(units(sc.front_restitution));
    colliders.insert_with_parent(front_collider, front_wheel, &mut bodies);

    let rear_joint = RevoluteJointBuilder::new()
        .local_anchor1(Vector::new(units(sc.rear_anchor_x), units(sc.rear_anchor_y)))
        .local_anchor2(Vector::new(0.0, 0.0))
        .contacts_enabled(sc.wheel_contacts_enabled);
    impulse_joints.insert(chassis, rear_wheel, rear_joint, true);

    let front_joint = RevoluteJointBuilder::new()
        .local_anchor1(Vector::new(units(sc.front_anchor_x), units(sc.front_anchor_y)))
        .local_anchor2(Vector::new(0.0, 0.0))
        .contacts_enabled(sc.wheel_contacts_enabled);
    impulse_joints.insert(chassis, front_wheel, front_joint, true);

    World {
        gravity: Vector::new(units(sc.gravity_x), units(sc.gravity_y)),
        integration_parameters: IntegrationParameters::default(),
        pipeline: PhysicsPipeline::new(),
        islands: IslandManager::new(),
        broad_phase: DefaultBroadPhase::new(),
        narrow_phase: NarrowPhase::new(),
        bodies,
        colliders,
        impulse_joints,
        multibody_joints: MultibodyJointSet::new(),
        soft_bodies: SoftBodySet::new(),
        ccd_solver: CCDSolver::new(),
        chassis,
        rear_wheel,
    }
}

impl World {
    /// One fixed-timestep advance that consumes the accumulated drive
    /// torque, as the step command's executor performs it.
    fn step(&mut self) {
        self.pipeline.step(
            self.gravity,
            &self.integration_parameters,
            &mut self.islands,
            &mut self.broad_phase,
            &mut self.narrow_phase,
            &mut self.bodies,
            &mut self.colliders,
            &mut self.impulse_joints,
            &mut self.multibody_joints,
            &mut self.soft_bodies,
            &mut self.ccd_solver,
            &(),
            &(),
        );
        self.bodies[self.rear_wheel].reset_torques(true);
    }

    fn chassis_x(&self) -> f64 {
        self.bodies[self.chassis].translation().x
    }

    fn chassis_y(&self) -> f64 {
        self.bodies[self.chassis].translation().y
    }
}

#[test]
fn chassis_settles_near_the_resting_height() {
    let car = Car::new(500, 500, 2000, 500);
    let mut w = build(car);

    let y0 = w.chassis_y();
    assert!((y0 - 10.0).abs() < 1e-9);

    let mut highest = y0;
    for _ in 0..1100 {
        w.step();
        if w.chassis_y() > highest {
            highest = w.chassis_y();
        }
    }
    let y_before = w.chassis_y();
    for _ in 0..100 {
        w.step();
    }
    let y_final = w.chassis_y();

    // fell from the spawn height and never flew above it by more than the
    // joint-assembly transient
    assert!(y_final < y0 - 5.0, "chassis still high: {y_final}");
    assert!(highest < y0 + 1.0, "chassis flew upward to {highest}");
    // resting between the ground top and spawn, roughly at ground top plus
    // wheel radius plus chassis half-height, within solver tolerance
    assert!(y_final > 1.0 && y_final < 3.0, "rest height out of band: {y_final}");
    // stabilized: barely moving over the last 100 steps
    assert!((y_final - y_before).abs() < 0.01, "still moving: {y_before} -> {y_final}");
}

#[test]
fn a_single_drive_impulse_is_consumed_and_moves_the_chassis() {
    let car = Car::new(500, 500, 2000, 500);
    let mut w = build(car);

    // let the car settle first
    for _ in 0..900 {
        w.step();
    }
    let x_rest = w.chassis_x();

    // one accelerate action's worth of torque, in solver units
    let torque = DRIVE_TORQUE_MILLI as f64 / 1000.0;
    w.bodies[w.rear_wheel].add_torque(torque, true);
    assert!((w.bodies[w.rear_wheel].user_torque() - torque).abs() < 1e-9);

    // the first subsequent step consumes the accumulator entirely
    w.step();
    assert_eq!(w.bodies[w.rear_wheel].user_torque(), 0.0);

    // the impulse set the chassis moving horizontally, in one consistent
    // direction while the spin lasts
    let mut x_prev = w.chassis_x();
    let direction = (x_prev - x_rest).signum();
    for _ in 0..20 {
        w.step();
        let x = w.chassis_x();
        assert!(
            (x - x_prev) * direction > -1e-6,
            "chassis direction flipped: {x_prev} -> {x}"
        );
        x_prev = x;
    }
    assert!(
        (w.chassis_x() - x_rest).abs() > 0.05,
        "chassis barely moved: {} -> {}",
        x_rest,
        w.chassis_x()
    );
}
