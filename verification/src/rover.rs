//! The rover: the one entity that the keyboard steers.
//!
//! Each tick the keys held decide by how much the rover turns and how fast it
//! drives. Its velocity is set anew from them at every tick: it does not build
//! up, and it does not decay.

use crate::keyboard::{pressed_keys, Controls};
use crate::movement::{Transform, Velocity};
use crate::vector::{Direction, Vec3, Vector, UNIT};
use bevy::input::keyboard::KeyCode;
use bevy::input::ButtonInput;
use vstd::prelude::*;

verus! {

/// How fast the rover drives, in length units per second.
pub const ROVER_SPEED: i64 = 25;

/// How fast the rover turns, in thousandths of a radian per second.
pub const ROVER_ROTATION_SPEED: i64 = 2_500;

/// The angle by which the rover turns about the up axis in a tick of length
/// `dt`: to the left where the key for it is held, else to the right where
/// the key for that is held, else not at all.
pub open spec fn rotation_delta(controls: Controls, dt: int) -> int {
    if controls.rotate_left {
        ROVER_ROTATION_SPEED * dt
    } else if controls.rotate_right {
        -(ROVER_ROTATION_SPEED * dt)
    } else {
        0
    }
}

/// The angle by which the rover rolls in a tick of length `dt`. No key rolls
/// the rover.
pub open spec fn roll_delta(controls: Controls, dt: int) -> int {
    0
}

/// The speed that the keys ask for: forward where the key for it is held,
/// else backward where the key for that is held, else none.
pub open spec fn scalar_speed(controls: Controls) -> int {
    if controls.forward {
        ROVER_SPEED as int
    } else if controls.backward {
        -ROVER_SPEED
    } else {
        0
    }
}

/// The velocity of a rover that faces along `forward` under the given
/// controls: against its facing, at the speed that the keys ask for.
pub open spec fn steered_velocity(forward: Vector, controls: Controls) -> Vector {
    forward.negated().scaled(scalar_speed(controls))
}

/// What the controls ask of the rover in one tick.
#[derive(Clone, Copy, Debug, PartialEq, Eq, Structural)]
pub struct Steering {
    /// The angle to turn by about the up axis.
    pub rotation: i64,
    /// The angle to roll by about the rover's own forward axis.
    pub roll: i64,
    /// The speed to drive at.
    pub movement: i64,
}

/// What `controls` ask of the rover in a tick of length `dt`.
pub fn steering(controls: &Controls, dt: u32) -> (asked: Steering)
    ensures
        asked.rotation == rotation_delta(*controls, dt as int),
        asked.roll == roll_delta(*controls, dt as int),
        asked.movement == scalar_speed(*controls),
{
    let reach: i64 = ROVER_ROTATION_SPEED * (dt as i64);
    let rotation: i64 = if controls.rotate_left {
        reach
    } else if controls.rotate_right {
        -reach
    } else {
        0
    };
    let movement: i64 = if controls.forward {
        ROVER_SPEED
    } else if controls.backward {
        -ROVER_SPEED
    } else {
        0
    };
    Steering { rotation, roll: 0, movement }
}

/// The entity that the keyboard steers.
#[derive(Clone, Copy, Debug, PartialEq, Eq, Structural)]
pub struct Rover {
    pub transform: Transform,
    pub velocity: Velocity,
}

/// The rover as it enters the world: at the origin, not turned, at rest.
pub fn spawn_rover() -> (rover: Rover)
    ensures
        rover.transform.translation@ == Vector::zero(),
        rover.transform.yaw == 0,
        rover.transform.roll == 0,
        rover.velocity.value@ == Vector::zero(),
{
    Rover {
        transform: Transform::from_translation(Vec3::zero()),
        velocity: Velocity::new(Vec3::zero()),
    }
}

/// Whether the rover `before` has become `after` by one tick of length `dt`
/// under `controls`, having come to face along `forward`: it has turned and
/// rolled by what the controls ask, its velocity is the one that they ask for
/// along its new facing, and it stands where it stood.
pub open spec fn has_steered(
    before: Rover,
    after: Rover,
    controls: Controls,
    dt: int,
    forward: Vector,
) -> bool {
    &&& after.transform.yaw == before.transform.yaw + rotation_delta(controls, dt)
    &&& after.transform.roll == before.transform.roll + roll_delta(controls, dt)
    &&& after.transform.translation == before.transform.translation
    &&& after.velocity.value@ == steered_velocity(forward, controls)
}

impl Rover {
    /// Whether the rover's angle about the up axis has room for the turn of a
    /// tick of length `dt` to either side, and so for whatever the keys ask.
    pub open spec fn turn_fits(self, dt: int) -> bool {
        &&& i64::MIN <= self.transform.yaw - ROVER_ROTATION_SPEED * dt
        &&& self.transform.yaw + ROVER_ROTATION_SPEED * dt <= i64::MAX
    }

    /// Whether the rover can be steered for a tick of length `dt`, whichever
    /// keys are held.
    pub fn can_turn(&self, dt: u32) -> (ok: bool)
        ensures
            ok == self.turn_fits(dt as int),
    {
        let reach: i64 = ROVER_ROTATION_SPEED * (dt as i64);
        i64::MIN + reach <= self.transform.yaw && self.transform.yaw <= i64::MAX - reach
    }

    /// One tick of steering under `controls`.
    ///
    /// The rover turns first, and its velocity follows its new facing.
    /// `forward` is that facing: the direction in which the rover looks once
    /// it has turned by `rotation_delta(controls, dt)`.
    pub fn steer(&mut self, controls: &Controls, dt: u32, forward: &Direction)
        requires
            i64::MIN <= old(self).transform.yaw + rotation_delta(*controls, dt as int) <= i64::MAX,
        ensures
            has_steered(*old(self), *final(self), *controls, dt as int, forward@),
            final(self).velocity.value@.norm_squared() <= (ROVER_SPEED * UNIT) * (ROVER_SPEED * UNIT),
    {
        let asked = steering(controls, dt);
        self.transform.rotate_y(asked.rotation);
        self.transform.rotate_local_z(asked.roll);
        let x: i64 = forward.x();
        let y: i64 = forward.y();
        let z: i64 = forward.z();
        proof {
            lemma_scaled_component(-x, asked.movement as int);
            lemma_scaled_component(-y, asked.movement as int);
            lemma_scaled_component(-z, asked.movement as int);
        }
        self.velocity.value = Vec3::new((-x) * asked.movement, (-y) * asked.movement, (-z) * asked.movement);
        proof {
            lemma_speed_is_bounded(forward@, *controls);
        }
    }
}

/// One tick of the rover's controls: reads the keys held from
/// `keyboard_input`, turns and rolls the rover by what they ask, and sets its
/// velocity to the one that they ask for along its new facing.
///
/// `query` holds the entities that the keyboard steers, and there is to be
/// exactly one. `forward` is the facing of that rover once it has turned;
/// [`steering`] tells the turn beforehand.
pub fn rover_movement_controls(
    query: &mut Vec<Rover>,
    keyboard_input: &ButtonInput<KeyCode>,
    dt: u32,
    forward: &Direction,
)
    requires
        old(query)@.len() == 1,
        i64::MIN <= old(query)@[0].transform.yaw + rotation_delta(
            Controls::held(pressed_keys(*keyboard_input)),
            dt as int,
        ) <= i64::MAX,
    ensures
        final(query)@.len() == 1,
        has_steered(
            old(query)@[0],
            final(query)@[0],
            Controls::held(pressed_keys(*keyboard_input)),
            dt as int,
            forward@,
        ),
        final(query)@[0].velocity.value@.norm_squared() <= (ROVER_SPEED * UNIT) * (ROVER_SPEED
            * UNIT),
{
    let controls = Controls::read(keyboard_input);
    query[0].steer(&controls, dt, forward);
}

/// A component of a direction, scaled by a speed of the rover, stays small.
proof fn lemma_scaled_component(c: int, speed: int)
    by (nonlinear_arith)
    requires
        -UNIT <= c <= UNIT,
        -ROVER_SPEED <= speed <= ROVER_SPEED,
    ensures
        -ROVER_SPEED * UNIT <= c * speed <= ROVER_SPEED * UNIT,
{
}

/// The square of a component that is turned round and stretched by `k`.
proof fn lemma_square_of_scaled(c: int, k: int)
    by (nonlinear_arith)
    ensures
        ((-c) * k) * ((-c) * k) == (k * k) * (c * c),
{
}

/// A factor spreads over a sum of three.
proof fn lemma_spread(q: int, a: int, b: int, c: int)
    by (nonlinear_arith)
    ensures
        q * (a + b + c) == q * a + q * b + q * c,
{
}

/// The square of the length of a vector that is turned round and stretched by `k`.
proof fn lemma_norm_of_scaled(v: Vector, k: int)
    ensures
        v.negated().scaled(k).norm_squared() == (k * k) * v.norm_squared(),
{
    lemma_square_of_scaled(v.x, k);
    lemma_square_of_scaled(v.y, k);
    lemma_square_of_scaled(v.z, k);
    lemma_spread(k * k, v.x * v.x, v.y * v.y, v.z * v.z);
}

/// With both keys for turning held, the rover turns as with the left one alone.
pub proof fn lemma_left_turn_has_priority(controls: Controls, dt: int)
    requires
        controls.rotate_left,
        controls.rotate_right,
    ensures
        rotation_delta(controls, dt) == rotation_delta(
            Controls { rotate_right: false, ..controls },
            dt,
        ),
{
}

/// With both keys for driving held, the rover drives as with the forward one alone.
pub proof fn lemma_forward_has_priority(controls: Controls)
    requires
        controls.forward,
        controls.backward,
    ensures
        scalar_speed(controls) == scalar_speed(Controls { backward: false, ..controls }),
{
}

/// In one tick the rover turns by no more than its rotation speed times the
/// length of the tick.
pub proof fn lemma_turn_is_bounded(controls: Controls, dt: int)
    requires
        0 <= dt,
    ensures
        -(ROVER_ROTATION_SPEED * dt) <= rotation_delta(controls, dt) <= ROVER_ROTATION_SPEED * dt,
{
}

/// The rover's velocity is set anew at every tick: what it was before the
/// tick has no part in what it is after.
pub proof fn lemma_velocity_is_overwritten(
    slow: Rover,
    fast: Rover,
    slow_after: Rover,
    fast_after: Rover,
    controls: Controls,
    dt: int,
    forward: Vector,
)
    requires
        has_steered(slow, slow_after, controls, dt, forward),
        has_steered(fast, fast_after, controls, dt, forward),
    ensures
        slow_after.velocity == fast_after.velocity,
{
}

/// With no key for driving held, the rover is at rest, whichever way it faces.
pub proof fn lemma_no_drive_key_is_rest(forward: Vector, controls: Controls)
    requires
        !controls.forward,
        !controls.backward,
    ensures
        steered_velocity(forward, controls) == Vector::zero(),
{
}

/// With the forward key held, a rover that faces along the third axis moves
/// at its full speed along that axis, the other way.
pub proof fn lemma_forward_key_facing_z(controls: Controls)
    requires
        controls.forward,
    ensures
        steered_velocity(Vector::of(0, 0, UNIT as int), controls) == Vector::of(
            0,
            0,
            -ROVER_SPEED * UNIT,
        ),
{
}

/// The rover is never faster than its speed, and with a key for driving held
/// it is as fast as that, up to the two millionths by which the length of a
/// direction may fall short.
pub proof fn lemma_speed_is_bounded(forward: Vector, controls: Controls)
    requires
        forward.is_unit(),
    ensures
        steered_velocity(forward, controls).norm_squared() <= (ROVER_SPEED * UNIT) * (ROVER_SPEED
            * UNIT),
        controls.forward || controls.backward ==> steered_velocity(forward, controls).norm_squared()
            >= (ROVER_SPEED * (UNIT - 2)) * (ROVER_SPEED * (UNIT - 2)),
{
    let k = scalar_speed(controls);
    let n = forward.norm_squared();
    lemma_norm_of_scaled(forward, k);
    assert((k * k) * n <= 625 * n) by (nonlinear_arith)
        requires
            -25 <= k <= 25,
            0 <= n,
    ;
    assert((25 * 1_000_000) * (25 * 1_000_000) == 625 * (1_000_000 * 1_000_000));
    if controls.forward || controls.backward {
        assert((k * k) * n == 625 * n) by (nonlinear_arith)
            requires
                k == 25 || k == -25,
        ;
        assert((25 * 999_998) * (25 * 999_998) == 625 * (999_998 * 999_998));
    }
}

} // verus!
