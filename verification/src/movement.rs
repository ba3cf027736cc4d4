//! Velocity, and how it carries a transform along.
//!
//! Time is counted in microseconds, a velocity in millionths of a length unit
//! per second, a position in their product: millionths of a millionth of a
//! length unit. An angle is counted in thousandths of a millionth of a radian.

use crate::vector::{Vec3, Vector};
use vstd::prelude::*;

verus! {

/// The speed of an entity along each axis.
#[derive(Clone, Copy, Debug, PartialEq, Eq, Structural)]
pub struct Velocity {
    pub value: Vec3,
}

impl Velocity {
    /// The velocity with the given value.
    pub fn new(value: Vec3) -> (velocity: Velocity)
        ensures
            velocity.value == value,
    {
        Velocity { value }
    }
}

/// Where an entity stands and how it is turned: its position, the angle by
/// which it is turned about the up axis, and the angle by which it is rolled
/// about its own forward axis.
#[derive(Clone, Copy, Debug, PartialEq, Eq, Structural)]
pub struct Transform {
    pub translation: Vec3,
    pub yaw: i64,
    pub roll: i64,
}

impl Transform {
    /// The transform of an entity that stands at `translation` and is not turned.
    pub fn from_translation(translation: Vec3) -> (transform: Transform)
        ensures
            transform.translation == translation,
            transform.yaw == 0,
            transform.roll == 0,
    {
        Transform { translation, yaw: 0, roll: 0 }
    }

    /// Turns the entity about the up axis by `angle`.
    pub fn rotate_y(&mut self, angle: i64)
        requires
            i64::MIN <= old(self).yaw + angle <= i64::MAX,
        ensures
            final(self).yaw == old(self).yaw + angle,
            final(self).roll == old(self).roll,
            final(self).translation == old(self).translation,
    {
        self.yaw = self.yaw + angle;
    }

    /// Rolls the entity about its own forward axis by `angle`.
    pub fn rotate_local_z(&mut self, angle: i64)
        requires
            i64::MIN <= old(self).roll + angle <= i64::MAX,
        ensures
            final(self).roll == old(self).roll + angle,
            final(self).yaw == old(self).yaw,
            final(self).translation == old(self).translation,
    {
        self.roll = self.roll + angle;
    }
}

/// Where a point that starts at `translation` stands after it has moved with
/// `velocity` for the time `dt`.
pub open spec fn integrated(translation: Vector, velocity: Vector, dt: int) -> Vector {
    translation.plus(velocity.scaled(dt))
}

/// Whether the entity `before` has become `after` by moving for the time `dt`:
/// its position has advanced by its velocity times `dt`, and nothing else of
/// it has changed.
pub open spec fn has_moved(
    before: (Velocity, Transform),
    after: (Velocity, Transform),
    dt: int,
) -> bool {
    &&& after.0 == before.0
    &&& after.1.yaw == before.1.yaw
    &&& after.1.roll == before.1.roll
    &&& after.1.translation@ == integrated(before.1.translation@, before.0.value@, dt)
}

/// Whether a [`Vec3`] can hold the position that each of the entities reaches
/// in the time `dt`.
pub open spec fn all_in_range(query: Seq<(Velocity, Transform)>, dt: int) -> bool {
    forall|i: int|
        0 <= i < query.len() ==> integrated(
            (#[trigger] query[i]).1.translation@,
            query[i].0.value@,
            dt,
        ).fits()
}

/// The product of a machine integer and a time step, which an `i128` always holds.
proof fn lemma_step_bounded(v: int, dt: int)
    by (nonlinear_arith)
    requires
        i64::MIN <= v <= i64::MAX,
        0 <= dt <= u32::MAX,
    ensures
        -0x8000_0000_0000_0000 * 0x1_0000_0000 <= v * dt <= 0x8000_0000_0000_0000 * 0x1_0000_0000,
{
}

/// One coordinate after the time `dt`, where an `i64` can hold it.
fn advance_axis(position: i64, speed: i64, dt: u32) -> (reached: Option<i64>)
    ensures
        reached is Some <==> i64::MIN <= position + speed * dt <= i64::MAX,
        reached matches Some(r) ==> r == position + speed * dt,
{
    proof {
        lemma_step_bounded(speed as int, dt as int);
    }
    let step: i128 = (speed as i128) * (dt as i128);
    let sum: i128 = (position as i128) + step;
    if sum < (i64::MIN as i128) || sum > (i64::MAX as i128) {
        None
    } else {
        Some(sum as i64)
    }
}

/// Moves a point from `translation` with `velocity` for the time `dt`. The
/// result is `None` where a [`Vec3`] cannot hold the position reached.
pub fn integrate(translation: Vec3, velocity: Vec3, dt: u32) -> (reached: Option<Vec3>)
    ensures
        reached is Some <==> integrated(translation@, velocity@, dt as int).fits(),
        reached matches Some(r) ==> r@ == integrated(translation@, velocity@, dt as int),
{
    match advance_axis(translation.x, velocity.x, dt) {
        None => None,
        Some(x) => match advance_axis(translation.y, velocity.y, dt) {
            None => None,
            Some(y) => match advance_axis(translation.z, velocity.z, dt) {
                None => None,
                Some(z) => Some(Vec3 { x, y, z }),
            },
        },
    }
}

/// Whether [`update_position`] can move every entity of `query` for the time `dt`.
pub fn can_update_position(query: &Vec<(Velocity, Transform)>, dt: u32) -> (ok: bool)
    ensures
        ok == all_in_range(query@, dt as int),
{
    let mut i: usize = 0;
    while i < query.len()
        invariant
            i <= query.len(),
            forall|j: int|
                0 <= j < i ==> integrated(
                    (#[trigger] query@[j]).1.translation@,
                    query@[j].0.value@,
                    dt as int,
                ).fits(),
        decreases query.len() - i,
    {
        let (velocity, transform) = query[i];
        if integrate(transform.translation, velocity.value, dt).is_none() {
            return false;
        }
        i = i + 1;
    }
    true
}

/// One tick of motion: advances the position of every entity of `query` by
/// its velocity times the elapsed time `dt`, and changes nothing else.
pub fn update_position(query: &mut Vec<(Velocity, Transform)>, dt: u32)
    requires
        all_in_range(old(query)@, dt as int),
    ensures
        final(query)@.len() == old(query)@.len(),
        forall|i: int|
            0 <= i < old(query)@.len() ==> has_moved(
                old(query)@[i],
                #[trigger] final(query)@[i],
                dt as int,
            ),
{
    let ghost before = query@;
    let mut i: usize = 0;
    while i < query.len()
        invariant
            i <= query.len(),
            query@.len() == before.len(),
            all_in_range(before, dt as int),
            forall|j: int| 0 <= j < i ==> has_moved(before[j], #[trigger] query@[j], dt as int),
            forall|j: int| i <= j < before.len() ==> query@[j] == before[j],
        decreases query.len() - i,
    {
        assert(query@[i as int] == before[i as int]);
        let (velocity, transform) = query[i];
        let reached = integrate(transform.translation, velocity.value, dt);
        query[i].1.translation = reached.unwrap();
        i = i + 1;
    }
}

/// Integration is linear in time: to move for `dt1` and from there for `dt2`
/// is to move for `dt1 + dt2`.
pub proof fn lemma_integration_is_linear(translation: Vector, velocity: Vector, dt1: int, dt2: int)
    requires
        0 <= dt1,
        0 <= dt2,
    ensures
        integrated(integrated(translation, velocity, dt1), velocity, dt2) == integrated(
            translation,
            velocity,
            dt1 + dt2,
        ),
{
    assert(velocity.x * dt1 + velocity.x * dt2 == velocity.x * (dt1 + dt2)) by (nonlinear_arith);
    assert(velocity.y * dt1 + velocity.y * dt2 == velocity.y * (dt1 + dt2)) by (nonlinear_arith);
    assert(velocity.z * dt1 + velocity.z * dt2 == velocity.z * (dt1 + dt2)) by (nonlinear_arith);
}

/// An entity at rest stays where it is, however long the tick.
pub proof fn lemma_rest_stays(translation: Vector, dt: int)
    ensures
        integrated(translation, Vector::zero(), dt) == translation,
{
}

} // verus!
