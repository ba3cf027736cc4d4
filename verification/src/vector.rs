//! Vectors in three dimensions, in exact integer arithmetic.
//!
//! Every quantity of this crate is a fixed-point integer. A product of two
//! quantities is kept in the product of their units and is never rounded, so
//! that what the contracts say holds exactly.

use vstd::prelude::*;

verus! {

/// A vector over the mathematical integers: what a [`Vec3`] or a [`Direction`]
/// stands for in contracts.
pub struct Vector {
    pub x: int,
    pub y: int,
    pub z: int,
}

impl Vector {
    /// The vector with the given components.
    pub open spec fn of(x: int, y: int, z: int) -> Vector {
        Vector { x, y, z }
    }

    /// The vector of length zero.
    pub open spec fn zero() -> Vector {
        Vector::of(0, 0, 0)
    }

    /// The sum of two vectors.
    pub open spec fn plus(self, other: Vector) -> Vector {
        Vector::of(self.x + other.x, self.y + other.y, self.z + other.z)
    }

    /// The vector of the same length that points the other way.
    pub open spec fn negated(self) -> Vector {
        Vector::of(-self.x, -self.y, -self.z)
    }

    /// The vector stretched by the factor `k`.
    pub open spec fn scaled(self, k: int) -> Vector {
        Vector::of(self.x * k, self.y * k, self.z * k)
    }

    /// The square of the vector's length.
    pub open spec fn norm_squared(self) -> int {
        self.x * self.x + self.y * self.y + self.z * self.z
    }

    /// Whether a [`Vec3`] can hold the vector.
    pub open spec fn fits(self) -> bool {
        &&& i64::MIN <= self.x <= i64::MAX
        &&& i64::MIN <= self.y <= i64::MAX
        &&& i64::MIN <= self.z <= i64::MAX
    }

    /// Whether the vector's length lies between `UNIT - 2` and `UNIT`: the
    /// lengths that a vector of length one can have once its components are cut
    /// off to whole millionths.
    pub open spec fn is_unit(self) -> bool {
        (UNIT - 2) * (UNIT - 2) <= self.norm_squared() <= UNIT * UNIT
    }
}

/// A vector with machine integers as components.
#[derive(Clone, Copy, Debug, PartialEq, Eq, Structural)]
pub struct Vec3 {
    pub x: i64,
    pub y: i64,
    pub z: i64,
}

impl View for Vec3 {
    type V = Vector;

    open spec fn view(&self) -> Vector {
        Vector::of(self.x as int, self.y as int, self.z as int)
    }
}

impl Vec3 {
    /// The vector with the given components.
    pub fn new(x: i64, y: i64, z: i64) -> (v: Vec3)
        ensures
            v@ == Vector::of(x as int, y as int, z as int),
    {
        Vec3 { x, y, z }
    }

    /// The vector of length zero.
    pub fn zero() -> (v: Vec3)
        ensures
            v@ == Vector::zero(),
    {
        Vec3 { x: 0, y: 0, z: 0 }
    }
}

/// The length of a [`Direction`]: its components count millionths.
pub const UNIT: i64 = 1_000_000;

/// A direction in space: a vector of length one, in millionths.
///
/// The length of the vector held is at most [`UNIT`] and at least `UNIT - 2`.
#[derive(Clone, Copy, Debug, PartialEq, Eq)]
pub struct Direction {
    x: i64,
    y: i64,
    z: i64,
}

impl View for Direction {
    type V = Vector;

    closed spec fn view(&self) -> Vector {
        Vector::of(self.x as int, self.y as int, self.z as int)
    }
}

impl Direction {
    #[verifier::type_invariant]
    spec fn unit_length(self) -> bool {
        self@.is_unit()
    }

    /// The direction with the given components, where they make a vector of
    /// unit length, and `None` where they do not.
    pub fn new(x: i64, y: i64, z: i64) -> (made: Option<Direction>)
        ensures
            made is Some <==> Vector::of(x as int, y as int, z as int).is_unit(),
            made matches Some(d) ==> d@ == Vector::of(x as int, y as int, z as int),
    {
        if x < -UNIT || x > UNIT || y < -UNIT || y > UNIT || z < -UNIT || z > UNIT {
            proof {
                lemma_long_component(x as int, y as int, z as int);
            }
            return None;
        }
        proof {
            lemma_square_bounded(x as int);
            lemma_square_bounded(y as int);
            lemma_square_bounded(z as int);
        }
        let n: i64 = x * x + y * y + z * z;
        if (UNIT - 2) * (UNIT - 2) <= n && n <= UNIT * UNIT {
            Some(Direction { x, y, z })
        } else {
            None
        }
    }

    /// The component along the first axis.
    pub fn x(&self) -> (c: i64)
        ensures
            c == self@.x,
            -UNIT <= c <= UNIT,
            self@.is_unit(),
    {
        proof {
            use_type_invariant(self);
            lemma_unit_components(self@);
        }
        self.x
    }

    /// The component along the second axis.
    pub fn y(&self) -> (c: i64)
        ensures
            c == self@.y,
            -UNIT <= c <= UNIT,
            self@.is_unit(),
    {
        proof {
            use_type_invariant(self);
            lemma_unit_components(self@);
        }
        self.y
    }

    /// The component along the third axis.
    pub fn z(&self) -> (c: i64)
        ensures
            c == self@.z,
            -UNIT <= c <= UNIT,
            self@.is_unit(),
    {
        proof {
            use_type_invariant(self);
            lemma_unit_components(self@);
        }
        self.z
    }
}

/// A square within the bounds of a direction's component is at most `UNIT * UNIT`.
proof fn lemma_square_bounded(c: int)
    by (nonlinear_arith)
    requires
        -UNIT <= c <= UNIT,
    ensures
        0 <= c * c <= UNIT * UNIT,
{
}

/// A vector with a component longer than `UNIT` is longer than `UNIT`.
proof fn lemma_long_component(x: int, y: int, z: int)
    by (nonlinear_arith)
    requires
        x < -UNIT || x > UNIT || y < -UNIT || y > UNIT || z < -UNIT || z > UNIT,
    ensures
        x * x + y * y + z * z > UNIT * UNIT,
{
}

/// No component of a vector of unit length is longer than `UNIT`.
pub proof fn lemma_unit_components(v: Vector)
    requires
        v.is_unit(),
    ensures
        -UNIT <= v.x <= UNIT,
        -UNIT <= v.y <= UNIT,
        -UNIT <= v.z <= UNIT,
{
    if v.x < -UNIT || v.x > UNIT || v.y < -UNIT || v.y > UNIT || v.z < -UNIT || v.z > UNIT {
        lemma_long_component(v.x, v.y, v.z);
    }
}

} // verus!
