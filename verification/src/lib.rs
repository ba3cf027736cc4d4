//! The motion of a rover over a plane: how the keys held turn and drive it,
//! and how its velocity carries it along.
//!
//! All of it is exact integer arithmetic. Each quantity is counted in a unit
//! of its own, and a product of two quantities in the product of their units,
//! so that nothing is ever rounded:
//!
//! | quantity | unit |
//! |---|---|
//! | time | a microsecond |
//! | speed of driving | a length unit per second |
//! | speed of turning | a thousandth of a radian per second |
//! | angle | a thousandth of a millionth of a radian |
//! | direction | a millionth |
//! | velocity | a millionth of a length unit per second |
//! | position | a millionth of a millionth of a length unit |
//!
//! Which way a turned rover faces is a matter of sine and cosine, and so of
//! the host: the library takes the facing as a [`vector::Direction`].

pub mod keyboard;
pub mod movement;
pub mod rover;
pub mod vector;
