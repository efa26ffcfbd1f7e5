//! Integer core of an optimal transport toolkit: the seeded direction
//! generator behind sliced Wasserstein distances, the shape checks that every
//! solver runs before it touches a number, the option names of the public
//! entry points, and the row-major layout of cost matrices.

pub mod rng;
pub mod shape;
pub mod layout;
pub mod options;
pub mod schedule;
