//! A composable scalar noise field, a marching-squares cell classifier and a
//! navigable viewport, over fixed-point scalars in which `ONE` stands for 1.0.
use vstd::prelude::*;

pub mod cell;
pub mod field;
pub mod render;
pub mod view;

verus! {

/// The fixed-point unit: a scalar or a world coordinate `v` stands for `v / ONE`.
pub const ONE: i64 = 1_000_000;

} // verus!
