//! The verified core of a small virtual-pet game: the byte layout of the
//! sound effects it plays, and the discrete rules of the pet's life.
use vstd::prelude::*;

pub mod look;
pub mod pet;
pub mod wav;

verus! {

} // verus!
