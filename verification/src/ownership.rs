//! Small owner/child structures: one pair that moves, one pair that copies.

use vstd::prelude::*;

verus! {

/// An owner of a tag and two children; values of this type move.
#[derive(Debug)]
pub struct Parent(pub usize, pub Child, pub Child);

/// A child owned by a [`Parent`]; values of this type move.
#[derive(Debug)]
pub struct Child(pub usize);

/// An owner whose values copy bitwise instead of moving.
#[derive(Copy, Clone, Debug)]
pub struct CloneableParent(pub usize, pub CloneableChild, pub CloneableChild);

/// A child whose values copy bitwise instead of moving.
#[derive(Copy, Clone, Debug)]
pub struct CloneableChild(pub usize);

} // verus!
