use vstd::prelude::*;

verus! {

/// Position of a point in a shared 2-D node sequence.
#[derive(Clone, Copy, PartialEq, Eq, Structural, Debug)]
pub struct N2Index(pub usize);

/// Position of a point in a shared 3-D node sequence.
#[derive(Clone, Copy, PartialEq, Eq, Structural, Debug)]
pub struct N3Index(pub usize);

/// Position of a tetrahedron in a shared element sequence.
#[derive(Clone, Copy, PartialEq, Eq, Structural, Debug)]
pub struct T4Index(pub usize);

} // verus!
