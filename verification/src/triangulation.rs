use vstd::prelude::*;
use crate::indexes::N2Index;
use crate::point::{Point2, coords2_bounded, MAX_ORIENT_COORD};
use crate::side_of_line::{SideOfLine, side_of_line, line_side};

verus! {

/// A triangle of the 2-D mesh: three node indices, stored in clockwise
/// order.
#[derive(Clone, Copy, Debug)]
pub struct Triangle {
    pub a: N2Index,
    pub b: N2Index,
    pub c: N2Index,
}

impl Triangle {
    /// Builds a triangle over three node indices.  The last two are
    /// exchanged when the third point lies to the left of the directed
    /// line through the first two, so the stored order is always
    /// clockwise for such input.
    pub fn new(points: &Vec<Point2>, a: N2Index, b: N2Index, c: N2Index) -> (r: Triangle)
        requires
            a.0 < points.len() && b.0 < points.len() && c.0 < points.len(),
            coords2_bounded(points[a.0 as int], MAX_ORIENT_COORD as int),
            coords2_bounded(points[b.0 as int], MAX_ORIENT_COORD as int),
            coords2_bounded(points[c.0 as int], MAX_ORIENT_COORD as int),
        ensures
            if line_side(points[a.0 as int], points[b.0 as int], points[c.0 as int])
                == SideOfLine::Left {
                r == (Triangle { a, b: c, c: b })
            } else {
                r == (Triangle { a, b, c })
            },
    {
        let pa = points[a.0];
        let pb = points[b.0];
        let pc = points[c.0];
        if side_of_line(&pa, &pb, &pc) == SideOfLine::Left {
            Triangle { a, b: c, c: b }
        } else {
            Triangle { a, b, c }
        }
    }

    /// The first stored node index.
    pub fn index_a(&self) -> (r: N2Index)
        ensures
            r == self.a,
    {
        self.a
    }

    /// The second stored node index.
    pub fn index_b(&self) -> (r: N2Index)
        ensures
            r == self.b,
    {
        self.b
    }

    /// The third stored node index.
    pub fn index_c(&self) -> (r: N2Index)
        ensures
            r == self.c,
    {
        self.c
    }
}

/// A finished 2-D mesh: an ordered node sequence and an ordered element
/// sequence, ready for export.
pub struct Triangulation {
    pub nodes: Vec<Point2>,
    pub elements: Vec<Triangle>,
}

impl Triangulation {
    /// Every element refers only to nodes of the mesh, and every node
    /// lies in the coordinate range of the exact predicates.
    pub open spec fn wf(self) -> bool {
        &&& forall|i: int|
            0 <= i < self.elements@.len() ==> (#[trigger] self.elements@[i]).a.0
                < self.nodes@.len() && self.elements@[i].b.0 < self.nodes@.len()
                && self.elements@[i].c.0 < self.nodes@.len()
        &&& forall|i: int|
            0 <= i < self.nodes@.len() ==> coords2_bounded(
                #[trigger] self.nodes@[i],
                MAX_ORIENT_COORD as int,
            )
    }

    /// Wraps an already-built node and element sequence as a mesh.
    pub fn new_from_prebuilt_triangulation(nodes: Vec<Point2>, elements: Vec<Triangle>) -> (r:
        Triangulation)
        ensures
            r.nodes@ == nodes@,
            r.elements@ == elements@,
    {
        Triangulation { nodes, elements }
    }

    /// The ordered node sequence.
    pub fn nodes(&self) -> (r: &Vec<Point2>)
        ensures
            r@ == self.nodes@,
    {
        &self.nodes
    }

    /// The ordered element sequence.
    pub fn elements(&self) -> (r: &Vec<Triangle>)
        ensures
            r@ == self.elements@,
    {
        &self.elements
    }
}

} // verus!
