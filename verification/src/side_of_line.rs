use vstd::prelude::*;
use crate::point::{Point2, coords2_bounded, MAX_ORIENT_COORD};

verus! {

/// Classification of a point against the directed line through two others.
#[derive(Clone, PartialEq, Eq, Structural, Debug)]
pub enum SideOfLine {
    Left,
    Right,
    OnLine,
}

/// The 2x2 determinant of the difference vectors `b - a` and `c - a`:
/// positive when `c` lies to the left of the directed line `a -> b`,
/// negative when it lies to the right, zero when the points are collinear.
pub open spec fn orient2(a: Point2, b: Point2, c: Point2) -> int {
    (b.x - a.x) * (c.y - a.y) - (b.y - a.y) * (c.x - a.x)
}

/// The classification that `side_of_line` must return: the sign of `orient2`.
pub open spec fn line_side(a: Point2, b: Point2, c: Point2) -> SideOfLine {
    let d = orient2(a, b, c);
    if d > 0 {
        SideOfLine::Left
    } else if d < 0 {
        SideOfLine::Right
    } else {
        SideOfLine::OnLine
    }
}

/// `|x * y| <= bx * by` whenever `|x| <= bx` and `|y| <= by`.
proof fn lemma_mul_bound(x: int, y: int, bx: int, by: int)
    by (nonlinear_arith)
    requires
        -bx <= x <= bx,
        -by <= y <= by,
        0 <= bx,
        0 <= by,
    ensures
        -(bx * by) <= x * y <= bx * by,
{
}

/// Classifies `c` relative to the directed line through `a -> b` by the
/// exact sign of the orientation determinant.  Total for all points within
/// the coordinate range; collinear triples report `OnLine`.
pub fn side_of_line(a: &Point2, b: &Point2, c: &Point2) -> (r: SideOfLine)
    requires
        coords2_bounded(*a, MAX_ORIENT_COORD as int),
        coords2_bounded(*b, MAX_ORIENT_COORD as int),
        coords2_bounded(*c, MAX_ORIENT_COORD as int),
    ensures
        r == line_side(*a, *b, *c),
{
    let u1: i128 = b.x as i128 - a.x as i128;
    let u2: i128 = b.y as i128 - a.y as i128;
    let v1: i128 = c.x as i128 - a.x as i128;
    let v2: i128 = c.y as i128 - a.y as i128;
    proof {
        lemma_mul_bound(u1 as int, v2 as int, 2147483648, 2147483648);
        lemma_mul_bound(u2 as int, v1 as int, 2147483648, 2147483648);
    }
    let det: i128 = u1 * v2 - u2 * v1;
    if det > 0 {
        SideOfLine::Left
    } else if det < 0 {
        SideOfLine::Right
    } else {
        SideOfLine::OnLine
    }
}

/// Exchanging the two line points flips a strict classification and keeps
/// `OnLine`: `orient2` is antisymmetric in its first two arguments.
pub proof fn lemma_orient2_swap(a: Point2, b: Point2, c: Point2)
    ensures
        orient2(b, a, c) == -orient2(a, b, c),
{
    assert((a.x - b.x) * (c.y - b.y) - (a.y - b.y) * (c.x - b.x) == -((b.x - a.x) * (c.y - a.y)
        - (b.y - a.y) * (c.x - a.x))) by (nonlinear_arith);
}

} // verus!
