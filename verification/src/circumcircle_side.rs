use vstd::prelude::*;
use crate::point::{Point2, coords2_bounded};
use crate::side_of_line::orient2;
use crate::side_of_plane::{det3, lemma_mul_bound3};

verus! {

/// Largest coordinate magnitude accepted by the exact circumscribed-shape
/// predicates: the lifted determinants square coordinates, so their range
/// is narrower than the plain orientation tests'.
pub const MAX_CIRCUM_COORD: i64 = 1048576;

/// Classification of a point against the circle circumscribing three
/// others.
#[derive(Clone, PartialEq, Eq, Structural, Debug)]
pub enum CircumcircleSide {
    Inside,
    Outside,
    OnCircle,
}

/// The lifted in-circle determinant: rows are the difference vectors of
/// `a`, `b`, `c` against `p`, each extended by its squared length.
pub open spec fn incircle_det(a: Point2, b: Point2, c: Point2, p: Point2) -> int {
    let ax = a.x - p.x;
    let ay = a.y - p.y;
    let bx = b.x - p.x;
    let by = b.y - p.y;
    let cx = c.x - p.x;
    let cy = c.y - p.y;
    det3(
        ax,
        ay,
        ax * ax + ay * ay,
        bx,
        by,
        bx * bx + by * by,
        cx,
        cy,
        cx * cx + cy * cy,
    )
}

/// The classification that `circumcircle_side` must return.  The sign of
/// the lifted determinant decides containment once it is corrected by the
/// orientation of `(a, b, c)`; a zero product reports `OnCircle`, which
/// also covers a degenerate (collinear) defining triple.
pub open spec fn circle_side(a: Point2, b: Point2, c: Point2, p: Point2) -> CircumcircleSide {
    let s = incircle_det(a, b, c, p) * orient2(a, b, c);
    if s > 0 {
        CircumcircleSide::Inside
    } else if s < 0 {
        CircumcircleSide::Outside
    } else {
        CircumcircleSide::OnCircle
    }
}

/// The sign of a product is determined by the signs of its factors.
pub proof fn lemma_product_sign(x: int, y: int)
    by (nonlinear_arith)
    ensures
        x * y > 0 <==> ((x > 0 && y > 0) || (x < 0 && y < 0)),
        x * y < 0 <==> ((x > 0 && y < 0) || (x < 0 && y > 0)),
{
}

/// Decides whether `p` lies inside, outside, or exactly on the circle
/// circumscribing `a`, `b`, `c`, by the exact sign of the lifted
/// determinant.  Total for all points within the coordinate range;
/// concyclic inputs, and degenerate defining triples, report `OnCircle`.
pub fn circumcircle_side(a: &Point2, b: &Point2, c: &Point2, p: &Point2) -> (r: CircumcircleSide)
    requires
        coords2_bounded(*a, MAX_CIRCUM_COORD as int),
        coords2_bounded(*b, MAX_CIRCUM_COORD as int),
        coords2_bounded(*c, MAX_CIRCUM_COORD as int),
        coords2_bounded(*p, MAX_CIRCUM_COORD as int),
    ensures
        r == circle_side(*a, *b, *c, *p),
{
    let ax: i128 = a.x as i128 - p.x as i128;
    let ay: i128 = a.y as i128 - p.y as i128;
    let bx: i128 = b.x as i128 - p.x as i128;
    let by: i128 = b.y as i128 - p.y as i128;
    let cx: i128 = c.x as i128 - p.x as i128;
    let cy: i128 = c.y as i128 - p.y as i128;
    proof {
        lemma_mul_bound3(ax as int, ax as int, 2097152, 2097152);
        lemma_mul_bound3(ay as int, ay as int, 2097152, 2097152);
        lemma_mul_bound3(bx as int, bx as int, 2097152, 2097152);
        lemma_mul_bound3(by as int, by as int, 2097152, 2097152);
        lemma_mul_bound3(cx as int, cx as int, 2097152, 2097152);
        lemma_mul_bound3(cy as int, cy as int, 2097152, 2097152);
    }
    let la: i128 = ax * ax + ay * ay;
    let lb: i128 = bx * bx + by * by;
    let lc: i128 = cx * cx + cy * cy;
    proof {
        lemma_mul_bound3(by as int, lc as int, 2097152, 8796093022208);
        lemma_mul_bound3(lb as int, cy as int, 8796093022208, 2097152);
        lemma_mul_bound3(bx as int, lc as int, 2097152, 8796093022208);
        lemma_mul_bound3(lb as int, cx as int, 8796093022208, 2097152);
        lemma_mul_bound3(bx as int, cy as int, 2097152, 2097152);
        lemma_mul_bound3(by as int, cx as int, 2097152, 2097152);
    }
    let m1: i128 = by * lc - lb * cy;
    let m2: i128 = bx * lc - lb * cx;
    let m3: i128 = bx * cy - by * cx;
    proof {
        lemma_mul_bound3(ax as int, m1 as int, 2097152, 36893488147419103232);
        lemma_mul_bound3(ay as int, m2 as int, 2097152, 36893488147419103232);
        lemma_mul_bound3(la as int, m3 as int, 8796093022208, 8796093022208);
    }
    let det: i128 = ax * m1 - ay * m2 + la * m3;
    let u1: i128 = b.x as i128 - a.x as i128;
    let u2: i128 = b.y as i128 - a.y as i128;
    let v1: i128 = c.x as i128 - a.x as i128;
    let v2: i128 = c.y as i128 - a.y as i128;
    proof {
        lemma_mul_bound3(u1 as int, v2 as int, 4194304, 4194304);
        lemma_mul_bound3(u2 as int, v1 as int, 4194304, 4194304);
    }
    let ori: i128 = u1 * v2 - u2 * v1;
    proof {
        assert(det == incircle_det(*a, *b, *c, *p));
        assert(ori == orient2(*a, *b, *c));
        lemma_product_sign(det as int, ori as int);
    }
    if (det > 0 && ori > 0) || (det < 0 && ori < 0) {
        CircumcircleSide::Inside
    } else if (det > 0 && ori < 0) || (det < 0 && ori > 0) {
        CircumcircleSide::Outside
    } else {
        CircumcircleSide::OnCircle
    }
}

} // verus!
