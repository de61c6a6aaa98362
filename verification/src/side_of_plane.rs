use vstd::prelude::*;
use crate::point::{Point3, coords3_bounded, MAX_ORIENT_COORD};

verus! {

/// Classification of a point against the oriented plane through three
/// others.
#[derive(Clone, PartialEq, Eq, Structural, Debug)]
pub enum SideOfPlane {
    Left,
    Right,
    OnPlane,
}

/// The opposite strict classification; `OnPlane` is its own opposite.
pub open spec fn flipped(s: SideOfPlane) -> SideOfPlane {
    match s {
        SideOfPlane::Left => SideOfPlane::Right,
        SideOfPlane::Right => SideOfPlane::Left,
        SideOfPlane::OnPlane => SideOfPlane::OnPlane,
    }
}

/// The determinant of the 3x3 matrix with rows `u`, `v`, `w`.
pub open spec fn det3(
    u1: int,
    u2: int,
    u3: int,
    v1: int,
    v2: int,
    v3: int,
    w1: int,
    w2: int,
    w3: int,
) -> int {
    u1 * (v2 * w3 - v3 * w2) - u2 * (v1 * w3 - v3 * w1) + u3 * (v1 * w2 - v2 * w1)
}

/// The orientation determinant of `p` against the plane through `a`, `b`,
/// `c`: the determinant of the difference vectors `b - a`, `c - a`,
/// `p - a`.  Positive means `Left`, negative means `Right`, zero means the
/// four points are coplanar.
pub open spec fn orient3(a: Point3, b: Point3, c: Point3, p: Point3) -> int {
    det3(
        b.x - a.x,
        b.y - a.y,
        b.z - a.z,
        c.x - a.x,
        c.y - a.y,
        c.z - a.z,
        p.x - a.x,
        p.y - a.y,
        p.z - a.z,
    )
}

/// The classification that `side_of_plane` must return: the sign of
/// `orient3`.
pub open spec fn plane_side(a: Point3, b: Point3, c: Point3, p: Point3) -> SideOfPlane {
    let d = orient3(a, b, c, p);
    if d > 0 {
        SideOfPlane::Left
    } else if d < 0 {
        SideOfPlane::Right
    } else {
        SideOfPlane::OnPlane
    }
}

/// `|x * y| <= bx * by` whenever `|x| <= bx` and `|y| <= by`.
pub proof fn lemma_mul_bound3(x: int, y: int, bx: int, by: int)
    by (nonlinear_arith)
    requires
        -bx <= x <= bx,
        -by <= y <= by,
        0 <= bx,
        0 <= by,
    ensures
        -(bx * by) <= x * y <= bx * by,
{
}

/// Classifies `p` relative to the oriented plane through `a`, `b`, `c` by
/// the exact sign of the orientation determinant.  Total for all points
/// within the coordinate range; coplanar inputs report `OnPlane`.
pub fn side_of_plane(a: &Point3, b: &Point3, c: &Point3, p: &Point3) -> (r: SideOfPlane)
    requires
        coords3_bounded(*a, MAX_ORIENT_COORD as int),
        coords3_bounded(*b, MAX_ORIENT_COORD as int),
        coords3_bounded(*c, MAX_ORIENT_COORD as int),
        coords3_bounded(*p, MAX_ORIENT_COORD as int),
    ensures
        r == plane_side(*a, *b, *c, *p),
{
    let u1: i128 = b.x as i128 - a.x as i128;
    let u2: i128 = b.y as i128 - a.y as i128;
    let u3: i128 = b.z as i128 - a.z as i128;
    let v1: i128 = c.x as i128 - a.x as i128;
    let v2: i128 = c.y as i128 - a.y as i128;
    let v3: i128 = c.z as i128 - a.z as i128;
    let w1: i128 = p.x as i128 - a.x as i128;
    let w2: i128 = p.y as i128 - a.y as i128;
    let w3: i128 = p.z as i128 - a.z as i128;
    proof {
        lemma_mul_bound3(v2 as int, w3 as int, 2147483648, 2147483648);
        lemma_mul_bound3(v3 as int, w2 as int, 2147483648, 2147483648);
        lemma_mul_bound3(v1 as int, w3 as int, 2147483648, 2147483648);
        lemma_mul_bound3(v3 as int, w1 as int, 2147483648, 2147483648);
        lemma_mul_bound3(v1 as int, w2 as int, 2147483648, 2147483648);
        lemma_mul_bound3(v2 as int, w1 as int, 2147483648, 2147483648);
    }
    let m1: i128 = v2 * w3 - v3 * w2;
    let m2: i128 = v1 * w3 - v3 * w1;
    let m3: i128 = v1 * w2 - v2 * w1;
    proof {
        lemma_mul_bound3(u1 as int, m1 as int, 2147483648, 9223372036854775808);
        lemma_mul_bound3(u2 as int, m2 as int, 2147483648, 9223372036854775808);
        lemma_mul_bound3(u3 as int, m3 as int, 2147483648, 9223372036854775808);
    }
    let det: i128 = u1 * m1 - u2 * m2 + u3 * m3;
    if det > 0 {
        SideOfPlane::Left
    } else if det < 0 {
        SideOfPlane::Right
    } else {
        SideOfPlane::OnPlane
    }
}

/// Exchanging rows one and two negates the determinant.
proof fn lemma_det3_swap_rows12(
    u1: int,
    u2: int,
    u3: int,
    v1: int,
    v2: int,
    v3: int,
    w1: int,
    w2: int,
    w3: int,
)
    ensures
        det3(v1, v2, v3, u1, u2, u3, w1, w2, w3) == -det3(u1, u2, u3, v1, v2, v3, w1, w2, w3),
{
    assert(v1 * (u2 * w3 - u3 * w2) == u2 * (v1 * w3) - u3 * (v1 * w2)) by (nonlinear_arith);
    assert(v2 * (u1 * w3 - u3 * w1) == u1 * (v2 * w3) - u3 * (v2 * w1)) by (nonlinear_arith);
    assert(v3 * (u1 * w2 - u2 * w1) == u1 * (v3 * w2) - u2 * (v3 * w1)) by (nonlinear_arith);
    assert(u1 * (v2 * w3 - v3 * w2) == u1 * (v2 * w3) - u1 * (v3 * w2)) by (nonlinear_arith);
    assert(u2 * (v1 * w3 - v3 * w1) == u2 * (v1 * w3) - u2 * (v3 * w1)) by (nonlinear_arith);
    assert(u3 * (v1 * w2 - v2 * w1) == u3 * (v1 * w2) - u3 * (v2 * w1)) by (nonlinear_arith);
}

/// Exchanging rows two and three negates the determinant.
proof fn lemma_det3_swap_rows23(
    u1: int,
    u2: int,
    u3: int,
    v1: int,
    v2: int,
    v3: int,
    w1: int,
    w2: int,
    w3: int,
)
    ensures
        det3(u1, u2, u3, w1, w2, w3, v1, v2, v3) == -det3(u1, u2, u3, v1, v2, v3, w1, w2, w3),
{
    assert(u1 * (w2 * v3 - w3 * v2) == u1 * (v3 * w2) - u1 * (v2 * w3)) by (nonlinear_arith);
    assert(u2 * (w1 * v3 - w3 * v1) == u2 * (v3 * w1) - u2 * (v1 * w3)) by (nonlinear_arith);
    assert(u3 * (w1 * v2 - w2 * v1) == u3 * (v2 * w1) - u3 * (v1 * w2)) by (nonlinear_arith);
    assert(u1 * (v2 * w3 - v3 * w2) == u1 * (v2 * w3) - u1 * (v3 * w2)) by (nonlinear_arith);
    assert(u2 * (v1 * w3 - v3 * w1) == u2 * (v1 * w3) - u2 * (v3 * w1)) by (nonlinear_arith);
    assert(u3 * (v1 * w2 - v2 * w1) == u3 * (v1 * w2) - u3 * (v2 * w1)) by (nonlinear_arith);
}

/// Adding the first row onto the second leaves the determinant unchanged.
proof fn lemma_det3_row2_add(
    a1: int,
    a2: int,
    a3: int,
    b1: int,
    b2: int,
    b3: int,
    c1: int,
    c2: int,
    c3: int,
)
    ensures
        det3(a1, a2, a3, b1 + a1, b2 + a2, b3 + a3, c1, c2, c3) == det3(
            a1,
            a2,
            a3,
            b1,
            b2,
            b3,
            c1,
            c2,
            c3,
        ),
{
    assert(a1 * ((b2 + a2) * c3 - (b3 + a3) * c2) == a1 * (b2 * c3 - b3 * c2) + a1 * (a2 * c3) - a1
        * (a3 * c2)) by (nonlinear_arith);
    assert(a2 * ((b1 + a1) * c3 - (b3 + a3) * c1) == a2 * (b1 * c3 - b3 * c1) + a2 * (a1 * c3) - a2
        * (a3 * c1)) by (nonlinear_arith);
    assert(a3 * ((b1 + a1) * c2 - (b2 + a2) * c1) == a3 * (b1 * c2 - b2 * c1) + a3 * (a1 * c2) - a3
        * (a2 * c1)) by (nonlinear_arith);
    assert(a1 * (a2 * c3) == a2 * (a1 * c3)) by (nonlinear_arith);
    assert(a1 * (a3 * c2) == a3 * (a1 * c2)) by (nonlinear_arith);
    assert(a2 * (a3 * c1) == a3 * (a2 * c1)) by (nonlinear_arith);
}

/// Adding the first row onto the third leaves the determinant unchanged.
proof fn lemma_det3_row3_add(
    a1: int,
    a2: int,
    a3: int,
    b1: int,
    b2: int,
    b3: int,
    c1: int,
    c2: int,
    c3: int,
)
    ensures
        det3(a1, a2, a3, b1, b2, b3, c1 + a1, c2 + a2, c3 + a3) == det3(
            a1,
            a2,
            a3,
            b1,
            b2,
            b3,
            c1,
            c2,
            c3,
        ),
{
    assert(a1 * (b2 * (c3 + a3) - b3 * (c2 + a2)) == a1 * (b2 * c3 - b3 * c2) + a1 * (b2 * a3) - a1
        * (b3 * a2)) by (nonlinear_arith);
    assert(a2 * (b1 * (c3 + a3) - b3 * (c1 + a1)) == a2 * (b1 * c3 - b3 * c1) + a2 * (b1 * a3) - a2
        * (b3 * a1)) by (nonlinear_arith);
    assert(a3 * (b1 * (c2 + a2) - b2 * (c1 + a1)) == a3 * (b1 * c2 - b2 * c1) + a3 * (b1 * a2) - a3
        * (b2 * a1)) by (nonlinear_arith);
    assert(a1 * (b2 * a3) == a3 * (b2 * a1)) by (nonlinear_arith);
    assert(a1 * (b3 * a2) == a2 * (b3 * a1)) by (nonlinear_arith);
    assert(a2 * (b1 * a3) == a3 * (b1 * a2)) by (nonlinear_arith);
}

/// Negating the first row negates the determinant.
proof fn lemma_det3_neg_row1(
    a1: int,
    a2: int,
    a3: int,
    b1: int,
    b2: int,
    b3: int,
    c1: int,
    c2: int,
    c3: int,
)
    ensures
        det3(-a1, -a2, -a3, b1, b2, b3, c1, c2, c3) == -det3(a1, a2, a3, b1, b2, b3, c1, c2, c3),
{
    assert((-a1) * (b2 * c3 - b3 * c2) == -(a1 * (b2 * c3 - b3 * c2))) by (nonlinear_arith);
    assert((-a2) * (b1 * c3 - b3 * c1) == -(a2 * (b1 * c3 - b3 * c1))) by (nonlinear_arith);
    assert((-a3) * (b1 * c2 - b2 * c1) == -(a3 * (b1 * c2 - b2 * c1))) by (nonlinear_arith);
}

/// The difference-vector determinant after exchanging the first two of the
/// four points: the rows become `-u`, `v - u`, `w - u`, and the
/// determinant is negated.
proof fn lemma_det3_swap_base(
    u1: int,
    u2: int,
    u3: int,
    v1: int,
    v2: int,
    v3: int,
    w1: int,
    w2: int,
    w3: int,
)
    ensures
        det3(-u1, -u2, -u3, v1 - u1, v2 - u2, v3 - u3, w1 - u1, w2 - u2, w3 - u3) == -det3(
            u1,
            u2,
            u3,
            v1,
            v2,
            v3,
            w1,
            w2,
            w3,
        ),
{
    lemma_det3_row2_add(-u1, -u2, -u3, v1, v2, v3, w1 - u1, w2 - u2, w3 - u3);
    lemma_det3_row3_add(-u1, -u2, -u3, v1, v2, v3, w1, w2, w3);
    lemma_det3_neg_row1(u1, u2, u3, v1, v2, v3, w1, w2, w3);
}

/// Exchanging the first two plane points negates the orientation
/// determinant.
pub proof fn lemma_orient3_swap_ab(a: Point3, b: Point3, c: Point3, p: Point3)
    ensures
        orient3(b, a, c, p) == -orient3(a, b, c, p),
{
    lemma_det3_swap_base(
        b.x - a.x,
        b.y - a.y,
        b.z - a.z,
        c.x - a.x,
        c.y - a.y,
        c.z - a.z,
        p.x - a.x,
        p.y - a.y,
        p.z - a.z,
    );
}

/// Exchanging the last two plane points negates the orientation
/// determinant.
pub proof fn lemma_orient3_swap_bc(a: Point3, b: Point3, c: Point3, p: Point3)
    ensures
        orient3(a, c, b, p) == -orient3(a, b, c, p),
{
    lemma_det3_swap_rows12(
        b.x - a.x,
        b.y - a.y,
        b.z - a.z,
        c.x - a.x,
        c.y - a.y,
        c.z - a.z,
        p.x - a.x,
        p.y - a.y,
        p.z - a.z,
    );
}

/// Exchanging the third plane point with the queried point negates the
/// orientation determinant.
pub proof fn lemma_orient3_swap_cp(a: Point3, b: Point3, c: Point3, p: Point3)
    ensures
        orient3(a, b, p, c) == -orient3(a, b, c, p),
{
    lemma_det3_swap_rows23(
        b.x - a.x,
        b.y - a.y,
        b.z - a.z,
        c.x - a.x,
        c.y - a.y,
        c.z - a.z,
        p.x - a.x,
        p.y - a.y,
        p.z - a.z,
    );
}

/// Exchanging the outer plane points (`a` with `c`) negates the
/// orientation determinant.
pub proof fn lemma_orient3_swap_ac(a: Point3, b: Point3, c: Point3, p: Point3)
    ensures
        orient3(c, b, a, p) == -orient3(a, b, c, p),
{
    lemma_orient3_swap_bc(a, b, c, p);
    lemma_orient3_swap_ab(a, c, b, p);
    lemma_orient3_swap_bc(c, a, b, p);
}

/// A cyclic rotation of the three plane points keeps the orientation
/// determinant: rotations are even permutations.
pub proof fn lemma_orient3_rotate(a: Point3, b: Point3, c: Point3, p: Point3)
    ensures
        orient3(b, c, a, p) == orient3(a, b, c, p),
        orient3(c, a, b, p) == orient3(a, b, c, p),
{
    lemma_orient3_swap_ab(a, b, c, p);
    lemma_orient3_swap_bc(b, a, c, p);
    lemma_orient3_swap_ab(a, c, b, p);
    lemma_orient3_swap_bc(a, b, c, p);
}

/// Permutation symmetry of the plane predicate: each transposition of the
/// three plane points flips `Left` and `Right` and keeps `OnPlane`, and
/// each rotation keeps the classification unchanged.  Together with
/// composition this covers every permutation of `(a, b, c)`.
pub proof fn lemma_plane_side_permutations(a: Point3, b: Point3, c: Point3, p: Point3)
    ensures
        plane_side(b, a, c, p) == flipped(plane_side(a, b, c, p)),
        plane_side(a, c, b, p) == flipped(plane_side(a, b, c, p)),
        plane_side(c, b, a, p) == flipped(plane_side(a, b, c, p)),
        plane_side(b, c, a, p) == plane_side(a, b, c, p),
        plane_side(c, a, b, p) == plane_side(a, b, c, p),
{
    lemma_orient3_swap_ab(a, b, c, p);
    lemma_orient3_swap_bc(a, b, c, p);
    lemma_orient3_swap_ac(a, b, c, p);
    lemma_orient3_rotate(a, b, c, p);
}

/// The relabelings of a tetrahedron `(a, b, c, p)` into `(b, a, p, c)`,
/// `(p, c, b, a)` and `(p, b, a, c)` are even permutations of the four
/// points, so the plane classification of the last point against the first
/// three is unchanged.
pub proof fn lemma_plane_side_even_relabelings(a: Point3, b: Point3, c: Point3, p: Point3)
    ensures
        plane_side(b, a, p, c) == plane_side(a, b, c, p),
        plane_side(p, c, b, a) == plane_side(a, b, c, p),
        plane_side(p, b, a, c) == plane_side(a, b, c, p),
{
    // (a, b, c, p) -> (b, a, c, p) -> (b, a, p, c): two transpositions.
    lemma_orient3_swap_ab(a, b, c, p);
    lemma_orient3_swap_cp(b, a, c, p);
    // (a, b, c, p) -> (a, b, p, c) -> (a, p, b, c) -> (p, a, b, c)
    // -> (p, a, c, b) -> (p, c, a, b) -> (p, c, b, a): six transpositions.
    lemma_orient3_swap_cp(a, b, c, p);
    lemma_orient3_swap_bc(a, b, p, c);
    lemma_orient3_swap_ab(a, p, b, c);
    lemma_orient3_swap_cp(p, a, b, c);
    lemma_orient3_swap_bc(p, a, c, b);
    lemma_orient3_swap_cp(p, c, a, b);
    // (p, c, b, a) -> (p, b, c, a) -> (p, b, a, c): two more
    // transpositions starting from the second relabeling.
    lemma_orient3_swap_bc(p, c, b, a);
    lemma_orient3_swap_cp(p, b, c, a);
}

} // verus!
