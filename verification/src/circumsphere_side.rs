use vstd::prelude::*;
use crate::circumcircle_side::{MAX_CIRCUM_COORD, lemma_product_sign};
use crate::point::{Point3, coords3_bounded};
use crate::side_of_plane::{det3, lemma_mul_bound3, orient3};

verus! {

/// Classification of a point against the sphere circumscribing four
/// others.
#[derive(Clone, PartialEq, Eq, Structural, Debug)]
pub enum CircumsphereSide {
    Inside,
    Outside,
    OnSphere,
}

/// The lifted in-sphere determinant: the 4x4 determinant whose rows are
/// the difference vectors of `a`, `b`, `c`, `d` against `p`, each extended
/// by its squared length, expanded here along the lifted column.
pub open spec fn insphere_det(a: Point3, b: Point3, c: Point3, d: Point3, p: Point3) -> int {
    let ax = a.x - p.x;
    let ay = a.y - p.y;
    let az = a.z - p.z;
    let bx = b.x - p.x;
    let by = b.y - p.y;
    let bz = b.z - p.z;
    let cx = c.x - p.x;
    let cy = c.y - p.y;
    let cz = c.z - p.z;
    let dx = d.x - p.x;
    let dy = d.y - p.y;
    let dz = d.z - p.z;
    let la = ax * ax + ay * ay + az * az;
    let lb = bx * bx + by * by + bz * bz;
    let lc = cx * cx + cy * cy + cz * cz;
    let ld = dx * dx + dy * dy + dz * dz;
    lb * det3(ax, ay, az, cx, cy, cz, dx, dy, dz) + ld * det3(
        ax,
        ay,
        az,
        bx,
        by,
        bz,
        cx,
        cy,
        cz,
    ) - la * det3(bx, by, bz, cx, cy, cz, dx, dy, dz) - lc * det3(
        ax,
        ay,
        az,
        bx,
        by,
        bz,
        dx,
        dy,
        dz,
    )
}

/// The classification that `circumsphere_side` must return.  The sign of
/// the lifted determinant decides containment once it is corrected by the
/// orientation of `(a, b, c, d)`; a zero product reports `OnSphere`, which
/// also covers a degenerate (coplanar) defining quadruple.
pub open spec fn sphere_side(
    a: Point3,
    b: Point3,
    c: Point3,
    d: Point3,
    p: Point3,
) -> CircumsphereSide {
    let s = insphere_det(a, b, c, d, p) * orient3(a, b, c, d);
    if s < 0 {
        CircumsphereSide::Inside
    } else if s > 0 {
        CircumsphereSide::Outside
    } else {
        CircumsphereSide::OnSphere
    }
}

/// The exact 3x3 determinant of three bounded difference rows, with the
/// bound on its magnitude needed by the in-sphere expansion.
fn det3_exec(
    u1: i128,
    u2: i128,
    u3: i128,
    v1: i128,
    v2: i128,
    v3: i128,
    w1: i128,
    w2: i128,
    w3: i128,
) -> (r: i128)
    requires
        -2097152 <= u1 <= 2097152,
        -2097152 <= u2 <= 2097152,
        -2097152 <= u3 <= 2097152,
        -2097152 <= v1 <= 2097152,
        -2097152 <= v2 <= 2097152,
        -2097152 <= v3 <= 2097152,
        -2097152 <= w1 <= 2097152,
        -2097152 <= w2 <= 2097152,
        -2097152 <= w3 <= 2097152,
    ensures
        r == det3(u1 as int, u2 as int, u3 as int, v1 as int, v2 as int, v3 as int, w1 as int,
            w2 as int, w3 as int),
        -100000000000000000000 <= r <= 100000000000000000000,
{
    proof {
        lemma_mul_bound3(v2 as int, w3 as int, 2097152, 2097152);
        lemma_mul_bound3(v3 as int, w2 as int, 2097152, 2097152);
        lemma_mul_bound3(v1 as int, w3 as int, 2097152, 2097152);
        lemma_mul_bound3(v3 as int, w1 as int, 2097152, 2097152);
        lemma_mul_bound3(v1 as int, w2 as int, 2097152, 2097152);
        lemma_mul_bound3(v2 as int, w1 as int, 2097152, 2097152);
    }
    let m1: i128 = v2 * w3 - v3 * w2;
    let m2: i128 = v1 * w3 - v3 * w1;
    let m3: i128 = v1 * w2 - v2 * w1;
    proof {
        lemma_mul_bound3(u1 as int, m1 as int, 2097152, 8796093022208);
        lemma_mul_bound3(u2 as int, m2 as int, 2097152, 8796093022208);
        lemma_mul_bound3(u3 as int, m3 as int, 2097152, 8796093022208);
    }
    u1 * m1 - u2 * m2 + u3 * m3
}

/// Decides whether `p` lies inside, outside, or exactly on the sphere
/// circumscribing `a`, `b`, `c`, `d`, by the exact sign of the lifted
/// determinant.  Total for all points within the coordinate range;
/// cospherical inputs, and degenerate defining quadruples, report
/// `OnSphere`.
pub fn circumsphere_side(a: &Point3, b: &Point3, c: &Point3, d: &Point3, p: &Point3) -> (r:
    CircumsphereSide)
    requires
        coords3_bounded(*a, MAX_CIRCUM_COORD as int),
        coords3_bounded(*b, MAX_CIRCUM_COORD as int),
        coords3_bounded(*c, MAX_CIRCUM_COORD as int),
        coords3_bounded(*d, MAX_CIRCUM_COORD as int),
        coords3_bounded(*p, MAX_CIRCUM_COORD as int),
    ensures
        r == sphere_side(*a, *b, *c, *d, *p),
{
    let ax: i128 = a.x as i128 - p.x as i128;
    let ay: i128 = a.y as i128 - p.y as i128;
    let az: i128 = a.z as i128 - p.z as i128;
    let bx: i128 = b.x as i128 - p.x as i128;
    let by: i128 = b.y as i128 - p.y as i128;
    let bz: i128 = b.z as i128 - p.z as i128;
    let cx: i128 = c.x as i128 - p.x as i128;
    let cy: i128 = c.y as i128 - p.y as i128;
    let cz: i128 = c.z as i128 - p.z as i128;
    let dx: i128 = d.x as i128 - p.x as i128;
    let dy: i128 = d.y as i128 - p.y as i128;
    let dz: i128 = d.z as i128 - p.z as i128;
    proof {
        lemma_mul_bound3(ax as int, ax as int, 2097152, 2097152);
        lemma_mul_bound3(ay as int, ay as int, 2097152, 2097152);
        lemma_mul_bound3(az as int, az as int, 2097152, 2097152);
        lemma_mul_bound3(bx as int, bx as int, 2097152, 2097152);
        lemma_mul_bound3(by as int, by as int, 2097152, 2097152);
        lemma_mul_bound3(bz as int, bz as int, 2097152, 2097152);
        lemma_mul_bound3(cx as int, cx as int, 2097152, 2097152);
        lemma_mul_bound3(cy as int, cy as int, 2097152, 2097152);
        lemma_mul_bound3(cz as int, cz as int, 2097152, 2097152);
        lemma_mul_bound3(dx as int, dx as int, 2097152, 2097152);
        lemma_mul_bound3(dy as int, dy as int, 2097152, 2097152);
        lemma_mul_bound3(dz as int, dz as int, 2097152, 2097152);
    }
    let la: i128 = ax * ax + ay * ay + az * az;
    let lb: i128 = bx * bx + by * by + bz * bz;
    let lc: i128 = cx * cx + cy * cy + cz * cz;
    let ld: i128 = dx * dx + dy * dy + dz * dz;
    let ma: i128 = det3_exec(bx, by, bz, cx, cy, cz, dx, dy, dz);
    let mb: i128 = det3_exec(ax, ay, az, cx, cy, cz, dx, dy, dz);
    let mc: i128 = det3_exec(ax, ay, az, bx, by, bz, dx, dy, dz);
    let md: i128 = det3_exec(ax, ay, az, bx, by, bz, cx, cy, cz);
    proof {
        lemma_mul_bound3(la as int, ma as int, 13194139533312, 100000000000000000000);
        lemma_mul_bound3(lb as int, mb as int, 13194139533312, 100000000000000000000);
        lemma_mul_bound3(lc as int, mc as int, 13194139533312, 100000000000000000000);
        lemma_mul_bound3(ld as int, md as int, 13194139533312, 100000000000000000000);
    }
    let det: i128 = lb * mb + ld * md - la * ma - lc * mc;
    let u1: i128 = b.x as i128 - a.x as i128;
    let u2: i128 = b.y as i128 - a.y as i128;
    let u3: i128 = b.z as i128 - a.z as i128;
    let v1: i128 = c.x as i128 - a.x as i128;
    let v2: i128 = c.y as i128 - a.y as i128;
    let v3: i128 = c.z as i128 - a.z as i128;
    let w1: i128 = d.x as i128 - a.x as i128;
    let w2: i128 = d.y as i128 - a.y as i128;
    let w3: i128 = d.z as i128 - a.z as i128;
    let ori: i128 = det3_exec(u1, u2, u3, v1, v2, v3, w1, w2, w3);
    proof {
        assert(det == insphere_det(*a, *b, *c, *d, *p));
        assert(ori == orient3(*a, *b, *c, *d));
        lemma_product_sign(det as int, ori as int);
    }
    if (det < 0 && ori > 0) || (det > 0 && ori < 0) {
        CircumsphereSide::Inside
    } else if (det > 0 && ori > 0) || (det < 0 && ori < 0) {
        CircumsphereSide::Outside
    } else {
        CircumsphereSide::OnSphere
    }
}

} // verus!
