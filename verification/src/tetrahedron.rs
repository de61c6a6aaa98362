use vstd::prelude::*;
use crate::indexes::{N3Index, T4Index};
use crate::point::{Point3, coords3_bounded, MAX_ORIENT_COORD};
use crate::side_of_plane::{SideOfPlane, side_of_plane, plane_side};
use crate::sort3::{key3, lemma_key3_sorted, sort_3};

verus! {

/// A tetrahedron of the mesh: four distinct node indices and one neighbor
/// slot per face.  The neighbor slots start empty and are written only by
/// the adjacency builder.
#[derive(Clone, Copy, Debug)]
pub struct Tetrahedron {
    pub v0: N3Index,
    pub v1: N3Index,
    pub v2: N3Index,
    pub v3: N3Index,
    pub n0: Option<T4Index>,
    pub n1: Option<T4Index>,
    pub n2: Option<T4Index>,
    pub n3: Option<T4Index>,
}

impl Tetrahedron {
    /// The node index stored in slot `k`.
    pub open spec fn nd(self, k: int) -> N3Index {
        if k == 0 {
            self.v0
        } else if k == 1 {
            self.v1
        } else if k == 2 {
            self.v2
        } else {
            self.v3
        }
    }

    /// The underlying value of the node index in slot `k`.
    pub open spec fn node_val(self, k: int) -> int {
        self.nd(k).0 as int
    }

    /// The four node indices are pairwise distinct.
    pub open spec fn wf(self) -> bool {
        &&& self.node_val(0) != self.node_val(1)
        &&& self.node_val(0) != self.node_val(2)
        &&& self.node_val(0) != self.node_val(3)
        &&& self.node_val(1) != self.node_val(2)
        &&& self.node_val(1) != self.node_val(3)
        &&& self.node_val(2) != self.node_val(3)
    }

    /// The neighbor slot of face `k`.
    pub open spec fn neighbor(self, k: int) -> Option<T4Index> {
        if k == 0 {
            self.n0
        } else if k == 1 {
            self.n1
        } else if k == 2 {
            self.n2
        } else {
            self.n3
        }
    }

    /// The canonical key of face `k`: the sorted node values of the face
    /// opposite vertex `k`.
    pub open spec fn face_key(self, k: int) -> (int, int, int) {
        if k == 0 {
            key3(self.node_val(1), self.node_val(2), self.node_val(3))
        } else if k == 1 {
            key3(self.node_val(0), self.node_val(2), self.node_val(3))
        } else if k == 2 {
            key3(self.node_val(0), self.node_val(1), self.node_val(3))
        } else {
            key3(self.node_val(0), self.node_val(1), self.node_val(2))
        }
    }

    /// Whether `(a, b, c)` is the canonical key of one of the four faces.
    pub open spec fn has_face(self, a: int, b: int, c: int) -> bool {
        ||| self.face_key(0) == (a, b, c)
        ||| self.face_key(1) == (a, b, c)
        ||| self.face_key(2) == (a, b, c)
        ||| self.face_key(3) == (a, b, c)
    }

    /// The neighbor slot owned by the face with canonical key `(a, b, c)`,
    /// or `None` when no face has that key.
    pub open spec fn neighbor_for(self, a: int, b: int, c: int) -> Option<T4Index> {
        if self.face_key(0) == (a, b, c) {
            self.n0
        } else if self.face_key(1) == (a, b, c) {
            self.n1
        } else if self.face_key(2) == (a, b, c) {
            self.n2
        } else if self.face_key(3) == (a, b, c) {
            self.n3
        } else {
            None
        }
    }

    /// Two tetrahedra carry the same four node indices in the same slots.
    pub open spec fn same_nodes(self, other: Tetrahedron) -> bool {
        &&& self.v0 == other.v0
        &&& self.v1 == other.v1
        &&& self.v2 == other.v2
        &&& self.v3 == other.v3
    }

    /// Builds a tetrahedron over four distinct node indices, with every
    /// neighbor slot empty.  The second and third node are exchanged when
    /// the fourth point lies to the left of the plane through the first
    /// three, so that the stored order always puts the fourth node on the
    /// non-`Left` side.
    pub fn new(points: &Vec<Point3>, a: N3Index, b: N3Index, c: N3Index, d: N3Index) -> (r:
        Tetrahedron)
        requires
            a.0 < points.len() && b.0 < points.len() && c.0 < points.len() && d.0 < points.len(),
            a.0 != b.0 && a.0 != c.0 && a.0 != d.0 && b.0 != c.0 && b.0 != d.0 && c.0 != d.0,
            coords3_bounded(points[a.0 as int], MAX_ORIENT_COORD as int),
            coords3_bounded(points[b.0 as int], MAX_ORIENT_COORD as int),
            coords3_bounded(points[c.0 as int], MAX_ORIENT_COORD as int),
            coords3_bounded(points[d.0 as int], MAX_ORIENT_COORD as int),
        ensures
            r.wf(),
            r.n0 == Option::<T4Index>::None && r.n1 == Option::<T4Index>::None && r.n2
                == Option::<T4Index>::None && r.n3 == Option::<T4Index>::None,
            if plane_side(
                points[a.0 as int],
                points[b.0 as int],
                points[c.0 as int],
                points[d.0 as int],
            ) == SideOfPlane::Left {
                r.v0 == a && r.v1 == c && r.v2 == b && r.v3 == d
            } else {
                r.v0 == a && r.v1 == b && r.v2 == c && r.v3 == d
            },
    {
        let pa = points[a.0];
        let pb = points[b.0];
        let pc = points[c.0];
        let pd = points[d.0];
        let side = side_of_plane(&pa, &pb, &pc, &pd);
        if side == SideOfPlane::Left {
            Tetrahedron { v0: a, v1: c, v2: b, v3: d, n0: None, n1: None, n2: None, n3: None }
        } else {
            Tetrahedron { v0: a, v1: b, v2: c, v3: d, n0: None, n1: None, n2: None, n3: None }
        }
    }

    /// The four faces as unsorted node-index triples, face `k` being the
    /// face opposite vertex `k`.
    pub fn faces_as_indices_tuples(&self) -> (r: [(N3Index, N3Index, N3Index); 4])
        ensures
            r[0] == (self.v1, self.v2, self.v3),
            r[1] == (self.v0, self.v2, self.v3),
            r[2] == (self.v0, self.v1, self.v3),
            r[3] == (self.v0, self.v1, self.v2),
    {
        [
            (self.v1, self.v2, self.v3),
            (self.v0, self.v2, self.v3),
            (self.v0, self.v1, self.v3),
            (self.v0, self.v1, self.v2),
        ]
    }

    /// Writes neighbor slot `k`; the nodes and the other slots are kept.
    pub fn set_neighbor(&mut self, k: usize, v: Option<T4Index>)
        requires
            k < 4,
        ensures
            final(self).same_nodes(*old(self)),
            final(self).neighbor(k as int) == v,
            forall|j: int|
                0 <= j < 4 && j != k as int ==> final(self).neighbor(j) == old(self).neighbor(j),
    {
        if k == 0 {
            self.n0 = v;
        } else if k == 1 {
            self.n1 = v;
        } else if k == 2 {
            self.n2 = v;
        } else {
            self.n3 = v;
        }
    }

    /// The four stored node indices.
    pub fn nodes(&self) -> (r: [N3Index; 4])
        ensures
            r[0] == self.v0,
            r[1] == self.v1,
            r[2] == self.v2,
            r[3] == self.v3,
    {
        [self.v0, self.v1, self.v2, self.v3]
    }

    /// The neighbor slot of face `k`.
    pub fn get_neighbor_from_index(&self, k: usize) -> (r: Option<T4Index>)
        requires
            k < 4,
        ensures
            r == self.neighbor(k as int),
    {
        if k == 0 {
            self.n0
        } else if k == 1 {
            self.n1
        } else if k == 2 {
            self.n2
        } else {
            self.n3
        }
    }

    /// Looks up the neighbor slot of the face holding exactly the three
    /// given node indices, in any order; `None` when no face matches.
    pub fn get_neighbor_for_indices(&self, p1: N3Index, p2: N3Index, p3: N3Index) -> (r: Option<
        T4Index,
    >)
        ensures
            r == self.neighbor_for(
                key3(p1.0 as int, p2.0 as int, p3.0 as int).0,
                key3(p1.0 as int, p2.0 as int, p3.0 as int).1,
                key3(p1.0 as int, p2.0 as int, p3.0 as int).2,
            ),
    {
        let (s1, s2, s3) = sort_3(p1, p2, p3);
        let (a0, b0, c0) = sort_3(self.v1, self.v2, self.v3);
        if a0.0 == s1.0 && b0.0 == s2.0 && c0.0 == s3.0 {
            return self.n0;
        }
        let (a1, b1, c1) = sort_3(self.v0, self.v2, self.v3);
        if a1.0 == s1.0 && b1.0 == s2.0 && c1.0 == s3.0 {
            return self.n1;
        }
        let (a2, b2, c2) = sort_3(self.v0, self.v1, self.v3);
        if a2.0 == s1.0 && b2.0 == s2.0 && c2.0 == s3.0 {
            return self.n2;
        }
        let (a3, b3, c3) = sort_3(self.v0, self.v1, self.v2);
        if a3.0 == s1.0 && b3.0 == s2.0 && c3.0 == s3.0 {
            return self.n3;
        }
        None
    }
}

/// The four face keys of a well-formed tetrahedron are pairwise distinct:
/// the components of a canonical key sum to the face's node values, and
/// two faces omit different vertices, so their sums differ.
pub proof fn lemma_face_keys_distinct(t: Tetrahedron)
    requires
        t.wf(),
    ensures
        forall|k1: int, k2: int|
            0 <= k1 < 4 && 0 <= k2 < 4 && k1 != k2 ==> t.face_key(k1) != t.face_key(k2),
{
    lemma_key3_sorted(t.node_val(1), t.node_val(2), t.node_val(3));
    lemma_key3_sorted(t.node_val(0), t.node_val(2), t.node_val(3));
    lemma_key3_sorted(t.node_val(0), t.node_val(1), t.node_val(3));
    lemma_key3_sorted(t.node_val(0), t.node_val(1), t.node_val(2));
}

} // verus!
