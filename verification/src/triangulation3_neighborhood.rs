use vstd::prelude::*;
use crate::indexes::{N3Index, T4Index};
use crate::sort3::{key3, sort_3};
use crate::tetrahedron::{Tetrahedron, lemma_face_keys_distinct};

verus! {

/// The one fatal condition of the stitching pass: a face key received a
/// third owner, so the input mesh is duplicated or non-manifold.
#[derive(Clone, Copy, PartialEq, Eq, Structural, Debug)]
pub enum NeighborhoodError {
    NonManifoldFace,
}

/// One face record of the neighborhood index: a canonical (sorted) face
/// key and its one or two owning tetrahedra, in registration order.
#[derive(Clone, Copy, Debug)]
struct FaceEntry {
    k1: usize,
    k2: usize,
    k3: usize,
    first: T4Index,
    second: Option<T4Index>,
}

/// The canonical key of an entry.
spec fn entry_key(e: FaceEntry) -> (int, int, int) {
    (e.k1 as int, e.k2 as int, e.k3 as int)
}

/// The owners of an entry, in registration order.
spec fn entry_owners(e: FaceEntry) -> Seq<T4Index> {
    match e.second {
        Some(s) => seq![e.first, s],
        None => seq![e.first],
    }
}

/// The owners recorded for key `(a, b, c)` in a sequence of entries: the
/// owners of the first entry carrying that key, or the empty sequence.
spec fn owners_in(s: Seq<FaceEntry>, a: int, b: int, c: int) -> Seq<T4Index>
    decreases s.len(),
{
    if s.len() == 0 {
        Seq::empty()
    } else if entry_key(s[0]) == (a, b, c) {
        entry_owners(s[0])
    } else {
        owners_in(s.skip(1), a, b, c)
    }
}

/// A key never has more than two recorded owners.
proof fn lemma_owners_in_len(s: Seq<FaceEntry>, a: int, b: int, c: int)
    ensures
        owners_in(s, a, b, c).len() <= 2,
    decreases s.len(),
{
    if s.len() > 0 && entry_key(s[0]) != (a, b, c) {
        lemma_owners_in_len(s.skip(1), a, b, c);
    }
}

/// Appending an entry leaves every already-present key unchanged and gives
/// a fresh key the new entry's owners.
proof fn lemma_owners_in_push(s: Seq<FaceEntry>, e: FaceEntry, a: int, b: int, c: int)
    ensures
        owners_in(s.push(e), a, b, c) == if owners_in(s, a, b, c).len() > 0 {
            owners_in(s, a, b, c)
        } else if entry_key(e) == (a, b, c) {
            entry_owners(e)
        } else {
            Seq::<T4Index>::empty()
        },
    decreases s.len(),
{
    if s.len() == 0 {
        assert(s.push(e)[0] == e);
        assert(s.push(e).skip(1) =~= Seq::<FaceEntry>::empty());
        if entry_key(e) == (a, b, c) {
            assert(owners_in(s.push(e), a, b, c) == entry_owners(e));
        } else {
            assert(owners_in(s.push(e), a, b, c) == owners_in(Seq::<FaceEntry>::empty(), a, b, c));
        }
    } else {
        assert(s.push(e)[0] == s[0]);
        assert(s.push(e).skip(1) =~= s.skip(1).push(e));
        lemma_owners_in_push(s.skip(1), e, a, b, c);
        if entry_key(s[0]) == (a, b, c) {
            assert(owners_in(s, a, b, c) == entry_owners(s[0]));
            assert(owners_in(s.push(e), a, b, c) == entry_owners(s.push(e)[0]));
        } else {
            assert(owners_in(s, a, b, c) == owners_in(s.skip(1), a, b, c));
            assert(owners_in(s.push(e), a, b, c) == owners_in(s.skip(1).push(e), a, b, c));
        }
    }
}

/// Replacing the first entry of a key by another entry of the same key
/// rewrites that key's owners and keeps every other key.
proof fn lemma_owners_in_update(s: Seq<FaceEntry>, i: int, e: FaceEntry, a: int, b: int, c: int)
    requires
        0 <= i < s.len(),
        entry_key(s[i]) == entry_key(e),
        forall|j: int| 0 <= j < i ==> entry_key(s[j]) != entry_key(s[i]),
    ensures
        owners_in(s.update(i, e), a, b, c) == if entry_key(e) == (a, b, c) {
            entry_owners(e)
        } else {
            owners_in(s, a, b, c)
        },
    decreases i,
{
    if i == 0 {
        assert(s.update(0, e).skip(1) =~= s.skip(1));
    } else {
        assert(s.update(i, e).skip(1) =~= s.skip(1).update(i - 1, e));
        assert(forall|j: int| 0 <= j < i - 1 ==> entry_key(s.skip(1)[j]) == entry_key(s[j + 1]));
        lemma_owners_in_update(s.skip(1), i - 1, e, a, b, c);
    }
}

/// The owners of a key are those of its first matching entry.
proof fn lemma_owners_in_first_match(s: Seq<FaceEntry>, i: int, a: int, b: int, c: int)
    requires
        0 <= i < s.len(),
        entry_key(s[i]) == (a, b, c),
        forall|j: int| 0 <= j < i ==> entry_key(s[j]) != (a, b, c),
    ensures
        owners_in(s, a, b, c) == entry_owners(s[i]),
    decreases i,
{
    if i > 0 {
        lemma_owners_in_first_match(s.skip(1), i - 1, a, b, c);
    }
}

/// A key carried by no entry has no owners.
proof fn lemma_owners_in_no_match(s: Seq<FaceEntry>, a: int, b: int, c: int)
    requires
        forall|j: int| 0 <= j < s.len() ==> entry_key(s[j]) != (a, b, c),
    ensures
        owners_in(s, a, b, c) == Seq::<T4Index>::empty(),
    decreases s.len(),
{
    if s.len() > 0 {
        lemma_owners_in_no_match(s.skip(1), a, b, c);
    }
}

/// The neighbor that an owner sequence reports to the querying tetrahedron
/// `from`: the second owner when `from` registered first, otherwise the
/// first owner, and nothing when the key is unknown or `from` is the sole
/// owner.
pub open spec fn neighbor_from(os: Seq<T4Index>, from: T4Index) -> Option<T4Index> {
    if os.len() == 0 {
        None
    } else if os[0] == from {
        if os.len() >= 2 {
            Some(os[1])
        } else {
            None
        }
    } else {
        Some(os[0])
    }
}

/// The owners that registering tetrahedra `0 .. n` of `els` gives to face
/// key `(a, b, c)`: every element owning that face, in element order.
pub open spec fn registered_owners(els: Seq<Tetrahedron>, n: int, a: int, b: int, c: int) -> Seq<
    T4Index,
>
    decreases n,
{
    if n <= 0 {
        Seq::empty()
    } else if els[n - 1].has_face(a, b, c) {
        registered_owners(els, n - 1, a, b, c).push(T4Index((n - 1) as usize))
    } else {
        registered_owners(els, n - 1, a, b, c)
    }
}

/// Registering more tetrahedra never removes owners.
proof fn lemma_registered_owners_monotone(
    els: Seq<Tetrahedron>,
    n: int,
    m: int,
    a: int,
    b: int,
    c: int,
)
    requires
        0 <= n <= m,
    ensures
        registered_owners(els, n, a, b, c).len() <= registered_owners(els, m, a, b, c).len(),
    decreases m,
{
    if n < m {
        lemma_registered_owners_monotone(els, n, m - 1, a, b, c);
    }
}

/// The neighbor that the final slot assignment of the stitching pass gives
/// face `k` of element `i`: the other owner of the face's key when the key
/// has an other owner to report, otherwise the slot's previous content.
pub open spec fn stitched_neighbor(els: Seq<Tetrahedron>, i: int, k: int) -> Option<T4Index> {
    let key = els[i].face_key(k);
    let os = registered_owners(els, els.len() as int, key.0, key.1, key.2);
    match neighbor_from(os, T4Index(i as usize)) {
        Some(j) => Some(j),
        None => els[i].neighbor(k),
    }
}

/// The transient face-adjacency index: face key to owning element pair.
pub struct Triangulation3Neighborhood {
    entries: Vec<FaceEntry>,
}

impl Triangulation3Neighborhood {
    /// The owners recorded so far for face key `(a, b, c)`, in
    /// registration order.  The representation behind it is the private
    /// entry list; every contract of the builder is stated over this view.
    pub closed spec fn owners3(self, a: int, b: int, c: int) -> Seq<T4Index> {
        owners_in(self.entries@, a, b, c)
    }

    /// An empty neighborhood index: no face key has an owner.
    pub fn new() -> (r: Triangulation3Neighborhood)
        ensures
            forall|a: int, b: int, c: int| #[trigger] r.owners3(a, b, c) == Seq::<T4Index>::empty(),
    {
        Triangulation3Neighborhood { entries: Vec::new() }
    }

    /// Registers `tetra_index` as an owner of the face holding the three
    /// given distinct node indices.  Fails exactly when the face already
    /// has two owners; the index is then left unchanged.
    #[verifier::loop_isolation(false)]
    fn register_connection(
        &mut self,
        p1: N3Index,
        p2: N3Index,
        p3: N3Index,
        tetra_index: T4Index,
    ) -> (r: Result<(), NeighborhoodError>)
        requires
            p1.0 != p2.0 && p1.0 != p3.0 && p2.0 != p3.0,
        ensures
            ({
                let key = key3(p1.0 as int, p2.0 as int, p3.0 as int);
                match r {
                    Ok(_) => old(self).owners3(key.0, key.1, key.2).len() < 2 && final(
                        self
                    ).owners3(key.0, key.1, key.2) == old(self).owners3(key.0, key.1, key.2).push(
                        tetra_index,
                    ) && forall|x: int, y: int, z: int|
                        (x, y, z) != key ==> #[trigger] final(self).owners3(x, y, z) == old(
                            self,
                        ).owners3(x, y, z),
                    Err(e) => old(self).owners3(key.0, key.1, key.2).len() == 2 && e
                        == NeighborhoodError::NonManifoldFace && forall|x: int, y: int, z: int|
                        #[trigger] final(self).owners3(x, y, z) == old(self).owners3(x, y, z),
                }
            }),
    {
        let (s1, s2, s3) = sort_3(p1, p2, p3);
        let n = self.entries.len();
        let mut i: usize = 0;
        while i < n
            invariant
                n == self.entries.len(),
                i <= n,
                self.entries@ == old(self).entries@,
                forall|j: int|
                    0 <= j < i ==> #[trigger] entry_key(self.entries@[j]) != (
                        s1.0 as int,
                        s2.0 as int,
                        s3.0 as int,
                    ),
            decreases n - i,
        {
            let e = self.entries[i];
            if e.k1 == s1.0 && e.k2 == s2.0 && e.k3 == s3.0 {
                proof {
                    lemma_owners_in_first_match(
                        self.entries@,
                        i as int,
                        s1.0 as int,
                        s2.0 as int,
                        s3.0 as int,
                    );
                }
                if e.second.is_some() {
                    return Err(NeighborhoodError::NonManifoldFace);
                }
                let updated = FaceEntry {
                    k1: e.k1,
                    k2: e.k2,
                    k3: e.k3,
                    first: e.first,
                    second: Some(tetra_index),
                };
                self.entries[i] = updated;
                proof {
                    assert forall|x: int, y: int, z: int|
                        #[trigger] owners_in(self.entries@, x, y, z) == if (x, y, z) == entry_key(
                            updated,
                        ) {
                            entry_owners(updated)
                        } else {
                            owners_in(old(self).entries@, x, y, z)
                        } by {
                        lemma_owners_in_update(old(self).entries@, i as int, updated, x, y, z);
                    }
                }
                return Ok(());
            }
            i += 1;
        }
        proof {
            lemma_owners_in_no_match(self.entries@, s1.0 as int, s2.0 as int, s3.0 as int);
        }
        let fresh = FaceEntry { k1: s1.0, k2: s2.0, k3: s3.0, first: tetra_index, second: None };
        self.entries.push(fresh);
        proof {
            assert forall|x: int, y: int, z: int|
                #[trigger] owners_in(self.entries@, x, y, z) == if owners_in(
                    old(self).entries@,
                    x,
                    y,
                    z,
                ).len() > 0 {
                    owners_in(old(self).entries@, x, y, z)
                } else if entry_key(fresh) == (x, y, z) {
                    entry_owners(fresh)
                } else {
                    Seq::<T4Index>::empty()
                } by {
                lemma_owners_in_push(old(self).entries@, fresh, x, y, z);
            }
        }
        Ok(())
    }

    /// Registers all four faces of a tetrahedron under its element index.
    /// Succeeds exactly when none of its faces already had two owners; on
    /// success each of the four face keys gains `tetra_index` as a further
    /// owner and every other key is unchanged.
    pub fn register_tetrahedron(&mut self, tetra: &Tetrahedron, tetra_index: T4Index) -> (r: Result<
        (),
        NeighborhoodError,
    >)
        requires
            tetra.wf(),
        ensures
            r.is_ok() <==> forall|k: int|
                0 <= k < 4 ==> (#[trigger] old(self).owners3(
                    tetra.face_key(k).0,
                    tetra.face_key(k).1,
                    tetra.face_key(k).2,
                )).len() < 2,
            r.is_ok() ==> forall|x: int, y: int, z: int|
                #[trigger] final(self).owners3(x, y, z) == if tetra.has_face(x, y, z) {
                    old(self).owners3(x, y, z).push(tetra_index)
                } else {
                    old(self).owners3(x, y, z)
                },
        {
        proof {
            lemma_face_keys_distinct(*tetra);
        }
        let f = tetra.faces_as_indices_tuples();
        proof {
            assert(tetra.face_key(0) == key3(f[0].0.0 as int, f[0].1.0 as int, f[0].2.0 as int));
            assert(tetra.face_key(1) == key3(f[1].0.0 as int, f[1].1.0 as int, f[1].2.0 as int));
            assert(tetra.face_key(2) == key3(f[2].0.0 as int, f[2].1.0 as int, f[2].2.0 as int));
            assert(tetra.face_key(3) == key3(f[3].0.0 as int, f[3].1.0 as int, f[3].2.0 as int));
        }
        match self.register_connection(f[0].0, f[0].1, f[0].2, tetra_index) {
            Err(e) => {
                return Err(e);
            },
            Ok(_) => {},
        }
        match self.register_connection(f[1].0, f[1].1, f[1].2, tetra_index) {
            Err(e) => {
                return Err(e);
            },
            Ok(_) => {},
        }
        match self.register_connection(f[2].0, f[2].1, f[2].2, tetra_index) {
            Err(e) => {
                return Err(e);
            },
            Ok(_) => {},
        }
        match self.register_connection(f[3].0, f[3].1, f[3].2, tetra_index) {
            Err(e) => {
                return Err(e);
            },
            Ok(_) => {},
        }
        Ok(())
    }

    /// Looks up the neighbor of `tetra_index` across the face holding the
    /// three given node indices, in any order: the face's other owner, or
    /// nothing for an unregistered face or a boundary face queried from
    /// its sole owner.
    #[verifier::loop_isolation(false)]
    pub fn get_neighbor(
        &self,
        p1: N3Index,
        p2: N3Index,
        p3: N3Index,
        tetra_index: T4Index,
    ) -> (r: Option<T4Index>)
        ensures
            ({
                let key = key3(p1.0 as int, p2.0 as int, p3.0 as int);
                r == neighbor_from(self.owners3(key.0, key.1, key.2), tetra_index)
            }),
    {
        let (s1, s2, s3) = sort_3(p1, p2, p3);
        let n = self.entries.len();
        let mut i: usize = 0;
        while i < n
            invariant
                n == self.entries.len(),
                i <= n,
                forall|j: int|
                    0 <= j < i ==> #[trigger] entry_key(self.entries@[j]) != (
                        s1.0 as int,
                        s2.0 as int,
                        s3.0 as int,
                    ),
            decreases n - i,
        {
            let e = self.entries[i];
            if e.k1 == s1.0 && e.k2 == s2.0 && e.k3 == s3.0 {
                proof {
                    lemma_owners_in_first_match(
                        self.entries@,
                        i as int,
                        s1.0 as int,
                        s2.0 as int,
                        s3.0 as int,
                    );
                }
                if e.first.0 == tetra_index.0 {
                    return e.second;
                } else {
                    return Some(e.first);
                }
            }
            i += 1;
        }
        proof {
            lemma_owners_in_no_match(self.entries@, s1.0 as int, s2.0 as int, s3.0 as int);
        }
        None
    }

    /// The stitching pass.  Registers every tetrahedron, then writes, for
    /// every face key with two owners, each owner's neighbor slot for that
    /// face to point at the other owner.  Succeeds exactly when no face
    /// key is owned by more than two tetrahedra; on failure the elements
    /// are left untouched, so no partial adjacency ever escapes.
    #[verifier::loop_isolation(false)]
    pub fn teach_triangles_of_neighborhood(elements: &mut Vec<Tetrahedron>) -> (r: Result<
        (),
        NeighborhoodError,
    >)
        requires
            forall|i: int| 0 <= i < old(elements).len() ==> (#[trigger] old(elements)@[i]).wf(),
        ensures
            r.is_ok() <==> forall|x: int, y: int, z: int|
                (#[trigger] registered_owners(
                    old(elements)@,
                    old(elements).len() as int,
                    x,
                    y,
                    z,
                )).len() <= 2,
            r.is_ok() ==> final(elements).len() == old(elements).len() && (forall|i: int|
                0 <= i < final(elements).len() ==> (#[trigger] final(elements)@[i]).same_nodes(
                    old(elements)@[i],
                )) && (forall|i: int, k: int|
                0 <= i < final(elements).len() && 0 <= k < 4 ==> (#[trigger] final(
                    elements
                )@[i].neighbor(k)) == stitched_neighbor(old(elements)@, i, k)),
            r.is_err() ==> final(elements)@ == old(elements)@,
    {
        let ghost els0 = elements@;
        let n = elements.len();
        let mut neighborhood = Triangulation3Neighborhood::new();
        let mut i: usize = 0;
        while i < n
            invariant
                n == elements.len(),
                i <= n,
                elements@ == old(elements)@,
                forall|t: int| 0 <= t < n ==> (#[trigger] elements@[t]).wf(),
                forall|x: int, y: int, z: int|
                    #[trigger] neighborhood.owners3(x, y, z) == registered_owners(
                        elements@,
                        i as int,
                        x,
                        y,
                        z,
                    ),
            decreases n - i,
        {
            let ghost nb_pre = neighborhood;
            let r = neighborhood.register_tetrahedron(&elements[i], T4Index(i));
            match r {
                Err(e) => {
                    proof {
                        let t = elements@[i as int];
                        let bad = choose|k: int|
                            0 <= k < 4 && (#[trigger] nb_pre.owners3(
                                t.face_key(k).0,
                                t.face_key(k).1,
                                t.face_key(k).2,
                            )).len() >= 2;
                        let key = t.face_key(bad);
                        lemma_owners_in_len(nb_pre.entries@, key.0, key.1, key.2);
                        assert(registered_owners(elements@, i as int, key.0, key.1, key.2).len()
                            == 2);
                        assert(t.has_face(key.0, key.1, key.2));
                        assert(registered_owners(elements@, i + 1, key.0, key.1, key.2).len() == 3);
                        lemma_registered_owners_monotone(
                            elements@,
                            i + 1,
                            n as int,
                            key.0,
                            key.1,
                            key.2,
                        );
                    }
                    return Err(e);
                },
                Ok(_) => {},
            }
            i += 1;
        }
        proof {
            assert forall|x: int, y: int, z: int|
                (#[trigger] registered_owners(els0, n as int, x, y, z)).len() <= 2 by {
                assert(neighborhood.owners3(x, y, z) == registered_owners(els0, n as int, x, y, z));
                lemma_owners_in_len(neighborhood.entries@, x, y, z);
            }
        }
        let mut i: usize = 0;
        while i < n
            invariant
                n == elements.len(),
                i <= n,
                elements@.len() == els0.len(),
                forall|t: int| 0 <= t < n ==> (#[trigger] elements@[t]).same_nodes(els0[t]),
                forall|x: int, y: int, z: int|
                    #[trigger] neighborhood.owners3(x, y, z) == registered_owners(
                        els0,
                        n as int,
                        x,
                        y,
                        z,
                    ),
                forall|t: int, k: int|
                    0 <= t < i && 0 <= k < 4 ==> (#[trigger] elements@[t].neighbor(k))
                        == stitched_neighbor(els0, t, k),
                forall|t: int, k: int|
                    i <= t < n && 0 <= k < 4 ==> (#[trigger] elements@[t].neighbor(k))
                        == els0[t].neighbor(k),
            decreases n - i,
        {
            let f = elements[i].faces_as_indices_tuples();
            let mut k: usize = 0;
            while k < 4
                invariant
                    n == elements.len(),
                    i < n,
                    k <= 4,
                    elements@.len() == els0.len(),
                    f[0] == (els0[i as int].v1, els0[i as int].v2, els0[i as int].v3),
                    f[1] == (els0[i as int].v0, els0[i as int].v2, els0[i as int].v3),
                    f[2] == (els0[i as int].v0, els0[i as int].v1, els0[i as int].v3),
                    f[3] == (els0[i as int].v0, els0[i as int].v1, els0[i as int].v2),
                    forall|t: int| 0 <= t < n ==> (#[trigger] elements@[t]).same_nodes(els0[t]),
                    forall|x: int, y: int, z: int|
                        #[trigger] neighborhood.owners3(x, y, z) == registered_owners(
                            els0,
                            n as int,
                            x,
                            y,
                            z,
                        ),
                    forall|t: int, kk: int|
                        0 <= t < i && 0 <= kk < 4 ==> (#[trigger] elements@[t].neighbor(kk))
                            == stitched_neighbor(els0, t, kk),
                    forall|kk: int|
                        0 <= kk < k ==> (#[trigger] elements@[i as int].neighbor(kk))
                            == stitched_neighbor(els0, i as int, kk),
                    forall|kk: int|
                        k <= kk < 4 ==> (#[trigger] elements@[i as int].neighbor(kk)) == els0[i as int].neighbor(
                            kk,
                        ),
                    forall|t: int, kk: int|
                        i < t < n && 0 <= kk < 4 ==> (#[trigger] elements@[t].neighbor(kk))
                            == els0[t].neighbor(kk),
                decreases 4 - k,
            {
                let face = f[k];
                let r = neighborhood.get_neighbor(face.0, face.1, face.2, T4Index(i));
                proof {
                    assert(els0[i as int].face_key(k as int) == key3(
                        face.0.0 as int,
                        face.1.0 as int,
                        face.2.0 as int,
                    ));
                }
                if let Some(j) = r {
                    let mut el = elements[i];
                    el.set_neighbor(k, Some(j));
                    elements[i] = el;
                }
                k += 1;
            }
            i += 1;
        }
        Ok(())
    }
}

/// The owners that registration gives a face key held by exactly the two
/// elements `i < j`: first `i`, then `j`.
proof fn lemma_registered_owners_pair(
    els: Seq<Tetrahedron>,
    n: int,
    i: int,
    j: int,
    a: int,
    b: int,
    c: int,
)
    requires
        0 <= i < j < els.len(),
        n <= els.len(),
        els[i].has_face(a, b, c),
        els[j].has_face(a, b, c),
        forall|t: int|
            0 <= t < els.len() && t != i && t != j ==> !(#[trigger] els[t]).has_face(a, b, c),
    ensures
        registered_owners(els, n, a, b, c) == if n <= i {
            Seq::<T4Index>::empty()
        } else if n <= j {
            seq![T4Index(i as usize)]
        } else {
            seq![T4Index(i as usize), T4Index(j as usize)]
        },
    decreases n,
{
    if n > 0 {
        lemma_registered_owners_pair(els, n - 1, i, j, a, b, c);
        if n - 1 == i {
            assert(Seq::<T4Index>::empty().push(T4Index(i as usize)) =~= seq![
                T4Index(i as usize),
            ]);
        } else if n - 1 == j {
            assert(seq![T4Index(i as usize)].push(T4Index(j as usize)) =~= seq![
                T4Index(i as usize),
                T4Index(j as usize),
            ]);
        }
    }
}

/// Neighbor symmetry of the stitched mesh: when a face is shared by
/// exactly the two elements `i` and `j`, the stitching pass points the
/// face's slot in `i` at `j`, and the one in `j` at `i`.
pub proof fn lemma_stitched_shared_face(els: Seq<Tetrahedron>, i: int, j: int, k: int)
    requires
        0 <= i < els.len(),
        0 <= j < els.len(),
        i != j,
        0 <= k < 4,
        els[j].has_face(els[i].face_key(k).0, els[i].face_key(k).1, els[i].face_key(k).2),
        forall|t: int|
            0 <= t < els.len() && t != i && t != j ==> !(#[trigger] els[t]).has_face(
                els[i].face_key(k).0,
                els[i].face_key(k).1,
                els[i].face_key(k).2,
            ),
    ensures
        stitched_neighbor(els, i, k) == Some(T4Index(j as usize)),
{
    let key = els[i].face_key(k);
    if i < j {
        lemma_registered_owners_pair(els, els.len() as int, i, j, key.0, key.1, key.2);
    } else {
        lemma_registered_owners_pair(els, els.len() as int, j, i, key.0, key.1, key.2);
    }
}

/// Neighbor symmetry: once a face key has its two distinct owners, the
/// builder answers each owner's query with the other owner.  Which three
/// node indices name the face, and in what order, cannot matter, since a
/// query canonicalizes them through `key3` (see `lemma_key3_symmetric`).
pub proof fn lemma_neighbor_symmetry(
    nb: Triangulation3Neighborhood,
    a: int,
    b: int,
    c: int,
    t1: T4Index,
    t2: T4Index,
)
    requires
        nb.owners3(a, b, c) == seq![t1, t2],
        t1 != t2,
    ensures
        neighbor_from(nb.owners3(a, b, c), t1) == Some(t2),
        neighbor_from(nb.owners3(a, b, c), t2) == Some(t1),
{
}

/// Order independence: the two owners of a face may register in either
/// order; every query by one of the owners gets the same answer.  Together
/// with the registration contracts, which determine the owner sequences up
/// to registration order, this makes the final neighbor assignment of the
/// stitching pass independent of the order in which tetrahedra register.
pub proof fn lemma_neighbor_order_independent(t1: T4Index, t2: T4Index, from: T4Index)
    requires
        from == t1 || from == t2,
    ensures
        neighbor_from(seq![t1, t2], from) == neighbor_from(seq![t2, t1], from),
{
}

} // verus!
