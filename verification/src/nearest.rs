//! Choosing an intersection: the root of the sphere quadratic, and the
//! nearest hit among the objects of a scene.
//!
//! A sphere intersection yields up to two parametric roots; the search
//! takes the nearer root that the window admits, and falls back to the
//! farther one.  A scene aggregates many objects and must report the
//! closest admissible hit.  Both choices read only the ordering of the
//! distances, which arrive here as order keys (see the crate root).

use vstd::prelude::*;

use crate::interval::Interval;

verus! {

/// Take the admissible root of a sphere intersection, preferring the
/// nearer one: the nearer root if the window admits it, else the farther
/// root if the window admits that, else nothing.
pub fn select_root(near: u64, far: u64, window: &Interval) -> (r: Option<u64>)
    requires
        near <= far,
    ensures
        window.spec_surrounds(near) ==> r == Some(near),
        !window.spec_surrounds(near) && window.spec_surrounds(far) ==> r == Some(far),
        !window.spec_surrounds(near) && !window.spec_surrounds(far) ==> r is None,
        r matches Some(k) ==> window.spec_surrounds(k),
{
    if window.surrounds(near) {
        Some(near)
    } else if window.surrounds(far) {
        Some(far)
    } else {
        None
    }
}

/// `i` points at the nearest hit of `s`: the entry is a hit, no hit is
/// nearer, and every equally near hit comes later.
pub open spec fn nearest_at(s: Seq<Option<u64>>, i: int) -> bool {
    &&& 0 <= i < s.len()
    &&& s[i] is Some
    &&& forall|j: int|
        0 <= j < s.len() && s[j] is Some ==> s[i]->0 <= s[j]->0
    &&& forall|j: int| 0 <= j < i && s[j] is Some ==> s[i]->0 < s[j]->0
}

/// At most one index points at the nearest hit of a scene.
pub proof fn lemma_nearest_unique(s: Seq<Option<u64>>, i: int, j: int)
    requires
        nearest_at(s, i),
        nearest_at(s, j),
    ensures
        i == j,
{
    if i < j {
        assert(s[i]->0 <= s[j]->0);
        assert(s[j]->0 < s[i]->0);
    }
    if j < i {
        assert(s[j]->0 <= s[i]->0);
        assert(s[i]->0 < s[j]->0);
    }
}

/// Two searches that both meet the nearest-hit contract name the same
/// member: the minimum over all members and the scan with a shrinking
/// window cannot disagree on any scene.
pub proof fn lemma_formulations_agree(s: Seq<Option<u64>>, r1: Option<int>, r2: Option<int>)
    requires
        r1 is None <==> (forall|j: int| 0 <= j < s.len() ==> s[j] is None),
        r2 is None <==> (forall|j: int| 0 <= j < s.len() ==> s[j] is None),
        r1 matches Some(i) ==> nearest_at(s, i),
        r2 matches Some(i) ==> nearest_at(s, i),
    ensures
        r1 == r2,
{
    if r1 is Some && r2 is Some {
        lemma_nearest_unique(s, r1->0, r2->0);
    }
}

/// Two objects both hit: the one whose distance is smaller wins, and a
/// coincidence of distances falls to the earlier member.
pub proof fn lemma_nearer_of_two_wins(s: Seq<Option<u64>>, a: u64, b: u64)
    requires
        s.len() == 2,
        s[0] == Some(a),
        s[1] == Some(b),
    ensures
        a <= b ==> nearest_at(s, 0),
        b < a ==> nearest_at(s, 1),
{
}

/// The nearest hit of a scene, as a minimum over all members: each member
/// reports its admissible hit distance or a miss, and the first member
/// with a minimal distance is chosen.
pub fn nearest_hit(candidates: &Vec<Option<u64>>) -> (r: Option<usize>)
    ensures
        r is None <==> (forall|j: int| 0 <= j < candidates@.len() ==> candidates@[j] is None),
        r matches Some(i) ==> nearest_at(candidates@, i as int),
{
    let mut best: Option<usize> = None;
    let mut best_key: u64 = 0;
    let mut idx: usize = 0;
    while idx < candidates.len()
        invariant
            idx <= candidates@.len(),
            best is None ==> (forall|j: int| 0 <= j < idx ==> candidates@[j] is None),
            best matches Some(b) ==> {
                &&& b < idx
                &&& candidates@[b as int] == Some(best_key)
                &&& forall|j: int|
                    0 <= j < idx && candidates@[j] is Some ==> best_key <= candidates@[j]->0
                &&& forall|j: int|
                    0 <= j < b && candidates@[j] is Some ==> best_key < candidates@[j]->0
            },
        decreases candidates@.len() - idx,
    {
        match candidates[idx] {
            Some(key) => {
                match best {
                    None => {
                        best = Some(idx);
                        best_key = key;
                    },
                    Some(_) => {
                        if key < best_key {
                            best = Some(idx);
                            best_key = key;
                        }
                    },
                }
            },
            None => {},
        }
        idx = idx + 1;
    }
    best
}

/// The nearest hit of a scene, as a scan that narrows the window: each
/// accepted hit lowers the upper bound to its own distance, so a later
/// member can only displace the result with a strictly nearer hit.
///
/// Every reported distance must lie strictly inside the window it was
/// searched under; the scan then names the same member as
/// [`nearest_hit`].
pub fn nearest_hit_scan(candidates: &Vec<Option<u64>>, window: &Interval) -> (r: Option<usize>)
    requires
        forall|j: int|
            0 <= j < candidates@.len() && candidates@[j] is Some
                ==> window.spec_surrounds(candidates@[j]->0),
    ensures
        r is None <==> (forall|j: int| 0 <= j < candidates@.len() ==> candidates@[j] is None),
        r matches Some(i) ==> nearest_at(candidates@, i as int),
{
    let mut best: Option<usize> = None;
    let mut closest_so_far: u64 = window.max();
    let mut idx: usize = 0;
    while idx < candidates.len()
        invariant
            idx <= candidates@.len(),
            forall|j: int|
                0 <= j < candidates@.len() && candidates@[j] is Some
                    ==> window.spec_surrounds(candidates@[j]->0),
            best is None ==> {
                &&& closest_so_far == window.spec_max()
                &&& forall|j: int| 0 <= j < idx ==> candidates@[j] is None
            },
            best matches Some(b) ==> {
                &&& b < idx
                &&& candidates@[b as int] == Some(closest_so_far)
                &&& forall|j: int|
                    0 <= j < idx && candidates@[j] is Some
                        ==> closest_so_far <= candidates@[j]->0
                &&& forall|j: int|
                    0 <= j < b && candidates@[j] is Some ==> closest_so_far < candidates@[j]->0
            },
        decreases candidates@.len() - idx,
    {
        match candidates[idx] {
            Some(key) => {
                let narrowed = Interval::new(window.min(), closest_so_far);
                if narrowed.surrounds(key) {
                    best = Some(idx);
                    closest_so_far = key;
                }
            },
            None => {},
        }
        idx = idx + 1;
    }
    best
}

} // verus!
