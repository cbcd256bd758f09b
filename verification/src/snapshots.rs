//! The store of parked windows' static snapshots, keyed by window handle,
//! beside the cache of the same snapshots pre-scaled to their overview
//! slot size: at most one of each per window, replaced on re-capture,
//! dropped on unpark, and pruned for windows no longer live. The bitmaps
//! themselves are owned by the front end, which frees whatever a removal
//! hands back.

use vstd::prelude::*;
use std::collections::BTreeMap;

verus! {

/// One captured snapshot: its pixel size and bitmap handle.
#[derive(Clone, Copy, Debug, PartialEq, Eq, Structural)]
pub struct Snapshot {
    pub width: i32,
    pub height: i32,
    pub bitmap: isize,
}

/// What `m` holds for window `k`.
pub open spec fn lookup(m: Map<isize, Snapshot>, k: isize) -> Option<Snapshot> {
    if m.contains_key(k) {
        Some(m[k])
    } else {
        None
    }
}

/// The entries of `m` whose window is in `live`.
pub open spec fn kept_part(m: Map<isize, Snapshot>, live: Seq<isize>) -> Map<isize, Snapshot> {
    m.restrict(m.dom().filter(|k: isize| live.contains(k)))
}

/// Whether `stale` holds exactly the entries of `m` whose window is not in
/// `live`, each once (in no particular order).
pub open spec fn is_stale_part(stale: Seq<(isize, Snapshot)>, m: Map<isize, Snapshot>, live: Seq<isize>) -> bool {
    &&& forall|i: int|
        #![trigger stale[i]]
        0 <= i < stale.len() ==> m.contains_key(stale[i].0) && m[stale[i].0] == stale[i].1 && !live.contains(
            stale[i].0,
        )
    &&& forall|k: isize|
        #![trigger m.contains_key(k)]
        m.contains_key(k) && !live.contains(k) ==> exists|i: int| 0 <= i < stale.len() && stale[i].0 == k
    &&& forall|i: int, j: int| 0 <= i < j < stale.len() ==> stale[i].0 != stale[j].0
}

/// Whether `handles` holds `k`.
fn contains_handle(handles: &[isize], k: isize) -> (r: bool)
    ensures
        r == handles@.contains(k),
{
    let mut t: usize = 0;
    while t < handles.len()
        invariant
            t <= handles@.len(),
            forall|u: int| 0 <= u < t ==> handles@[u] != k,
        decreases handles.len() - t,
    {
        if handles[t] == k {
            assert(handles@[t as int] == k);
            return true;
        }
        t += 1;
    }
    false
}

/// Snapshots keyed by window, at most one per window.
pub struct SnapshotMap {
    entries: BTreeMap<isize, Snapshot>,
}

impl View for SnapshotMap {
    type V = Map<isize, Snapshot>;

    closed spec fn view(&self) -> Map<isize, Snapshot> {
        self.entries@
    }
}

impl SnapshotMap {
    pub fn new() -> (r: Self)
        ensures
            r@ == Map::<isize, Snapshot>::empty(),
    {
        SnapshotMap { entries: BTreeMap::new() }
    }

    /// The snapshot stored for `hwnd`, if any.
    pub fn get(&self, hwnd: isize) -> (r: Option<Snapshot>)
        ensures
            r == lookup(self@, hwnd),
    {
        proof {
            broadcast use vstd::std_specs::btree::group_btree_axioms;
            broadcast use vstd::laws_cmp::group_laws_cmp;
        }
        match self.entries.get(&hwnd) {
            Some(s) => Some(*s),
            None => None,
        }
    }

    /// Removes `hwnd`'s snapshot, handing it back (for its bitmap to be
    /// freed).
    pub fn remove(&mut self, hwnd: isize) -> (r: Option<Snapshot>)
        ensures
            r == lookup(old(self)@, hwnd),
            final(self)@ == old(self)@.remove(hwnd),
    {
        proof {
            broadcast use vstd::std_specs::btree::group_btree_axioms;
            broadcast use vstd::laws_cmp::group_laws_cmp;
        }
        self.entries.remove(&hwnd)
    }

    /// Stores `snap` for `hwnd`, handing back the snapshot it replaces.
    pub fn insert(&mut self, hwnd: isize, snap: Snapshot) -> (replaced: Option<Snapshot>)
        ensures
            replaced == lookup(old(self)@, hwnd),
            final(self)@ == old(self)@.insert(hwnd, snap),
    {
        proof {
            broadcast use vstd::std_specs::btree::group_btree_axioms;
            broadcast use vstd::laws_cmp::group_laws_cmp;
        }
        self.entries.insert(hwnd, snap)
    }

    /// Drops the snapshots of every window not in `live_windows`, handing
    /// them back with their windows; live windows' snapshots are untouched.
    pub fn retain(&mut self, live_windows: &[isize]) -> (stale: Vec<(isize, Snapshot)>)
        ensures
            final(self)@ == kept_part(old(self)@, live_windows@),
            is_stale_part(stale@, old(self)@, live_windows@),
    {
        broadcast use vstd::std_specs::btree::group_btree_axioms;
        broadcast use vstd::laws_cmp::group_laws_cmp;

        let ghost m = self.entries@;
        let ghost v = vstd::std_specs::iter::IteratorSpec::remaining(
            &vstd::std_specs::btree::spec_btree_map_iter(&self.entries),
        );
        let mut kept: BTreeMap<isize, Snapshot> = BTreeMap::new();
        let mut stale: Vec<(isize, Snapshot)> = Vec::new();
        let ghost mut pos: Seq<int> = Seq::empty();
        for kv in it: self.entries.iter()
            invariant
                it.seq() == v,
                v.no_duplicates(),
                m == self.entries@,
                forall|j: int|
                    0 <= j < v.len() ==> m.contains_key(*#[trigger] v[j].0) && m[*v[j].0] == *v[j].1,
                forall|k: isize|
                    #[trigger] kept@.contains_key(k) ==> m.contains_key(k) && kept@[k] == m[k]
                        && live_windows@.contains(k),
                pos.len() == stale@.len(),
                forall|i: int| 0 <= i < pos.len() ==> 0 <= #[trigger] pos[i] < it.index(),
                forall|i: int| 0 <= i < stale@.len() ==> *v[pos[i]].0 == (#[trigger] stale@[i]).0,
                forall|i: int|
                    0 <= i < stale@.len() ==> m[(#[trigger] stale@[i]).0] == stale@[i].1 && !live_windows@.contains(
                        stale@[i].0,
                    ),
                forall|a: int, b: int| 0 <= a < b < pos.len() ==> pos[a] < pos[b],
                forall|j: int|
                    0 <= j < it.index() ==> if live_windows@.contains(*v[j].0) {
                        kept@.contains_key(*#[trigger] v[j].0)
                    } else {
                        stale@.contains((*#[trigger] v[j].0, m[*v[j].0]))
                    },
        {
            let (k, val) = kv;
            let k: isize = *k;
            let val: Snapshot = *val;
            let ghost idx = it.index();
            assert(k == *v[idx].0);
            if contains_handle(live_windows, k) {
                kept.insert(k, val);
            } else {
                let ghost old_stale = stale@;
                stale.push((k, val));
                proof {
                    let old_pos = pos;
                    pos = pos.push(idx);
                    assert forall|i: int| 0 <= i < old_stale.len() implies stale@[i] == old_stale[i] && pos[i] == old_pos[i] by {}
                    assert forall|j: int| 0 <= j < idx && !live_windows@.contains(*v[j].0) implies stale@.contains(
                        (*#[trigger] v[j].0, m[*v[j].0]),
                    ) by {
                        assert(old_stale.contains((*v[j].0, m[*v[j].0])));
                        let i = choose|i: int| 0 <= i < old_stale.len() && old_stale[i] == (*v[j].0, m[*v[j].0]);
                        assert(stale@[i] == old_stale[i]);
                    }
                    assert(stale@[stale@.len() - 1] == (*v[idx].0, m[*v[idx].0]));
                }
            }
        }
        proof {
            assert forall|k: isize| #[trigger] m.contains_key(k) && live_windows@.contains(k) implies kept@.contains_key(
                k,
            ) by {
                assert(v.contains((&k, &m[k])));
                let j = choose|j: int| 0 <= j < v.len() && v[j] == (&k, &m[k]);
                assert(*v[j].0 == k);
            }
            assert forall|k: isize| #[trigger] m.contains_key(k) && !live_windows@.contains(k) implies exists|i: int|
                0 <= i < stale@.len() && stale@[i].0 == k by {
                assert(v.contains((&k, &m[k])));
                let j = choose|j: int| 0 <= j < v.len() && v[j] == (&k, &m[k]);
                assert(*v[j].0 == k);
                assert(stale@.contains((k, m[k])));
                let i = choose|i: int| 0 <= i < stale@.len() && stale@[i] == (k, m[k]);
                assert(stale@[i].0 == k);
            }
            assert forall|a: int, b: int| 0 <= a < b < stale@.len() implies stale@[a].0 != stale@[b].0 by {
                let pa = pos[a];
                let pb = pos[b];
                assert(stale@[a].0 == *v[pa].0);
                assert(stale@[b].0 == *v[pb].0);
                if *v[pa].0 == *v[pb].0 {
                    assert(v[pa] == v[pb]);
                }
            }
            assert(kept@ =~= kept_part(m, live_windows@));
        }
        self.entries = kept;
        stale
    }
}

/// The full-size captures and their slot-size copies.
pub struct SnapshotStore {
    full: SnapshotMap,
    scaled: SnapshotMap,
}

impl View for SnapshotStore {
    type V = (Map<isize, Snapshot>, Map<isize, Snapshot>);

    /// The full-size captures, then the pre-scaled copies.
    closed spec fn view(&self) -> (Map<isize, Snapshot>, Map<isize, Snapshot>) {
        (self.full@, self.scaled@)
    }
}

/// Where a window's pre-scaled snapshot comes from.
#[derive(Clone, Copy, Debug, PartialEq, Eq, Structural)]
pub enum ScaledLookup {
    /// No slot size, or no capture to scale from.
    Nothing,
    /// The cached copy of that size: this bitmap.
    Cached(isize),
    /// Scale this capture to the slot size, then `store_scaled` the result.
    Render(Snapshot),
}

impl SnapshotStore {
    pub fn new() -> (r: Self)
        ensures
            r@.0 == Map::<isize, Snapshot>::empty(),
            r@.1 == Map::<isize, Snapshot>::empty(),
    {
        SnapshotStore { full: SnapshotMap::new(), scaled: SnapshotMap::new() }
    }

    /// The full-size snapshot stored for `hwnd`, if any.
    pub fn window_snapshot(&self, hwnd: isize) -> (r: Option<Snapshot>)
        ensures
            r == lookup(self@.0, hwnd),
    {
        self.full.get(hwnd)
    }

    /// Removes `hwnd`'s capture and its pre-scaled copy, handing both back
    /// (for their bitmaps to be freed).
    pub fn drop_window_snapshot(&mut self, hwnd: isize) -> (r: (Option<Snapshot>, Option<Snapshot>))
        ensures
            r.0 == lookup(old(self)@.0, hwnd),
            r.1 == lookup(old(self)@.1, hwnd),
            final(self)@.0 == old(self)@.0.remove(hwnd),
            final(self)@.1 == old(self)@.1.remove(hwnd),
    {
        let a = self.full.remove(hwnd);
        let b = self.scaled.remove(hwnd);
        (a, b)
    }

    /// Stores a fresh capture `snap` of `hwnd`: its previous capture and
    /// pre-scaled copy are dropped and handed back.
    pub fn capture(&mut self, hwnd: isize, snap: Snapshot) -> (r: (Option<Snapshot>, Option<Snapshot>))
        ensures
            r.0 == lookup(old(self)@.0, hwnd),
            r.1 == lookup(old(self)@.1, hwnd),
            final(self)@.0 == old(self)@.0.insert(hwnd, snap),
            final(self)@.1 == old(self)@.1.remove(hwnd),
    {
        let b = self.scaled.remove(hwnd);
        let a = self.full.insert(hwnd, snap);
        (a, b)
    }

    /// The pre-scaled snapshot of `hwnd` for a `w` x `h` slot: the cached
    /// copy when it has that size; otherwise a cached copy of another size
    /// is dropped (and handed back as the second result) and the capture,
    /// if any, is to be scaled.
    pub fn slot_scaled_snapshot(&mut self, hwnd: isize, w: i32, h: i32) -> (r: (ScaledLookup, Option<Snapshot>))
        ensures
            final(self)@.0 == old(self)@.0,
            w <= 0 || h <= 0 ==> r == (ScaledLookup::Nothing, None::<Snapshot>) && final(self)@ == old(self)@,
            w > 0 && h > 0 ==> match lookup(old(self)@.1, hwnd) {
                Some(c) if c.width == w && c.height == h => r == (ScaledLookup::Cached(c.bitmap), None::<Snapshot>)
                    && final(self)@ == old(self)@,
                cached => {
                    &&& r.1 == cached
                    &&& r.0 == match lookup(old(self)@.0, hwnd) {
                        Some(src) => ScaledLookup::Render(src),
                        None => ScaledLookup::Nothing,
                    }
                    &&& final(self)@.1 == old(self)@.1.remove(hwnd)
                },
            },
    {
        if w <= 0 || h <= 0 {
            return (ScaledLookup::Nothing, None);
        }
        match self.scaled.get(hwnd) {
            Some(c) => {
                if c.width == w && c.height == h {
                    return (ScaledLookup::Cached(c.bitmap), None);
                }
            },
            None => {},
        }
        let freed = self.scaled.remove(hwnd);
        let r = match self.full.get(hwnd) {
            Some(src) => ScaledLookup::Render(src),
            None => ScaledLookup::Nothing,
        };
        (r, freed)
    }

    /// Caches `snap` as `hwnd`'s pre-scaled copy, handing back the copy it
    /// replaces.
    pub fn store_scaled(&mut self, hwnd: isize, snap: Snapshot) -> (replaced: Option<Snapshot>)
        ensures
            final(self)@.0 == old(self)@.0,
            replaced == lookup(old(self)@.1, hwnd),
            final(self)@.1 == old(self)@.1.insert(hwnd, snap),
    {
        self.scaled.insert(hwnd, snap)
    }

    /// Drops the captures and pre-scaled copies of every window not in
    /// `live_windows`, handing back the dropped captures and the dropped
    /// copies; live windows' entries are untouched.
    pub fn retain_window_snapshots(&mut self, live_windows: &[isize]) -> (stale: (
        Vec<(isize, Snapshot)>,
        Vec<(isize, Snapshot)>,
    ))
        ensures
            final(self)@.0 == kept_part(old(self)@.0, live_windows@),
            final(self)@.1 == kept_part(old(self)@.1, live_windows@),
            is_stale_part(stale.0@, old(self)@.0, live_windows@),
            is_stale_part(stale.1@, old(self)@.1, live_windows@),
    {
        let a = self.full.retain(live_windows);
        let b = self.scaled.retain(live_windows);
        (a, b)
    }
}

/// After pruning, the store holds snapshots of live windows only, and a
/// live window keeps the snapshot it had.
pub proof fn lemma_retain_keeps_only_tracked(before: Map<isize, Snapshot>, live_windows: Seq<isize>, k: isize)
    ensures
        lookup(kept_part(before, live_windows), k) is Some ==> live_windows.contains(k),
        live_windows.contains(k) ==> lookup(kept_part(before, live_windows), k) == lookup(before, k),
{
}

} // verus!
