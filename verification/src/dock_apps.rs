//! The dock's contents: pinned shortcuts first (capped at
//! `DOCK_MAX_APPS`), each with the running windows whose executable
//! matches the shortcut's target, then one entry per remaining running
//! executable, windows grouped by executable. Executable names are
//! compared by their lowercase forms (std's `to_lowercase`).

use vstd::prelude::*;
use crate::dock::{DockEntry, DOCK_MAX_APPS};
use crate::text::{lowercase_of, str_eq, to_lowercase};

verus! {

/// A pinned shortcut and the file name of its resolved target.
#[derive(Debug)]
pub struct PinSource {
    pub path: String,
    pub target_exe: Option<String>,
}

/// A tracked window and its executable name.
#[derive(Debug)]
pub struct LiveWindow {
    pub hwnd: isize,
    pub exe: Option<String>,
}

/// Whether window `w` runs the executable `target` names, ignoring case.
pub open spec fn window_matches(target: Option<String>, w: LiveWindow) -> bool {
    target is Some && w.exe is Some && lowercase_of(target->0@) == lowercase_of(w.exe->0@)
}

/// Whether one of the first `k` pins already claimed window `w`.
pub open spec fn claimed_by(pins: Seq<PinSource>, k: int, w: LiveWindow) -> bool {
    exists|j: int| 0 <= j < k && window_matches(pins[j].target_exe, w)
}

/// How many pins get an entry.
pub open spec fn pinned_entries(pins: Seq<PinSource>) -> int {
    if pins.len() < DOCK_MAX_APPS { pins.len() as int } else { DOCK_MAX_APPS as int }
}

/// The windows of pin `k` among the first `n` live windows: those running
/// its target that no earlier pin claimed.
pub open spec fn pin_hwnds(pins: Seq<PinSource>, live: Seq<LiveWindow>, k: int, n: int) -> Seq<isize>
    decreases n,
{
    if n <= 0 {
        Seq::empty()
    } else {
        let rest = pin_hwnds(pins, live, k, n - 1);
        let w = live[n - 1];
        if window_matches(pins[k].target_exe, w) && !claimed_by(pins, k, w) { rest.push(w.hwnd) } else { rest }
    }
}

/// The distinct (lowercased) executables of the first `n` live windows left
/// unclaimed by the first `p` pins, in order of first appearance.
pub open spec fn running_exes(pins: Seq<PinSource>, live: Seq<LiveWindow>, p: int, n: int) -> Seq<Seq<char>>
    decreases n,
{
    if n <= 0 {
        Seq::empty()
    } else {
        let rest = running_exes(pins, live, p, n - 1);
        let w = live[n - 1];
        if !claimed_by(pins, p, w) && w.exe is Some && !rest.contains(lowercase_of(w.exe->0@)) {
            rest.push(lowercase_of(w.exe->0@))
        } else {
            rest
        }
    }
}

/// The unclaimed windows among the first `n` whose lowercased executable is
/// `exe`.
pub open spec fn exe_hwnds(pins: Seq<PinSource>, live: Seq<LiveWindow>, p: int, exe: Seq<char>, n: int) -> Seq<isize>
    decreases n,
{
    if n <= 0 {
        Seq::empty()
    } else {
        let rest = exe_hwnds(pins, live, p, exe, n - 1);
        let w = live[n - 1];
        if !claimed_by(pins, p, w) && w.exe is Some && lowercase_of(w.exe->0@) == exe {
            rest.push(w.hwnd)
        } else {
            rest
        }
    }
}

/// How many running-but-unpinned entries fit after the pinned ones.
pub open spec fn running_entries(pins: Seq<PinSource>, live: Seq<LiveWindow>) -> int {
    let p = pinned_entries(pins);
    let r = running_exes(pins, live, p, live.len() as int).len() as int;
    if r < DOCK_MAX_APPS - p { r } else { DOCK_MAX_APPS - p }
}

/// An earlier prefix's running executables are a prefix of a later one's.
pub proof fn lemma_running_exes_prefix(pins: Seq<PinSource>, live: Seq<LiveWindow>, p: int, i: int, n: int)
    requires
        0 <= i <= n <= live.len(),
    ensures
        running_exes(pins, live, p, i).len() <= running_exes(pins, live, p, n).len(),
        forall|m: int|
            0 <= m < running_exes(pins, live, p, i).len() ==> running_exes(pins, live, p, n)[m]
                == running_exes(pins, live, p, i)[m],
    decreases n - i,
{
    if i < n {
        lemma_running_exes_prefix(pins, live, p, i, n - 1);
    }
}

/// Whether two optional executable names are the same.
fn same_exe(a: &Option<String>, b: &Option<String>) -> (r: bool)
    ensures
        r == (a is Some && b is Some && a->0@ == b->0@),
{
    match (a, b) {
        (Some(x), Some(y)) => str_eq(x.as_str(), y.as_str()),
        _ => false,
    }
}

/// `l` is the lowercase form of the optional name `e`.
pub open spec fn lowered(l: Option<String>, e: Option<String>) -> bool {
    (l is Some <==> e is Some) && (l is Some ==> l->0@ == lowercase_of(e->0@))
}

/// The lowercase form of an optional executable name.
fn lower_exe(e: &Option<String>) -> (r: Option<String>)
    ensures
        lowered(r, *e),
{
    match e {
        Some(x) => Some(to_lowercase(x.as_str())),
        None => None,
    }
}

/// The characters of each string.
pub open spec fn views(s: Seq<String>) -> Seq<Seq<char>> {
    s.map_values(|x: String| x@)
}

/// Whether `seen` holds the characters of `exe`.
fn seen_contains(seen: &Vec<String>, exe: &String) -> (r: bool)
    ensures
        r == views(seen@).contains(exe@),
{
    let mut i: usize = 0;
    while i < seen.len()
        invariant
            i <= seen@.len(),
            forall|j: int| 0 <= j < i ==> seen@[j]@ != exe@,
        decreases seen.len() - i,
    {
        if str_eq(seen[i].as_str(), exe.as_str()) {
            assert(views(seen@)[i as int] == exe@);
            return true;
        }
        i += 1;
    }
    proof {
        if views(seen@).contains(exe@) {
            let j = choose|j: int| 0 <= j < seen@.len() && #[trigger] views(seen@)[j] == exe@;
            assert(seen@[j]@ != exe@);
        }
    }
    false
}

/// Builds the dock's entries from the pinned list and the tracked windows.
pub fn build_dock_apps(pins: &[PinSource], live: &[LiveWindow]) -> (apps: Vec<DockEntry>)
    ensures
        apps@.len() == pinned_entries(pins@) + running_entries(pins@, live@),
        forall|k: int|
            0 <= k < pinned_entries(pins@) ==> #[trigger] apps@[k].launch_path == Some(pins@[k].path)
                && apps@[k].windows@ == pin_hwnds(pins@, live@, k, live@.len() as int),
        forall|m: int|
            0 <= m < running_entries(pins@, live@) ==> {
                let e = #[trigger] apps@[pinned_entries(pins@) + m];
                let p = pinned_entries(pins@);
                &&& e.launch_path is None
                &&& e.windows@ == exe_hwnds(
                    pins@,
                    live@,
                    p,
                    running_exes(pins@, live@, p, live@.len() as int)[m],
                    live@.len() as int,
                )
            },
{
    let n = live.len();
    let mut apps: Vec<DockEntry> = Vec::new();
    let mut claimed: Vec<bool> = Vec::new();
    let mut c: usize = 0;
    while c < n
        invariant
            c <= n,
            n == live@.len(),
            claimed@.len() == c,
            forall|i: int| 0 <= i < c ==> !claimed@[i],
        decreases n - c,
    {
        claimed.push(false);
        c += 1;
    }
    let mut lt: Vec<Option<String>> = Vec::new();
    let mut t: usize = 0;
    while t < pins.len()
        invariant
            t <= pins@.len(),
            lt@.len() == t,
            forall|j: int| 0 <= j < t ==> lowered(#[trigger] lt@[j], pins@[j].target_exe),
        decreases pins.len() - t,
    {
        lt.push(lower_exe(&pins[t].target_exe));
        t += 1;
    }
    let mut ll: Vec<Option<String>> = Vec::new();
    let mut t: usize = 0;
    while t < n
        invariant
            t <= n,
            n == live@.len(),
            ll@.len() == t,
            forall|j: int| 0 <= j < t ==> lowered(#[trigger] ll@[j], live@[j].exe),
        decreases n - t,
    {
        ll.push(lower_exe(&live[t].exe));
        t += 1;
    }
    let mut k: usize = 0;
    while k < pins.len() && apps.len() < DOCK_MAX_APPS
        invariant
            k <= pins@.len(),
            n == live@.len(),
            lt@.len() == pins@.len(),
            ll@.len() == n,
            forall|j: int| 0 <= j < pins@.len() ==> lowered(#[trigger] lt@[j], pins@[j].target_exe),
            forall|j: int| 0 <= j < n ==> lowered(#[trigger] ll@[j], live@[j].exe),
            apps@.len() == k,
            k <= DOCK_MAX_APPS,
            claimed@.len() == n,
            forall|i: int| 0 <= i < n ==> claimed@[i] == claimed_by(pins@, k as int, live@[i]),
            forall|q: int|
                0 <= q < k ==> #[trigger] apps@[q].launch_path == Some(pins@[q].path)
                    && apps@[q].windows@ == pin_hwnds(pins@, live@, q, n as int),
        decreases pins.len() - k,
    {
        let mut windows: Vec<isize> = Vec::new();
        let mut i: usize = 0;
        while i < n
            invariant
                i <= n,
                n == live@.len(),
                k < pins@.len(),
                lt@.len() == pins@.len(),
                ll@.len() == n,
                forall|j: int| 0 <= j < pins@.len() ==> lowered(#[trigger] lt@[j], pins@[j].target_exe),
                forall|j: int| 0 <= j < n ==> lowered(#[trigger] ll@[j], live@[j].exe),
                claimed@.len() == n,
                forall|j: int| 0 <= j < i ==> claimed@[j] == claimed_by(pins@, k as int + 1, live@[j]),
                forall|j: int| i <= j < n ==> claimed@[j] == claimed_by(pins@, k as int, live@[j]),
                windows@ == pin_hwnds(pins@, live@, k as int, i as int),
            decreases n - i,
        {
            let m = same_exe(&lt[k], &ll[i]);
            proof {
                let w = live@[i as int];
                assert(lowered(lt@[k as int], pins@[k as int].target_exe));
                assert(lowered(ll@[i as int], w.exe));
                assert(m == window_matches(pins@[k as int].target_exe, w));
                assert(claimed_by(pins@, k as int + 1, w) == (claimed_by(pins@, k as int, w) || window_matches(
                    pins@[k as int].target_exe,
                    w,
                ))) by {
                    if window_matches(pins@[k as int].target_exe, w) {
                        assert(0 <= k < k + 1);
                    }
                    if claimed_by(pins@, k as int + 1, w) && !window_matches(pins@[k as int].target_exe, w) {
                        let j = choose|j: int| 0 <= j < k + 1 && window_matches(pins@[j].target_exe, w);
                        assert(j < k);
                    }
                }
            }
            if m && !claimed[i] {
                claimed.set(i, true);
                windows.push(live[i].hwnd);
            } else if m {
                claimed.set(i, true);
            }
            i += 1;
        }
        let path = pins[k].path.clone();
        apps.push(DockEntry { launch_path: Some(path), windows });
        proof {
            assert forall|q: int| 0 <= q < k + 1 implies #[trigger] apps@[q].launch_path == Some(pins@[q].path)
                && apps@[q].windows@ == pin_hwnds(pins@, live@, q, n as int) by {
                if q < k {
                } else {
                }
            }
        }
        k += 1;
    }
    let p: usize = k;
    assert(p == pinned_entries(pins@));
    let ghost pv = pins@;
    let ghost lv = live@;
    let mut seen: Vec<String> = Vec::new();
    let mut i: usize = 0;
    while i < n && apps.len() < DOCK_MAX_APPS
        invariant
            i <= n,
            n == lv.len(),
            pv == pins@,
            lv == live@,
            ll@.len() == n,
            forall|j: int| 0 <= j < n ==> lowered(#[trigger] ll@[j], lv[j].exe),
            p == pinned_entries(pv),
            claimed@.len() == n,
            forall|j: int| 0 <= j < n ==> claimed@[j] == claimed_by(pv, p as int, lv[j]),
            apps@.len() == p + seen@.len(),
            apps@.len() <= DOCK_MAX_APPS,
            views(seen@) == running_exes(pv, lv, p as int, i as int),
            forall|q: int|
                0 <= q < p ==> #[trigger] apps@[q].launch_path == Some(pv[q].path) && apps@[q].windows@
                    == pin_hwnds(pv, lv, q, n as int),
            forall|m: int|
                0 <= m < seen@.len() ==> {
                    let e = #[trigger] apps@[p + m];
                    &&& e.launch_path is None
                    &&& e.windows@ == exe_hwnds(pv, lv, p as int, seen@[m]@, n as int)
                },
        decreases n - i,
    {
        let ghost before_seen = views(seen@);
        if !claimed[i] {
            proof {
                assert(lowered(ll@[i as int], lv[i as int].exe));
            }
            match &ll[i] {
                Some(exe) => {
                    if !seen_contains(&seen, exe) {
                        let mut windows: Vec<isize> = Vec::new();
                        let mut j: usize = 0;
                        while j < n
                            invariant
                                j <= n,
                                n == lv.len(),
                                lv == live@,
                                ll@.len() == n,
                                forall|t: int| 0 <= t < n ==> lowered(#[trigger] ll@[t], lv[t].exe),
                                claimed@.len() == n,
                                forall|t: int| 0 <= t < n ==> claimed@[t] == claimed_by(pv, p as int, lv[t]),
                                windows@ == exe_hwnds(pv, lv, p as int, exe@, j as int),
                            decreases n - j,
                        {
                            if !claimed[j] {
                                proof {
                                    assert(lowered(ll@[j as int], lv[j as int].exe));
                                }
                                let same = match &ll[j] {
                                    Some(x) => str_eq(x.as_str(), exe.as_str()),
                                    None => false,
                                };
                                if same {
                                    windows.push(live[j].hwnd);
                                }
                            }
                            j += 1;
                        }
                        let ghost old_seen = seen@;
                        let ghost old_apps = apps@;
                        seen.push(exe.clone());
                        apps.push(DockEntry { launch_path: None, windows });
                        proof {
                            assert(views(seen@) =~= before_seen.push(exe@));
                            assert forall|m: int| 0 <= m < seen@.len() implies {
                                let e = #[trigger] apps@[p + m];
                                &&& e.launch_path is None
                                &&& e.windows@ == exe_hwnds(pv, lv, p as int, seen@[m]@, n as int)
                            } by {
                                if m < old_seen.len() {
                                    assert(apps@[p + m] == old_apps[p + m]);
                                    assert(seen@[m] == old_seen[m]);
                                }
                            }
                            assert forall|q: int| 0 <= q < p implies #[trigger] apps@[q].launch_path == Some(
                                pv[q].path,
                            ) && apps@[q].windows@ == pin_hwnds(pv, lv, q, n as int) by {
                                assert(apps@[q] == old_apps[q]);
                            }
                        }
                    }
                },
                None => {},
            }
        }
        i += 1;
    }
    proof {
        let total = running_exes(pv, lv, p as int, n as int);
        let cur = running_exes(pv, lv, p as int, i as int);
        lemma_running_exes_prefix(pv, lv, p as int, i as int, n as int);
        assert(cur.len() == seen@.len()) by {
            assert(views(seen@).len() == seen@.len());
        }
        if i < n {
            assert(apps@.len() >= DOCK_MAX_APPS);
        }
        assert forall|m: int| 0 <= m < running_entries(pv, lv) implies {
            let e = #[trigger] apps@[pinned_entries(pv) + m];
            &&& e.launch_path is None
            &&& e.windows@ == exe_hwnds(pv, lv, p as int, total[m], n as int)
        } by {
            assert(views(seen@)[m] == seen@[m]@);
            assert(total[m] == cur[m]);
        }
    }
    apps
}

} // verus!
