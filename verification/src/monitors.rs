//! Monitor lookups: the reference DPI, which monitor holds a point, and
//! which monitors appeared or disappeared since the last topology pass.

use vstd::prelude::*;
use crate::geometry::{lemma_mul_bounds, scaled, scaled_spec, Rect, MAX_DPI};
use crate::dock::has_path;
use crate::text::str_eq;

verus! {

/// One display: its device name, full bounds and work area (virtual-screen
/// coordinates), whether it is the primary, and its effective DPI.
#[derive(Debug)]
pub struct MonitorInfo {
    pub device_name: String,
    pub rect: Rect,
    pub work: Rect,
    pub is_primary: bool,
    pub dpi: u32,
}

/// Whether `i` is the first primary monitor.
pub open spec fn is_first_primary(ms: Seq<MonitorInfo>, i: int) -> bool {
    0 <= i < ms.len() && ms[i].is_primary && forall|j: int| 0 <= j < i ==> !ms[j].is_primary
}

/// DPI of the first primary monitor, else of the first monitor, else 96.
pub open spec fn reference_dpi_spec(ms: Seq<MonitorInfo>) -> u32 {
    if exists|i: int| is_first_primary(ms, i) {
        ms[choose|i: int| is_first_primary(ms, i)].dpi
    } else if ms.len() > 0 {
        ms[0].dpi
    } else {
        96
    }
}

/// The primary monitor's DPI (first monitor's without a primary; 96 with
/// no monitor) — used only where a value must be primary-anchored.
pub fn reference_dpi(monitors: &[MonitorInfo]) -> (r: u32)
    ensures
        r == reference_dpi_spec(monitors@),
{
    let mut i: usize = 0;
    while i < monitors.len()
        invariant
            i <= monitors@.len(),
            forall|j: int| 0 <= j < i ==> !monitors@[j].is_primary,
        decreases monitors.len() - i,
    {
        if monitors[i].is_primary {
            proof {
                assert(is_first_primary(monitors@, i as int));
                let c = choose|k: int| is_first_primary(monitors@, k);
                if c < i {
                    assert(!monitors@[c].is_primary);
                }
                if c > i {
                    assert(!monitors@[i as int].is_primary);
                }
            }
            return monitors[i].dpi;
        }
        i += 1;
    }
    proof {
        assert(!exists|k: int| is_first_primary(monitors@, k));
    }
    if monitors.len() > 0 {
        monitors[0].dpi
    } else {
        96
    }
}

/// The primary monitor (the first flagged primary, should there be
/// several), if any — after a topology change the shell re-anchors its
/// primary bar there.
pub fn primary_index(monitors: &[MonitorInfo]) -> (r: Option<usize>)
    ensures
        r matches Some(i) ==> is_first_primary(monitors@, i as int),
        r is None ==> forall|j: int| 0 <= j < monitors@.len() ==> !monitors@[j].is_primary,
{
    let mut i: usize = 0;
    while i < monitors.len()
        invariant
            i <= monitors@.len(),
            forall|j: int| 0 <= j < i ==> !monitors@[j].is_primary,
        decreases monitors.len() - i,
    {
        if monitors[i].is_primary {
            return Some(i);
        }
        i += 1;
    }
    None
}

/// Whether monitor `i` is the first whose bounds hold `(x, y)`.
pub open spec fn is_first_holding(ms: Seq<MonitorInfo>, x: int, y: int, i: int) -> bool {
    0 <= i < ms.len() && ms[i].rect.has_point(x, y) && forall|j: int| 0 <= j < i ==> !ms[j].rect.has_point(x, y)
}

/// Which monitor contains the point `(center_x, center_y)`, if any (the
/// first one, should bounds overlap).
pub fn monitor_index_for_center(monitors: &[MonitorInfo], center_x: i32, center_y: i32) -> (r: Option<usize>)
    ensures
        r matches Some(i) ==> is_first_holding(monitors@, center_x as int, center_y as int, i as int),
        r is None ==> forall|j: int|
            0 <= j < monitors@.len() ==> !monitors@[j].rect.has_point(center_x as int, center_y as int),
{
    let mut i: usize = 0;
    while i < monitors.len()
        invariant
            i <= monitors@.len(),
            forall|j: int| 0 <= j < i ==> !monitors@[j].rect.has_point(center_x as int, center_y as int),
        decreases monitors.len() - i,
    {
        if monitors[i].rect.contains(center_x, center_y) {
            return Some(i);
        }
        i += 1;
    }
    None
}

/// Whether `names` holds the characters of `name`.
fn contains_name(names: &[String], name: &str) -> (r: bool)
    ensures
        r == has_path(names@, name@),
{
    let mut i: usize = 0;
    while i < names.len()
        invariant
            i <= names@.len(),
            forall|j: int| 0 <= j < i ==> names@[j]@ != name@,
        decreases names.len() - i,
    {
        if str_eq(names[i].as_str(), name) {
            return true;
        }
        i += 1;
    }
    false
}

/// The names of `names` that `other` lacks, in order.
pub open spec fn names_missing_from(names: Seq<String>, other: Seq<String>) -> Seq<String>
    decreases names.len(),
{
    if names.len() == 0 {
        names
    } else {
        let rest = names_missing_from(names.drop_last(), other);
        if has_path(other, names.last()@) {
            rest
        } else {
            rest.push(names.last())
        }
    }
}

/// The entries of `names` not present in `other`: with the tracked and the
/// live monitor names, the disconnected monitors (one way round) and the
/// newly connected ones (the other).
pub fn missing_names(names: &[String], other: &[String]) -> (r: Vec<String>)
    ensures
        r@ == names_missing_from(names@, other@),
{
    let mut r: Vec<String> = Vec::new();
    let mut i: usize = 0;
    while i < names.len()
        invariant
            i <= names@.len(),
            r@ == names_missing_from(names@.subrange(0, i as int), other@),
        decreases names.len() - i,
    {
        assert(names@.subrange(0, i as int + 1).drop_last() =~= names@.subrange(0, i as int));
        if !contains_name(other, names[i].as_str()) {
            r.push(names[i].clone());
        }
        i += 1;
    }
    assert(names@.subrange(0, names@.len() as int) =~= names@);
    r
}

/// Nothing reported missing is present in `other`, and everything in
/// `names` but not in `other` is reported.
pub proof fn lemma_missing_names_exact(names: Seq<String>, other: Seq<String>, n: String)
    ensures
        (exists|i: int| 0 <= i < names_missing_from(names, other).len() && names_missing_from(names, other)[i]
            == n) <==> (exists|j: int| 0 <= j < names.len() && names[j] == n) && !has_path(other, n@),
    decreases names.len(),
{
    if names.len() > 0 {
        lemma_missing_names_exact(names.drop_last(), other, n);
        let rest = names_missing_from(names.drop_last(), other);
        let m = names_missing_from(names, other);
        if exists|j: int| 0 <= j < names.len() && names[j] == n {
            let j = choose|j: int| 0 <= j < names.len() && names[j] == n;
            if j < names.len() - 1 {
                assert(names.drop_last()[j] == n);
            }
        }
        if exists|i: int| 0 <= i < m.len() && m[i] == n {
            let i = choose|i: int| 0 <= i < m.len() && m[i] == n;
            if i < rest.len() {
                assert(rest[i] == n);
                let j = choose|j: int| 0 <= j < names.drop_last().len() && names.drop_last()[j] == n;
                assert(names[j] == n);
            } else {
                assert(names[names.len() - 1] == n);
            }
        }
        if (exists|j: int| 0 <= j < names.len() && names[j] == n) && !has_path(other, n@) {
            let j = choose|j: int| 0 <= j < names.len() && names[j] == n;
            if j < names.len() - 1 {
                assert(names.drop_last()[j] == n);
                let i = choose|i: int| 0 <= i < rest.len() && rest[i] == n;
                assert(m[i] == n);
            } else {
                assert(m[m.len() - 1] == n);
            }
        }
    }
}

/// The work area the shell gives a monitor's apps once the taskbar is
/// hidden: the whole monitor below the bar, at the bar's configured height
/// (96-DPI pixels, scaled to the monitor's DPI).
pub fn claimed_work_area(monitor: Rect, bar_height: i32, dpi: u32) -> (r: Rect)
    requires
        0 <= bar_height <= 1000,
        dpi <= MAX_DPI,
        -1_000_000_000 <= monitor.top <= 1_000_000_000,
    ensures
        r == (Rect {
            left: monitor.left,
            top: (monitor.top + scaled_spec(bar_height as int, dpi as int)) as i32,
            right: monitor.right,
            bottom: monitor.bottom,
        }),
{
    proof {
        lemma_mul_bounds(bar_height as int, dpi as int, 1000, 9600);
        crate::geometry::lemma_scaled_bounds(bar_height as int, dpi as int);
    }
    Rect { left: monitor.left, top: monitor.top + scaled(bar_height, dpi), right: monitor.right, bottom: monitor.bottom }
}

/// Whether `order` lists every index of `ms` once, by left edge, monitors
/// with equal left edges keeping the order they were given.
pub open spec fn sorted_by_left(ms: Seq<MonitorInfo>, order: Seq<usize>) -> bool {
    &&& order.len() == ms.len()
    &&& order.no_duplicates()
    &&& forall|k: int| 0 <= k < order.len() ==> #[trigger] order[k] < ms.len()
    &&& forall|k1: int, k2: int|
        0 <= k1 < k2 < order.len() ==> ms[order[k1] as int].rect.left <= ms[order[k2] as int].rect.left
    &&& forall|k1: int, k2: int|
        0 <= k1 < k2 < order.len() && ms[order[k1] as int].rect.left == ms[order[k2] as int].rect.left
            ==> order[k1] < order[k2]
}

/// A copy of a monitor description.
fn copy_monitor(m: &MonitorInfo) -> (r: MonitorInfo)
    ensures
        r == *m,
{
    MonitorInfo {
        device_name: m.device_name.clone(),
        rect: m.rect,
        work: m.work,
        is_primary: m.is_primary,
        dpi: m.dpi,
    }
}

/// The monitors left to right (a stable sort by left edge), the order the
/// shell lays out per-monitor state in.
pub fn monitors_sorted_by_x(monitors: &[MonitorInfo]) -> (r: Vec<MonitorInfo>)
    ensures
        exists|order: Seq<usize>|
            #[trigger] sorted_by_left(monitors@, order) && r@ == Seq::new(
                order.len(),
                |k: int| monitors@[order[k] as int],
            ),
{
    let n = monitors.len();
    let mut order: Vec<usize> = Vec::new();
    let mut i: usize = 0;
    while i < n
        invariant
            n == monitors@.len(),
            i <= n,
            order@.len() == i,
            order@.no_duplicates(),
            forall|k: int| 0 <= k < order@.len() ==> #[trigger] order@[k] < i,
            forall|k1: int, k2: int|
                0 <= k1 < k2 < order@.len() ==> monitors@[order@[k1] as int].rect.left
                    <= monitors@[order@[k2] as int].rect.left,
            forall|k1: int, k2: int|
                0 <= k1 < k2 < order@.len() && monitors@[order@[k1] as int].rect.left
                    == monitors@[order@[k2] as int].rect.left ==> order@[k1] < order@[k2],
        decreases n - i,
    {
        let key = monitors[i].rect.left;
        let mut j: usize = order.len();
        while j > 0 && monitors[order[j - 1]].rect.left > key
            invariant
                n == monitors@.len(),
                i < n,
                key == monitors@[i as int].rect.left,
                j <= order@.len(),
                order@.len() == i,
                forall|k: int| 0 <= k < order@.len() ==> #[trigger] order@[k] < i,
                forall|k: int| j <= k < order@.len() ==> monitors@[#[trigger] order@[k] as int].rect.left > key,
            decreases j,
        {
            j -= 1;
        }
        let ghost before = order@;
        order.insert(j, i);
        proof {
            let after = order@;
            assert(after == before.insert(j as int, i));
            assert forall|k: int| 0 <= k < after.len() implies #[trigger] after[k] < i + 1 by {
                if k < j {
                    assert(after[k] == before[k]);
                } else if k > j {
                    assert(after[k] == before[k - 1]);
                }
            }
            assert forall|a: int, b: int| 0 <= a < b < after.len() implies after[a] != after[b] by {
                if a < j && b > j {
                    assert(after[b] == before[b - 1]);
                } else if a > j {
                    assert(after[a] == before[a - 1]);
                    assert(after[b] == before[b - 1]);
                }
            }
            assert forall|k1: int, k2: int| 0 <= k1 < k2 < after.len() implies monitors@[after[k1] as int].rect.left
                <= monitors@[after[k2] as int].rect.left by {
                if k1 < j && k2 == j {
                    if j > 0 {
                        assert(monitors@[before[j - 1] as int].rect.left <= key);
                        if k1 < j - 1 {
                            assert(monitors@[before[k1] as int].rect.left <= monitors@[before[j - 1] as int].rect.left);
                        }
                    }
                } else if k1 < j && k2 > j {
                    assert(after[k2] == before[k2 - 1]);
                } else if k1 == j {
                    assert(after[k2] == before[k2 - 1]);
                } else if k1 > j {
                    assert(after[k1] == before[k1 - 1]);
                    assert(after[k2] == before[k2 - 1]);
                }
            }
            assert forall|k1: int, k2: int|
                0 <= k1 < k2 < after.len() && monitors@[after[k1] as int].rect.left
                    == monitors@[after[k2] as int].rect.left implies after[k1] < after[k2] by {
                if k1 < j && k2 == j {
                    assert(before[k1] < i);
                } else if k1 < j && k2 > j {
                    assert(after[k2] == before[k2 - 1]);
                } else if k1 == j {
                    assert(after[k2] == before[k2 - 1]);
                } else if k1 > j {
                    assert(after[k1] == before[k1 - 1]);
                    assert(after[k2] == before[k2 - 1]);
                }
            }
        }
        i += 1;
    }
    let mut r: Vec<MonitorInfo> = Vec::new();
    let mut k: usize = 0;
    while k < order.len()
        invariant
            n == monitors@.len(),
            order@.len() == n,
            forall|m: int| 0 <= m < order@.len() ==> #[trigger] order@[m] < n,
            k <= order@.len(),
            r@ == Seq::new(k as nat, |m: int| monitors@[order@[m] as int]),
        decreases order.len() - k,
    {
        let m = copy_monitor(&monitors[order[k]]);
        r.push(m);
        assert(r@ =~= Seq::new((k + 1) as nat, |m: int| monitors@[order@[m] as int]));
        k += 1;
    }
    proof {
        assert(sorted_by_left(monitors@, order@));
    }
    r
}

} // verus!
