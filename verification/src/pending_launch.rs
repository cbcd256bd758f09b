//! Launches started by dragging a dock icon onto a workspace card, waiting
//! for their first window so it can be assigned to that workspace; each
//! entry expires after a timeout. Times are milliseconds on the caller's
//! monotonic clock.

use vstd::prelude::*;

verus! {

/// A launch still waiting to be matched to its first window.
#[derive(Debug)]
pub struct PendingLaunch {
    pub process_id: u32,
    pub monitor: String,
    pub workspace_index: usize,
    pub expires_at_ms: u64,
}

/// How long a pending launch is kept before being given up on.
pub const PENDING_LAUNCH_TIMEOUT_MS: u64 = 15_000;

/// The entries of `s` that have not expired at `now`, in order.
pub open spec fn unexpired(s: Seq<PendingLaunch>, now: u64) -> Seq<PendingLaunch>
    decreases s.len(),
{
    if s.len() == 0 {
        s
    } else {
        let rest = unexpired(s.drop_last(), now);
        if s.last().expires_at_ms > now {
            rest.push(s.last())
        } else {
            rest
        }
    }
}

/// Whether some entry is for process `pid`.
pub open spec fn has_pid(s: Seq<PendingLaunch>, pid: u32) -> bool {
    exists|i: int| 0 <= i < s.len() && s[i].process_id == pid
}

/// The index of the first entry for `pid`.
pub open spec fn first_pid_index(s: Seq<PendingLaunch>, pid: u32) -> int {
    choose|i: int| 0 <= i < s.len() && s[i].process_id == pid && forall|j: int| 0 <= j < i ==> s[j].process_id != pid
}

/// Drops every entry expired at `now`, then finds and removes the first
/// entry for `pid`, returning its target `(monitor, workspace_index)`.
pub fn take_match_at(pending: &mut Vec<PendingLaunch>, pid: u32, now: u64) -> (r: Option<(String, usize)>)
    ensures
        ({
            let live = unexpired(old(pending)@, now);
            &&& has_pid(live, pid) ==> {
                let i = first_pid_index(live, pid);
                &&& r matches Some(t) && t.0@ == live[i].monitor@ && t.1 == live[i].workspace_index
                &&& final(pending)@ == live.remove(i)
            }
            &&& !has_pid(live, pid) ==> r is None && final(pending)@ == live
        }),
{
    let ghost orig = pending@;
    let mut rest: Vec<PendingLaunch> = Vec::new();
    std::mem::swap(&mut rest, pending);
    let n: usize = rest.len();
    let mut kept: Vec<PendingLaunch> = Vec::new();
    let mut i: usize = 0;
    while rest.len() > 0
        invariant
            rest@ == orig.subrange(i as int, n as int),
            i <= n,
            rest@.len() == n - i,
            n == orig.len(),
            kept@ == unexpired(orig.subrange(0, i as int), now),
            orig == old(pending)@,
        decreases rest@.len(),
    {
        let p = rest.remove(0);
        proof {
            assert(orig.subrange(0, i as int + 1).drop_last() =~= orig.subrange(0, i as int));
            assert(orig.subrange(i as int + 1, n as int) =~= orig.subrange(i as int, n as int).remove(0));
        }
        if p.expires_at_ms > now {
            kept.push(p);
        }
        i += 1;
    }
    assert(orig.subrange(0, n as int) =~= orig);
    let ghost live = kept@;
    let mut j: usize = 0;
    while j < kept.len()
        invariant
            kept@ == live,
            live == unexpired(orig, now),
            orig == old(pending)@,
            j <= live.len(),
            forall|k: int| 0 <= k < j ==> live[k].process_id != pid,
        decreases kept.len() - j,
    {
        if kept[j].process_id == pid {
            proof {
                let jj = j as int;
                assert(0 <= jj < live.len() && live[jj].process_id == pid && forall|k: int|
                    0 <= k < jj ==> live[k].process_id != pid);
                let c = first_pid_index(live, pid);
                assert(0 <= c < live.len() && live[c].process_id == pid && forall|k: int|
                    0 <= k < c ==> live[k].process_id != pid);
                assert(live[j as int].process_id == pid);
                if c < j {
                    assert(live[c].process_id != pid);
                }
                if c > j {
                    assert(live[j as int].process_id != pid);
                }
                assert(c == j);
            }
            let found = kept.remove(j);
            *pending = kept;
            return Some((found.monitor, found.workspace_index));
        }
        j += 1;
    }
    *pending = kept;
    None
}

/// The pending launches the shell is watching for.
pub struct PendingLaunches {
    entries: Vec<PendingLaunch>,
}

impl View for PendingLaunches {
    type V = Seq<PendingLaunch>;

    closed spec fn view(&self) -> Seq<PendingLaunch> {
        self.entries@
    }
}

impl PendingLaunches {
    pub fn new() -> (r: Self)
        ensures
            r@ == Seq::<PendingLaunch>::empty(),
    {
        PendingLaunches { entries: Vec::new() }
    }

    /// Registers a newly launched process to watch for.
    pub fn register(&mut self, pending: PendingLaunch)
        ensures
            final(self)@ == old(self)@.push(pending),
    {
        self.entries.push(pending);
    }

    /// Checks for a launch matching `pid` at time `now` (see
    /// [`take_match_at`]), dropping expired entries in the same pass.
    pub fn take_match(&mut self, pid: u32, now: u64) -> (r: Option<(String, usize)>)
        ensures
            ({
                let live = unexpired(old(self)@, now);
                &&& has_pid(live, pid) ==> {
                    let i = first_pid_index(live, pid);
                    &&& r matches Some(t) && t.0@ == live[i].monitor@ && t.1 == live[i].workspace_index
                    &&& final(self)@ == live.remove(i)
                }
                &&& !has_pid(live, pid) ==> r is None && final(self)@ == live
            }),
    {
        take_match_at(&mut self.entries, pid, now)
    }

    /// How many launches are still waited for.
    pub fn len(&self) -> (n: usize)
        ensures
            n == self@.len(),
    {
        self.entries.len()
    }
}

/// Every surviving entry is unexpired and came from the input, in order,
/// so an expired launch can never be matched.
pub proof fn lemma_unexpired_entries_are_live(s: Seq<PendingLaunch>, now: u64)
    ensures
        forall|i: int| 0 <= i < unexpired(s, now).len() ==> #[trigger] unexpired(s, now)[i].expires_at_ms > now,
        unexpired(s, now).len() <= s.len(),
    decreases s.len(),
{
    if s.len() > 0 {
        lemma_unexpired_entries_are_live(s.drop_last(), now);
    }
}

} // verus!
