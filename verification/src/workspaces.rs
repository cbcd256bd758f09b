//! Workspace switching mechanics: parking a window far below the screen
//! while its workspace is not current (and bringing it back), and the
//! short cooldown during which focus changes do not drag the view to
//! another workspace, and where each live window belongs when the
//! workspace model is re-synced against the desktop. Times in milliseconds.

use vstd::prelude::*;
use crate::geometry::Rect;
use crate::pending_launch::{first_pid_index, has_pid, unexpired, PendingLaunches};
use crate::text::str_eq;

verus! {

/// How far below its real position a parked window is moved.
pub const WORKSPACE_PARK_DY: i32 = 20000;

/// What parking a window does.
#[derive(Clone, Copy, Debug, PartialEq, Eq, Structural)]
pub enum ParkAction {
    /// A minimized window is hidden instead (it has no pixels to keep).
    Hide,
    /// Already parked, or its rect cannot be read: leave it.
    Skip,
    /// Move the window's top edge here (same left edge and size).
    MoveTo(i32),
}

/// What [`park_window`] decides.
pub open spec fn park_spec(is_iconic: bool, top: Option<i32>) -> ParkAction {
    if is_iconic {
        ParkAction::Hide
    } else {
        match top {
            None => ParkAction::Skip,
            Some(t) => if t >= WORKSPACE_PARK_DY / 2 {
                ParkAction::Skip
            } else {
                ParkAction::MoveTo((t + WORKSPACE_PARK_DY) as i32)
            },
        }
    }
}

/// Parking: minimized windows are hidden; a window whose top is already
/// in the parked band (at or below half the park distance) is left alone,
/// so parking is idempotent; any other window moves down by the park distance.
pub fn park_window(is_iconic: bool, top: Option<i32>) -> (r: ParkAction)
    ensures
        r == park_spec(is_iconic, top),
{
    if is_iconic {
        return ParkAction::Hide;
    }
    match top {
        None => ParkAction::Skip,
        Some(t) => if t >= WORKSPACE_PARK_DY / 2 {
            ParkAction::Skip
        } else {
            ParkAction::MoveTo(t + WORKSPACE_PARK_DY)
        },
    }
}

/// What unparking a window does.
#[derive(Clone, Copy, Debug, PartialEq, Eq, Structural)]
pub enum UnparkAction {
    /// Make sure it is shown (minimized, or it was never parked).
    Show,
    /// Move the window's top edge back here.
    MoveTo(i32),
}

/// What [`unpark_window`] decides.
pub open spec fn unpark_spec(is_iconic: bool, top: Option<i32>) -> UnparkAction {
    if is_iconic {
        UnparkAction::Show
    } else {
        match top {
            None => UnparkAction::Show,
            Some(t) => if t < WORKSPACE_PARK_DY / 2 {
                UnparkAction::Show
            } else {
                UnparkAction::MoveTo((t - WORKSPACE_PARK_DY) as i32)
            },
        }
    }
}

/// Unparking: minimized or not-parked windows are just shown; a parked
/// window moves back up by the park distance.
pub fn unpark_window(is_iconic: bool, top: Option<i32>) -> (r: UnparkAction)
    ensures
        r == unpark_spec(is_iconic, top),
{
    if is_iconic {
        return UnparkAction::Show;
    }
    match top {
        None => UnparkAction::Show,
        Some(t) => if t < WORKSPACE_PARK_DY / 2 {
            UnparkAction::Show
        } else {
            UnparkAction::MoveTo(t - WORKSPACE_PARK_DY)
        },
    }
}

/// For a window whose top edge lies within half a park distance of the
/// origin: parking moves it down by the park distance, parking it again
/// leaves it alone, and unparking brings it back exactly where it was.
pub proof fn lemma_park_round_trip(t: i32)
    requires
        -(WORKSPACE_PARK_DY / 2) <= t < WORKSPACE_PARK_DY / 2,
    ensures
        park_spec(false, Some(t)) == ParkAction::MoveTo((t + WORKSPACE_PARK_DY) as i32),
        park_spec(false, Some((t + WORKSPACE_PARK_DY) as i32)) == ParkAction::Skip,
        unpark_spec(false, Some((t + WORKSPACE_PARK_DY) as i32)) == UnparkAction::MoveTo(t),
        unpark_spec(false, Some(t)) == UnparkAction::Show,
{
}

/// The cooldown during which a foreground change does not switch workspaces.
#[derive(Clone, Copy, Debug, PartialEq, Eq, Structural)]
pub struct FollowSuppression {
    pub until_ms: Option<u64>,
}

impl FollowSuppression {
    pub fn new() -> (r: Self)
        ensures
            r.until_ms is None,
    {
        FollowSuppression { until_ms: None }
    }

    /// Suppresses following focus for `duration_ms` from `now`.
    pub fn suppress_foreground_follow(&mut self, now: u64, duration_ms: u64)
        requires
            now + duration_ms <= u64::MAX,
        ensures
            final(self).until_ms == Some((now + duration_ms) as u64),
    {
        self.until_ms = Some(now + duration_ms);
    }

    /// Whether following is suppressed at `now`.
    pub fn is_suppressed(&self, now: u64) -> (r: bool)
        ensures
            r == suppressed_at(*self, now),
    {
        match self.until_ms {
            Some(u) => now < u,
            None => false,
        }
    }
}

/// Whether following is suppressed at `t`: before the cooldown's end.
pub open spec fn suppressed_at(s: FollowSuppression, t: u64) -> bool {
    s.until_ms matches Some(u) && t < u
}

/// A fresh cooldown never suppresses; once suppressed at `now` for
/// `duration`, following stays suppressed exactly until `now + duration`.
pub proof fn lemma_suppression_window(now: u64, duration: u64)
    requires
        now + duration <= u64::MAX,
    ensures
        forall|t: u64| !suppressed_at(FollowSuppression { until_ms: None }, t),
        forall|t: u64|
            #![trigger suppressed_at(FollowSuppression { until_ms: Some((now + duration) as u64) }, t)]
            suppressed_at(FollowSuppression { until_ms: Some((now + duration) as u64) }, t) <==> t < now + duration,
{
}

/// A window of another process became foreground: follow it to its
/// workspace (`index`) unless suppressed or it is already current.
pub fn follow_target(suppressed: bool, index: Option<usize>, current: usize) -> (r: Option<usize>)
    ensures
        suppressed ==> r is None,
        !suppressed ==> r == (match index {
            Some(i) => if i != current { Some(i) } else { None },
            None => None,
        }),
{
    if suppressed {
        return None;
    }
    match index {
        Some(i) => if i != current { Some(i) } else { None },
        None => None,
    }
}

/// Where a live window goes when the workspace model is re-synced.
#[derive(Debug, PartialEq, Eq)]
pub enum SyncPlacement {
    /// Already assigned on the monitor it is on (or its monitor is unknown).
    Keep,
    /// Dragged onto another monitor since the last sync: forget it on
    /// `from`, assign it to `to`'s current workspace, and first shift its
    /// owned windows (dialogs) by `shift` when the window itself moved.
    MoveMonitor { from: String, to: String, shift: Option<(i32, i32)> },
    /// The first window of a drag-to-launch: assign it to the workspace it
    /// was dropped on.
    AssignLaunch { monitor: String, index: usize },
    /// Any other new window: assign it to this monitor's current workspace.
    AssignCurrent { monitor: String },
}

/// How far a window moved since the last sync, when it moved at all.
pub open spec fn shift_since(previous: Option<Rect>, rect: Rect) -> Option<(i32, i32)> {
    match previous {
        Some(p) => if rect.left - p.left != 0 || rect.top - p.top != 0 {
            Some(((rect.left - p.left) as i32, (rect.top - p.top) as i32))
        } else {
            None
        },
        None => None,
    }
}

/// Window coordinates small enough for the shift arithmetic.
pub open spec fn sync_rect_ok(r: Rect) -> bool {
    -1_000_000_000 <= r.left <= 1_000_000_000 && -1_000_000_000 <= r.top <= 1_000_000_000
}

/// Decides where a live window belongs. `tracked_monitor` is the monitor
/// whose workspaces hold it now (if any), `real_monitor` the monitor its
/// center is on (if any), `previous_rect` its rect at the last sync. An
/// unassigned window first claims a pending drag-to-launch for its process
/// (see [`PendingLaunches::take_match`]); otherwise it joins the current
/// workspace of the monitor it is on, or of the primary monitor.
pub fn sync_placement(
    tracked_monitor: Option<&str>,
    real_monitor: Option<&str>,
    previous_rect: Option<Rect>,
    rect: Rect,
    pid: u32,
    pending: &mut PendingLaunches,
    now: u64,
    primary_monitor: &str,
) -> (r: SyncPlacement)
    requires
        sync_rect_ok(rect),
        previous_rect matches Some(p) ==> sync_rect_ok(p),
    ensures
        tracked_monitor is Some ==> final(pending)@ == old(pending)@,
        (tracked_monitor matches Some(t) && real_monitor matches Some(m) && t@ != m@) ==> (r matches
            SyncPlacement::MoveMonitor { from, to, shift } && from@ == tracked_monitor->0@ && to@
            == real_monitor->0@ && shift == shift_since(previous_rect, rect)),
        (tracked_monitor is Some && !(real_monitor matches Some(m) && m@ != tracked_monitor->0@)) ==> r
            == SyncPlacement::Keep,
        tracked_monitor is None ==> ({
            let live = unexpired(old(pending)@, now);
            &&& has_pid(live, pid) ==> {
                let i = first_pid_index(live, pid);
                &&& (r matches SyncPlacement::AssignLaunch { monitor, index } && monitor@ == live[i].monitor@
                    && index == live[i].workspace_index)
                &&& final(pending)@ == live.remove(i)
            }
            &&& !has_pid(live, pid) ==> final(pending)@ == live && (r matches SyncPlacement::AssignCurrent {
                monitor,
            } && monitor@ == (if real_monitor is Some { real_monitor->0@ } else { primary_monitor@ }))
        }),
{
    match tracked_monitor {
        Some(t) => {
            match real_monitor {
                Some(m) => {
                    if str_eq(t, m) {
                        SyncPlacement::Keep
                    } else {
                        let shift = match previous_rect {
                            Some(p) => {
                                let dx = rect.left - p.left;
                                let dy = rect.top - p.top;
                                if dx != 0 || dy != 0 {
                                    Some((dx, dy))
                                } else {
                                    None
                                }
                            },
                            None => None,
                        };
                        SyncPlacement::MoveMonitor {
                            from: String::from_str(t),
                            to: String::from_str(m),
                            shift,
                        }
                    }
                },
                None => SyncPlacement::Keep,
            }
        },
        None => {
            match pending.take_match(pid, now) {
                Some((monitor, index)) => SyncPlacement::AssignLaunch { monitor, index },
                None => {
                    let monitor = match real_monitor {
                        Some(m) => String::from_str(m),
                        None => String::from_str(primary_monitor),
                    };
                    SyncPlacement::AssignCurrent { monitor }
                },
            }
        },
    }
}

/// The windows a workspace switch hides and shows: switching between two
/// pinned workspaces (two monitors, both on screen) moves only focus and
/// the indicator; any other switch hides the outgoing workspace's windows
/// and shows the incoming one's.
pub fn switch_windows(
    from_pinned: bool,
    to_pinned: bool,
    from_windows: Vec<isize>,
    to_windows: Vec<isize>,
) -> (r: (Vec<isize>, Vec<isize>))
    ensures
        from_pinned && to_pinned ==> r.0@.len() == 0 && r.1@.len() == 0,
        !(from_pinned && to_pinned) ==> r.0@ == from_windows@ && r.1@ == to_windows@,
{
    if from_pinned && to_pinned {
        (Vec::new(), Vec::new())
    } else {
        (from_windows, to_windows)
    }
}

} // verus!
