use groveshell::geometry::Rect;
use groveshell::monitors::{primary_index, MonitorInfo};
use groveshell::pending_launch::{PendingLaunch, PendingLaunches};
use groveshell::state::{FlyoutFlags, FlyoutToggle};
use groveshell::ui_events::{
    classify_message, overview_arrow_delta, overview_escape, EscapeAction, RoleKind, UiEvent, ANIM_TIMER_ID,
    HOTKEY_MOVE_WIN_NEXT, HOTKEY_WS_PREV, MK_LBUTTON, VK_ESCAPE, VK_LEFT, VK_RIGHT, WM_ACTIVATE, WM_CHAR,
    WM_DESTROY, WM_HOTKEY, WM_KEYDOWN, WM_LBUTTONDOWN, WM_LBUTTONUP, WM_MOUSELEAVE, WM_MOUSEMOVE, WM_PAINT,
    WM_TIMER,
};
use groveshell::workspaces::{switch_windows, sync_placement, SyncPlacement};

fn rect(l: i32, t: i32) -> Rect {
    Rect { left: l, top: t, right: l + 100, bottom: t + 100 }
}

#[test]
fn a_window_dragged_to_another_monitor_moves_with_its_dialogs() {
    let mut pending = PendingLaunches::new();
    let r = sync_placement(Some("A"), Some("B"), Some(rect(0, 0)), rect(1950, 10), 1, &mut pending, 0, "A");
    assert_eq!(r, SyncPlacement::MoveMonitor { from: "A".to_string(), to: "B".to_string(), shift: Some((1950, 10)) });
    let still = sync_placement(Some("A"), Some("B"), Some(rect(5, 5)), rect(5, 5), 1, &mut pending, 0, "A");
    assert_eq!(still, SyncPlacement::MoveMonitor { from: "A".to_string(), to: "B".to_string(), shift: None });
    assert_eq!(sync_placement(Some("A"), Some("A"), None, rect(0, 0), 1, &mut pending, 0, "A"), SyncPlacement::Keep);
    assert_eq!(sync_placement(Some("A"), None, None, rect(0, 0), 1, &mut pending, 0, "A"), SyncPlacement::Keep);
}

#[test]
fn a_new_window_claims_its_drag_launch_or_joins_the_current_workspace() {
    let mut pending = PendingLaunches::new();
    pending.register(PendingLaunch { process_id: 42, monitor: "B".to_string(), workspace_index: 3, expires_at_ms: 10_000 });
    let r = sync_placement(None, Some("A"), None, rect(0, 0), 42, &mut pending, 500, "P");
    assert_eq!(r, SyncPlacement::AssignLaunch { monitor: "B".to_string(), index: 3 });
    assert_eq!(pending.len(), 0);
    let r = sync_placement(None, Some("A"), None, rect(0, 0), 42, &mut pending, 600, "P");
    assert_eq!(r, SyncPlacement::AssignCurrent { monitor: "A".to_string() });
    let r = sync_placement(None, None, None, rect(0, 0), 7, &mut pending, 600, "P");
    assert_eq!(r, SyncPlacement::AssignCurrent { monitor: "P".to_string() });
}

#[test]
fn switching_between_two_monitors_hides_nothing() {
    assert_eq!(switch_windows(true, true, vec![1, 2], vec![3]), (vec![], vec![]));
    assert_eq!(switch_windows(true, false, vec![1, 2], vec![3]), (vec![1, 2], vec![3]));
    assert_eq!(switch_windows(false, false, vec![], vec![3]), (vec![], vec![3]));
}

#[test]
fn toggling_one_flyout_closes_the_other() {
    let mut f = FlyoutFlags::new();
    assert_eq!(f.toggle_calendar(), FlyoutToggle::Opened { closed_other: false });
    assert!(f.calendar_open);
    assert_eq!(f.toggle_quick_settings(), FlyoutToggle::Opened { closed_other: true });
    assert!(f.quick_settings_open && !f.calendar_open);
    f.qs_volume_dragging = true;
    assert_eq!(f.toggle_quick_settings(), FlyoutToggle::Closed);
    assert!(!f.quick_settings_open && !f.qs_volume_dragging);
    assert_eq!(f.toggle_calendar(), FlyoutToggle::Opened { closed_other: false });
    assert_eq!(f.toggle_calendar(), FlyoutToggle::Closed);
    assert!(!f.calendar_open && !f.quick_settings_open);
}

#[test]
fn primary_index_finds_the_first_primary_monitor() {
    let m = |name: &str, primary: bool| MonitorInfo {
        device_name: name.to_string(),
        rect: rect(0, 0),
        work: rect(0, 0),
        is_primary: primary,
        dpi: 96,
    };
    assert_eq!(primary_index(&[m("A", false), m("B", true), m("C", true)]), Some(1));
    assert_eq!(primary_index(&[m("A", false)]), None);
}

#[test]
fn messages_reach_the_handler_for_their_window_role() {
    let lparam: isize = (30 << 16) | 20;
    assert_eq!(classify_message(RoleKind::Overview, WM_PAINT, 0, 0), (UiEvent::PaintOverview, false));
    assert_eq!(classify_message(RoleKind::Other, WM_PAINT, 0, 0), (UiEvent::Default, true));
    assert_eq!(classify_message(RoleKind::Overview, WM_LBUTTONDOWN, 0, lparam), (UiEvent::OverviewPress { x: 20, y: 30 }, false));
    assert_eq!(
        classify_message(RoleKind::Overview, WM_MOUSEMOVE, MK_LBUTTON, lparam),
        (UiEvent::OverviewDragMove { x: 20, y: 30 }, true)
    );
    assert_eq!(classify_message(RoleKind::Overview, WM_MOUSEMOVE, 0, lparam), (UiEvent::OverviewHover { x: 20, y: 30 }, true));
    assert_eq!(classify_message(RoleKind::Bar { is_primary: false }, WM_MOUSEMOVE, 0, lparam), (UiEvent::Default, true));
    assert_eq!(classify_message(RoleKind::Bar { is_primary: true }, WM_MOUSELEAVE, 0, 0), (UiEvent::BarLeave, true));
    assert_eq!(classify_message(RoleKind::Bar { is_primary: false }, WM_LBUTTONUP, 0, lparam), (UiEvent::BarClick { x: 20 }, false));
    assert_eq!(classify_message(RoleKind::Overview, WM_CHAR, 0x61, 0), (UiEvent::OverviewChar { code: 0x61 }, false));
    assert_eq!(classify_message(RoleKind::Calendar, WM_KEYDOWN, VK_ESCAPE, 0), (UiEvent::HideCalendar { restore_focus: true }, false));
    assert_eq!(classify_message(RoleKind::QuickSettings, WM_ACTIVATE, 0, 0), (UiEvent::HideQuickSettings { restore_focus: false }, true));
    assert_eq!(classify_message(RoleKind::Other, WM_HOTKEY, HOTKEY_WS_PREV, 0), (UiEvent::SwitchWorkspace { delta: -1 }, false));
    assert_eq!(classify_message(RoleKind::Other, WM_HOTKEY, HOTKEY_MOVE_WIN_NEXT, 0), (UiEvent::MoveFocusedWindow { delta: 1 }, false));
    assert_eq!(classify_message(RoleKind::Overview, WM_TIMER, ANIM_TIMER_ID, 0), (UiEvent::AnimationTick, false));
    assert_eq!(classify_message(RoleKind::Bar { is_primary: true }, WM_DESTROY, 0, 0), (UiEvent::BarDestroyed { is_primary: true }, false));
    assert_eq!(classify_message(RoleKind::Overview, 0x9999, 0, 0), (UiEvent::Default, true));
}

#[test]
fn escape_and_arrows_in_the_overview() {
    assert_eq!(overview_escape(true), EscapeAction::ClearSearch);
    assert_eq!(overview_escape(false), EscapeAction::Close);
    assert_eq!(overview_arrow_delta(VK_LEFT, false), Some(-1));
    assert_eq!(overview_arrow_delta(VK_RIGHT, false), Some(1));
    assert_eq!(overview_arrow_delta(VK_RIGHT, true), None);
    assert_eq!(overview_arrow_delta(0x41, false), None);
}
