//! The shell window procedure's dispatch: which handler a window message
//! reaches, given the role of the window it was sent to, with the pointer
//! coordinates and key codes decoded from its parameters.

use vstd::prelude::*;

verus! {

/// Window messages the shell handles.
pub const WM_DESTROY: u32 = 0x0002;
pub const WM_ACTIVATE: u32 = 0x0006;
pub const WM_PAINT: u32 = 0x000F;
pub const WM_ERASEBKGND: u32 = 0x0014;
pub const WM_DISPLAYCHANGE: u32 = 0x007E;
pub const WM_KEYDOWN: u32 = 0x0100;
pub const WM_CHAR: u32 = 0x0102;
pub const WM_TIMER: u32 = 0x0113;
pub const WM_MOUSEMOVE: u32 = 0x0200;
pub const WM_LBUTTONDOWN: u32 = 0x0201;
pub const WM_LBUTTONUP: u32 = 0x0202;
pub const WM_MOUSELEAVE: u32 = 0x02A3;
pub const WM_HOTKEY: u32 = 0x0312;
/// Key codes, the left-button flag of mouse messages, and the deactivation code.
pub const VK_ESCAPE: usize = 0x1B;
pub const VK_LEFT: usize = 0x25;
pub const VK_RIGHT: usize = 0x27;
pub const MK_LBUTTON: usize = 0x0001;
pub const WA_INACTIVE: usize = 0;
/// The shell's timers.
pub const ANIM_TIMER_ID: usize = 1;
pub const CLOCK_TIMER_ID: usize = 2;
pub const SYNC_TIMER_ID: usize = 3;
pub const HOTCORNER_TIMER_ID: usize = 4;
pub const DRAG_TIMER_ID: usize = 5;
/// The shell's global hotkeys.
pub const HOTKEY_WS_PREV: usize = 3001;
pub const HOTKEY_WS_NEXT: usize = 3002;
pub const HOTKEY_MOVE_WIN_PREV: usize = 3003;
pub const HOTKEY_MOVE_WIN_NEXT: usize = 3004;

/// The role of the window a message was sent to.
#[derive(Clone, Copy, Debug, PartialEq, Eq, Structural)]
pub enum RoleKind {
    Bar { is_primary: bool },
    Overview,
    Calendar,
    QuickSettings,
    Other,
}

/// The handler a message reaches.
#[derive(Clone, Copy, Debug, PartialEq, Eq, Structural)]
pub enum UiEvent {
    PaintBar,
    PaintOverview,
    PaintCalendar,
    PaintQuickSettings,
    /// The window paints its whole background itself: erasing is done.
    EraseHandled,
    OverviewPress { x: i32, y: i32 },
    QuickSettingsPress { x: i32, y: i32 },
    OverviewDragMove { x: i32, y: i32 },
    OverviewHover { x: i32, y: i32 },
    QuickSettingsMove { x: i32 },
    BarHover { x: i32, y: i32 },
    BarLeave,
    BarClick { x: i32 },
    OverviewRelease { x: i32, y: i32 },
    QuickSettingsRelease,
    OverviewChar { code: u32 },
    /// Escape in the overview: clear the search, or close the overview.
    OverviewEscape,
    /// Another key in the overview (arrows slide the carousel).
    OverviewKey { vk: usize },
    /// Hide the calendar, restoring focus when it was dismissed by Escape.
    HideCalendar { restore_focus: bool },
    HideQuickSettings { restore_focus: bool },
    SwitchWorkspace { delta: i32 },
    MoveFocusedWindow { delta: i32 },
    DisplayChange,
    AnimationTick,
    WindowSync,
    HotCornerPoll,
    DragPoll,
    ClockTick,
    /// A bar is being destroyed; the primary one also tears the shell down.
    BarDestroyed { is_primary: bool },
    /// Handled, nothing to do.
    Handled,
    /// Not the shell's: the default window procedure handles it.
    Default,
}

/// The low word of a message parameter, as a coordinate.
pub open spec fn loword(v: isize) -> i32 {
    (v & 0xFFFF) as i32
}

/// The high word of a message parameter, as a coordinate.
pub open spec fn hiword(v: isize) -> i32 {
    ((v >> 16) & 0xFFFF) as i32
}

/// The handler for message `msg` with parameters `wparam`/`lparam` sent to
/// a window of role `role`.
pub open spec fn classify_spec(role: RoleKind, msg: u32, wparam: usize, lparam: isize) -> UiEvent {
    let x = loword(lparam);
    let y = hiword(lparam);
    if msg == WM_PAINT {
        match role {
            RoleKind::Bar { .. } => UiEvent::PaintBar,
            RoleKind::Overview => UiEvent::PaintOverview,
            RoleKind::Calendar => UiEvent::PaintCalendar,
            RoleKind::QuickSettings => UiEvent::PaintQuickSettings,
            RoleKind::Other => UiEvent::Default,
        }
    } else if msg == WM_ERASEBKGND && (role == RoleKind::Overview || role == RoleKind::QuickSettings) {
        UiEvent::EraseHandled
    } else if msg == WM_LBUTTONDOWN {
        match role {
            RoleKind::Overview => UiEvent::OverviewPress { x, y },
            RoleKind::QuickSettings => UiEvent::QuickSettingsPress { x, y },
            _ => UiEvent::Default,
        }
    } else if msg == WM_MOUSEMOVE {
        match role {
            RoleKind::Overview => if wparam & MK_LBUTTON != 0 {
                UiEvent::OverviewDragMove { x, y }
            } else {
                UiEvent::OverviewHover { x, y }
            },
            RoleKind::QuickSettings => UiEvent::QuickSettingsMove { x },
            RoleKind::Bar { is_primary: true } => UiEvent::BarHover { x, y },
            _ => UiEvent::Default,
        }
    } else if msg == WM_MOUSELEAVE {
        if role == (RoleKind::Bar { is_primary: true }) {
            UiEvent::BarLeave
        } else {
            UiEvent::Default
        }
    } else if msg == WM_LBUTTONUP {
        match role {
            RoleKind::Bar { .. } => UiEvent::BarClick { x },
            RoleKind::Overview => UiEvent::OverviewRelease { x, y },
            RoleKind::QuickSettings => UiEvent::QuickSettingsRelease,
            _ => UiEvent::Handled,
        }
    } else if msg == WM_CHAR && role == RoleKind::Overview {
        UiEvent::OverviewChar { code: wparam as u32 }
    } else if msg == WM_KEYDOWN {
        if wparam == VK_ESCAPE {
            match role {
                RoleKind::Overview => UiEvent::OverviewEscape,
                RoleKind::Calendar => UiEvent::HideCalendar { restore_focus: true },
                RoleKind::QuickSettings => UiEvent::HideQuickSettings { restore_focus: true },
                _ => UiEvent::Handled,
            }
        } else if role == RoleKind::Overview {
            UiEvent::OverviewKey { vk: wparam }
        } else {
            UiEvent::Handled
        }
    } else if msg == WM_ACTIVATE {
        if wparam & 0xFFFF == WA_INACTIVE {
            match role {
                RoleKind::Calendar => UiEvent::HideCalendar { restore_focus: false },
                RoleKind::QuickSettings => UiEvent::HideQuickSettings { restore_focus: false },
                _ => UiEvent::Default,
            }
        } else {
            UiEvent::Default
        }
    } else if msg == WM_HOTKEY {
        if wparam == HOTKEY_WS_PREV {
            UiEvent::SwitchWorkspace { delta: -1i32 }
        } else if wparam == HOTKEY_WS_NEXT {
            UiEvent::SwitchWorkspace { delta: 1i32 }
        } else if wparam == HOTKEY_MOVE_WIN_PREV {
            UiEvent::MoveFocusedWindow { delta: -1i32 }
        } else if wparam == HOTKEY_MOVE_WIN_NEXT {
            UiEvent::MoveFocusedWindow { delta: 1i32 }
        } else {
            UiEvent::Handled
        }
    } else if msg == WM_DISPLAYCHANGE {
        UiEvent::DisplayChange
    } else if msg == WM_TIMER {
        if wparam == ANIM_TIMER_ID {
            if role == RoleKind::Overview { UiEvent::AnimationTick } else { UiEvent::Handled }
        } else if wparam == SYNC_TIMER_ID {
            UiEvent::WindowSync
        } else if wparam == HOTCORNER_TIMER_ID {
            UiEvent::HotCornerPoll
        } else if wparam == DRAG_TIMER_ID {
            UiEvent::DragPoll
        } else if wparam == CLOCK_TIMER_ID {
            UiEvent::ClockTick
        } else {
            UiEvent::Handled
        }
    } else if msg == WM_DESTROY {
        match role {
            RoleKind::Bar { is_primary } => UiEvent::BarDestroyed { is_primary },
            _ => UiEvent::Handled,
        }
    } else {
        UiEvent::Default
    }
}

/// Whether the default window procedure also sees the message after the
/// handler ran (pointer moves and leaves, activation changes).
pub open spec fn passes_on_spec(msg: u32, event: UiEvent) -> bool {
    event == UiEvent::Default || msg == WM_MOUSEMOVE || msg == WM_MOUSELEAVE || msg == WM_ACTIVATE
}

/// Decides the handler for a message (see [`classify_spec`]) and whether
/// the default window procedure runs too.
pub fn classify_message(role: RoleKind, msg: u32, wparam: usize, lparam: isize) -> (r: (UiEvent, bool))
    ensures
        r.0 == classify_spec(role, msg, wparam, lparam),
        r.1 == passes_on_spec(msg, r.0),
{
    let x: i32 = (lparam & 0xFFFF) as i32;
    let y: i32 = ((lparam >> 16) & 0xFFFF) as i32;
    let event = if msg == WM_PAINT {
        match role {
            RoleKind::Bar { .. } => UiEvent::PaintBar,
            RoleKind::Overview => UiEvent::PaintOverview,
            RoleKind::Calendar => UiEvent::PaintCalendar,
            RoleKind::QuickSettings => UiEvent::PaintQuickSettings,
            RoleKind::Other => UiEvent::Default,
        }
    } else if msg == WM_ERASEBKGND && (role == RoleKind::Overview || role == RoleKind::QuickSettings) {
        UiEvent::EraseHandled
    } else if msg == WM_LBUTTONDOWN {
        match role {
            RoleKind::Overview => UiEvent::OverviewPress { x, y },
            RoleKind::QuickSettings => UiEvent::QuickSettingsPress { x, y },
            _ => UiEvent::Default,
        }
    } else if msg == WM_MOUSEMOVE {
        match role {
            RoleKind::Overview => if wparam & MK_LBUTTON != 0 {
                UiEvent::OverviewDragMove { x, y }
            } else {
                UiEvent::OverviewHover { x, y }
            },
            RoleKind::QuickSettings => UiEvent::QuickSettingsMove { x },
            RoleKind::Bar { is_primary: true } => UiEvent::BarHover { x, y },
            _ => UiEvent::Default,
        }
    } else if msg == WM_MOUSELEAVE {
        if role == (RoleKind::Bar { is_primary: true }) {
            UiEvent::BarLeave
        } else {
            UiEvent::Default
        }
    } else if msg == WM_LBUTTONUP {
        match role {
            RoleKind::Bar { .. } => UiEvent::BarClick { x },
            RoleKind::Overview => UiEvent::OverviewRelease { x, y },
            RoleKind::QuickSettings => UiEvent::QuickSettingsRelease,
            _ => UiEvent::Handled,
        }
    } else if msg == WM_CHAR && role == RoleKind::Overview {
        UiEvent::OverviewChar { code: wparam as u32 }
    } else if msg == WM_KEYDOWN {
        if wparam == VK_ESCAPE {
            match role {
                RoleKind::Overview => UiEvent::OverviewEscape,
                RoleKind::Calendar => UiEvent::HideCalendar { restore_focus: true },
                RoleKind::QuickSettings => UiEvent::HideQuickSettings { restore_focus: true },
                _ => UiEvent::Handled,
            }
        } else if role == RoleKind::Overview {
            UiEvent::OverviewKey { vk: wparam }
        } else {
            UiEvent::Handled
        }
    } else if msg == WM_ACTIVATE {
        if wparam & 0xFFFF == WA_INACTIVE {
            match role {
                RoleKind::Calendar => UiEvent::HideCalendar { restore_focus: false },
                RoleKind::QuickSettings => UiEvent::HideQuickSettings { restore_focus: false },
                _ => UiEvent::Default,
            }
        } else {
            UiEvent::Default
        }
    } else if msg == WM_HOTKEY {
        if wparam == HOTKEY_WS_PREV {
            UiEvent::SwitchWorkspace { delta: -1 }
        } else if wparam == HOTKEY_WS_NEXT {
            UiEvent::SwitchWorkspace { delta: 1 }
        } else if wparam == HOTKEY_MOVE_WIN_PREV {
            UiEvent::MoveFocusedWindow { delta: -1 }
        } else if wparam == HOTKEY_MOVE_WIN_NEXT {
            UiEvent::MoveFocusedWindow { delta: 1 }
        } else {
            UiEvent::Handled
        }
    } else if msg == WM_DISPLAYCHANGE {
        UiEvent::DisplayChange
    } else if msg == WM_TIMER {
        if wparam == ANIM_TIMER_ID {
            if role == RoleKind::Overview { UiEvent::AnimationTick } else { UiEvent::Handled }
        } else if wparam == SYNC_TIMER_ID {
            UiEvent::WindowSync
        } else if wparam == HOTCORNER_TIMER_ID {
            UiEvent::HotCornerPoll
        } else if wparam == DRAG_TIMER_ID {
            UiEvent::DragPoll
        } else if wparam == CLOCK_TIMER_ID {
            UiEvent::ClockTick
        } else {
            UiEvent::Handled
        }
    } else if msg == WM_DESTROY {
        match role {
            RoleKind::Bar { is_primary } => UiEvent::BarDestroyed { is_primary },
            _ => UiEvent::Handled,
        }
    } else {
        UiEvent::Default
    };
    let passes = event == UiEvent::Default || msg == WM_MOUSEMOVE || msg == WM_MOUSELEAVE || msg == WM_ACTIVATE;
    (event, passes)
}

/// Decoded pointer coordinates are the unsigned 16-bit words of `lparam`.
pub proof fn lemma_words_are_16_bit(lparam: isize)
    ensures
        0 <= loword(lparam) <= 0xFFFF,
        0 <= hiword(lparam) <= 0xFFFF,
{
    assert(0 <= (lparam & 0xFFFF) <= 0xFFFF) by (bit_vector);
    assert(0 <= ((lparam >> 16) & 0xFFFF) <= 0xFFFF) by (bit_vector);
}

/// What Escape does in the overview: back out of an active search first,
/// close the overview second.
#[derive(Clone, Copy, Debug, PartialEq, Eq, Structural)]
pub enum EscapeAction {
    ClearSearch,
    Close,
}

/// Escape in the overview: clears an active search, else closes the overview.
pub fn overview_escape(searching: bool) -> (r: EscapeAction)
    ensures
        searching ==> r == EscapeAction::ClearSearch,
        !searching ==> r == EscapeAction::Close,
{
    if searching {
        EscapeAction::ClearSearch
    } else {
        EscapeAction::Close
    }
}

/// A key in the overview while not searching: Left and Right slide the
/// carousel by one workspace; keys are the search box's while searching.
pub fn overview_arrow_delta(vk: usize, searching: bool) -> (r: Option<i32>)
    ensures
        searching ==> r is None,
        !searching && vk == VK_LEFT ==> r == Some(-1i32),
        !searching && vk == VK_RIGHT ==> r == Some(1i32),
        vk != VK_LEFT && vk != VK_RIGHT ==> r is None,
{
    if searching {
        None
    } else if vk == VK_LEFT {
        Some(-1)
    } else if vk == VK_RIGHT {
        Some(1)
    } else {
        None
    }
}

} // verus!
