//! Shared UI state: the re-entrancy-safe mirrors of the dock and top-bar
//! configuration, which role a window plays, the Quick Settings flags, and
//! the dark/light theme toggle decision.

use vstd::prelude::*;
use vstd::string::*;

verus! {

/// The top bar's tuned (reference) height, 96-DPI.
pub const BAR_HEIGHT: i32 = 24;
/// The dock icon size before any configuration is applied, 96-DPI.
pub const DEFAULT_DOCK_ICON_SIZE: i32 = 44;

/// Mirrors of the configuration fields the dock and the overview's card
/// layout read while the main state is borrowed.
pub struct ConfigMirror {
    dock_icon_size: i32,
    dock_alignment: String,
    top_bar_height: i32,
}

impl ConfigMirror {
    pub closed spec fn icon_size_spec(&self) -> i32 {
        self.dock_icon_size
    }

    pub closed spec fn alignment_spec(&self) -> Seq<char> {
        self.dock_alignment@
    }

    pub closed spec fn bar_height_spec(&self) -> i32 {
        self.top_bar_height
    }

    /// Defaults: 44 px icons, no alignment set yet, the reference bar height.
    pub fn new() -> (r: Self)
        ensures
            r.icon_size_spec() == DEFAULT_DOCK_ICON_SIZE,
            r.alignment_spec() == Seq::<char>::empty(),
            r.bar_height_spec() == BAR_HEIGHT,
    {
        ConfigMirror { dock_icon_size: DEFAULT_DOCK_ICON_SIZE, dock_alignment: String::new(), top_bar_height: BAR_HEIGHT }
    }

    /// Updates the dock fields; called whenever the configuration is set or replaced.
    pub fn set_dock_config(&mut self, icon_size: i32, alignment: &str)
        ensures
            final(self).icon_size_spec() == icon_size,
            final(self).alignment_spec() == alignment@,
            final(self).bar_height_spec() == old(self).bar_height_spec(),
    {
        self.dock_icon_size = icon_size;
        self.dock_alignment = String::from_str(alignment);
    }

    /// The dock icon size and alignment; the alignment falls back to
    /// `"center"` when none has been set.
    pub fn dock_config(&self) -> (r: (i32, String))
        ensures
            r.0 == self.icon_size_spec(),
            self.alignment_spec().len() == 0 ==> r.1@ == "center"@,
            self.alignment_spec().len() > 0 ==> r.1@ == self.alignment_spec(),
    {
        let alignment = self.dock_alignment.clone();
        if alignment.as_str().unicode_len() == 0 {
            (self.dock_icon_size, String::from_str("center"))
        } else {
            (self.dock_icon_size, alignment)
        }
    }

    /// Updates the configured top bar height.
    pub fn set_bar_height_config(&mut self, height: i32)
        ensures
            final(self).bar_height_spec() == height,
            final(self).icon_size_spec() == old(self).icon_size_spec(),
            final(self).alignment_spec() == old(self).alignment_spec(),
    {
        self.top_bar_height = height;
    }

    /// The bar's actual configured height (96-DPI reference value).
    pub fn bar_height_config(&self) -> (r: i32)
        ensures
            r == self.bar_height_spec(),
    {
        self.top_bar_height
    }
}

/// What a window is to the shell.
#[derive(Debug)]
pub enum Role {
    Bar { is_primary: bool, monitor: String },
    Overview { monitor: String },
    Calendar,
    QuickSettings,
    Other,
}

/// One monitor's bar window, as far as role lookup needs it.
#[derive(Debug)]
pub struct BarWindow {
    pub hwnd: isize,
    pub is_primary: bool,
    pub monitor: String,
}

/// One monitor's overview window.
#[derive(Debug)]
pub struct OverviewWindow {
    pub monitor: String,
    pub hwnd: isize,
}

/// The shell's windows that have a role.
pub struct ShellWindows {
    pub bars: Vec<BarWindow>,
    pub overviews: Vec<OverviewWindow>,
    pub calendar: isize,
    pub quick_settings: isize,
}

/// Which window plays which role: a bar (first match), else an overview
/// (first match), else the calendar or Quick Settings flyout, else other.
pub fn role_of(hwnd: isize, w: &ShellWindows) -> (r: Role)
    ensures
        (exists|i: int| 0 <= i < w.bars@.len() && w.bars@[i].hwnd == hwnd) ==> (r matches Role::Bar {
            is_primary,
            monitor,
        } && exists|i: int|
            0 <= i < w.bars@.len() && w.bars@[i].hwnd == hwnd && w.bars@[i].is_primary == is_primary
                && w.bars@[i].monitor@ == monitor@ && forall|j: int| 0 <= j < i ==> w.bars@[j].hwnd != hwnd),
        !(exists|i: int| 0 <= i < w.bars@.len() && w.bars@[i].hwnd == hwnd) && (exists|i: int|
            0 <= i < w.overviews@.len() && w.overviews@[i].hwnd == hwnd) ==> (r matches Role::Overview {
            monitor,
        } && exists|i: int|
            0 <= i < w.overviews@.len() && w.overviews@[i].hwnd == hwnd && w.overviews@[i].monitor@ == monitor@
                && forall|j: int| 0 <= j < i ==> w.overviews@[j].hwnd != hwnd),
        !(exists|i: int| 0 <= i < w.bars@.len() && w.bars@[i].hwnd == hwnd) && !(exists|i: int|
            0 <= i < w.overviews@.len() && w.overviews@[i].hwnd == hwnd) ==> (if hwnd == w.calendar {
            r is Calendar
        } else if hwnd == w.quick_settings {
            r is QuickSettings
        } else {
            r is Other
        }),
{
    let mut i: usize = 0;
    while i < w.bars.len()
        invariant
            i <= w.bars@.len(),
            forall|j: int| 0 <= j < i ==> w.bars@[j].hwnd != hwnd,
        decreases w.bars.len() - i,
    {
        if w.bars[i].hwnd == hwnd {
            let monitor = w.bars[i].monitor.clone();
            return Role::Bar { is_primary: w.bars[i].is_primary, monitor };
        }
        i += 1;
    }
    let mut k: usize = 0;
    while k < w.overviews.len()
        invariant
            k <= w.overviews@.len(),
            forall|j: int| 0 <= j < w.bars@.len() ==> w.bars@[j].hwnd != hwnd,
            forall|j: int| 0 <= j < k ==> w.overviews@[j].hwnd != hwnd,
        decreases w.overviews.len() - k,
    {
        if w.overviews[k].hwnd == hwnd {
            let monitor = w.overviews[k].monitor.clone();
            return Role::Overview { monitor };
        }
        k += 1;
    }
    if hwnd == w.calendar {
        Role::Calendar
    } else if hwnd == w.quick_settings {
        Role::QuickSettings
    } else {
        Role::Other
    }
}

/// The theme chip: the value to write back (the opposite of the current
/// light-theme setting), or nothing when the setting cannot be read.
pub fn toggle_theme(apps_use_light_theme: Option<bool>) -> (r: Option<bool>)
    ensures
        match apps_use_light_theme {
            Some(light) => r == Some(!light),
            None => r is None,
        },
{
    match apps_use_light_theme {
        Some(light) => Some(!light),
        None => None,
    }
}

/// The flyouts' open flags and the volume-slider drag flag.
#[derive(Clone, Copy, Debug, PartialEq, Eq, Structural)]
pub struct FlyoutFlags {
    pub calendar_open: bool,
    pub quick_settings_open: bool,
    pub qs_volume_dragging: bool,
}

impl FlyoutFlags {
    pub fn new() -> (r: Self)
        ensures
            !r.calendar_open && !r.quick_settings_open && !r.qs_volume_dragging,
    {
        FlyoutFlags { calendar_open: false, quick_settings_open: false, qs_volume_dragging: false }
    }

    /// Releasing the mouse ends a volume drag wherever the pointer is.
    pub fn on_quick_settings_mouse_up(&mut self)
        ensures
            !final(self).qs_volume_dragging,
            final(self).calendar_open == old(self).calendar_open,
            final(self).quick_settings_open == old(self).quick_settings_open,
    {
        self.qs_volume_dragging = false;
    }

    /// Hides Quick Settings if open (ending any drag); returns whether it
    /// was open (and its window must be hidden).
    pub fn hide_quick_settings(&mut self) -> (was_open: bool)
        ensures
            was_open == old(self).quick_settings_open,
            was_open ==> !final(self).quick_settings_open && !final(self).qs_volume_dragging
                && final(self).calendar_open == old(self).calendar_open,
            !was_open ==> *final(self) == *old(self),
    {
        if !self.quick_settings_open {
            return false;
        }
        self.quick_settings_open = false;
        self.qs_volume_dragging = false;
        true
    }

    /// Hides the calendar if open; returns whether it was open.
    pub fn hide_calendar(&mut self) -> (was_open: bool)
        ensures
            was_open == old(self).calendar_open,
            !final(self).calendar_open,
            final(self).quick_settings_open == old(self).quick_settings_open,
            final(self).qs_volume_dragging == old(self).qs_volume_dragging,
    {
        let was = self.calendar_open;
        self.calendar_open = false;
        was
    }

    /// The Quick Settings button: closes an open panel (restoring focus);
    /// otherwise closes the calendar (if open) and the overview, and opens
    /// the panel. Either way the two flyouts are never open together.
    pub fn toggle_quick_settings(&mut self) -> (r: FlyoutToggle)
        ensures
            !(final(self).calendar_open && final(self).quick_settings_open),
            old(self).quick_settings_open ==> r == FlyoutToggle::Closed && !final(self).quick_settings_open
                && !final(self).qs_volume_dragging && final(self).calendar_open == old(self).calendar_open,
            !old(self).quick_settings_open ==> r == (FlyoutToggle::Opened { closed_other: old(self).calendar_open })
                && final(self).quick_settings_open && !final(self).calendar_open && final(self).qs_volume_dragging
                == old(self).qs_volume_dragging,
    {
        if self.hide_quick_settings() {
            return FlyoutToggle::Closed;
        }
        let closed_other = self.hide_calendar();
        self.quick_settings_open = true;
        FlyoutToggle::Opened { closed_other }
    }

    /// The clock: closes an open calendar (restoring focus); otherwise
    /// closes Quick Settings (if open) and the overview, and opens the
    /// calendar. Either way the two flyouts are never open together.
    pub fn toggle_calendar(&mut self) -> (r: FlyoutToggle)
        ensures
            !(final(self).calendar_open && final(self).quick_settings_open),
            old(self).calendar_open ==> r == FlyoutToggle::Closed && !final(self).calendar_open
                && final(self).quick_settings_open == old(self).quick_settings_open && final(self).qs_volume_dragging
                == old(self).qs_volume_dragging,
            !old(self).calendar_open ==> r == (FlyoutToggle::Opened { closed_other: old(self).quick_settings_open })
                && final(self).calendar_open && !final(self).quick_settings_open && (old(self).quick_settings_open
                ==> !final(self).qs_volume_dragging),
    {
        if self.hide_calendar() {
            return FlyoutToggle::Closed;
        }
        let closed_other = self.hide_quick_settings();
        self.calendar_open = true;
        FlyoutToggle::Opened { closed_other }
    }
}

/// What toggling a flyout did.
#[derive(Clone, Copy, Debug, PartialEq, Eq, Structural)]
pub enum FlyoutToggle {
    /// It was open and is now hidden (focus goes back to the previous window).
    Closed,
    /// It is now open; the overview is closed and, when `closed_other`, the
    /// other flyout was hidden (without restoring focus).
    Opened { closed_other: bool },
}

} // verus!
