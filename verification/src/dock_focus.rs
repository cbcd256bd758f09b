//! Clicking a dock icon: a running app's windows are cycled through on
//! repeated clicks (remembering, per executable, which window the dock
//! focused last), a pinned app that is not running is launched.

use vstd::prelude::*;
use crate::dock::{next_window, next_window_spec, DockEntry};
use crate::text::{lowercase_of, str_eq, to_lowercase};

verus! {

/// The value recorded last for `key` in `s` (later entries win).
pub open spec fn focus_lookup(s: Seq<(String, isize)>, key: Seq<char>) -> Option<isize>
    decreases s.len(),
{
    if s.len() == 0 {
        None
    } else if s.last().0@ == key {
        Some(s.last().1)
    } else {
        focus_lookup(s.drop_last(), key)
    }
}

/// `s` without its entries for `key`.
pub open spec fn without_key(s: Seq<(String, isize)>, key: Seq<char>) -> Seq<(String, isize)>
    decreases s.len(),
{
    if s.len() == 0 {
        s
    } else if s.last().0@ == key {
        without_key(s.drop_last(), key)
    } else {
        without_key(s.drop_last(), key).push(s.last())
    }
}

proof fn lemma_without_key(s: Seq<(String, isize)>, key: Seq<char>, other: Seq<char>)
    ensures
        focus_lookup(without_key(s, key), key) is None,
        other != key ==> focus_lookup(without_key(s, key), other) == focus_lookup(s, other),
    decreases s.len(),
{
    if s.len() > 0 {
        lemma_without_key(s.drop_last(), key, other);
        if s.last().0@ != key {
            assert(without_key(s, key).drop_last() =~= without_key(s.drop_last(), key));
        }
    }
}

/// Per executable (lowercased name), the window the dock focused last.
pub struct LastFocused {
    entries: Vec<(String, isize)>,
}

impl LastFocused {
    /// The window recorded for executable key `key`.
    pub closed spec fn recorded(&self, key: Seq<char>) -> Option<isize> {
        focus_lookup(self.entries@, key)
    }

    pub fn new() -> (r: Self)
        ensures
            forall|k: Seq<char>| r.recorded(k) is None,
    {
        LastFocused { entries: Vec::new() }
    }

    /// The window recorded for `key`.
    pub fn get(&self, key: &str) -> (r: Option<isize>)
        ensures
            r == self.recorded(key@),
    {
        let mut i: usize = self.entries.len();
        assert(self.entries@.subrange(0, i as int) =~= self.entries@);
        while i > 0
            invariant
                i <= self.entries@.len(),
                focus_lookup(self.entries@, key@) == focus_lookup(self.entries@.subrange(0, i as int), key@),
            decreases i,
        {
            let ghost pre = self.entries@.subrange(0, i as int);
            assert(pre.drop_last() =~= self.entries@.subrange(0, i - 1));
            if str_eq(self.entries[i - 1].0.as_str(), key) {
                return Some(self.entries[i - 1].1);
            }
            i -= 1;
        }
        None
    }

    /// Records `hwnd` for `key`, replacing any earlier record.
    pub fn set(&mut self, key: String, hwnd: isize)
        ensures
            final(self).recorded(key@) == Some(hwnd),
            forall|k: Seq<char>| k != key@ ==> final(self).recorded(k) == old(self).recorded(k),
    {
        let ghost old_entries = self.entries@;
        let mut kept: Vec<(String, isize)> = Vec::new();
        let mut i: usize = 0;
        while i < self.entries.len()
            invariant
                i <= self.entries@.len(),
                self.entries@ == old_entries,
                kept@ == without_key(old_entries.subrange(0, i as int), key@),
            decreases self.entries.len() - i,
        {
            assert(old_entries.subrange(0, i + 1).drop_last() =~= old_entries.subrange(0, i as int));
            if !str_eq(self.entries[i].0.as_str(), key.as_str()) {
                let e = self.entries[i].0.clone();
                kept.push((e, self.entries[i].1));
                assert(kept@.last() == old_entries.subrange(0, i + 1).last());
            }
            i += 1;
        }
        assert(old_entries.subrange(0, old_entries.len() as int) =~= old_entries);
        proof {
            assert forall|k: Seq<char>| k != key@ implies focus_lookup(kept@, k) == focus_lookup(old_entries, k) by {
                lemma_without_key(old_entries, key@, k);
            }
        }
        let ghost before = kept@;
        let ghost key_view = key@;
        kept.push((key, hwnd));
        proof {
            assert(kept@.drop_last() =~= before);
            assert forall|k: Seq<char>| k != key_view implies focus_lookup(kept@, k) == focus_lookup(before, k) by {
                assert(kept@.drop_last() =~= before);
            }
        }
        self.entries = kept;
    }
}

/// What clicking a dock entry does.
#[derive(Debug, PartialEq, Eq)]
pub enum DockActivation {
    /// Focus this window of the running app.
    Focus { hwnd: isize },
    /// Launch the pinned app from this path.
    Launch(String),
    /// An unpinned entry with no windows left: nothing.
    Nothing,
}

/// The executable key a running app is remembered under: its lowercased
/// executable name, or the empty key when it is unknown.
pub open spec fn exe_key(exe_name: Option<Seq<char>>) -> Seq<char> {
    match exe_name {
        Some(e) => lowercase_of(e),
        None => Seq::empty(),
    }
}

/// A click on dock entry `app`, whose first window runs `exe_name`: a
/// running app focuses the window after the one the dock focused last for
/// that executable (see [`next_window`]) and records it; otherwise its
/// launch path is launched.
pub fn activate_dock_app(app: &DockEntry, exe_name: Option<&str>, last: &mut LastFocused) -> (r: DockActivation)
    ensures
        ({
            let key = exe_key(
                match exe_name {
                    Some(e) => Some(e@),
                    None => None,
                },
            );
            &&& app.windows@.len() > 0 ==> {
                let h = next_window_spec(app.windows@, old(last).recorded(key))->0;
                &&& r == DockActivation::Focus { hwnd: h }
                &&& final(last).recorded(key) == Some(h)
                &&& forall|k: Seq<char>| k != key ==> final(last).recorded(k) == old(last).recorded(k)
            }
            &&& app.windows@.len() == 0 ==> {
                &&& forall|k: Seq<char>| final(last).recorded(k) == old(last).recorded(k)
                &&& (app.launch_path matches Some(p) ==> (r matches DockActivation::Launch(q) && q@ == p@))
                &&& app.launch_path is None ==> r == DockActivation::Nothing
            }
        }),
{
    if app.windows.len() > 0 {
        let key = match exe_name {
            Some(e) => to_lowercase(e),
            None => String::new(),
        };
        let previous = last.get(key.as_str());
        let chosen = next_window(app.windows.as_slice(), previous);
        let hwnd = match chosen {
            Some(h) => h,
            None => app.windows[0],
        };
        last.set(key, hwnd);
        DockActivation::Focus { hwnd }
    } else {
        match &app.launch_path {
            Some(p) => DockActivation::Launch(p.clone()),
            None => DockActivation::Nothing,
        }
    }
}

/// How the overview brings a chosen dock window forward.
#[derive(Clone, Copy, Debug, PartialEq, Eq, Structural)]
pub enum FocusMove {
    /// Slide the carousel to this page, then close onto the window.
    SlideTo(usize),
    /// Close the overview onto the window (it is on the current page, or on
    /// no workspace).
    CloseOnto,
}

/// The window lives on workspace `page` (if it is tracked); `current` is
/// the workspace shown.
pub fn focus_move(page: Option<usize>, current: usize) -> (r: FocusMove)
    ensures
        (page matches Some(p) && p != current) ==> r == FocusMove::SlideTo(page->0),
        !(page matches Some(p) && p != current) ==> r == FocusMove::CloseOnto,
{
    match page {
        Some(p) => if p != current {
            FocusMove::SlideTo(p)
        } else {
            FocusMove::CloseOnto
        },
        None => FocusMove::CloseOnto,
    }
}

/// Repeated clicks on a running app walk its windows in order, wrapping:
/// with window `i` recorded, one click focuses window `i + 1` and the next
/// window `i + 2` (modulo the window count).
pub proof fn lemma_repeated_clicks_cycle(windows: Seq<isize>, i: int)
    requires
        0 <= i < windows.len(),
        windows.no_duplicates(),
    ensures
        next_window_spec(windows, Some(windows[i])) == Some(windows[(i + 1) % (windows.len() as int)]),
        next_window_spec(windows, Some(windows[(i + 1) % (windows.len() as int)])) == Some(
            windows[(i + 2) % (windows.len() as int)],
        ),
{
    let n = windows.len() as int;
    crate::dock::lemma_next_window_cycles(windows, i);
    assert(0 <= (i + 1) % n < n) by (nonlinear_arith)
        requires
            n > 0,
    ;
    crate::dock::lemma_next_window_cycles(windows, (i + 1) % n);
    assert(((i + 1) % n + 1) % n == (i + 2) % n) by (nonlinear_arith)
        requires
            n > 0,
    ;
}

/// What a dock icon's context-menu choice does.
#[derive(Clone, Copy, Debug, PartialEq, Eq, Structural)]
pub enum DockMenuCommand {
    Pin,
    Unpin,
    OpenNewWindow,
    Nothing,
}

/// Command ids of the overview dock's menu.
pub const MENU_ID_UNPIN: u32 = 1;
pub const MENU_ID_PIN: u32 = 2;
pub const MENU_ID_OPEN_NEW_WINDOW: u32 = 3;
/// Command ids of the desktop dock's menu.
pub const MENU_PIN: u32 = 1;
pub const MENU_OPEN_NEW: u32 = 2;

/// The pin item's label for an entry that is, or is not, pinned.
pub fn pin_menu_label(is_pinned: bool) -> (r: &'static str)
    ensures
        is_pinned ==> r@ == "Unpin from dock"@,
        !is_pinned ==> r@ == "Pin to dock"@,
{
    if is_pinned {
        "Unpin from dock"
    } else {
        "Pin to dock"
    }
}

/// The overview dock's pin item id: Unpin for a pinned entry, Pin otherwise.
pub fn overview_pin_item(is_pinned: bool) -> (r: u32)
    ensures
        r == (if is_pinned { MENU_ID_UNPIN } else { MENU_ID_PIN }),
{
    if is_pinned {
        MENU_ID_UNPIN
    } else {
        MENU_ID_PIN
    }
}

/// The overview dock's menu choice `cmd` (0 when dismissed).
pub fn overview_menu_command(cmd: u32) -> (r: DockMenuCommand)
    ensures
        r == (if cmd == MENU_ID_UNPIN {
            DockMenuCommand::Unpin
        } else if cmd == MENU_ID_PIN {
            DockMenuCommand::Pin
        } else if cmd == MENU_ID_OPEN_NEW_WINDOW {
            DockMenuCommand::OpenNewWindow
        } else {
            DockMenuCommand::Nothing
        }),
{
    if cmd == MENU_ID_UNPIN {
        DockMenuCommand::Unpin
    } else if cmd == MENU_ID_PIN {
        DockMenuCommand::Pin
    } else if cmd == MENU_ID_OPEN_NEW_WINDOW {
        DockMenuCommand::OpenNewWindow
    } else {
        DockMenuCommand::Nothing
    }
}

/// The desktop dock's menu choice `cmd` (0 when dismissed): its one pin
/// item toggles the entry's pinned state.
pub fn desktop_menu_command(cmd: u32, is_pinned: bool) -> (r: DockMenuCommand)
    ensures
        cmd == MENU_PIN ==> r == (if is_pinned { DockMenuCommand::Unpin } else { DockMenuCommand::Pin }),
        cmd == MENU_OPEN_NEW ==> r == DockMenuCommand::OpenNewWindow,
        cmd != MENU_PIN && cmd != MENU_OPEN_NEW ==> r == DockMenuCommand::Nothing,
{
    if cmd == MENU_PIN {
        if is_pinned {
            DockMenuCommand::Unpin
        } else {
            DockMenuCommand::Pin
        }
    } else if cmd == MENU_OPEN_NEW {
        DockMenuCommand::OpenNewWindow
    } else {
        DockMenuCommand::Nothing
    }
}

} // verus!
