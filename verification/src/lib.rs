//! Verified core logic of the GroveShell desktop shell: layout geometry,
//! hit-testing, animation state machines, dock bookkeeping and the small
//! decision functions the Win32 front end drives.

pub mod geometry;
pub mod dock_pins;
pub mod text;
pub mod dock;
pub mod dock_apps;
pub mod pending_launch;
pub mod overview;
pub mod flyout;
pub mod desktop_dock;
pub mod settings;
pub mod status;
pub mod color;
pub mod palette;
pub mod calendar;
pub mod session_menu;
pub mod icons;
pub mod monitors;
pub mod state;
pub mod bar;
pub mod quick_settings;
pub mod workspaces;
pub mod input;
pub mod snapshots;
pub mod tray;
pub mod thumb_grid;
pub mod overview_anim;
pub mod search;
pub mod dock_focus;
pub mod ui_events;
pub mod app_index;
