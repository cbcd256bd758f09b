# groveshell

The decision and layout core of GroveShell, a workspace-and-overview desktop
shell for Windows 11, as a Verus-verified library.

- `src/` — the verified library: DPI scaling and rect geometry, the top bar's
  regions and clicks, the dock (layout, running dots, pins, reordering,
  entries built from shortcuts and live windows, click cycling, context
  menus, the pin file's JSON format), the desktop dock's resting geometry and autohide state machine,
  the Activities overview (its state: toggle, search-owned clicks, dock and
  card click dispatch, drags, what is painted where, hover, the animation
  clock, the window grid inside a card, type-to-search and the installed-app
  index), workspace parking and the per-window sync decision, pending
  drag-to-launch matching, window snapshots, Quick Settings and calendar
  layout, flyout lifecycles, the window-procedure dispatch, the settings
  window's pages, colors and health reporting.
- `tests/` — scenario tests against the library.
- `app/` — the thin front end: reading and writing the pin file's bytes,
  the taskbar pins that seed it, easing curves
  and the fractional carousel/wave geometry, which are floating point.
