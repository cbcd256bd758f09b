use groveshell::app_index::build_app_index;
use groveshell::bar::{on_bar_click, BarClick};
use groveshell::dock::DockEntry;
use groveshell::dock_focus::{
    activate_dock_app, desktop_menu_command, focus_move, overview_menu_command, overview_pin_item, pin_menu_label,
    DockActivation, DockMenuCommand, FocusMove, LastFocused,
};
use groveshell::search::{contains_text, search_results, text_matches, SearchApp, SearchResult, SearchWindow};

fn window(hwnd: isize, title: &str, exe: Option<&str>) -> SearchWindow {
    SearchWindow { hwnd, title: title.to_string(), exe_name: exe.map(|e| e.to_string()) }
}

fn app(name: &str) -> SearchApp {
    SearchApp { name: name.to_string(), path: format!("C:/Start Menu/{name}.lnk") }
}

#[test]
fn contains_text_is_a_plain_substring_test() {
    assert!(contains_text("firefox", "fox"));
    assert!(contains_text("firefox", ""));
    assert!(contains_text("fox", "fox"));
    assert!(!contains_text("fox", "foxes"));
    assert!(!contains_text("Firefox", "fire"));
}

#[test]
fn text_matches_lowercases_the_text_but_not_the_query() {
    assert!(text_matches("Mozilla FIREFOX", "firefox"));
    assert!(text_matches("ÉCRAN", "écran"));
    assert!(!text_matches("firefox", "FIRE"));
}

#[test]
fn search_lists_matching_windows_before_matching_apps() {
    let windows = vec![
        window(1, "Notes - Editor", Some("editor.exe")),
        window(2, "Inbox", Some("mail.exe")),
        window(3, "Terminal", Some("MailHelper.exe")),
    ];
    let apps = vec![app("Mail"), app("Maps"), app("Paint")];
    let r = search_results(&windows, &apps, "MAIL");
    assert_eq!(
        r,
        vec![
            SearchResult::Window { hwnd: 2, title: "Inbox".to_string() },
            SearchResult::Window { hwnd: 3, title: "Terminal".to_string() },
            SearchResult::App { name: "Mail".to_string(), path: "C:/Start Menu/Mail.lnk".to_string() },
        ]
    );
}

#[test]
fn search_caps_the_results_at_eight_windows_first() {
    let windows: Vec<SearchWindow> = (0..6).map(|i| window(i, &format!("Doc {i}"), None)).collect();
    let apps: Vec<SearchApp> = (0..5).map(|i| app(&format!("Doc tool {i}"))).collect();
    let r = search_results(&windows, &apps, "doc");
    assert_eq!(r.len(), 8);
    assert!(matches!(r[5], SearchResult::Window { hwnd: 5, .. }));
    assert!(matches!(&r[6], SearchResult::App { name, .. } if name == "Doc tool 0"));
    let many: Vec<SearchWindow> = (0..12).map(|i| window(i, "x", None)).collect();
    let r = search_results(&many, &apps, "x");
    assert_eq!(r.len(), 8);
    assert!(r.iter().all(|h| matches!(h, SearchResult::Window { .. })));
    assert!(search_results(&windows, &apps, "zzz").is_empty());
}

#[test]
fn dock_clicks_cycle_through_an_apps_windows() {
    let mut last = LastFocused::new();
    let entry = DockEntry { launch_path: Some("C:/edge.lnk".to_string()), windows: vec![10, 20, 30] };
    assert_eq!(activate_dock_app(&entry, Some("MSEDGE.exe"), &mut last), DockActivation::Focus { hwnd: 10 });
    assert_eq!(last.get("msedge.exe"), Some(10));
    assert_eq!(activate_dock_app(&entry, Some("msedge.exe"), &mut last), DockActivation::Focus { hwnd: 20 });
    assert_eq!(activate_dock_app(&entry, Some("msedge.exe"), &mut last), DockActivation::Focus { hwnd: 30 });
    assert_eq!(activate_dock_app(&entry, Some("msedge.exe"), &mut last), DockActivation::Focus { hwnd: 10 });
    let other = DockEntry { launch_path: None, windows: vec![7] };
    assert_eq!(activate_dock_app(&other, None, &mut last), DockActivation::Focus { hwnd: 7 });
    assert_eq!(last.get(""), Some(7));
    assert_eq!(last.get("msedge.exe"), Some(10));
}

#[test]
fn a_pinned_app_without_windows_is_launched() {
    let mut last = LastFocused::new();
    let pinned = DockEntry { launch_path: Some("C:/files.lnk".to_string()), windows: vec![] };
    assert_eq!(activate_dock_app(&pinned, Some("explorer.exe"), &mut last), DockActivation::Launch("C:/files.lnk".to_string()));
    let gone = DockEntry { launch_path: None, windows: vec![] };
    assert_eq!(activate_dock_app(&gone, None, &mut last), DockActivation::Nothing);
    assert_eq!(last.get("explorer.exe"), None);
}

#[test]
fn last_focused_replaces_earlier_records() {
    let mut last = LastFocused::new();
    last.set("a".to_string(), 1);
    last.set("b".to_string(), 2);
    last.set("a".to_string(), 3);
    assert_eq!(last.get("a"), Some(3));
    assert_eq!(last.get("b"), Some(2));
    assert_eq!(last.get("c"), None);
}

#[test]
fn focus_moves_slide_only_to_another_page() {
    assert_eq!(focus_move(Some(2), 0), FocusMove::SlideTo(2));
    assert_eq!(focus_move(Some(0), 0), FocusMove::CloseOnto);
    assert_eq!(focus_move(None, 0), FocusMove::CloseOnto);
}

#[test]
fn dock_menus_offer_pin_or_unpin_and_open() {
    assert_eq!(pin_menu_label(true), "Unpin from dock");
    assert_eq!(pin_menu_label(false), "Pin to dock");
    assert_eq!(overview_pin_item(true), 1);
    assert_eq!(overview_pin_item(false), 2);
    assert_eq!(overview_menu_command(1), DockMenuCommand::Unpin);
    assert_eq!(overview_menu_command(2), DockMenuCommand::Pin);
    assert_eq!(overview_menu_command(3), DockMenuCommand::OpenNewWindow);
    assert_eq!(overview_menu_command(0), DockMenuCommand::Nothing);
    assert_eq!(desktop_menu_command(1, true), DockMenuCommand::Unpin);
    assert_eq!(desktop_menu_command(1, false), DockMenuCommand::Pin);
    assert_eq!(desktop_menu_command(2, false), DockMenuCommand::OpenNewWindow);
    assert_eq!(desktop_menu_command(0, false), DockMenuCommand::Nothing);
}

#[test]
fn bar_clicks_reach_their_regions() {
    assert_eq!(on_bar_click(10, 96, 1920, 24, true, 3, 24, false), BarClick::ToggleOverview);
    assert_eq!(on_bar_click(88 + 14 + 3, 96, 1920, 24, true, 3, 24, false), BarClick::GoToWorkspace { index: 1, slide: false });
    assert_eq!(on_bar_click(88 + 28, 96, 1920, 24, true, 3, 24, true), BarClick::GoToWorkspace { index: 2, slide: true });
    assert_eq!(on_bar_click(960, 96, 1920, 24, true, 3, 24, false), BarClick::ToggleCalendar);
    assert_eq!(on_bar_click(1850, 96, 1920, 24, true, 3, 24, false), BarClick::ToggleQuickSettings);
    assert_eq!(on_bar_click(1810, 96, 1920, 24, true, 3, 24, false), BarClick::OpenSettings);
    assert_eq!(on_bar_click(1850, 96, 1920, 24, false, 3, 24, false), BarClick::Nothing);
}

#[test]
fn the_app_index_is_sorted_case_insensitively_and_collapses_ascii_duplicates() {
    let found = vec![
        SearchApp { name: "paint".to_string(), path: "user/paint.lnk".to_string() },
        SearchApp { name: "Calculator".to_string(), path: "all/calc.lnk".to_string() },
        SearchApp { name: "Paint".to_string(), path: "all/paint.lnk".to_string() },
        SearchApp { name: "bash".to_string(), path: "all/bash.lnk".to_string() },
        SearchApp { name: "calculator".to_string(), path: "user/calc.lnk".to_string() },
    ];
    let index = build_app_index(found);
    let names: Vec<(&str, &str)> = index.iter().map(|a| (a.name.as_str(), a.path.as_str())).collect();
    assert_eq!(
        names,
        vec![("bash", "all/bash.lnk"), ("Calculator", "all/calc.lnk"), ("paint", "user/paint.lnk")]
    );
    assert!(build_app_index(Vec::new()).is_empty());
}

#[test]
fn a_click_while_searching_picks_a_result_row_or_dismisses() {
    use_rows();
}

fn use_rows() {
    let row = |i: i32| groveshell::geometry::Rect { left: 280, top: 38 + 36 * i, right: 920, bottom: 74 + 36 * i };
    let rows = [row(0), row(1), row(2), row(3)];
    assert_eq!(groveshell::search::search_row_hit(&rows, 300, 40), None);
    assert_eq!(groveshell::search::search_row_hit(&rows, 300, 80), Some(0));
    assert_eq!(groveshell::search::search_row_hit(&rows, 300, 150), Some(2));
    assert_eq!(groveshell::search::search_row_hit(&rows, 100, 150), None);
    assert_eq!(groveshell::search::search_row_hit(&[], 0, 0), None);
}
