use groveshell::geometry::Rect;
use groveshell::settings::{
    content_rect, nav_hit_test, nav_items, nav_layout, segmented_hit, slider_value_at, spawn_position,
    DockEdit, DockPage, HomeAction, HomePage, TopBarEdit, TopBarPage, NAV_ITEM_COUNT, NAV_ITEM_HEIGHT, NAV_WIDTH,
};
use groveshell::settings::corner_display_name;

#[test]
fn nav_hit_test_finds_the_first_item_at_the_top() {
    assert_eq!(nav_hit_test(10, 5), Some(0));
}

#[test]
fn nav_hit_test_finds_the_last_item() {
    let last_top = nav_layout().last().unwrap().top;
    assert_eq!(nav_hit_test(10, last_top + 5), Some(nav_items().len() - 1));
}

#[test]
fn nav_hit_test_outside_the_nav_width_returns_none() {
    assert_eq!(nav_hit_test(NAV_WIDTH + 10, 5), None);
}

#[test]
fn nav_hit_test_below_the_last_item_returns_none() {
    let below = nav_layout().last().unwrap().bottom + 100;
    assert_eq!(nav_hit_test(10, below), None);
}

#[test]
fn nav_layout_stacks_items_one_row_height_apart() {
    let rows = nav_layout();
    assert_eq!(rows.len(), NAV_ITEM_COUNT);
    assert_eq!(rows[0], Rect { left: 0, top: 0, right: NAV_WIDTH, bottom: NAV_ITEM_HEIGHT });
    assert_eq!(rows[1].top, NAV_ITEM_HEIGHT);
}

#[test]
fn nav_hit_test_on_a_row_boundary_picks_the_lower_row() {
    assert_eq!(nav_hit_test(0, NAV_ITEM_HEIGHT), Some(1));
    assert_eq!(nav_hit_test(-1, 5), None);
}

#[test]
fn segmented_hit_splits_the_control_evenly() {
    let r = Rect { left: 0, top: 0, right: 300, bottom: 30 };
    let opts = ["left", "center", "right"];
    assert_eq!(segmented_hit(r, &opts, 10, 10), Some(0));
    assert_eq!(segmented_hit(r, &opts, 150, 10), Some(1));
    assert_eq!(segmented_hit(r, &opts, 299, 10), Some(2));
    assert_eq!(segmented_hit(r, &opts, 300, 10), None);
    assert_eq!(segmented_hit(r, &opts, 10, 40), None);
}

#[test]
fn slider_value_maps_the_track_ends_to_the_range_ends() {
    let r = Rect { left: 100, top: 0, right: 420, bottom: 24 };
    assert_eq!(slider_value_at(r, 100, 24, 48), 24);
    assert_eq!(slider_value_at(r, 420, 24, 48), 48);
    assert_eq!(slider_value_at(r, 0, 24, 48), 24);
    assert_eq!(slider_value_at(r, 9999, 24, 48), 48);
    assert_eq!(slider_value_at(r, 260, 24, 48), 36);
}

#[test]
fn corner_display_name_names_known_corners_and_echoes_others() {
    assert_eq!(corner_display_name("top_left"), "Top-left corner");
    assert_eq!(corner_display_name("bottom_right"), "Bottom-right corner");
    assert_eq!(corner_display_name("middle"), "middle");
}

#[test]
fn spawn_position_centres_in_the_work_area_or_falls_back() {
    let work = Rect { left: 0, top: 0, right: 1920, bottom: 1080 };
    assert_eq!(spawn_position(Some(work)), (570, 230));
    assert_eq!(spawn_position(None), (200, 200));
    let small = Rect { left: 10, top: 20, right: 500, bottom: 400 };
    assert_eq!(spawn_position(Some(small)), (10, 20));
}

#[test]
fn dock_page_click_on_alignment_segment_sets_alignment() {
    let client = Rect { left: 0, top: 0, right: 780, bottom: 620 };
    let c = content_rect(client);
    let page = DockPage::new();
    let seg = page.alignment_rect(c);
    let third = (seg.right - seg.left) / 3;
    assert_eq!(page.on_click(seg.left + 1, seg.top + 1, c), Some(DockEdit::SetAlignment(0)));
    assert_eq!(page.on_click(seg.left + third * 2 + 1, seg.top + 1, c), Some(DockEdit::SetAlignment(2)));
}

#[test]
fn top_bar_page_click_on_blur_toggle_flips_blur() {
    let client = Rect { left: 0, top: 0, right: 780, bottom: 620 };
    let c = content_rect(client);
    let page = TopBarPage::new();
    let t = page.blur_toggle_rect(c);
    assert_eq!(page.on_click(t.left + 1, t.top + 1, c), Some(TopBarEdit::ToggleBlur));
    assert_eq!(page.on_click(c.left - 5, c.top - 5, c), None);
}

#[test]
fn home_page_restore_button_toggles_groveshell() {
    let client = Rect { left: 0, top: 0, right: 780, bottom: 620 };
    let c = content_rect(client);
    let page = HomePage::new();
    let b = page.restore_button_rect(c);
    assert_eq!(page.on_click(b.left + 1, b.top + 1, c), Some(HomeAction::ToggleGroveShell));
}

#[test]
fn nav_items_lists_the_pages_in_order() {
    assert_eq!(nav_items(), ["Home", "Dock", "Top Bar", "Overview", "Input"]);
}
