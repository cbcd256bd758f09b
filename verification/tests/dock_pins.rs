use groveshell::dock_pins::{load, load_or_seed, load_or_seed_file, reorder, save_text};

fn v(items: &[&str]) -> Vec<String> {
    items.iter().map(|s| s.to_string()).collect()
}

#[test]
fn reorder_moves_the_entry_from_one_index_to_another() {
    let pins = v(&["a", "b", "c"]);
    let result = reorder(&pins, 0, 2);
    assert_eq!(result, v(&["b", "c", "a"]));
}

#[test]
fn reorder_moving_backward_shifts_the_entries_between() {
    let pins = v(&["a", "b", "c"]);
    let result = reorder(&pins, 2, 0);
    assert_eq!(result, v(&["c", "a", "b"]));
}

#[test]
fn reorder_same_index_is_a_no_op() {
    let pins = v(&["a", "b"]);
    assert_eq!(reorder(&pins, 1, 1), pins);
}

#[test]
fn reorder_out_of_range_index_returns_pins_unchanged() {
    let pins = v(&["a", "b"]);
    assert_eq!(reorder(&pins, 0, 5), pins);
    assert_eq!(reorder(&pins, 5, 0), pins);
}

#[test]
fn reorder_there_and_back_restores_the_order() {
    let pins = v(&["a", "b", "c", "d"]);
    let moved = reorder(&pins, 1, 3);
    assert_eq!(moved, v(&["a", "c", "d", "b"]));
    assert_eq!(reorder(&moved, 3, 1), pins);
}

#[test]
fn reorder_keeps_every_entry_once() {
    let pins = v(&["a", "b", "c", "d", "e"]);
    let mut moved = reorder(&pins, 4, 1);
    assert_eq!(moved[1], "e");
    moved.sort();
    assert_eq!(moved, pins);
}

#[test]
fn load_or_seed_keeps_a_loaded_list_and_seeds_otherwise() {
    let loaded = load_or_seed(Some(v(&["x"])), v(&["s"]));
    assert_eq!(loaded.pins, v(&["x"]));
    assert!(!loaded.needs_save);
    let loaded_empty = load_or_seed(Some(vec![]), v(&["s"]));
    assert!(loaded_empty.pins.is_empty());
    assert!(!loaded_empty.needs_save);
    let seeded = load_or_seed(None, v(&["s"]));
    assert_eq!(seeded.pins, v(&["s"]));
    assert!(seeded.needs_save);
}

#[test]
fn load_parses_a_json_array_of_paths() {
    let text = "[\"C:\\\\Apps\\\\a.lnk\", \"b.exe\"]".to_string();
    assert_eq!(load(Some(text)), Some(v(&["C:\\Apps\\a.lnk", "b.exe"])));
    assert_eq!(load(Some("[]".to_string())), Some(vec![]));
}

#[test]
fn load_treats_a_missing_or_broken_file_as_nothing_persisted() {
    assert_eq!(load(None), None);
    assert_eq!(load(Some("{\"pins\": []}".to_string())), None);
    assert_eq!(load(Some("[1, 2]".to_string())), None);
    assert_eq!(load(Some("".to_string())), None);
}

#[test]
fn save_text_pretty_prints_and_loads_back() {
    let pins = v(&["a", "b"]);
    let text = save_text(&pins);
    assert_eq!(text, "[\n  \"a\",\n  \"b\"\n]");
    assert_eq!(load(Some(text)), Some(pins));
    assert_eq!(save_text(&[]), "[]");
}

#[test]
fn load_or_seed_file_writes_only_a_seeded_list() {
    let kept = load_or_seed_file(Some("[\"x\"]".to_string()), v(&["s"]));
    assert_eq!(kept.pins, v(&["x"]));
    assert!(kept.save.is_none());
    let seeded = load_or_seed_file(None, v(&["s"]));
    assert_eq!(seeded.pins, v(&["s"]));
    assert_eq!(seeded.save, Some("[\n  \"s\"\n]".to_string()));
}
