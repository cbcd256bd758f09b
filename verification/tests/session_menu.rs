use groveshell::session_menu::{action_from_id, action_id, action_label, confirm_label, needs_confirm, SessionAction};

#[test]
fn destructive_actions_need_confirm() {
    assert!(needs_confirm(SessionAction::ShutDown));
    assert!(needs_confirm(SessionAction::Restart));
    assert!(needs_confirm(SessionAction::SignOut));
}

#[test]
fn safe_actions_do_not_need_confirm() {
    assert!(!needs_confirm(SessionAction::Lock));
    assert!(!needs_confirm(SessionAction::Sleep));
}

#[test]
fn menu_ids_map_back_to_their_actions() {
    assert_eq!(action_from_id(1), Some(SessionAction::Lock));
    assert_eq!(action_from_id(2), Some(SessionAction::Sleep));
    assert_eq!(action_from_id(3), Some(SessionAction::SignOut));
    assert_eq!(action_from_id(4), Some(SessionAction::Restart));
    assert_eq!(action_from_id(5), Some(SessionAction::ShutDown));
    assert_eq!(action_from_id(0), None);
    assert_eq!(action_from_id(99), None);
}

#[test]
fn confirm_labels_name_the_action() {
    assert_eq!(confirm_label(SessionAction::ShutDown), "Shut down now? Unsaved work in open apps may be lost.");
    assert_eq!(confirm_label(SessionAction::SignOut), "Sign out now? Unsaved work in open apps may be lost.");
    assert_eq!(confirm_label(SessionAction::Lock), "");
}

#[test]
fn menu_items_carry_their_labels_and_ids() {
    use_labels();
}

fn use_labels() {
    let all = [
        SessionAction::Lock,
        SessionAction::Sleep,
        SessionAction::SignOut,
        SessionAction::Restart,
        SessionAction::ShutDown,
    ];
    let labels: Vec<&str> = all.iter().map(|a| action_label(*a)).collect();
    assert_eq!(labels, vec!["Lock", "Sleep", "Sign out", "Restart", "Shut down"]);
    for a in all {
        assert_eq!(action_from_id(action_id(a)), Some(a));
    }
}
