//! The bar's session / power menu: its actions, the menu command ids, and
//! which actions need an "are you sure?" confirmation.

use vstd::prelude::*;

verus! {

/// What the session menu can do to the user session or the machine.
#[derive(Clone, Copy, PartialEq, Eq, Debug, Structural)]
pub enum SessionAction {
    Lock,
    SignOut,
    Sleep,
    Restart,
    ShutDown,
}

/// Whether an action needs a confirmation first: the ones that close the
/// user's apps or power the machine off.
pub fn needs_confirm(action: SessionAction) -> (r: bool)
    ensures
        r == (action == SessionAction::SignOut || action == SessionAction::Restart || action
            == SessionAction::ShutDown),
{
    match action {
        SessionAction::SignOut | SessionAction::Restart | SessionAction::ShutDown => true,
        _ => false,
    }
}

/// The menu command id of each action (the menu lists Lock, Sleep, a
/// separator, Sign out, Restart, Shut down).
pub open spec fn menu_id(action: SessionAction) -> u32 {
    match action {
        SessionAction::Lock => 1,
        SessionAction::Sleep => 2,
        SessionAction::SignOut => 3,
        SessionAction::Restart => 4,
        SessionAction::ShutDown => 5,
    }
}

/// The menu item label of each action.
pub fn action_label(action: SessionAction) -> (r: &'static str)
    ensures
        action == SessionAction::Lock ==> r@ == "Lock"@,
        action == SessionAction::Sleep ==> r@ == "Sleep"@,
        action == SessionAction::SignOut ==> r@ == "Sign out"@,
        action == SessionAction::Restart ==> r@ == "Restart"@,
        action == SessionAction::ShutDown ==> r@ == "Shut down"@,
{
    match action {
        SessionAction::Lock => "Lock",
        SessionAction::Sleep => "Sleep",
        SessionAction::SignOut => "Sign out",
        SessionAction::Restart => "Restart",
        SessionAction::ShutDown => "Shut down",
    }
}

/// The menu command id of `action` (see [`menu_id`]).
pub fn action_id(action: SessionAction) -> (r: u32)
    ensures
        r == menu_id(action),
{
    match action {
        SessionAction::Lock => 1,
        SessionAction::Sleep => 2,
        SessionAction::SignOut => 3,
        SessionAction::Restart => 4,
        SessionAction::ShutDown => 5,
    }
}

/// The action a menu command id stands for; `None` for 0 (dismissed) or
/// any unknown id.
pub fn action_from_id(id: u32) -> (r: Option<SessionAction>)
    ensures
        r matches Some(a) ==> menu_id(a) == id,
        r is None <==> !(1 <= id <= 5),
{
    match id {
        1 => Some(SessionAction::Lock),
        2 => Some(SessionAction::Sleep),
        3 => Some(SessionAction::SignOut),
        4 => Some(SessionAction::Restart),
        5 => Some(SessionAction::ShutDown),
        _ => None,
    }
}

/// Every action's menu id maps back to it.
pub proof fn lemma_menu_ids_round_trip(action: SessionAction)
    ensures
        1 <= menu_id(action) <= 5,
        forall|a: SessionAction| menu_id(a) == menu_id(action) ==> a == action,
{
}

/// The confirmation prompt for a destructive action (empty for the others).
pub fn confirm_label(action: SessionAction) -> (r: &'static str)
    ensures
        action == SessionAction::SignOut ==> r@ == "Sign out now? Unsaved work in open apps may be lost."@,
        action == SessionAction::Restart ==> r@ == "Restart now? Unsaved work in open apps may be lost."@,
        action == SessionAction::ShutDown ==> r@ == "Shut down now? Unsaved work in open apps may be lost."@,
        !needs_confirm_spec(action) ==> r@ == ""@,
{
    match action {
        SessionAction::SignOut => "Sign out now? Unsaved work in open apps may be lost.",
        SessionAction::Restart => "Restart now? Unsaved work in open apps may be lost.",
        SessionAction::ShutDown => "Shut down now? Unsaved work in open apps may be lost.",
        _ => "",
    }
}

/// The actions [`needs_confirm`] accepts.
pub open spec fn needs_confirm_spec(action: SessionAction) -> bool {
    action == SessionAction::SignOut || action == SessionAction::Restart || action == SessionAction::ShutDown
}

} // verus!
