use vstd::prelude::*;

verus! {

/// The three high-frequency global actions offered in the macOS Dock menu.
#[derive(Debug, Clone, Copy, PartialEq, Eq, Structural)]
pub enum DockMenuAction {
    ToggleDrawing,
    ClearDrawing,
    TogglePenetration,
}

pub open spec fn action_name_spec(action: DockMenuAction) -> Seq<char> {
    match action {
        DockMenuAction::ToggleDrawing => "toggle_drawing"@,
        DockMenuAction::ClearDrawing => "clear_drawing"@,
        DockMenuAction::TogglePenetration => "toggle_penetration"@,
    }
}

pub open spec fn selector_name_spec(action: DockMenuAction) -> Seq<char> {
    match action {
        DockMenuAction::ToggleDrawing => "markerOnToggleDrawing:"@,
        DockMenuAction::ClearDrawing => "markerOnClearDrawing:"@,
        DockMenuAction::TogglePenetration => "markerOnTogglePenetration:"@,
    }
}

/// The Dock menu's entries, top to bottom.
pub open spec fn dock_menu_spec() -> Seq<DockMenuAction> {
    seq![
        DockMenuAction::ToggleDrawing,
        DockMenuAction::ClearDrawing,
        DockMenuAction::TogglePenetration,
    ]
}

/// Prefix of the delegate subclass that answers `applicationDockMenu:`.
pub open spec fn subclass_prefix_spec() -> Seq<char> {
    "MarkerOnDockMenuDelegate_"@
}

impl DockMenuAction {
    /// The system menu action that the entry dispatches.
    pub fn action_name(&self) -> (name: &'static str)
        ensures
            name@ == action_name_spec(*self),
    {
        match self {
            DockMenuAction::ToggleDrawing => "toggle_drawing",
            DockMenuAction::ClearDrawing => "clear_drawing",
            DockMenuAction::TogglePenetration => "toggle_penetration",
        }
    }

    /// The Objective-C selector the entry sends to the app delegate.
    pub fn selector_name(&self) -> (name: &'static str)
        ensures
            name@ == selector_name_spec(*self),
    {
        match self {
            DockMenuAction::ToggleDrawing => "markerOnToggleDrawing:",
            DockMenuAction::ClearDrawing => "markerOnClearDrawing:",
            DockMenuAction::TogglePenetration => "markerOnTogglePenetration:",
        }
    }
}

/// The entries of the Dock menu, in the order they are shown.
pub fn dock_menu_actions() -> (actions: Vec<DockMenuAction>)
    ensures
        actions@ == dock_menu_spec(),
{
    let mut actions: Vec<DockMenuAction> = Vec::new();
    actions.push(DockMenuAction::ToggleDrawing);
    actions.push(DockMenuAction::ClearDrawing);
    actions.push(DockMenuAction::TogglePenetration);
    actions
}

/// The source tag that Dock menu actions are dispatched with.
pub fn dock_menu_source() -> (source: &'static str)
    ensures
        source@ == "dock-menu"@,
{
    "dock-menu"
}

/// The name of the delegate subclass registered for a delegate class.
pub fn dock_menu_subclass_name(superclass_name: &str) -> (name: String)
    ensures
        name@ == subclass_prefix_spec() + superclass_name@,
{
    let prefix: String = "MarkerOnDockMenuDelegate_".to_owned();
    prefix.concat(superclass_name)
}

/// Distinct entries dispatch distinct actions through distinct selectors, so
/// each selector leads to exactly one action.
pub proof fn lemma_dock_entries_are_distinct(a: DockMenuAction, b: DockMenuAction)
    requires
        a != b,
    ensures
        action_name_spec(a) != action_name_spec(b),
        selector_name_spec(a) != selector_name_spec(b),
{
    reveal_strlit("toggle_drawing");
    reveal_strlit("clear_drawing");
    reveal_strlit("toggle_penetration");
    reveal_strlit("markerOnToggleDrawing:");
    reveal_strlit("markerOnClearDrawing:");
    reveal_strlit("markerOnTogglePenetration:");
    assert("toggle_drawing"@.len() == 14);
    assert("clear_drawing"@.len() == 13);
    assert("toggle_penetration"@.len() == 18);
    assert("markerOnToggleDrawing:"@.len() == 22);
    assert("markerOnClearDrawing:"@.len() == 21);
    assert("markerOnTogglePenetration:"@.len() == 26);
}

} // verus!
