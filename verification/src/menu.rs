//! What the entries of the application menu and of the tray menu do.

use vstd::prelude::*;
use vstd::string::*;
use crate::text::same_text;

verus! {

/// The menu entry that shows the main window.
pub const MENU_SHOW: &'static str = "oko_show";

/// The menu entry that opens the search.
pub const MENU_OPEN_SEARCH: &'static str = "oko_open_search";

/// The menu entry that opens the settings.
pub const MENU_OPEN_SETTINGS: &'static str = "oko_open_settings";

/// The menu entry that quits the application.
pub const MENU_QUIT: &'static str = "oko_quit";

/// The event under which a new snapshot of the runtime goes to the front-end.
pub const EVENT_RUNTIME_PROFILE: &'static str = "desktop://runtime-profile";

/// The event under which a named action goes to the front-end.
pub const EVENT_ACTION: &'static str = "desktop://action";

/// The name under which the front-end knows the search.
pub const ACTION_OPEN_SEARCH: &'static str = "open-search";

/// The name under which the front-end knows the settings.
pub const ACTION_OPEN_SETTINGS: &'static str = "open-settings";

/// What the choice of a menu entry leads to.
#[derive(Clone, Copy, Debug, PartialEq, Eq, Structural)]
pub enum MenuAction {
    /// The main window is shown, restored and focused.
    ShowMainWindow,
    /// The front-end is asked to open its search.
    OpenSearch,
    /// The front-end is asked to open its settings.
    OpenSettings,
    /// The application exits.
    Quit,
    /// Nothing: the entry is none of the supervisor's.
    Ignore,
}

/// What the choice of the menu entry `menu_id` leads to.
pub open spec fn menu_action(menu_id: Seq<char>) -> MenuAction {
    if menu_id == MENU_SHOW@ {
        MenuAction::ShowMainWindow
    } else if menu_id == MENU_OPEN_SEARCH@ {
        MenuAction::OpenSearch
    } else if menu_id == MENU_OPEN_SETTINGS@ {
        MenuAction::OpenSettings
    } else if menu_id == MENU_QUIT@ {
        MenuAction::Quit
    } else {
        MenuAction::Ignore
    }
}

/// The name to send to the front-end for a menu action, if it is one that the
/// front-end carries out.
pub open spec fn frontend_action(action: MenuAction) -> Option<Seq<char>> {
    match action {
        MenuAction::OpenSearch => Some(ACTION_OPEN_SEARCH@),
        MenuAction::OpenSettings => Some(ACTION_OPEN_SETTINGS@),
        _ => None,
    }
}

/// Tells what the choice of the menu entry `menu_id` leads to.
pub fn handle_menu_action(menu_id: &str) -> (action: MenuAction)
    ensures
        action == menu_action(menu_id@),
{
    if same_text(menu_id, MENU_SHOW) {
        MenuAction::ShowMainWindow
    } else if same_text(menu_id, MENU_OPEN_SEARCH) {
        MenuAction::OpenSearch
    } else if same_text(menu_id, MENU_OPEN_SETTINGS) {
        MenuAction::OpenSettings
    } else if same_text(menu_id, MENU_QUIT) {
        MenuAction::Quit
    } else {
        MenuAction::Ignore
    }
}

/// The name to send to the front-end for a menu action, if it is one that the
/// front-end carries out.
pub fn emit_action(action: MenuAction) -> (name: Option<&'static str>)
    ensures
        crate::text::option_str(name) == frontend_action(action),
{
    match action {
        MenuAction::OpenSearch => Some(ACTION_OPEN_SEARCH),
        MenuAction::OpenSettings => Some(ACTION_OPEN_SETTINGS),
        _ => None,
    }
}

} // verus!
