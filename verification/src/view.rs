//! The secondary views of the launcher, named for the program that shows
//! them.

use vstd::prelude::*;

verus! {

/// The channel on which the loaded list is pushed to the display layer.
pub const COMMANDS_CHANNEL: &'static str = "commands";

/// The channel on which the pending command is pushed into the confirmation
/// view.
pub const UPDATE_COMMAND_CHANNEL: &'static str = "update-command";

/// The event by which a view announces that it has loaded.
pub const VIEW_LOADED_EVENT: &'static str = "confirmation-window-loaded";

/// The event that asks for the entry view.
pub const ADD_REQUESTED_EVENT: &'static str = "open_add_command";

/// A request to show a view: the label it is known by and the page it
/// displays.
#[derive(Clone, Debug, PartialEq, Eq)]
pub struct ViewRequest {
    pub label: String,
    pub page: String,
}

/// The view that asks for confirmation before a command runs.
pub fn confirmation_view() -> (request: ViewRequest)
    ensures
        request.label@ == "confirmation"@,
        request.page@ == "confirmation.html"@,
{
    ViewRequest { label: "confirmation".to_owned(), page: "confirmation.html".to_owned() }
}

/// The view in which a new entry is typed in.
pub fn entry_view() -> (request: ViewRequest)
    ensures
        request.label@ == "add-command"@,
        request.page@ == "add_command.html"@,
{
    ViewRequest { label: "add-command".to_owned(), page: "add_command.html".to_owned() }
}

} // verus!
