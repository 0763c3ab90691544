//! Commands handed to the running instance, and what they do to the window.

use crate::text::same_text;
use vstd::prelude::*;
use vstd::string::*;

verus! {

/// What to do with the main window.
#[derive(Clone, Copy, Debug, PartialEq, Eq, Structural)]
pub enum WindowAction {
    /// Show it near the cursor, focused.
    ShowAtCursor,
    /// Hide it.
    Hide,
}

/// The command in an argument list: the argument after the program path,
/// `"show"` when there is none.
pub fn parse_command_from_args(args: &[String]) -> (r: &str)
    ensures
        args@.len() > 1 ==> r@ == args@[1]@,
        args@.len() <= 1 ==> r@ == "show"@,
{
    if args.len() > 1 {
        args[1].as_str()
    } else {
        "show"
    }
}

/// What a command does, given whether the window is visible: `hide` hides,
/// `toggle` hides a visible window and shows a hidden one, and `show` or any
/// other command shows it.
pub open spec fn action_for(command: Seq<char>, visible: bool) -> WindowAction {
    if command == "hide"@ {
        WindowAction::Hide
    } else if command == "toggle"@ && visible {
        WindowAction::Hide
    } else {
        WindowAction::ShowAtCursor
    }
}

/// What `command` does to the window.
pub fn command_action(command: &str, visible: bool) -> (r: WindowAction)
    ensures
        r == action_for(command@, visible),
{
    if same_text(command, "hide") {
        WindowAction::Hide
    } else if same_text(command, "toggle") && visible {
        WindowAction::Hide
    } else {
        WindowAction::ShowAtCursor
    }
}

} // verus!
