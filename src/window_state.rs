//! Whether the main window is shown, kept by the application shell.

use vstd::prelude::*;

verus! {

/// The tracked visibility of the main window.
pub struct WindowVisibility {
    visible: bool,
}

impl View for WindowVisibility {
    type V = bool;

    closed spec fn view(&self) -> bool {
        self.visible
    }
}

impl WindowVisibility {
    /// A window not yet shown.
    pub fn new() -> (r: Self)
        ensures
            !r@,
    {
        WindowVisibility { visible: false }
    }
}

/// Records whether the window is shown.
pub fn set_visible(state: &mut WindowVisibility, visible: bool)
    ensures
        final(state)@ == visible,
{
    state.visible = visible;
}

/// Whether the window was last recorded as shown.
pub fn is_visible(state: &WindowVisibility) -> (r: bool)
    ensures
        r == state@,
{
    state.visible
}

} // verus!
