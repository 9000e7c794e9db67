//! The states of the interactive main menu. The dialog itself is terminal
//! I/O and lives outside this crate; what the chosen entry means for the
//! application is decided here.

use vstd::prelude::*;

verus! {

/// What the application does after the main menu closes.
#[derive(Debug, Clone, Copy, PartialEq, Eq, Structural)]
pub enum MainMenuStates {
    /// Connect to the device with the current port configuration.
    ConnectionRequestState,
    /// The configuration changed; show the menu again.
    ConfigurationState,
    /// Leave the application.
    ExitState,
}

/// The state that choosing the given main-menu entry leads to: the first
/// entry connects, the two configuration entries re-show the menu after
/// their dialog, and anything else exits.
pub fn state_for_selection(selection: usize) -> (r: MainMenuStates)
    ensures
        selection == 0 ==> r is ConnectionRequestState,
        1 <= selection <= 2 ==> r is ConfigurationState,
        selection >= 3 ==> r is ExitState,
{
    if selection == 0 {
        MainMenuStates::ConnectionRequestState
    } else if selection <= 2 {
        MainMenuStates::ConfigurationState
    } else {
        MainMenuStates::ExitState
    }
}

} // verus!
