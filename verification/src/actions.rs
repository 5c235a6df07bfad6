//! What a key press means, and what a screen asks of the application in
//! return.

use crate::states::AppStates;
use vstd::prelude::*;

verus! {

/// A user intent, independent of the screen that receives it.
#[derive(Debug, Copy, Clone, PartialEq, Eq, Structural)]
pub enum Action {
    /// No intent at all.
    Nothing,
    /// Leave the application.
    Quit,
    /// Back out of whatever the screen is doing.
    Escape,
    /// From the home screen, open the list of projects.
    HomeGotoProjects,
    /// In the list of projects, show the page after the current one.
    ProjectNextPage,
    /// In the list of projects, show the page before the current one.
    ProjectPreviousPage,
}

impl Default for Action {
    fn default() -> (action: Self)
        ensures
            action == Action::Nothing,
    {
        Action::Nothing
    }
}

/// What a screen asks of the application after an action or a tick.
#[derive(Debug, Copy, Clone, PartialEq, Eq, Structural)]
pub enum Event {
    /// No request: the dispatch ends here.
    Nothing,
    /// Make the screen of the given kind the active one.
    Goto(AppStates),
}

impl Default for Event {
    fn default() -> (event: Self)
        ensures
            event == Event::Nothing,
    {
        Event::Nothing
    }
}

} // verus!
