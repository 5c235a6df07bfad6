//! The application: the one active screen, and the rules by which another
//! takes its place.
//!
//! The application never talks to the storage layer. Where a screen needs a
//! page of records, the operation at hand returns the [`Fetch`] to make, and
//! the caller hands the outcome to [`App::set_state`].

use crate::actions::Event;
use crate::db::projects::Project as DBProject;
use crate::error::{AppError, DataError};
use crate::states::home::{lemma_ready, Home};
use crate::states::project::{lemma_loaded, Project};
use crate::states::{AppState, AppStates, Fetch, Lifecycle, Screen, PAGE_SIZE};
use vstd::prelude::*;

verus! {

/// The application's state.
#[derive(Debug, Clone, PartialEq, Eq)]
pub struct App {
    /// Whether the outer loop is to go on.
    pub running: bool,
    /// The active screen.
    pub state: Screen,
}

/// The screen of the kind `target` as `init` leaves it, given what the
/// storage layer answered for the page `page`; `None` where `init` fails.
pub open spec fn arrival(target: AppStates, page: u64, loaded: Result<Vec<DBProject>, DataError>) -> Option<
    Screen,
> {
    match target {
        AppStates::Home => Some(Screen::Home(Home::ready())),
        AppStates::Project => match loaded {
            Ok(records) => Some(Screen::Project(Project::loaded(records, page))),
            Err(_) => None,
        },
    }
}

/// The application after the screen `next` has been offered to it: a
/// running application takes it, one that was told to quit keeps what it
/// has.
pub open spec fn commit(app: App, next: Screen) -> App {
    if app.running {
        App { state: next, ..app }
    } else {
        app
    }
}

/// What becomes of the application when its active screen has answered
/// with `event` and asked for the page `turn`: the application afterwards,
/// and the page of records to fetch, if one is needed.
///
/// Only `Goto` navigates. The home screen needs no records and becomes
/// active at once; the list of projects becomes active once its first page
/// has arrived. A turn of the page asks for that page and changes nothing
/// until it has arrived.
pub open spec fn settle(app: App, event: Event, turn: Option<u64>) -> (App, Option<Fetch>) {
    match event {
        Event::Goto(AppStates::Home) => (commit(app, Screen::Home(Home::ready())), None),
        Event::Goto(AppStates::Project) => (
            app,
            Some(Fetch { target: AppStates::Project, page: 0, page_size: PAGE_SIZE }),
        ),
        Event::Nothing => match turn {
            Some(page) => (app, Some(Fetch { target: app.state.id(), page, page_size: PAGE_SIZE })),
            None => (app, None),
        },
    }
}

impl Default for App {
    fn default() -> (app: Self)
        ensures
            app.running,
            app.state == Screen::Home(Home::ready()),
            app.wf(),
    {
        App::new()
    }
}

impl App {
    /// The active screen has been initialised.
    pub open spec fn wf(&self) -> bool {
        self.state.initialized()
    }

    /// Tells whether the active screen has been initialised.
    pub fn is_wf(&self) -> (yes: bool)
        ensures
            yes == self.wf(),
    {
        self.state.is_initialized()
    }

    /// Whether the screen of the kind `id` is the active one.
    pub open spec fn is_active(&self, id: AppStates) -> bool {
        self.state.id() == id
    }

    /// A running application on the home screen.
    pub fn new() -> (app: Self)
        ensures
            app.running,
            app.state == Screen::Home(Home::ready()),
            app.wf(),
    {
        let mut state = Screen::fresh(AppStates::Home, 0);
        let _ = state.init(Ok(Vec::new()));
        App { running: true, state }
    }

    /// Tells the outer loop to stop. The active screen is not touched.
    pub fn quit(&mut self)
        ensures
            *final(self) == (App { running: false, ..*old(self) }),
    {
        self.running = false;
    }

    /// Acts on what the active screen answered. See [`settle`].
    pub fn process(&mut self, event: Event, turn: Option<u64>) -> (request: Option<Fetch>)
        requires
            old(self).wf(),
        ensures
            (*final(self), request) == settle(*old(self), event, turn),
            final(self).wf(),
    {
        match event {
            Event::Goto(id) => {
                let mut next = Screen::fresh(id, 0);
                match next.query() {
                    Some(fetch) => Some(fetch),
                    None => {
                        let _ = next.init(Ok(Vec::new()));
                        if self.running {
                            self.state = next;
                        }
                        None
                    },
                }
            },
            Event::Nothing => match turn {
                Some(page) => Some(Fetch { target: self.active(), page, page_size: PAGE_SIZE }),
                None => None,
            },
        }
    }

    /// The kind of the active screen.
    pub fn active(&self) -> (id: AppStates)
        ensures
            self.is_active(id),
    {
        match &self.state {
            Screen::Home(_) => AppStates::Home,
            Screen::Project(_) => AppStates::Project,
        }
    }

    /// One beat of the timer: the active screen ticks, and what it answers
    /// is acted on as the answer to an action is.
    pub fn tick(&mut self) -> (request: Option<Fetch>)
        requires
            old(self).wf(),
        ensures
            (*final(self), request) == settle(*old(self), Event::Nothing, None),
            final(self).wf(),
    {
        let event = self.state.tick();
        self.process(event, None)
    }

    /// Makes a screen of the kind `request.target` the active one, given
    /// what the storage layer answered to `request`.
    ///
    /// A fresh screen is built and initialised with the answer. Only if that
    /// succeeds, and the application has not been told to quit meanwhile,
    /// does the fresh screen replace the active one. Where the storage layer
    /// failed for a screen that needs it, nothing changes and the failure is
    /// reported.
    pub fn set_state(&mut self, request: Fetch, loaded: Result<Vec<DBProject>, DataError>) -> (done: Result<
        (),
        AppError,
    >)
        ensures
            *final(self) == match arrival(request.target, request.page, loaded) {
                Some(next) => commit(*old(self), next),
                None => *old(self),
            },
            done is Err <==> arrival(request.target, request.page, loaded) is None,
            done is Err ==> *final(self) == *old(self),
            done matches Err(error) ==> loaded matches Err(cause) && error == AppError::DataUnavailable(cause),
            old(self).wf() ==> final(self).wf(),
    {
        let mut next = Screen::fresh(request.target, request.page);
        match next.init(loaded) {
            Ok(()) => {
                if self.running {
                    self.state = next;
                }
                Ok(())
            },
            Err(error) => Err(error),
        }
    }
}

/// Exactly one kind of screen is active at any time.
pub proof fn lemma_one_screen_active(app: App)
    ensures
        app.is_active(app.state.id()),
        forall|a: AppStates, b: AppStates| app.is_active(a) && app.is_active(b) ==> a == b,
{
}

/// A screen that arrives has been initialised, is of the kind asked for,
/// and, where it is a list of projects, shows the page asked for with the
/// records that were loaded.
pub proof fn lemma_arrival_is_initialized(target: AppStates, page: u64, loaded: Result<Vec<DBProject>, DataError>)
    ensures
        arrival(target, page, loaded) is None <==> target == AppStates::Project && loaded is Err,
        arrival(target, page, loaded) matches Some(next) ==> {
            &&& next.initialized()
            &&& next.id() == target
            &&& next matches Screen::Project(list) ==> loaded matches Ok(records) && list.page() == page
                && list.records() == records.deep_view()
        },
{
    lemma_ready();
    if let Ok(records) = loaded {
        lemma_loaded(records, page);
    }
}

/// Acting on a screen's answer leaves an initialised screen active, and
/// changes the active screen only on a `Goto` that needs no records.
pub proof fn lemma_settle_keeps_initialized(app: App, event: Event, turn: Option<u64>)
    requires
        app.wf(),
    ensures
        settle(app, event, turn).0.wf(),
        settle(app, event, turn).0.running == app.running,
        event != Event::Goto(AppStates::Home) ==> settle(app, event, turn).0 == app,
{
    lemma_ready();
}

} // verus!
