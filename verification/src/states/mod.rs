//! The screens of the application and what they have in common.

use crate::actions::{Action, Event};
use crate::db::projects::Project as DBProject;
use crate::error::{AppError, DataError};
use crate::keybindings::{Keybinding, KeybindingView, Keybindings};
use crate::states::home::Home;
use crate::states::project::Project;
use crate::ui::{Paragraph, ParagraphView, Rect};
use vstd::prelude::*;

pub mod home;
pub mod project;

verus! {

/// How many records a page holds.
pub const PAGE_SIZE: u64 = 12;

/// The kinds of screen. A value names a kind, never a live screen.
#[derive(Debug, Copy, Clone, PartialEq, Eq, Structural)]
pub enum AppStates {
    /// The landing screen.
    Home,
    /// The paginated list of projects.
    Project,
}

impl Default for AppStates {
    fn default() -> (id: Self)
        ensures
            id == AppStates::Home,
    {
        AppStates::Home
    }
}

/// A page of records that the storage layer is asked for, and the kind of
/// screen that waits for it.
#[derive(Debug, Copy, Clone, PartialEq, Eq, Structural)]
pub struct Fetch {
    pub target: AppStates,
    /// The page, counted from zero.
    pub page: u64,
    pub page_size: u64,
}

/// A screen is built empty and is of use once `init` has succeeded on it.
pub trait Lifecycle {
    /// Whether `init` has succeeded on this screen.
    spec fn initialized(&self) -> bool;

    /// Tells whether `init` has succeeded on this screen.
    fn is_initialized(&self) -> (yes: bool)
        ensures
            yes == self.initialized(),
    ;
}

/// What a screen shows.
pub trait RenderState: Lifecycle {
    /// The blocks of text that make up the screen in `area`.
    spec fn drawing(&self, area: Rect) -> Seq<ParagraphView>;

    /// Describes the screen for the given area. Changes nothing.
    fn render(&self, area: Rect) -> (blocks: Vec<Paragraph>)
        requires
            self.initialized(),
        ensures
            blocks.deep_view() == self.drawing(area),
    ;
}

/// A screen: a unit of the interface with its own data and its own answer
/// to each action.
pub trait AppState: Keybindings + RenderState + Sized {
    /// The kind of this screen.
    spec fn id(&self) -> AppStates;

    /// Whether the screen has an answer of its own to `action`. An action
    /// that it does not handle is inert.
    spec fn handles(&self, action: Action) -> bool;

    /// The page that the screen asks to be shown in place of its own in
    /// answer to `action`, if it asks for one.
    spec fn turns_to(&self, action: Action) -> Option<u64>;

    /// The event that the screen answers `action` with.
    spec fn answer(&self, action: Action) -> Event;

    /// The name shown in the status bar.
    fn display_name(&self) -> (name: &'static str);

    /// The page of records that `init` waits for: `None` where the screen
    /// keeps no records.
    fn query(&self) -> (fetch: Option<Fetch>)
        ensures
            fetch matches Some(f) ==> f.target == self.id() && f.page_size == PAGE_SIZE,
    ;

    /// Completes the screen with what the storage layer answered to
    /// `query`. On an error the screen is left as it was.
    fn init(&mut self, loaded: Result<Vec<DBProject>, DataError>) -> (done: Result<(), AppError>)
        ensures
            final(self).id() == old(self).id(),
            done is Ok ==> final(self).initialized(),
            done is Err ==> *final(self) == *old(self),
            done matches Err(error) ==> loaded matches Err(cause) && error == AppError::DataUnavailable(cause),
    ;

    /// One beat of the application's timer.
    fn tick(&mut self) -> (event: Event)
        requires
            old(self).initialized(),
        ensures
            final(self).initialized(),
            final(self).id() == old(self).id(),
    ;

    /// The page to load in answer to `action`, if the screen is to be
    /// refreshed in place.
    fn reload(&self, action: Action) -> (page: Option<u64>)
        requires
            self.initialized(),
        ensures
            page == self.turns_to(action),
            page is Some ==> self.handles(action),
    ;

    /// Answers `action`. Every action has an answer; one that the screen
    /// does not handle leaves it unchanged and asks for nothing.
    fn action(&mut self, action: Action) -> (event: Event)
        requires
            old(self).initialized(),
        ensures
            final(self).initialized(),
            final(self).id() == old(self).id(),
            event == old(self).answer(action),
            !old(self).handles(action) ==> event == Event::Nothing && *final(self) == *old(self),
    ;
}

/// The active screen: one of the kinds, with its data.
#[derive(Debug, Clone, PartialEq, Eq)]
pub enum Screen {
    Home(Home),
    Project(Project),
}

impl Screen {
    /// Whether this is a screen of the kind `id` before `init`, a list of
    /// projects being set to the page `page`.
    pub open spec fn is_blank(&self, id: AppStates, page: u64) -> bool {
        match self {
            Screen::Home(home) => id == AppStates::Home && *home == Home::blank(),
            Screen::Project(list) => id == AppStates::Project && list.is_blank(page),
        }
    }

    /// Builds a screen of the kind `id` with no data. It is of no use until
    /// `init` has succeeded on it.
    pub fn fresh(id: AppStates, page: u64) -> (screen: Screen)
        ensures
            screen.is_blank(id, page),
    {
        match id {
            AppStates::Home => Screen::Home(Home::default()),
            AppStates::Project => Screen::Project(Project::at_page(page)),
        }
    }
}

impl Lifecycle for Screen {
    open spec fn initialized(&self) -> bool {
        match self {
            Screen::Home(home) => home.initialized(),
            Screen::Project(list) => list.initialized(),
        }
    }

    fn is_initialized(&self) -> (yes: bool) {
        match self {
            Screen::Home(home) => home.is_initialized(),
            Screen::Project(list) => list.is_initialized(),
        }
    }
}

impl Keybindings for Screen {
    open spec fn bindings(&self) -> Seq<KeybindingView> {
        match self {
            Screen::Home(home) => home.bindings(),
            Screen::Project(list) => list.bindings(),
        }
    }

    fn keybindings(&self) -> (list: Vec<Keybinding>) {
        match self {
            Screen::Home(home) => home.keybindings(),
            Screen::Project(projects) => projects.keybindings(),
        }
    }
}

impl RenderState for Screen {
    open spec fn drawing(&self, area: Rect) -> Seq<ParagraphView> {
        match self {
            Screen::Home(home) => home.drawing(area),
            Screen::Project(list) => list.drawing(area),
        }
    }

    fn render(&self, area: Rect) -> (blocks: Vec<Paragraph>) {
        match self {
            Screen::Home(home) => home.render(area),
            Screen::Project(list) => list.render(area),
        }
    }
}

impl AppState for Screen {
    open spec fn id(&self) -> AppStates {
        match self {
            Screen::Home(_) => AppStates::Home,
            Screen::Project(_) => AppStates::Project,
        }
    }

    open spec fn handles(&self, action: Action) -> bool {
        match self {
            Screen::Home(home) => home.handles(action),
            Screen::Project(list) => list.handles(action),
        }
    }

    open spec fn turns_to(&self, action: Action) -> Option<u64> {
        match self {
            Screen::Home(home) => home.turns_to(action),
            Screen::Project(list) => list.turns_to(action),
        }
    }

    open spec fn answer(&self, action: Action) -> Event {
        match self {
            Screen::Home(home) => home.answer(action),
            Screen::Project(list) => list.answer(action),
        }
    }

    fn display_name(&self) -> (name: &'static str)
        ensures
            name@ == self.title(),
    {
        match self {
            Screen::Home(home) => home.display_name(),
            Screen::Project(list) => list.display_name(),
        }
    }

    fn query(&self) -> (fetch: Option<Fetch>)
        ensures
            fetch == self.wanted(),
    {
        match self {
            Screen::Home(home) => home.query(),
            Screen::Project(list) => list.query(),
        }
    }

    fn init(&mut self, loaded: Result<Vec<DBProject>, DataError>) -> (done: Result<(), AppError>)
        ensures
            done is Err <==> *old(self) is Project && loaded is Err,
            done is Ok ==> *final(self) == old(self).completed(loaded),
    {
        match self {
            Screen::Home(home) => home.init(loaded),
            Screen::Project(list) => list.init(loaded),
        }
    }

    fn tick(&mut self) -> (event: Event)
        ensures
            event == Event::Nothing,
            *final(self) == *old(self),
    {
        match self {
            Screen::Home(home) => home.tick(),
            Screen::Project(list) => list.tick(),
        }
    }

    fn reload(&self, action: Action) -> (page: Option<u64>) {
        match self {
            Screen::Home(home) => home.reload(action),
            Screen::Project(list) => list.reload(action),
        }
    }

    fn action(&mut self, action: Action) -> (event: Event)
        ensures
            *final(self) == *old(self),
    {
        match self {
            Screen::Home(home) => home.action(action),
            Screen::Project(list) => list.action(action),
        }
    }
}

impl Screen {
    /// The name of the screen in the status bar.
    pub open spec fn title(&self) -> Seq<char> {
        match self {
            Screen::Home(_) => "HOME"@,
            Screen::Project(_) => "PROJECTS"@,
        }
    }

    /// The page of records that the screen waits for before `init`.
    pub open spec fn wanted(&self) -> Option<Fetch> {
        match self {
            Screen::Home(_) => None,
            Screen::Project(list) => Some(
                Fetch { target: AppStates::Project, page: list.page(), page_size: PAGE_SIZE },
            ),
        }
    }

    /// The screen that a successful `init` makes of this one.
    pub open spec fn completed(&self, loaded: Result<Vec<DBProject>, DataError>) -> Screen {
        match self {
            Screen::Home(_) => Screen::Home(Home::ready()),
            Screen::Project(list) => match loaded {
                Ok(records) => Screen::Project(Project::loaded(records, list.page())),
                Err(_) => *self,
            },
        }
    }
}

/// Every screen answers every action, and an action that the screen does
/// not handle is inert: it is answered with no event and asks for no page.
pub proof fn lemma_unhandled_action_is_inert(screen: Screen, action: Action)
    requires
        !screen.handles(action),
    ensures
        screen.answer(action) == Event::Nothing,
        screen.turns_to(action) is None,
{
}

/// No screen binds a key to `Quit`: quitting is the application's own
/// key.
pub proof fn lemma_no_screen_binds_quit(screen: Screen)
    ensures
        forall|i: int| 0 <= i < screen.bindings().len() ==> (#[trigger] screen.bindings()[i]).action != Action::Quit,
{
}

} // verus!
