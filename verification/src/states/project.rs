//! The list of projects, one page at a time.

use crate::actions::{Action, Event};
use crate::db::projects::{Project as DBProject, ProjectView};
use crate::error::{AppError, DataError};
use crate::keybindings::{Keybinding, KeybindingView, Keybindings};
use crate::states::{AppState, AppStates, Fetch, Lifecycle, RenderState, PAGE_SIZE};
use crate::ui::{Paragraph, ParagraphView, Rect};
use vstd::prelude::*;

verus! {

/// The screen that lists the projects. It holds one page of them and knows
/// which page that is.
#[derive(Debug, Clone, PartialEq, Eq)]
pub struct Project {
    projects: Vec<DBProject>,
    db_page: u64,
    initialized: bool,
}

impl Default for Project {
    /// The screen before `init`: no records, the first page.
    fn default() -> (screen: Self)
        ensures
            screen.is_blank(0),
    {
        Project::at_page(0)
    }
}

impl Project {
    /// The records on the screen.
    pub closed spec fn records(&self) -> Seq<ProjectView> {
        self.projects.deep_view()
    }

    /// The page on the screen, counted from zero.
    pub closed spec fn page(&self) -> u64 {
        self.db_page
    }

    /// Whether this is the screen before `init`, set to the page `page`:
    /// not initialised, and without records.
    pub open spec fn is_blank(&self, page: u64) -> bool {
        &&& !self.initialized()
        &&& self.records() == Seq::<ProjectView>::empty()
        &&& self.page() == page
    }

    /// The screen after `init` has given the page `page` the records
    /// `projects`.
    pub closed spec fn loaded(projects: Vec<DBProject>, page: u64) -> Project {
        Project { projects, db_page: page, initialized: true }
    }

    /// Whether a page may follow this one: this one is full, and the number
    /// of the next one can be written.
    pub open spec fn has_next(&self) -> bool {
        self.records().len() >= PAGE_SIZE && self.page() < u64::MAX
    }

    /// Whether a page comes before this one.
    pub open spec fn has_previous(&self) -> bool {
        self.page() > 0
    }

    /// The screen before `init`, set to the page `page`.
    pub fn at_page(page: u64) -> (screen: Self)
        ensures
            screen.is_blank(page),
    {
        let screen = Project { projects: Vec::new(), db_page: page, initialized: false };
        assert(screen.projects.deep_view() =~= Seq::<ProjectView>::empty());
        screen
    }

    pub fn projects(&self) -> (projects: &Vec<DBProject>)
        ensures
            projects.deep_view() == self.records(),
    {
        &self.projects
    }

    pub fn db_page(&self) -> (page: u64)
        ensures
            page == self.page(),
    {
        self.db_page
    }

    fn can_turn_forward(&self) -> (yes: bool)
        ensures
            yes == self.has_next(),
    {
        assert(self.projects.deep_view().len() == self.projects.len());
        self.projects.len() as u64 >= PAGE_SIZE && self.db_page < u64::MAX
    }
}

/// What `init` leaves: a screen that is initialised, on the page it was
/// asked for, holding the records it was given.
pub proof fn lemma_loaded(projects: Vec<DBProject>, page: u64)
    ensures
        Project::loaded(projects, page).initialized(),
        Project::loaded(projects, page).records() == projects.deep_view(),
        Project::loaded(projects, page).page() == page,
{
}

impl Lifecycle for Project {
    closed spec fn initialized(&self) -> bool {
        self.initialized
    }

    fn is_initialized(&self) -> (yes: bool) {
        self.initialized
    }
}

/// The binding that turns to the next page.
pub open spec fn next_page_binding() -> KeybindingView {
    KeybindingView { key: 'n', name: "Next Page"@, action: Action::ProjectNextPage }
}

/// The binding that turns to the previous page.
pub open spec fn previous_page_binding() -> KeybindingView {
    KeybindingView { key: 'b', name: "Previous Page"@, action: Action::ProjectPreviousPage }
}

/// The bindings of a list that can turn forward, back, both ways or not at
/// all.
pub open spec fn paging_bindings(forward: bool, back: bool) -> Seq<KeybindingView> {
    let first = if forward {
        seq![next_page_binding()]
    } else {
        Seq::empty()
    };
    if back {
        first.push(previous_page_binding())
    } else {
        first
    }
}

impl Keybindings for Project {
    /// A page offers the turn forward where one may follow it, and the turn
    /// back where one comes before it.
    open spec fn bindings(&self) -> Seq<KeybindingView> {
        paging_bindings(self.has_next(), self.has_previous())
    }

    fn keybindings(&self) -> (list: Vec<Keybinding>) {
        let mut list: Vec<Keybinding> = Vec::new();
        if self.can_turn_forward() {
            list.push(Keybinding { key: 'n', name: String::from_str("Next Page"), action: Action::ProjectNextPage });
        }
        if self.db_page > 0 {
            list.push(
                Keybinding {
                    key: 'b',
                    name: String::from_str("Previous Page"),
                    action: Action::ProjectPreviousPage,
                },
            );
        }
        assert(list.deep_view() =~= self.bindings());
        list
    }
}

impl RenderState for Project {
    /// The list draws nothing of its own.
    open spec fn drawing(&self, area: Rect) -> Seq<ParagraphView> {
        Seq::empty()
    }

    fn render(&self, area: Rect) -> (blocks: Vec<Paragraph>) {
        let blocks: Vec<Paragraph> = Vec::new();
        assert(blocks.deep_view() =~= Seq::<ParagraphView>::empty());
        blocks
    }
}

impl AppState for Project {
    open spec fn id(&self) -> AppStates {
        AppStates::Project
    }

    open spec fn handles(&self, action: Action) -> bool {
        self.turns_to(action) is Some
    }

    open spec fn turns_to(&self, action: Action) -> Option<u64> {
        if action == Action::ProjectNextPage && self.has_next() {
            Some((self.page() + 1) as u64)
        } else if action == Action::ProjectPreviousPage && self.has_previous() {
            Some((self.page() - 1) as u64)
        } else {
            None
        }
    }

    /// The list answers every action with no event: a page is turned by
    /// loading it, which `reload` asks for.
    open spec fn answer(&self, action: Action) -> Event {
        Event::Nothing
    }

    fn display_name(&self) -> (name: &'static str)
        ensures
            name@ == "PROJECTS"@,
    {
        "PROJECTS"
    }

    fn query(&self) -> (fetch: Option<Fetch>)
        ensures
            fetch == Some(Fetch { target: AppStates::Project, page: self.page(), page_size: PAGE_SIZE }),
    {
        Some(Fetch { target: AppStates::Project, page: self.db_page, page_size: PAGE_SIZE })
    }

    /// Takes the page that the storage layer answered with. Where it
    /// answered with an error, the screen stays as it was and the error is
    /// passed on.
    fn init(&mut self, loaded: Result<Vec<DBProject>, DataError>) -> (done: Result<(), AppError>)
        ensures
            done is Ok <==> loaded is Ok,
            loaded matches Ok(records) ==> *final(self) == Project::loaded(records, old(self).page()),
    {
        match loaded {
            Ok(records) => {
                self.projects = records;
                self.initialized = true;
                Ok(())
            },
            Err(cause) => Err(AppError::DataUnavailable(cause)),
        }
    }

    fn tick(&mut self) -> (event: Event)
        ensures
            event == Event::Nothing,
            *final(self) == *old(self),
    {
        Event::Nothing
    }

    fn reload(&self, action: Action) -> (page: Option<u64>) {
        match action {
            Action::ProjectNextPage => if self.can_turn_forward() {
                Some(self.db_page + 1)
            } else {
                None
            },
            Action::ProjectPreviousPage => if self.db_page > 0 {
                Some(self.db_page - 1)
            } else {
                None
            },
            _ => None,
        }
    }

    fn action(&mut self, action: Action) -> (event: Event)
        ensures
            *final(self) == *old(self),
    {
        Event::Nothing
    }
}

} // verus!
