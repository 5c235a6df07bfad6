//! The landing screen.

use crate::actions::{Action, Event};
use crate::db::projects::Project as DBProject;
use crate::error::{AppError, DataError};
use crate::keybindings::{Keybinding, KeybindingView, Keybindings};
use crate::states::{AppState, AppStates, Fetch, Lifecycle, RenderState};
use crate::ui::{Color, Line, Paragraph, ParagraphView, Rect, Span, SpanView, Style};
use vstd::prelude::*;

verus! {

/// The landing screen. It keeps no data.
#[derive(Debug, Clone, PartialEq, Eq)]
pub struct Home {
    initialized: bool,
}

impl Default for Home {
    /// The screen before `init`.
    fn default() -> (home: Self)
        ensures
            home == Home::blank(),
    {
        Home { initialized: false }
    }
}

impl Home {
    /// The screen before `init`.
    pub closed spec fn blank() -> Home {
        Home { initialized: false }
    }

    /// The screen after `init`.
    pub closed spec fn ready() -> Home {
        Home { initialized: true }
    }
}

/// The screen is initialised after `init` and not before.
pub proof fn lemma_ready()
    ensures
        Home::ready().initialized(),
        !Home::blank().initialized(),
{
}

impl Lifecycle for Home {
    closed spec fn initialized(&self) -> bool {
        self.initialized
    }

    fn is_initialized(&self) -> (yes: bool) {
        self.initialized
    }
}

/// The one binding of the home screen.
pub open spec fn home_bindings() -> Seq<KeybindingView> {
    seq![KeybindingView { key: 'p', name: "View Projects"@, action: Action::HomeGotoProjects }]
}

impl Keybindings for Home {
    open spec fn bindings(&self) -> Seq<KeybindingView> {
        home_bindings()
    }

    fn keybindings(&self) -> (list: Vec<Keybinding>) {
        let mut list: Vec<Keybinding> = Vec::new();
        list.push(
            Keybinding { key: 'p', name: String::from_str("View Projects"), action: Action::HomeGotoProjects },
        );
        assert(list.deep_view() =~= home_bindings());
        list
    }
}

/// The text of the home screen, row by row.
pub open spec fn home_lines() -> Seq<Seq<SpanView>> {
    let plain = Style::plain();
    let strong = Style { bold: true, underlined: true, ..plain };
    let stronger = Style { italic: true, ..strong };
    let aside = Style { italic: true, ..plain };
    seq![
        seq![SpanView { content: ""@, style: plain }],
        seq![
            SpanView { content: "Welcome to "@, style: plain },
            SpanView { content: "Taskify!"@, style: strong },
        ],
        seq![
            SpanView { content: "The "@, style: plain },
            SpanView { content: "modern CLI"@, style: stronger },
            SpanView { content: " way to handle tasks, time manage and be productive!"@, style: plain },
        ],
        seq![SpanView { content: ""@, style: plain }],
        seq![SpanView { content: "Press q to exit at any time"@, style: aside }],
    ]
}

/// The home screen in `area`: one bordered block with a title, its text
/// white and centred.
pub open spec fn home_drawing(area: Rect) -> Seq<ParagraphView> {
    seq![
        ParagraphView {
            area,
            title: " [Taskify CLI] "@,
            bordered: true,
            centered: true,
            style: Style { fg: Color::White, ..Style::plain() },
            lines: home_lines(),
        },
    ]
}

impl RenderState for Home {
    open spec fn drawing(&self, area: Rect) -> Seq<ParagraphView> {
        home_drawing(area)
    }

    fn render(&self, area: Rect) -> (blocks: Vec<Paragraph>) {
        let mut welcome: Vec<Span> = Vec::new();
        welcome.push(Span::raw("Welcome to "));
        welcome.push(Span::styled("Taskify!", Style::new().bold().underlined()));
        let mut pitch: Vec<Span> = Vec::new();
        pitch.push(Span::raw("The "));
        pitch.push(Span::styled("modern CLI", Style::new().bold().underlined().italic()));
        pitch.push(Span::raw(" way to handle tasks, time manage and be productive!"));
        let mut lines: Vec<Line> = Vec::new();
        lines.push(Line::raw(""));
        lines.push(Line::from_spans(welcome));
        lines.push(Line::from_spans(pitch));
        lines.push(Line::raw(""));
        lines.push(Line::styled("Press q to exit at any time", Style::new().italic()));
        proof {
            assert(lines@[1].deep_view() =~= home_lines()[1]);
            assert(lines@[2].deep_view() =~= home_lines()[2]);
            assert(lines.deep_view() =~= home_lines());
        }
        let mut blocks: Vec<Paragraph> = Vec::new();
        blocks.push(
            Paragraph {
                area,
                title: String::from_str(" [Taskify CLI] "),
                bordered: true,
                centered: true,
                style: Style::new().fg(Color::White),
                lines,
            },
        );
        assert(blocks.deep_view() =~= home_drawing(area));
        blocks
    }
}

impl AppState for Home {
    open spec fn id(&self) -> AppStates {
        AppStates::Home
    }

    open spec fn handles(&self, action: Action) -> bool {
        action == Action::HomeGotoProjects
    }

    open spec fn turns_to(&self, action: Action) -> Option<u64> {
        None
    }

    open spec fn answer(&self, action: Action) -> Event {
        home_answer(action)
    }

    fn display_name(&self) -> (name: &'static str)
        ensures
            name@ == "HOME"@,
    {
        "HOME"
    }

    fn query(&self) -> (fetch: Option<Fetch>)
        ensures
            fetch is None,
    {
        None
    }

    /// The home screen waits for no data: `init` succeeds whatever the
    /// storage layer answered.
    fn init(&mut self, loaded: Result<Vec<DBProject>, DataError>) -> (done: Result<(), AppError>)
        ensures
            done is Ok,
            *final(self) == Home::ready(),
    {
        self.initialized = true;
        Ok(())
    }

    fn tick(&mut self) -> (event: Event)
        ensures
            event == Event::Nothing,
            *final(self) == *old(self),
    {
        Event::Nothing
    }

    fn reload(&self, action: Action) -> (page: Option<u64>) {
        None
    }

    fn action(&mut self, action: Action) -> (event: Event)
        ensures
            *final(self) == *old(self),
    {
        match action {
            Action::Escape => Event::Nothing,
            Action::HomeGotoProjects => Event::Goto(AppStates::Project),
            _ => Event::Nothing,
        }
    }
}

/// The home screen's answer to an action: it opens the projects on
/// request, and is the root, where escape leads nowhere.
pub open spec fn home_answer(action: Action) -> Event {
    if action == Action::HomeGotoProjects {
        Event::Goto(AppStates::Project)
    } else {
        Event::Nothing
    }
}

} // verus!
