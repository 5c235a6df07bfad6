//! What a frame is made of: areas of the terminal and the styled text that
//! goes into them. The values here describe a drawing, they do not draw.

use crate::app::App;
use crate::keybindings::{Keybinding, KeybindingView, Keybindings};
use crate::states::{AppState, Lifecycle, RenderState};
use ratatui::layout::{Constraint, Layout};
use vstd::prelude::*;

verus! {

/// A rectangle of terminal cells.
#[derive(Debug, Copy, Clone, PartialEq, Eq, Structural)]
pub struct Rect {
    pub x: u16,
    pub y: u16,
    pub width: u16,
    pub height: u16,
}

impl Rect {
    /// Every cell of `inner` is a cell of `self`.
    pub open spec fn contains(self, inner: Rect) -> bool {
        &&& self.x <= inner.x
        &&& inner.x + inner.width <= self.x + self.width
        &&& self.y <= inner.y
        &&& inner.y + inner.height <= self.y + self.height
    }
}

/// The colours that the interface uses.
#[derive(Debug, Copy, Clone, PartialEq, Eq, Structural)]
pub enum Color {
    /// The terminal's own colour.
    Reset,
    Black,
    White,
    DarkGray,
}

/// How a piece of text looks.
#[derive(Debug, Copy, Clone, PartialEq, Eq, Structural)]
pub struct Style {
    pub fg: Color,
    pub bg: Color,
    pub bold: bool,
    pub italic: bool,
    pub underlined: bool,
}

impl Style {
    /// Text as the terminal shows it by default.
    pub open spec fn plain() -> Style {
        Style { fg: Color::Reset, bg: Color::Reset, bold: false, italic: false, underlined: false }
    }

    pub fn new() -> (style: Style)
        ensures
            style == Style::plain(),
    {
        Style { fg: Color::Reset, bg: Color::Reset, bold: false, italic: false, underlined: false }
    }

    pub fn fg(self, color: Color) -> (style: Style)
        ensures
            style == (Style { fg: color, ..self }),
    {
        Style { fg: color, ..self }
    }

    pub fn bg(self, color: Color) -> (style: Style)
        ensures
            style == (Style { bg: color, ..self }),
    {
        Style { bg: color, ..self }
    }

    pub fn bold(self) -> (style: Style)
        ensures
            style == (Style { bold: true, ..self }),
    {
        Style { bold: true, ..self }
    }

    pub fn italic(self) -> (style: Style)
        ensures
            style == (Style { italic: true, ..self }),
    {
        Style { italic: true, ..self }
    }

    pub fn underlined(self) -> (style: Style)
        ensures
            style == (Style { underlined: true, ..self }),
    {
        Style { underlined: true, ..self }
    }
}

/// A run of text in one style.
#[derive(Debug, Clone, PartialEq, Eq)]
pub struct Span {
    pub content: String,
    pub style: Style,
}

/// A span as a plain value.
pub struct SpanView {
    pub content: Seq<char>,
    pub style: Style,
}

impl DeepView for Span {
    type V = SpanView;

    open spec fn deep_view(&self) -> SpanView {
        SpanView { content: self.content@, style: self.style }
    }
}

impl Span {
    /// `content` in the style `style`.
    pub fn styled(content: &str, style: Style) -> (span: Span)
        ensures
            span.deep_view() == (SpanView { content: content@, style }),
    {
        Span { content: String::from_str(content), style }
    }

    /// `content` in the terminal's default style.
    pub fn raw(content: &str) -> (span: Span)
        ensures
            span.deep_view() == (SpanView { content: content@, style: Style::plain() }),
    {
        Span { content: String::from_str(content), style: Style::new() }
    }
}

/// One row of text: its spans from left to right.
#[derive(Debug, Clone, PartialEq, Eq)]
pub struct Line {
    pub spans: Vec<Span>,
}

impl DeepView for Line {
    type V = Seq<SpanView>;

    open spec fn deep_view(&self) -> Seq<SpanView> {
        self.spans.deep_view()
    }
}

impl Line {
    /// The row made of `spans`.
    pub fn from_spans(spans: Vec<Span>) -> (line: Line)
        ensures
            line.deep_view() == spans.deep_view(),
    {
        Line { spans }
    }

    /// The row that holds `content` alone, in the style `style`.
    pub fn styled(content: &str, style: Style) -> (line: Line)
        ensures
            line.deep_view() == seq![SpanView { content: content@, style }],
    {
        let mut spans: Vec<Span> = Vec::new();
        spans.push(Span::styled(content, style));
        assert(spans.deep_view() =~= seq![SpanView { content: content@, style }]);
        Line { spans }
    }

    /// The row that holds `content` alone, in the default style.
    pub fn raw(content: &str) -> (line: Line)
        ensures
            line.deep_view() == seq![SpanView { content: content@, style: Style::plain() }],
    {
        Line::styled(content, Style::new())
    }
}

/// Rows of text in a block, placed in an area of the terminal.
#[derive(Debug, Clone, PartialEq, Eq)]
pub struct Paragraph {
    /// Where the block goes.
    pub area: Rect,
    /// The title on the block's upper border, centred.
    pub title: String,
    /// Whether a plain border runs round the block.
    pub bordered: bool,
    /// Whether each row is centred in the block.
    pub centered: bool,
    /// The style of what the rows do not style themselves.
    pub style: Style,
    pub lines: Vec<Line>,
}

/// A paragraph as a plain value.
pub struct ParagraphView {
    pub area: Rect,
    pub title: Seq<char>,
    pub bordered: bool,
    pub centered: bool,
    pub style: Style,
    pub lines: Seq<Seq<SpanView>>,
}

impl DeepView for Paragraph {
    type V = ParagraphView;

    open spec fn deep_view(&self) -> ParagraphView {
        ParagraphView {
            area: self.area,
            title: self.title@,
            bordered: self.bordered,
            centered: self.centered,
            style: self.style,
            lines: self.lines.deep_view(),
        }
    }
}

/// The way in which an area is cut into parts.
#[derive(Debug, Copy, Clone, PartialEq, Eq, Structural)]
pub enum Direction {
    /// Side by side.
    Horizontal,
    /// One above the other.
    Vertical,
}

/// `part` is a slice of `area` cut in the direction `direction`: it keeps
/// the extent of `area` across the cut and lies inside `area` along it.
pub open spec fn is_slice(direction: Direction, area: Rect, part: Rect) -> bool {
    match direction {
        Direction::Horizontal => {
            &&& part.y == area.y
            &&& part.height == area.height
            &&& area.x <= part.x
            &&& part.x + part.width <= area.x + area.width
        },
        Direction::Vertical => {
            &&& part.x == area.x
            &&& part.width == area.width
            &&& area.y <= part.y
            &&& part.y + part.height <= area.y + area.height
        },
    }
}

/// `ratatui`'s `Layout::split`, on a layout of percentages, none over a
/// hundred, with no margin. The crate hands the sizes to a constraint
/// solver and rounds what comes back, and where several answers are as
/// good it may give any of them, so the sizes of the parts are not stated
/// here. What the crate shows is that there is one part for each
/// percentage, that it copies the area's extent across the cut into every
/// part, and that it requires of the solver that every part begin and end
/// inside the area.
#[verifier::external_body]
fn split(direction: Direction, area: Rect, percentages: &Vec<u16>) -> (parts: Vec<Rect>)
    requires
        forall|i: int| 0 <= i < percentages.len() ==> percentages[i] <= 100,
    ensures
        parts.len() == percentages.len(),
        forall|i: int| 0 <= i < parts.len() ==> is_slice(direction, area, #[trigger] parts[i]),
{
    let direction = match direction {
        Direction::Horizontal => ratatui::layout::Direction::Horizontal,
        Direction::Vertical => ratatui::layout::Direction::Vertical,
    };
    let area = ratatui::layout::Rect { x: area.x, y: area.y, width: area.width, height: area.height };
    Layout::default()
        .direction(direction)
        .constraints(percentages.iter().map(|p| Constraint::Percentage(*p)))
        .split(area)
        .iter()
        .map(|r| Rect { x: r.x, y: r.y, width: r.width, height: r.height })
        .collect()
}

/// The three percentages that put `percent` of a length in the middle and
/// share the rest between the two sides.
pub fn margins(percent: u16) -> (parts: Vec<u16>)
    requires
        percent <= 100,
    ensures
        parts@ == seq![((100 - percent) / 2) as u16, percent, ((100 - percent) / 2) as u16],
{
    let side: u16 = (100 - percent) / 2;
    let mut parts: Vec<u16> = Vec::new();
    parts.push(side);
    parts.push(percent);
    parts.push(side);
    assert(parts@ =~= seq![side, percent, side]);
    parts
}

/// The middle one of three parts.
pub fn middle(parts: &Vec<Rect>) -> (part: Rect)
    requires
        parts.len() == 3,
    ensures
        part == parts[1],
{
    parts[1]
}

/// An area in the middle of `r` that takes about `percent_x` of its width
/// and `percent_y` of its height.
///
/// `r` is cut into three rows by [`margins`] of `percent_y`, and the
/// middle row into three columns by [`margins`] of `percent_x`; the area is
/// the middle column. The sizes are the layout engine's, which rounds; what
/// is certain is that the area lies inside `r`.
pub fn centered_rect(r: Rect, percent_x: u16, percent_y: u16) -> (popup: Rect)
    requires
        percent_x <= 100,
        percent_y <= 100,
    ensures
        r.contains(popup),
{
    let rows = split(Direction::Vertical, r, &margins(percent_y));
    let band = middle(&rows);
    let columns = split(Direction::Horizontal, band, &margins(percent_x));
    middle(&columns)
}

/// `String::push`: appends one character.
pub assume_specification[ String::push ](text: &mut String, ch: char)
    ensures
        final(text)@ == old(text)@.push(ch),
;

/// The part of the status bar that names the application.
pub open spec fn brand() -> SpanView {
    SpanView { content: " TASKIFY "@, style: Style { fg: Color::Black, bg: Color::White, ..Style::plain() } }
}

/// The part of the status bar that names the active screen.
pub open spec fn screen_tag(title: Seq<char>) -> SpanView {
    SpanView {
        content: " "@ + title + " "@,
        style: Style { fg: Color::White, bg: Color::DarkGray, ..Style::plain() },
    }
}

/// The part of the status bar that tells how to quit.
pub open spec fn quit_hint() -> SpanView {
    SpanView { content: " q: Quit "@, style: Style::plain() }
}

/// The part of the status bar that shows one binding: its character, a
/// colon and its label.
pub open spec fn hint(binding: KeybindingView) -> SpanView {
    SpanView { content: (" "@.push(binding.key) + ": "@) + binding.name + " "@, style: Style::plain() }
}

/// The status bar of a screen with the name `title` and the bindings
/// `bindings`: the application, the screen, the quit key, then the
/// bindings in their order.
pub open spec fn status_bar(title: Seq<char>, bindings: Seq<KeybindingView>) -> Seq<SpanView> {
    seq![brand(), screen_tag(title), quit_hint()] + bindings.map_values(|b: KeybindingView| hint(b))
}

/// Writes the status bar. See [`status_bar`].
pub fn bottom_bar(title: &str, bindings: &Vec<Keybinding>) -> (line: Line)
    ensures
        line.deep_view() == status_bar(title@, bindings.deep_view()),
{
    let mut spans: Vec<Span> = Vec::new();
    spans.push(Span::styled(" TASKIFY ", Style::new().fg(Color::Black).bg(Color::White)));
    let mut tag = String::from_str(" ");
    tag.append(title);
    tag.append(" ");
    spans.push(Span { content: tag, style: Style::new().fg(Color::White).bg(Color::DarkGray) });
    spans.push(Span::raw(" q: Quit "));
    let ghost fixed = seq![brand(), screen_tag(title@), quit_hint()];
    let ghost hints = bindings.deep_view().map_values(|b: KeybindingView| hint(b));
    assert(spans.deep_view() =~= fixed);
    let mut i: usize = 0;
    while i < bindings.len()
        invariant
            i <= bindings.len(),
            fixed.len() == 3,
            hints == bindings.deep_view().map_values(|b: KeybindingView| hint(b)),
            spans.deep_view() =~= fixed + hints.take(i as int),
        decreases bindings.len() - i,
    {
        let binding = &bindings[i];
        let mut text = String::from_str(" ");
        text.push(binding.key);
        text.append(": ");
        text.append(binding.name.as_str());
        text.append(" ");
        let ghost before = spans.deep_view();
        spans.push(Span { content: text, style: Style::new() });
        proof {
            assert(bindings.deep_view()[i as int] == bindings@[i as int].deep_view());
            assert(hints[i as int] == hint(bindings.deep_view()[i as int]));
            assert(spans.deep_view() =~= before.push(hints[i as int]));
            assert(hints.take(i as int + 1) =~= hints.take(i as int).push(hints[i as int]));
        }
        i += 1;
    }
    assert(hints.take(i as int) =~= hints);
    Line { spans }
}

/// One frame: the active screen in all rows but the last, the status bar
/// in the last.
#[derive(Debug, Clone, PartialEq, Eq)]
pub struct Scene {
    /// The blocks of the active screen.
    pub body: Vec<Paragraph>,
    /// The status bar.
    pub status: Line,
    /// The row of the status bar.
    pub status_area: Rect,
}

/// The rows of a terminal of the size `size` that the active screen gets:
/// all but the last.
pub open spec fn body_area(size: Rect) -> Rect {
    Rect { height: (size.height - 1) as u16, ..size }
}

/// The row of a terminal of the size `size` that the status bar gets: the
/// last one.
pub open spec fn status_area(size: Rect) -> Rect {
    Rect { height: 1, y: (size.height - 1) as u16, ..size }
}

/// Describes one frame for a terminal of the size `size`, which has at
/// least one row. Only the active screen is drawn, and the application is
/// left as it is.
pub fn render(app: &App, size: Rect) -> (scene: Scene)
    requires
        app.wf(),
        size.height >= 1,
    ensures
        scene.body.deep_view() == app.state.drawing(body_area(size)),
        scene.status.deep_view() == status_bar(app.state.title(), app.state.bindings()),
        scene.status_area == status_area(size),
{
    let body = app.state.render(Rect { height: size.height - 1, ..size });
    let bindings = app.state.keybindings();
    let status = bottom_bar(app.state.display_name(), &bindings);
    Scene { body, status, status_area: Rect { height: 1, y: size.height - 1, ..size } }
}

} // verus!
