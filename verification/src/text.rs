//! Styled text: what the panes of the screen show, before anything is drawn.

use vstd::prelude::*;

verus! {

/// A colour of the terminal.
#[derive(Clone, Copy, Debug, PartialEq, Eq, Structural)]
pub enum Color {
    /// The terminal's own foreground colour.
    Reset,
    Black,
    Red,
    Green,
    White,
    LightYellow,
    LightBlue,
    /// The light green accent in which the list names its certificates.
    GreenAccent,
}

/// A run of text in one style. A span without a colour of its own takes the
/// colour of the pane that shows it.
#[derive(Debug, PartialEq, Eq)]
pub struct Span {
    pub text: String,
    pub color: Option<Color>,
    pub bold: bool,
}

/// A span as a mathematical value.
pub struct SpanView {
    pub text: Seq<char>,
    pub color: Option<Color>,
    pub bold: bool,
}

impl View for Span {
    type V = SpanView;

    open spec fn view(&self) -> SpanView {
        SpanView { text: self.text@, color: self.color, bold: self.bold }
    }
}

/// One line of a pane.
#[derive(Debug, PartialEq, Eq)]
pub struct Line {
    pub spans: Vec<Span>,
    pub centered: bool,
}

/// A line as a mathematical value.
pub struct LineView {
    pub spans: Seq<SpanView>,
    pub centered: bool,
}

impl View for Line {
    type V = LineView;

    open spec fn view(&self) -> LineView {
        LineView { spans: self.spans@.map_values(|span: Span| span@), centered: self.centered }
    }
}

/// What a list of lines holds.
pub open spec fn lines_view(lines: Seq<Line>) -> Seq<LineView> {
    lines.map_values(|line: Line| line@)
}

/// A span of plain weight in the colour given.
pub open spec fn colored(text: Seq<char>, color: Color) -> SpanView {
    SpanView { text, color: Some(color), bold: false }
}

/// A line of one span that has no style of its own.
pub open spec fn plain_line(text: Seq<char>, centered: bool) -> LineView {
    LineView { spans: seq![SpanView { text, color: None, bold: false }], centered }
}

/// A line of one span.
pub open spec fn single(span: SpanView, centered: bool) -> LineView {
    LineView { spans: seq![span], centered }
}

/// A line of two spans, set to the left.
pub open spec fn pair(first: SpanView, second: SpanView) -> LineView {
    LineView { spans: seq![first, second], centered: false }
}

/// A field of a record: its label in light yellow, then its value.
pub open spec fn labelled(label: Seq<char>, value: Seq<char>, color: Color) -> LineView {
    pair(colored(label, Color::LightYellow), colored(value, color))
}

impl Span {
    /// Makes a span of plain weight in the colour given.
    pub fn colored(text: String, color: Color) -> (r: Span)
        ensures
            r@ == colored(text@, color),
    {
        Span { text, color: Some(color), bold: false }
    }
}

impl Line {
    /// Makes a line of one span that has no style of its own.
    pub fn plain(text: String, centered: bool) -> (r: Line)
        ensures
            r@ == plain_line(text@, centered),
    {
        Line::single(Span { text, color: None, bold: false }, centered)
    }

    /// Makes a line of one span.
    pub fn single(span: Span, centered: bool) -> (r: Line)
        ensures
            r@ == single(span@, centered),
    {
        let mut spans: Vec<Span> = Vec::new();
        spans.push(span);
        let r = Line { spans, centered };
        assert(r@.spans =~= seq![span@]);
        r
    }

    /// Makes a line of two spans, set to the left.
    pub fn pair(first: Span, second: Span) -> (r: Line)
        ensures
            r@ == pair(first@, second@),
    {
        let mut spans: Vec<Span> = Vec::new();
        spans.push(first);
        spans.push(second);
        let r = Line { spans, centered: false };
        assert(r@.spans =~= seq![first@, second@]);
        r
    }

    /// Makes the line for a field of a record: its label in light yellow,
    /// then its value in the colour given.
    pub fn labelled(label: &str, value: String, color: Color) -> (r: Line)
        ensures
            r@ == labelled(label@, value@, color),
    {
        Line::pair(
            Span::colored(label.to_string(), Color::LightYellow),
            Span::colored(value, color),
        )
    }
}

} // verus!
