//! Styled text: what the screen shows, before any terminal draws it.

use vstd::prelude::*;

verus! {

/// A terminal colour.
#[derive(Debug, Clone, Copy, PartialEq, Eq)]
pub enum Color {
    Black,
    Green,
    Yellow,
    Magenta,
    Cyan,
    Gray,
    DarkGray,
    LightBlue,
    LightCyan,
    White,
    Rgb(u8, u8, u8),
}

/// The look of a piece of text. A colour that is not given is inherited.
#[derive(Debug, Clone, Copy, PartialEq, Eq)]
pub struct Style {
    pub fg: Option<Color>,
    pub bg: Option<Color>,
    pub bold: bool,
    pub italic: bool,
    pub underlined: bool,
    pub crossed_out: bool,
}

impl Style {
    /// The style that changes nothing.
    #[verifier::allow_in_spec]
    pub fn plain() -> Style
        returns
            (Style {
                fg: None,
                bg: None,
                bold: false,
                italic: false,
                underlined: false,
                crossed_out: false,
            }),
    {
        Style {
            fg: None,
            bg: None,
            bold: false,
            italic: false,
            underlined: false,
            crossed_out: false,
        }
    }

    /// The same style with a foreground colour.
    #[verifier::allow_in_spec]
    pub fn with_fg(self, color: Color) -> Style
        returns
            (Style { fg: Some(color), ..self }),
    {
        Style { fg: Some(color), ..self }
    }

    /// The same style with a background colour.
    #[verifier::allow_in_spec]
    pub fn with_bg(self, color: Color) -> Style
        returns
            (Style { bg: Some(color), ..self }),
    {
        Style { bg: Some(color), ..self }
    }

    /// The same style in bold.
    #[verifier::allow_in_spec]
    pub fn in_bold(self) -> Style
        returns
            (Style { bold: true, ..self }),
    {
        Style { bold: true, ..self }
    }

    /// The same style in italics.
    #[verifier::allow_in_spec]
    pub fn in_italic(self) -> Style
        returns
            (Style { italic: true, ..self }),
    {
        Style { italic: true, ..self }
    }

    /// The same style, underlined.
    #[verifier::allow_in_spec]
    pub fn underline(self) -> Style
        returns
            (Style { underlined: true, ..self }),
    {
        Style { underlined: true, ..self }
    }

    /// The same style, crossed out.
    #[verifier::allow_in_spec]
    pub fn cross_out(self) -> Style
        returns
            (Style { crossed_out: true, ..self }),
    {
        Style { crossed_out: true, ..self }
    }

    /// `over` laid on top of `self`: its colours win where it gives them, and
    /// the modifiers of both hold.
    #[verifier::allow_in_spec]
    pub fn patch(self, over: Style) -> Style
        returns
            (Style {
                fg: if over.fg is Some { over.fg } else { self.fg },
                bg: if over.bg is Some { over.bg } else { self.bg },
                bold: self.bold || over.bold,
                italic: self.italic || over.italic,
                underlined: self.underlined || over.underlined,
                crossed_out: self.crossed_out || over.crossed_out,
            }),
    {
        Style {
            fg: if over.fg.is_some() { over.fg } else { self.fg },
            bg: if over.bg.is_some() { over.bg } else { self.bg },
            bold: self.bold || over.bold,
            italic: self.italic || over.italic,
            underlined: self.underlined || over.underlined,
            crossed_out: self.crossed_out || over.crossed_out,
        }
    }
}

impl Default for Style {
    fn default() -> (r: Style)
        ensures
            r == Style::plain(),
    {
        Style::plain()
    }
}

/// A run of characters in one style.
#[derive(Debug, PartialEq, Eq)]
pub struct Span {
    pub content: String,
    pub style: Style,
}

/// A span as a mathematical value.
#[verifier::ext_equal]
pub struct SpanView {
    pub content: Seq<char>,
    pub style: Style,
}

impl View for Span {
    type V = SpanView;

    open spec fn view(&self) -> SpanView {
        SpanView { content: self.content@, style: self.style }
    }
}

impl Span {
    /// A run in a style.
    pub fn styled(content: String, style: Style) -> (r: Span)
        ensures
            r@ == styled_span(content@, style),
    {
        Span { content, style }
    }

    /// A run without a style.
    pub fn raw(content: &str) -> (r: Span)
        ensures
            r@ == raw_span(content@),
    {
        Span { content: content.to_string(), style: Style::plain() }
    }
}

/// A run in a style.
pub open spec fn styled_span(content: Seq<char>, style: Style) -> SpanView {
    SpanView { content, style }
}

/// A run without a style.
pub open spec fn raw_span(content: Seq<char>) -> SpanView {
    SpanView { content, style: Style::plain() }
}

/// The contents of a list of spans.
pub open spec fn span_views(spans: Seq<Span>) -> Seq<SpanView> {
    spans.map_values(|s: Span| s@)
}

/// A line of text: one run that is styled as a whole, or a row of spans.
#[derive(Debug, PartialEq, Eq)]
pub enum Line {
    Styled(String, Style),
    Spans(Vec<Span>),
}

/// A line as a mathematical value.
#[verifier::ext_equal]
pub enum LineView {
    Styled(Seq<char>, Style),
    Spans(Seq<SpanView>),
}

impl View for Line {
    type V = LineView;

    open spec fn view(&self) -> LineView {
        match self {
            Line::Styled(content, style) => LineView::Styled(content@, *style),
            Line::Spans(spans) => LineView::Spans(span_views(spans@)),
        }
    }
}

impl Line {
    /// A run that is styled as a whole.
    pub fn styled(content: &str, style: Style) -> (r: Line)
        ensures
            r@ == LineView::Styled(content@, style),
    {
        Line::Styled(content.to_string(), style)
    }

    /// An unstyled run.
    pub fn raw(content: &str) -> (r: Line)
        ensures
            r@ == LineView::Styled(content@, Style::plain()),
    {
        Line::Styled(content.to_string(), Style::plain())
    }

    /// A line without text.
    pub fn empty() -> (r: Line)
        ensures
            r@ == empty_line(),
    {
        Line::Styled(String::new(), Style::plain())
    }
}

/// A line without text.
pub open spec fn empty_line() -> LineView {
    LineView::Styled(Seq::empty(), Style::plain())
}

/// The contents of a list of lines.
pub open spec fn line_views(lines: Seq<Line>) -> Seq<LineView> {
    lines.map_values(|l: Line| l@)
}

} // verus!
