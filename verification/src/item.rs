//! Pull requests and issues, and how they are shown.

use vstd::prelude::*;

use crate::markdown::markdown_events;
use crate::render::{markdown_to_text, rendered};
use crate::style::{
    empty_line, line_views, raw_span, span_views, styled_span, Color, Line, LineView, Span, Style,
};
use crate::text::{
    decimal, join, joined, push_decimal, same_ignoring_case, texts, trimmed, uppercase,
};

verus! {

/// What an item is.
#[derive(Debug, Clone, Copy, PartialEq, Eq, Structural)]
pub enum ItemKind {
    PullRequest,
    Issue,
}

impl ItemKind {
    /// The short name of the kind.
    pub open spec fn name(self) -> Seq<char> {
        match self {
            ItemKind::PullRequest => "PR"@,
            ItemKind::Issue => "Issue"@,
        }
    }

    /// The short name of the kind.
    pub fn label(self) -> (r: &'static str)
        ensures
            r@ == self.name(),
    {
        match self {
            ItemKind::PullRequest => "PR",
            ItemKind::Issue => "Issue",
        }
    }
}

/// A pull request or an issue.
#[derive(Debug, PartialEq, Eq)]
pub struct GithubItem {
    pub kind: ItemKind,
    pub number: u64,
    pub title: String,
    pub url: String,
    pub state: String,
    pub repo: String,
    pub body: String,
    pub author: String,
    pub assignees: Vec<String>,
    pub created_at: String,
    pub updated_at: String,
    pub closed_at: Option<String>,
    pub is_draft: bool,
}

/// An item as a mathematical value.
#[verifier::ext_equal]
pub struct ItemView {
    pub kind: ItemKind,
    pub number: u64,
    pub title: Seq<char>,
    pub url: Seq<char>,
    pub state: Seq<char>,
    pub repo: Seq<char>,
    pub body: Seq<char>,
    pub author: Seq<char>,
    pub assignees: Seq<Seq<char>>,
    pub created_at: Seq<char>,
    pub updated_at: Seq<char>,
    pub closed_at: Option<Seq<char>>,
    pub is_draft: bool,
}

/// The content of an optional string.
pub open spec fn optional_text(s: Option<String>) -> Option<Seq<char>> {
    match s {
        Some(text) => Some(text@),
        None => None,
    }
}

impl View for GithubItem {
    type V = ItemView;

    open spec fn view(&self) -> ItemView {
        ItemView {
            kind: self.kind,
            number: self.number,
            title: self.title@,
            url: self.url@,
            state: self.state@,
            repo: self.repo@,
            body: self.body@,
            author: self.author@,
            assignees: texts(self.assignees@),
            created_at: self.created_at@,
            updated_at: self.updated_at@,
            closed_at: optional_text(self.closed_at),
            is_draft: self.is_draft,
        }
    }
}

/// The contents of a list of items.
pub open spec fn item_views(items: Seq<GithubItem>) -> Seq<ItemView> {
    items.map_values(|item: GithubItem| item@)
}

/// The colour of a state: green for open, yellow for closed or merged, cyan for
/// any other.
pub open spec fn color_of_state(state: Seq<char>) -> Color {
    if same_ignoring_case(state, "open"@) {
        Color::Green
    } else if same_ignoring_case(state, "closed"@) || same_ignoring_case(state, "merged"@) {
        Color::Yellow
    } else {
        Color::Cyan
    }
}

/// The colour of a state.
pub fn state_color(state: &str) -> (r: Color)
    ensures
        r == color_of_state(state@),
{
    if state.eq_ignore_ascii_case("open") {
        Color::Green
    } else if state.eq_ignore_ascii_case("closed") || state.eq_ignore_ascii_case("merged") {
        Color::Yellow
    } else {
        Color::Cyan
    }
}

/// `number` behind a hash sign.
pub fn hash_number(number: u64) -> (r: String)
    ensures
        r@ == "#"@ + decimal(number as nat),
{
    let mut r = "#".to_string();
    push_decimal(&mut r, number);
    r
}

/// `content` with a blank on either side.
pub fn padded(content: &str) -> (r: String)
    ensures
        r@ == " "@ + content@ + " "@,
{
    " ".to_string().concat(content).concat(" ")
}

/// The style of a field's name.
#[verifier::allow_in_spec]
pub fn label_style() -> Style
    returns
        Style::plain().with_fg(Color::DarkGray),
{
    Style::plain().with_fg(Color::DarkGray)
}

/// A line with a field's name and its value.
pub open spec fn field_view(label: Seq<char>, value: Seq<char>) -> LineView {
    LineView::Spans(seq![styled_span(label, label_style()), raw_span(value)])
}

/// A line with two fields.
pub open spec fn two_fields_view(
    label1: Seq<char>,
    value1: Seq<char>,
    label2: Seq<char>,
    value2: Seq<char>,
) -> LineView {
    LineView::Spans(
        seq![
            styled_span(label1, label_style()),
            raw_span(value1),
            raw_span("    "@),
            styled_span(label2, label_style()),
            raw_span(value2),
        ],
    )
}

fn field(label: &str, value: &str) -> (r: Line)
    ensures
        r@ == field_view(label@, value@),
{
    let spans = vec![Span::styled(label.to_string(), label_style()), Span::raw(value)];
    let r = Line::Spans(spans);
    assert(r@ =~= field_view(label@, value@)) by {
        assert(span_views(spans@) =~= field_view(label@, value@)->Spans_0);
    }
    r
}

fn two_fields(label1: &str, value1: &str, label2: &str, value2: &str) -> (r: Line)
    ensures
        r@ == two_fields_view(label1@, value1@, label2@, value2@),
{
    let spans = vec![
        Span::styled(label1.to_string(), label_style()),
        Span::raw(value1),
        Span::raw("    "),
        Span::styled(label2.to_string(), label_style()),
        Span::raw(value2),
    ];
    let r = Line::Spans(spans);
    assert(span_views(spans@) =~= two_fields_view(label1@, value1@, label2@, value2@)->Spans_0);
    r
}

impl ItemView {
    /// The item's line in the list, with its state in upper case.
    pub open spec fn summary(self, state: Seq<char>) -> LineView {
        LineView::Spans(
            seq![
                styled_span(
                    " "@ + self.kind.name() + " "@,
                    Style::plain().with_fg(Color::Black).with_bg(Color::Cyan).in_bold(),
                ),
                raw_span(" "@),
                styled_span(
                    "#"@ + decimal(self.number as nat),
                    Style::plain().with_fg(Color::Magenta).in_bold(),
                ),
                raw_span(" "@),
                raw_span(self.title),
                raw_span(" "@),
                styled_span(
                    state + " "@,
                    Style::plain().with_fg(color_of_state(self.state)).in_bold(),
                ),
            ],
        )
    }

    /// The lines above the body in the preview.
    pub open spec fn preview_header(self) -> Seq<LineView> {
        seq![
            LineView::Styled(self.title, Style::plain().with_fg(Color::White).in_bold()),
            empty_line(),
            two_fields_view(
                "種別 "@,
                self.kind.name(),
                "番号 "@,
                "#"@ + decimal(self.number as nat),
            ),
            two_fields_view(
                "状態 "@,
                self.state,
                "ドラフト "@,
                if self.is_draft {
                    "yes"@
                } else {
                    "no"@
                },
            ),
            field_view("Repo "@, self.repo),
            field_view("作成者 "@, self.author),
            field_view(
                "担当者 "@,
                if self.assignees.len() == 0 {
                    "なし"@
                } else {
                    joined(self.assignees, ", "@)
                },
            ),
            field_view("作成 "@, self.created_at),
            field_view("更新 "@, self.updated_at),
            field_view("終了 "@, self.closed_at.unwrap_or("-"@)),
            field_view("URL  "@, self.url),
            empty_line(),
            LineView::Styled("Preview"@, Style::plain().with_fg(Color::Cyan).in_bold()),
            empty_line(),
        ]
    }

    /// The Markdown that the preview shows as the body.
    pub open spec fn preview_body(self) -> Seq<char> {
        if trimmed(self.body).len() == 0 {
            "本文なし"@
        } else {
            self.body
        }
    }

    /// The whole preview.
    pub open spec fn preview(self) -> Seq<LineView> {
        self.preview_header() + rendered(markdown_events(self.preview_body()))
    }
}

impl GithubItem {
    /// The item's line in the list, given its state in upper case.
    pub fn summary_with(&self, state: &str) -> (r: Line)
        ensures
            r@ == self@.summary(state@),
    {
        let spans = vec![
            Span::styled(
                padded(self.kind.label()),
                Style::plain().with_fg(Color::Black).with_bg(Color::Cyan).in_bold(),
            ),
            Span::raw(" "),
            Span::styled(
                hash_number(self.number),
                Style::plain().with_fg(Color::Magenta).in_bold(),
            ),
            Span::raw(" "),
            Span::raw(self.title.as_str()),
            Span::raw(" "),
            Span::styled(
                state.to_string().concat(" "),
                Style::plain().with_fg(state_color(self.state.as_str())).in_bold(),
            ),
        ];
        assert(span_views(spans@) =~= self@.summary(state@)->Spans_0);
        Line::Spans(spans)
    }

    /// The item's line in the list.
    pub fn summary_line(&self) -> (r: Line)
        ensures
            r@ == self@.summary(uppercase(self@.state)),
    {
        let state = self.state.as_str().to_uppercase();
        self.summary_with(state.as_str())
    }

    /// The preview, given the rendered body.
    pub fn preview_with(&self, body: Vec<Line>) -> (r: Vec<Line>)
        ensures
            line_views(r@) == self@.preview_header() + line_views(body@),
    {
        let assignees = if self.assignees.is_empty() {
            "なし".to_string()
        } else {
            join(&self.assignees, ", ")
        };
        let closed = match &self.closed_at {
            Some(closed) => closed.clone(),
            None => "-".to_string(),
        };
        let number = hash_number(self.number);
        let mut lines = vec![
            Line::styled(
                self.title.as_str(),
                Style::plain().with_fg(Color::White).in_bold(),
            ),
            Line::empty(),
            two_fields("種別 ", self.kind.label(), "番号 ", number.as_str()),
            two_fields(
                "状態 ",
                self.state.as_str(),
                "ドラフト ",
                if self.is_draft { "yes" } else { "no" },
            ),
            field("Repo ", self.repo.as_str()),
            field("作成者 ", self.author.as_str()),
            field("担当者 ", assignees.as_str()),
            field("作成 ", self.created_at.as_str()),
            field("更新 ", self.updated_at.as_str()),
            field("終了 ", closed.as_str()),
            field("URL  ", self.url.as_str()),
            Line::empty(),
            Line::styled("Preview", Style::plain().with_fg(Color::Cyan).in_bold()),
            Line::empty(),
        ];
        assert(line_views(lines@) =~= self@.preview_header());
        let ghost header = lines@;
        let mut body = body;
        let ghost rest = body@;
        lines.append(&mut body);
        assert(line_views(lines@) =~= line_views(header) + line_views(rest));
        lines
    }

    /// The preview: the item's fields, and its body rendered as Markdown.
    pub fn preview_text(&self) -> (r: Vec<Line>)
        ensures
            line_views(r@) == self@.preview(),
    {
        let body = if self.body.as_str().trim().is_empty() {
            markdown_to_text("本文なし")
        } else {
            markdown_to_text(self.body.as_str())
        };
        self.preview_with(body)
    }
}

} // verus!
