//! The renderer that turns Markdown events into styled lines.

use vstd::prelude::*;

use crate::markdown::{
    event_views, lists_start_small, markdown_events, parse_markdown, EndTag, EventView, Inline,
    InlineView, MdEvent, StartTag, StartTagView,
};
use crate::style::{
    empty_line, line_views, raw_span, span_views, styled_span, Color, Line, LineView, Span,
    SpanView, Style,
};
use crate::text::{decimal, push_decimal, repeat, repeated, split_lines, split_newlines, texts};

verus! {

/// The state of a rendering.
pub struct MarkdownRenderer {
    /// The lines that are complete.
    pub lines: Vec<Line>,
    /// The spans of the line at hand.
    pub current: Vec<Span>,
    /// The styles of the elements that are open, the innermost last.
    pub style_stack: Vec<Style>,
    /// The lists that are open, each with its next number if it is ordered.
    pub list_stack: Vec<Option<u64>>,
    pub blockquote_depth: usize,
    pub code_block: bool,
    /// The target of the link that is open.
    pub pending_link: Option<String>,
}

/// A rendering as a mathematical value.
#[verifier::ext_equal]
pub struct RendererView {
    pub lines: Seq<LineView>,
    pub current: Seq<SpanView>,
    pub style_stack: Seq<Style>,
    pub list_stack: Seq<Option<u64>>,
    pub blockquote_depth: nat,
    pub code_block: bool,
    pub pending_link: Option<Seq<char>>,
}

impl View for MarkdownRenderer {
    type V = RendererView;

    open spec fn view(&self) -> RendererView {
        RendererView {
            lines: line_views(self.lines@),
            current: span_views(self.current@),
            style_stack: self.style_stack@,
            list_stack: self.list_stack@,
            blockquote_depth: self.blockquote_depth as nat,
            code_block: self.code_block,
            pending_link: match self.pending_link {
                Some(url) => Some(url@),
                None => None,
            },
        }
    }
}

/// A rendering that has seen nothing.
pub open spec fn blank_rendering() -> RendererView {
    RendererView {
        lines: Seq::empty(),
        current: Seq::empty(),
        style_stack: Seq::empty(),
        list_stack: Seq::empty(),
        blockquote_depth: 0,
        code_block: false,
        pending_link: None,
    }
}

/// The background of code.
#[verifier::allow_in_spec]
pub fn code_background() -> Color
    returns
        Color::Rgb(24, 28, 40),
{
    Color::Rgb(24, 28, 40)
}

/// The style of a heading of a level.
#[verifier::allow_in_spec]
pub fn heading_style(level: u8) -> Style
    returns
        (if level == 1 {
            Style::plain().with_fg(Color::Cyan).in_bold()
        } else if level == 2 {
            Style::plain().with_fg(Color::LightCyan).in_bold()
        } else {
            Style::plain().with_fg(Color::White).in_bold()
        }),
{
    if level == 1 {
        Style::plain().with_fg(Color::Cyan).in_bold()
    } else if level == 2 {
        Style::plain().with_fg(Color::LightCyan).in_bold()
    } else {
        Style::plain().with_fg(Color::White).in_bold()
    }
}

/// The style of a link's text.
#[verifier::allow_in_spec]
pub fn link_style() -> Style
    returns
        Style::plain().with_fg(Color::LightBlue).underline(),
{
    Style::plain().with_fg(Color::LightBlue).underline()
}

/// The style that nested styles make together, the innermost winning.
pub open spec fn combined(stack: Seq<Style>) -> Style
    decreases stack.len(),
{
    if stack.len() == 0 {
        Style::plain()
    } else {
        combined(stack.drop_last()).patch(stack.last())
    }
}

/// The line that some spans make.
pub open spec fn line_of(spans: Seq<SpanView>) -> LineView {
    if spans.len() == 0 {
        empty_line()
    } else {
        LineView::Spans(spans)
    }
}

/// `stack` without its last entry, if there is one.
pub open spec fn popped<A>(stack: Seq<A>) -> Seq<A> {
    if stack.len() == 0 {
        stack
    } else {
        stack.drop_last()
    }
}

impl RendererView {
    /// After the line at hand is completed.
    pub open spec fn flushed(self) -> RendererView {
        RendererView {
            lines: self.lines.push(line_of(self.current)),
            current: Seq::empty(),
            ..self
        }
    }

    /// After a whole line is added.
    pub open spec fn with_line(self, line: LineView) -> RendererView {
        RendererView { lines: self.lines.push(line), ..self }
    }

    /// After a span is added to the line at hand.
    pub open spec fn with_span(self, span: SpanView) -> RendererView {
        RendererView { current: self.current.push(span), ..self }
    }

    /// After an element opens that has a style.
    pub open spec fn with_style(self, style: Style) -> RendererView {
        RendererView { style_stack: self.style_stack.push(style), ..self }
    }

    /// After an element closes that had a style.
    pub open spec fn without_style(self) -> RendererView {
        RendererView { style_stack: popped(self.style_stack), ..self }
    }

    /// The style of text in the element at hand.
    pub open spec fn text_style(self) -> Style {
        if self.code_block {
            combined(self.style_stack).with_fg(Color::Yellow).with_bg(code_background())
        } else {
            combined(self.style_stack)
        }
    }

    /// After the marks that start a line of a quotation or of code, if the line
    /// at hand is still empty.
    pub open spec fn with_margin(self) -> RendererView {
        let quoted = if self.current.len() == 0 && self.blockquote_depth > 0 {
            self.with_span(
                styled_span(
                    repeated(">"@, self.blockquote_depth) + " "@,
                    Style::plain().with_fg(Color::Green),
                ),
            )
        } else {
            self
        };
        if quoted.current.len() == 0 && quoted.code_block {
            quoted.with_span(styled_span("  "@, Style::plain().with_bg(code_background())))
        } else {
            quoted
        }
    }

    /// After one line of text; a line break follows it unless it is the last.
    pub open spec fn with_segment(
        self,
        segment: Seq<char>,
        style: Style,
        is_last: bool,
    ) -> RendererView {
        let opened = self.with_margin();
        let filled = if segment.len() > 0 {
            opened.with_span(styled_span(segment, style))
        } else {
            opened
        };
        if is_last {
            filled
        } else {
            filled.flushed()
        }
    }

    /// After the first `n` of the lines of a text.
    pub open spec fn with_segments(
        self,
        segments: Seq<Seq<char>>,
        style: Style,
        n: nat,
    ) -> RendererView
        decreases n,
    {
        if n == 0 {
            self
        } else {
            self.with_segments(segments, style, (n - 1) as nat).with_segment(
                segments[n - 1],
                style,
                n >= segments.len(),
            )
        }
    }

    /// After a text, in the style of the element at hand.
    pub open spec fn with_text(self, text: Seq<char>) -> RendererView {
        let segments = split_newlines(text);
        self.with_segments(segments, self.text_style(), segments.len())
    }

    /// After a list item opens: a new line that starts with a bullet, or with
    /// the number of the item where the innermost list is ordered.
    pub open spec fn with_item(self) -> RendererView {
        let indent = repeated(
            "  "@,
            if self.list_stack.len() == 0 {
                0
            } else {
                (self.list_stack.len() - 1) as nat
            },
        );
        let look = Style::plain().with_fg(Color::Cyan);
        if self.list_stack.len() > 0 && self.list_stack.last() is Some {
            let number = self.list_stack.last().unwrap();
            RendererView {
                list_stack: self.list_stack.drop_last().push(Some((number + 1) as u64)),
                ..self.flushed()
            }.with_span(styled_span(indent + decimal(number as nat) + ". "@, look))
        } else {
            self.flushed().with_span(styled_span(indent + "• "@, look))
        }
    }

    /// After an element opens.
    pub open spec fn started(self, tag: StartTagView) -> RendererView {
        match tag {
            StartTagView::Heading(level) => self.flushed().with_style(heading_style(level)),
            StartTagView::Emphasis => self.with_style(Style::plain().in_italic()),
            StartTagView::Strong => self.with_style(Style::plain().in_bold()),
            StartTagView::Strikethrough => self.with_style(Style::plain().cross_out()),
            StartTagView::BlockQuote => RendererView {
                blockquote_depth: self.blockquote_depth + 1,
                ..self.flushed()
            },
            StartTagView::CodeBlock(lang) => RendererView {
                code_block: true,
                ..self.flushed()
            }.with_line(
                LineView::Styled(
                    if lang is Some && lang.unwrap().len() > 0 {
                        "code: "@ + lang.unwrap()
                    } else {
                        "code"@
                    },
                    Style::plain().with_fg(Color::Magenta).in_bold(),
                ),
            ),
            StartTagView::List(start) => RendererView {
                list_stack: self.list_stack.push(start),
                ..self.flushed()
            },
            StartTagView::Item => self.with_item(),
            StartTagView::Link(url) => RendererView {
                pending_link: Some(url),
                ..self
            }.with_style(link_style()),
            StartTagView::Other => self,
        }
    }

    /// After an element closes.
    pub open spec fn ended(self, tag: EndTag) -> RendererView {
        match tag {
            EndTag::Paragraph => self.flushed().with_line(empty_line()),
            EndTag::Heading => self.without_style().flushed().with_line(empty_line()),
            EndTag::Emphasis => self.without_style(),
            EndTag::Strong => self.without_style(),
            EndTag::Strikethrough => self.without_style(),
            EndTag::BlockQuote => RendererView {
                blockquote_depth: if self.blockquote_depth == 0 {
                    0
                } else {
                    (self.blockquote_depth - 1) as nat
                },
                ..self.flushed()
            }.with_line(empty_line()),
            EndTag::CodeBlock => RendererView {
                code_block: false,
                ..self.flushed()
            }.with_line(empty_line()),
            EndTag::List => RendererView {
                list_stack: popped(self.list_stack),
                ..self.flushed()
            }.with_line(empty_line()),
            EndTag::Item => self.flushed(),
            EndTag::Link => match self.pending_link {
                Some(url) => RendererView {
                    pending_link: None,
                    ..self.without_style()
                }.with_span(
                    styled_span(
                        " ("@ + url + ")"@,
                        Style::plain().with_fg(Color::DarkGray),
                    ),
                ),
                None => self.without_style(),
            },
            EndTag::Other => self,
        }
    }

    /// After what stands between the tags.
    pub open spec fn with_inline(self, inline: InlineView) -> RendererView {
        match inline {
            InlineView::Text(text) => self.with_text(text),
            InlineView::Code(text) => self.with_span(
                styled_span(
                    text,
                    Style::plain().with_fg(Color::Yellow).with_bg(code_background()),
                ),
            ),
            InlineView::SoftBreak => self.with_span(raw_span(" "@)),
            InlineView::HardBreak => self.flushed(),
            InlineView::Rule => self.flushed().with_line(
                LineView::Styled("────────────────"@, Style::plain().with_fg(Color::DarkGray)),
            ),
            InlineView::Other => self,
        }
    }

    /// After one event.
    pub open spec fn after(self, event: EventView) -> RendererView {
        match event {
            EventView::Start(tag) => self.started(tag),
            EventView::End(tag) => self.ended(tag),
            EventView::Inline(inline) => self.with_inline(inline),
        }
    }

    /// After the first `n` of some events.
    pub open spec fn after_events(self, events: Seq<EventView>, n: nat) -> RendererView
        decreases n,
    {
        if n == 0 {
            self
        } else {
            self.after_events(events, (n - 1) as nat).after(events[n - 1])
        }
    }

    /// Whether the counters have room for what `event` adds to them.
    pub open spec fn has_room_for(self, event: EventView) -> bool {
        match event {
            EventView::Start(StartTagView::Item) => {
                self.list_stack.len() > 0 && self.list_stack.last() is Some
                    ==> self.list_stack.last().unwrap() < u64::MAX
            },
            EventView::Start(StartTagView::BlockQuote) => self.blockquote_depth < usize::MAX,
            _ => true,
        }
    }

    /// The lines of a finished rendering: at least one.
    pub open spec fn finished(self) -> Seq<LineView> {
        let complete = if self.current.len() > 0 {
            self.flushed()
        } else {
            self
        };
        if complete.lines.len() == 0 {
            seq![empty_line()]
        } else {
            complete.lines
        }
    }
}

/// The lines that some events are rendered as.
pub open spec fn rendered(events: Seq<EventView>) -> Seq<LineView> {
    blank_rendering().after_events(events, events.len()).finished()
}

/// Whether no counter overflows while `events` are rendered.
pub open spec fn renderable(events: Seq<EventView>) -> bool {
    forall|n: nat|
        n < events.len() ==> #[trigger] blank_rendering().after_events(events, n).has_room_for(
            events[n as int],
        )
}

impl MarkdownRenderer {
    /// A rendering that has seen nothing.
    pub fn new() -> (r: MarkdownRenderer)
        ensures
            r@ == blank_rendering(),
    {
        let r = MarkdownRenderer {
            lines: Vec::new(),
            current: Vec::new(),
            style_stack: Vec::new(),
            list_stack: Vec::new(),
            blockquote_depth: 0,
            code_block: false,
            pending_link: None,
        };
        assert(r@ =~= blank_rendering());
        r
    }

    /// Takes one event in.
    pub fn push(&mut self, event: &MdEvent)
        requires
            old(self)@.has_room_for(event@),
        ensures
            final(self)@ == old(self)@.after(event@),
    {
        match event {
            MdEvent::Start(tag) => self.start_tag(tag),
            MdEvent::End(tag) => self.end_tag(*tag),
            MdEvent::Inline(inline) => match inline {
                Inline::Text(text) => self.push_text(text.as_str()),
                Inline::Code(text) => self.push_span(
                    Span::styled(
                        text.clone(),
                        Style::plain().with_fg(Color::Yellow).with_bg(code_background()),
                    ),
                ),
                Inline::SoftBreak => self.push_span(Span::raw(" ")),
                Inline::HardBreak => self.flush_line(),
                Inline::Rule => {
                    self.flush_line();
                    self.push_line(
                        Line::styled(
                            "────────────────",
                            Style::plain().with_fg(Color::DarkGray),
                        ),
                    );
                },
                Inline::Other => {},
            },
        }
    }

    /// Takes the start of an element in.
    pub fn start_tag(&mut self, tag: &StartTag)
        requires
            old(self)@.has_room_for(EventView::Start(tag@)),
        ensures
            final(self)@ == old(self)@.started(tag@),
    {
        match tag {
            StartTag::Heading(level) => {
                self.flush_line();
                self.push_style(heading_style(*level));
            },
            StartTag::Emphasis => self.push_style(Style::plain().in_italic()),
            StartTag::Strong => self.push_style(Style::plain().in_bold()),
            StartTag::Strikethrough => self.push_style(Style::plain().cross_out()),
            StartTag::BlockQuote => {
                self.flush_line();
                self.blockquote_depth += 1;
            },
            StartTag::CodeBlock(kind) => {
                self.flush_line();
                self.code_block = true;
                let mut label = "code".to_string();
                if let Some(lang) = kind {
                    if !lang.as_str().is_empty() {
                        label = "code: ".to_string().concat(lang.as_str());
                    }
                }
                self.push_line(
                    Line::Styled(label, Style::plain().with_fg(Color::Magenta).in_bold()),
                );
            },
            StartTag::List(start) => {
                self.flush_line();
                self.list_stack.push(*start);
            },
            StartTag::Item => self.start_item(),
            StartTag::Link(url) => {
                self.pending_link = Some(url.clone());
                self.push_style(link_style());
            },
            StartTag::Other => {},
        }
    }

    fn start_item(&mut self)
        requires
            old(self)@.has_room_for(EventView::Start(StartTagView::Item)),
        ensures
            final(self)@ == old(self)@.with_item(),
    {
        self.flush_line();
        let depth: usize = self.list_stack.len();
        let mut bullet = repeat("  ", if depth == 0 { 0 } else { depth - 1 });
        match self.list_stack.pop() {
            Some(Some(number)) => {
                push_decimal(&mut bullet, number);
                bullet.append(". ");
                self.list_stack.push(Some(number + 1));
            },
            Some(None) => {
                bullet.append("• ");
                self.list_stack.push(None);
                assert(self.list_stack@ =~= old(self).list_stack@);
            },
            None => bullet.append("• "),
        }
        self.push_span(Span::styled(bullet, Style::plain().with_fg(Color::Cyan)));
    }

    /// Takes the end of an element in.
    pub fn end_tag(&mut self, tag: EndTag)
        ensures
            final(self)@ == old(self)@.ended(tag),
    {
        match tag {
            EndTag::Paragraph => {
                self.flush_line();
                self.push_line(Line::empty());
            },
            EndTag::Heading => {
                self.pop_style();
                self.flush_line();
                self.push_line(Line::empty());
            },
            EndTag::Emphasis => self.pop_style(),
            EndTag::Strong => self.pop_style(),
            EndTag::Strikethrough => self.pop_style(),
            EndTag::BlockQuote => {
                self.flush_line();
                if self.blockquote_depth > 0 {
                    self.blockquote_depth -= 1;
                }
                self.push_line(Line::empty());
            },
            EndTag::CodeBlock => {
                self.code_block = false;
                self.flush_line();
                self.push_line(Line::empty());
            },
            EndTag::List => {
                let _ = self.list_stack.pop();
                self.flush_line();
                self.push_line(Line::empty());
            },
            EndTag::Item => self.flush_line(),
            EndTag::Link => {
                self.pop_style();
                if let Some(url) = self.pending_link.take() {
                    let mut target = " (".to_string();
                    target.append(url.as_str());
                    target.append(")");
                    self.push_span(
                        Span::styled(target, Style::plain().with_fg(Color::DarkGray)),
                    );
                }
            },
            EndTag::Other => {},
        }
    }

    /// Takes a text in, line by line.
    pub fn push_text(&mut self, text: &str)
        ensures
            final(self)@ == old(self)@.with_text(text@),
    {
        let style = if self.code_block {
            self.combined_style().with_fg(Color::Yellow).with_bg(code_background())
        } else {
            self.combined_style()
        };
        let ghost segments = split_newlines(text@);
        let pieces = split_lines(text);
        let mut i: usize = 0;
        while i < pieces.len()
            invariant
                i <= pieces.len(),
                texts(pieces@) == segments,
                self@ == old(self)@.with_segments(segments, style, i as nat),
            decreases pieces.len() - i,
        {
            assert(texts(pieces@)[i as int] == pieces@[i as int]@);
            self.push_margin();
            if !pieces[i].as_str().is_empty() {
                self.push_span(Span::styled(pieces[i].clone(), style));
            }
            if i + 1 < pieces.len() {
                self.flush_line();
            }
            i += 1;
        }
    }

    fn push_margin(&mut self)
        ensures
            final(self)@ == old(self)@.with_margin(),
    {
        if self.current.is_empty() && self.blockquote_depth > 0 {
            let mut mark = repeat(">", self.blockquote_depth);
            mark.append(" ");
            self.push_span(Span::styled(mark, Style::plain().with_fg(Color::Green)));
        }
        if self.current.is_empty() && self.code_block {
            self.push_span(
                Span::styled("  ".to_string(), Style::plain().with_bg(code_background())),
            );
        }
    }

    /// The style that the open elements make together.
    pub fn combined_style(&self) -> (r: Style)
        ensures
            r == combined(self@.style_stack),
    {
        let mut style = Style::plain();
        let mut i: usize = 0;
        while i < self.style_stack.len()
            invariant
                i <= self.style_stack.len(),
                style == combined(self.style_stack@.take(i as int)),
            decreases self.style_stack.len() - i,
        {
            style = style.patch(self.style_stack[i]);
            assert(self.style_stack@.take(i + 1).drop_last() =~= self.style_stack@.take(i as int));
            i += 1;
        }
        assert(self.style_stack@.take(i as int) =~= self.style_stack@);
        style
    }

    /// Completes the line at hand, even if it is empty.
    pub fn flush_line(&mut self)
        ensures
            final(self)@ == old(self)@.flushed(),
    {
        let mut spans: Vec<Span> = Vec::new();
        std::mem::swap(&mut spans, &mut self.current);
        let line = if spans.is_empty() {
            Line::empty()
        } else {
            Line::Spans(spans)
        };
        self.lines.push(line);
        assert(self@ =~= old(self)@.flushed());
    }

    fn push_line(&mut self, line: Line)
        ensures
            final(self)@ == old(self)@.with_line(line@),
    {
        self.lines.push(line);
        assert(self@ =~= old(self)@.with_line(line@));
    }

    fn push_span(&mut self, span: Span)
        ensures
            final(self)@ == old(self)@.with_span(span@),
    {
        self.current.push(span);
        assert(self@ =~= old(self)@.with_span(span@));
    }

    fn push_style(&mut self, style: Style)
        ensures
            final(self)@ == old(self)@.with_style(style),
    {
        self.style_stack.push(style);
    }

    fn pop_style(&mut self)
        ensures
            final(self)@ == old(self)@.without_style(),
    {
        let _ = self.style_stack.pop();
    }

    /// The lines of the rendering: at least one.
    pub fn finish(self) -> (r: Vec<Line>)
        ensures
            line_views(r@) == self@.finished(),
    {
        let mut rendering = self;
        if !rendering.current.is_empty() {
            rendering.flush_line();
        }
        if rendering.lines.is_empty() {
            rendering.lines.push(Line::empty());
        }
        assert(line_views(rendering.lines@) =~= self@.finished());
        rendering.lines
    }
}

/// Renders the events of a document.
pub fn render_events(events: &Vec<MdEvent>) -> (r: Vec<Line>)
    requires
        renderable(event_views(events@)),
    ensures
        line_views(r@) == rendered(event_views(events@)),
{
    let mut renderer = MarkdownRenderer::new();
    let ghost views = event_views(events@);
    let mut i: usize = 0;
    while i < events.len()
        invariant
            i <= events.len(),
            views == event_views(events@),
            renderable(views),
            renderer@ == blank_rendering().after_events(views, i as nat),
        decreases events.len() - i,
    {
        assert(blank_rendering().after_events(views, i as nat).has_room_for(views[i as int]));
        renderer.push(&events[i]);
        i += 1;
    }
    renderer.finish()
}

/// While lists start with at most nine digits, their numbers grow by one with
/// each event at most, and so does the depth of quotations.
proof fn lemma_counters_small(events: Seq<EventView>, n: nat)
    requires
        lists_start_small(events),
        n <= events.len(),
    ensures
        blank_rendering().after_events(events, n).blockquote_depth <= n,
        forall|k: int|
            0 <= k < blank_rendering().after_events(events, n).list_stack.len() ==> (
            #[trigger] blank_rendering().after_events(events, n).list_stack[k] matches Some(m)
                ==> m <= 999_999_999 + n),
    decreases n,
{
    if n > 0 {
        lemma_counters_small(events, (n - 1) as nat);
        let before = blank_rendering().after_events(events, (n - 1) as nat);
        if let EventView::Inline(InlineView::Text(text)) = events[n - 1] {
            lemma_segments_keep(before, split_newlines(text), before.text_style(), split_newlines(text).len());
        }
    }
}

/// Text changes nothing but the lines.
pub(crate) proof fn lemma_segments_keep(
    r: RendererView,
    segments: Seq<Seq<char>>,
    style: Style,
    n: nat,
)
    ensures
        r.with_segments(segments, style, n).blockquote_depth == r.blockquote_depth,
        r.with_segments(segments, style, n).list_stack == r.list_stack,
        r.with_segments(segments, style, n).style_stack == r.style_stack,
        r.with_segments(segments, style, n).code_block == r.code_block,
        r.with_segments(segments, style, n).pending_link == r.pending_link,
    decreases n,
{
    if n > 0 {
        lemma_segments_keep(r, segments, style, (n - 1) as nat);
    }
}

/// The events of a parsed document never exhaust a counter.
pub proof fn lemma_small_lists_renderable(events: Seq<EventView>)
    requires
        lists_start_small(events),
        events.len() <= isize::MAX,
    ensures
        renderable(events),
{
    assert forall|n: nat| n < events.len() implies #[trigger] blank_rendering().after_events(
        events,
        n,
    ).has_room_for(events[n as int]) by {
        lemma_counters_small(events, n);
    }
}

/// Renders a Markdown document.
pub fn markdown_to_text(markdown: &str) -> (r: Vec<Line>)
    ensures
        line_views(r@) == rendered(markdown_events(markdown@)),
{
    let events = parse_markdown(markdown);
    proof {
        lemma_small_lists_renderable(event_views(events@));
    }
    render_events(&events)
}

} // verus!
