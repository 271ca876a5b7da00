//! Laws of rendering.

use vstd::prelude::*;

use crate::markdown::{EndTag, EventView, InlineView, StartTagView};
use crate::render::{
    blank_rendering, combined, heading_style, lemma_segments_keep, link_style, rendered,
    RendererView,
};
use crate::style::{empty_line, styled_span, Color, LineView, SpanView, Style};
use crate::style_laws::{bold_look, look};
use crate::text::{decimal, joined, lemma_split_nonempty, repeated, split_newlines};
use crate::text_laws::law_split_joins_back;

verus! {

/// Something is always shown.
pub proof fn law_rendering_has_a_line(events: Seq<EventView>)
    ensures
        rendered(events).len() > 0,
{
}

/// A document without events is shown as one empty line.
pub proof fn law_empty_document()
    ensures
        rendered(Seq::empty()) == seq![empty_line()],
{
}

/// The style that an element gives to its text, if it has one.
pub open spec fn style_of(tag: StartTagView) -> Option<Style> {
    match tag {
        StartTagView::Heading(level) => Some(heading_style(level)),
        StartTagView::Emphasis => Some(Style::plain().in_italic()),
        StartTagView::Strong => Some(Style::plain().in_bold()),
        StartTagView::Strikethrough => Some(Style::plain().cross_out()),
        StartTagView::Link(_) => Some(link_style()),
        _ => None,
    }
}

/// The styles of some elements, in their order.
pub open spec fn styles_of(tags: Seq<StartTagView>) -> Seq<Style>
    decreases tags.len(),
{
    if tags.len() == 0 {
        Seq::empty()
    } else {
        let outer = styles_of(tags.drop_last());
        match style_of(tags.last()) {
            Some(style) => outer.push(style),
            None => outer,
        }
    }
}

/// How many of some elements are quotations.
pub open spec fn quotations(tags: Seq<StartTagView>) -> nat
    decreases tags.len(),
{
    if tags.len() == 0 {
        0
    } else {
        quotations(tags.drop_last()) + if tags.last() is BlockQuote {
            1nat
        } else {
            0nat
        }
    }
}

/// How many of some elements are lists.
pub open spec fn lists(tags: Seq<StartTagView>) -> nat
    decreases tags.len(),
{
    if tags.len() == 0 {
        0
    } else {
        lists(tags.drop_last()) + if tags.last() is List {
            1nat
        } else {
            0nat
        }
    }
}

/// How many of some elements are code blocks.
pub open spec fn code_blocks(tags: Seq<StartTagView>) -> nat
    decreases tags.len(),
{
    if tags.len() == 0 {
        0
    } else {
        code_blocks(tags.drop_last()) + if tags.last() is CodeBlock {
            1nat
        } else {
            0nat
        }
    }
}

/// How many of some elements are links.
pub open spec fn links(tags: Seq<StartTagView>) -> nat
    decreases tags.len(),
{
    if tags.len() == 0 {
        0
    } else {
        links(tags.drop_last()) + if tags.last() is Link {
            1nat
        } else {
            0nat
        }
    }
}

/// Whether an end tag is the one of a start tag.
pub open spec fn closes(start: StartTagView, end: EndTag) -> bool {
    match start {
        StartTagView::Heading(_) => end is Heading,
        StartTagView::Emphasis => end is Emphasis,
        StartTagView::Strong => end is Strong,
        StartTagView::Strikethrough => end is Strikethrough,
        StartTagView::BlockQuote => end is BlockQuote,
        StartTagView::CodeBlock(_) => end is CodeBlock,
        StartTagView::List(_) => end is List,
        StartTagView::Item => end is Item,
        StartTagView::Link(_) => end is Link,
        StartTagView::Other => end is Paragraph || end is Other,
    }
}

/// The elements that are open after the first `n` events, the innermost last;
/// `None` where the tags do not match.
pub open spec fn open_elements(events: Seq<EventView>, n: nat) -> Option<Seq<StartTagView>>
    decreases n,
{
    if n == 0 {
        Some(Seq::empty())
    } else {
        match open_elements(events, (n - 1) as nat) {
            None => None,
            Some(open) => match events[n - 1] {
                EventView::Start(tag) => Some(open.push(tag)),
                EventView::End(tag) => if open.len() > 0 && closes(open.last(), tag) {
                    Some(open.drop_last())
                } else {
                    None
                },
                EventView::Inline(_) => Some(open),
            },
        }
    }
}

/// While tags match, the styles that text is shown in are those of exactly the
/// elements that are open round it, and quotation marks and list indents count
/// exactly the quotations and lists that are open. Text is shown as code only
/// while a code block is open, and a link's target is only kept while a link is.
pub proof fn law_styles_follow_nesting(events: Seq<EventView>, n: nat)
    requires
        n <= events.len(),
        open_elements(events, n) is Some,
    ensures
        blank_rendering().after_events(events, n).style_stack == styles_of(
            open_elements(events, n).unwrap(),
        ),
        blank_rendering().after_events(events, n).blockquote_depth == quotations(
            open_elements(events, n).unwrap(),
        ),
        blank_rendering().after_events(events, n).list_stack.len() == lists(
            open_elements(events, n).unwrap(),
        ),
        code_blocks(open_elements(events, n).unwrap()) == 0 ==> {
            &&& !blank_rendering().after_events(events, n).code_block
            &&& blank_rendering().after_events(events, n).text_style() == combined(
                styles_of(open_elements(events, n).unwrap()),
            )
        },
        links(open_elements(events, n).unwrap()) == 0
            ==> blank_rendering().after_events(events, n).pending_link is None,
    decreases n,
{
    if n > 0 {
        law_styles_follow_nesting(events, (n - 1) as nat);
        let before = blank_rendering().after_events(events, (n - 1) as nat);
        let open = open_elements(events, (n - 1) as nat).unwrap();
        match events[n - 1] {
            EventView::Start(tag) => {
                assert(open.push(tag).drop_last() =~= open);
            },
            EventView::End(tag) => {
                if style_of(open.last()) is Some {
                    assert(styles_of(open).drop_last() =~= styles_of(open.drop_last()));
                }
            },
            EventView::Inline(InlineView::Text(text)) => {
                lemma_segments_keep(
                    before,
                    split_newlines(text),
                    before.text_style(),
                    split_newlines(text).len(),
                );
            },
            EventView::Inline(_) => {},
        }
    }
}

/// Where no code block stands inside another and no link inside another, text is
/// shown as code exactly while a code block is open, and a link's target is kept
/// exactly while a link is.
pub proof fn law_code_and_links_follow_nesting(events: Seq<EventView>, n: nat)
    requires
        n <= events.len(),
        open_elements(events, n) is Some,
        forall|m: nat|
            m <= n ==> code_blocks(#[trigger] open_elements(events, m).unwrap()) <= 1 && links(
                open_elements(events, m).unwrap(),
            ) <= 1,
    ensures
        blank_rendering().after_events(events, n).code_block == (code_blocks(
            open_elements(events, n).unwrap(),
        ) == 1),
        blank_rendering().after_events(events, n).pending_link is Some == (links(
            open_elements(events, n).unwrap(),
        ) == 1),
    decreases n,
{
    assert(code_blocks(open_elements(events, n).unwrap()) <= 1);
    if n > 0 {
        law_code_and_links_follow_nesting(events, (n - 1) as nat);
        let before = blank_rendering().after_events(events, (n - 1) as nat);
        let open = open_elements(events, (n - 1) as nat).unwrap();
        assert(code_blocks(open) <= 1 && links(open) <= 1);
        match events[n - 1] {
            EventView::Start(tag) => {
                assert(open.push(tag).drop_last() =~= open);
            },
            EventView::End(_) => {},
            EventView::Inline(InlineView::Text(text)) => {
                lemma_segments_keep(
                    before,
                    split_newlines(text),
                    before.text_style(),
                    split_newlines(text).len(),
                );
            },
            EventView::Inline(_) => {},
        }
    }
}

/// A document whose tags all match leaves no style, no quotation, no list, no
/// code block and no link behind.
pub proof fn law_nothing_leaks(events: Seq<EventView>)
    requires
        open_elements(events, events.len()) == Some(Seq::<StartTagView>::empty()),
    ensures
        blank_rendering().after_events(events, events.len()).style_stack.len() == 0,
        blank_rendering().after_events(events, events.len()).blockquote_depth == 0,
        blank_rendering().after_events(events, events.len()).list_stack.len() == 0,
        !blank_rendering().after_events(events, events.len()).code_block,
        blank_rendering().after_events(events, events.len()).pending_link is None,
{
    law_styles_follow_nesting(events, events.len());
}

/// Lines that are complete stay as they are while more events come in.
pub proof fn law_lines_stay(r: RendererView, event: EventView)
    ensures
        r.lines.is_prefix_of(r.after(event).lines),
{
    if let EventView::Inline(InlineView::Text(text)) = event {
        lemma_segments_only_add(r, split_newlines(text), r.text_style(), split_newlines(text).len());
    }
    assert(r.lines.is_prefix_of(r.after(event).lines)) by {
        let after = r.after(event).lines;
        assert(after.len() >= r.lines.len());
        assert(after.subrange(0, r.lines.len() as int) =~= r.lines);
    }
}

proof fn lemma_segments_only_add(r: RendererView, segments: Seq<Seq<char>>, style: Style, n: nat)
    ensures
        r.with_segments(segments, style, n).lines.len() >= r.lines.len(),
        r.with_segments(segments, style, n).lines.take(r.lines.len() as int) =~= r.lines,
    decreases n,
{
    if n > 0 {
        lemma_segments_only_add(r, segments, style, (n - 1) as nat);
        let before = r.with_segments(segments, style, (n - 1) as nat).lines;
        let after = r.with_segments(segments, style, n).lines;
        assert(after.take(before.len() as int) =~= before);
        assert(after.take(r.lines.len() as int) =~= before.take(r.lines.len() as int));
    } else {
        assert(r.lines.take(r.lines.len() as int) =~= r.lines);
    }
}

impl LineView {
    /// Whether the line is a row of spans with `span` at its end.
    pub open spec fn ends_with(self, span: SpanView) -> bool {
        self matches LineView::Spans(spans) && spans.len() > 0 && spans.last() == span
    }
}

/// How many lines the first segments of a text complete, and what stands at the
/// end of each.
proof fn lemma_segments_shown(
    r: RendererView,
    segments: Seq<Seq<char>>,
    style: Style,
    n: nat,
    i: int,
)
    requires
        0 <= i < n <= segments.len(),
        segments[i].len() > 0,
    ensures
        n < segments.len() ==> r.with_segments(segments, style, n).lines.len() == r.lines.len() + n,
        n == segments.len() ==> r.with_segments(segments, style, n).lines.len() == r.lines.len() + n
            - 1,
        i + 1 < segments.len() ==> r.with_segments(
            segments,
            style,
            n,
        ).lines[r.lines.len() + i].ends_with(styled_span(segments[i], style)),
        i + 1 == segments.len() ==> r.with_segments(segments, style, n).current.len() > 0
            && r.with_segments(segments, style, n).current.last() == styled_span(
            segments[i],
            style,
        ),
    decreases n,
{
    lemma_segments_lines(r, segments, style, (n - 1) as nat);
    if i < n - 1 {
        lemma_segments_shown(r, segments, style, (n - 1) as nat, i);
    }
}

proof fn lemma_segments_lines(r: RendererView, segments: Seq<Seq<char>>, style: Style, n: nat)
    requires
        n < segments.len(),
    ensures
        r.with_segments(segments, style, n).lines.len() == r.lines.len() + n,
    decreases n,
{
    if n > 0 {
        lemma_segments_lines(r, segments, style, (n - 1) as nat);
    }
}

/// No text is lost: each line of it that is not empty ends a line of its own, in
/// the style of the elements that are open, and the last one ends the line at
/// hand.
pub proof fn law_text_is_shown(r: RendererView, text: Seq<char>, i: int)
    requires
        0 <= i < split_newlines(text).len(),
        split_newlines(text)[i].len() > 0,
    ensures
        i + 1 < split_newlines(text).len() ==> r.with_text(text).lines[r.lines.len()
            + i].ends_with(styled_span(split_newlines(text)[i], r.text_style())),
        i + 1 == split_newlines(text).len() ==> r.with_text(text).current.len() > 0
            && r.with_text(text).current.last() == styled_span(
            split_newlines(text)[i],
            r.text_style(),
        ),
{
    let segments = split_newlines(text);
    lemma_segments_shown(r, segments, r.text_style(), segments.len(), i);
}

/// A text of several lines completes one line for each newline in it.
pub proof fn law_newlines_make_lines(r: RendererView, text: Seq<char>)
    ensures
        r.with_text(text).lines.len() == r.lines.len() + split_newlines(text).len() - 1,
{
    lemma_split_nonempty(text);
    let segments = split_newlines(text);
    lemma_segments_lines(r, segments, r.text_style(), (segments.len() - 1) as nat);
}

/// The items of an ordered list are numbered one after the other, and are
/// indented by the lists round theirs.
pub proof fn law_items_count_up(r: RendererView, number: u64)
    requires
        r.list_stack.len() > 0,
        r.list_stack.last() == Some(number),
        number < u64::MAX,
    ensures
        r.started(StartTagView::Item).current == seq![
            styled_span(
                repeated("  "@, (r.list_stack.len() - 1) as nat) + decimal(number as nat) + ". "@,
                Style::plain().with_fg(Color::Cyan),
            ),
        ],
        r.started(StartTagView::Item).list_stack.last() == Some((number + 1) as u64),
        r.started(StartTagView::Item).list_stack.drop_last() == r.list_stack.drop_last(),
{
    let after = r.started(StartTagView::Item);
    assert(after.list_stack.drop_last() =~= r.list_stack.drop_last());
    assert(after.current =~= seq![after.current.last()]);
}

/// A link's text is followed by its target, and its style ends with it.
pub proof fn law_link_shows_its_target(r: RendererView, url: Seq<char>, text: Seq<char>)
    ensures
        ({
            let after = r.started(StartTagView::Link(url)).with_text(text).ended(EndTag::Link);
            &&& after.current.last() == styled_span(
                " ("@ + url + ")"@,
                Style::plain().with_fg(Color::DarkGray),
            )
            &&& after.style_stack == r.style_stack
            &&& after.pending_link is None
        }),
{
    let opened = r.started(StartTagView::Link(url));
    let segments = split_newlines(text);
    lemma_segments_keep(opened, segments, opened.text_style(), segments.len());
    assert(opened.style_stack.drop_last() =~= r.style_stack);
}

/// A rendering whose line at hand is complete, even if it is empty.
pub open spec fn broken(r: RendererView) -> RendererView {
    RendererView {
        lines: r.lines.push(
            if r.current.len() == 0 {
                LineView::Styled(Seq::empty(), look(None, None))
            } else {
                LineView::Spans(r.current)
            },
        ),
        current: Seq::empty(),
        ..r
    }
}

/// A rendering with an empty line behind the complete ones.
pub open spec fn spaced(r: RendererView) -> RendererView {
    RendererView {
        lines: r.lines.push(LineView::Styled(Seq::empty(), look(None, None))),
        ..r
    }
}

/// No inline code is lost: it is one more span at the end of the line at hand,
/// in yellow on the background of code, and nothing else changes.
pub proof fn law_inline_code_is_shown(r: RendererView, text: Seq<char>)
    ensures
        r.after(EventView::Inline(InlineView::Code(text))) == (RendererView {
            current: r.current.push(
                SpanView {
                    content: text,
                    style: look(Some(Color::Yellow), Some(Color::Rgb(24, 28, 40))),
                },
            ),
            ..r
        }),
{
}

/// A soft break is a blank, a hard break ends the line, and a rule is a line of
/// its own behind the one that it ends.
pub proof fn law_breaks_and_rules(r: RendererView)
    ensures
        r.after(EventView::Inline(InlineView::SoftBreak)) == (RendererView {
            current: r.current.push(SpanView { content: " "@, style: look(None, None) }),
            ..r
        }),
        r.after(EventView::Inline(InlineView::HardBreak)) == broken(r),
        r.after(EventView::Inline(InlineView::Rule)) == (RendererView {
            lines: broken(r).lines.push(
                LineView::Styled("────────────────"@, look(Some(Color::DarkGray), None)),
            ),
            ..broken(r)
        }),
{
}

/// What the renderer has no rule for changes nothing.
pub proof fn law_other_matter_changes_nothing(r: RendererView)
    ensures
        r.after(EventView::Inline(InlineView::Other)) == r,
        r.after(EventView::Start(StartTagView::Other)) == r,
        r.after(EventView::End(EndTag::Other)) == r,
{
}

/// Emphasis, strong and struck text add one style and nothing else, and their
/// ends take it away again, whatever stands between.
pub proof fn law_inline_elements(r: RendererView)
    ensures
        r.after(EventView::Start(StartTagView::Emphasis)) == (RendererView {
            style_stack: r.style_stack.push(Style { italic: true, ..look(None, None) }),
            ..r
        }),
        r.after(EventView::Start(StartTagView::Strong)) == (RendererView {
            style_stack: r.style_stack.push(Style { bold: true, ..look(None, None) }),
            ..r
        }),
        r.after(EventView::Start(StartTagView::Strikethrough)) == (RendererView {
            style_stack: r.style_stack.push(Style { crossed_out: true, ..look(None, None) }),
            ..r
        }),
        r.style_stack.len() > 0 ==> {
            let outer = RendererView { style_stack: r.style_stack.drop_last(), ..r };
            &&& r.after(EventView::End(EndTag::Emphasis)) == outer
            &&& r.after(EventView::End(EndTag::Strong)) == outer
            &&& r.after(EventView::End(EndTag::Strikethrough)) == outer
        },
        r.style_stack.len() == 0 ==> {
            &&& r.after(EventView::End(EndTag::Emphasis)) == r
            &&& r.after(EventView::End(EndTag::Strong)) == r
            &&& r.after(EventView::End(EndTag::Strikethrough)) == r
        },
{
}

/// A heading starts on a line of its own, bold and in the colour of its level,
/// and an empty line follows it. So it is for a paragraph's end, without a style.
pub proof fn law_headings_and_paragraphs(r: RendererView, level: u8)
    ensures
        r.after(EventView::Start(StartTagView::Heading(level))) == (RendererView {
            style_stack: r.style_stack.push(
                bold_look(
                    Some(
                        if level == 1 {
                            Color::Cyan
                        } else if level == 2 {
                            Color::LightCyan
                        } else {
                            Color::White
                        },
                    ),
                    None,
                ),
            ),
            ..broken(r)
        }),
        r.style_stack.len() > 0 ==> r.after(EventView::End(EndTag::Heading)) == (RendererView {
            style_stack: r.style_stack.drop_last(),
            ..spaced(broken(r))
        }),
        r.style_stack.len() == 0 ==> r.after(EventView::End(EndTag::Heading)) == spaced(broken(r)),
        r.after(EventView::End(EndTag::Paragraph)) == spaced(broken(r)),
{
}

/// Quotations nest: each start is one mark more on the lines that follow, and
/// each end one less, with an empty line behind it.
pub proof fn law_quotations(r: RendererView)
    ensures
        r.after(EventView::Start(StartTagView::BlockQuote)) == (RendererView {
            blockquote_depth: (r.blockquote_depth + 1) as nat,
            ..broken(r)
        }),
        r.blockquote_depth > 0 ==> r.after(EventView::End(EndTag::BlockQuote)) == (RendererView {
            blockquote_depth: (r.blockquote_depth - 1) as nat,
            ..spaced(broken(r))
        }),
        r.blockquote_depth == 0 ==> r.after(EventView::End(EndTag::BlockQuote)) == spaced(
            broken(r),
        ),
{
}

/// A code block starts with a line that names its language, if it has one, and
/// ends with an empty line; between them, text is code.
pub proof fn law_code_blocks(r: RendererView, lang: Seq<char>)
    ensures
        r.after(EventView::Start(StartTagView::CodeBlock(Some(lang)))) == (RendererView {
            lines: broken(r).lines.push(
                LineView::Styled(
                    if lang.len() == 0 {
                        "code"@
                    } else {
                        "code: "@ + lang
                    },
                    bold_look(Some(Color::Magenta), None),
                ),
            ),
            code_block: true,
            ..broken(r)
        }),
        r.after(EventView::Start(StartTagView::CodeBlock(None))) == r.after(
            EventView::Start(StartTagView::CodeBlock(Some(Seq::empty()))),
        ),
        r.after(EventView::End(EndTag::CodeBlock)) == (RendererView {
            code_block: false,
            ..spaced(broken(r))
        }),
{
}

/// A list starts on a new line and keeps its first number; its end brings the
/// list round it back, with an empty line behind it.
pub proof fn law_lists(r: RendererView, start: Option<u64>)
    ensures
        r.after(EventView::Start(StartTagView::List(start))) == (RendererView {
            list_stack: r.list_stack.push(start),
            ..broken(r)
        }),
        r.list_stack.len() > 0 ==> r.after(EventView::End(EndTag::List)) == (RendererView {
            list_stack: r.list_stack.drop_last(),
            ..spaced(broken(r))
        }),
        r.list_stack.len() == 0 ==> r.after(EventView::End(EndTag::List)) == spaced(broken(r)),
        r.after(EventView::End(EndTag::Item)) == broken(r),
{
}

/// An item starts a new line with its number, which the list then counts up, or
/// with a bullet where its list is not ordered, behind two blanks for each list
/// round its own.
pub proof fn law_items(r: RendererView)
    ensures
        ({
            let after = r.after(EventView::Start(StartTagView::Item));
            let depth = if r.list_stack.len() == 0 {
                0
            } else {
                (r.list_stack.len() - 1) as nat
            };
            let ordered = r.list_stack.len() > 0 && r.list_stack.last() is Some;
            let mark = if ordered {
                decimal(r.list_stack.last().unwrap() as nat) + ". "@
            } else {
                "• "@
            };
            &&& after == RendererView {
                current: after.current,
                list_stack: after.list_stack,
                ..broken(r)
            }
            &&& after.current.len() == 1
            &&& after.current[0].style == look(Some(Color::Cyan), None)
            &&& after.current[0].content == repeated("  "@, depth) + mark
            &&& ordered ==> after.list_stack == r.list_stack.update(
                r.list_stack.len() - 1,
                Some((r.list_stack.last().unwrap() + 1) as u64),
            )
            &&& !ordered ==> after.list_stack == r.list_stack
        }),
{
    let after = r.after(EventView::Start(StartTagView::Item));
    if r.list_stack.len() > 0 && r.list_stack.last() is Some {
        let next = Some((r.list_stack.last().unwrap() + 1) as u64);
        assert(after.list_stack =~= r.list_stack.update(r.list_stack.len() - 1, next));
        let indent = repeated("  "@, (r.list_stack.len() - 1) as nat);
        let number = decimal(r.list_stack.last().unwrap() as nat);
        assert(indent + number + ". "@ =~= indent + (number + ". "@));
    }
    assert(after =~= RendererView {
        current: after.current,
        list_stack: after.list_stack,
        ..broken(r)
    });
}

/// A link keeps its target for its end, and the end shows it behind the text, in
/// brackets.
pub proof fn law_links(r: RendererView, url: Seq<char>)
    ensures
        r.after(EventView::Start(StartTagView::Link(url))) == (RendererView {
            pending_link: Some(url),
            style_stack: r.style_stack.push(
                Style { underlined: true, ..look(Some(Color::LightBlue), None) },
            ),
            ..r
        }),
        r.style_stack.len() > 0 && r.pending_link == Some(url) ==> r.after(
            EventView::End(EndTag::Link),
        ) == (RendererView {
            pending_link: None,
            style_stack: r.style_stack.drop_last(),
            current: r.current.push(
                SpanView {
                    content: " ("@ + url + ")"@,
                    style: look(Some(Color::DarkGray), None),
                },
            ),
            ..r
        }),
        r.style_stack.len() > 0 && r.pending_link is None ==> r.after(EventView::End(EndTag::Link))
            == (RendererView { style_stack: r.style_stack.drop_last(), ..r }),
{
}

/// What a line of text starts with: the marks of the quotations round it, or
/// else the margin of code.
pub open spec fn line_start(r: RendererView) -> Seq<SpanView> {
    if r.blockquote_depth > 0 {
        seq![
            SpanView {
                content: repeated(">"@, r.blockquote_depth) + " "@,
                style: look(Some(Color::Green), None),
            },
        ]
    } else if r.code_block {
        seq![
            SpanView { content: "  "@, style: look(None, Some(Color::Rgb(24, 28, 40))) },
        ]
    } else {
        Seq::empty()
    }
}

/// The look of text: that of the elements round it, in yellow on the background
/// of code inside a code block.
pub open spec fn text_look(r: RendererView) -> Style {
    if r.code_block {
        Style {
            fg: Some(Color::Yellow),
            bg: Some(Color::Rgb(24, 28, 40)),
            ..combined(r.style_stack)
        }
    } else {
        combined(r.style_stack)
    }
}

/// The spans of one line of a text: behind what stands on the line at hand, or
/// behind a line's start, the characters of the line, if there are any.
pub open spec fn text_row(r: RendererView, row: Seq<char>, first: bool) -> Seq<SpanView> {
    let start = if first && r.current.len() > 0 {
        r.current
    } else {
        line_start(r)
    };
    if row.len() == 0 {
        start
    } else {
        start.push(SpanView { content: row, style: text_look(r) })
    }
}

/// The line that some spans make.
pub open spec fn row_line(spans: Seq<SpanView>) -> LineView {
    if spans.len() == 0 {
        LineView::Styled(Seq::empty(), look(None, None))
    } else {
        LineView::Spans(spans)
    }
}

/// What the first `n` rows of a text come to.
proof fn lemma_rows(r: RendererView, rows: Seq<Seq<char>>, n: nat)
    requires
        n <= rows.len(),
        rows.len() > 0,
    ensures
        ({
            let after = r.with_segments(rows, r.text_style(), n);
            let done = if n < rows.len() {
                n
            } else {
                (n - 1) as nat
            };
            &&& after.lines.len() == r.lines.len() + done
            &&& forall|i: int| 0 <= i < r.lines.len() ==> #[trigger] after.lines[i] == r.lines[i]
            &&& forall|i: int|
                0 <= i < done ==> #[trigger] after.lines[r.lines.len() + i] == row_line(
                    text_row(r, rows[i], i == 0),
                )
            &&& after.current == if n == 0 {
                r.current
            } else if n < rows.len() {
                Seq::empty()
            } else {
                text_row(r, rows[n - 1], n == 1)
            }
        }),
    decreases n,
{
    if n > 0 {
        lemma_rows(r, rows, (n - 1) as nat);
        lemma_segments_keep(r, rows, r.text_style(), (n - 1) as nat);
        let before = r.with_segments(rows, r.text_style(), (n - 1) as nat);
        let after = r.with_segments(rows, r.text_style(), n);
        assert(before.current.len() == 0 || n == 1 && before == r);
        let row = text_row(r, rows[n - 1], n == 1);
        let filled = before.with_segment(rows[n - 1], r.text_style(), true);
        assert(filled.current =~= row);
        assert(filled.lines == before.lines);
        if n < rows.len() {
            assert(after.lines == before.lines.push(row_line(row)));
            assert forall|i: int| 0 <= i < n implies #[trigger] after.lines[r.lines.len() + i]
                == row_line(text_row(r, rows[i], i == 0)) by {
                if i < n - 1 {
                    assert(after.lines[r.lines.len() + i] == before.lines[r.lines.len() + i]);
                }
            }
        }
    }
}

/// A text is shown line by line, character for character: each newline completes
/// a line, what follows starts the next, and nothing else comes in or is lost.
pub proof fn law_text_line_by_line(r: RendererView, text: Seq<char>)
    ensures
        ({
            let after = r.after(EventView::Inline(InlineView::Text(text)));
            let rows = split_newlines(text);
            &&& after == RendererView { lines: after.lines, current: after.current, ..r }
            &&& after.lines.len() == r.lines.len() + rows.len() - 1
            &&& forall|i: int| 0 <= i < r.lines.len() ==> #[trigger] after.lines[i] == r.lines[i]
            &&& forall|i: int|
                0 <= i < rows.len() - 1 ==> #[trigger] after.lines[r.lines.len() + i] == row_line(
                    text_row(r, rows[i], i == 0),
                )
            &&& after.current == text_row(r, rows.last(), rows.len() == 1)
        }),
{
    lemma_split_nonempty(text);
    let rows = split_newlines(text);
    lemma_rows(r, rows, rows.len());
    lemma_segments_keep(r, rows, r.text_style(), rows.len());
}

/// The characters of some spans.
pub open spec fn spans_text(spans: Seq<SpanView>) -> Seq<char>
    decreases spans.len(),
{
    if spans.len() == 0 {
        Seq::empty()
    } else {
        spans_text(spans.drop_last()) + spans.last().content
    }
}

/// The characters of a line.
pub open spec fn line_text(line: LineView) -> Seq<char> {
    match line {
        LineView::Styled(content, _) => content,
        LineView::Spans(spans) => spans_text(spans),
    }
}

/// The characters of some lines, each with a newline behind it.
pub open spec fn lines_text(lines: Seq<LineView>) -> Seq<char>
    decreases lines.len(),
{
    if lines.len() == 0 {
        Seq::empty()
    } else {
        lines_text(lines.drop_last()) + line_text(lines.last()) + seq!['\n']
    }
}

/// All that a rendering shows, as characters.
pub open spec fn shown(r: RendererView) -> Seq<char> {
    lines_text(r.lines) + spans_text(r.current)
}

/// Completing a line is a newline.
proof fn lemma_flushed_shown(r: RendererView)
    ensures
        shown(r.flushed()) == shown(r).push('\n'),
{
    assert(r.flushed().lines.drop_last() =~= r.lines);
    assert(spans_text(Seq::empty()) =~= Seq::empty());
    assert(shown(r.flushed()) =~= shown(r).push('\n'));
}

/// A span adds its characters.
proof fn lemma_span_shown(r: RendererView, span: SpanView)
    ensures
        shown(r.with_span(span)) == shown(r) + span.content,
{
    assert(r.with_span(span).current.drop_last() =~= r.current);
    assert(shown(r.with_span(span)) =~= shown(r) + span.content);
}

/// What the first rows of a text add to what is shown.
proof fn lemma_rows_shown(r: RendererView, rows: Seq<Seq<char>>, n: nat)
    requires
        r.blockquote_depth == 0,
        !r.code_block,
        n <= rows.len(),
    ensures
        shown(r.with_segments(rows, r.text_style(), n)) == shown(r) + joined(
            rows.take(n as int),
            seq!['\n'],
        ) + if 0 < n < rows.len() {
            seq!['\n']
        } else {
            Seq::empty()
        },
    decreases n,
{
    let newline = seq!['\n'];
    if n == 0 {
        assert(joined(rows.take(0), newline) =~= Seq::empty());
        assert(shown(r) =~= shown(r) + joined(rows.take(0), newline) + Seq::empty());
    } else {
        lemma_rows_shown(r, rows, (n - 1) as nat);
        lemma_segments_keep(r, rows, r.text_style(), (n - 1) as nat);
        let before = r.with_segments(rows, r.text_style(), (n - 1) as nat);
        let row = rows[n - 1];
        let span = SpanView { content: row, style: r.text_style() };
        lemma_span_shown(before, span);
        let filled = if row.len() > 0 {
            before.with_span(span)
        } else {
            before
        };
        assert(shown(filled) =~= shown(before) + row);
        lemma_flushed_shown(filled);
        assert(rows.take(n as int).drop_last() =~= rows.take(n - 1));
        assert(rows.take(n as int).last() == row);
        if n == 1 {
            assert(rows.take(1)[0] == row);
            assert(joined(rows.take(0), newline) =~= Seq::empty());
        }
        assert(shown(r.with_segments(rows, r.text_style(), n)) =~= shown(r) + joined(
            rows.take(n as int),
            newline,
        ) + if 0 < n < rows.len() {
            newline
        } else {
            Seq::empty()
        });
    }
}

/// Outside of quotations and code, a text adds its own characters to what is
/// shown, and no others.
pub proof fn law_text_adds_its_characters(r: RendererView, text: Seq<char>)
    requires
        r.blockquote_depth == 0,
        !r.code_block,
    ensures
        shown(r.after(EventView::Inline(InlineView::Text(text)))) == shown(r) + text,
{
    let rows = split_newlines(text);
    lemma_rows_shown(r, rows, rows.len());
    assert(rows.take(rows.len() as int) =~= rows);
    law_split_joins_back(text);
    assert(shown(r.with_text(text)) =~= shown(r) + text);
}

/// Events are taken in one by one, in their order, and a document that goes on
/// is rendered from where its first part ended.
pub proof fn law_events_in_order(r: RendererView, first: Seq<EventView>, second: Seq<EventView>)
    ensures
        r.after_events(first, 0) == r,
        forall|event: EventView| #[trigger]
            r.after_events(first.push(event), first.len() + 1) == r.after_events(
                first,
                first.len(),
            ).after(event),
        r.after_events(first + second, first.len() + second.len()) == r.after_events(
            first,
            first.len(),
        ).after_events(second, second.len()),
{
    assert forall|event: EventView| #[trigger]
        r.after_events(first.push(event), first.len() + 1) == r.after_events(
            first,
            first.len(),
        ).after(event) by {
        lemma_events_prefix(r, first.push(event), first, first.len());
    }
    lemma_events_prefix(r, first + second, first, first.len());
    lemma_events_joined(r, first, second, second.len());
}

/// Only the events that are taken in count.
proof fn lemma_events_prefix(r: RendererView, long: Seq<EventView>, short: Seq<EventView>, n: nat)
    requires
        n <= short.len(),
        short.len() <= long.len(),
        forall|i: int| 0 <= i < short.len() ==> #[trigger] short[i] == long[i],
    ensures
        r.after_events(long, n) == r.after_events(short, n),
    decreases n,
{
    if n > 0 {
        lemma_events_prefix(r, long, short, (n - 1) as nat);
        assert(short[n - 1] == long[n - 1]);
    }
}

proof fn lemma_events_joined(
    r: RendererView,
    first: Seq<EventView>,
    second: Seq<EventView>,
    n: nat,
)
    requires
        n <= second.len(),
    ensures
        r.after_events(first + second, first.len() + n) == r.after_events(
            first,
            first.len(),
        ).after_events(second, n),
    decreases n,
{
    if n > 0 {
        lemma_events_joined(r, first, second, (n - 1) as nat);
        assert((first + second)[first.len() + n - 1] == second[n - 1]);
    } else {
        lemma_events_prefix(r, first + second, first, first.len());
    }
}

/// A document shows every line that its events made, and the line at hand behind
/// them if there is anything on it; where there is nothing at all, one empty
/// line.
pub proof fn law_document_shows_all_lines(events: Seq<EventView>)
    ensures
        ({
            let last = blank_rendering().after_events(events, events.len());
            rendered(events) == if last.current.len() > 0 {
                last.lines.push(LineView::Spans(last.current))
            } else if last.lines.len() > 0 {
                last.lines
            } else {
                seq![LineView::Styled(Seq::empty(), look(None, None))]
            }
        }),
        blank_rendering() == (RendererView {
            lines: Seq::empty(),
            current: Seq::empty(),
            style_stack: Seq::empty(),
            list_stack: Seq::empty(),
            blockquote_depth: 0,
            code_block: false,
            pending_link: None,
        }),
{
}

} // verus!
