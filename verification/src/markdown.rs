//! Markdown, parsed into events.

use pulldown_cmark::{CodeBlockKind, Event, Options, Parser, Tag, TagEnd};
use vstd::prelude::*;

verus! {

/// The start of an element. What the renderer does not treat is `Other`.
#[derive(Debug, PartialEq, Eq)]
pub enum StartTag {
    /// A heading, with its level: one for the highest.
    Heading(u8),
    Emphasis,
    Strong,
    Strikethrough,
    BlockQuote,
    /// A code block; a fenced one has a language, which may be empty.
    CodeBlock(Option<String>),
    /// A list; an ordered one has the number of its first item.
    List(Option<u64>),
    Item,
    /// A link, with its target.
    Link(String),
    Other,
}

/// A start tag as a mathematical value.
pub enum StartTagView {
    Heading(u8),
    Emphasis,
    Strong,
    Strikethrough,
    BlockQuote,
    CodeBlock(Option<Seq<char>>),
    List(Option<u64>),
    Item,
    Link(Seq<char>),
    Other,
}

impl View for StartTag {
    type V = StartTagView;

    open spec fn view(&self) -> StartTagView {
        match self {
            StartTag::Heading(level) => StartTagView::Heading(*level),
            StartTag::Emphasis => StartTagView::Emphasis,
            StartTag::Strong => StartTagView::Strong,
            StartTag::Strikethrough => StartTagView::Strikethrough,
            StartTag::BlockQuote => StartTagView::BlockQuote,
            StartTag::CodeBlock(Some(lang)) => StartTagView::CodeBlock(Some(lang@)),
            StartTag::CodeBlock(None) => StartTagView::CodeBlock(None),
            StartTag::List(start) => StartTagView::List(*start),
            StartTag::Item => StartTagView::Item,
            StartTag::Link(url) => StartTagView::Link(url@),
            StartTag::Other => StartTagView::Other,
        }
    }
}

/// The end of an element.
#[derive(Debug, Clone, Copy, PartialEq, Eq)]
pub enum EndTag {
    Paragraph,
    Heading,
    Emphasis,
    Strong,
    Strikethrough,
    BlockQuote,
    CodeBlock,
    List,
    Item,
    Link,
    Other,
}

/// What stands between the tags.
#[derive(Debug, PartialEq, Eq)]
pub enum Inline {
    Text(String),
    Code(String),
    SoftBreak,
    HardBreak,
    Rule,
    Other,
}

/// Inline matter as a mathematical value.
pub enum InlineView {
    Text(Seq<char>),
    Code(Seq<char>),
    SoftBreak,
    HardBreak,
    Rule,
    Other,
}

impl View for Inline {
    type V = InlineView;

    open spec fn view(&self) -> InlineView {
        match self {
            Inline::Text(text) => InlineView::Text(text@),
            Inline::Code(text) => InlineView::Code(text@),
            Inline::SoftBreak => InlineView::SoftBreak,
            Inline::HardBreak => InlineView::HardBreak,
            Inline::Rule => InlineView::Rule,
            Inline::Other => InlineView::Other,
        }
    }
}

/// One event of a parsed document.
#[derive(Debug, PartialEq, Eq)]
pub enum MdEvent {
    Start(StartTag),
    End(EndTag),
    Inline(Inline),
}

/// An event as a mathematical value.
pub enum EventView {
    Start(StartTagView),
    End(EndTag),
    Inline(InlineView),
}

impl View for MdEvent {
    type V = EventView;

    open spec fn view(&self) -> EventView {
        match self {
            MdEvent::Start(tag) => EventView::Start(tag@),
            MdEvent::End(tag) => EventView::End(*tag),
            MdEvent::Inline(inline) => EventView::Inline(inline@),
        }
    }
}

/// The contents of a list of events.
pub open spec fn event_views(events: Seq<MdEvent>) -> Seq<EventView> {
    events.map_values(|e: MdEvent| e@)
}

/// The events of a Markdown document, all extensions enabled.
pub uninterp spec fn markdown_events(markdown: Seq<char>) -> Seq<EventView>;

/// `pulldown_cmark::Parser::new_ext` iterates over the events of a document.
/// This hands out the start tags, with `None` for every other event. An ordered
/// list starts with a number of at most nine digits, and a vector of tags holds
/// no more than `isize::MAX` of them.
#[verifier::external_body]
fn opened_tags(markdown: &str) -> (r: Vec<Option<StartTag>>)
    ensures
        r@.len() == markdown_events(markdown@).len(),
        r@.len() <= isize::MAX,
        forall|i: int|
            0 <= i < r@.len() ==> match #[trigger] r@[i] {
                Some(tag) => markdown_events(markdown@)[i] == EventView::Start(tag@),
                None => !(markdown_events(markdown@)[i] is Start),
            },
        forall|i: int|
            0 <= i < r@.len() ==> (#[trigger] r@[i] matches Some(StartTag::List(Some(n)))
                ==> n <= 999_999_999),
{
    let events = Parser::new_ext(markdown, Options::all());
    events.map(|event| if let Event::Start(tag) = event { Some(match tag {
        Tag::Heading { level, .. } => StartTag::Heading(level as u8),
        Tag::Emphasis => StartTag::Emphasis,
        Tag::Strong => StartTag::Strong,
        Tag::Strikethrough => StartTag::Strikethrough,
        Tag::BlockQuote(_) => StartTag::BlockQuote,
        Tag::CodeBlock(CodeBlockKind::Fenced(lang)) => StartTag::CodeBlock(Some(lang.into_string())),
        Tag::CodeBlock(CodeBlockKind::Indented) => StartTag::CodeBlock(None),
        Tag::List(start) => StartTag::List(start),
        Tag::Item => StartTag::Item,
        Tag::Link { dest_url, .. } => StartTag::Link(dest_url.into_string()),
        _ => StartTag::Other,
    }) } else { None }).collect()
}

/// `pulldown_cmark::Parser::new_ext` iterates over the events of a document.
/// This hands out the end tags, with `None` for every other event.
#[verifier::external_body]
fn closed_tags(markdown: &str) -> (r: Vec<Option<EndTag>>)
    ensures
        r@.len() == markdown_events(markdown@).len(),
        forall|i: int|
            0 <= i < r@.len() ==> match #[trigger] r@[i] {
                Some(tag) => markdown_events(markdown@)[i] == EventView::End(tag),
                None => !(markdown_events(markdown@)[i] is End),
            },
{
    let events = Parser::new_ext(markdown, Options::all());
    events.map(|event| if let Event::End(tag) = event { Some(match tag {
        TagEnd::Paragraph => EndTag::Paragraph,
        TagEnd::Heading(_) => EndTag::Heading,
        TagEnd::Emphasis => EndTag::Emphasis,
        TagEnd::Strong => EndTag::Strong,
        TagEnd::Strikethrough => EndTag::Strikethrough,
        TagEnd::BlockQuote(_) => EndTag::BlockQuote,
        TagEnd::CodeBlock => EndTag::CodeBlock,
        TagEnd::List(_) => EndTag::List,
        TagEnd::Item => EndTag::Item,
        TagEnd::Link => EndTag::Link,
        _ => EndTag::Other,
    }) } else { None }).collect()
}

/// `pulldown_cmark::Parser::new_ext` iterates over the events of a document.
/// This hands out what stands between the tags, with `None` for the tags.
#[verifier::external_body]
fn inline_matter(markdown: &str) -> (r: Vec<Option<Inline>>)
    ensures
        r@.len() == markdown_events(markdown@).len(),
        forall|i: int|
            0 <= i < r@.len() ==> match #[trigger] r@[i] {
                Some(inline) => markdown_events(markdown@)[i] == EventView::Inline(inline@),
                None => !(markdown_events(markdown@)[i] is Inline),
            },
{
    Parser::new_ext(markdown, Options::all()).map(|event| match event {
        Event::Start(_) => None,
        Event::End(_) => None,
        Event::Text(text) => Some(Inline::Text(text.into_string())),
        Event::Code(text) => Some(Inline::Code(text.into_string())),
        Event::SoftBreak => Some(Inline::SoftBreak),
        Event::HardBreak => Some(Inline::HardBreak),
        Event::Rule => Some(Inline::Rule),
        _ => Some(Inline::Other),
    }).collect()
}

impl StartTag {
    /// The same tag again.
    pub fn duplicate(&self) -> (r: StartTag)
        ensures
            r@ == self@,
    {
        match self {
            StartTag::Heading(level) => StartTag::Heading(*level),
            StartTag::Emphasis => StartTag::Emphasis,
            StartTag::Strong => StartTag::Strong,
            StartTag::Strikethrough => StartTag::Strikethrough,
            StartTag::BlockQuote => StartTag::BlockQuote,
            StartTag::CodeBlock(Some(lang)) => StartTag::CodeBlock(Some(lang.clone())),
            StartTag::CodeBlock(None) => StartTag::CodeBlock(None),
            StartTag::List(start) => StartTag::List(*start),
            StartTag::Item => StartTag::Item,
            StartTag::Link(url) => StartTag::Link(url.clone()),
            StartTag::Other => StartTag::Other,
        }
    }
}

impl Inline {
    /// The same matter again.
    pub fn duplicate(&self) -> (r: Inline)
        ensures
            r@ == self@,
    {
        match self {
            Inline::Text(text) => Inline::Text(text.clone()),
            Inline::Code(text) => Inline::Code(text.clone()),
            Inline::SoftBreak => Inline::SoftBreak,
            Inline::HardBreak => Inline::HardBreak,
            Inline::Rule => Inline::Rule,
            Inline::Other => Inline::Other,
        }
    }
}

/// Whether no ordered list in `events` starts above nine digits.
pub open spec fn lists_start_small(events: Seq<EventView>) -> bool {
    forall|i: int|
        0 <= i < events.len() ==> (#[trigger] events[i] matches EventView::Start(
            StartTagView::List(Some(n)),
        ) ==> n <= 999_999_999)
}

/// Parses a Markdown document, all extensions enabled.
pub fn parse_markdown(markdown: &str) -> (r: Vec<MdEvent>)
    ensures
        event_views(r@) == markdown_events(markdown@),
        r@.len() <= isize::MAX,
        lists_start_small(event_views(r@)),
{
    let opened = opened_tags(markdown);
    let closed = closed_tags(markdown);
    let inline = inline_matter(markdown);
    let mut events: Vec<MdEvent> = Vec::new();
    let mut i: usize = 0;
    while i < opened.len()
        invariant
            i <= opened.len(),
            events.len() == i,
            opened@.len() == closed@.len() == inline@.len() == markdown_events(markdown@).len(),
            event_views(events@) =~= markdown_events(markdown@).take(i as int),
            forall|k: int|
                0 <= k < opened@.len() ==> match #[trigger] opened@[k] {
                    Some(tag) => markdown_events(markdown@)[k] == EventView::Start(tag@),
                    None => !(markdown_events(markdown@)[k] is Start),
                },
            forall|k: int|
                0 <= k < closed@.len() ==> match #[trigger] closed@[k] {
                    Some(tag) => markdown_events(markdown@)[k] == EventView::End(tag),
                    None => !(markdown_events(markdown@)[k] is End),
                },
            forall|k: int|
                0 <= k < inline@.len() ==> match #[trigger] inline@[k] {
                    Some(matter) => markdown_events(markdown@)[k] == EventView::Inline(matter@),
                    None => !(markdown_events(markdown@)[k] is Inline),
                },
        decreases opened.len() - i,
    {
        let event = if let Some(tag) = &opened[i] {
            MdEvent::Start(tag.duplicate())
        } else if let Some(tag) = &closed[i] {
            MdEvent::End(*tag)
        } else if let Some(matter) = &inline[i] {
            MdEvent::Inline(matter.duplicate())
        } else {
            MdEvent::Inline(Inline::Other)
        };
        assert(event@ == markdown_events(markdown@)[i as int]);
        events.push(event);
        i += 1;
    }
    assert(markdown_events(markdown@).take(i as int) =~= markdown_events(markdown@));
    assert forall|k: int| 0 <= k < event_views(events@).len() implies (
    #[trigger] event_views(events@)[k] matches EventView::Start(StartTagView::List(Some(n)))
        ==> n <= 999_999_999) by {
        assert(opened@[k] is Some || !(markdown_events(markdown@)[k] is Start));
    }
    events
}

} // verus!
