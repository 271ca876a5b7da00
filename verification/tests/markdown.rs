use ghdesk::markdown::{parse_markdown, EndTag, Inline, MdEvent, StartTag};
use ghdesk::render::{markdown_to_text, render_events, MarkdownRenderer};
use ghdesk::style::{Color, Line, Span, Style};

fn span(content: &str, style: Style) -> Span {
    Span { content: content.to_string(), style }
}

fn empty() -> Line {
    Line::Styled(String::new(), Style::plain())
}

fn plain() -> Style {
    Style::plain()
}

fn code() -> Style {
    plain().with_fg(Color::Yellow).with_bg(Color::Rgb(24, 28, 40))
}

#[test]
fn events_of_a_document() {
    assert_eq!(
        parse_markdown("## A *b*\n\n1. `c`\n"),
        vec![
            MdEvent::Start(StartTag::Heading(2)),
            MdEvent::Inline(Inline::Text("A ".to_string())),
            MdEvent::Start(StartTag::Emphasis),
            MdEvent::Inline(Inline::Text("b".to_string())),
            MdEvent::End(EndTag::Emphasis),
            MdEvent::End(EndTag::Heading),
            MdEvent::Start(StartTag::List(Some(1))),
            MdEvent::Start(StartTag::Item),
            MdEvent::Inline(Inline::Code("c".to_string())),
            MdEvent::End(EndTag::Item),
            MdEvent::End(EndTag::List),
        ]
    );
}

#[test]
fn events_of_blocks() {
    assert_eq!(
        parse_markdown("> q\n\n```rs\nx\n```\n\n---\n\n    y\n"),
        vec![
            MdEvent::Start(StartTag::BlockQuote),
            MdEvent::Start(StartTag::Other),
            MdEvent::Inline(Inline::Text("q".to_string())),
            MdEvent::End(EndTag::Paragraph),
            MdEvent::End(EndTag::BlockQuote),
            MdEvent::Start(StartTag::CodeBlock(Some("rs".to_string()))),
            MdEvent::Inline(Inline::Text("x\n".to_string())),
            MdEvent::End(EndTag::CodeBlock),
            MdEvent::Inline(Inline::Rule),
            MdEvent::Start(StartTag::CodeBlock(None)),
            MdEvent::Inline(Inline::Text("y\n".to_string())),
            MdEvent::End(EndTag::CodeBlock),
        ]
    );
}

#[test]
fn events_of_breaks_and_links() {
    assert_eq!(
        parse_markdown("a\nb  \nc [d](e) ~~f~~ **g**"),
        vec![
            MdEvent::Start(StartTag::Other),
            MdEvent::Inline(Inline::Text("a".to_string())),
            MdEvent::Inline(Inline::SoftBreak),
            MdEvent::Inline(Inline::Text("b".to_string())),
            MdEvent::Inline(Inline::HardBreak),
            MdEvent::Inline(Inline::Text("c ".to_string())),
            MdEvent::Start(StartTag::Link("e".to_string())),
            MdEvent::Inline(Inline::Text("d".to_string())),
            MdEvent::End(EndTag::Link),
            MdEvent::Inline(Inline::Text(" ".to_string())),
            MdEvent::Start(StartTag::Strikethrough),
            MdEvent::Inline(Inline::Text("f".to_string())),
            MdEvent::End(EndTag::Strikethrough),
            MdEvent::Inline(Inline::Text(" ".to_string())),
            MdEvent::Start(StartTag::Strong),
            MdEvent::Inline(Inline::Text("g".to_string())),
            MdEvent::End(EndTag::Strong),
            MdEvent::End(EndTag::Paragraph),
        ]
    );
}

#[test]
fn empty_document_is_one_empty_line() {
    assert_eq!(markdown_to_text(""), vec![empty()]);
    assert_eq!(render_events(&vec![]), vec![empty()]);
}

#[test]
fn paragraph_with_emphasis() {
    assert_eq!(
        markdown_to_text("a *b* **c** ~~d~~"),
        vec![
            Line::Spans(vec![
                span("a ", plain()),
                span("b", plain().in_italic()),
                span(" ", plain()),
                span("c", plain().in_bold()),
                span(" ", plain()),
                span("d", plain().cross_out()),
            ]),
            empty(),
        ]
    );
}

#[test]
fn nested_styles_combine() {
    let heading = plain().with_fg(Color::Cyan).in_bold();
    assert_eq!(
        markdown_to_text("# a *b*"),
        vec![
            empty(),
            Line::Spans(vec![span("a ", heading), span("b", heading.in_italic())]),
            empty(),
        ]
    );
}

#[test]
fn headings_by_level() {
    for (text, color) in [
        ("# h", Color::Cyan),
        ("## h", Color::LightCyan),
        ("### h", Color::White),
        ("###### h", Color::White),
    ] {
        assert_eq!(
            markdown_to_text(text)[1],
            Line::Spans(vec![span("h", plain().with_fg(color).in_bold())])
        );
    }
}

#[test]
fn inner_style_wins_over_outer() {
    let mut renderer = MarkdownRenderer::new();
    renderer.start_tag(&StartTag::Heading(1));
    renderer.start_tag(&StartTag::Link("u".to_string()));
    assert_eq!(
        renderer.combined_style(),
        plain().with_fg(Color::LightBlue).in_bold().underline()
    );
}

#[test]
fn ordered_list_counts_up() {
    let bullet = plain().with_fg(Color::Cyan);
    assert_eq!(
        markdown_to_text("3. a\n4. b"),
        vec![
            empty(),
            empty(),
            Line::Spans(vec![span("3. ", bullet), span("a", plain())]),
            empty(),
            Line::Spans(vec![span("4. ", bullet), span("b", plain())]),
            empty(),
            empty(),
        ]
    );
}

#[test]
fn nested_lists_are_indented() {
    let bullet = plain().with_fg(Color::Cyan);
    let lines = markdown_to_text("- a\n  - b");
    assert!(lines.contains(&Line::Spans(vec![span("• ", bullet), span("a", plain())])));
    assert!(lines.contains(&Line::Spans(vec![span("  • ", bullet), span("b", plain())])));
}

#[test]
fn item_outside_of_a_list_has_a_bullet() {
    let mut renderer = MarkdownRenderer::new();
    renderer.start_tag(&StartTag::Item);
    assert_eq!(
        renderer.finish(),
        vec![empty(), Line::Spans(vec![span("• ", plain().with_fg(Color::Cyan))])]
    );
}

#[test]
fn quotations_are_marked() {
    let mark = plain().with_fg(Color::Green);
    let lines = markdown_to_text("> a\n>\n> > b");
    assert!(lines.contains(&Line::Spans(vec![span("> ", mark), span("a", plain())])));
    assert!(lines.contains(&Line::Spans(vec![span(">> ", mark), span("b", plain())])));
}

#[test]
fn code_block_is_labelled_and_indented() {
    let margin = plain().with_bg(Color::Rgb(24, 28, 40));
    let label = plain().with_fg(Color::Magenta).in_bold();
    assert_eq!(
        markdown_to_text("```rust\na\n\nb\n```"),
        vec![
            empty(),
            Line::Styled("code: rust".to_string(), label),
            Line::Spans(vec![span("  ", margin), span("a", code())]),
            Line::Spans(vec![span("  ", margin)]),
            Line::Spans(vec![span("  ", margin), span("b", code())]),
            Line::Spans(vec![span("  ", margin)]),
            empty(),
        ]
    );
    assert!(markdown_to_text("```\nx\n```").contains(&Line::Styled("code".to_string(), label)));
}

#[test]
fn inline_code_and_soft_breaks() {
    assert_eq!(
        markdown_to_text("`x`\ny"),
        vec![
            Line::Spans(vec![span("x", code()), span(" ", plain()), span("y", plain())]),
            empty(),
        ]
    );
}

#[test]
fn links_show_their_target() {
    assert_eq!(
        markdown_to_text("[t](https://e.x)"),
        vec![
            Line::Spans(vec![
                span("t", plain().with_fg(Color::LightBlue).underline()),
                span(" (https://e.x)", plain().with_fg(Color::DarkGray)),
            ]),
            empty(),
        ]
    );
}

#[test]
fn rules_are_drawn() {
    assert_eq!(
        markdown_to_text("---"),
        vec![
            empty(),
            Line::Styled("────────────────".to_string(), plain().with_fg(Color::DarkGray)),
        ]
    );
}

#[test]
fn hard_breaks_end_the_line() {
    let mut renderer = MarkdownRenderer::new();
    renderer.push(&MdEvent::Inline(Inline::Text("a\nb".to_string())));
    renderer.push(&MdEvent::Inline(Inline::HardBreak));
    renderer.push(&MdEvent::Inline(Inline::Other));
    renderer.push(&MdEvent::Inline(Inline::Text("c".to_string())));
    assert_eq!(
        renderer.finish(),
        vec![
            Line::Spans(vec![span("a", plain())]),
            Line::Spans(vec![span("b", plain())]),
            Line::Spans(vec![span("c", plain())]),
        ]
    );
}

#[test]
fn matching_tags_leave_nothing_behind() {
    let mut renderer = MarkdownRenderer::new();
    for event in parse_markdown("# a *b [c](d)*\n\n> - e\n>   1. **f**\n\n~~g~~\n\n```\nh\n```") {
        renderer.push(&event);
    }
    assert!(renderer.style_stack.is_empty());
    assert!(renderer.list_stack.is_empty());
    assert_eq!(renderer.blockquote_depth, 0);
    assert_eq!(renderer.combined_style(), plain());
    assert!(!renderer.code_block);
    assert_eq!(renderer.pending_link, None);
}

#[test]
fn code_and_links_follow_their_tags() {
    let mut renderer = MarkdownRenderer::new();
    renderer.start_tag(&StartTag::CodeBlock(None));
    assert!(renderer.code_block);
    renderer.end_tag(EndTag::CodeBlock);
    assert!(!renderer.code_block);
    renderer.start_tag(&StartTag::Link("u".to_string()));
    assert_eq!(renderer.pending_link, Some("u".to_string()));
    renderer.end_tag(EndTag::Link);
    assert_eq!(renderer.pending_link, None);
}

#[test]
fn complete_lines_stay() {
    let mut renderer = MarkdownRenderer::new();
    renderer.push_text("a\nb");
    assert_eq!(renderer.lines, vec![Line::Spans(vec![span("a", plain())])]);
    renderer.push(&MdEvent::End(EndTag::Paragraph));
    assert_eq!(renderer.lines[0], Line::Spans(vec![span("a", plain())]));
    assert_eq!(renderer.lines.len(), 3);
}

#[test]
fn stray_end_tags_are_harmless() {
    let mut renderer = MarkdownRenderer::new();
    renderer.end_tag(EndTag::Strong);
    renderer.end_tag(EndTag::BlockQuote);
    renderer.end_tag(EndTag::List);
    renderer.end_tag(EndTag::Link);
    renderer.end_tag(EndTag::Other);
    assert_eq!(renderer.blockquote_depth, 0);
    assert!(renderer.current.is_empty());
}

#[test]
fn lines_of_a_text_end_lines() {
    let mut renderer = MarkdownRenderer::new();
    renderer.start_tag(&StartTag::BlockQuote);
    renderer.start_tag(&StartTag::Strong);
    let before = renderer.lines.len();
    renderer.push_text("a\n\nb");
    assert_eq!(renderer.lines.len(), before + 2);
    let mark = span("> ", plain().with_fg(Color::Green));
    assert_eq!(
        renderer.lines[before],
        Line::Spans(vec![mark, span("a", plain().in_bold())])
    );
    assert_eq!(renderer.current[1], span("b", plain().in_bold()));
}
