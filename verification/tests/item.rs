use ghdesk::item::{hash_number, padded, state_color, GithubItem, ItemKind};
use ghdesk::style::{Color, Line, Span, Style};

fn item() -> GithubItem {
    GithubItem {
        kind: ItemKind::PullRequest,
        number: 12,
        title: "Fix it".to_string(),
        url: "https://github.com/o/r/pull/12".to_string(),
        state: "open".to_string(),
        repo: "o/r".to_string(),
        body: "Hello".to_string(),
        author: "me".to_string(),
        assignees: vec!["a".to_string(), "b".to_string()],
        created_at: "2024-01-01".to_string(),
        updated_at: "2024-01-02".to_string(),
        closed_at: None,
        is_draft: true,
    }
}

fn raw(content: &str) -> Span {
    Span { content: content.to_string(), style: Style::plain() }
}

fn styled(content: &str, style: Style) -> Span {
    Span { content: content.to_string(), style }
}

fn label(content: &str) -> Span {
    styled(content, Style::plain().with_fg(Color::DarkGray))
}

fn empty() -> Line {
    Line::Styled(String::new(), Style::plain())
}

#[test]
fn kinds_have_labels() {
    assert_eq!(ItemKind::PullRequest.label(), "PR");
    assert_eq!(ItemKind::Issue.label(), "Issue");
}

#[test]
fn states_have_colours() {
    assert_eq!(state_color("OPEN"), Color::Green);
    assert_eq!(state_color("open"), Color::Green);
    assert_eq!(state_color("Closed"), Color::Yellow);
    assert_eq!(state_color("MERGED"), Color::Yellow);
    assert_eq!(state_color("opened"), Color::Cyan);
    assert_eq!(state_color(""), Color::Cyan);
}

#[test]
fn numbers_and_padding() {
    assert_eq!(hash_number(70), "#70");
    assert_eq!(padded("x"), " x ");
}

#[test]
fn summary_of_an_item() {
    let expected = Line::Spans(vec![
        styled(" PR ", Style::plain().with_fg(Color::Black).with_bg(Color::Cyan).in_bold()),
        raw(" "),
        styled("#12", Style::plain().with_fg(Color::Magenta).in_bold()),
        raw(" "),
        raw("Fix it"),
        raw(" "),
        styled("OPEN ", Style::plain().with_fg(Color::Green).in_bold()),
    ]);
    assert_eq!(item().summary_line(), expected);
    assert_eq!(item().summary_with("OPEN"), expected);
}

#[test]
fn preview_of_an_item() {
    let lines = item().preview_text();
    assert_eq!(
        lines,
        vec![
            Line::Styled("Fix it".to_string(), Style::plain().with_fg(Color::White).in_bold()),
            empty(),
            Line::Spans(vec![label("種別 "), raw("PR"), raw("    "), label("番号 "), raw("#12")]),
            Line::Spans(vec![
                label("状態 "),
                raw("open"),
                raw("    "),
                label("ドラフト "),
                raw("yes")
            ]),
            Line::Spans(vec![label("Repo "), raw("o/r")]),
            Line::Spans(vec![label("作成者 "), raw("me")]),
            Line::Spans(vec![label("担当者 "), raw("a, b")]),
            Line::Spans(vec![label("作成 "), raw("2024-01-01")]),
            Line::Spans(vec![label("更新 "), raw("2024-01-02")]),
            Line::Spans(vec![label("終了 "), raw("-")]),
            Line::Spans(vec![label("URL  "), raw("https://github.com/o/r/pull/12")]),
            empty(),
            Line::Styled("Preview".to_string(), Style::plain().with_fg(Color::Cyan).in_bold()),
            empty(),
            Line::Spans(vec![raw("Hello")]),
            empty(),
        ]
    );
}

#[test]
fn preview_of_an_item_with_gaps() {
    let mut bare = item();
    bare.kind = ItemKind::Issue;
    bare.assignees = vec![];
    bare.is_draft = false;
    bare.closed_at = Some("2024-03-01".to_string());
    bare.body = " \n".to_string();
    let lines = bare.preview_text();
    assert_eq!(lines[3], Line::Spans(vec![
        label("状態 "),
        raw("open"),
        raw("    "),
        label("ドラフト "),
        raw("no")
    ]));
    assert_eq!(lines[6], Line::Spans(vec![label("担当者 "), raw("なし")]));
    assert_eq!(lines[9], Line::Spans(vec![label("終了 "), raw("2024-03-01")]));
    assert_eq!(lines[14], Line::Spans(vec![raw("本文なし")]));
}

#[test]
fn preview_with_given_lines() {
    let lines = item().preview_with(vec![empty()]);
    assert_eq!(lines.len(), 15);
    assert_eq!(lines[14], empty());
}

#[test]
fn styles_patch() {
    let base = Style::plain().with_fg(Color::Cyan).with_bg(Color::Black).in_bold();
    let over = Style::plain().with_fg(Color::White).in_italic();
    let both = base.patch(over);
    assert_eq!(both, Style::plain().with_fg(Color::White).with_bg(Color::Black).in_bold().in_italic());
    assert_eq!(base.patch(Style::plain()), base);
    assert_eq!(Style::default().patch(base), base);
}
