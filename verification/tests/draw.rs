use ghdesk::app::App;
use ghdesk::draw::{chip, compose, draw, list_entry, HELP_TEXT};
use ghdesk::geometry::{Position, Rect};
use ghdesk::item::{GithubItem, ItemKind};
use ghdesk::keys::{Event, Key, KeyCode};
use ghdesk::model::InputMode;
use ghdesk::plan::plan_screen;
use ghdesk::screen::{BorderSet, Borders, Content, Placed, Scene, Widget};
use ghdesk::style::{Color, Line, Span, Style};

const AREA: Rect = Rect { x: 0, y: 0, width: 100, height: 40 };

fn press(app: &mut App, code: KeyCode) {
    app.handle_key(Key { code, shift: false, control: false, command: false });
}

fn item(number: u64) -> GithubItem {
    GithubItem {
        kind: ItemKind::Issue,
        number,
        title: "t".to_string(),
        url: "u".to_string(),
        state: "closed".to_string(),
        repo: "o/r".to_string(),
        body: "x".to_string(),
        author: "me".to_string(),
        assignees: vec![],
        created_at: "c".to_string(),
        updated_at: "d".to_string(),
        closed_at: None,
        is_draft: false,
    }
}

fn raw_texts(scene: &Scene) -> Vec<&str> {
    let mut texts = vec![];
    for placed in &scene.widgets {
        if let Widget::Paragraph(paragraph) = &placed.widget {
            if let Content::Raw(text) = &paragraph.content {
                texts.push(text.as_str());
            }
        }
    }
    texts
}

#[test]
fn empty_workbench() {
    let mut app = App::new();
    let scene = draw(&mut app, AREA).unwrap();
    assert_eq!(scene.widgets.len(), 10);
    assert_eq!(scene.cursor, None);
    assert_eq!(app.preview_rect, Rect { x: 44, y: 11, width: 56, height: 27 });
    assert_eq!(
        raw_texts(&scene),
        vec!["", "All organizations", "", "選択中の項目はありません"]
    );
    match &scene.widgets[0] {
        Placed { widget: Widget::Block(block), area } => {
            assert_eq!(*area, AREA);
            assert_eq!(block.style, Style::plain().with_bg(Color::Rgb(10, 14, 24)));
            assert_eq!(block.borders, Borders::Absent);
        }
        other => panic!("{other:?}"),
    }
}

#[test]
fn tabs_show_the_category() {
    let mut app = App::new();
    press(&mut app, KeyCode::Tab);
    let scene = draw(&mut app, AREA).unwrap();
    match &scene.widgets[1].widget {
        Widget::Tabs(tabs) => {
            assert_eq!(tabs.selected, 1);
            assert_eq!(tabs.titles.len(), 4);
            assert_eq!(tabs.titles[2], Line::Styled(" 担当PR ".to_string(), Style::plain()));
            assert_eq!(tabs.block.title, " GitHub Workbench ");
            assert_eq!(tabs.block.border_set, BorderSet::Thick);
            assert!(tabs.block.title_centered);
        }
        other => panic!("{other:?}"),
    }
}

#[test]
fn state_is_filled_in() {
    let mut app = App::new();
    press(&mut app, KeyCode::Char('s'));
    let scene = draw(&mut app, AREA).unwrap();
    match &scene.widgets[2].widget {
        Widget::Paragraph(paragraph) => assert_eq!(
            paragraph.content,
            Content::Lines(vec![Line::Spans(vec![
                chip("Open", false, Color::Green),
                Span::raw(" "),
                chip("Closed", true, Color::Yellow),
                Span::raw(" "),
                chip("All", false, Color::Cyan),
            ])])
        ),
        other => panic!("{other:?}"),
    }
}

#[test]
fn chips() {
    assert_eq!(
        chip("ON", true, Color::Yellow),
        Span {
            content: " ON ".to_string(),
            style: Style::plain().with_fg(Color::Black).with_bg(Color::Yellow).in_bold(),
        }
    );
    assert_eq!(
        chip("ON", false, Color::Yellow).style,
        Style::plain().with_fg(Color::Yellow).with_bg(Color::Rgb(22, 28, 44))
    );
}

#[test]
fn list_and_preview() {
    let mut app = App::new();
    app.items = vec![item(4), item(5)];
    app.selected = 1;
    app.preview_scroll = 2;
    let scene = draw(&mut app, AREA).unwrap();
    match &scene.widgets[6].widget {
        Widget::List(list) => {
            assert_eq!(list.selected, 1);
            assert_eq!(list.block.title, " Results (2) ");
            assert_eq!(list.highlight_symbol, "▌ ");
            assert_eq!(list.items[0], list_entry(&item(4), item(4).summary_line()));
            assert_eq!(
                list.items[1][1],
                Line::Styled("o/r  d".to_string(), Style::plain().with_fg(Color::DarkGray))
            );
        }
        other => panic!("{other:?}"),
    }
    assert_eq!(scene.widgets[7].widget, Widget::Clear);
    match &scene.widgets[8].widget {
        Widget::Paragraph(paragraph) => {
            assert_eq!(paragraph.content, Content::Lines(item(5).preview_text()));
            assert!(paragraph.wrap);
            assert_eq!(paragraph.scroll, 2);
            assert_eq!(paragraph.block.as_ref().unwrap().padding, 1);
        }
        other => panic!("{other:?}"),
    }
}

#[test]
fn loading_is_shown() {
    let mut app = App::new();
    app.refresh();
    let scene = draw(&mut app, AREA).unwrap();
    match &scene.widgets[6].widget {
        Widget::List(list) => {
            assert_eq!(list.block.title, " Results (0) • Loading… ");
            assert_eq!(
                list.items,
                vec![vec![Line::Styled(
                    "項目がありません".to_string(),
                    Style::plain().with_fg(Color::DarkGray)
                )]]
            );
        }
        other => panic!("{other:?}"),
    }
    match &scene.widgets[9].widget {
        Widget::Paragraph(paragraph) => {
            assert_eq!(
                paragraph.content,
                Content::Lines(vec![
                    Line::Spans(vec![
                        Span {
                            content: "STATUS ".to_string(),
                            style: Style::plain().with_fg(Color::Rgb(108, 233, 255)),
                        },
                        Span::raw("GitHub から取得中…  query: is:pr author:@me state:open"),
                    ]),
                    Line::Styled(
                        HELP_TEXT.to_string(),
                        Style::plain().with_fg(Color::DarkGray)
                    ),
                ])
            );
            assert_eq!(paragraph.block.as_ref().unwrap().borders, Borders::Top);
        }
        other => panic!("{other:?}"),
    }
}

#[test]
fn organization_is_named() {
    let mut app = App::new();
    app.organization = "acme".to_string();
    let scene = draw(&mut app, AREA).unwrap();
    assert_eq!(raw_texts(&scene)[1], "org:acme");
}

#[test]
fn query_dialog() {
    let mut app = App::new();
    press(&mut app, KeyCode::Char('e'));
    for c in "ab語".chars() {
        press(&mut app, KeyCode::Char(c));
    }
    let plan = plan_screen(AREA, InputMode::EditingQuery);
    let scene = compose(&app, AREA, &plan).unwrap();
    assert_eq!(scene.widgets.len(), 15);
    assert_eq!(
        scene.cursor,
        Some(Position { x: plan.popup_rows[1].x + 5, y: plan.popup_rows[1].y })
    );
    match &scene.widgets[11].widget {
        Widget::Block(block) => {
            assert_eq!(block.title, " Search Query ");
            assert_eq!(block.border_set, BorderSet::Rounded);
        }
        other => panic!("{other:?}"),
    }
    assert_eq!(raw_texts(&scene)[5], "ab語");
    assert_eq!(raw_texts(&scene)[6], "Enter:適用  Esc:キャンセル");
}

#[test]
fn organization_dialog() {
    let mut app = App::new();
    press(&mut app, KeyCode::Char('a'));
    press(&mut app, KeyCode::Char('z'));
    let plan = plan_screen(AREA, InputMode::EditingOrganization);
    let scene = compose(&app, AREA, &plan).unwrap();
    assert_eq!(
        scene.cursor,
        Some(Position { x: plan.popup_rows[1].x + 1, y: plan.popup_rows[1].y })
    );
    match &scene.widgets[11].widget {
        Widget::Block(block) => assert_eq!(block.title, " Organization Filter "),
        other => panic!("{other:?}"),
    }
}

#[test]
fn form_dialog() {
    let mut app = App::new();
    press(&mut app, KeyCode::Char('n'));
    press(&mut app, KeyCode::Char('語'));
    let plan = plan_screen(AREA, InputMode::CreatingPullRequest);
    let scene = compose(&app, AREA, &plan).unwrap();
    assert_eq!(scene.widgets.len(), 17);
    assert_eq!(
        scene.cursor,
        Some(Position { x: plan.popup_rows[1].x + 2, y: plan.popup_rows[1].y + 1 })
    );
    match &scene.widgets[13].widget {
        Widget::Paragraph(title) => {
            assert_eq!(title.content, Content::Raw("語".to_string()));
            assert_eq!(
                title.style,
                Style::plain().with_fg(Color::White).with_bg(Color::Rgb(30, 42, 66))
            );
            let block = title.block.as_ref().unwrap();
            assert_eq!(block.border_style, Style::plain().with_fg(Color::Cyan));
        }
        other => panic!("{other:?}"),
    }

    press(&mut app, KeyCode::Tab);
    for code in [KeyCode::Char('a'), KeyCode::Enter, KeyCode::Char('b'), KeyCode::Char('c')] {
        press(&mut app, code);
    }
    let scene = compose(&app, AREA, &plan).unwrap();
    assert_eq!(
        scene.cursor,
        Some(Position { x: plan.popup_rows[2].x + 3, y: plan.popup_rows[2].y + 2 })
    );

    press(&mut app, KeyCode::Tab);
    let scene = compose(&app, AREA, &plan).unwrap();
    assert_eq!(scene.cursor, None);
    match &scene.widgets[15].widget {
        Widget::Paragraph(draft) => assert_eq!(
            draft.content,
            Content::Lines(vec![Line::Spans(vec![
                Span::raw("Draft "),
                chip("ON", true, Color::Yellow),
                Span::raw(" "),
                chip("OFF", false, Color::DarkGray),
            ])])
        ),
        other => panic!("{other:?}"),
    }
}

#[test]
fn cursor_out_of_the_grid() {
    let mut app = App::new();
    press(&mut app, KeyCode::Char('e'));
    app.query_buffer = "x".repeat(65_535);
    let mut plan = plan_screen(AREA, InputMode::EditingQuery);
    plan.popup_rows[1].x = 1;
    assert_eq!(compose(&app, AREA, &plan), None);
    app.query_buffer = "x".repeat(65_537);
    assert_eq!(compose(&app, AREA, &plan).unwrap().cursor.unwrap().x, 2);
}

#[test]
fn dialog_is_drawn_over_the_screen() {
    let mut app = App::new();
    press(&mut app, KeyCode::Char('n'));
    let plan = plan_screen(AREA, InputMode::CreatingPullRequest);
    let with = compose(&app, AREA, &plan).unwrap();
    app.input_mode = InputMode::Normal;
    let without = compose(&app, AREA, &plan).unwrap();
    assert_eq!(with.widgets[..without.widgets.len()], without.widgets[..]);
    assert_eq!(with.widgets.len(), without.widgets.len() + 7);
    assert_eq!(with.widgets[without.widgets.len()].widget, Widget::Clear);
}

#[test]
fn wheel_over_the_drawn_preview() {
    let mut app = App::new();
    app.items = vec![item(4), item(5)];
    draw(&mut app, AREA);
    app.handle_event(Event::ScrollDown(44, 11));
    assert_eq!((app.preview_scroll, app.selected), (3, 0));
    app.handle_event(Event::ScrollDown(43, 11));
    assert_eq!((app.preview_scroll, app.selected), (0, 1));
}
