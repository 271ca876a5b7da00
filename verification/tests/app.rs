use ghdesk::app::{Action, App, FetchRequest, FetchResponse};
use ghdesk::category::{Category, StateFilter};
use ghdesk::form::{PrFormField, PullRequestForm};
use ghdesk::geometry::Rect;
use ghdesk::item::{GithubItem, ItemKind};
use ghdesk::keys::{is_copy_number_shortcut, is_copy_url_shortcut, Event, Key, KeyCode};
use ghdesk::model::InputMode;

fn key(code: KeyCode) -> Key {
    Key { code, shift: false, control: false, command: false }
}

fn char_key(c: char) -> Key {
    key(KeyCode::Char(c))
}

fn press(app: &mut App, code: KeyCode) -> Action {
    app.handle_event(Event::Key(key(code), true))
}

fn write(app: &mut App, text: &str) {
    for c in text.chars() {
        assert_eq!(press(app, KeyCode::Char(c)), Action::Continue);
    }
}

fn item(number: u64) -> GithubItem {
    GithubItem {
        kind: ItemKind::Issue,
        number,
        title: format!("t{number}"),
        url: format!("https://github.com/o/r/issues/{number}"),
        state: "OPEN".to_string(),
        repo: "o/r".to_string(),
        body: String::new(),
        author: "me".to_string(),
        assignees: vec![],
        created_at: String::new(),
        updated_at: String::new(),
        closed_at: None,
        is_draft: false,
    }
}

fn request(action: Action) -> FetchRequest {
    match action {
        Action::Fetch(request) => request,
        other => panic!("no search but {other:?}"),
    }
}

fn loaded(numbers: Vec<u64>) -> App {
    let mut app = App::new();
    let request = request(app.refresh());
    let items = numbers.into_iter().map(item).collect();
    app.poll_fetch_results(vec![request.answered(Ok(items))]);
    app
}

#[test]
fn start() {
    let app = App::new();
    assert_eq!(app.category, Category::AuthoredPr);
    assert_eq!(app.state_filter, StateFilter::Open);
    assert_eq!(app.input_mode, InputMode::Normal);
    assert_eq!(app.status, "起動中…");
    assert_eq!(app.active_request_id, None);
    assert!(!app.loading);
    assert_eq!(app.preview_rect, Rect::default());
    assert_eq!(app.pr_form, PullRequestForm::default());
    assert!(app.selected_item().is_none());
}

#[test]
fn refresh_asks_for_the_search() {
    let mut app = App::new();
    let action = app.refresh();
    assert_eq!(
        action,
        Action::Fetch(FetchRequest { id: 1, query: "is:pr author:@me state:open".to_string() })
    );
    assert!(app.loading);
    assert_eq!(app.active_request_id, Some(1));
    assert_eq!(app.status, "GitHub から取得中…");
    assert_eq!(app.last_query, "is:pr author:@me state:open");
}

#[test]
fn reply_is_shown() {
    let app = loaded(vec![1, 2, 3]);
    assert_eq!(app.items.len(), 3);
    assert!(!app.loading);
    assert_eq!(app.status, "3 件取得");
    assert_eq!(app.selected_item().unwrap().number, 1);
}

#[test]
fn empty_reply_is_told() {
    let app = loaded(vec![]);
    assert_eq!(app.status, "一致する項目はありません");
    assert!(app.selected_item().is_none());
}

#[test]
fn failure_is_shown() {
    let mut app = loaded(vec![1, 2]);
    app.select_next();
    let request = request(app.refresh());
    app.accept_response(request.answered(Err("broken".to_string())));
    assert!(app.items.is_empty());
    assert_eq!(app.selected, 0);
    assert_eq!(app.status, "broken");
    assert!(!app.loading);
}

#[test]
fn stale_reply_is_ignored() {
    let mut app = App::new();
    let first = request(app.refresh());
    let second = request(app.refresh());
    app.poll_fetch_results(vec![first.answered(Ok(vec![item(1)]))]);
    assert!(app.items.is_empty());
    assert!(app.loading);
    app.poll_fetch_results(vec![second.answered(Ok(vec![item(2)]))]);
    assert_eq!(app.items[0].number, 2);
}

#[test]
fn one_reply_per_search() {
    let mut app = App::new();
    let request = request(app.refresh());
    let id = request.id;
    let query = request.query.clone();
    app.poll_fetch_results(vec![
        request.answered(Ok(vec![item(1)])),
        FetchResponse { id, query, result: Ok(vec![item(2)]) },
    ]);
    assert_eq!(app.items[0].number, 1);
    assert_eq!(app.active_request_id, None);
}

#[test]
fn shorter_reply_moves_the_selection() {
    let mut app = loaded(vec![1, 2, 3]);
    press(&mut app, KeyCode::End);
    app.scroll_preview_down(5);
    let request = request(app.refresh());
    assert_eq!(app.items.len(), 3);
    assert_eq!(app.preview_scroll, 5);
    app.accept_response(request.answered(Ok(vec![item(8), item(9)])));
    assert_eq!(app.selected_item().unwrap().number, 9);
    assert_eq!(app.preview_scroll, 0);
}

#[test]
fn selection_goes_round() {
    let mut app = loaded(vec![1, 2, 3]);
    for expected in [2, 3, 1] {
        press(&mut app, KeyCode::Char('j'));
        assert_eq!(app.selected_item().unwrap().number, expected);
    }
    for expected in [3, 2, 1] {
        press(&mut app, KeyCode::Up);
        assert_eq!(app.selected_item().unwrap().number, expected);
    }
    press(&mut app, KeyCode::Char('G'));
    assert_eq!(app.selected, 2);
    press(&mut app, KeyCode::Home);
    assert_eq!(app.selected, 0);
    press(&mut app, KeyCode::Char('k'));
    press(&mut app, KeyCode::Down);
    assert_eq!(app.selected, 0);
}

#[test]
fn selection_in_an_empty_list() {
    let mut app = App::new();
    app.select_next();
    app.select_previous();
    press(&mut app, KeyCode::End);
    assert_eq!(app.selected, 0);
}

#[test]
fn scrolling_saturates() {
    let mut app = App::new();
    press(&mut app, KeyCode::PageDown);
    press(&mut app, KeyCode::Char('J'));
    assert_eq!(app.preview_scroll, 13);
    press(&mut app, KeyCode::Char('K'));
    press(&mut app, KeyCode::PageUp);
    assert_eq!(app.preview_scroll, 0);
    app.scroll_preview_up(1);
    assert_eq!(app.preview_scroll, 0);
    app.scroll_preview_down(u16::MAX);
    app.scroll_preview_down(1);
    assert_eq!(app.preview_scroll, u16::MAX);
}

#[test]
fn moving_resets_the_preview() {
    let mut app = loaded(vec![1, 2]);
    app.scroll_preview_down(4);
    app.select_next();
    assert_eq!(app.preview_scroll, 0);
    app.scroll_preview_down(4);
    press(&mut app, KeyCode::Char('g'));
    assert_eq!(app.preview_scroll, 4);
}

#[test]
fn tabs_search_their_category() {
    let mut app = App::new();
    let next = request(press(&mut app, KeyCode::Tab));
    assert_eq!(app.category, Category::AuthoredIssue);
    assert_eq!(next.query, "is:issue author:@me state:open");
    let back = request(press(&mut app, KeyCode::BackTab));
    assert_eq!(app.category, Category::AuthoredPr);
    assert_eq!(back.query, "is:pr author:@me state:open");
    assert_eq!((next.id, back.id), (1, 2));
}

#[test]
fn state_key_cycles_and_searches() {
    let mut app = App::new();
    let queries: Vec<String> =
        (0..3).map(|_| request(press(&mut app, KeyCode::Char('s'))).query).collect();
    assert_eq!(
        queries,
        vec!["is:pr author:@me state:closed", "is:pr author:@me", "is:pr author:@me state:open"]
    );
    assert_eq!(request(press(&mut app, KeyCode::Char('r'))).id, 4);
}

#[test]
fn quit_keys() {
    for code in [KeyCode::Esc, KeyCode::Char('q')] {
        assert_eq!(press(&mut App::new(), code), Action::Quit);
    }
    let control_c = Key { control: true, ..char_key('c') };
    let command_w = Key { command: true, ..char_key('w') };
    assert_eq!(App::new().handle_key(control_c), Action::Quit);
    assert_eq!(App::new().handle_key(command_w), Action::Quit);
    assert_eq!(App::new().handle_key(char_key('c')), Action::Continue);
    assert_eq!(App::new().handle_key(char_key('w')), Action::Continue);
}

#[test]
fn editors_do_not_quit() {
    for opener in ['e', '/', 'a', 'n'] {
        let mut app = App::new();
        press(&mut app, KeyCode::Char(opener));
        assert_eq!(press(&mut app, KeyCode::Char('q')), Action::Continue);
        assert_eq!(app.handle_key(Key { control: true, ..char_key('c') }), Action::Continue);
        assert_eq!(press(&mut app, KeyCode::Esc), Action::Continue);
        assert_eq!(app.input_mode, InputMode::Normal);
    }
}

#[test]
fn query_is_applied() {
    let mut app = App::new();
    press(&mut app, KeyCode::Char('e'));
    assert_eq!(app.status, "クエリ編集中。Enter で適用、Esc でキャンセル");
    write(&mut app, " label:bugx");
    press(&mut app, KeyCode::Backspace);
    let search = request(press(&mut app, KeyCode::Enter));
    assert_eq!(app.query, "label:bug");
    assert_eq!(search.query, "is:pr author:@me state:open label:bug");
    press(&mut app, KeyCode::Char('/'));
    assert_eq!(app.query_buffer, "label:bug");
    write(&mut app, " is:draft ");
    press(&mut app, KeyCode::Enter);
    assert_eq!(app.query, "label:bug is:draft");
}

#[test]
fn query_is_cancelled() {
    let mut app = App::new();
    press(&mut app, KeyCode::Char('e'));
    write(&mut app, "abc");
    assert_eq!(press(&mut app, KeyCode::Esc), Action::Continue);
    assert_eq!(app.query, "");
    assert_eq!(app.query_buffer, "");
    assert_eq!(app.status, "クエリ編集をキャンセルしました");
    assert_eq!(app.request_id, 0);
}

#[test]
fn organization_is_applied() {
    let mut app = App::new();
    press(&mut app, KeyCode::Char('a'));
    assert_eq!(app.status, "organization 編集中。空にすると全 organization が対象です");
    write(&mut app, "  acme ");
    let search = request(press(&mut app, KeyCode::Enter));
    assert_eq!(app.organization, "acme");
    assert_eq!(search.query, "is:pr author:@me org:acme state:open");
}

#[test]
fn organization_is_cancelled() {
    let mut app = App::new();
    press(&mut app, KeyCode::Char('a'));
    write(&mut app, "acme");
    assert_eq!(press(&mut app, KeyCode::Esc), Action::Continue);
    assert_eq!(app.organization, "");
    assert_eq!(app.organization_buffer, "");
    assert_eq!(app.status, "organization 編集をキャンセルしました");
}

#[test]
fn backspace_undoes_a_character() {
    for opener in ['e', 'a', 'n'] {
        let mut app = App::new();
        press(&mut app, KeyCode::Char(opener));
        write(&mut app, "ab");
        write(&mut app, "語");
        press(&mut app, KeyCode::Backspace);
        let text = match opener {
            'e' => app.query_buffer,
            'a' => app.organization_buffer,
            _ => app.pr_form.title,
        };
        assert_eq!(text, "ab");
    }
}

#[test]
fn fields_form_a_ring() {
    for field in [PrFormField::Title, PrFormField::Body, PrFormField::Draft] {
        assert_eq!(field.next().previous(), field);
        assert_eq!(field.previous().next(), field);
        assert_eq!(field.next().next().next(), field);
    }
    assert_eq!(PrFormField::Title.next(), PrFormField::Body);
    assert_eq!(PrFormField::Title.previous(), PrFormField::Draft);
}

#[test]
fn form_opens_for_a_draft() {
    let mut app = App::new();
    press(&mut app, KeyCode::Char('n'));
    assert_eq!(app.input_mode, InputMode::CreatingPullRequest);
    assert!(app.pr_form.draft);
    assert_eq!(app.pr_form.field, PrFormField::Title);
    assert_eq!(app.status, "PR 作成画面を開きました。Tab で移動、Ctrl+S で作成します");
}

#[test]
fn form_is_filled_in_and_sent() {
    let mut app = App::new();
    press(&mut app, KeyCode::Char('n'));
    write(&mut app, " My title ");
    press(&mut app, KeyCode::Enter);
    assert_eq!(app.pr_form.field, PrFormField::Body);
    write(&mut app, "one");
    press(&mut app, KeyCode::Enter);
    write(&mut app, "two");
    press(&mut app, KeyCode::Tab);
    assert_eq!(app.pr_form.field, PrFormField::Draft);
    press(&mut app, KeyCode::Char(' '));
    let action = app.handle_key(Key { control: true, ..char_key('s') });
    assert_eq!(
        action,
        Action::CreatePullRequest {
            title: "My title".to_string(),
            body: "one\ntwo".to_string(),
            draft: false,
        }
    );
    assert_eq!(app.status, "Pull Request を作成中…");
    app.pull_request_created("https://x");
    assert_eq!(app.input_mode, InputMode::Normal);
    assert_eq!(app.status, "Pull Request を作成しました: https://x");
}

#[test]
fn form_needs_a_title() {
    let mut app = App::new();
    press(&mut app, KeyCode::Char('n'));
    write(&mut app, "  ");
    let action = app.handle_key(Key { control: true, ..char_key('s') });
    assert_eq!(action, Action::Continue);
    assert_eq!(app.status, "PR タイトルは必須です");
    assert_eq!(app.input_mode, InputMode::CreatingPullRequest);
}

#[test]
fn draft_is_toggled() {
    let mut app = App::new();
    press(&mut app, KeyCode::Char('n'));
    press(&mut app, KeyCode::Up);
    assert_eq!(app.pr_form.field, PrFormField::Draft);
    for c in [' ', 'x', 'X', 'd', 'D'] {
        press(&mut app, KeyCode::Char(c));
        assert!(!app.pr_form.draft);
        press(&mut app, KeyCode::Enter);
        assert!(app.pr_form.draft);
    }
    press(&mut app, KeyCode::Char('y'));
    press(&mut app, KeyCode::Backspace);
    assert!(app.pr_form.draft);
    press(&mut app, KeyCode::Down);
    assert_eq!(app.pr_form.field, PrFormField::Title);
    press(&mut app, KeyCode::BackTab);
    assert_eq!(app.pr_form.field, PrFormField::Draft);
}

#[test]
fn form_is_cancelled() {
    let mut app = App::new();
    press(&mut app, KeyCode::Char('n'));
    write(&mut app, "t");
    assert_eq!(press(&mut app, KeyCode::Esc), Action::Continue);
    assert_eq!(app.status, "PR 作成をキャンセルしました");
    assert_eq!(app.input_mode, InputMode::Normal);
    press(&mut app, KeyCode::Char('n'));
    assert_eq!(app.pr_form.title, "");
}

#[test]
fn body_takes_backspace() {
    let mut app = App::new();
    press(&mut app, KeyCode::Char('n'));
    press(&mut app, KeyCode::Down);
    write(&mut app, "ab");
    press(&mut app, KeyCode::Backspace);
    assert_eq!(app.pr_form.body, "a");
    press(&mut app, KeyCode::Other);
    assert_eq!(app.pr_form.body, "a");
}

#[test]
fn selected_item_is_opened() {
    let mut app = loaded(vec![7]);
    for code in [KeyCode::Enter, KeyCode::Char('o')] {
        assert_eq!(
            press(&mut app, code),
            Action::OpenBrowser {
                url: "https://github.com/o/r/issues/7".to_string(),
                notice: "ブラウザで開きました: https://github.com/o/r/issues/7".to_string(),
            }
        );
    }
    app.notify("done".to_string());
    assert_eq!(app.status, "done");
}

#[test]
fn address_and_number_are_copied() {
    let mut app = loaded(vec![7]);
    assert_eq!(
        press(&mut app, KeyCode::Char('<')),
        Action::Copy {
            text: "https://github.com/o/r/issues/7".to_string(),
            notice: "URL をコピーしました: https://github.com/o/r/issues/7".to_string(),
        }
    );
    assert_eq!(
        press(&mut app, KeyCode::Char('>')),
        Action::Copy { text: "7".to_string(), notice: "#7 をコピーしました".to_string() }
    );
    assert_eq!(press(&mut app, KeyCode::Char(',')), Action::Continue);
}

#[test]
fn actions_need_an_item() {
    let missing = Action::Fail("項目が選択されていません".to_string());
    let app = App::new();
    assert_eq!(app.open_selected_in_browser(), missing);
    assert_eq!(app.copy_selected_url(), missing);
    assert_eq!(app.copy_selected_number(), missing);
}

#[test]
fn copy_shortcuts() {
    assert!(is_copy_url_shortcut(char_key('<')));
    assert!(!is_copy_url_shortcut(char_key(',')));
    assert!(is_copy_url_shortcut(Key { shift: true, ..char_key(',') }));
    assert!(is_copy_url_shortcut(Key { command: true, ..char_key(',') }));
    assert!(!is_copy_url_shortcut(Key { control: true, ..char_key(',') }));
    assert!(is_copy_number_shortcut(char_key('>')));
    assert!(!is_copy_number_shortcut(char_key('.')));
    assert!(is_copy_number_shortcut(Key { shift: true, ..char_key('.') }));
    assert!(is_copy_number_shortcut(Key { command: true, ..char_key('.') }));
    assert!(!is_copy_number_shortcut(key(KeyCode::Enter)));
}

#[test]
fn wheel_over_the_preview() {
    let mut app = loaded(vec![1, 2]);
    app.preview_rect = Rect { x: 10, y: 5, width: 20, height: 10 };
    app.handle_event(Event::ScrollDown(10, 5));
    assert_eq!((app.preview_scroll, app.selected), (3, 0));
    app.handle_event(Event::ScrollUp(29, 14));
    assert_eq!((app.preview_scroll, app.selected), (0, 0));
}

#[test]
fn wheel_elsewhere() {
    let mut app = loaded(vec![1, 2, 3]);
    app.preview_rect = Rect { x: 10, y: 5, width: 20, height: 10 };
    app.handle_event(Event::ScrollDown(30, 5));
    assert_eq!(app.selected, 1);
    app.handle_event(Event::ScrollUp(9, 5));
    app.handle_event(Event::ScrollUp(9, 5));
    assert_eq!(app.selected, 2);
}

#[test]
fn other_events_change_nothing() {
    let mut app = App::new();
    assert_eq!(app.handle_event(Event::Key(char_key('q'), false)), Action::Continue);
    assert_eq!(app.handle_event(Event::Other), Action::Continue);
    assert_eq!(press(&mut app, KeyCode::Other), Action::Continue);
    assert_eq!(app, App::new());
}

#[test]
fn keys_that_mean_the_same() {
    for (one, other) in [
        (KeyCode::Char('j'), KeyCode::Down),
        (KeyCode::Char('k'), KeyCode::Up),
        (KeyCode::Char('g'), KeyCode::Home),
        (KeyCode::Char('G'), KeyCode::End),
        (KeyCode::Char('e'), KeyCode::Char('/')),
        (KeyCode::Char('o'), KeyCode::Enter),
    ] {
        let (mut first, mut second) = (loaded(vec![1, 2, 3]), loaded(vec![1, 2, 3]));
        first.select_next();
        second.select_next();
        assert_eq!(press(&mut first, one), press(&mut second, other));
        assert_eq!(first, second);
    }
}

#[test]
fn blank_organization_searches_everywhere() {
    let mut app = App::new();
    press(&mut app, KeyCode::Char('a'));
    write(&mut app, "acme");
    press(&mut app, KeyCode::Enter);
    press(&mut app, KeyCode::Char('a'));
    for _ in 0..4 {
        press(&mut app, KeyCode::Backspace);
    }
    write(&mut app, "  ");
    let search = request(press(&mut app, KeyCode::Enter));
    assert_eq!(app.organization, "");
    assert_eq!(search.query, "is:pr author:@me state:open");
}

#[test]
fn reply_from_before_an_event_is_ignored() {
    let mut app = App::new();
    let first = request(app.refresh());
    let second = request(press(&mut app, KeyCode::Tab));
    press(&mut app, KeyCode::Char('n'));
    app.poll_fetch_results(vec![
        second.answered(Ok(vec![item(2)])),
        first.answered(Err("late".to_string())),
    ]);
    assert_eq!(app.items[0].number, 2);
    assert_eq!(app.status, "1 件取得");
}

#[test]
fn keys_keep_the_list() {
    for code in [
        KeyCode::Esc,
        KeyCode::Enter,
        KeyCode::Tab,
        KeyCode::BackTab,
        KeyCode::Backspace,
        KeyCode::Up,
        KeyCode::Down,
        KeyCode::PageUp,
        KeyCode::PageDown,
        KeyCode::Home,
        KeyCode::End,
        KeyCode::Char('s'),
        KeyCode::Char('r'),
        KeyCode::Char('q'),
        KeyCode::Other,
    ] {
        for mode in [
            InputMode::Normal,
            InputMode::EditingQuery,
            InputMode::EditingOrganization,
            InputMode::CreatingPullRequest,
        ] {
            let mut app = loaded(vec![4, 5, 6]);
            app.selected = 1;
            app.input_mode = mode;
            press(&mut app, code);
            let numbers: Vec<u64> = app.items.iter().map(|item| item.number).collect();
            assert_eq!(numbers, vec![4, 5, 6]);
            assert!(app.selected < 3);
        }
    }
}

#[test]
fn numbers_of_searches_go_round() {
    let mut app = loaded(vec![1, 2]);
    app.request_id = u64::MAX;
    app.selected = 1;
    assert_eq!(request(press(&mut app, KeyCode::Tab)).id, 0);
    assert_eq!(app.active_request_id, Some(0));
    assert_eq!((app.items.len(), app.selected), (2, 1));
    assert_eq!(request(app.refresh()).id, 1);
}

#[test]
fn edits_are_cancelled_with_backspace_too() {
    for (opener, previous) in [('e', "label:bug"), ('a', "acme")] {
        let mut app = loaded(vec![1, 2]);
        app.query = "label:bug".to_string();
        app.organization = "acme".to_string();
        let before = app.request_id;
        press(&mut app, KeyCode::Char(opener));
        for code in [
            KeyCode::Backspace,
            KeyCode::Char('x'),
            KeyCode::Backspace,
            KeyCode::Backspace,
            KeyCode::Char('q'),
        ] {
            assert_eq!(press(&mut app, code), Action::Continue);
        }
        let buffer = if opener == 'e' { &app.query_buffer } else { &app.organization_buffer };
        assert_eq!(*buffer, format!("{}q", &previous[..previous.len() - 2]));
        assert_eq!(press(&mut app, KeyCode::Esc), Action::Continue);
        assert_eq!(app.query, "label:bug");
        assert_eq!(app.organization, "acme");
        assert_eq!(app.items.len(), 2);
        assert_eq!(app.request_id, before);
    }
}

#[test]
fn filling_in_the_form_reaches_no_further() {
    let mut app = loaded(vec![1, 2]);
    let mut plain = loaded(vec![1, 2]);
    press(&mut app, KeyCode::Char('n'));
    press(&mut plain, KeyCode::Char('n'));
    for code in [KeyCode::Char('q'), KeyCode::Tab, KeyCode::Enter, KeyCode::Down, KeyCode::End] {
        assert_eq!(press(&mut app, code), Action::Continue);
    }
    app.pr_form = PullRequestForm::default();
    assert_eq!(app, plain);
}
