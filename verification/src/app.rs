//! The state of the workbench, and what changes it.

use vstd::prelude::*;

use crate::category::{Category, StateFilter};
use crate::form::{PrFormField, PullRequestForm};
use crate::geometry::{rect_contains, Rect};
use crate::github::fetched_view;
use crate::item::{hash_number, item_views, GithubItem};
use crate::keys::{is_copy_number_shortcut, is_copy_url_shortcut, Event, Key, KeyCode};
use crate::model::{initial_state, ActionView, AppView, InputMode, RequestView, ResponseView};
use crate::text::{decimal, push_decimal};

verus! {

/// A search that is to be made.
#[derive(Debug, PartialEq, Eq)]
pub struct FetchRequest {
    pub id: u64,
    pub query: String,
}

/// What came of a search.
#[derive(Debug, PartialEq, Eq)]
pub struct FetchResponse {
    pub id: u64,
    pub query: String,
    pub result: Result<Vec<GithubItem>, String>,
}

/// What is to be done after an event.
#[derive(Debug, PartialEq, Eq)]
pub enum Action {
    Continue,
    Quit,
    /// Make a search in the background.
    Fetch(FetchRequest),
    /// Open a browser, then show the notice.
    OpenBrowser { url: String, notice: String },
    /// Copy a text to the clipboard, then show the notice.
    Copy { text: String, notice: String },
    /// Create a pull request, then report its address.
    CreatePullRequest { title: String, body: String, draft: bool },
    /// Stop with an error.
    Fail(String),
}

/// The state of the workbench.
#[derive(Debug, PartialEq, Eq)]
pub struct App {
    pub category: Category,
    pub state_filter: StateFilter,
    pub organization: String,
    pub query: String,
    pub organization_buffer: String,
    pub query_buffer: String,
    pub input_mode: InputMode,
    pub pr_form: PullRequestForm,
    pub request_id: u64,
    pub active_request_id: Option<u64>,
    pub loading: bool,
    pub items: Vec<GithubItem>,
    pub selected: usize,
    pub preview_scroll: u16,
    pub preview_rect: Rect,
    pub status: String,
    pub last_query: String,
}

impl View for FetchRequest {
    type V = RequestView;

    open spec fn view(&self) -> RequestView {
        RequestView { id: self.id, query: self.query@ }
    }
}

impl View for FetchResponse {
    type V = ResponseView;

    open spec fn view(&self) -> ResponseView {
        ResponseView { id: self.id, query: self.query@, result: fetched_view(self.result) }
    }
}

impl View for Action {
    type V = ActionView;

    open spec fn view(&self) -> ActionView {
        match self {
            Action::Continue => ActionView::Continue,
            Action::Quit => ActionView::Quit,
            Action::Fetch(request) => ActionView::Fetch(request@),
            Action::OpenBrowser { url, notice } => ActionView::OpenBrowser {
                url: url@,
                notice: notice@,
            },
            Action::Copy { text, notice } => ActionView::Copy { text: text@, notice: notice@ },
            Action::CreatePullRequest { title, body, draft } => ActionView::CreatePullRequest {
                title: title@,
                body: body@,
                draft: *draft,
            },
            Action::Fail(message) => ActionView::Fail(message@),
        }
    }
}

impl View for App {
    type V = AppView;

    open spec fn view(&self) -> AppView {
        AppView {
            category: self.category,
            state_filter: self.state_filter,
            organization: self.organization@,
            query: self.query@,
            organization_buffer: self.organization_buffer@,
            query_buffer: self.query_buffer@,
            input_mode: self.input_mode,
            pr_form: self.pr_form@,
            request_id: self.request_id,
            active_request_id: self.active_request_id,
            loading: self.loading,
            items: item_views(self.items@),
            selected: self.selected as nat,
            preview_scroll: self.preview_scroll,
            preview_rect: self.preview_rect,
            status: self.status@,
            last_query: self.last_query@,
        }
    }
}

impl FetchRequest {
    /// The reply to the search.
    pub fn answered(self, result: Result<Vec<GithubItem>, String>) -> (r: FetchResponse)
        ensures
            r@ == (ResponseView {
                id: self@.id,
                query: self@.query,
                result: fetched_view(result),
            }),
            r.id == self.id,
            r.query@ == self.query@,
            r.result == result,
    {
        FetchResponse { id: self.id, query: self.query, result }
    }
}

/// The contents of some replies.
pub open spec fn response_views(responses: Seq<FetchResponse>) -> Seq<ResponseView> {
    responses.map_values(|response: FetchResponse| response@)
}

impl App {
    /// The state at the start.
    pub fn new() -> (r: App)
        ensures
            r@ == initial_state(),
            r@.wf(),
    {
        let r = App {
            category: Category::AuthoredPr,
            state_filter: StateFilter::Open,
            organization: String::new(),
            query: String::new(),
            organization_buffer: String::new(),
            query_buffer: String::new(),
            input_mode: InputMode::Normal,
            pr_form: PullRequestForm::default(),
            request_id: 0,
            active_request_id: None,
            loading: false,
            items: Vec::new(),
            selected: 0,
            preview_scroll: 0,
            preview_rect: Rect::zero(),
            status: "起動中…".to_string(),
            last_query: String::new(),
        };
        assert(r@ =~= initial_state());
        r
    }

    /// Takes an event of the terminal in.
    pub fn handle_event(&mut self, event: Event) -> (r: Action)
        requires
            old(self)@.wf(),
        ensures
            final(self)@ == old(self)@.event_step(event).0,
            r@ == old(self)@.event_step(event).1,
            final(self)@.items == old(self)@.items,
            final(self)@.wf(),
    {
        match event {
            Event::Key(key, pressed) => {
                if pressed {
                    return self.handle_key(key);
                }
            },
            Event::ScrollDown(column, row) => {
                if rect_contains(self.preview_rect, column, row) {
                    self.scroll_preview_down(3);
                } else {
                    self.select_next();
                }
            },
            Event::ScrollUp(column, row) => {
                if rect_contains(self.preview_rect, column, row) {
                    self.scroll_preview_up(3);
                } else {
                    self.select_previous();
                }
            },
            Event::Other => {},
        }
        Action::Continue
    }

    /// Takes a key in.
    pub fn handle_key(&mut self, key: Key) -> (r: Action)
        requires
            old(self)@.wf(),
        ensures
            final(self)@ == old(self)@.key_step(key).0,
            r@ == old(self)@.key_step(key).1,
            final(self)@.items == old(self)@.items,
            final(self)@.wf(),
    {
        match self.input_mode {
            InputMode::EditingQuery => return self.handle_query_key(key),
            InputMode::EditingOrganization => return self.handle_organization_key(key),
            InputMode::CreatingPullRequest => return self.handle_pr_form_key(key),
            InputMode::Normal => {},
        }
        match key.code {
            KeyCode::Esc => return Action::Quit,
            KeyCode::Tab => {
                let category = self.category.next();
                return self.switch_category(category);
            },
            KeyCode::BackTab => {
                let category = self.category.previous();
                return self.switch_category(category);
            },
            KeyCode::Down => self.select_next(),
            KeyCode::Up => self.select_previous(),
            KeyCode::PageDown => self.scroll_preview_down(10),
            KeyCode::PageUp => self.scroll_preview_up(10),
            KeyCode::Home => self.selected = 0,
            KeyCode::End => self.select_last(),
            KeyCode::Enter => return self.open_selected_in_browser(),
            KeyCode::Char(c) => return self.handle_char(c, key),
            _ => {},
        }
        Action::Continue
    }

    fn handle_char(&mut self, c: char, key: Key) -> (r: Action)
        requires
            old(self)@.wf(),
        ensures
            final(self)@ == old(self)@.char_step(c, key).0,
            r@ == old(self)@.char_step(c, key).1,
            final(self)@.wf(),
    {
        if c == 'q' || (c == 'c' && key.control) || (c == 'w' && key.command) {
            return Action::Quit;
        } else if c == 'n' {
            self.input_mode = InputMode::CreatingPullRequest;
            self.pr_form = PullRequestForm::default();
            self.status = "PR 作成画面を開きました。Tab で移動、Ctrl+S で作成します".to_string();
        } else if c == 'j' {
            self.select_next();
        } else if c == 'k' {
            self.select_previous();
        } else if c == 'J' {
            self.scroll_preview_down(3);
        } else if c == 'K' {
            self.scroll_preview_up(3);
        } else if c == 'g' {
            self.selected = 0;
        } else if c == 'G' {
            self.select_last();
        } else if c == 'e' || c == '/' {
            self.input_mode = InputMode::EditingQuery;
            self.query_buffer = self.query.clone();
            self.status = "クエリ編集中。Enter で適用、Esc でキャンセル".to_string();
        } else if c == 'a' {
            self.input_mode = InputMode::EditingOrganization;
            self.organization_buffer = self.organization.clone();
            self.status =
            "organization 編集中。空にすると全 organization が対象です".to_string();
        } else if c == 's' {
            self.state_filter = self.state_filter.next();
            return self.refresh();
        } else if c == 'r' {
            return self.refresh();
        } else if c == 'o' {
            return self.open_selected_in_browser();
        } else if is_copy_url_shortcut(key) {
            return self.copy_selected_url();
        } else if is_copy_number_shortcut(key) {
            return self.copy_selected_number();
        }
        Action::Continue
    }

    /// Takes a key in while the form is filled in.
    pub fn handle_pr_form_key(&mut self, key: Key) -> (r: Action)
        ensures
            final(self)@ == old(self)@.form_step(key).0,
            r@ == old(self)@.form_step(key).1,
            old(self)@.wf() ==> final(self)@.wf(),
    {
        if let KeyCode::Char(c) = key.code {
            if key.control && c == 's' {
                return self.submit_pull_request();
            }
        }
        match key.code {
            KeyCode::Esc => {
                self.input_mode = InputMode::Normal;
                self.status = "PR 作成をキャンセルしました".to_string();
            },
            KeyCode::Tab => self.pr_form.field = self.pr_form.field.next(),
            KeyCode::BackTab => self.pr_form.field = self.pr_form.field.previous(),
            KeyCode::Up => self.pr_form.field = self.pr_form.field.previous(),
            KeyCode::Down => self.pr_form.field = self.pr_form.field.next(),
            KeyCode::Enter => match self.pr_form.field {
                PrFormField::Title => self.pr_form.field = PrFormField::Body,
                PrFormField::Body => self.pr_form.body.push('\n'),
                PrFormField::Draft => self.pr_form.draft = !self.pr_form.draft,
            },
            KeyCode::Backspace => match self.pr_form.field {
                PrFormField::Title => {
                    let _ = self.pr_form.title.pop();
                },
                PrFormField::Body => {
                    let _ = self.pr_form.body.pop();
                },
                PrFormField::Draft => {},
            },
            KeyCode::Char(c) => match self.pr_form.field {
                PrFormField::Title => self.pr_form.title.push(c),
                PrFormField::Body => self.pr_form.body.push(c),
                PrFormField::Draft => {
                    if c == ' ' || c == 'x' || c == 'X' || c == 'd' || c == 'D' {
                        self.pr_form.draft = !self.pr_form.draft;
                    }
                },
            },
            _ => {},
        }
        Action::Continue
    }

    /// Takes a key in while the organization is edited.
    pub fn handle_organization_key(&mut self, key: Key) -> (r: Action)
        ensures
            final(self)@ == old(self)@.organization_step(key.code).0,
            r@ == old(self)@.organization_step(key.code).1,
            old(self)@.wf() ==> final(self)@.wf(),
    {
        match key.code {
            KeyCode::Esc => {
                self.input_mode = InputMode::Normal;
                self.organization_buffer = String::new();
                self.status = "organization 編集をキャンセルしました".to_string();
            },
            KeyCode::Enter => {
                self.organization = self.organization_buffer.as_str().trim().to_string();
                self.input_mode = InputMode::Normal;
                return self.refresh();
            },
            KeyCode::Backspace => {
                let _ = self.organization_buffer.pop();
            },
            KeyCode::Char(c) => self.organization_buffer.push(c),
            _ => {},
        }
        Action::Continue
    }

    /// Takes a key in while the query is edited.
    pub fn handle_query_key(&mut self, key: Key) -> (r: Action)
        ensures
            final(self)@ == old(self)@.query_step(key.code).0,
            r@ == old(self)@.query_step(key.code).1,
            old(self)@.wf() ==> final(self)@.wf(),
    {
        match key.code {
            KeyCode::Esc => {
                self.input_mode = InputMode::Normal;
                self.query_buffer = String::new();
                self.status = "クエリ編集をキャンセルしました".to_string();
            },
            KeyCode::Enter => {
                self.query = self.query_buffer.as_str().trim().to_string();
                self.input_mode = InputMode::Normal;
                return self.refresh();
            },
            KeyCode::Backspace => {
                let _ = self.query_buffer.pop();
            },
            KeyCode::Char(c) => self.query_buffer.push(c),
            _ => {},
        }
        Action::Continue
    }

    /// Turns to a category, and searches for it.
    pub fn switch_category(&mut self, category: Category) -> (r: Action)
        ensures
            final(self)@ == old(self)@.switch_step(category).0,
            r@ == old(self)@.switch_step(category).1,
            old(self)@.wf() ==> final(self)@.wf(),
    {
        self.category = category;
        self.refresh()
    }

    /// Asks for a new search. From here on only its reply counts.
    pub fn refresh(&mut self) -> (r: Action)
        ensures
            final(self)@ == old(self)@.refreshed(),
            r@ == old(self)@.refresh_action(),
            old(self)@.wf() ==> final(self)@.wf(),
    {
        let organization = if self.organization.as_str().is_empty() {
            None
        } else {
            Some(self.organization.as_str())
        };
        let search_query = self.category.search_query(
            self.state_filter,
            organization,
            self.query.as_str(),
        );
        self.request_id = self.request_id.wrapping_add(1);
        self.active_request_id = Some(self.request_id);
        self.loading = true;
        self.status = "GitHub から取得中…".to_string();
        self.last_query = search_query.clone();
        Action::Fetch(FetchRequest { id: self.request_id, query: search_query })
    }

    /// Takes a reply in, if it is the one that is waited for.
    pub fn accept_response(&mut self, response: FetchResponse)
        ensures
            final(self)@ == old(self)@.after_response(response@),
            old(self).active_request_id != Some(response.id) ==> final(self)@ == old(self)@,
            old(self).active_request_id == Some(response.id) && response.result is Ok ==> {
                let items = response.result.unwrap();
                &&& final(self).items == items
                &&& items@.len() == 0 ==> final(self).selected == 0
                &&& old(self).selected < items@.len() ==> final(self).selected == old(
                    self,
                ).selected
                &&& 0 < items@.len() <= old(self).selected ==> final(self).selected
                    == items@.len() - 1
            },
            old(self)@.wf() ==> final(self)@.wf(),
    {
        let awaited = match self.active_request_id {
            Some(id) => id == response.id,
            None => false,
        };
        if !awaited {
            return;
        }
        self.loading = false;
        self.active_request_id = None;
        self.last_query = response.query;
        match response.result {
            Ok(items) => {
                self.items = items;
                let count: usize = self.items.len();
                if count == 0 {
                    self.selected = 0;
                    self.status = "一致する項目はありません".to_string();
                } else {
                    if self.selected >= count {
                        self.selected = count - 1;
                    }
                    let mut status = String::new();
                    push_decimal(&mut status, count as u64);
                    status.append(" 件取得");
                    self.status = status;
                }
                self.preview_scroll = 0;
            },
            Err(message) => {
                self.items = Vec::new();
                self.selected = 0;
                self.status = message;
            },
        }
        assert(self@ =~= old(self)@.after_response(response@));
    }

    /// Takes the replies in that have arrived, in their order.
    pub fn poll_fetch_results(&mut self, responses: Vec<FetchResponse>)
        ensures
            final(self)@ == old(self)@.after_responses(
                response_views(responses@),
                responses@.len(),
            ),
            old(self)@.wf() ==> final(self)@.wf(),
    {
        let ghost all = responses@;
        for response in it: responses
            invariant
                it.seq() == all,
                self@ == old(self)@.after_responses(response_views(all), it.index() as nat),
                old(self)@.wf() ==> self@.wf(),
        {
            assert(response_views(all)[it.index() as int] == response@);
            self.accept_response(response);
        }
    }

    /// Sends the form off, unless it has no title.
    pub fn submit_pull_request(&mut self) -> (r: Action)
        ensures
            final(self)@ == old(self)@.submit_step().0,
            r@ == old(self)@.submit_step().1,
            old(self)@.wf() ==> final(self)@.wf(),
    {
        let title = self.pr_form.title.as_str().trim().to_string();
        if title.as_str().is_empty() {
            self.status = "PR タイトルは必須です".to_string();
            return Action::Continue;
        }
        self.status = "Pull Request を作成中…".to_string();
        Action::CreatePullRequest {
            title,
            body: self.pr_form.body.clone(),
            draft: self.pr_form.draft,
        }
    }

    /// Reports the pull request that has been created.
    pub fn pull_request_created(&mut self, url: &str)
        ensures
            final(self)@ == old(self)@.created(url@),
            old(self)@.wf() ==> final(self)@.wf(),
    {
        self.input_mode = InputMode::Normal;
        self.status = "Pull Request を作成しました: ".to_string().concat(url);
    }

    /// Shows a notice once what it speaks of is done.
    pub fn notify(&mut self, notice: String)
        ensures
            final(self)@ == old(self)@.notified(notice@),
            old(self)@.wf() ==> final(self)@.wf(),
    {
        self.status = notice;
    }

    /// The selected item.
    pub fn selected_item(&self) -> (r: Option<&GithubItem>)
        ensures
            r is Some == self@.selection() is Some,
            r matches Some(item) ==> self@.selection() == Some(item@),
    {
        if self.selected < self.items.len() {
            Some(&self.items[self.selected])
        } else {
            None
        }
    }

    /// Selects the next item, round the end.
    pub fn select_next(&mut self)
        requires
            old(self)@.wf(),
        ensures
            final(self)@ == old(self)@.next_selected(),
            final(self)@.wf(),
    {
        if self.items.is_empty() {
            return;
        }
        let count: usize = self.items.len();
        assert(self@.items.len() == count);
        self.selected = (self.selected + 1) % count;
        self.preview_scroll = 0;
    }

    /// Selects the previous item, round the start.
    pub fn select_previous(&mut self)
        ensures
            final(self)@ == old(self)@.previous_selected(),
            old(self)@.wf() ==> final(self)@.wf(),
    {
        if self.items.is_empty() {
            return;
        }
        self.selected = if self.selected == 0 {
            self.items.len() - 1
        } else {
            self.selected - 1
        };
        self.preview_scroll = 0;
    }

    fn select_last(&mut self)
        ensures
            final(self)@ == old(self)@.last_selected(),
            final(self)@.wf(),
    {
        self.selected = if self.items.is_empty() {
            0
        } else {
            self.items.len() - 1
        };
    }

    /// Scrolls the preview down.
    pub fn scroll_preview_down(&mut self, amount: u16)
        ensures
            final(self)@ == old(self)@.scrolled_down(amount),
            old(self)@.wf() ==> final(self)@.wf(),
    {
        self.preview_scroll = self.preview_scroll.saturating_add(amount);
    }

    /// Scrolls the preview up.
    pub fn scroll_preview_up(&mut self, amount: u16)
        ensures
            final(self)@ == old(self)@.scrolled_up(amount),
            old(self)@.wf() ==> final(self)@.wf(),
    {
        self.preview_scroll = self.preview_scroll.saturating_sub(amount);
    }

    /// Asks for the selected item to be opened in a browser.
    pub fn open_selected_in_browser(&self) -> (r: Action)
        ensures
            r@ == self@.open_action(),
    {
        match self.selected_item() {
            Some(item) => Action::OpenBrowser {
                url: item.url.clone(),
                notice: "ブラウザで開きました: ".to_string().concat(item.url.as_str()),
            },
            None => Action::Fail("項目が選択されていません".to_string()),
        }
    }

    /// Asks for the address of the selected item to be copied.
    pub fn copy_selected_url(&self) -> (r: Action)
        ensures
            r@ == self@.copy_url_action(),
    {
        match self.selected_item() {
            Some(item) => Action::Copy {
                text: item.url.clone(),
                notice: "URL をコピーしました: ".to_string().concat(item.url.as_str()),
            },
            None => Action::Fail("項目が選択されていません".to_string()),
        }
    }

    /// Asks for the number of the selected item to be copied.
    pub fn copy_selected_number(&self) -> (r: Action)
        ensures
            r@ == self@.copy_number_action(),
    {
        match self.selected_item() {
            Some(item) => {
                let mut text = String::new();
                push_decimal(&mut text, item.number);
                let notice = hash_number(item.number).concat(" をコピーしました");
                assert(text@ =~= decimal(item.number as nat));
                Action::Copy { text, notice }
            },
            None => Action::Fail("項目が選択されていません".to_string()),
        }
    }
}

} // verus!
