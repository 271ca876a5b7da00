//! What each key, event and reply does to the state, as functions on
//! mathematical values.

use vstd::prelude::*;

use crate::category::{search_text, Category, StateFilter};
use crate::form::{blank_form, FormView, PrFormField};
use crate::geometry::Rect;
use crate::item::ItemView;
use crate::keys::{is_shortcut, Event, Key, KeyCode};
use crate::text::{decimal, trimmed};

verus! {

/// What the keyboard is used for.
#[derive(Debug, Clone, Copy, PartialEq, Eq, Structural)]
pub enum InputMode {
    Normal,
    EditingQuery,
    EditingOrganization,
    CreatingPullRequest,
}

/// A search that is to be made.
#[verifier::ext_equal]
pub struct RequestView {
    pub id: u64,
    pub query: Seq<char>,
}

/// What came of a search.
#[verifier::ext_equal]
pub struct ResponseView {
    pub id: u64,
    pub query: Seq<char>,
    pub result: Result<Seq<ItemView>, Seq<char>>,
}

/// What is to be done after an event.
#[verifier::ext_equal]
pub enum ActionView {
    Continue,
    Quit,
    Fetch(RequestView),
    OpenBrowser { url: Seq<char>, notice: Seq<char> },
    Copy { text: Seq<char>, notice: Seq<char> },
    CreatePullRequest { title: Seq<char>, body: Seq<char>, draft: bool },
    Fail(Seq<char>),
}

/// The state of the workbench.
#[verifier::ext_equal]
pub struct AppView {
    pub category: Category,
    pub state_filter: StateFilter,
    pub organization: Seq<char>,
    pub query: Seq<char>,
    pub organization_buffer: Seq<char>,
    pub query_buffer: Seq<char>,
    pub input_mode: InputMode,
    pub pr_form: FormView,
    pub request_id: u64,
    pub active_request_id: Option<u64>,
    pub loading: bool,
    pub items: Seq<ItemView>,
    pub selected: nat,
    pub preview_scroll: u16,
    pub preview_rect: Rect,
    pub status: Seq<char>,
    pub last_query: Seq<char>,
}

/// The state at the start.
pub open spec fn initial_state() -> AppView {
    AppView {
        category: Category::AuthoredPr,
        state_filter: StateFilter::Open,
        organization: Seq::empty(),
        query: Seq::empty(),
        organization_buffer: Seq::empty(),
        query_buffer: Seq::empty(),
        input_mode: InputMode::Normal,
        pr_form: blank_form(),
        request_id: 0,
        active_request_id: None,
        loading: false,
        items: Seq::empty(),
        selected: 0,
        preview_scroll: 0,
        preview_rect: Rect::zero(),
        status: "起動中…"@,
        last_query: Seq::empty(),
    }
}

/// The number of the search after the one numbered `id`. The largest number is
/// followed by zero.
pub open spec fn next_number(id: u64) -> u64 {
    if id == u64::MAX {
        0
    } else {
        (id + 1) as u64
    }
}

/// The message where an item is needed and none is selected.
pub open spec fn nothing_selected() -> Seq<char> {
    "項目が選択されていません"@
}

impl FormView {
    /// With the other choice on drafts.
    pub open spec fn toggled(self) -> FormView {
        FormView { draft: !self.draft, ..self }
    }

    /// After a key, other than the ones that leave the form.
    pub open spec fn after_key(self, code: KeyCode) -> FormView {
        match code {
            KeyCode::Tab => FormView { field: self.field.following(), ..self },
            KeyCode::Down => FormView { field: self.field.following(), ..self },
            KeyCode::BackTab => FormView { field: self.field.preceding(), ..self },
            KeyCode::Up => FormView { field: self.field.preceding(), ..self },
            KeyCode::Enter => match self.field {
                PrFormField::Title => FormView { field: PrFormField::Body, ..self },
                PrFormField::Body => FormView { body: self.body.push('\n'), ..self },
                PrFormField::Draft => self.toggled(),
            },
            KeyCode::Backspace => match self.field {
                PrFormField::Title => FormView { title: without_last(self.title), ..self },
                PrFormField::Body => FormView { body: without_last(self.body), ..self },
                PrFormField::Draft => self,
            },
            KeyCode::Char(c) => match self.field {
                PrFormField::Title => FormView { title: self.title.push(c), ..self },
                PrFormField::Body => FormView { body: self.body.push(c), ..self },
                PrFormField::Draft => if toggles_draft(c) {
                    self.toggled()
                } else {
                    self
                },
            },
            _ => self,
        }
    }
}

/// Whether a character changes the choice on drafts.
pub open spec fn toggles_draft(c: char) -> bool {
    c == ' ' || c == 'x' || c == 'X' || c == 'd' || c == 'D'
}

/// `s` without its last character, if it has one.
pub open spec fn without_last(s: Seq<char>) -> Seq<char> {
    if s.len() == 0 {
        s
    } else {
        s.drop_last()
    }
}

impl AppView {
    /// Whether the selection is an item of the list, or the first place of an
    /// empty one.
    pub open spec fn wf(self) -> bool {
        self.selected == 0 || self.selected < self.items.len()
    }

    /// The selected item.
    pub open spec fn selection(self) -> Option<ItemView> {
        if self.selected < self.items.len() {
            Some(self.items[self.selected as int])
        } else {
            None
        }
    }

    /// The search that the filters ask for.
    pub open spec fn search(self) -> Seq<char> {
        search_text(
            self.category,
            self.state_filter,
            if self.organization.len() > 0 {
                Some(self.organization)
            } else {
                None
            },
            self.query,
        )
    }

    /// After a new search has been asked for.
    pub open spec fn refreshed(self) -> AppView {
        let id = next_number(self.request_id);
        AppView {
            request_id: id,
            active_request_id: Some(id),
            loading: true,
            status: "GitHub から取得中…"@,
            last_query: self.search(),
            ..self
        }
    }

    /// The search that `refreshed` asks for, as an action.
    pub open spec fn refresh_action(self) -> ActionView {
        ActionView::Fetch(
            RequestView { id: next_number(self.request_id), query: self.search() },
        )
    }

    /// A new search, and the state that waits for it.
    pub open spec fn refresh_step(self) -> (AppView, ActionView) {
        (self.refreshed(), self.refresh_action())
    }

    /// After a reply. One to any search but the last is dropped.
    pub open spec fn after_response(self, response: ResponseView) -> AppView {
        if self.active_request_id != Some(response.id) {
            self
        } else {
            let settled = AppView {
                loading: false,
                active_request_id: None,
                last_query: response.query,
                ..self
            };
            match response.result {
                Ok(items) => AppView {
                    items,
                    selected: if items.len() == 0 {
                        0
                    } else if self.selected < items.len() {
                        self.selected
                    } else {
                        (items.len() - 1) as nat
                    },
                    preview_scroll: 0,
                    status: if items.len() == 0 {
                        "一致する項目はありません"@
                    } else {
                        decimal(items.len()) + " 件取得"@
                    },
                    ..settled
                },
                Err(message) => AppView {
                    items: Seq::empty(),
                    selected: 0,
                    status: message,
                    ..settled
                },
            }
        }
    }

    /// After the first `n` of some replies.
    pub open spec fn after_responses(self, responses: Seq<ResponseView>, n: nat) -> AppView
        decreases n,
    {
        if n == 0 {
            self
        } else {
            self.after_responses(responses, (n - 1) as nat).after_response(responses[n - 1])
        }
    }

    /// With the next item selected, round the end.
    pub open spec fn next_selected(self) -> AppView {
        if self.items.len() == 0 {
            self
        } else {
            AppView {
                selected: (self.selected + 1) as nat % self.items.len(),
                preview_scroll: 0,
                ..self
            }
        }
    }

    /// With the previous item selected, round the start.
    pub open spec fn previous_selected(self) -> AppView {
        if self.items.len() == 0 {
            self
        } else {
            AppView {
                selected: if self.selected == 0 {
                    (self.items.len() - 1) as nat
                } else {
                    (self.selected - 1) as nat
                },
                preview_scroll: 0,
                ..self
            }
        }
    }

    /// With the last item selected.
    pub open spec fn last_selected(self) -> AppView {
        AppView {
            selected: if self.items.len() == 0 {
                0
            } else {
                (self.items.len() - 1) as nat
            },
            ..self
        }
    }

    /// With the preview scrolled down, as far as the counter goes.
    pub open spec fn scrolled_down(self, amount: u16) -> AppView {
        AppView {
            preview_scroll: if self.preview_scroll + amount > u16::MAX {
                u16::MAX
            } else {
                (self.preview_scroll + amount) as u16
            },
            ..self
        }
    }

    /// With the preview scrolled up, at most to its start.
    pub open spec fn scrolled_up(self, amount: u16) -> AppView {
        AppView {
            preview_scroll: if self.preview_scroll < amount {
                0
            } else {
                (self.preview_scroll - amount) as u16
            },
            ..self
        }
    }

    /// What opening the selected item asks for.
    pub open spec fn open_action(self) -> ActionView {
        match self.selection() {
            Some(item) => ActionView::OpenBrowser {
                url: item.url,
                notice: "ブラウザで開きました: "@ + item.url,
            },
            None => ActionView::Fail(nothing_selected()),
        }
    }

    /// What copying the address of the selected item asks for.
    pub open spec fn copy_url_action(self) -> ActionView {
        match self.selection() {
            Some(item) => ActionView::Copy {
                text: item.url,
                notice: "URL をコピーしました: "@ + item.url,
            },
            None => ActionView::Fail(nothing_selected()),
        }
    }

    /// What copying the number of the selected item asks for.
    pub open spec fn copy_number_action(self) -> ActionView {
        match self.selection() {
            Some(item) => ActionView::Copy {
                text: decimal(item.number as nat),
                notice: "#"@ + decimal(item.number as nat) + " をコピーしました"@,
            },
            None => ActionView::Fail(nothing_selected()),
        }
    }

    /// With the form for a pull request opened, empty.
    pub open spec fn creating(self) -> AppView {
        AppView {
            input_mode: InputMode::CreatingPullRequest,
            pr_form: blank_form(),
            status: "PR 作成画面を開きました。Tab で移動、Ctrl+S で作成します"@,
            ..self
        }
    }

    /// With the query being edited, from what it is.
    pub open spec fn editing_query(self) -> AppView {
        AppView {
            input_mode: InputMode::EditingQuery,
            query_buffer: self.query,
            status: "クエリ編集中。Enter で適用、Esc でキャンセル"@,
            ..self
        }
    }

    /// With the organization being edited, from what it is.
    pub open spec fn editing_organization(self) -> AppView {
        AppView {
            input_mode: InputMode::EditingOrganization,
            organization_buffer: self.organization,
            status: "organization 編集中。空にすると全 organization が対象です"@,
            ..self
        }
    }

    /// What a character does outside of any editor.
    pub open spec fn char_step(self, c: char, key: Key) -> (AppView, ActionView) {
        if c == 'q' || c == 'c' && key.control || c == 'w' && key.command {
            (self, ActionView::Quit)
        } else if c == 'n' {
            (self.creating(), ActionView::Continue)
        } else if c == 'j' {
            (self.next_selected(), ActionView::Continue)
        } else if c == 'k' {
            (self.previous_selected(), ActionView::Continue)
        } else if c == 'J' {
            (self.scrolled_down(3), ActionView::Continue)
        } else if c == 'K' {
            (self.scrolled_up(3), ActionView::Continue)
        } else if c == 'g' {
            (AppView { selected: 0, ..self }, ActionView::Continue)
        } else if c == 'G' {
            (self.last_selected(), ActionView::Continue)
        } else if c == 'e' || c == '/' {
            (self.editing_query(), ActionView::Continue)
        } else if c == 'a' {
            (self.editing_organization(), ActionView::Continue)
        } else if c == 's' {
            AppView { state_filter: self.state_filter.following(), ..self }.refresh_step()
        } else if c == 'r' {
            self.refresh_step()
        } else if c == 'o' {
            (self, self.open_action())
        } else if is_shortcut(key, '<', ',') {
            (self, self.copy_url_action())
        } else if is_shortcut(key, '>', '.') {
            (self, self.copy_number_action())
        } else {
            (self, ActionView::Continue)
        }
    }

    /// With another category, searched for anew.
    pub open spec fn switch_step(self, category: Category) -> (AppView, ActionView) {
        AppView { category, ..self }.refresh_step()
    }

    /// What a key does outside of any editor.
    pub open spec fn normal_step(self, key: Key) -> (AppView, ActionView) {
        match key.code {
            KeyCode::Esc => (self, ActionView::Quit),
            KeyCode::Tab => self.switch_step(self.category.following()),
            KeyCode::BackTab => self.switch_step(self.category.preceding()),
            KeyCode::Down => (self.next_selected(), ActionView::Continue),
            KeyCode::Up => (self.previous_selected(), ActionView::Continue),
            KeyCode::PageDown => (self.scrolled_down(10), ActionView::Continue),
            KeyCode::PageUp => (self.scrolled_up(10), ActionView::Continue),
            KeyCode::Home => (AppView { selected: 0, ..self }, ActionView::Continue),
            KeyCode::End => (self.last_selected(), ActionView::Continue),
            KeyCode::Enter => (self, self.open_action()),
            KeyCode::Char(c) => self.char_step(c, key),
            _ => (self, ActionView::Continue),
        }
    }

    /// What a key does while the query is edited.
    pub open spec fn query_step(self, code: KeyCode) -> (AppView, ActionView) {
        match code {
            KeyCode::Esc => (
                AppView {
                    input_mode: InputMode::Normal,
                    query_buffer: Seq::empty(),
                    status: "クエリ編集をキャンセルしました"@,
                    ..self
                },
                ActionView::Continue,
            ),
            KeyCode::Enter => AppView {
                query: trimmed(self.query_buffer),
                input_mode: InputMode::Normal,
                ..self
            }.refresh_step(),
            KeyCode::Backspace => (
                AppView { query_buffer: without_last(self.query_buffer), ..self },
                ActionView::Continue,
            ),
            KeyCode::Char(c) => (
                AppView { query_buffer: self.query_buffer.push(c), ..self },
                ActionView::Continue,
            ),
            _ => (self, ActionView::Continue),
        }
    }

    /// What a key does while the organization is edited.
    pub open spec fn organization_step(self, code: KeyCode) -> (AppView, ActionView) {
        match code {
            KeyCode::Esc => (
                AppView {
                    input_mode: InputMode::Normal,
                    organization_buffer: Seq::empty(),
                    status: "organization 編集をキャンセルしました"@,
                    ..self
                },
                ActionView::Continue,
            ),
            KeyCode::Enter => AppView {
                organization: trimmed(self.organization_buffer),
                input_mode: InputMode::Normal,
                ..self
            }.refresh_step(),
            KeyCode::Backspace => (
                AppView { organization_buffer: without_last(self.organization_buffer), ..self },
                ActionView::Continue,
            ),
            KeyCode::Char(c) => (
                AppView { organization_buffer: self.organization_buffer.push(c), ..self },
                ActionView::Continue,
            ),
            _ => (self, ActionView::Continue),
        }
    }

    /// What sending the form off does: without a title, nothing is created.
    pub open spec fn submit_step(self) -> (AppView, ActionView) {
        let title = trimmed(self.pr_form.title);
        if title.len() == 0 {
            (AppView { status: "PR タイトルは必須です"@, ..self }, ActionView::Continue)
        } else {
            (
                AppView { status: "Pull Request を作成中…"@, ..self },
                ActionView::CreatePullRequest {
                    title,
                    body: self.pr_form.body,
                    draft: self.pr_form.draft,
                },
            )
        }
    }

    /// What a key does while the form is filled in.
    pub open spec fn form_step(self, key: Key) -> (AppView, ActionView) {
        if key.control && key.code == KeyCode::Char('s') {
            self.submit_step()
        } else if key.code == KeyCode::Esc {
            (
                AppView {
                    input_mode: InputMode::Normal,
                    status: "PR 作成をキャンセルしました"@,
                    ..self
                },
                ActionView::Continue,
            )
        } else {
            (AppView { pr_form: self.pr_form.after_key(key.code), ..self }, ActionView::Continue)
        }
    }

    /// What a key does.
    pub open spec fn key_step(self, key: Key) -> (AppView, ActionView) {
        match self.input_mode {
            InputMode::EditingQuery => self.query_step(key.code),
            InputMode::EditingOrganization => self.organization_step(key.code),
            InputMode::CreatingPullRequest => self.form_step(key),
            InputMode::Normal => self.normal_step(key),
        }
    }

    /// What an event of the terminal does. The wheel scrolls the preview when
    /// it turns over it, and moves the selection elsewhere.
    pub open spec fn event_step(self, event: Event) -> (AppView, ActionView) {
        match event {
            Event::Key(key, pressed) => if pressed {
                self.key_step(key)
            } else {
                (self, ActionView::Continue)
            },
            Event::ScrollDown(column, row) => (
                if self.preview_rect.covers(column, row) {
                    self.scrolled_down(3)
                } else {
                    self.next_selected()
                },
                ActionView::Continue,
            ),
            Event::ScrollUp(column, row) => (
                if self.preview_rect.covers(column, row) {
                    self.scrolled_up(3)
                } else {
                    self.previous_selected()
                },
                ActionView::Continue,
            ),
            Event::Other => (self, ActionView::Continue),
        }
    }

    /// With a notice in the status.
    pub open spec fn notified(self, notice: Seq<char>) -> AppView {
        AppView { status: notice, ..self }
    }

    /// After the pull request has been created at `url`.
    pub open spec fn created(self, url: Seq<char>) -> AppView {
        AppView {
            input_mode: InputMode::Normal,
            status: "Pull Request を作成しました: "@ + url,
            ..self
        }
    }
}

} // verus!
