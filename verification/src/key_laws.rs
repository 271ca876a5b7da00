//! Laws of what each key, reply and report changes, and what it leaves.

use vstd::prelude::*;

use crate::category::{search_text, Category, StateFilter};
use crate::form::{FormView, PrFormField};
use crate::geometry::Rect;
use crate::item::ItemView;
use crate::keys::{Event, Key, KeyCode};
use crate::model::{
    initial_state, next_number, ActionView, AppView, InputMode, RequestView, ResponseView,
};
use crate::text::{decimal, trimmed};
use crate::text_laws::law_blank_organization;

verus! {

/// The workbench starts on the first tab, with what is open, without
/// organization, query, list or dialog, and waits for nothing.
pub proof fn law_start()
    ensures
        ({
            let start = initial_state();
            &&& start.category == Category::AuthoredPr
            &&& start.state_filter == StateFilter::Open
            &&& start.organization.len() == 0 && start.query.len() == 0
            &&& start.organization_buffer.len() == 0 && start.query_buffer.len() == 0
            &&& start.input_mode == InputMode::Normal
            &&& start.pr_form.title.len() == 0 && start.pr_form.body.len() == 0
            &&& start.pr_form.draft && start.pr_form.field == PrFormField::Title
            &&& start.request_id == 0 && start.active_request_id is None && !start.loading
            &&& start.items.len() == 0 && start.selected == 0
            &&& start.preview_scroll == 0
            &&& start.preview_rect == Rect { x: 0, y: 0, width: 0, height: 0 }
            &&& start.status == "起動中…"@
            &&& start.last_query.len() == 0
        }),
{
}

/// The selected item is the one at the selected place, wherever the list reaches
/// so far.
pub proof fn law_selected_item(a: AppView)
    ensures
        a.selected < a.items.len() ==> a.selection() == Some(a.items[a.selected as int]),
        a.selected >= a.items.len() ==> a.selection() is None,
{
}

/// The search of a state is the one of its category, its state, its organization
/// and its query.
pub proof fn law_search_of_a_state(a: AppView)
    ensures
        a.search() == search_text(
            a.category,
            a.state_filter,
            Some(a.organization),
            a.query,
        ),
{
    if a.organization.len() == 0 {
        law_blank_organization(a.category, a.state_filter, a.organization, a.query);
    }
}

/// A state that waits for the search of its filters, and is otherwise as it was.
pub open spec fn waiting(a: AppView) -> AppView {
    AppView {
        request_id: if a.request_id < u64::MAX {
            (a.request_id + 1) as u64
        } else {
            0
        },
        active_request_id: Some(
            if a.request_id < u64::MAX {
                (a.request_id + 1) as u64
            } else {
                0
            },
        ),
        loading: true,
        status: "GitHub から取得中…"@,
        last_query: search_text(a.category, a.state_filter, Some(a.organization), a.query),
        ..a
    }
}

/// The search that a waiting state waits for.
pub open spec fn awaited(a: AppView) -> ActionView {
    ActionView::Fetch(
        RequestView {
            id: waiting(a).request_id,
            query: search_text(a.category, a.state_filter, Some(a.organization), a.query),
        },
    )
}

/// Asking for a search hands on exactly what the filters ask for, under the next
/// number, and changes nothing but what tells that it is waited for.
pub proof fn law_refresh(a: AppView)
    ensures
        a.refreshed() == waiting(a),
        a.refresh_action() == awaited(a),
        a.refresh_step() == (waiting(a), awaited(a)),
        a.request_id < u64::MAX ==> next_number(a.request_id) == a.request_id + 1,
{
    law_search_of_a_state(a);
}

/// The smaller of two numbers.
pub open spec fn smaller(m: int, n: int) -> int {
    if m < n {
        m
    } else {
        n
    }
}

/// The awaited reply shows its list. The selection stays where it is as long as
/// the new list reaches so far, and is else the last; the preview starts from
/// its top, and the status tells how many there are.
pub proof fn law_reply_keeps_the_selection(
    a: AppView,
    id: u64,
    query: Seq<char>,
    items: Seq<ItemView>,
)
    requires
        a.active_request_id == Some(id),
    ensures
        ({
            let after = a.after_response(ResponseView { id, query, result: Ok(items) });
            &&& after == AppView {
                items,
                loading: false,
                active_request_id: None,
                last_query: query,
                preview_scroll: 0,
                selected: after.selected,
                status: after.status,
                ..a
            }
            &&& items.len() > 0 ==> after.selected == smaller(
                a.selected as int,
                items.len() - 1,
            )
            &&& a.selected < items.len() ==> after.selected == a.selected && after.selection()
                == Some(items[a.selected as int])
            &&& items.len() == 0 ==> after.selected == 0
            &&& items.len() > 0 ==> after.status == decimal(items.len()) + " 件取得"@
            &&& items.len() == 0 ==> after.status == "一致する項目はありません"@
        }),
{
}

/// The awaited reply that tells of a failure empties the list, shows the message
/// and leaves the rest.
pub proof fn law_failed_reply(a: AppView, id: u64, query: Seq<char>, message: Seq<char>)
    requires
        a.active_request_id == Some(id),
    ensures
        a.after_response(ResponseView { id, query, result: Err(message) }) == (AppView {
            items: Seq::empty(),
            selected: 0,
            loading: false,
            active_request_id: None,
            last_query: query,
            status: message,
            ..a
        }),
{
}

/// Replies are taken in one by one, in their order; one that is not awaited is
/// passed over.
pub proof fn law_replies_in_order(a: AppView, responses: Seq<ResponseView>, n: nat)
    requires
        n < responses.len(),
    ensures
        a.after_responses(responses, 0) == a,
        a.after_responses(responses, n + 1) == a.after_responses(responses, n).after_response(
            responses[n as int],
        ),
        a.active_request_id != Some(responses[0].id) ==> a.after_responses(responses, 1) == a,
{
    reveal_with_fuel(AppView::after_responses, 2);
}

/// Whatever was selected is still selected after a search for the same list.
pub proof fn law_selection_survives_a_refresh(a: AppView)
    requires
        a.wf(),
    ensures
        a.refresh_action() matches ActionView::Fetch(request) && ({
            let after = a.refreshed().after_response(
                ResponseView { id: request.id, query: request.query, result: Ok(a.items) },
            );
            &&& after.selected == a.selected
            &&& after.selection() == a.selection()
        }),
{
}

/// Moving the selection goes one item on, or round the end, starts the preview
/// from its top, and changes nothing else.
pub proof fn law_selection_moves_by_one(a: AppView)
    ensures
        a.items.len() == 0 ==> a.next_selected() == a && a.previous_selected() == a,
        a.items.len() > 0 ==> {
            &&& a.next_selected() == AppView {
                selected: a.next_selected().selected,
                preview_scroll: 0,
                ..a
            }
            &&& a.previous_selected() == AppView {
                selected: a.previous_selected().selected,
                preview_scroll: 0,
                ..a
            }
            &&& a.wf() ==> a.next_selected().selected == if a.selected + 1 == a.items.len() {
                0
            } else {
                a.selected + 1
            }
            &&& a.previous_selected().selected == if a.selected == 0 {
                a.items.len() - 1
            } else {
                a.selected - 1
            }
        },
{
    if a.items.len() > 0 && a.selected + 1 < a.items.len() {
        vstd::arithmetic::div_mod::lemma_small_mod((a.selected + 1) as nat, a.items.len());
    } else if a.items.len() > 0 && a.wf() {
        vstd::arithmetic::div_mod::lemma_mod_self_0(a.items.len() as int);
    }
}

/// Scrolling moves the preview by the amount, between its top and the largest
/// offset, and changes nothing else.
pub proof fn law_scrolling(a: AppView, amount: u16)
    ensures
        a.scrolled_down(amount) == (AppView {
            preview_scroll: a.scrolled_down(amount).preview_scroll,
            ..a
        }),
        a.scrolled_down(amount).preview_scroll == smaller(a.preview_scroll + amount, 65535),
        a.scrolled_up(amount) == (AppView {
            preview_scroll: a.scrolled_up(amount).preview_scroll,
            ..a
        }),
        a.preview_scroll >= amount ==> a.scrolled_up(amount).preview_scroll == a.preview_scroll
            - amount,
        a.preview_scroll < amount ==> a.scrolled_up(amount).preview_scroll == 0,
{
}

/// The keys that move, outside of the editors: `j`/`k` and the arrows by one
/// item, `g`/Home and `G`/End to the ends without scrolling, PageUp and PageDown
/// by ten lines of the preview, `J` and `K` by three.
pub proof fn law_moving_keys(a: AppView, key: Key)
    requires
        a.input_mode == InputMode::Normal,
    ensures
        key.code == KeyCode::Down || key.code == KeyCode::Char('j') ==> a.key_step(key) == (
            a.next_selected(),
            ActionView::Continue,
        ),
        key.code == KeyCode::Up || key.code == KeyCode::Char('k') ==> a.key_step(key) == (
            a.previous_selected(),
            ActionView::Continue,
        ),
        key.code == KeyCode::PageDown ==> a.key_step(key) == (
            a.scrolled_down(10),
            ActionView::Continue,
        ),
        key.code == KeyCode::PageUp ==> a.key_step(key) == (
            a.scrolled_up(10),
            ActionView::Continue,
        ),
        key.code == KeyCode::Char('J') ==> a.key_step(key) == (
            a.scrolled_down(3),
            ActionView::Continue,
        ),
        key.code == KeyCode::Char('K') ==> a.key_step(key) == (
            a.scrolled_up(3),
            ActionView::Continue,
        ),
        key.code == KeyCode::Home || key.code == KeyCode::Char('g') ==> a.key_step(key) == (
            AppView { selected: 0, ..a },
            ActionView::Continue,
        ),
        key.code == KeyCode::End || key.code == KeyCode::Char('G') ==> a.key_step(key) == (
            AppView {
                selected: if a.items.len() == 0 {
                    0
                } else {
                    (a.items.len() - 1) as nat
                },
                ..a
            },
            ActionView::Continue,
        ),
{
}

/// The tab to the right of another.
pub open spec fn right_of(c: Category) -> Category {
    match c {
        Category::AuthoredPr => Category::AuthoredIssue,
        Category::AuthoredIssue => Category::AssignedPr,
        Category::AssignedPr => Category::AssignedIssue,
        Category::AssignedIssue => Category::AuthoredPr,
    }
}

/// The tabs and the states follow each other in one order.
pub proof fn law_order_of_the_filters(c: Category, f: StateFilter, field: PrFormField)
    ensures
        c.following() == right_of(c),
        right_of(c.preceding()) == c,
        f.following() == match f {
            StateFilter::Open => StateFilter::Closed,
            StateFilter::Closed => StateFilter::All,
            StateFilter::All => StateFilter::Open,
        },
        field.following() == match field {
            PrFormField::Title => PrFormField::Body,
            PrFormField::Body => PrFormField::Draft,
            PrFormField::Draft => PrFormField::Title,
        },
        field.preceding() == match field {
            PrFormField::Title => PrFormField::Draft,
            PrFormField::Body => PrFormField::Title,
            PrFormField::Draft => PrFormField::Body,
        },
        Category::order().len() == 4,
        Category::order()[0] == Category::AuthoredPr,
        Category::order()[1] == Category::AuthoredIssue,
        Category::order()[2] == Category::AssignedPr,
        Category::order()[3] == Category::AssignedIssue,
{
}

/// The keys that search, outside of the editors: Tab and Shift+Tab turn to a
/// neighbouring tab, `s` to the next state, and `r` searches again; each changes
/// that filter alone.
pub proof fn law_searching_keys(a: AppView, key: Key)
    requires
        a.input_mode == InputMode::Normal,
    ensures
        ({
            let right = AppView { category: right_of(a.category), ..a };
            let left = AppView { category: a.category.preceding(), ..a };
            let other = AppView { state_filter: a.state_filter.following(), ..a };
            &&& key.code == KeyCode::Tab ==> a.key_step(key) == (waiting(right), awaited(right))
            &&& key.code == KeyCode::BackTab ==> a.key_step(key) == (waiting(left), awaited(left))
            &&& key.code == KeyCode::Char('s') ==> a.key_step(key) == (
                waiting(other),
                awaited(other),
            )
            &&& key.code == KeyCode::Char('r') ==> a.key_step(key) == (waiting(a), awaited(a))
        }),
{
    law_order_of_the_filters(a.category, a.state_filter, PrFormField::Title);
    law_refresh(a);
    law_refresh(AppView { category: right_of(a.category), ..a });
    law_refresh(AppView { category: a.category.preceding(), ..a });
    law_refresh(AppView { state_filter: a.state_filter.following(), ..a });
}

/// The keys that open an editor, outside of the editors: each starts from what
/// the filter is, or from an empty form for a draft, and says what to do.
pub proof fn law_opening_keys(a: AppView, key: Key)
    requires
        a.input_mode == InputMode::Normal,
    ensures
        key.code == KeyCode::Char('e') || key.code == KeyCode::Char('/') ==> a.key_step(key) == (
            AppView {
                input_mode: InputMode::EditingQuery,
                query_buffer: a.query,
                status: "クエリ編集中。Enter で適用、Esc でキャンセル"@,
                ..a
            },
            ActionView::Continue,
        ),
        key.code == KeyCode::Char('a') ==> a.key_step(key) == (
            AppView {
                input_mode: InputMode::EditingOrganization,
                organization_buffer: a.organization,
                status: "organization 編集中。空にすると全 organization が対象です"@,
                ..a
            },
            ActionView::Continue,
        ),
        key.code == KeyCode::Char('n') ==> a.key_step(key) == (
            AppView {
                input_mode: InputMode::CreatingPullRequest,
                pr_form: FormView {
                    title: Seq::empty(),
                    body: Seq::empty(),
                    draft: true,
                    field: PrFormField::Title,
                },
                status: "PR 作成画面を開きました。Tab で移動、Ctrl+S で作成します"@,
                ..a
            },
            ActionView::Continue,
        ),
{
}

/// Quitting changes nothing on the way out, and neither does a key that is bound
/// to nothing.
pub proof fn law_unbound_keys(a: AppView, key: Key)
    requires
        a.input_mode == InputMode::Normal,
    ensures
        a.key_step(key).1 is Quit ==> a.key_step(key).0 == a,
        key.code == KeyCode::Backspace || key.code == KeyCode::Other ==> a.key_step(key) == (
            a,
            ActionView::Continue,
        ),
        key.code matches KeyCode::Char(c) ==> !bound(c, key) ==> a.key_step(key) == (
            a,
            ActionView::Continue,
        ),
{
}

/// Whether a character is bound to anything outside of the editors.
pub open spec fn bound(c: char, key: Key) -> bool {
    ||| c == 'q' || c == 'n' || c == 'j' || c == 'k' || c == 'J' || c == 'K' || c == 'g'
    ||| c == 'G' || c == 'e' || c == '/' || c == 'a' || c == 's' || c == 'r' || c == 'o'
    ||| c == '<' || c == '>'
    ||| c == 'c' && key.control
    ||| c == 'w' && key.command
    ||| (c == ',' || c == '.') && (key.shift || key.command)
}

/// What opening and copying ask for, and what they report once it is done.
pub proof fn law_notices(a: AppView, item: ItemView)
    requires
        a.selection() == Some(item),
    ensures
        a.selected < a.items.len() && item == a.items[a.selected as int],
        a.open_action() == (ActionView::OpenBrowser {
            url: item.url,
            notice: "ブラウザで開きました: "@ + item.url,
        }),
        a.copy_url_action() == (ActionView::Copy {
            text: item.url,
            notice: "URL をコピーしました: "@ + item.url,
        }),
        a.copy_number_action() == (ActionView::Copy {
            text: decimal(item.number as nat),
            notice: "#"@ + decimal(item.number as nat) + " をコピーしました"@,
        }),
{
}

/// Without a selected item, opening and copying fail, and say so.
pub proof fn law_nothing_to_act_on(a: AppView)
    requires
        a.selected >= a.items.len(),
    ensures
        a.open_action() == ActionView::Fail("項目が選択されていません"@),
        a.copy_url_action() == ActionView::Fail("項目が選択されていません"@),
        a.copy_number_action() == ActionView::Fail("項目が選択されていません"@),
{
}

/// The editor of the query: Enter takes what is edited, trimmed, and searches;
/// Esc drops it; Backspace and characters edit it; any other key does nothing.
pub proof fn law_query_editor(a: AppView, key: Key)
    requires
        a.input_mode == InputMode::EditingQuery,
    ensures
        ({
            let taken = AppView {
                query: trimmed(a.query_buffer),
                input_mode: InputMode::Normal,
                ..a
            };
            &&& key.code == KeyCode::Enter ==> a.key_step(key) == (waiting(taken), awaited(taken))
            &&& key.code == KeyCode::Esc ==> a.key_step(key) == (
                AppView {
                    input_mode: InputMode::Normal,
                    query_buffer: Seq::empty(),
                    status: "クエリ編集をキャンセルしました"@,
                    ..a
                },
                ActionView::Continue,
            )
            &&& key.code matches KeyCode::Char(c) ==> a.key_step(key) == (
                AppView { query_buffer: a.query_buffer.push(c), ..a },
                ActionView::Continue,
            )
            &&& key.code == KeyCode::Backspace && a.query_buffer.len() > 0 ==> a.key_step(key) == (
                AppView { query_buffer: a.query_buffer.drop_last(), ..a },
                ActionView::Continue,
            )
            &&& key.code == KeyCode::Backspace && a.query_buffer.len() == 0 ==> a.key_step(key) == (
                a,
                ActionView::Continue,
            )
            &&& !(key.code is Char) && key.code != KeyCode::Enter && key.code != KeyCode::Esc
                && key.code != KeyCode::Backspace ==> a.key_step(key) == (a, ActionView::Continue)
        }),
{
    law_refresh(
        AppView { query: trimmed(a.query_buffer), input_mode: InputMode::Normal, ..a },
    );
}

/// The editor of the organization: Enter takes what is edited, trimmed, and
/// searches; Esc drops it; Backspace and characters edit it; any other key does
/// nothing.
pub proof fn law_organization_editor(a: AppView, key: Key)
    requires
        a.input_mode == InputMode::EditingOrganization,
    ensures
        ({
            let taken = AppView {
                organization: trimmed(a.organization_buffer),
                input_mode: InputMode::Normal,
                ..a
            };
            &&& key.code == KeyCode::Enter ==> a.key_step(key) == (waiting(taken), awaited(taken))
            &&& key.code == KeyCode::Esc ==> a.key_step(key) == (
                AppView {
                    input_mode: InputMode::Normal,
                    organization_buffer: Seq::empty(),
                    status: "organization 編集をキャンセルしました"@,
                    ..a
                },
                ActionView::Continue,
            )
            &&& key.code matches KeyCode::Char(c) ==> a.key_step(key) == (
                AppView { organization_buffer: a.organization_buffer.push(c), ..a },
                ActionView::Continue,
            )
            &&& key.code == KeyCode::Backspace && a.organization_buffer.len() > 0 ==> a.key_step(
                key,
            ) == (
                AppView { organization_buffer: a.organization_buffer.drop_last(), ..a },
                ActionView::Continue,
            )
            &&& key.code == KeyCode::Backspace && a.organization_buffer.len() == 0 ==> a.key_step(
                key,
            ) == (a, ActionView::Continue)
            &&& !(key.code is Char) && key.code != KeyCode::Enter && key.code != KeyCode::Esc
                && key.code != KeyCode::Backspace ==> a.key_step(key) == (a, ActionView::Continue)
        }),
{
    law_refresh(
        AppView {
            organization: trimmed(a.organization_buffer),
            input_mode: InputMode::Normal,
            ..a
        },
    );
}

/// The form: Tab and Down go to the next field, Shift+Tab and Up to the previous
/// one, and Enter goes on from the title, breaks a line of the body and changes
/// the choice on drafts.
pub proof fn law_form_fields(f: FormView)
    ensures
        ({
            let below = FormView {
                field: match f.field {
                    PrFormField::Title => PrFormField::Body,
                    PrFormField::Body => PrFormField::Draft,
                    PrFormField::Draft => PrFormField::Title,
                },
                ..f
            };
            let above = FormView {
                field: match f.field {
                    PrFormField::Title => PrFormField::Draft,
                    PrFormField::Body => PrFormField::Title,
                    PrFormField::Draft => PrFormField::Body,
                },
                ..f
            };
            &&& f.after_key(KeyCode::Tab) == below
            &&& f.after_key(KeyCode::Down) == below
            &&& f.after_key(KeyCode::BackTab) == above
            &&& f.after_key(KeyCode::Up) == above
            &&& f.field == PrFormField::Title ==> f.after_key(KeyCode::Enter) == FormView {
                field: PrFormField::Body,
                ..f
            }
            &&& f.field == PrFormField::Body ==> f.after_key(KeyCode::Enter) == FormView {
                body: f.body.push('\n'),
                ..f
            }
            &&& f.field == PrFormField::Draft ==> f.after_key(KeyCode::Enter) == FormView {
                draft: !f.draft,
                ..f
            }
        }),
{
    law_order_of_the_filters(Category::AuthoredPr, StateFilter::Open, f.field);
}

/// The form: characters and Backspace edit the title or the body, whichever is
/// at hand; on the choice on drafts a blank, `x` and `d` change it and others do
/// nothing.
pub proof fn law_form_edits(f: FormView, c: char)
    ensures
        f.field == PrFormField::Title ==> {
            &&& f.after_key(KeyCode::Char(c)) == FormView { title: f.title.push(c), ..f }
            &&& f.title.len() > 0 ==> f.after_key(KeyCode::Backspace) == FormView {
                title: f.title.drop_last(),
                ..f
            }
            &&& f.title.len() == 0 ==> f.after_key(KeyCode::Backspace) == f
        },
        f.field == PrFormField::Body ==> {
            &&& f.after_key(KeyCode::Char(c)) == FormView { body: f.body.push(c), ..f }
            &&& f.body.len() > 0 ==> f.after_key(KeyCode::Backspace) == FormView {
                body: f.body.drop_last(),
                ..f
            }
            &&& f.body.len() == 0 ==> f.after_key(KeyCode::Backspace) == f
        },
        f.field == PrFormField::Draft ==> {
            &&& f.after_key(KeyCode::Backspace) == f
            &&& c == ' ' || c == 'x' || c == 'X' || c == 'd' || c == 'D' ==> f.after_key(
                KeyCode::Char(c),
            ) == FormView { draft: !f.draft, ..f }
            &&& c != ' ' && c != 'x' && c != 'X' && c != 'd' && c != 'D' ==> f.after_key(
                KeyCode::Char(c),
            ) == f
        },
        f.after_key(KeyCode::Esc) == f,
        f.after_key(KeyCode::PageUp) == f,
        f.after_key(KeyCode::PageDown) == f,
        f.after_key(KeyCode::Home) == f,
        f.after_key(KeyCode::End) == f,
        f.after_key(KeyCode::Other) == f,
{
}

/// The form as a whole: Ctrl+S sends it off, with its title trimmed, its body and
/// its choice as they are, unless the title is blank; Esc leaves it; any other
/// key edits it and reaches no further.
pub proof fn law_form_keys(a: AppView, key: Key)
    requires
        a.input_mode == InputMode::CreatingPullRequest,
    ensures
        ({
            let send = key.control && key.code == KeyCode::Char('s');
            let title = trimmed(a.pr_form.title);
            &&& send && title.len() > 0 ==> a.key_step(key) == (
                AppView { status: "Pull Request を作成中…"@, ..a },
                ActionView::CreatePullRequest {
                    title,
                    body: a.pr_form.body,
                    draft: a.pr_form.draft,
                },
            )
            &&& send && title.len() == 0 ==> a.key_step(key) == (
                AppView { status: "PR タイトルは必須です"@, ..a },
                ActionView::Continue,
            )
            &&& key.code == KeyCode::Esc ==> a.key_step(key) == (
                AppView {
                    input_mode: InputMode::Normal,
                    status: "PR 作成をキャンセルしました"@,
                    ..a
                },
                ActionView::Continue,
            )
            &&& !send && key.code != KeyCode::Esc ==> a.key_step(key) == (
                AppView { pr_form: a.pr_form.after_key(key.code), ..a },
                ActionView::Continue,
            )
        }),
{
}

/// What is reported of a pull request that was created, and of anything else
/// that was done: the form is left, the status tells, and the rest stays.
pub proof fn law_reports(a: AppView, text: Seq<char>)
    ensures
        a.created(text) == (AppView {
            input_mode: InputMode::Normal,
            status: "Pull Request を作成しました: "@ + text,
            ..a
        }),
        a.notified(text) == (AppView { status: text, ..a }),
{
}

/// A key that goes down does what it is bound to; the wheel asks for nothing, and
/// moves the preview by three lines or the selection by one item.
pub proof fn law_events(a: AppView, key: Key, column: u16, row: u16)
    ensures
        a.event_step(Event::Key(key, true)) == a.key_step(key),
        a.event_step(Event::ScrollDown(column, row)).1 is Continue,
        a.event_step(Event::ScrollUp(column, row)).1 is Continue,
        ({
            let r = a.preview_rect;
            let over = r.x <= column < r.x + r.width && r.y <= row < r.y + r.height && column
                < 65535 && row < 65535;
            &&& over ==> a.event_step(Event::ScrollDown(column, row)).0 == AppView {
                preview_scroll: smaller(a.preview_scroll + 3, 65535) as u16,
                ..a
            }
            &&& over && a.preview_scroll >= 3 ==> a.event_step(Event::ScrollUp(column, row)).0
                == AppView { preview_scroll: (a.preview_scroll - 3) as u16, ..a }
            &&& over && a.preview_scroll < 3 ==> a.event_step(Event::ScrollUp(column, row)).0
                == AppView { preview_scroll: 0, ..a }
            &&& !over ==> a.event_step(Event::ScrollDown(column, row)).0 == a.next_selected()
            &&& !over ==> a.event_step(Event::ScrollUp(column, row)).0 == a.previous_selected()
        }),
{
}

/// Each mode has its own keys.
pub proof fn law_modes_have_their_own_keys(a: AppView, key: Key)
    ensures
        a.input_mode == InputMode::EditingQuery ==> a.key_step(key) == a.query_step(key.code),
        a.input_mode == InputMode::EditingOrganization ==> a.key_step(key) == a.organization_step(
            key.code,
        ),
        a.input_mode == InputMode::CreatingPullRequest ==> a.key_step(key) == a.form_step(key),
        a.input_mode == InputMode::Normal ==> a.key_step(key) == a.normal_step(key),
{
}

} // verus!
