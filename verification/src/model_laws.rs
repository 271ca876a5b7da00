//! Laws of the workbench's state.

use vstd::prelude::*;

use crate::category::{search_text, Category, StateFilter};
use crate::form::{blank_form, FormView, PrFormField};
use crate::item::ItemView;
use crate::keys::{Event, Key, KeyCode};
use crate::model::{
    initial_state, toggles_draft, without_last, ActionView, AppView, InputMode, ResponseView,
};
use crate::text::{decimal, trimmed};
use crate::text_laws::{law_blank_organization, law_trim_twice};

verus! {

/// The tabs form a ring: one step right and one step left undo each other, and
/// four steps go round.
pub proof fn law_tabs_form_a_ring(c: Category)
    ensures
        c.following().preceding() == c,
        c.preceding().following() == c,
        c.following().following().following().following() == c,
{
}

/// Every category has its tab, and each tab its own place.
pub proof fn law_tab_places(c: Category, d: Category)
    ensures
        0 <= c.place() < Category::order().len(),
        Category::order()[c.place()] == c,
        c.place() == d.place() ==> c == d,
{
}

/// Three steps take the state filter round.
pub proof fn law_state_filter_cycles(f: StateFilter)
    ensures
        f.following().following().following() == f,
        f.following() != f,
{
}

/// The fields of the form are a ring as well.
pub proof fn law_fields_form_a_ring(f: PrFormField)
    ensures
        f.following().preceding() == f,
        f.preceding().following() == f,
        f.following().following().following() == f,
{
}

impl AppView {
    /// Whether a search is waited for exactly while the state says so, and it
    /// is the last one that was asked for.
    pub open spec fn coherent(self) -> bool {
        &&& self.loading == (self.active_request_id is Some)
        &&& self.active_request_id matches Some(id) ==> id == self.request_id
    }
}

/// At the start nothing is waited for, and the selection is valid.
pub proof fn law_start_is_valid()
    ensures
        initial_state().wf(),
        initial_state().coherent(),
{
}

/// No event makes the selection invalid or the waiting incoherent.
pub proof fn law_events_keep_validity(a: AppView, event: Event)
    requires
        a.wf(),
        a.coherent(),
    ensures
        a.event_step(event).0.wf(),
        a.event_step(event).0.coherent(),
{
}

/// No reply makes the selection invalid or the waiting incoherent.
pub proof fn law_replies_keep_validity(a: AppView, responses: Seq<ResponseView>, n: nat)
    requires
        a.wf(),
        a.coherent(),
        n <= responses.len(),
    ensures
        a.after_responses(responses, n).wf(),
        a.after_responses(responses, n).coherent(),
    decreases n,
{
    if n > 0 {
        law_replies_keep_validity(a, responses, (n - 1) as nat);
    }
}

/// Reporting what was done keeps the selection valid and the waiting coherent.
pub proof fn law_reports_keep_validity(a: AppView, url: Seq<char>, notice: Seq<char>)
    requires
        a.wf(),
        a.coherent(),
    ensures
        a.created(url).wf(),
        a.created(url).coherent(),
        a.notified(notice).wf(),
        a.notified(notice).coherent(),
{
}

/// No event changes the list: only replies do.
pub proof fn law_events_keep_the_list(a: AppView, event: Event)
    ensures
        a.event_step(event).0.items == a.items,
{
}

/// Whatever the key and the mode, the list stays as it is and the selection
/// valid, whether or not the action then succeeds. Outside of the editors `g`
/// and Home select the first item, and `G` and End the last.
pub proof fn law_keys_keep_the_list(a: AppView, key: Key)
    requires
        a.wf(),
    ensures
        a.key_step(key).0.items == a.items,
        a.key_step(key).0.selected == 0 || a.key_step(key).0.selected < a.items.len(),
        a.input_mode == InputMode::Normal && (key.code == KeyCode::Home || key.code
            == KeyCode::Char('g')) ==> a.key_step(key).0.selected == 0,
        a.input_mode == InputMode::Normal && (key.code == KeyCode::End || key.code
            == KeyCode::Char('G')) ==> a.key_step(key).0.selected == if a.items.len() == 0 {
            0
        } else {
            a.items.len() - 1
        },
{
}

/// Of a list that is not empty one item is always selected.
pub proof fn law_something_is_selected(a: AppView)
    requires
        a.wf(),
    ensures
        a.selection() is Some == (a.items.len() > 0),
{
}

/// Down and up undo each other on the selection, round the ends too.
pub proof fn law_selection_moves_back(a: AppView)
    requires
        a.wf(),
    ensures
        a.next_selected().previous_selected().selected == a.selected,
        a.previous_selected().next_selected().selected == a.selected,
{
    if a.items.len() > 0 {
        let n = a.items.len();
        if a.selected + 1 == n {
            assert((a.selected + 1) as nat % n == 0);
        } else {
            assert((a.selected + 1) as nat % n == a.selected + 1) by {
                vstd::arithmetic::div_mod::lemma_small_mod((a.selected + 1) as nat, n);
            }
        }
        if a.selected == 0 {
            assert(n % n == 0) by {
                vstd::arithmetic::div_mod::lemma_mod_self_0(n as int);
            }
        } else {
            assert(a.selected % n == a.selected) by {
                vstd::arithmetic::div_mod::lemma_small_mod(a.selected, n);
            }
        }
    }
}

/// Scrolling down and up again is no scrolling, unless the counter is at its
/// end.
pub proof fn law_scrolling_undone(a: AppView, amount: u16)
    requires
        a.preview_scroll + amount <= u16::MAX,
    ensures
        a.scrolled_down(amount).scrolled_up(amount) == a,
{
}

/// The wheel scrolls the preview and nothing else when it turns over it, and
/// leaves every filter alone in any case.
pub proof fn law_wheel(a: AppView, column: u16, row: u16)
    ensures
        a.preview_rect.covers(column, row) ==> {
            &&& a.event_step(Event::ScrollDown(column, row)).0 == a.scrolled_down(3)
            &&& a.event_step(Event::ScrollUp(column, row)).0 == a.scrolled_up(3)
        },
        !a.preview_rect.covers(column, row) ==> {
            &&& a.event_step(Event::ScrollDown(column, row)).0 == a.next_selected()
            &&& a.event_step(Event::ScrollUp(column, row)).0 == a.previous_selected()
        },
        a.event_step(Event::ScrollDown(column, row)).0.search() == a.search(),
        a.event_step(Event::ScrollUp(column, row)).0.search() == a.search(),
{
}

/// A key that is let go, and any event without a meaning, changes nothing.
pub proof fn law_other_events(a: AppView, key: Key)
    ensures
        a.event_step(Event::Key(key, false)) == (a, ActionView::Continue),
        a.event_step(Event::Other) == (a, ActionView::Continue),
{
}

/// Asking for a search leaves the list, the selection and the filters as they
/// are until the reply comes.
pub proof fn law_refresh_keeps_the_list(a: AppView)
    ensures
        a.refreshed().items == a.items,
        a.refreshed().selected == a.selected,
        a.refreshed().preview_scroll == a.preview_scroll,
        a.refreshed().search() == a.search(),
        a.refreshed().last_query == a.search(),
{
}

/// Once a new search is asked for, a reply to any earlier one changes nothing.
pub proof fn law_stale_reply_ignored(a: AppView, response: ResponseView)
    requires
        a.request_id < u64::MAX,
        response.id <= a.request_id,
    ensures
        a.refreshed().after_response(response) == a.refreshed(),
{
}

/// Only the search that was asked for last is ever shown: a reply to any other
/// changes nothing, whatever happened since.
pub proof fn law_only_the_last_search_counts(a: AppView, response: ResponseView)
    requires
        a.coherent(),
        response.id != a.request_id,
    ensures
        a.after_response(response) == a,
{
}

/// The reply to the search that was asked for last is shown.
pub proof fn law_reply_is_shown(a: AppView, items: Seq<ItemView>)
    ensures
        a.refresh_action() matches ActionView::Fetch(request) && ({
            let after = a.refreshed().after_response(
                ResponseView { id: request.id, query: request.query, result: Ok(items) },
            );
            &&& after.items == items
            &&& !after.loading
            &&& after.last_query == a.search()
            &&& after.preview_scroll == 0
            &&& after.wf()
        }),
{
}

/// A search that failed empties the list and tells why.
pub proof fn law_failure_is_shown(a: AppView, message: Seq<char>)
    ensures
        a.refresh_action() matches ActionView::Fetch(request) && ({
            let after = a.refreshed().after_response(
                ResponseView { id: request.id, query: request.query, result: Err(message) },
            );
            &&& after.items.len() == 0
            &&& !after.loading
            &&& after.status == message
        }),
{
}

/// A search is answered once: after its reply every other changes nothing.
pub proof fn law_one_reply_per_search(a: AppView, first: ResponseView, second: ResponseView)
    requires
        a.active_request_id == Some(first.id),
    ensures
        a.after_response(first).active_request_id is None,
        a.after_response(first).after_response(second) == a.after_response(first),
{
}

/// Each search has a number that no earlier one had.
pub proof fn law_search_numbers_grow(a: AppView, event: Event)
    requires
        a.event_step(event).1 is Fetch ==> a.request_id < u64::MAX,
    ensures
        match a.event_step(event).1 {
            ActionView::Fetch(request) => request.id == a.request_id + 1
                && a.event_step(event).0.request_id == request.id,
            _ => a.event_step(event).0.request_id == a.request_id,
        },
{
}

/// What is searched for after an event is what the filters then ask for, and
/// it is shown as the search in effect.
pub proof fn law_search_matches_filters(a: AppView, event: Event)
    ensures
        a.event_step(event).1 matches ActionView::Fetch(request) ==> {
            &&& request.query == a.event_step(event).0.search()
            &&& request.query == a.event_step(event).0.last_query
            &&& a.event_step(event).0.active_request_id == Some(request.id)
        },
{
}

/// Whenever the category, the state, the organization or the query changes, a
/// search for the new filters follows.
pub proof fn law_changed_filters_are_searched(a: AppView, event: Event)
    ensures
        !(a.event_step(event).1 is Fetch) ==> {
            &&& a.event_step(event).0.category == a.category
            &&& a.event_step(event).0.state_filter == a.state_filter
            &&& a.event_step(event).0.organization == a.organization
            &&& a.event_step(event).0.query == a.query
        },
{
}

/// Outside of the editors exactly these keys quit: Esc, `q`, Ctrl+C and
/// Command+W.
pub proof fn law_quit_keys(a: AppView, key: Key)
    requires
        a.input_mode == InputMode::Normal,
    ensures
        a.key_step(key).1 is Quit <==> {
            ||| key.code == KeyCode::Esc
            ||| key.code == KeyCode::Char('q')
            ||| key.code == KeyCode::Char('c') && key.control
            ||| key.code == KeyCode::Char('w') && key.command
        },
{
}

/// No key quits from an editor or from the form.
pub proof fn law_editors_do_not_quit(a: AppView, key: Key)
    requires
        a.input_mode != InputMode::Normal,
    ensures
        !(a.key_step(key).1 is Quit),
{
}

/// Tab and Shift+Tab bring the category back, and change no other filter.
pub proof fn law_tab_and_back(a: AppView, tab: Key, back: Key)
    requires
        a.input_mode == InputMode::Normal,
        tab.code == KeyCode::Tab,
        back.code == KeyCode::BackTab,
    ensures
        a.key_step(tab).0.key_step(back).0.category == a.category,
        a.key_step(tab).0.key_step(back).0.search() == a.search(),
{
    law_tabs_form_a_ring(a.category);
}

/// The state after some characters are typed.
pub open spec fn typed(a: AppView, text: Seq<char>) -> AppView
    decreases text.len(),
{
    if text.len() == 0 {
        a
    } else {
        typed(a, text.drop_last()).key_step(
            Key {
                code: KeyCode::Char(text.last()),
                shift: false,
                control: false,
                command: false,
            },
        ).0
    }
}

/// What is typed into the query's editor goes behind what stands there, and
/// nowhere else.
pub proof fn law_typing_a_query(a: AppView, text: Seq<char>)
    requires
        a.input_mode == InputMode::EditingQuery,
    ensures
        typed(a, text) == (AppView { query_buffer: a.query_buffer + text, ..a }),
    decreases text.len(),
{
    if text.len() > 0 {
        law_typing_a_query(a, text.drop_last());
        assert((a.query_buffer + text.drop_last()).push(text.last()) =~= a.query_buffer + text);
    } else {
        assert(a.query_buffer + text =~= a.query_buffer);
    }
}

/// What is typed into the organization's editor goes behind what stands there,
/// and nowhere else.
pub proof fn law_typing_an_organization(a: AppView, text: Seq<char>)
    requires
        a.input_mode == InputMode::EditingOrganization,
    ensures
        typed(a, text) == (AppView { organization_buffer: a.organization_buffer + text, ..a }),
    decreases text.len(),
{
    if text.len() > 0 {
        law_typing_an_organization(a, text.drop_last());
        assert((a.organization_buffer + text.drop_last()).push(text.last())
            =~= a.organization_buffer + text);
    } else {
        assert(a.organization_buffer + text =~= a.organization_buffer);
    }
}

/// The state after some keys.
pub open spec fn after_keys(a: AppView, keys: Seq<Key>) -> AppView
    decreases keys.len(),
{
    if keys.len() == 0 {
        a
    } else {
        after_keys(a, keys.drop_last()).key_step(keys.last()).0
    }
}

/// Whether none of some keys, one after the other, asks for anything.
pub open spec fn ask_for_nothing(a: AppView, keys: Seq<Key>) -> bool {
    forall|i: int|
        0 <= i < keys.len() ==> after_keys(a, keys.take(i)).key_step(
            #[trigger] keys[i],
        ).1 is Continue
}

/// Whether keys are each a character or Backspace.
pub open spec fn are_edits(keys: Seq<Key>) -> bool {
    forall|i: int|
        0 <= i < keys.len() ==> (#[trigger] keys[i]).code is Char || keys[i].code
            == KeyCode::Backspace
}

/// A text after some keys: each character goes behind it, and Backspace takes
/// its last one away.
pub open spec fn edited(text: Seq<char>, keys: Seq<Key>) -> Seq<char>
    decreases keys.len(),
{
    if keys.len() == 0 {
        text
    } else {
        let before = edited(text, keys.drop_last());
        match keys.last().code {
            KeyCode::Char(c) => before.push(c),
            KeyCode::Backspace => without_last(before),
            _ => before,
        }
    }
}

/// Characters and Backspace in the query's editor change what is edited and
/// nothing else, and ask for nothing.
pub proof fn law_editing_a_query(a: AppView, keys: Seq<Key>)
    requires
        a.input_mode == InputMode::EditingQuery,
        are_edits(keys),
    ensures
        after_keys(a, keys) == (AppView { query_buffer: edited(a.query_buffer, keys), ..a }),
        ask_for_nothing(a, keys),
    decreases keys.len(),
{
    if keys.len() > 0 {
        let before = keys.drop_last();
        law_editing_a_query(a, before);
        assert forall|i: int| 0 <= i < keys.len() implies after_keys(a, keys.take(i)).key_step(
            #[trigger] keys[i],
        ).1 is Continue by {
            if i < before.len() {
                assert(before.take(i) =~= keys.take(i));
                assert(before[i] == keys[i]);
            } else {
                assert(keys.take(i) =~= before);
            }
        }
    }
}

/// Characters and Backspace in the organization's editor change what is edited
/// and nothing else, and ask for nothing.
pub proof fn law_editing_an_organization(a: AppView, keys: Seq<Key>)
    requires
        a.input_mode == InputMode::EditingOrganization,
        are_edits(keys),
    ensures
        after_keys(a, keys) == (AppView {
            organization_buffer: edited(a.organization_buffer, keys),
            ..a
        }),
        ask_for_nothing(a, keys),
    decreases keys.len(),
{
    if keys.len() > 0 {
        let before = keys.drop_last();
        law_editing_an_organization(a, before);
        assert forall|i: int| 0 <= i < keys.len() implies after_keys(a, keys.take(i)).key_step(
            #[trigger] keys[i],
        ).1 is Continue by {
            if i < before.len() {
                assert(before.take(i) =~= keys.take(i));
                assert(before[i] == keys[i]);
            } else {
                assert(keys.take(i) =~= before);
            }
        }
    }
}

/// Opening the query's editor, editing and pressing Enter makes the query what
/// it was as edited, trimmed, and searches for it.
pub proof fn law_query_applied(a: AppView, open: Key, keys: Seq<Key>, enter: Key)
    requires
        a.input_mode == InputMode::Normal,
        open.code == KeyCode::Char('e') || open.code == KeyCode::Char('/'),
        are_edits(keys),
        enter.code == KeyCode::Enter,
    ensures
        after_keys(a.key_step(open).0, keys).key_step(enter).0.query == trimmed(
            edited(a.query, keys),
        ),
        after_keys(a.key_step(open).0, keys).key_step(enter).0.input_mode == InputMode::Normal,
        after_keys(a.key_step(open).0, keys).key_step(enter).1 matches ActionView::Fetch(request)
            && request.query == search_text(
            a.category,
            a.state_filter,
            Some(a.organization),
            edited(a.query, keys),
        ),
{
    law_editing_a_query(a.key_step(open).0, keys);
    let given = edited(a.query, keys);
    law_trim_twice(given);
    if a.organization.len() == 0 {
        law_blank_organization(a.category, a.state_filter, a.organization, given);
    }
}

/// Opening the query's editor, editing and pressing Esc leaves every filter, the
/// list and the number of searches as they were, and asks for nothing at any
/// key.
pub proof fn law_query_cancelled(a: AppView, open: Key, keys: Seq<Key>, esc: Key)
    requires
        a.input_mode == InputMode::Normal,
        open.code == KeyCode::Char('e') || open.code == KeyCode::Char('/'),
        are_edits(keys),
        esc.code == KeyCode::Esc,
    ensures
        ({
            let opened = a.key_step(open).0;
            let last = after_keys(opened, keys).key_step(esc);
            &&& last.0.query == a.query
            &&& last.0.organization == a.organization
            &&& last.0.search() == a.search()
            &&& last.0.items == a.items
            &&& last.0.selected == a.selected
            &&& last.0.request_id == a.request_id
            &&& last.0.active_request_id == a.active_request_id
            &&& last.0.input_mode == InputMode::Normal
            &&& last.1 is Continue
            &&& a.key_step(open).1 is Continue
            &&& ask_for_nothing(opened, keys)
        }),
{
    let opened = a.key_step(open).0;
    assert(opened == a.editing_query());
    law_editing_a_query(opened, keys);
    assert(after_keys(opened, keys).key_step(esc) == after_keys(opened, keys).query_step(esc.code));
}

/// Opening the organization's editor, editing and pressing Enter makes the
/// organization what it was as edited, trimmed, and searches within it.
pub proof fn law_organization_applied(a: AppView, open: Key, keys: Seq<Key>, enter: Key)
    requires
        a.input_mode == InputMode::Normal,
        open.code == KeyCode::Char('a'),
        are_edits(keys),
        enter.code == KeyCode::Enter,
    ensures
        after_keys(a.key_step(open).0, keys).key_step(enter).0.organization == trimmed(
            edited(a.organization, keys),
        ),
        after_keys(a.key_step(open).0, keys).key_step(enter).0.input_mode == InputMode::Normal,
        after_keys(a.key_step(open).0, keys).key_step(enter).1 matches ActionView::Fetch(request)
            && request.query == search_text(
            a.category,
            a.state_filter,
            Some(edited(a.organization, keys)),
            a.query,
        ),
{
    law_editing_an_organization(a.key_step(open).0, keys);
    let given = edited(a.organization, keys);
    law_trim_twice(given);
    if trimmed(given).len() == 0 {
        law_blank_organization(a.category, a.state_filter, given, a.query);
    }
}

/// Without an organization, or with a blank one, every organization is searched.
pub proof fn law_no_organization_is_every_organization(a: AppView)
    requires
        trimmed(a.organization).len() == 0,
    ensures
        a.search() == search_text(a.category, a.state_filter, None, a.query),
{
    law_blank_organization(a.category, a.state_filter, a.organization, a.query);
}

/// Opening the organization's editor, editing and pressing Esc leaves every
/// filter, the list and the number of searches as they were, and asks for
/// nothing at any key.
pub proof fn law_organization_cancelled(a: AppView, open: Key, keys: Seq<Key>, esc: Key)
    requires
        a.input_mode == InputMode::Normal,
        open.code == KeyCode::Char('a'),
        are_edits(keys),
        esc.code == KeyCode::Esc,
    ensures
        ({
            let opened = a.key_step(open).0;
            let last = after_keys(opened, keys).key_step(esc);
            &&& last.0.query == a.query
            &&& last.0.organization == a.organization
            &&& last.0.search() == a.search()
            &&& last.0.items == a.items
            &&& last.0.selected == a.selected
            &&& last.0.request_id == a.request_id
            &&& last.0.active_request_id == a.active_request_id
            &&& last.0.input_mode == InputMode::Normal
            &&& last.1 is Continue
            &&& a.key_step(open).1 is Continue
            &&& ask_for_nothing(opened, keys)
        }),
{
    let opened = a.key_step(open).0;
    assert(opened == a.editing_organization());
    law_editing_an_organization(opened, keys);
    assert(after_keys(opened, keys).key_step(esc) == after_keys(opened, keys).organization_step(
        esc.code,
    ));
}

/// Backspace takes back the character before it, in every field that holds
/// text.
pub proof fn law_backspace_undoes(a: AppView, key: Key, c: char, backspace: Key)
    requires
        a.input_mode != InputMode::Normal,
        a.input_mode == InputMode::CreatingPullRequest ==> a.pr_form.field != PrFormField::Draft
            && !(key.control && c == 's'),
        key.code == KeyCode::Char(c),
        backspace.code == KeyCode::Backspace,
    ensures
        a.key_step(key).0.key_step(backspace).0 == a,
{
    assert(a.query_buffer.push(c).drop_last() =~= a.query_buffer);
    assert(a.organization_buffer.push(c).drop_last() =~= a.organization_buffer);
    assert(a.pr_form.title.push(c).drop_last() =~= a.pr_form.title);
    assert(a.pr_form.body.push(c).drop_last() =~= a.pr_form.body);
    assert(a.key_step(key).0.key_step(backspace).0 =~= a);
}

/// The form opens empty, on its title, and for a draft.
pub proof fn law_form_opens_blank(a: AppView, key: Key)
    requires
        a.input_mode == InputMode::Normal,
        key.code == KeyCode::Char('n'),
    ensures
        a.key_step(key).0.input_mode == InputMode::CreatingPullRequest,
        a.key_step(key).0.pr_form == blank_form(),
        a.key_step(key).0.pr_form.draft,
        a.key_step(key).1 is Continue,
{
}

/// What is typed into the title or the body goes behind what stands there, and
/// nowhere else.
pub proof fn law_typing_into_the_form(a: AppView, text: Seq<char>)
    requires
        a.input_mode == InputMode::CreatingPullRequest,
        a.pr_form.field != PrFormField::Draft,
    ensures
        typed(a, text) == (AppView {
            pr_form: if a.pr_form.field == PrFormField::Title {
                FormView { title: a.pr_form.title + text, ..a.pr_form }
            } else {
                FormView { body: a.pr_form.body + text, ..a.pr_form }
            },
            ..a
        }),
    decreases text.len(),
{
    let (title, body) = (a.pr_form.title, a.pr_form.body);
    if text.len() > 0 {
        law_typing_into_the_form(a, text.drop_last());
        assert((title + text.drop_last()).push(text.last()) =~= title + text);
        assert((body + text.drop_last()).push(text.last()) =~= body + text);
    } else {
        assert(title + text =~= title);
        assert(body + text =~= body);
    }
}

/// Opening the form, typing a title, going on to the body, typing it and
/// pressing Ctrl+S creates a draft with that title, trimmed, and that body.
pub proof fn law_draft_from_the_form(
    a: AppView,
    open: Key,
    title: Seq<char>,
    tab: Key,
    body: Seq<char>,
    send: Key,
)
    requires
        a.input_mode == InputMode::Normal,
        open.code == KeyCode::Char('n'),
        tab.code == KeyCode::Tab,
        send.code == KeyCode::Char('s'),
        send.control,
        trimmed(title).len() > 0,
    ensures
        typed(typed(a.key_step(open).0, title).key_step(tab).0, body).key_step(send).1
            == (ActionView::CreatePullRequest { title: trimmed(title), body, draft: true }),
{
    law_typing_into_the_form(a.key_step(open).0, title);
    law_typing_into_the_form(typed(a.key_step(open).0, title).key_step(tab).0, body);
    assert(Seq::<char>::empty() + title =~= title);
    assert(Seq::<char>::empty() + body =~= body);
}

/// A form whose title is blank is not sent off: it stays open, as it is.
pub proof fn law_blank_title_stays(a: AppView, send: Key)
    requires
        a.input_mode == InputMode::CreatingPullRequest,
        send.code == KeyCode::Char('s'),
        send.control,
        trimmed(a.pr_form.title).len() == 0,
    ensures
        a.key_step(send).1 is Continue,
        a.key_step(send).0.input_mode == InputMode::CreatingPullRequest,
        a.key_step(send).0.pr_form == a.pr_form,
{
}

/// On the choice on drafts, a key that changes it brings it back when pressed
/// again.
pub proof fn law_draft_toggles(f: FormView, c: char)
    requires
        f.field == PrFormField::Draft,
        toggles_draft(c),
    ensures
        f.after_key(KeyCode::Char(c)).draft == !f.draft,
        f.after_key(KeyCode::Char(c)).after_key(KeyCode::Char(c)) == f,
        f.after_key(KeyCode::Enter).after_key(KeyCode::Enter) == f,
{
}

/// A pull request is only ever created from the form, with Ctrl+S, with a title
/// that is not blank, and with the body and the choice that the form holds.
pub proof fn law_created_from_the_form(a: AppView, event: Event)
    ensures
        a.event_step(event).1 matches ActionView::CreatePullRequest { title, body, draft } ==> {
            &&& a.input_mode == InputMode::CreatingPullRequest
            &&& event matches Event::Key(key, true) && key.control && key.code == KeyCode::Char('s')
            &&& title.len() > 0
            &&& title == trimmed(a.pr_form.title)
            &&& trimmed(title) == title
            &&& body == a.pr_form.body
            &&& draft == a.pr_form.draft
        },
{
    law_trim_twice(a.pr_form.title);
}

/// While the form is filled in, no key but Esc and Ctrl+S reaches beyond it or
/// asks for anything.
pub proof fn law_filling_in_stays_in_the_form(a: AppView, keys: Seq<Key>)
    requires
        a.input_mode == InputMode::CreatingPullRequest,
        forall|i: int|
            0 <= i < keys.len() ==> (#[trigger] keys[i]).code != KeyCode::Esc && !(keys[i].control
                && keys[i].code == KeyCode::Char('s')),
    ensures
        after_keys(a, keys) == (AppView { pr_form: after_keys(a, keys).pr_form, ..a }),
        ask_for_nothing(a, keys),
    decreases keys.len(),
{
    if keys.len() > 0 {
        let before = keys.drop_last();
        law_filling_in_stays_in_the_form(a, before);
        assert forall|i: int| 0 <= i < keys.len() implies after_keys(a, keys.take(i)).key_step(
            #[trigger] keys[i],
        ).1 is Continue by {
            if i < before.len() {
                assert(before.take(i) =~= keys.take(i));
                assert(before[i] == keys[i]);
            } else {
                assert(keys.take(i) =~= before);
            }
        }
    }
}

/// Leaving the form with Esc creates nothing and changes no filter.
pub proof fn law_form_cancelled(a: AppView, esc: Key)
    requires
        a.input_mode == InputMode::CreatingPullRequest,
        esc.code == KeyCode::Esc,
    ensures
        a.key_step(esc).1 is Continue,
        a.key_step(esc).0.input_mode == InputMode::Normal,
        a.key_step(esc).0.search() == a.search(),
        a.key_step(esc).0.items == a.items,
{
}

/// Opening and copying need a selected item: without one they fail, with one
/// they speak of it.
pub proof fn law_actions_need_an_item(a: AppView)
    requires
        a.wf(),
    ensures
        a.open_action() is Fail == (a.items.len() == 0),
        a.copy_url_action() is Fail == (a.items.len() == 0),
        a.copy_number_action() is Fail == (a.items.len() == 0),
        a.open_action() matches ActionView::OpenBrowser { url, notice } ==> a.selection() matches Some(
            item,
        ) && url == item.url,
        a.copy_url_action() matches ActionView::Copy { text, notice } ==> a.selection() matches Some(
            item,
        ) && text == item.url,
        a.copy_number_action() matches ActionView::Copy { text, notice } ==> a.selection() matches Some(
            item,
        ) && text == decimal(item.number as nat),
{
}

/// Outside of the editors Enter and `o` open the selected item, `<` and the
/// shifted or commanded comma copy its address, and `>` and the shifted or
/// commanded full stop copy its number.
pub proof fn law_open_and_copy_keys(a: AppView, key: Key)
    requires
        a.input_mode == InputMode::Normal,
    ensures
        key.code == KeyCode::Enter || key.code == KeyCode::Char('o') ==> a.key_step(key) == (
            a,
            a.open_action(),
        ),
        key.code == KeyCode::Char('<') || key.code == KeyCode::Char(',') && (key.shift
            || key.command) ==> a.key_step(key) == (a, a.copy_url_action()),
        key.code == KeyCode::Char('>') || key.code == KeyCode::Char('.') && (key.shift
            || key.command) ==> a.key_step(key) == (a, a.copy_number_action()),
{
}

/// Whether two keys are bound to the same: `j` and Down, `k` and Up, `g` and
/// Home, `G` and End, `e` and `/`.
pub open spec fn synonyms(one: KeyCode, other: KeyCode) -> bool {
    ||| one == KeyCode::Char('j') && other == KeyCode::Down
    ||| one == KeyCode::Char('k') && other == KeyCode::Up
    ||| one == KeyCode::Char('g') && other == KeyCode::Home
    ||| one == KeyCode::Char('G') && other == KeyCode::End
    ||| one == KeyCode::Char('e') && other == KeyCode::Char('/')
}

/// Outside of the editors, keys that are bound to the same do the same.
pub proof fn law_key_synonyms(a: AppView, one: Key, other: Key)
    requires
        a.input_mode == InputMode::Normal,
        synonyms(one.code, other.code),
    ensures
        a.key_step(one) == a.key_step(other),
{
}

} // verus!
