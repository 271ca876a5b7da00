//! Laws of how items are shown.

use vstd::prelude::*;

use crate::draw::{entries_view, entry_view};
use crate::item::{ItemKind, ItemView};
use crate::markdown::markdown_events;
use crate::render::rendered;
use crate::style::{Color, LineView, SpanView};
use crate::style_laws::{bold_look, look};
use crate::text::{decimal, joined, trimmed, uppercase};
use crate::text_laws::reads;

verus! {

/// A run without a style.
pub open spec fn run(content: Seq<char>) -> SpanView {
    SpanView { content, style: look(None, None) }
}

/// The name of a field.
pub open spec fn name(content: Seq<char>) -> SpanView {
    SpanView { content, style: look(Some(Color::DarkGray), None) }
}

/// The two kinds have the names that they are listed under.
pub proof fn law_kind_names(kind: ItemKind)
    ensures
        kind == ItemKind::PullRequest ==> kind.name() == "PR"@,
        kind == ItemKind::Issue ==> kind.name() == "Issue"@,
{
}

/// The line of an item reads, from left to right: its kind, its number, its title
/// and its state, each as it is and in its own look.
pub proof fn law_summary_reads(item: ItemView, state: Seq<char>)
    ensures
        ({
            let spans = item.summary(state)->Spans_0;
            &&& item.summary(state) is Spans
            &&& spans.len() == 7
            &&& item.kind == ItemKind::PullRequest ==> spans[0].content == " "@ + "PR"@ + " "@
            &&& item.kind == ItemKind::Issue ==> spans[0].content == " "@ + "Issue"@ + " "@
            &&& spans[0].style == bold_look(Some(Color::Black), Some(Color::Cyan))
            &&& spans[1] == run(" "@)
            &&& spans[2].content == "#"@ + decimal(item.number as nat)
            &&& spans[2].style == bold_look(Some(Color::Magenta), None)
            &&& spans[3] == run(" "@)
            &&& spans[4] == run(item.title)
            &&& spans[5] == run(" "@)
            &&& spans[6].content == state + " "@
            &&& spans[6].style == bold_look(
                Some(
                    if reads(item.state, "open"@, "OPEN"@) {
                        Color::Green
                    } else if reads(item.state, "closed"@, "CLOSED"@) || reads(
                        item.state,
                        "merged"@,
                        "MERGED"@,
                    ) {
                        Color::Yellow
                    } else {
                        Color::Cyan
                    },
                ),
                None,
            )
        }),
{
    crate::text_laws::law_state_colors(item.state);
}

/// The lines of a pull request and of an issue always differ.
pub proof fn law_kinds_look_different(one: ItemView, other: ItemView, state: Seq<char>)
    requires
        one.kind != other.kind,
    ensures
        one.summary(state) != other.summary(state),
{
    law_summary_reads(one, state);
    law_summary_reads(other, state);
    reveal_strlit("PR");
    reveal_strlit("Issue");
    let (a, b) = (one.summary(state)->Spans_0[0], other.summary(state)->Spans_0[0]);
    assert((" "@ + "PR"@ + " "@).len() != (" "@ + "Issue"@ + " "@).len());
    assert(a.content.len() != b.content.len());
}

/// Items with different titles have different lines.
pub proof fn law_titles_tell_lines_apart(one: ItemView, other: ItemView, state: Seq<char>)
    requires
        one.title != other.title,
    ensures
        one.summary(state) != other.summary(state),
{
    law_summary_reads(one, state);
    law_summary_reads(other, state);
    assert(one.summary(state)->Spans_0[4] != other.summary(state)->Spans_0[4]);
}

/// The preview names each field of an item and shows its value as it is, then
/// the body.
pub proof fn law_preview_names_the_fields(item: ItemView)
    ensures
        ({
            let lines = item.preview();
            let draft = if item.is_draft {
                "yes"@
            } else {
                "no"@
            };
            let assignees = if item.assignees.len() == 0 {
                "なし"@
            } else {
                joined(item.assignees, ", "@)
            };
            let closed = match item.closed_at {
                Some(at) => at,
                None => "-"@,
            };
            let kind = match item.kind {
                ItemKind::PullRequest => "PR"@,
                ItemKind::Issue => "Issue"@,
            };
            let number = "#"@ + decimal(item.number as nat);
            &&& lines.len() >= 14
            &&& lines[0] == LineView::Styled(item.title, bold_look(Some(Color::White), None))
            &&& lines[1] == LineView::Styled(Seq::empty(), look(None, None))
            &&& lines[2] == LineView::Spans(
                seq![name("種別 "@), run(kind), run("    "@), name("番号 "@), run(number)],
            )
            &&& lines[3] == LineView::Spans(
                seq![
                    name("状態 "@),
                    run(item.state),
                    run("    "@),
                    name("ドラフト "@),
                    run(draft),
                ],
            )
            &&& lines[4] == LineView::Spans(seq![name("Repo "@), run(item.repo)])
            &&& lines[5] == LineView::Spans(seq![name("作成者 "@), run(item.author)])
            &&& lines[6] == LineView::Spans(seq![name("担当者 "@), run(assignees)])
            &&& lines[7] == LineView::Spans(seq![name("作成 "@), run(item.created_at)])
            &&& lines[8] == LineView::Spans(seq![name("更新 "@), run(item.updated_at)])
            &&& lines[9] == LineView::Spans(seq![name("終了 "@), run(closed)])
            &&& lines[10] == LineView::Spans(seq![name("URL  "@), run(item.url)])
            &&& lines[11] == LineView::Styled(Seq::empty(), look(None, None))
            &&& lines[12] == LineView::Styled("Preview"@, bold_look(Some(Color::Cyan), None))
            &&& lines[13] == LineView::Styled(Seq::empty(), look(None, None))
        }),
{
}

/// Behind the fields stands the whole body, rendered, or a notice that there is
/// none.
pub proof fn law_preview_shows_the_body(item: ItemView)
    ensures
        item.preview().skip(14) == rendered(
            markdown_events(
                if trimmed(item.body).len() > 0 {
                    item.body
                } else {
                    "本文なし"@
                },
            ),
        ),
{
    let shown = rendered(markdown_events(item.preview_body()));
    assert(item.preview().skip(14) =~= shown);
}

/// Every item has its entry in the list, at its place: its line, and below it
/// its repository and its last change. An empty list says so.
pub proof fn law_list_entries(items: Seq<ItemView>, i: int)
    requires
        0 <= i < items.len(),
    ensures
        entries_view(items).len() == items.len(),
        entries_view(items)[i].len() == 2,
        entries_view(items)[i][0] == items[i].summary(uppercase(items[i].state)),
        entries_view(items)[i][1] == LineView::Styled(
            items[i].repo + "  "@ + items[i].updated_at,
            look(Some(Color::DarkGray), None),
        ),
        entries_view(items)[i] == entry_view(
            items[i],
            items[i].summary(uppercase(items[i].state)),
        ),
        entries_view(Seq::empty()) == seq![
            seq![LineView::Styled("項目がありません"@, look(Some(Color::DarkGray), None))],
        ],
{
}

} // verus!
