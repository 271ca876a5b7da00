//! Laws of the mathematical values that stand for what the library holds: none
//! leaves anything out.

use vstd::prelude::*;

use crate::app::{response_views, Action, App, FetchRequest, FetchResponse};
use crate::cli::cli_view;
use crate::draw::{optional_lines, optional_scene};
use crate::form::PullRequestForm;
use crate::github::{fetched_view, outcome_view};
use crate::graphql::{logins, messages, GraphqlActor, GraphqlError};
use crate::item::{item_views, optional_text, GithubItem};
use crate::markdown::{
    event_views, EventView, Inline, InlineView, MdEvent, StartTag, StartTagView,
};
use crate::model::ActionView;
use crate::plan::ScreenPlan;
use crate::render::MarkdownRenderer;
use crate::screen::{
    entry_views, placed_views, Block, Content, ContentView, List, Paragraph, Placed, Scene, Tabs,
    Widget, WidgetView,
};
use crate::style::{line_views, span_views, Line, LineView, Span};
use crate::text::texts;

verus! {

/// A list of values stands for as many, in the same order.
pub proof fn law_lists_keep_everything(
    strings: Seq<String>,
    spans: Seq<Span>,
    lines: Seq<Line>,
    entries: Seq<Vec<Line>>,
    placed: Seq<Placed>,
    items: Seq<GithubItem>,
    events: Seq<MdEvent>,
    responses: Seq<FetchResponse>,
    i: int,
)
    ensures
        texts(strings).len() == strings.len(),
        span_views(spans).len() == spans.len(),
        line_views(lines).len() == lines.len(),
        entry_views(entries).len() == entries.len(),
        placed_views(placed).len() == placed.len(),
        item_views(items).len() == items.len(),
        event_views(events).len() == events.len(),
        response_views(responses).len() == responses.len(),
        0 <= i < strings.len() ==> texts(strings)[i] == strings[i]@,
        0 <= i < spans.len() ==> span_views(spans)[i] == spans[i]@,
        0 <= i < lines.len() ==> line_views(lines)[i] == lines[i]@,
        0 <= i < entries.len() ==> entry_views(entries)[i] == line_views(entries[i]@),
        0 <= i < placed.len() ==> placed_views(placed)[i] == placed[i]@,
        0 <= i < items.len() ==> item_views(items)[i] == items[i]@,
        0 <= i < events.len() ==> event_views(events)[i] == events[i]@,
        0 <= i < responses.len() ==> response_views(responses)[i] == responses[i]@,
{
}

/// The logins and the messages of a reply, one for each, in the same order.
pub proof fn law_reply_lists_keep_everything(
    actors: Seq<GraphqlActor>,
    errors: Seq<GraphqlError>,
    i: int,
)
    ensures
        logins(actors).len() == actors.len(),
        messages(errors).len() == errors.len(),
        0 <= i < actors.len() ==> logins(actors)[i] == actors[i].login@,
        0 <= i < errors.len() ==> messages(errors)[i] == errors[i].message@,
{
}

/// A result or an option stands for the same case with the same content.
pub proof fn law_cases_keep_their_content(
    items: Vec<GithubItem>,
    text: String,
    lines: Vec<Line>,
    scene: Scene,
)
    ensures
        fetched_view(Ok(items)) == Ok::<Seq<crate::item::ItemView>, Seq<char>>(item_views(items@)),
        fetched_view(Err(text)) == Err::<Seq<crate::item::ItemView>, Seq<char>>(text@),
        outcome_view(Ok(text)) == Ok::<Seq<char>, Seq<char>>(text@),
        outcome_view(Err(text)) == Err::<Seq<char>, Seq<char>>(text@),
        cli_view(Ok(Some(text))) == Ok::<Option<Seq<char>>, Seq<char>>(Some(text@)),
        cli_view(Ok(None)) == Ok::<Option<Seq<char>>, Seq<char>>(None),
        cli_view(Err(text)) == Err::<Option<Seq<char>>, Seq<char>>(text@),
        optional_text(Some(text)) == Some(text@),
        optional_text(None) is None,
        optional_lines(Some(lines)) == Some(line_views(lines@)),
        optional_lines(None) is None,
        optional_scene(Some(scene)) == Some(scene@),
        optional_scene(None) is None,
{
}

/// The state of the workbench, field by field.
pub proof fn law_state_keeps_everything(app: App)
    ensures
        app@.category == app.category,
        app@.state_filter == app.state_filter,
        app@.organization == app.organization@,
        app@.query == app.query@,
        app@.organization_buffer == app.organization_buffer@,
        app@.query_buffer == app.query_buffer@,
        app@.input_mode == app.input_mode,
        app@.pr_form == app.pr_form@,
        app@.request_id == app.request_id,
        app@.active_request_id == app.active_request_id,
        app@.loading == app.loading,
        app@.items == item_views(app.items@),
        app@.selected == app.selected,
        app@.preview_scroll == app.preview_scroll,
        app@.preview_rect == app.preview_rect,
        app@.status == app.status@,
        app@.last_query == app.last_query@,
{
}

/// Items, requests, replies and the form, field by field.
pub proof fn law_records_keep_everything(
    item: GithubItem,
    request: FetchRequest,
    response: FetchResponse,
    form: PullRequestForm,
)
    ensures
        item@.kind == item.kind && item@.number == item.number,
        item@.title == item.title@ && item@.url == item.url@,
        item@.state == item.state@ && item@.repo == item.repo@,
        item@.body == item.body@ && item@.author == item.author@,
        item@.assignees == texts(item.assignees@),
        item@.created_at == item.created_at@ && item@.updated_at == item.updated_at@,
        item@.closed_at == optional_text(item.closed_at),
        item@.is_draft == item.is_draft,
        request@.id == request.id && request@.query == request.query@,
        response@.id == response.id && response@.query == response.query@,
        response@.result == fetched_view(response.result),
        form@.title == form.title@ && form@.body == form.body@,
        form@.draft == form.draft && form@.field == form.field,
{
}

/// Each action stands for itself, with its texts.
pub proof fn law_actions_keep_everything(action: Action)
    ensures
        match action {
            Action::Continue => action@ == ActionView::Continue,
            Action::Quit => action@ == ActionView::Quit,
            Action::Fetch(request) => action@ == ActionView::Fetch(request@),
            Action::OpenBrowser { url, notice } => action@ == (ActionView::OpenBrowser {
                url: url@,
                notice: notice@,
            }),
            Action::Copy { text, notice } => action@ == (ActionView::Copy {
                text: text@,
                notice: notice@,
            }),
            Action::CreatePullRequest { title, body, draft } => action@ == (
            ActionView::CreatePullRequest { title: title@, body: body@, draft }),
            Action::Fail(message) => action@ == ActionView::Fail(message@),
        },
{
}

/// Styled text and a rendering, field by field.
pub proof fn law_text_keeps_everything(
    span: Span,
    content: String,
    style: crate::style::Style,
    spans: Vec<Span>,
    r: MarkdownRenderer,
)
    ensures
        span@.content == span.content@ && span@.style == span.style,
        Line::Styled(content, style)@ == LineView::Styled(content@, style),
        Line::Spans(spans)@ == LineView::Spans(span_views(spans@)),
        r@.lines == line_views(r.lines@),
        r@.current == span_views(r.current@),
        r@.style_stack == r.style_stack@,
        r@.list_stack == r.list_stack@,
        r@.blockquote_depth == r.blockquote_depth,
        r@.code_block == r.code_block,
        r@.pending_link == optional_text(r.pending_link),
{
}

/// The events of a document, one by one.
pub proof fn law_events_keep_everything(
    tag: StartTag,
    inline: Inline,
    end: crate::markdown::EndTag,
    text: String,
    level: u8,
    start: Option<u64>,
)
    ensures
        MdEvent::Start(tag)@ == EventView::Start(tag@),
        MdEvent::End(end)@ == EventView::End(end),
        MdEvent::Inline(inline)@ == EventView::Inline(inline@),
        Inline::Text(text)@ == InlineView::Text(text@),
        Inline::Code(text)@ == InlineView::Code(text@),
        Inline::SoftBreak@ == InlineView::SoftBreak,
        Inline::HardBreak@ == InlineView::HardBreak,
        Inline::Rule@ == InlineView::Rule,
        Inline::Other@ == InlineView::Other,
        StartTag::Heading(level)@ == StartTagView::Heading(level),
        StartTag::Emphasis@ == StartTagView::Emphasis,
        StartTag::Strong@ == StartTagView::Strong,
        StartTag::Strikethrough@ == StartTagView::Strikethrough,
        StartTag::BlockQuote@ == StartTagView::BlockQuote,
        StartTag::CodeBlock(Some(text))@ == StartTagView::CodeBlock(Some(text@)),
        StartTag::CodeBlock(None)@ == StartTagView::CodeBlock(None),
        StartTag::List(start)@ == StartTagView::List(start),
        StartTag::Item@ == StartTagView::Item,
        StartTag::Link(text)@ == StartTagView::Link(text@),
        StartTag::Other@ == StartTagView::Other,
{
}

/// The parts of a screen, field by field.
pub proof fn law_screen_keeps_everything(
    block: Block,
    paragraph: Paragraph,
    tabs: Tabs,
    list: List,
    placed: Placed,
    scene: Scene,
    plan: ScreenPlan,
)
    ensures
        block@.title == block.title@ && block@.title_centered == block.title_centered,
        block@.borders == block.borders && block@.border_set == block.border_set,
        block@.style == block.style && block@.border_style == block.border_style,
        block@.padding == block.padding,
        paragraph@.content == paragraph.content@ && paragraph@.style == paragraph.style,
        paragraph@.wrap == paragraph.wrap && paragraph@.scroll == paragraph.scroll,
        paragraph.block matches Some(frame) ==> paragraph@.block == Some(frame@),
        paragraph.block is None ==> paragraph@.block is None,
        tabs@.titles == line_views(tabs.titles@) && tabs@.selected == tabs.selected,
        tabs@.block == tabs.block@ && tabs@.style == tabs.style,
        tabs@.highlight_style == tabs.highlight_style && tabs@.divider == tabs.divider@,
        list@.items == entry_views(list.items@) && list@.selected == list.selected,
        list@.block == list.block@ && list@.highlight_style == list.highlight_style,
        list@.highlight_symbol == list.highlight_symbol@,
        placed@.widget == placed.widget@ && placed@.area == placed.area,
        scene@.widgets == placed_views(scene.widgets@) && scene@.cursor == scene.cursor,
        Widget::Clear@ == WidgetView::Clear,
        Widget::Block(block)@ == WidgetView::Block(block@),
        Widget::Paragraph(paragraph)@ == WidgetView::Paragraph(paragraph@),
        Widget::Tabs(tabs)@ == WidgetView::Tabs(tabs@),
        Widget::List(list)@ == WidgetView::List(list@),
        plan@.rows == plan.rows@ && plan@.filters == plan.filters@,
        plan@.scopes == plan.scopes@ && plan@.panes == plan.panes@,
        plan@.popup == plan.popup && plan@.popup_rows == plan.popup_rows@,
{
}

/// The text of a paragraph is the string, or the lines, that it holds.
pub proof fn law_contents_keep_everything(text: String, lines: Vec<Line>)
    ensures
        Content::Raw(text)@ == ContentView::Raw(text@),
        Content::Lines(lines)@ == ContentView::Lines(line_views(lines@)),
{
}

} // verus!
