//! What the screen shows for a state.

use vstd::prelude::*;

use crate::app::App;
use crate::category::{Category, StateFilter};
use crate::form::{FormView, PrFormField, PullRequestForm};
use crate::geometry::{Position, Rect};
use crate::item::{item_views, padded, GithubItem, ItemView};
use crate::model::{AppView, InputMode};
use crate::plan::{content_height, dialog_rows, plan_screen, PlanView, ScreenPlan};
use crate::screen::{
    bare_block, block_at, clear_at, entry_views, framed_paragraph, paragraph_at, placed_views,
    plain_paragraph, titled_block, Block, BlockView, BorderSet, Borders, Content, ContentView,
    List, ListView, Paragraph, ParagraphView, Placed, PlacedView, Scene, SceneView, Tabs, TabsView,
    Widget, WidgetView,
};
use crate::style::{
    line_views, raw_span, span_views, styled_span, Color, Line, LineView, Span, SpanView, Style,
};
use crate::text::{cursor_for_multiline, decimal, end_position, push_decimal, uppercase};

verus! {

/// The keys, as the last line of the screen lists them.
pub const HELP_TEXT: &'static str =
    "Tab/Shift+Tab:カテゴリ  j/k,↑/↓:移動  n:PR作成  e:クエリ編集  a:organization  s:状態切替  r:更新  Enter/o:ブラウザ  </>:コピー  Esc/Ctrl+C/Cmd+W/q:終了";

/// The border of a frame.
#[verifier::allow_in_spec]
pub fn frame_style() -> Style
    returns
        Style::plain().with_fg(Color::Rgb(70, 88, 128)),
{
    Style::plain().with_fg(Color::Rgb(70, 88, 128))
}

/// The look of the tabs' frame and of dialogs.
#[verifier::allow_in_spec]
pub fn panel_style() -> Style
    returns
        Style::plain().with_fg(Color::Rgb(181, 201, 255)).with_bg(Color::Rgb(18, 24, 38)),
{
    Style::plain().with_fg(Color::Rgb(181, 201, 255)).with_bg(Color::Rgb(18, 24, 38))
}

/// The look of a hint.
#[verifier::allow_in_spec]
pub fn hint_style() -> Style
    returns
        Style::plain().with_fg(Color::DarkGray),
{
    Style::plain().with_fg(Color::DarkGray)
}

/// The look of a choice: filled if it is the one taken.
#[verifier::allow_in_spec]
pub fn chip_style(active: bool, color: Color) -> Style
    returns
        (if active {
            Style::plain().with_fg(Color::Black).with_bg(color).in_bold()
        } else {
            Style::plain().with_fg(color).with_bg(Color::Rgb(22, 28, 44))
        }),
{
    if active {
        Style::plain().with_fg(Color::Black).with_bg(color).in_bold()
    } else {
        Style::plain().with_fg(color).with_bg(Color::Rgb(22, 28, 44))
    }
}

/// The border of a field of the form.
#[verifier::allow_in_spec]
pub fn active_border_style(active: bool) -> Style
    returns
        (if active {
            Style::plain().with_fg(Color::Cyan)
        } else {
            frame_style()
        }),
{
    if active {
        Style::plain().with_fg(Color::Cyan)
    } else {
        frame_style()
    }
}

/// The text of a field of the form.
#[verifier::allow_in_spec]
pub fn active_field_style(active: bool) -> Style
    returns
        (if active {
            Style::plain().with_fg(Color::White).with_bg(Color::Rgb(30, 42, 66))
        } else {
            Style::plain().with_fg(Color::White)
        }),
{
    if active {
        Style::plain().with_fg(Color::White).with_bg(Color::Rgb(30, 42, 66))
    } else {
        Style::plain().with_fg(Color::White)
    }
}

/// A choice.
pub open spec fn chip_view(label: Seq<char>, active: bool, color: Color) -> SpanView {
    styled_span(" "@ + label + " "@, chip_style(active, color))
}

/// A choice.
pub fn chip(label: &str, active: bool, color: Color) -> (r: Span)
    ensures
        r@ == chip_view(label@, active, color),
{
    Span::styled(padded(label), chip_style(active, color))
}

/// The tabs, with the category's highlighted.
pub open spec fn tabs_view(category: Category, area: Rect) -> PlacedView {
    PlacedView {
        widget: WidgetView::Tabs(
            TabsView {
                titles: Category::order().map_values(
                    |c: Category| LineView::Styled(" "@ + c.label() + " "@, Style::plain()),
                ),
                selected: category.place() as nat,
                block: BlockView {
                    title_centered: true,
                    border_set: BorderSet::Thick,
                    style: panel_style(),
                    ..titled_block(" GitHub Workbench "@, Style::plain())
                },
                style: Style::plain().with_fg(Color::Gray),
                highlight_style: Style::plain().with_fg(Color::Black).with_bg(
                    Color::Rgb(108, 233, 255),
                ).in_bold(),
                divider: " "@,
            },
        ),
        area,
    }
}

/// Draws the tabs.
pub fn draw_tabs(area: Rect, category: Category) -> (r: Placed)
    ensures
        r@ == tabs_view(category, area),
{
    let all = Category::all();
    let mut titles: Vec<Line> = Vec::new();
    let ghost wanted = tabs_view(category, area).widget->Tabs_0.titles;
    let mut i: usize = 0;
    while i < all.len()
        invariant
            i <= all.len(),
            all@ == Category::order(),
            wanted == Category::order().map_values(
                |c: Category| LineView::Styled(" "@ + c.label() + " "@, Style::plain()),
            ),
            titles.len() == i,
            forall|k: int| 0 <= k < i ==> (#[trigger] titles@[k])@ == wanted[k],
        decreases all.len() - i,
    {
        let title = padded(all[i].title());
        titles.push(Line::raw(title.as_str()));
        i += 1;
    }
    assert(line_views(titles@) =~= wanted);
    let mut block = Block::titled(" GitHub Workbench ", Style::plain());
    block.title_centered = true;
    block.border_set = BorderSet::Thick;
    block.style = panel_style();
    let tabs = Tabs {
        titles,
        selected: category.position(),
        block,
        style: Style::plain().with_fg(Color::Gray),
        highlight_style: Style::plain().with_fg(Color::Black).with_bg(
            Color::Rgb(108, 233, 255),
        ).in_bold(),
        divider: " ".to_string(),
    };
    Placed { widget: Widget::Tabs(tabs), area }
}

/// The choice of a state.
pub open spec fn state_line(filter: StateFilter) -> LineView {
    LineView::Spans(
        seq![
            chip_view("Open"@, filter == StateFilter::Open, Color::Green),
            raw_span(" "@),
            chip_view("Closed"@, filter == StateFilter::Closed, Color::Yellow),
            raw_span(" "@),
            chip_view("All"@, filter == StateFilter::All, Color::Cyan),
        ],
    )
}

/// The choice of a state, and the query.
pub open spec fn filters_view(
    filter: StateFilter,
    query: Seq<char>,
    places: Seq<Rect>,
) -> Seq<PlacedView> {
    seq![
        paragraph_at(
            places[0],
            framed_paragraph(
                ContentView::Lines(seq![state_line(filter)]),
                titled_block(" State "@, frame_style()),
            ),
        ),
        paragraph_at(
            places[1],
            framed_paragraph(
                ContentView::Raw(query),
                titled_block(" Filter Query (`e` で編集) "@, frame_style()),
            ),
        ),
    ]
}

/// Draws the choice of a state, and the query.
pub fn draw_filters(places: &Vec<Rect>, filter: StateFilter, query: &str) -> (r: Vec<Placed>)
    requires
        places@.len() == 2,
    ensures
        placed_views(r@) == filters_view(filter, query@, places@),
{
    let spans = vec![
        chip("Open", filter == StateFilter::Open, Color::Green),
        Span::raw(" "),
        chip("Closed", filter == StateFilter::Closed, Color::Yellow),
        Span::raw(" "),
        chip("All", filter == StateFilter::All, Color::Cyan),
    ];
    assert(span_views(spans@) =~= state_line(filter)->Spans_0);
    let lines = vec![Line::Spans(spans)];
    assert(line_views(lines@) =~= seq![state_line(filter)]);
    let r = vec![
        Placed::paragraph(
            places[0],
            Paragraph::framed(Content::Lines(lines), Block::titled(" State ", frame_style())),
        ),
        Placed::paragraph(
            places[1],
            Paragraph::framed(
                Content::Raw(query.to_string()),
                Block::titled(" Filter Query (`e` で編集) ", frame_style()),
            ),
        ),
    ];
    assert(placed_views(r@) =~= filters_view(filter, query@, places@));
    r
}

/// The organization, and the search that is in effect.
pub open spec fn scope_view(
    organization: Seq<char>,
    search: Seq<char>,
    places: Seq<Rect>,
) -> Seq<PlacedView> {
    seq![
        paragraph_at(
            places[0],
            framed_paragraph(
                ContentView::Raw(
                    if organization.len() == 0 {
                        "All organizations"@
                    } else {
                        "org:"@ + organization
                    },
                ),
                titled_block(" Organization (`a` で編集) "@, frame_style()),
            ),
        ),
        paragraph_at(
            places[1],
            framed_paragraph(
                ContentView::Raw(search),
                titled_block(" Effective Search "@, frame_style()),
            ),
        ),
    ]
}

/// Draws the organization, and the search that is in effect.
pub fn draw_scope(places: &Vec<Rect>, organization: &str, search: &str) -> (r: Vec<Placed>)
    requires
        places@.len() == 2,
    ensures
        placed_views(r@) == scope_view(organization@, search@, places@),
{
    let scope = if organization.is_empty() {
        "All organizations".to_string()
    } else {
        "org:".to_string().concat(organization)
    };
    let r = vec![
        Placed::paragraph(
            places[0],
            Paragraph::framed(
                Content::Raw(scope),
                Block::titled(" Organization (`a` で編集) ", frame_style()),
            ),
        ),
        Placed::paragraph(
            places[1],
            Paragraph::framed(
                Content::Raw(search.to_string()),
                Block::titled(" Effective Search ", frame_style()),
            ),
        ),
    ];
    assert(placed_views(r@) =~= scope_view(organization@, search@, places@));
    r
}

/// An item's entry in the list: its summary, and its repository with the time
/// of its last change.
pub open spec fn entry_view(item: ItemView, summary: LineView) -> Seq<LineView> {
    seq![summary, LineView::Styled(item.repo + "  "@ + item.updated_at, hint_style())]
}

/// An item's entry in the list, given its summary.
pub fn list_entry(item: &GithubItem, summary: Line) -> (r: Vec<Line>)
    ensures
        line_views(r@) == entry_view(item@, summary@),
{
    let place = item.repo.clone().concat("  ").concat(item.updated_at.as_str());
    let r = vec![summary, Line::styled(place.as_str(), hint_style())];
    assert(line_views(r@) =~= entry_view(item@, summary@));
    r
}

/// The entries of the list.
pub open spec fn entries_view(items: Seq<ItemView>) -> Seq<Seq<LineView>> {
    if items.len() == 0 {
        seq![seq![LineView::Styled("項目がありません"@, hint_style())]]
    } else {
        items.map_values(
            |item: ItemView| entry_view(item, item.summary(uppercase(item.state))),
        )
    }
}

fn list_entries(items: &Vec<GithubItem>) -> (r: Vec<Vec<Line>>)
    ensures
        entry_views(r@) == entries_view(item_views(items@)),
{
    let ghost views = item_views(items@);
    let mut entries: Vec<Vec<Line>> = Vec::new();
    if items.is_empty() {
        let notice = vec![Line::styled("項目がありません", hint_style())];
        assert(line_views(notice@) =~= seq![
            LineView::Styled("項目がありません"@, hint_style()),
        ]);
        entries.push(notice);
        assert(entry_views(entries@) =~= entries_view(views));
        return entries;
    }
    let mut i: usize = 0;
    while i < items.len()
        invariant
            i <= items.len(),
            items@.len() > 0,
            views == item_views(items@),
            entries.len() == i,
            forall|k: int|
                0 <= k < i ==> line_views((#[trigger] entries@[k])@) == entries_view(views)[k],
        decreases items.len() - i,
    {
        let summary = items[i].summary_line();
        assert(views[i as int] == items@[i as int]@);
        entries.push(list_entry(&items[i], summary));
        i += 1;
    }
    assert(entry_views(entries@) =~= entries_view(views));
    entries
}

/// The title of the list.
pub open spec fn results_title(count: nat, loading: bool) -> Seq<char> {
    " Results ("@ + decimal(count) + if loading {
        ") • Loading… "@
    } else {
        ") "@
    }
}

/// The list of items.
pub open spec fn list_view(
    entries: Seq<Seq<LineView>>,
    count: nat,
    selected: nat,
    loading: bool,
    area: Rect,
) -> PlacedView {
    PlacedView {
        widget: WidgetView::List(
            ListView {
                items: entries,
                selected,
                block: titled_block(results_title(count, loading), frame_style()),
                highlight_style: Style::plain().with_bg(Color::Rgb(30, 42, 66)).in_bold(),
                highlight_symbol: "▌ "@,
            },
        ),
        area,
    }
}

/// Draws the list, given its entries.
pub fn draw_list(
    area: Rect,
    entries: Vec<Vec<Line>>,
    count: usize,
    selected: usize,
    loading: bool,
) -> (r: Placed)
    ensures
        r@ == list_view(entry_views(entries@), count as nat, selected as nat, loading, area),
{
    let mut title = " Results (".to_string();
    push_decimal(&mut title, count as u64);
    title.append(if loading { ") • Loading… " } else { ") " });
    let list = List {
        items: entries,
        selected,
        block: Block::titled(title.as_str(), frame_style()),
        highlight_style: Style::plain().with_bg(Color::Rgb(30, 42, 66)).in_bold(),
        highlight_symbol: "▌ ".to_string(),
    };
    assert(list@.block.title =~= results_title(count as nat, loading));
    Placed { widget: Widget::List(list), area }
}

/// The preview: the lines of the selected item, scrolled, or a notice.
pub open spec fn preview_view(
    lines: Option<Seq<LineView>>,
    scroll: u16,
    area: Rect,
) -> Seq<PlacedView> {
    let block = titled_block(" Preview "@, frame_style());
    seq![
        clear_at(area),
        paragraph_at(
            area,
            match lines {
                Some(lines) => ParagraphView {
                    content: ContentView::Lines(lines),
                    style: Style::plain(),
                    block: Some(BlockView { padding: 1, ..block }),
                    wrap: true,
                    scroll,
                },
                None => framed_paragraph(
                    ContentView::Raw("選択中の項目はありません"@),
                    block,
                ),
            },
        ),
    ]
}

/// The content of optional lines.
pub open spec fn optional_lines(lines: Option<Vec<Line>>) -> Option<Seq<LineView>> {
    match lines {
        Some(lines) => Some(line_views(lines@)),
        None => None,
    }
}

/// Draws the preview, given its lines.
pub fn draw_preview(area: Rect, lines: Option<Vec<Line>>, scroll: u16) -> (r: Vec<Placed>)
    ensures
        placed_views(r@) == preview_view(optional_lines(lines), scroll, area),
{
    let mut block = Block::titled(" Preview ", frame_style());
    let ghost given = optional_lines(lines);
    let paragraph = match lines {
        Some(lines) => {
            block.padding = 1;
            Paragraph {
                content: Content::Lines(lines),
                style: Style::plain(),
                block: Some(block),
                wrap: true,
                scroll,
            }
        },
        None => Paragraph::framed(Content::Raw("選択中の項目はありません".to_string()), block),
    };
    let r = vec![Placed::clear(area), Placed::paragraph(area, paragraph)];
    assert(placed_views(r@) =~= preview_view(given, scroll, area));
    r
}

/// The list and the preview.
pub open spec fn content_view(app: AppView, places: Seq<Rect>) -> Seq<PlacedView> {
    seq![
        list_view(
            entries_view(app.items),
            app.items.len(),
            app.selected,
            app.loading,
            places[0],
        ),
    ] + preview_view(
        match app.selection() {
            Some(item) => Some(item.preview()),
            None => None,
        },
        app.preview_scroll,
        places[1],
    )
}

/// Draws the list and the preview.
pub fn draw_content(places: &Vec<Rect>, app: &App) -> (r: Vec<Placed>)
    requires
        places@.len() == 2,
    ensures
        placed_views(r@) == content_view(app@, places@),
{
    let entries = list_entries(&app.items);
    let list = draw_list(places[0], entries, app.items.len(), app.selected, app.loading);
    let lines = match app.selected_item() {
        Some(item) => Some(item.preview_text()),
        None => None,
    };
    let mut preview = draw_preview(places[1], lines, app.preview_scroll);
    let ghost rest = preview@;
    let mut r = vec![list];
    r.append(&mut preview);
    assert(placed_views(r@) =~= seq![list@] + placed_views(rest));
    r
}

/// The status, and the keys.
pub open spec fn status_view(
    status: Seq<char>,
    search: Seq<char>,
    loading: bool,
    area: Rect,
) -> PlacedView {
    let text = if loading {
        status + "  query: "@ + search
    } else {
        status
    };
    paragraph_at(
        area,
        framed_paragraph(
            ContentView::Lines(
                seq![
                    LineView::Spans(
                        seq![
                            styled_span(
                                "STATUS "@,
                                Style::plain().with_fg(Color::Rgb(108, 233, 255)),
                            ),
                            raw_span(text),
                        ],
                    ),
                    LineView::Styled(HELP_TEXT@, hint_style()),
                ],
            ),
            BlockView { borders: Borders::Top, border_style: frame_style(), ..bare_block() },
        ),
    )
}

/// Draws the status, and the keys.
pub fn draw_status(area: Rect, status: &str, search: &str, loading: bool) -> (r: Placed)
    ensures
        r@ == status_view(status@, search@, loading, area),
{
    let text = if loading {
        status.to_string().concat("  query: ").concat(search)
    } else {
        status.to_string()
    };
    let spans = vec![
        Span::styled(
            "STATUS ".to_string(),
            Style::plain().with_fg(Color::Rgb(108, 233, 255)),
        ),
        Span::raw(text.as_str()),
    ];
    let ghost wanted = status_view(
        status@,
        search@,
        loading,
        area,
    ).widget->Paragraph_0.content->Lines_0;
    assert(span_views(spans@) =~= wanted[0]->Spans_0);
    let lines = vec![Line::Spans(spans), Line::styled(HELP_TEXT, hint_style())];
    assert(line_views(lines@) =~= wanted);
    let mut block = Block::bare();
    block.borders = Borders::Top;
    block.border_style = frame_style();
    Placed::paragraph(area, Paragraph::framed(Content::Lines(lines), block))
}

/// The frame of a dialog.
pub open spec fn dialog_block(title: Seq<char>) -> BlockView {
    BlockView {
        border_set: BorderSet::Rounded,
        style: panel_style(),
        ..titled_block(title, Style::plain())
    }
}

fn dialog_frame(title: &str) -> (r: Block)
    ensures
        r@ == dialog_block(title@),
{
    let mut block = Block::titled(title, Style::plain());
    block.border_set = BorderSet::Rounded;
    block.style = panel_style();
    block
}

/// A dialog that edits one line.
pub open spec fn edit_dialog_view(
    title: Seq<char>,
    prompt: Seq<char>,
    buffer: Seq<char>,
    popup: Rect,
    rows: Seq<Rect>,
) -> Seq<PlacedView> {
    seq![
        clear_at(popup),
        block_at(popup, dialog_block(title)),
        paragraph_at(rows[0], plain_paragraph(ContentView::Raw(prompt), Style::plain())),
        paragraph_at(
            rows[1],
            plain_paragraph(ContentView::Raw(buffer), Style::plain().with_fg(Color::White)),
        ),
        paragraph_at(
            rows[2],
            plain_paragraph(ContentView::Raw("Enter:適用  Esc:キャンセル"@), hint_style()),
        ),
    ]
}

fn draw_edit_dialog(
    title: &str,
    prompt: &str,
    buffer: &str,
    popup: Rect,
    rows: &Vec<Rect>,
) -> (r: Vec<Placed>)
    requires
        rows@.len() == 3,
    ensures
        placed_views(r@) == edit_dialog_view(title@, prompt@, buffer@, popup, rows@),
{
    let r = vec![
        Placed::clear(popup),
        Placed::block(popup, dialog_frame(title)),
        Placed::paragraph(
            rows[0],
            Paragraph::plain(Content::Raw(prompt.to_string()), Style::plain()),
        ),
        Placed::paragraph(
            rows[1],
            Paragraph::plain(
                Content::Raw(buffer.to_string()),
                Style::plain().with_fg(Color::White),
            ),
        ),
        Placed::paragraph(
            rows[2],
            Paragraph::plain(
                Content::Raw("Enter:適用  Esc:キャンセル".to_string()),
                hint_style(),
            ),
        ),
    ];
    assert(placed_views(r@) =~= edit_dialog_view(title@, prompt@, buffer@, popup, rows@));
    r
}

/// The dialog that edits the query.
pub open spec fn query_dialog_view(buffer: Seq<char>, popup: Rect, rows: Seq<Rect>) -> Seq<
    PlacedView,
> {
    edit_dialog_view(
        " Search Query "@,
        "GitHub 検索クエリを追加できます。例: repo:owner/name label:bug sort:updated-desc"@,
        buffer,
        popup,
        rows,
    )
}

/// Draws the dialog that edits the query.
pub fn draw_query_modal(popup: Rect, rows: &Vec<Rect>, buffer: &str) -> (r: Vec<Placed>)
    requires
        rows@.len() == 3,
    ensures
        placed_views(r@) == query_dialog_view(buffer@, popup, rows@),
{
    draw_edit_dialog(
        " Search Query ",
        "GitHub 検索クエリを追加できます。例: repo:owner/name label:bug sort:updated-desc",
        buffer,
        popup,
        rows,
    )
}

/// The dialog that edits the organization.
pub open spec fn organization_dialog_view(buffer: Seq<char>, popup: Rect, rows: Seq<Rect>) -> Seq<
    PlacedView,
> {
    edit_dialog_view(
        " Organization Filter "@,
        "organization 名を入力してください。空欄なら全 organization が対象です。例: matsumoto-ops"@,
        buffer,
        popup,
        rows,
    )
}

/// Draws the dialog that edits the organization.
pub fn draw_organization_modal(popup: Rect, rows: &Vec<Rect>, buffer: &str) -> (r: Vec<Placed>)
    requires
        rows@.len() == 3,
    ensures
        placed_views(r@) == organization_dialog_view(buffer@, popup, rows@),
{
    draw_edit_dialog(
        " Organization Filter ",
        "organization 名を入力してください。空欄なら全 organization が対象です。例: matsumoto-ops",
        buffer,
        popup,
        rows,
    )
}

/// The choice on drafts.
pub open spec fn draft_line(draft: bool) -> LineView {
    LineView::Spans(
        seq![
            raw_span("Draft "@),
            chip_view("ON"@, draft, Color::Yellow),
            raw_span(" "@),
            chip_view("OFF"@, !draft, Color::DarkGray),
        ],
    )
}

/// The dialog that creates a pull request.
pub open spec fn pr_dialog_view(form: FormView, popup: Rect, rows: Seq<Rect>) -> Seq<PlacedView> {
    let on_title = form.field == PrFormField::Title;
    let on_body = form.field == PrFormField::Body;
    let on_draft = form.field == PrFormField::Draft;
    seq![
        clear_at(popup),
        block_at(popup, dialog_block(" Create Pull Request "@)),
        paragraph_at(
            rows[0],
            plain_paragraph(
                ContentView::Raw(
                    "タイトル / 本文 / Draft を編集して Ctrl+S で作成します。Esc でキャンセル。"@,
                ),
                Style::plain(),
            ),
        ),
        paragraph_at(
            rows[1],
            ParagraphView {
                style: active_field_style(on_title),
                ..framed_paragraph(
                    ContentView::Raw(form.title),
                    titled_block(" Title "@, active_border_style(on_title)),
                )
            },
        ),
        paragraph_at(
            rows[2],
            ParagraphView {
                style: active_field_style(on_body),
                wrap: true,
                ..framed_paragraph(
                    ContentView::Raw(form.body),
                    titled_block(" Body "@, active_border_style(on_body)),
                )
            },
        ),
        paragraph_at(
            rows[3],
            framed_paragraph(
                ContentView::Lines(seq![draft_line(form.draft)]),
                titled_block(" Draft "@, active_border_style(on_draft)),
            ),
        ),
        paragraph_at(
            rows[4],
            plain_paragraph(
                ContentView::Raw(
                    "Tab/Shift+Tab:移動  Enter:本文改行またはDraft切替  Space:Draft切替  Ctrl+S:作成"@,
                ),
                hint_style(),
            ),
        ),
    ]
}

/// Draws the dialog that creates a pull request.
pub fn draw_pr_modal(popup: Rect, rows: &Vec<Rect>, form: &PullRequestForm) -> (r: Vec<Placed>)
    requires
        rows@.len() == 6,
    ensures
        placed_views(r@) == pr_dialog_view(form@, popup, rows@),
{
    let on_title = form.field == PrFormField::Title;
    let on_body = form.field == PrFormField::Body;
    let on_draft = form.field == PrFormField::Draft;
    let mut title = Paragraph::framed(
        Content::Raw(form.title.clone()),
        Block::titled(" Title ", active_border_style(on_title)),
    );
    title.style = active_field_style(on_title);
    let mut body = Paragraph::framed(
        Content::Raw(form.body.clone()),
        Block::titled(" Body ", active_border_style(on_body)),
    );
    body.style = active_field_style(on_body);
    body.wrap = true;
    let spans = vec![
        Span::raw("Draft "),
        chip("ON", form.draft, Color::Yellow),
        Span::raw(" "),
        chip("OFF", !form.draft, Color::DarkGray),
    ];
    assert(span_views(spans@) =~= draft_line(form.draft)->Spans_0);
    let choice = vec![Line::Spans(spans)];
    assert(line_views(choice@) =~= seq![draft_line(form.draft)]);
    let draft = Paragraph::framed(
        Content::Lines(choice),
        Block::titled(" Draft ", active_border_style(on_draft)),
    );
    let r = vec![
        Placed::clear(popup),
        Placed::block(popup, dialog_frame(" Create Pull Request ")),
        Placed::paragraph(
            rows[0],
            Paragraph::plain(
                Content::Raw(
                    "タイトル / 本文 / Draft を編集して Ctrl+S で作成します。Esc でキャンセル。".to_string(),
                ),
                Style::plain(),
            ),
        ),
        Placed::paragraph(rows[1], title),
        Placed::paragraph(rows[2], body),
        Placed::paragraph(rows[3], draft),
        Placed::paragraph(
            rows[4],
            Paragraph::plain(
                Content::Raw(
                    "Tab/Shift+Tab:移動  Enter:本文改行またはDraft切替  Space:Draft切替  Ctrl+S:作成".to_string(),
                ),
                hint_style(),
            ),
        ),
    ];
    assert(placed_views(r@) =~= pr_dialog_view(form@, popup, rows@));
    r
}

/// What a count becomes in a coordinate of sixteen bits.
pub open spec fn wrapped(count: nat) -> nat {
    count % 0x1_0000
}

/// The cell that the cursor of a mode stands on: behind the last byte of a line
/// that is edited, or behind the last character of a field of the form.
pub open spec fn cursor_cell(app: AppView, rows: Seq<Rect>) -> Option<(nat, nat)> {
    match app.input_mode {
        InputMode::Normal => None,
        InputMode::EditingQuery => Some(line_cursor(app.query_buffer, rows[1])),
        InputMode::EditingOrganization => Some(line_cursor(app.organization_buffer, rows[1])),
        InputMode::CreatingPullRequest => form_cursor(app.pr_form, rows),
    }
}

/// The cell behind the last byte of a line.
pub open spec fn line_cursor(buffer: Seq<char>, row: Rect) -> (nat, nat) {
    (
        row.x as nat + wrapped(vstd::utf8::encode_utf8(buffer).len()),
        row.y as nat,
    )
}

/// The cell behind the last character of the field that is edited; the choice
/// on drafts shows no cursor.
pub open spec fn form_cursor(form: FormView, rows: Seq<Rect>) -> Option<(nat, nat)> {
    match form.field {
        PrFormField::Title => Some(
            (rows[1].x as nat + 1 + wrapped(form.title.len()), rows[1].y as nat + 1),
        ),
        PrFormField::Body => Some(
            (
                rows[2].x as nat + 1 + wrapped(end_position(form.body).1),
                rows[2].y as nat + 1 + wrapped(end_position(form.body).0),
            ),
        ),
        PrFormField::Draft => None,
    }
}

/// Whether a cell has coordinates of sixteen bits.
pub open spec fn on_grid(cell: Option<(nat, nat)>) -> bool {
    cell matches Some((x, y)) ==> x <= u16::MAX && y <= u16::MAX
}

/// A cell as a position.
pub open spec fn position_of(cell: Option<(nat, nat)>) -> Option<Position> {
    match cell {
        Some((x, y)) => Some(Position { x: x as u16, y: y as u16 }),
        None => None,
    }
}

fn offset(start: u16, by: u16, count: usize) -> (r: Option<u16>)
    ensures
        r is Some == (start + by + wrapped(count as nat) <= u16::MAX),
        r matches Some(x) ==> x == start + by + wrapped(count as nat),
{
    let steps: u16 = (count % 0x1_0000) as u16;
    match start.checked_add(by) {
        Some(first) => first.checked_add(steps),
        None => None,
    }
}

/// The cursor, or `Err` where it has no place on the grid.
pub fn place_cursor(app: &App, rows: &Vec<Rect>) -> (r: Result<Option<Position>, ()>)
    requires
        app@.input_mode != InputMode::Normal ==> rows@.len() == dialog_rows(app@.input_mode).len(),
    ensures
        r is Ok == on_grid(cursor_cell(app@, rows@)),
        r matches Ok(cursor) ==> cursor == position_of(cursor_cell(app@, rows@)),
{
    let (x, y) = match app.input_mode {
        InputMode::Normal => return Ok(None),
        InputMode::EditingQuery => (
            offset(rows[1].x, 0, app.query_buffer.as_str().as_bytes().len()),
            Some(rows[1].y),
        ),
        InputMode::EditingOrganization => (
            offset(rows[1].x, 0, app.organization_buffer.as_str().as_bytes().len()),
            Some(rows[1].y),
        ),
        InputMode::CreatingPullRequest => match app.pr_form.field {
            PrFormField::Title => (
                offset(rows[1].x, 1, app.pr_form.title.as_str().unicode_len()),
                offset(rows[1].y, 1, 0),
            ),
            PrFormField::Body => {
                let (line, col) = cursor_for_multiline(app.pr_form.body.as_str());
                (offset(rows[2].x, 1, col), offset(rows[2].y, 1, line))
            },
            PrFormField::Draft => return Ok(None),
        },
    };
    match (x, y) {
        (Some(x), Some(y)) => Ok(Some(Position { x, y })),
        _ => Err(()),
    }
}

/// The dialog of a mode.
pub open spec fn dialog_view(app: AppView, plan: PlanView) -> Seq<PlacedView> {
    match app.input_mode {
        InputMode::Normal => Seq::empty(),
        InputMode::EditingQuery => query_dialog_view(
            app.query_buffer,
            plan.popup,
            plan.popup_rows,
        ),
        InputMode::EditingOrganization => organization_dialog_view(
            app.organization_buffer,
            plan.popup,
            plan.popup_rows,
        ),
        InputMode::CreatingPullRequest => pr_dialog_view(
            app.pr_form,
            plan.popup,
            plan.popup_rows,
        ),
    }
}

fn draw_dialog(app: &App, plan: &ScreenPlan) -> (r: Vec<Placed>)
    requires
        plan@.complete(app@.input_mode),
    ensures
        placed_views(r@) == dialog_view(app@, plan@),
{
    match app.input_mode {
        InputMode::Normal => {
            let none: Vec<Placed> = Vec::new();
            assert(placed_views(none@) =~= Seq::empty());
            none
        },
        InputMode::EditingQuery => draw_query_modal(
            plan.popup,
            &plan.popup_rows,
            app.query_buffer.as_str(),
        ),
        InputMode::EditingOrganization => draw_organization_modal(
            plan.popup,
            &plan.popup_rows,
            app.organization_buffer.as_str(),
        ),
        InputMode::CreatingPullRequest => draw_pr_modal(
            plan.popup,
            &plan.popup_rows,
            &app.pr_form,
        ),
    }
}

/// Everything on the screen: the background, the tabs, the filters, the scope,
/// the list and the preview, the status, and the dialog on top.
pub open spec fn scene_of(app: AppView, area: Rect, plan: PlanView) -> SceneView {
    SceneView {
        widgets: seq![
            block_at(
                area,
                BlockView {
                    style: Style::plain().with_bg(Color::Rgb(10, 14, 24)),
                    ..bare_block()
                },
            ),
            tabs_view(app.category, plan.rows[0]),
        ] + filters_view(app.state_filter, app.query, plan.filters) + scope_view(
            app.organization,
            app.last_query,
            plan.scopes,
        ) + content_view(app, plan.panes) + seq![
            status_view(app.status, app.last_query, app.loading, plan.rows[4]),
        ] + dialog_view(app, plan),
        cursor: position_of(cursor_cell(app, plan.popup_rows)),
    }
}

fn append_all(widgets: &mut Vec<Placed>, more: Vec<Placed>)
    ensures
        placed_views(final(widgets)@) == placed_views(old(widgets)@) + placed_views(more@),
{
    let mut more = more;
    let ghost rest = more@;
    widgets.append(&mut more);
    assert(placed_views(widgets@) =~= placed_views(old(widgets)@) + placed_views(rest));
}

/// Fills the places of a plan; `None` where the cursor has no place on the grid.
pub fn compose(app: &App, area: Rect, plan: &ScreenPlan) -> (r: Option<Scene>)
    requires
        plan@.complete(app@.input_mode),
    ensures
        r is Some == on_grid(cursor_cell(app@, plan@.popup_rows)),
        r matches Some(scene) ==> scene@ == scene_of(app@, area, plan@),
{
    let cursor = match place_cursor(app, &plan.popup_rows) {
        Ok(cursor) => cursor,
        Err(()) => return None,
    };
    let mut background = Block::bare();
    background.style = Style::plain().with_bg(Color::Rgb(10, 14, 24));
    let mut widgets = vec![
        Placed::block(area, background),
        draw_tabs(plan.rows[0], app.category),
    ];
    let ghost first = placed_views(widgets@);
    assert(first =~= seq![
        block_at(
            area,
            BlockView { style: Style::plain().with_bg(Color::Rgb(10, 14, 24)), ..bare_block() },
        ),
        tabs_view(app@.category, plan@.rows[0]),
    ]);
    append_all(
        &mut widgets,
        draw_filters(&plan.filters, app.state_filter, app.query.as_str()),
    );
    append_all(
        &mut widgets,
        draw_scope(&plan.scopes, app.organization.as_str(), app.last_query.as_str()),
    );
    append_all(&mut widgets, draw_content(&plan.panes, app));
    let status = vec![
        draw_status(
            plan.rows[4],
            app.status.as_str(),
            app.last_query.as_str(),
            app.loading,
        ),
    ];
    assert(placed_views(status@) =~= seq![
        status_view(app@.status, app@.last_query, app@.loading, plan@.rows[4]),
    ]);
    append_all(&mut widgets, status);
    append_all(&mut widgets, draw_dialog(app, plan));
    Some(Scene { widgets, cursor })
}

/// Whether drawing a state on `area` may go by `plan`, leave the state `after`
/// and come out as `scene`. The place of the preview is kept for the mouse.
pub open spec fn may_draw(
    before: AppView,
    area: Rect,
    plan: PlanView,
    after: AppView,
    scene: Option<SceneView>,
) -> bool {
    &&& plan.may_divide(area, before.input_mode)
    &&& after == AppView { preview_rect: plan.panes[1], ..before }
    &&& scene is Some == on_grid(cursor_cell(before, plan.popup_rows))
    &&& scene matches Some(shown) ==> shown == scene_of(before, area, plan)
}

/// The content of an optional screen.
pub open spec fn optional_scene(scene: Option<Scene>) -> Option<SceneView> {
    match scene {
        Some(scene) => Some(scene@),
        None => None,
    }
}

/// Draws a state on `area`; `None` where the cursor has no place on the grid.
pub fn draw(app: &mut App, area: Rect) -> (r: Option<Scene>)
    ensures
        exists|plan: PlanView| #[trigger]
            may_draw(old(app)@, area, plan, final(app)@, optional_scene(r)),
        area.holds(final(app)@.preview_rect),
        area.bounded() ==> final(app)@.preview_rect.height == content_height(area.height),
        old(app)@.wf() ==> final(app)@.wf(),
{
    let plan = plan_screen(area, app.input_mode);
    let scene = compose(app, area, &plan);
    app.preview_rect = plan.panes[1];
    assert(may_draw(old(app)@, area, plan@, app@, optional_scene(scene)));
    scene
}

} // verus!
