//! Laws of what the screen shows.

use vstd::prelude::*;

use crate::category::{Category, StateFilter};
use crate::draw::{
    content_view, cursor_cell, dialog_view, draft_line, entries_view, filters_view, list_view,
    may_draw, on_grid, organization_dialog_view, position_of, pr_dialog_view, preview_view,
    query_dialog_view, results_title, scene_of, scope_view, state_line, status_view, tabs_view,
    HELP_TEXT,
};
use crate::form::{FormView, PrFormField};
use crate::geometry::{middle_of, Position, Rect};
use crate::item_laws::run;
use crate::model::{AppView, InputMode};
use crate::plan::{dialog_size, PlanView};
use crate::screen::{
    BlockView, BorderSet, Borders, ContentView, ParagraphView, PlacedView, SceneView, WidgetView,
};
use crate::style::{Color, LineView, SpanView, Style};
use crate::style_laws::{bold_look, look};
use crate::text::{decimal, end_position};

verus! {

/// A frame with a border all round.
pub open spec fn frame(title: Seq<char>, border: Style) -> BlockView {
    BlockView {
        title,
        title_centered: false,
        borders: Borders::All,
        border_set: BorderSet::Plain,
        style: look(None, None),
        border_style: border,
        padding: 0,
    }
}

/// The colour of most frames.
pub open spec fn frame_look() -> Style {
    look(Some(Color::Rgb(70, 88, 128)), None)
}

/// The colours of dialogs and of the tabs' frame.
pub open spec fn panel_look() -> Style {
    look(Some(Color::Rgb(181, 201, 255)), Some(Color::Rgb(18, 24, 38)))
}

/// Whether `placed` is a text at a place, in a look and a frame, neither wrapped
/// nor scrolled.
pub open spec fn shows(
    placed: PlacedView,
    area: Rect,
    content: ContentView,
    style: Style,
    block: Option<BlockView>,
) -> bool {
    placed == PlacedView {
        area,
        widget: WidgetView::Paragraph(
            ParagraphView { content, style, block, wrap: false, scroll: 0 },
        ),
    }
}

/// A choice, filled if it is taken.
pub open spec fn choice(label: Seq<char>, taken: bool, color: Color) -> SpanView {
    SpanView {
        content: " "@ + label + " "@,
        style: if taken {
            bold_look(Some(Color::Black), Some(color))
        } else {
            look(Some(color), Some(Color::Rgb(22, 28, 44)))
        },
    }
}

/// The tabs lie in their area, in their order, each with its name between
/// blanks, and the one of the category is highlighted.
pub proof fn law_tabs_shown(category: Category, area: Rect, c: Category)
    ensures
        ({
            let tabs = tabs_view(category, area).widget->Tabs_0;
            &&& tabs_view(category, area).area == area
            &&& tabs_view(category, area).widget is Tabs
            &&& tabs.titles.len() == 4
            &&& tabs.titles[0] == LineView::Styled(" "@ + "作成PR"@ + " "@, look(None, None))
            &&& tabs.titles[1] == LineView::Styled(" "@ + "作成Issue"@ + " "@, look(None, None))
            &&& tabs.titles[2] == LineView::Styled(" "@ + "担当PR"@ + " "@, look(None, None))
            &&& tabs.titles[3] == LineView::Styled(" "@ + "担当Issue"@ + " "@, look(None, None))
            &&& tabs.selected == match category {
                Category::AuthoredPr => 0nat,
                Category::AuthoredIssue => 1,
                Category::AssignedPr => 2,
                Category::AssignedIssue => 3,
            }
            &&& tabs.titles[c.place()] == LineView::Styled(
                " "@ + c.label() + " "@,
                look(None, None),
            )
            &&& tabs.block == BlockView {
                title_centered: true,
                border_set: BorderSet::Thick,
                style: panel_look(),
                ..frame(" GitHub Workbench "@, look(None, None))
            }
            &&& tabs.style == look(Some(Color::Gray), None)
            &&& tabs.highlight_style == bold_look(
                Some(Color::Black),
                Some(Color::Rgb(108, 233, 255)),
            )
            &&& tabs.divider == " "@
        }),
{
}

/// Of the states exactly the one that is searched for is filled, and the query
/// is shown as it is.
pub proof fn law_filters_shown(filter: StateFilter, query: Seq<char>, places: Seq<Rect>)
    ensures
        state_line(filter) == LineView::Spans(
            seq![
                choice("Open"@, filter == StateFilter::Open, Color::Green),
                run(" "@),
                choice("Closed"@, filter == StateFilter::Closed, Color::Yellow),
                run(" "@),
                choice("All"@, filter == StateFilter::All, Color::Cyan),
            ],
        ),
        filters_view(filter, query, places).len() == 2,
        shows(
            filters_view(filter, query, places)[0],
            places[0],
            ContentView::Lines(seq![state_line(filter)]),
            look(None, None),
            Some(frame(" State "@, frame_look())),
        ),
        shows(
            filters_view(filter, query, places)[1],
            places[1],
            ContentView::Raw(query),
            look(None, None),
            Some(frame(" Filter Query (`e` で編集) "@, frame_look())),
        ),
{
}

/// The organization is named, or that it is all of them, and the search in effect
/// is shown as it is.
pub proof fn law_scope_shown(organization: Seq<char>, search: Seq<char>, places: Seq<Rect>)
    ensures
        scope_view(organization, search, places).len() == 2,
        shows(
            scope_view(organization, search, places)[0],
            places[0],
            ContentView::Raw(
                if organization.len() > 0 {
                    "org:"@ + organization
                } else {
                    "All organizations"@
                },
            ),
            look(None, None),
            Some(frame(" Organization (`a` で編集) "@, frame_look())),
        ),
        shows(
            scope_view(organization, search, places)[1],
            places[1],
            ContentView::Raw(search),
            look(None, None),
            Some(frame(" Effective Search "@, frame_look())),
        ),
{
}

/// The list holds the entries it is given, highlights the selected place, and
/// counts the items in its title, which also tells whether a search is on.
pub proof fn law_list_shown(
    entries: Seq<Seq<LineView>>,
    count: nat,
    selected: nat,
    loading: bool,
    area: Rect,
)
    ensures
        ({
            let list = list_view(entries, count, selected, loading, area).widget->List_0;
            &&& list_view(entries, count, selected, loading, area).area == area
            &&& list_view(entries, count, selected, loading, area).widget is List
            &&& list.items == entries
            &&& list.selected == selected
            &&& list.block == frame(results_title(count, loading), frame_look())
            &&& list.highlight_style == bold_look(None, Some(Color::Rgb(30, 42, 66)))
            &&& list.highlight_symbol == "▌ "@
        }),
        results_title(count, true) == " Results ("@ + decimal(count) + ") • Loading… "@,
        results_title(count, false) == " Results ("@ + decimal(count) + ") "@,
{
}

/// The preview wipes its place and shows all lines it is given, wrapped and from
/// the line that it is scrolled to; without lines, a notice.
pub proof fn law_preview_shown(lines: Seq<LineView>, scroll: u16, area: Rect)
    ensures
        preview_view(Some(lines), scroll, area) == seq![
            PlacedView { widget: WidgetView::Clear, area },
            PlacedView {
                area,
                widget: WidgetView::Paragraph(
                    ParagraphView {
                        content: ContentView::Lines(lines),
                        style: look(None, None),
                        block: Some(
                            BlockView { padding: 1, ..frame(" Preview "@, frame_look()) },
                        ),
                        wrap: true,
                        scroll,
                    },
                ),
            },
        ],
        preview_view(None, scroll, area).len() == 2,
        preview_view(None, scroll, area)[0] == (PlacedView { widget: WidgetView::Clear, area }),
        shows(
            preview_view(None, scroll, area)[1],
            area,
            ContentView::Raw("選択中の項目はありません"@),
            look(None, None),
            Some(frame(" Preview "@, frame_look())),
        ),
{
}

/// The content: the list of the state's items on the left, with its selection,
/// and on the right the preview of exactly the selected item, scrolled as the
/// state says.
pub proof fn law_content_shown(app: AppView, places: Seq<Rect>)
    ensures
        content_view(app, places).len() == 3,
        content_view(app, places)[0] == list_view(
            entries_view(app.items),
            app.items.len(),
            app.selected,
            app.loading,
            places[0],
        ),
        app.selected < app.items.len() ==> content_view(app, places).skip(1) == preview_view(
            Some(app.items[app.selected as int].preview()),
            app.preview_scroll,
            places[1],
        ),
        app.selected >= app.items.len() ==> content_view(app, places).skip(1) == preview_view(
            None,
            app.preview_scroll,
            places[1],
        ),
{
    let lines = match app.selection() {
        Some(item) => Some(item.preview()),
        None => None,
    };
    assert(content_view(app, places).skip(1) =~= preview_view(
        lines,
        app.preview_scroll,
        places[1],
    ));
}

/// The status is shown as it is, with the search behind it while one is on, and
/// the keys below.
pub proof fn law_status_shown(status: Seq<char>, search: Seq<char>, loading: bool, area: Rect)
    ensures
        shows(
            status_view(status, search, loading, area),
            area,
            ContentView::Lines(
                seq![
                    LineView::Spans(
                        seq![
                            SpanView {
                                content: "STATUS "@,
                                style: look(Some(Color::Rgb(108, 233, 255)), None),
                            },
                            run(
                                if loading {
                                    status + "  query: "@ + search
                                } else {
                                    status
                                },
                            ),
                        ],
                    ),
                    LineView::Styled(HELP_TEXT@, look(Some(Color::DarkGray), None)),
                ],
            ),
            look(None, None),
            Some(BlockView { borders: Borders::Top, ..frame(Seq::empty(), frame_look()) }),
        ),
{
}

/// The keys that the last line names.
pub proof fn law_help_text()
    ensures
        HELP_TEXT@
            == "Tab/Shift+Tab:カテゴリ  j/k,↑/↓:移動  n:PR作成  e:クエリ編集  a:organization  s:状態切替  r:更新  Enter/o:ブラウザ  </>:コピー  Esc/Ctrl+C/Cmd+W/q:終了"@,
{
}

/// The frame of a dialog.
pub open spec fn panel(title: Seq<char>) -> BlockView {
    BlockView {
        border_set: BorderSet::Rounded,
        style: panel_look(),
        ..frame(title, look(None, None))
    }
}

/// Whether widgets are a dialog that edits one line: it wipes its place, and
/// shows a prompt, what is edited as it is, and the keys.
pub open spec fn edits_a_line(
    widgets: Seq<PlacedView>,
    title: Seq<char>,
    prompt: Seq<char>,
    buffer: Seq<char>,
    popup: Rect,
    rows: Seq<Rect>,
) -> bool {
    &&& widgets.len() == 5
    &&& widgets[0] == PlacedView { widget: WidgetView::Clear, area: popup }
    &&& widgets[1] == PlacedView { widget: WidgetView::Block(panel(title)), area: popup }
    &&& shows(widgets[2], rows[0], ContentView::Raw(prompt), look(None, None), None)
    &&& shows(
        widgets[3],
        rows[1],
        ContentView::Raw(buffer),
        look(Some(Color::White), None),
        None,
    )
    &&& shows(
        widgets[4],
        rows[2],
        ContentView::Raw("Enter:適用  Esc:キャンセル"@),
        look(Some(Color::DarkGray), None),
        None,
    )
}

/// The two editors show what is being edited, each under its own title.
pub proof fn law_editors_shown(buffer: Seq<char>, popup: Rect, rows: Seq<Rect>)
    ensures
        edits_a_line(
            query_dialog_view(buffer, popup, rows),
            " Search Query "@,
            "GitHub 検索クエリを追加できます。例: repo:owner/name label:bug sort:updated-desc"@,
            buffer,
            popup,
            rows,
        ),
        edits_a_line(
            organization_dialog_view(buffer, popup, rows),
            " Organization Filter "@,
            "organization 名を入力してください。空欄なら全 organization が対象です。例: matsumoto-ops"@,
            buffer,
            popup,
            rows,
        ),
{
}

/// The border of a field of the form.
pub open spec fn field_border(at_hand: bool) -> Style {
    if at_hand {
        look(Some(Color::Cyan), None)
    } else {
        frame_look()
    }
}

/// The text of a field of the form.
pub open spec fn field_text(at_hand: bool) -> Style {
    if at_hand {
        look(Some(Color::White), Some(Color::Rgb(30, 42, 66)))
    } else {
        look(Some(Color::White), None)
    }
}

/// The form shows its title, its body and its choice as they are, and exactly the
/// field at hand stands out.
pub proof fn law_form_shown(form: FormView, popup: Rect, rows: Seq<Rect>)
    ensures
        ({
            let widgets = pr_dialog_view(form, popup, rows);
            let on_title = form.field == PrFormField::Title;
            let on_body = form.field == PrFormField::Body;
            let on_draft = form.field == PrFormField::Draft;
            &&& widgets.len() == 7
            &&& widgets[0] == PlacedView { widget: WidgetView::Clear, area: popup }
            &&& widgets[1] == PlacedView {
                widget: WidgetView::Block(panel(" Create Pull Request "@)),
                area: popup,
            }
            &&& shows(
                widgets[2],
                rows[0],
                ContentView::Raw(
                    "タイトル / 本文 / Draft を編集して Ctrl+S で作成します。Esc でキャンセル。"@,
                ),
                look(None, None),
                None,
            )
            &&& shows(
                widgets[3],
                rows[1],
                ContentView::Raw(form.title),
                field_text(on_title),
                Some(frame(" Title "@, field_border(on_title))),
            )
            &&& widgets[4] == PlacedView {
                area: rows[2],
                widget: WidgetView::Paragraph(
                    ParagraphView {
                        content: ContentView::Raw(form.body),
                        style: field_text(on_body),
                        block: Some(frame(" Body "@, field_border(on_body))),
                        wrap: true,
                        scroll: 0,
                    },
                ),
            }
            &&& shows(
                widgets[5],
                rows[3],
                ContentView::Lines(seq![draft_line(form.draft)]),
                look(None, None),
                Some(frame(" Draft "@, field_border(on_draft))),
            )
            &&& shows(
                widgets[6],
                rows[4],
                ContentView::Raw(
                    "Tab/Shift+Tab:移動  Enter:本文改行またはDraft切替  Space:Draft切替  Ctrl+S:作成"@,
                ),
                look(Some(Color::DarkGray), None),
                None,
            )
        }),
        draft_line(form.draft) == LineView::Spans(
            seq![
                run("Draft "@),
                choice("ON"@, form.draft, Color::Yellow),
                run(" "@),
                choice("OFF"@, !form.draft, Color::DarkGray),
            ],
        ),
{
}

/// The mode decides which dialog shows: none, an editor with the text that it
/// edits, or the form.
pub proof fn law_dialog_of_a_mode(app: AppView, plan: PlanView)
    ensures
        app.input_mode == InputMode::Normal ==> dialog_view(app, plan).len() == 0,
        app.input_mode == InputMode::EditingQuery ==> dialog_view(app, plan) == query_dialog_view(
            app.query_buffer,
            plan.popup,
            plan.popup_rows,
        ),
        app.input_mode == InputMode::EditingOrganization ==> dialog_view(app, plan)
            == organization_dialog_view(app.organization_buffer, plan.popup, plan.popup_rows),
        app.input_mode == InputMode::CreatingPullRequest ==> dialog_view(app, plan)
            == pr_dialog_view(app.pr_form, plan.popup, plan.popup_rows),
{
}

/// The screen from back to front: the background, the tabs, the filters, the
/// scope, the list, the preview, the status, and the dialog, each at its place.
pub proof fn law_scene_from_back_to_front(app: AppView, area: Rect, plan: PlanView)
    ensures
        ({
            let widgets = scene_of(app, area, plan).widgets;
            &&& widgets.len() == 10 + dialog_view(app, plan).len()
            &&& widgets[0] == PlacedView {
                area,
                widget: WidgetView::Block(
                    BlockView {
                        borders: Borders::Absent,
                        style: look(None, Some(Color::Rgb(10, 14, 24))),
                        ..frame(Seq::empty(), look(None, None))
                    },
                ),
            }
            &&& widgets[1] == tabs_view(app.category, plan.rows[0])
            &&& widgets[2] == filters_view(app.state_filter, app.query, plan.filters)[0]
            &&& widgets[3] == filters_view(app.state_filter, app.query, plan.filters)[1]
            &&& widgets[4] == scope_view(app.organization, app.last_query, plan.scopes)[0]
            &&& widgets[5] == scope_view(app.organization, app.last_query, plan.scopes)[1]
            &&& widgets[6] == content_view(app, plan.panes)[0]
            &&& widgets[7] == content_view(app, plan.panes)[1]
            &&& widgets[8] == content_view(app, plan.panes)[2]
            &&& widgets[9] == status_view(app.status, app.last_query, app.loading, plan.rows[4])
            &&& widgets.skip(10) == dialog_view(app, plan)
        }),
{
    let widgets = scene_of(app, area, plan).widgets;
    assert(widgets.skip(10) =~= dialog_view(app, plan));
}

/// The cursor shows only while something is edited: behind the last byte of the
/// line that is edited, or behind the last character of the title or the body.
pub proof fn law_cursor_follows_the_text(app: AppView, rows: Seq<Rect>)
    ensures
        app.input_mode == InputMode::Normal ==> cursor_cell(app, rows) is None,
        app.input_mode == InputMode::EditingQuery ==> cursor_cell(app, rows) == Some(
            (
                (rows[1].x + vstd::utf8::encode_utf8(app.query_buffer).len() % 65536) as nat,
                rows[1].y as nat,
            ),
        ),
        app.input_mode == InputMode::EditingOrganization ==> cursor_cell(app, rows) == Some(
            (
                (rows[1].x + vstd::utf8::encode_utf8(app.organization_buffer).len() % 65536) as nat,
                rows[1].y as nat,
            ),
        ),
        app.input_mode == InputMode::CreatingPullRequest ==> match app.pr_form.field {
            PrFormField::Title => cursor_cell(app, rows) == Some(
                (
                    (rows[1].x + 1 + app.pr_form.title.len() % 65536) as nat,
                    (rows[1].y + 1) as nat,
                ),
            ),
            PrFormField::Body => cursor_cell(app, rows) == Some(
                (
                    (rows[2].x + 1 + end_position(app.pr_form.body).1 % 65536) as nat,
                    (rows[2].y + 1 + end_position(app.pr_form.body).0 % 65536) as nat,
                ),
            ),
            PrFormField::Draft => cursor_cell(app, rows) is None,
        },
{
}

/// The cursor is put on the cell that it belongs to, and only a cell with a
/// coordinate above sixteen bits cannot be drawn.
pub proof fn law_cursor_is_put_on_its_cell(app: AppView, area: Rect, plan: PlanView)
    ensures
        ({
            let scene = scene_of(app, area, plan);
            &&& cursor_cell(app, plan.popup_rows) is None ==> scene.cursor is None
            &&& cursor_cell(app, plan.popup_rows) matches Some((x, y)) ==> {
                &&& on_grid(Some((x, y))) == (x < 65536 && y < 65536)
                &&& x < 65536 && y < 65536 ==> scene.cursor == Some(
                    Position { x: x as u16, y: y as u16 },
                )
            }
        }),
        on_grid(None),
        position_of(None) is None,
{
}

/// A drawing fails only where the cursor has no place, keeps the place of the
/// preview for the wheel and changes nothing else.
pub proof fn law_drawing(
    before: AppView,
    area: Rect,
    plan: PlanView,
    after: AppView,
    scene: Option<SceneView>,
)
    requires
        may_draw(before, area, plan, after, scene),
    ensures
        after == (AppView { preview_rect: plan.panes[1], ..before }),
        plan.may_divide(area, before.input_mode),
        scene is None ==> !on_grid(cursor_cell(before, plan.popup_rows)),
        scene matches Some(shown) ==> shown == scene_of(before, area, plan),
        before.input_mode == InputMode::Normal ==> scene is Some,
{
}

/// The sizes of the dialogs: the editors are seven rows high, of 72 and of 60
/// percent of the width, and the form is sixteen rows high, of 72 percent.
pub proof fn law_dialog_sizes()
    ensures
        dialog_size(InputMode::Normal) is None,
        dialog_size(InputMode::EditingQuery) == Some((72u16, 7u16)),
        dialog_size(InputMode::EditingOrganization) == Some((60u16, 7u16)),
        dialog_size(InputMode::CreatingPullRequest) == Some((72u16, 16u16)),
{
}

/// The middle of an area: as many rows as are asked for while one is left above
/// and one below, with margins that differ by a row at most, and as wide as the
/// percentage up to a cell, with margins that differ by a cell at most where the
/// percentage is even.
pub proof fn law_middle(width_percent: u16, height: u16, area: Rect)
    requires
        width_percent <= 100,
        area.bounded(),
        area.height >= 2,
    ensures
        ({
            let middle = middle_of(width_percent, height, area);
            let above = middle.y - area.y;
            let below = area.y + area.height - (middle.y + middle.height);
            let left = middle.x - area.x;
            let right = area.x + area.width - (middle.x + middle.width);
            &&& height + 2 <= area.height ==> middle.height == height
            &&& height + 2 > area.height ==> middle.height == area.height - 2
            &&& above == below || above == below + 1
            &&& above >= 1 && below >= 1
            &&& -100 <= 100 * middle.width - width_percent * area.width <= 100
            &&& width_percent % 2 == 0 ==> -1 <= left - right <= 1
        }),
{
    let side = (100 - width_percent) / 2;
    let (w, p) = (area.width as int, width_percent as int);
    let (l, r) = (w * side, w * (side + p));
    assert(r == l + w * p && 0 <= l && 0 <= w * p) by (nonlinear_arith)
        requires
            l == w * side,
            r == w * (side + p),
            0 <= w,
            0 <= side,
            0 <= p,
    ;
    assert(r <= 100 * w) by (nonlinear_arith)
        requires
            r == w * (side + p),
            0 <= w,
            side + p <= 100,
    ;
    if p % 2 == 0 {
        assert(l + r == 100 * w) by (nonlinear_arith)
            requires
                l == w * side,
                r == w * (side + p),
                2 * side + p == 100,
        ;
    }
    assert(area.width * (side + width_percent) == r);
    assert(width_percent * area.width == w * p) by (nonlinear_arith)
        requires
            w == area.width,
            p == width_percent,
    ;
}

} // verus!
