//! The parts of a screen: what is drawn, and where.

use vstd::prelude::*;

use crate::geometry::{Position, Rect};
use crate::style::{line_views, Line, LineView, Style};

verus! {

/// The characters that a border is drawn with.
#[derive(Debug, Clone, Copy, PartialEq, Eq)]
pub enum BorderSet {
    Plain,
    Thick,
    Rounded,
}

/// The sides that have a border.
#[derive(Debug, Clone, Copy, PartialEq, Eq)]
pub enum Borders {
    Absent,
    Top,
    All,
}

/// A frame: a background, a border and a title.
#[derive(Debug, PartialEq, Eq)]
pub struct Block {
    pub title: String,
    pub title_centered: bool,
    pub borders: Borders,
    pub border_set: BorderSet,
    pub style: Style,
    pub border_style: Style,
    pub padding: u16,
}

/// A frame as a mathematical value.
#[verifier::ext_equal]
pub struct BlockView {
    pub title: Seq<char>,
    pub title_centered: bool,
    pub borders: Borders,
    pub border_set: BorderSet,
    pub style: Style,
    pub border_style: Style,
    pub padding: u16,
}

impl View for Block {
    type V = BlockView;

    open spec fn view(&self) -> BlockView {
        BlockView {
            title: self.title@,
            title_centered: self.title_centered,
            borders: self.borders,
            border_set: self.border_set,
            style: self.style,
            border_style: self.border_style,
            padding: self.padding,
        }
    }
}

/// A frame without border and title.
pub open spec fn bare_block() -> BlockView {
    BlockView {
        title: Seq::empty(),
        title_centered: false,
        borders: Borders::Absent,
        border_set: BorderSet::Plain,
        style: Style::plain(),
        border_style: Style::plain(),
        padding: 0,
    }
}

/// A frame with a border all round and a title.
pub open spec fn titled_block(title: Seq<char>, border_style: Style) -> BlockView {
    BlockView { title, borders: Borders::All, border_style, ..bare_block() }
}

impl Block {
    /// A frame without border and title.
    pub fn bare() -> (r: Block)
        ensures
            r@ == bare_block(),
    {
        Block {
            title: String::new(),
            title_centered: false,
            borders: Borders::Absent,
            border_set: BorderSet::Plain,
            style: Style::plain(),
            border_style: Style::plain(),
            padding: 0,
        }
    }

    /// A frame with a border all round and a title.
    pub fn titled(title: &str, border_style: Style) -> (r: Block)
        ensures
            r@ == titled_block(title@, border_style),
    {
        Block {
            title: title.to_string(),
            title_centered: false,
            borders: Borders::All,
            border_set: BorderSet::Plain,
            style: Style::plain(),
            border_style,
            padding: 0,
        }
    }
}

/// The text of a paragraph: a string that is broken at its newlines, or lines.
#[derive(Debug, PartialEq, Eq)]
pub enum Content {
    Raw(String),
    Lines(Vec<Line>),
}

/// A text as a mathematical value.
#[verifier::ext_equal]
pub enum ContentView {
    Raw(Seq<char>),
    Lines(Seq<LineView>),
}

impl View for Content {
    type V = ContentView;

    open spec fn view(&self) -> ContentView {
        match self {
            Content::Raw(text) => ContentView::Raw(text@),
            Content::Lines(lines) => ContentView::Lines(line_views(lines@)),
        }
    }
}

/// A text in a frame.
#[derive(Debug, PartialEq, Eq)]
pub struct Paragraph {
    pub content: Content,
    pub style: Style,
    pub block: Option<Block>,
    /// Whether long lines go on below.
    pub wrap: bool,
    /// How many lines are scrolled out at the top.
    pub scroll: u16,
}

/// A paragraph as a mathematical value.
#[verifier::ext_equal]
pub struct ParagraphView {
    pub content: ContentView,
    pub style: Style,
    pub block: Option<BlockView>,
    pub wrap: bool,
    pub scroll: u16,
}

impl View for Paragraph {
    type V = ParagraphView;

    open spec fn view(&self) -> ParagraphView {
        ParagraphView {
            content: self.content@,
            style: self.style,
            block: match self.block {
                Some(block) => Some(block@),
                None => None,
            },
            wrap: self.wrap,
            scroll: self.scroll,
        }
    }
}

/// A text by itself.
pub open spec fn plain_paragraph(content: ContentView, style: Style) -> ParagraphView {
    ParagraphView { content, style, block: None, wrap: false, scroll: 0 }
}

/// A text in a frame.
pub open spec fn framed_paragraph(content: ContentView, block: BlockView) -> ParagraphView {
    ParagraphView { content, style: Style::plain(), block: Some(block), wrap: false, scroll: 0 }
}

impl Paragraph {
    /// A text by itself.
    pub fn plain(content: Content, style: Style) -> (r: Paragraph)
        ensures
            r@ == plain_paragraph(content@, style),
    {
        Paragraph { content, style, block: None, wrap: false, scroll: 0 }
    }

    /// A text in a frame.
    pub fn framed(content: Content, block: Block) -> (r: Paragraph)
        ensures
            r@ == framed_paragraph(content@, block@),
    {
        Paragraph { content, style: Style::plain(), block: Some(block), wrap: false, scroll: 0 }
    }
}

/// A row of tabs.
#[derive(Debug, PartialEq, Eq)]
pub struct Tabs {
    pub titles: Vec<Line>,
    pub selected: usize,
    pub block: Block,
    pub style: Style,
    pub highlight_style: Style,
    pub divider: String,
}

/// Tabs as a mathematical value.
#[verifier::ext_equal]
pub struct TabsView {
    pub titles: Seq<LineView>,
    pub selected: nat,
    pub block: BlockView,
    pub style: Style,
    pub highlight_style: Style,
    pub divider: Seq<char>,
}

impl View for Tabs {
    type V = TabsView;

    open spec fn view(&self) -> TabsView {
        TabsView {
            titles: line_views(self.titles@),
            selected: self.selected as nat,
            block: self.block@,
            style: self.style,
            highlight_style: self.highlight_style,
            divider: self.divider@,
        }
    }
}

/// A list with a selected entry.
#[derive(Debug, PartialEq, Eq)]
pub struct List {
    pub items: Vec<Vec<Line>>,
    pub selected: usize,
    pub block: Block,
    pub highlight_style: Style,
    pub highlight_symbol: String,
}

/// A list as a mathematical value.
#[verifier::ext_equal]
pub struct ListView {
    pub items: Seq<Seq<LineView>>,
    pub selected: nat,
    pub block: BlockView,
    pub highlight_style: Style,
    pub highlight_symbol: Seq<char>,
}

/// The contents of the entries of a list.
pub open spec fn entry_views(items: Seq<Vec<Line>>) -> Seq<Seq<LineView>> {
    items.map_values(|lines: Vec<Line>| line_views(lines@))
}

impl View for List {
    type V = ListView;

    open spec fn view(&self) -> ListView {
        ListView {
            items: entry_views(self.items@),
            selected: self.selected as nat,
            block: self.block@,
            highlight_style: self.highlight_style,
            highlight_symbol: self.highlight_symbol@,
        }
    }
}

/// Something to draw.
#[derive(Debug, PartialEq, Eq)]
pub enum Widget {
    /// Wipes out what was drawn.
    Clear,
    Block(Block),
    Paragraph(Paragraph),
    Tabs(Tabs),
    List(List),
}

/// A widget as a mathematical value.
#[verifier::ext_equal]
pub enum WidgetView {
    Clear,
    Block(BlockView),
    Paragraph(ParagraphView),
    Tabs(TabsView),
    List(ListView),
}

impl View for Widget {
    type V = WidgetView;

    open spec fn view(&self) -> WidgetView {
        match self {
            Widget::Clear => WidgetView::Clear,
            Widget::Block(block) => WidgetView::Block(block@),
            Widget::Paragraph(paragraph) => WidgetView::Paragraph(paragraph@),
            Widget::Tabs(tabs) => WidgetView::Tabs(tabs@),
            Widget::List(list) => WidgetView::List(list@),
        }
    }
}

/// A widget at its place.
#[derive(Debug, PartialEq, Eq)]
pub struct Placed {
    pub widget: Widget,
    pub area: Rect,
}

/// A placed widget as a mathematical value.
#[verifier::ext_equal]
pub struct PlacedView {
    pub widget: WidgetView,
    pub area: Rect,
}

impl View for Placed {
    type V = PlacedView;

    open spec fn view(&self) -> PlacedView {
        PlacedView { widget: self.widget@, area: self.area }
    }
}

/// The contents of a list of placed widgets.
pub open spec fn placed_views(placed: Seq<Placed>) -> Seq<PlacedView> {
    placed.map_values(|p: Placed| p@)
}

/// A paragraph at its place.
pub open spec fn paragraph_at(area: Rect, paragraph: ParagraphView) -> PlacedView {
    PlacedView { widget: WidgetView::Paragraph(paragraph), area }
}

/// A frame at its place.
pub open spec fn block_at(area: Rect, block: BlockView) -> PlacedView {
    PlacedView { widget: WidgetView::Block(block), area }
}

/// A wiped place.
pub open spec fn clear_at(area: Rect) -> PlacedView {
    PlacedView { widget: WidgetView::Clear, area }
}

impl Placed {
    /// A paragraph at its place.
    pub fn paragraph(area: Rect, paragraph: Paragraph) -> (r: Placed)
        ensures
            r@ == paragraph_at(area, paragraph@),
    {
        Placed { widget: Widget::Paragraph(paragraph), area }
    }

    /// A frame at its place.
    pub fn block(area: Rect, block: Block) -> (r: Placed)
        ensures
            r@ == block_at(area, block@),
    {
        Placed { widget: Widget::Block(block), area }
    }

    /// A wiped place.
    pub fn clear(area: Rect) -> (r: Placed)
        ensures
            r@ == clear_at(area),
    {
        Placed { widget: Widget::Clear, area }
    }
}

/// A whole screen: widgets in the order in which they are drawn, and where the
/// cursor stands, if it shows.
#[derive(Debug, PartialEq, Eq)]
pub struct Scene {
    pub widgets: Vec<Placed>,
    pub cursor: Option<Position>,
}

/// A screen as a mathematical value.
#[verifier::ext_equal]
pub struct SceneView {
    pub widgets: Seq<PlacedView>,
    pub cursor: Option<Position>,
}

impl View for Scene {
    type V = SceneView;

    open spec fn view(&self) -> SceneView {
        SceneView { widgets: placed_views(self.widgets@), cursor: self.cursor }
    }
}

} // verus!
