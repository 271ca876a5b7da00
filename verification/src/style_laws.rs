//! Laws of styles.

use vstd::prelude::*;

use crate::draw::{
    active_border_style, active_field_style, chip_style, frame_style, hint_style, panel_style,
};
use crate::item::label_style;
use crate::render::{code_background, combined, heading_style, link_style};
use crate::style::{Color, Style};

verus! {

/// A look with colours and no modifiers.
pub open spec fn look(fg: Option<Color>, bg: Option<Color>) -> Style {
    Style { fg, bg, bold: false, italic: false, underlined: false, crossed_out: false }
}

/// A bold look.
pub open spec fn bold_look(fg: Option<Color>, bg: Option<Color>) -> Style {
    Style { bold: true, ..look(fg, bg) }
}

/// Each step of building a style sets one thing and leaves the others.
pub proof fn law_style_steps(s: Style, c: Color)
    ensures
        Style::plain() == look(None, None),
        s.with_fg(c).fg == Some(c) && s.with_fg(c).bg == s.bg,
        s.with_bg(c).bg == Some(c) && s.with_bg(c).fg == s.fg,
        s.with_fg(c).bold == s.bold && s.with_bg(c).bold == s.bold,
        s.with_fg(c).italic == s.italic && s.with_bg(c).italic == s.italic,
        s.with_fg(c).underlined == s.underlined && s.with_bg(c).underlined == s.underlined,
        s.with_fg(c).crossed_out == s.crossed_out && s.with_bg(c).crossed_out == s.crossed_out,
        s.in_bold() == (Style { bold: true, ..s }),
        s.in_italic() == (Style { italic: true, ..s }),
        s.underline() == (Style { underlined: true, ..s }),
        s.cross_out() == (Style { crossed_out: true, ..s }),
{
}

/// A style on top of another hides its colours where it has its own, and takes
/// no modifier away.
pub proof fn law_patch(below: Style, over: Style)
    ensures
        over.fg is Some ==> below.patch(over).fg == over.fg,
        over.fg is None ==> below.patch(over).fg == below.fg,
        over.bg is Some ==> below.patch(over).bg == over.bg,
        over.bg is None ==> below.patch(over).bg == below.bg,
        below.patch(over).bold <==> below.bold || over.bold,
        below.patch(over).italic <==> below.italic || over.italic,
        below.patch(over).underlined <==> below.underlined || over.underlined,
        below.patch(over).crossed_out <==> below.crossed_out || over.crossed_out,
        below.patch(Style::plain()) == below,
        Style::plain().patch(over) == over,
{
}

/// Laying three styles on each other can be done from either end.
pub proof fn law_patch_is_associative(a: Style, b: Style, c: Style)
    ensures
        a.patch(b).patch(c) == a.patch(b.patch(c)),
{
}

/// The style of nested elements: none makes the plain one, one its own, and inner
/// elements lie on top of outer ones however they are grouped.
pub proof fn law_combined(outer: Seq<Style>, inner: Seq<Style>, one: Style)
    ensures
        combined(Seq::empty()) == look(None, None),
        combined(seq![one]) == one,
        combined(outer + inner) == combined(outer).patch(combined(inner)),
    decreases inner.len(),
{
    assert(seq![one].drop_last() =~= Seq::empty());
    reveal_with_fuel(combined, 2);
    if inner.len() == 0 {
        assert(outer + inner =~= outer);
    } else {
        law_combined(outer, inner.drop_last(), one);
        assert((outer + inner).drop_last() =~= outer + inner.drop_last());
        law_patch_is_associative(
            combined(outer),
            combined(inner.drop_last()),
            inner.last(),
        );
    }
}

/// A modifier of any open element holds for the text inside it.
pub proof fn law_modifiers_reach_inside(stack: Seq<Style>, i: int)
    requires
        0 <= i < stack.len(),
    ensures
        stack[i].bold ==> combined(stack).bold,
        stack[i].italic ==> combined(stack).italic,
        stack[i].underlined ==> combined(stack).underlined,
        stack[i].crossed_out ==> combined(stack).crossed_out,
    decreases stack.len(),
{
    if i < stack.len() - 1 {
        law_modifiers_reach_inside(stack.drop_last(), i);
    }
}

/// Headings are bold: cyan at the first level, light cyan at the second, white
/// below. Links are underlined and light blue.
pub proof fn law_looks_of_text(level: u8)
    ensures
        heading_style(level) == bold_look(
            Some(
                match level {
                    1 => Color::Cyan,
                    2 => Color::LightCyan,
                    _ => Color::White,
                },
            ),
            None,
        ),
        link_style() == (Style { underlined: true, ..look(Some(Color::LightBlue), None) }),
        code_background() == Color::Rgb(24, 28, 40),
        label_style() == look(Some(Color::DarkGray), None),
{
}

/// A choice is filled with its colour exactly if it is taken, and the field that
/// is edited stands out by its border and its background.
pub proof fn law_looks_of_the_screen(color: Color)
    ensures
        chip_style(true, color) == bold_look(Some(Color::Black), Some(color)),
        chip_style(false, color) == look(Some(color), Some(Color::Rgb(22, 28, 44))),
        active_border_style(true) == look(Some(Color::Cyan), None),
        active_border_style(false) == look(Some(Color::Rgb(70, 88, 128)), None),
        active_field_style(true) == look(Some(Color::White), Some(Color::Rgb(30, 42, 66))),
        active_field_style(false) == look(Some(Color::White), None),
        frame_style() == look(Some(Color::Rgb(70, 88, 128)), None),
        panel_style() == look(Some(Color::Rgb(181, 201, 255)), Some(Color::Rgb(18, 24, 38))),
        hint_style() == look(Some(Color::DarkGray), None),
{
}

} // verus!
