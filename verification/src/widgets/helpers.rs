//! Ready-made widgets for common UI patterns: status panels, layout
//! sections, progress and status bars, cards and styled text.

use vstd::prelude::*;
use crate::color::{Color, ColorPair};
use crate::text::{repeat_char, repeat_string, push_str, push_char, to_owned_string, byte_len_prefix, str_chars};
use crate::widgets::common::BorderChars;
use crate::widgets::container::{Container, ContentAlignment, LayoutDirection, Padding, ChildProps, child_is};
use crate::widgets::panel::{Panel, PanelContent};
use crate::widgets::text::{Alignment, Label, Text, TextBlock, TextWrapMode};
use crate::widgets::Widget;

verus! {

/// The decimal digits of `n`.
pub open spec fn decimal(n: nat) -> Seq<char>
    decreases n,
{
    if n < 10 {
        seq![digit_char(n)]
    } else {
        decimal(n / 10).push(digit_char(n % 10))
    }
}

/// The digit char of `d` (below 10).
pub open spec fn digit_char(d: nat) -> char {
    if d == 0 { '0' } else if d == 1 { '1' } else if d == 2 { '2' } else if d == 3 { '3' } else if d == 4 { '4' }
    else if d == 5 { '5' } else if d == 6 { '6' } else if d == 7 { '7' } else if d == 8 { '8' } else { '9' }
}

/// The decimal form of `n`.
pub fn decimal_string(n: u16) -> (r: String)
    ensures
        r@ == decimal(n as nat),
    decreases n,
{
    let d = n % 10;
    let c = if d == 0 { '0' } else if d == 1 { '1' } else if d == 2 { '2' } else if d == 3 { '3' } else if d == 4 { '4' }
        else if d == 5 { '5' } else if d == 6 { '6' } else if d == 7 { '7' } else if d == 8 { '8' } else { '9' };
    if n < 10 {
        let mut s = String::new();
        push_char(&mut s, c);
        assert(s@ =~= decimal(n as nat));
        s
    } else {
        let mut s = decimal_string(n / 10);
        push_char(&mut s, c);
        s
    }
}

/// The look shared by the status panels: an auto-sized panel with `header`
/// over `message`, the header text in `text_color` and its border in
/// `border`, otherwise as a new panel.
pub open spec fn status_panel(r: &Panel, header: Seq<char>, message: Seq<char>, text_color: ColorPair, border: Color) -> bool {
    &&& r.header_text@ == header
    &&& r.body_content matches PanelContent::Text(t) && t@ == message
    &&& r.header_color == Some(text_color)
    &&& r.header_border_color == Some(ColorPair { fg: border, bg: Color::Transparent })
    &&& r.header_style == BorderChars::single_line_spec()
    &&& r.body_style == BorderChars::single_line_spec()
    &&& r.body_color is None
    &&& r.body_border_color is None
    &&& r.padding == 1
    &&& r.auto_size
    &&& !r.scrollable
    &&& (r.width, r.height) == r.fitted_size()
}

/// A green "🟢 Success" panel around `message`.
pub fn success_panel(message: &str) -> (r: Panel)
    ensures
        status_panel(&r, "🟢 Success"@, message@, ColorPair { fg: Color::Green, bg: Color::Black }, Color::Green),
{
    Panel::auto_sized().with_header("🟢 Success").with_body(message).with_header_color(Some(ColorPair::success()))
        .with_header_border_color(Color::Green)
}

/// A yellow "🟡 Warning" panel around `message`.
pub fn warning_panel(message: &str) -> (r: Panel)
    ensures
        status_panel(&r, "🟡 Warning"@, message@, ColorPair { fg: Color::Yellow, bg: Color::Black }, Color::Yellow),
{
    Panel::auto_sized().with_header("🟡 Warning").with_body(message).with_header_color(Some(ColorPair::warning()))
        .with_header_border_color(Color::Yellow)
}

/// A red "🔴 Error" panel around `message`.
pub fn error_panel(message: &str) -> (r: Panel)
    ensures
        status_panel(&r, "🔴 Error"@, message@, ColorPair { fg: Color::Red, bg: Color::Black }, Color::Red),
{
    Panel::auto_sized().with_header("🔴 Error").with_body(message).with_header_color(Some(ColorPair::error()))
        .with_header_border_color(Color::Red)
}

/// A blue panel headed "ℹ️ " and `title` around `message`.
pub fn info_panel(title: &str, message: &str) -> (r: Panel)
    ensures
        status_panel(&r, seq!['ℹ', '\u{fe0f}', ' '] + title@, message@, ColorPair { fg: Color::Blue, bg: Color::Black },
            Color::Blue),
{
    let mut header = String::new();
    push_char(&mut header, 'ℹ');
    push_char(&mut header, '\u{fe0f}');
    push_char(&mut header, ' ');
    push_str(&mut header, title);
    assert(header@ =~= seq!['ℹ', '\u{fe0f}', ' '] + title@);
    Panel::auto_sized().with_header(header.as_str()).with_body(message).with_header_color(Some(ColorPair::info()))
        .with_header_border_color(Color::Blue)
}

/// A section holding `title` as a centered cyan label, its content
/// centered.
pub fn header_section(title: &str) -> (r: Container)
    ensures
        r.props().content_alignment == ContentAlignment::AutoCenter,
        r.props().layout_direction == LayoutDirection::Vertical,
        r.child_props().len() == 1,
        r.child_props()[0].intrinsic_width == title@.len() as u16,
        r.child_props()[0].intrinsic_height == 1,
        exists|l: Label| l.text@ == title@ && l.colors == Some(ColorPair { fg: Color::Cyan, bg: Color::Transparent })
            && l.alignment == Alignment::Center && child_is(&r, 0, &l),
{
    let label = Label::new(title).with_text_color(Color::Cyan).with_alignment(Alignment::Center);
    let ghost g = label;
    let c = Container::new().add_child(label);
    let r = c.with_content_alignment(ContentAlignment::AutoCenter);
    proof {
        assert(r.child_entries().take(c.child_entries().len() as int) =~= c.child_entries());
        Container::lemma_child_is_kept(&c, &r, 0, &g);
    }
    r
}

/// A section holding `text` as centered dark gray text, its content
/// centered.
pub fn footer_section(text: &str) -> (r: Container)
    ensures
        r.props().content_alignment == ContentAlignment::AutoCenter,
        r.props().layout_direction == LayoutDirection::Vertical,
        r.child_props().len() == 1,
        r.child_props()[0].intrinsic_width == text@.len() as u16,
        r.child_props()[0].intrinsic_height == 1,
        exists|t: Text| t.text@ == text@ && t.colors == Some(ColorPair { fg: Color::DarkGray, bg: Color::Transparent })
            && t.alignment == Alignment::Center && child_is(&r, 0, &t),
{
    let t = Text::new(text).with_text_color(Color::DarkGray).with_alignment(Alignment::Center);
    let ghost g = t;
    let c = Container::new().add_child(t);
    let r = c.with_content_alignment(ContentAlignment::AutoCenter);
    proof {
        assert(r.child_entries().take(c.child_entries().len() as int) =~= c.child_entries());
        Container::lemma_child_is_kept(&c, &r, 0, &g);
    }
    r
}

/// An empty vertical section with a single-line border and a padding of 1
/// (the width is not used).
pub fn sidebar(_width: u16) -> (r: Container)
    ensures
        r.props().layout_direction == LayoutDirection::Vertical,
        r.props().border.chars == BorderChars::single_line_spec(),
        r.props().border.sides.top && r.props().border.sides.right && r.props().border.sides.bottom
            && r.props().border.sides.left,
        r.props().padding == (Padding { top: 1, right: 1, bottom: 1, left: 1 }),
        r.child_props().len() == 0,
{
    Container::vertical().with_border_chars(BorderChars::single_line()).with_padding(Padding::uniform(1))
}

/// An empty vertical section with a padding of 1.
pub fn main_content_area() -> (r: Container)
    ensures
        r.props().layout_direction == LayoutDirection::Vertical,
        r.props().padding == (Padding { top: 1, right: 1, bottom: 1, left: 1 }),
        r.child_props().len() == 0,
{
    Container::vertical().with_padding(Padding::uniform(1))
}

/// The number of spaces between the two sides of a status bar: what the
/// terminal width leaves of their byte lengths (their sum truncated to
/// `u16`; each length saturates at `usize::MAX`, which no string reaches).
pub open spec fn status_gap(left: Seq<char>, right: Seq<char>, terminal_width: u16) -> int {
    let used = (crate::text::sat_byte_len(left) + crate::text::sat_byte_len(right)) as u16;
    if terminal_width > used { terminal_width - used } else { 0 }
}

/// A borderless row of `left_text`, spaces filling the terminal width, and
/// `right_text`.
pub fn status_bar(left_text: &str, right_text: &str, terminal_width: u16) -> (r: Container)
    ensures
        r.props().layout_direction == LayoutDirection::Horizontal,
        !r.props().border.sides.top && !r.props().border.sides.right && !r.props().border.sides.bottom
            && !r.props().border.sides.left,
        r.child_props().len() == 3,
        r.child_props()[0].intrinsic_width == left_text@.len() as u16,
        r.child_props()[1].intrinsic_width == status_gap(left_text@, right_text@, terminal_width) as u16,
        r.child_props()[2].intrinsic_width == right_text@.len() as u16,
        exists|t: Text| t.text@ == left_text@ && t.colors is None && t.alignment == Alignment::Left
            && child_is(&r, 0, &t),
        exists|t: Text| t.text@ == repeat_char(' ', status_gap(left_text@, right_text@, terminal_width) as nat)
            && t.colors is None && t.alignment == Alignment::Left && child_is(&r, 1, &t),
        exists|t: Text| t.text@ == right_text@ && t.colors is None && t.alignment == Alignment::Left
            && child_is(&r, 2, &t),
{
    let lc = str_chars(left_text);
    let rc = str_chars(right_text);
    proof {
        assert(lc@.take(lc@.len() as int) == lc@);
        assert(rc@.take(rc@.len() as int) == rc@);
    }
    let lb = byte_len_prefix(lc.as_slice(), lc.len());
    let rb = byte_len_prefix(rc.as_slice(), rc.len());
    let used = (lb as u128 + rb as u128) as u16;
    let padding_width = if terminal_width > used { terminal_width - used } else { 0 };
    let gap = repeat_string(' ', padding_width as usize);
    let t0 = Text::new(left_text);
    let t1 = Text::new(gap.as_str());
    let t2 = Text::new(right_text);
    let ghost (g0, g1, g2) = (t0, t1, t2);
    let c1 = Container::horizontal().without_border().add_child(t0);
    let c2 = c1.add_child(t1);
    let r = c2.add_child(t2);
    proof {
        assert(c2.child_entries().take(c1.child_entries().len() as int) =~= c1.child_entries());
        assert(r.child_entries().take(c2.child_entries().len() as int) =~= c2.child_entries());
        Container::lemma_child_is_kept(&c1, &c2, 0, &g0);
        Container::lemma_child_is_kept(&c2, &r, 0, &g0);
        Container::lemma_child_is_kept(&c2, &r, 1, &g1);
    }
    r
}

/// A label line "`label` (`p`%)" over a bar of `width` cells: `█` for the
/// done share (rounded down), `░` for the rest.
pub fn progress_bar(label: &str, current: u16, max: u16, width: u16) -> (r: Container)
    requires
        max > 0 ==> current * width <= u16::MAX && current * 100 <= u16::MAX && (current * width) / (max as int) <= width,
    ensures
        r.props().layout_direction == LayoutDirection::Vertical,
        r.child_props().len() == 2,
        r.child_props()[0].intrinsic_width == (label@ + seq![' ', '('] + decimal(
            (if max > 0 { (current * 100) / (max as int) } else { 0 }) as nat) + seq!['%', ')']).len() as u16,
        r.child_props()[1].intrinsic_width == width,
        exists|t: Text| t.text@ == progress_label(label@, current, max) && t.colors is None
            && t.alignment == Alignment::Left && child_is(&r, 0, &t),
        exists|t: Text| t.text@ == repeat_char('█', progress_filled(current, max, width) as nat)
            + repeat_char('░', (width - progress_filled(current, max, width)) as nat) && t.colors is None
            && t.alignment == Alignment::Left && child_is(&r, 1, &t),
{
    let filled: u16 = if max > 0 { (current * width) / max } else { 0 };
    let empty = width - filled;
    let mut bar = repeat_string('█', filled as usize);
    let rest = repeat_string('░', empty as usize);
    push_str(&mut bar, rest.as_str());
    let percentage: u16 = if max > 0 { (current * 100) / max } else { 0 };
    let mut line = to_owned_string(label);
    push_char(&mut line, ' ');
    push_char(&mut line, '(');
    let digits = decimal_string(percentage);
    push_str(&mut line, digits.as_str());
    push_char(&mut line, '%');
    push_char(&mut line, ')');
    assert(line@ =~= label@ + seq![' ', '('] + decimal(percentage as nat) + seq!['%', ')']);
    let t0 = Text::new(line.as_str());
    let t1 = Text::new(bar.as_str());
    let ghost (g0, g1) = (t0, t1);
    let c1 = Container::vertical().add_child(t0);
    let r = c1.add_child(t1);
    proof {
        assert(r.child_entries().take(c1.child_entries().len() as int) =~= c1.child_entries());
        Container::lemma_child_is_kept(&c1, &r, 0, &g0);
    }
    r
}

/// The label line of a progress bar: "`label` (`p`%)", `p` the done
/// share in percent, rounded down (0 when `max` is 0).
pub open spec fn progress_label(label: Seq<char>, current: u16, max: u16) -> Seq<char> {
    label + seq![' ', '('] + decimal((if max > 0 { (current * 100) / (max as int) } else { 0 }) as nat) + seq!['%', ')']
}

/// The number of done cells of a progress bar `width` cells wide, rounded
/// down (0 when `max` is 0).
pub open spec fn progress_filled(current: u16, max: u16, width: u16) -> int {
    if max > 0 { (current * width) / (max as int) } else { 0 }
}

/// A card: an auto-sized panel with `title` over `content`, single-line
/// borders and padding 1.
pub fn info_card(title: &str, content: &str) -> (r: Panel)
    ensures
        r.header_text@ == title@,
        r.body_content matches PanelContent::Text(t) && t@ == content@,
        r.default_look(),
        r.auto_size,
        (r.width, r.height) == r.fitted_size(),
{
    Panel::auto_sized().with_header(title).with_body(content).with_header_style(BorderChars::single_line())
        .with_body_style(BorderChars::single_line()).with_padding(1)
}

/// A card headed `label` (cyan on black) showing `value`, a space and
/// `unit` (white on black).
pub fn metric_card(label: &str, value: &str, unit: &str) -> (r: Panel)
    ensures
        r.header_text@ == label@,
        r.body_content matches PanelContent::Text(t) && t@ == value@ + seq![' '] + unit@,
        r.header_color == Some(ColorPair { fg: Color::Cyan, bg: Color::Black }),
        r.body_color == Some(ColorPair { fg: Color::White, bg: Color::Black }),
        r.padding == 1,
        r.auto_size,
        (r.width, r.height) == r.fitted_size(),
{
    let mut content = to_owned_string(value);
    push_char(&mut content, ' ');
    push_str(&mut content, unit);
    Panel::auto_sized().with_header(label).with_body(content.as_str()).with_header_color(
        Some(ColorPair::new(Color::Cyan, Color::Black))).with_body_color(Some(ColorPair::new(Color::White, Color::Black)))
        .with_padding(1)
}

/// A centered cyan label.
pub fn title_text(text: &str) -> (r: Label)
    ensures
        r.text@ == text@,
        r.colors == Some(ColorPair { fg: Color::Cyan, bg: Color::Transparent }),
        r.alignment == Alignment::Center,
{
    Label::new(text).with_text_color(Color::Cyan).with_alignment(Alignment::Center)
}

/// Centered light gray text.
pub fn subtitle_text(text: &str) -> (r: Text)
    ensures
        r.text@ == text@,
        r.colors == Some(ColorPair { fg: Color::LightGray, bg: Color::Transparent }),
        r.alignment == Alignment::Center,
{
    Text::new(text).with_text_color(Color::LightGray).with_alignment(Alignment::Center)
}

/// Text in the error colors.
pub fn error_text(text: &str) -> (r: Text)
    ensures
        r.text@ == text@,
        r.colors == Some(ColorPair { fg: Color::Red, bg: Color::Black }),
        r.alignment == Alignment::Left,
{
    Text::new(text).with_color(ColorPair::error())
}

/// Text in the success colors.
pub fn success_text(text: &str) -> (r: Text)
    ensures
        r.text@ == text@,
        r.colors == Some(ColorPair { fg: Color::Green, bg: Color::Black }),
        r.alignment == Alignment::Left,
{
    Text::new(text).with_color(ColorPair::success())
}

/// `content` word-wrapped at `width` into a light gray block sized to fit
/// (shown wrapping between words).
pub fn help_text(content: &str, width: u16) -> (r: TextBlock)
    ensures
        r.text@ == crate::textops::join_lines(crate::textops::wrap_spec(crate::textops::words_spec(content@), width as int,
            true)),
        r.width == crate::textops::max_bytes(crate::textops::wrap_spec(crate::textops::words_spec(content@),
            width as int, true)) as u16,
        r.height == crate::textops::wrap_spec(crate::textops::words_spec(content@), width as int, true).len() as u16,
        r.wrap_mode == TextWrapMode::WrapWords,
        r.colors == Some(ColorPair { fg: Color::LightGray, bg: Color::Transparent }),
{
    TextBlock::auto_sized_with_word_wrap(content, width).with_wrap_mode(TextWrapMode::WrapWords).with_text_color(
        Color::LightGray)
}

/// A `width` x `height` panel headed "Code" around a green block of
/// `content`, 4 cells smaller each way, that wraps every line.
pub fn code_block(content: &str, width: u16, height: u16) -> (r: Panel)
    requires
        width >= 4,
        height >= 4,
    ensures
        r.header_text@ == "Code"@,
        r.body_content matches PanelContent::Block(b) && b.width == width - 4 && b.height == height - 4 && b.text@
            == content@ && b.wrap_mode == TextWrapMode::Wrap && b.colors == Some(ColorPair { fg: Color::Green,
            bg: Color::Transparent }),
        r.padding == 1,
        r.auto_size == (width == 0 || height == 0),
        r.auto_size ==> (r.width, r.height) == r.fitted_size(),
        !r.auto_size ==> r.width == width && r.height == height,
{
    let text_block = TextBlock::new(width - 4, height - 4, content).with_wrap_mode(TextWrapMode::Wrap).with_text_color(
        Color::Green);
    Panel::new(width, height).with_header("Code").with_body_block(text_block).with_header_style(
        BorderChars::single_line()).with_body_style(BorderChars::single_line()).with_padding(1)
}

/// A panel with a double-line, yellow header section.
pub fn highlighted_panel(header: &str, body: &str) -> (r: Panel)
    ensures
        r.header_text@ == header@,
        r.body_content matches PanelContent::Text(t) && t@ == body@,
        r.header_style == BorderChars::double_line_spec(),
        r.header_color == Some(ColorPair { fg: Color::Yellow, bg: Color::Black }),
        r.header_border_color == Some(ColorPair { fg: Color::Yellow, bg: Color::Transparent }),
        r.padding == 1,
        r.auto_size,
        (r.width, r.height) == r.fitted_size(),
{
    Panel::auto_sized().with_header(header).with_body(body).with_header_style(BorderChars::double_line())
        .with_header_color(Some(ColorPair::new(Color::Yellow, Color::Black))).with_header_border_color(Color::Yellow)
        .with_padding(1)
}

/// A plain panel with single-line borders and padding 1.
pub fn minimal_panel(header: &str, content: &str) -> (r: Panel)
    ensures
        r.header_text@ == header@,
        r.body_content matches PanelContent::Text(t) && t@ == content@,
        r.default_look(),
        r.auto_size,
        (r.width, r.height) == r.fitted_size(),
{
    Panel::auto_sized().with_header(header).with_body(content).with_body_style(BorderChars::single_line())
        .with_padding(1)
}

} // verus!
