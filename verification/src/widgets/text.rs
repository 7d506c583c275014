//! Text widgets: [`Label`] and [`Text`] (one line) and [`TextBlock`]
//! (several lines, wrapped and aligned in a box).

use vstd::prelude::*;
use crate::color::{Color, ColorPair};
use crate::error::Error;
use crate::text::{cell_width, clip_to_cells, fit_to_cells, str_chars, string_from_chars, take_cells,
    take_cells_ellipsis, to_owned_string, TabPolicy};
use crate::textops::{char_vec_views, lines_spec, words_spec, chunks_spec, wrap_spec, max_bytes,
    split_lines, split_words, split_chunks, wrap_words, max_line_bytes, join_lines, join_char_lines};
use crate::window::{Canvas, Window, DrawOp, op_view, ops_views, colored};
pub use crate::window::min_int;
use crate::widgets::Widget;
use crate::widgets::input::string_views;

verus! {

broadcast use crate::window::lemma_grows_chain;

/// Horizontal alignment.
#[derive(Debug, Clone, Copy, PartialEq, Eq, Structural)]
pub enum Alignment {
    Left,
    Center,
    Right,
}

/// Vertical alignment.
#[derive(Debug, Clone, Copy, PartialEq, Eq, Structural)]
pub enum VerticalAlignment {
    Top,
    Middle,
    Bottom,
}

/// How a text block breaks its text into lines.
#[derive(Debug, Clone, Copy, PartialEq, Eq, Structural)]
pub enum TextWrapMode {
    /// Only at line breaks; what is wider than the block is clipped.
    NoWrap,
    /// Every `width` chars.
    Wrap,
    /// Between words, greedily.
    WrapWords,
}

/// Where something `len` cells wide starts inside `avail` cells: at 0 for
/// left alignment or when it does not fit, centered (rounded down), or flush
/// right.
pub open spec fn align_offset(a: Alignment, len: int, avail: int) -> int {
    match a {
        Alignment::Left => 0,
        Alignment::Center => if len < avail { (avail - len) / 2 } else { 0 },
        Alignment::Right => if len < avail { avail - len } else { 0 },
    }
}

/// Where something `len` cells wide starts inside `avail` cells.
pub fn aligned_offset(a: Alignment, len: u16, avail: u16) -> (r: u16)
    ensures
        r == align_offset(a, len as int, avail as int),
        r <= avail,
{
    match a {
        Alignment::Left => 0,
        Alignment::Center => if len < avail { (avail - len) / 2 } else { 0 },
        Alignment::Right => if len < avail { avail - len } else { 0 },
    }
}

/// Where something `len` rows tall starts inside `avail` rows.
pub open spec fn valign_offset(a: VerticalAlignment, len: int, avail: int) -> int {
    match a {
        VerticalAlignment::Top => 0,
        VerticalAlignment::Middle => if len < avail { (avail - len) / 2 } else { 0 },
        VerticalAlignment::Bottom => if len < avail { avail - len } else { 0 },
    }
}

/// Writes `s` at `(y, x)` in `colors`, or in the default colors.
pub fn write_with(window: &mut Canvas, y: u16, x: u16, s: &str, colors: Option<ColorPair>)
    ensures
        final(window).ops_view() == old(window).ops_after_write(y as int, x as int, s@, colors),
        final(window).grows_from(old(window)),
        final(window).cursor_view() == old(window).cursor_view(),
{
    match colors {
        Some(c) => {
            let _ = window.write_str_colored(y, x, s, c);
        },
        None => {
            let _ = window.write_str(y, x, s);
        },
    }
}

/// A single line of text aligned within the width it is drawn in.
pub struct Label {
    pub text: String,
    pub colors: Option<ColorPair>,
    pub alignment: Alignment,
}

/// The single-line write of `text` in a surface of width `avail`: start
/// column and the part of the text that fits.
pub open spec fn line_placement(text: Seq<char>, a: Alignment, avail: int) -> (int, Seq<char>) {
    let x = align_offset(a, (text.len() as u16) as int, avail);
    (x, take_cells(text, avail - x))
}

/// Draws `text` on row 0, aligned within the visible width.
fn draw_line(window: &mut Canvas, text: &str, alignment: Alignment, colors: Option<ColorPair>)
    ensures
        final(window).ops_view() == old(window).ops_after_write(0,
            line_placement(text@, alignment, old(window).visible_size().0 as int).0,
            line_placement(text@, alignment, old(window).visible_size().0 as int).1, colors),
        final(window).grows_from(old(window)),
        final(window).cursor_view() == old(window).cursor_view(),
{
    let (window_width, _) = window.get_size();
    let text_w = cell_width(text, TabPolicy::SingleCell) as u16;
    let x_pos = aligned_offset(alignment, text_w, window_width);
    let max_cells = window_width - x_pos;
    let clipped = clip_to_cells(text, max_cells, TabPolicy::SingleCell);
    write_with(window, 0, x_pos, clipped.as_str(), colors);
}

impl Label {
    /// A left-aligned label in the default colors.
    pub fn new(text: &str) -> (r: Self)
        ensures
            r.text@ == text@,
            (r.colors is None),
            r.alignment == Alignment::Left,
    {
        Label { text: to_owned_string(text), colors: None, alignment: Alignment::Left }
    }

    /// Sets the colors.
    pub fn with_color(self, colors: ColorPair) -> (r: Self)
        ensures
            r == (Label { colors: Some(colors), ..self }),
    {
        Label { colors: Some(colors), ..self }
    }

    /// Sets the text color over a transparent background.
    pub fn with_text_color(self, color: Color) -> (r: Self)
        ensures
            r == (Label { colors: Some(ColorPair { fg: color, bg: Color::Transparent }), ..self }),
    {
        Label { colors: Some(ColorPair::new(color, Color::Transparent)), ..self }
    }

    /// Sets the alignment.
    pub fn with_alignment(self, alignment: Alignment) -> (r: Self)
        ensures
            r == (Label { alignment, ..self }),
    {
        Label { alignment, ..self }
    }

    /// Replaces the text.
    pub fn set_text(&mut self, text: &str)
        ensures
            final(self).text@ == text@,
            final(self).colors == old(self).colors,
            final(self).alignment == old(self).alignment,
    {
        self.text = to_owned_string(text);
    }

    /// The text.
    pub fn text(&self) -> (r: &str)
        ensures
            r@ == self.text@,
    {
        self.text.as_str()
    }

    /// The number of chars (truncated to `u16`).
    pub fn get_length(&self) -> (r: u16)
        ensures
            r == self.text@.len() as u16,
    {
        cell_width(self.text.as_str(), TabPolicy::SingleCell) as u16
    }

    /// The width in cells (truncated to `u16`).
    pub fn cell_width(&self) -> (r: u16)
        ensures
            r == self.text@.len() as u16,
    {
        cell_width(self.text.as_str(), TabPolicy::SingleCell) as u16
    }
}

impl Widget for Label {
    open spec fn size_spec(&self) -> (u16, u16) {
        (self.text@.len() as u16, 1)
    }

    open spec fn position_spec(&self) -> (u16, u16) {
        (0, 0)
    }

    open spec fn draws(&self, views: Seq<crate::widgets::WindowView>, size: (u16, u16), before: Seq<crate::window::OpView>,
        after: Seq<crate::window::OpView>, r: Result<(), Error>) -> bool {
        r is Ok && after == crate::window::write_after(before, views, size, 0,
            line_placement(self.text@, self.alignment, crate::window::visible_of(views, size).0 as int).0,
            line_placement(self.text@, self.alignment, crate::window::visible_of(views, size).0 as int).1, self.colors)
    }

    /// Writes the text on row 0, aligned within the visible width and clipped
    /// to the cells left after the alignment offset.
    fn draw(&self, window: &mut Canvas) -> (r: Result<(), Error>)
        ensures
            r is Ok,
            final(window).ops_view() == old(window).ops_after_write(0,
                line_placement(self.text@, self.alignment, old(window).visible_size().0 as int).0,
                line_placement(self.text@, self.alignment, old(window).visible_size().0 as int).1, self.colors),
            final(window).cursor_view() == old(window).cursor_view(),
    {
        draw_line(window, self.text.as_str(), self.alignment, self.colors);
        Ok(())
    }

    fn get_size(&self) -> (r: (u16, u16)) {
        (cell_width(self.text.as_str(), TabPolicy::SingleCell) as u16, 1)
    }

    fn get_position(&self) -> (r: (u16, u16)) {
        (0, 0)
    }
}

/// A single line of text (the same behaviour as [`Label`], kept as its own
/// type for content blocks).
pub struct Text {
    pub text: String,
    pub colors: Option<ColorPair>,
    pub alignment: Alignment,
}

impl Text {
    /// A left-aligned text in the default colors.
    pub fn new(text: &str) -> (r: Self)
        ensures
            r.text@ == text@,
            (r.colors is None),
            r.alignment == Alignment::Left,
    {
        Text { text: to_owned_string(text), colors: None, alignment: Alignment::Left }
    }

    /// Sets the colors.
    pub fn with_color(self, colors: ColorPair) -> (r: Self)
        ensures
            r == (Text { colors: Some(colors), ..self }),
    {
        Text { colors: Some(colors), ..self }
    }

    /// Sets the text color over a transparent background.
    pub fn with_text_color(self, color: Color) -> (r: Self)
        ensures
            r == (Text { colors: Some(ColorPair { fg: color, bg: Color::Transparent }), ..self }),
    {
        Text { colors: Some(ColorPair::new(color, Color::Transparent)), ..self }
    }

    /// Sets the alignment.
    pub fn with_alignment(self, alignment: Alignment) -> (r: Self)
        ensures
            r == (Text { alignment, ..self }),
    {
        Text { alignment, ..self }
    }

    /// Replaces the text.
    pub fn set_text(&mut self, text: &str)
        ensures
            final(self).text@ == text@,
            final(self).colors == old(self).colors,
            final(self).alignment == old(self).alignment,
    {
        self.text = to_owned_string(text);
    }

    /// The text.
    pub fn text(&self) -> (r: &str)
        ensures
            r@ == self.text@,
    {
        self.text.as_str()
    }

    /// The number of chars (truncated to `u16`).
    pub fn get_length(&self) -> (r: u16)
        ensures
            r == self.text@.len() as u16,
    {
        cell_width(self.text.as_str(), TabPolicy::SingleCell) as u16
    }

    /// The width in cells (truncated to `u16`).
    pub fn cell_width(&self) -> (r: u16)
        ensures
            r == self.text@.len() as u16,
    {
        cell_width(self.text.as_str(), TabPolicy::SingleCell) as u16
    }
}

impl Widget for Text {
    open spec fn size_spec(&self) -> (u16, u16) {
        (self.text@.len() as u16, 1)
    }

    open spec fn position_spec(&self) -> (u16, u16) {
        (0, 0)
    }

    open spec fn draws(&self, views: Seq<crate::widgets::WindowView>, size: (u16, u16), before: Seq<crate::window::OpView>,
        after: Seq<crate::window::OpView>, r: Result<(), Error>) -> bool {
        r is Ok && after == crate::window::write_after(before, views, size, 0,
            line_placement(self.text@, self.alignment, crate::window::visible_of(views, size).0 as int).0,
            line_placement(self.text@, self.alignment, crate::window::visible_of(views, size).0 as int).1, self.colors)
    }

    /// Writes the text on row 0, aligned within the visible width and clipped
    /// to the cells left after the alignment offset.
    fn draw(&self, window: &mut Canvas) -> (r: Result<(), Error>)
        ensures
            r is Ok,
            final(window).ops_view() == old(window).ops_after_write(0,
                line_placement(self.text@, self.alignment, old(window).visible_size().0 as int).0,
                line_placement(self.text@, self.alignment, old(window).visible_size().0 as int).1, self.colors),
            final(window).cursor_view() == old(window).cursor_view(),
    {
        draw_line(window, self.text.as_str(), self.alignment, self.colors);
        Ok(())
    }

    fn get_size(&self) -> (r: (u16, u16)) {
        (cell_width(self.text.as_str(), TabPolicy::SingleCell) as u16, 1)
    }

    fn get_position(&self) -> (r: (u16, u16)) {
        (0, 0)
    }
}

/// The lines a text block shows, before clipping: the text's lines as they
/// are; cut every `width` chars (no lines for a zero width); or wrapped
/// greedily between words at `width` bytes.
pub open spec fn wrapped_lines_spec(text: Seq<char>, mode: TextWrapMode, width: u16) -> Seq<Seq<char>> {
    match mode {
        TextWrapMode::NoWrap => lines_spec(text),
        TextWrapMode::Wrap => if width == 0 { Seq::empty() } else { chunks_spec(text, width as int) },
        TextWrapMode::WrapWords => wrap_spec(words_spec(text), width as int, false),
    }
}

/// The writes that show `lines` in an `avail_w` x `avail_h` area: as many
/// lines as fit, placed by `v`, each clipped with an ellipsis to the width
/// and placed by `h`.
pub open spec fn block_writes(lines: Seq<Seq<char>>, avail_w: int, avail_h: int, h: Alignment,
    v: VerticalAlignment) -> Seq<(int, int, Seq<char>)> {
    let total = min_int(lines.len() as int, avail_h);
    let sy = valign_offset(v, total, avail_h);
    Seq::new(total as nat, |i: int| {
        let f = take_cells_ellipsis(lines[i], avail_w);
        (sy + i, align_offset(h, f.len() as int, avail_w), f)
    })
}

/// Several lines of text in a box of its own size, wrapped and aligned.
/// It keeps no scroll state: to scroll it, draw it through a view.
pub struct TextBlock {
    pub width: u16,
    pub height: u16,
    pub text: String,
    pub colors: Option<ColorPair>,
    pub wrap_mode: TextWrapMode,
    pub h_align: Alignment,
    pub v_align: VerticalAlignment,
}

/// Collects the chars of each line into a `String`.
fn char_lines_to_strings(lines: &Vec<Vec<char>>) -> (r: Vec<String>)
    ensures
        string_views(r@) == char_vec_views(lines@),
{
    let mut out: Vec<String> = Vec::new();
    let mut i: usize = 0;
    while i < lines.len()
        invariant
            i <= lines@.len(),
            string_views(out@) == char_vec_views(lines@).take(i as int),
        decreases lines.len() - i,
    {
        let s = string_from_chars(lines[i].as_slice());
        let ghost before = out@;
        out.push(s);
        assert(string_views(out@) =~= string_views(before).push(s@));
        assert(char_vec_views(lines@).take(i + 1) =~= char_vec_views(lines@).take(i as int).push(lines@[i as int]@));
        i = i + 1;
    }
    assert(char_vec_views(lines@).take(i as int) =~= char_vec_views(lines@));
    out
}

/// The lines of `text` after wrapping by `mode` at `width`.
fn wrap_text(text: &str, mode: TextWrapMode, width: u16) -> (r: Vec<Vec<char>>)
    ensures
        char_vec_views(r@) == wrapped_lines_spec(text@, mode, width),
{
    let cs = str_chars(text);
    match mode {
        TextWrapMode::NoWrap => split_lines(cs.as_slice()),
        TextWrapMode::Wrap => {
            if width == 0 {
                let r: Vec<Vec<char>> = Vec::new();
                assert(char_vec_views(r@) =~= Seq::<Seq<char>>::empty());
                r
            } else {
                split_chunks(cs.as_slice(), width as usize)
            }
        },
        TextWrapMode::WrapWords => {
            let words = split_words(cs.as_slice());
            wrap_words(&words, width, false)
        },
    }
}

impl TextBlock {
    /// A block of `width` x `height` cells that wraps every `width` chars,
    /// aligned top left, in the default colors.
    pub fn new(width: u16, height: u16, text: &str) -> (r: Self)
        ensures
            r.width == width,
            r.height == height,
            r.text@ == text@,
            (r.colors is None),
            r.wrap_mode == TextWrapMode::Wrap,
            r.h_align == Alignment::Left,
            r.v_align == VerticalAlignment::Top,
    {
        TextBlock {
            width,
            height,
            text: to_owned_string(text),
            colors: None,
            wrap_mode: TextWrapMode::Wrap,
            h_align: Alignment::Left,
            v_align: VerticalAlignment::Top,
        }
    }

    /// A block as wide as the longest line of `text` (in bytes) and as tall as
    /// its number of lines (both truncated to `u16`).
    pub fn auto_sized(text: &str) -> (r: Self)
        ensures
            r.width == max_bytes(lines_spec(text@)) as u16,
            r.height == lines_spec(text@).len() as u16,
            r.text@ == text@,
            (r.colors is None),
            r.wrap_mode == TextWrapMode::Wrap,
            r.h_align == Alignment::Left,
            r.v_align == VerticalAlignment::Top,
    {
        let cs = str_chars(text);
        let lines = split_lines(cs.as_slice());
        let width = max_line_bytes(&lines) as u16;
        let height = lines.len() as u16;
        TextBlock::new(width, height, text)
    }

    /// `text` wrapped between words at `max_width` bytes (a word that does
    /// not fit stands on a line of its own), the lines joined by newlines,
    /// in a block exactly as wide and tall as the result, not wrapped again.
    pub fn auto_sized_with_word_wrap(text: &str, max_width: u16) -> (r: Self)
        ensures
            r.text@ == join_lines(wrap_spec(words_spec(text@), max_width as int, true)),
            r.width == max_bytes(wrap_spec(words_spec(text@), max_width as int, true)) as u16,
            r.height == wrap_spec(words_spec(text@), max_width as int, true).len() as u16,
            r.wrap_mode == TextWrapMode::NoWrap,
            (r.colors is None),
            r.h_align == Alignment::Left,
            r.v_align == VerticalAlignment::Top,
    {
        let cs = str_chars(text);
        let words = split_words(cs.as_slice());
        let lines = wrap_words(&words, max_width, true);
        let width = max_line_bytes(&lines) as u16;
        let height = lines.len() as u16;
        let joined = join_char_lines(&lines);
        let s = string_from_chars(joined.as_slice());
        let mut block = TextBlock::new(width, height, s.as_str());
        block.wrap_mode = TextWrapMode::NoWrap;
        block
    }

    /// Sets the colors.
    pub fn with_colors(self, colors: ColorPair) -> (r: Self)
        ensures
            r == (TextBlock { colors: Some(colors), ..self }),
    {
        TextBlock { colors: Some(colors), ..self }
    }

    /// Sets the text color over a transparent background.
    pub fn with_text_color(self, color: Color) -> (r: Self)
        ensures
            r == (TextBlock { colors: Some(ColorPair { fg: color, bg: Color::Transparent }), ..self }),
    {
        TextBlock { colors: Some(ColorPair::new(color, Color::Transparent)), ..self }
    }

    /// Sets how the text is broken into lines.
    pub fn with_wrap_mode(self, mode: TextWrapMode) -> (r: Self)
        ensures
            r == (TextBlock { wrap_mode: mode, ..self }),
    {
        TextBlock { wrap_mode: mode, ..self }
    }

    /// Wraps between words.
    pub fn with_word_wrap(self) -> (r: Self)
        ensures
            r == (TextBlock { wrap_mode: TextWrapMode::WrapWords, ..self }),
    {
        TextBlock { wrap_mode: TextWrapMode::WrapWords, ..self }
    }

    /// Sets the horizontal and vertical alignment.
    pub fn with_alignment(self, h_align: Alignment, v_align: VerticalAlignment) -> (r: Self)
        ensures
            r == (TextBlock { h_align, v_align, ..self }),
    {
        TextBlock { h_align, v_align, ..self }
    }

    /// Replaces the text.
    pub fn set_text(&mut self, text: &str)
        ensures
            final(self).text@ == text@,
            final(self).width == old(self).width,
            final(self).height == old(self).height,
            final(self).colors == old(self).colors,
            final(self).wrap_mode == old(self).wrap_mode,
            final(self).h_align == old(self).h_align,
            final(self).v_align == old(self).v_align,
    {
        self.text = to_owned_string(text);
    }

    /// The text.
    pub fn text(&self) -> (r: &str)
        ensures
            r@ == self.text@,
    {
        self.text.as_str()
    }

    /// The number of lines the block shows before clipping.
    pub fn line_count(&self) -> (r: usize)
        ensures
            r == wrapped_lines_spec(self.text@, self.wrap_mode, self.width).len(),
    {
        let lines = wrap_text(self.text.as_str(), self.wrap_mode, self.width);
        lines.len()
    }

    /// The writes that show the block in an area of `available_width` x
    /// `available_height` cells.
    pub fn block_ops(&self, available_width: u16, available_height: u16) -> (r: Vec<DrawOp>)
        ensures
            ops_views(r@) == colored(block_writes(wrapped_lines_spec(self.text@, self.wrap_mode, self.width),
                available_width as int, available_height as int, self.h_align, self.v_align), self.colors),
    {
        let lines = wrap_text(self.text.as_str(), self.wrap_mode, self.width);
        let total: u16 = if lines.len() < available_height as usize { lines.len() as u16 } else { available_height };
        let start_y: u16 = match self.v_align {
            VerticalAlignment::Top => 0,
            VerticalAlignment::Middle => if total < available_height { (available_height - total) / 2 } else { 0 },
            VerticalAlignment::Bottom => if total < available_height { available_height - total } else { 0 },
        };
        let ghost ws = colored(block_writes(char_vec_views(lines@), available_width as int, available_height as int,
            self.h_align, self.v_align), self.colors);
        let mut out: Vec<DrawOp> = Vec::new();
        let mut i: u16 = 0;
        while i < total
            invariant
                i <= total,
                total as int == min_int(lines@.len() as int, available_height as int),
                start_y as int == valign_offset(self.v_align, total as int, available_height as int),
                ws == colored(block_writes(char_vec_views(lines@), available_width as int, available_height as int,
                    self.h_align, self.v_align), self.colors),
                ws.len() == total,
                ops_views(out@) == ws.take(i as int),
            decreases total - i,
        {
            let line = string_from_chars(lines[i as usize].as_slice());
            let fitted = fit_to_cells(line.as_str(), available_width, TabPolicy::SingleCell, true);
            let w = cell_width(fitted.as_str(), TabPolicy::SingleCell) as u16;
            let line_x = aligned_offset(self.h_align, w, available_width);
            let line_y = start_y + i;
            let op = DrawOp { y: line_y, x: line_x, text: fitted, colors: self.colors };
            let ghost before = out@;
            out.push(op);
            proof {
                assert(ws.take(i + 1) =~= ws.take(i as int).push(ws[i as int]));
                assert(ops_views(out@) =~= ops_views(before).push(op_view(op)));
            }
            i = i + 1;
        }
        proof {
            assert(ws.take(total as int) =~= ws);
        }
        out
    }

    /// The lines the block shows before clipping.
    pub fn get_wrapped_lines(&self) -> (r: Vec<String>)
        ensures
            string_views(r@) == wrapped_lines_spec(self.text@, self.wrap_mode, self.width),
    {
        let lines = wrap_text(self.text.as_str(), self.wrap_mode, self.width);
        char_lines_to_strings(&lines)
    }
}

impl Widget for TextBlock {
    open spec fn size_spec(&self) -> (u16, u16) {
        (self.width, self.height)
    }

    open spec fn position_spec(&self) -> (u16, u16) {
        (0, 0)
    }

    open spec fn draws(&self, views: Seq<crate::widgets::WindowView>, size: (u16, u16), before: Seq<crate::window::OpView>,
        after: Seq<crate::window::OpView>, r: Result<(), Error>) -> bool {
        r is Ok && after == crate::window::apply_writes(before, views, size, colored(
            block_writes(
                wrapped_lines_spec(self.text@, self.wrap_mode, self.width),
                min_int(crate::window::visible_of(views, size).0 as int, self.width as int),
                min_int(crate::window::visible_of(views, size).1 as int, self.height as int),
                self.h_align,
                self.v_align,
            ),
            self.colors,
        ))
    }

    /// Writes the wrapped lines that fit in the block and the visible area,
    /// each clipped with an ellipsis and aligned.
    fn draw(&self, window: &mut Canvas) -> (r: Result<(), Error>)
        ensures
            r is Ok,
            final(window).ops_view() == old(window).ops_after_each(colored(
                block_writes(
                    wrapped_lines_spec(self.text@, self.wrap_mode, self.width),
                    min_int(old(window).visible_size().0 as int, self.width as int),
                    min_int(old(window).visible_size().1 as int, self.height as int),
                    self.h_align,
                    self.v_align,
                ),
                self.colors,
            )),
            final(window).cursor_view() == old(window).cursor_view(),
    {
        let (window_width, window_height) = window.get_size();
        let available_width = if window_width < self.width { window_width } else { self.width };
        let available_height = if window_height < self.height { window_height } else { self.height };
        let ops = self.block_ops(available_width, available_height);
        window.emit(&ops);
        Ok(())
    }

    fn get_size(&self) -> (r: (u16, u16)) {
        (self.width, self.height)
    }

    fn get_position(&self) -> (r: (u16, u16)) {
        (0, 0)
    }
}

impl crate::widgets::BoxedWidget for Label {
    fn into_boxed(self) -> (r: crate::widgets::DynWidget) {
        crate::widgets::DynWidget { widget: Box::new(self) }
    }
}

impl crate::widgets::BoxedWidget for Text {
    fn into_boxed(self) -> (r: crate::widgets::DynWidget) {
        crate::widgets::DynWidget { widget: Box::new(self) }
    }
}

impl crate::widgets::BoxedWidget for TextBlock {
    fn into_boxed(self) -> (r: crate::widgets::DynWidget) {
        crate::widgets::DynWidget { widget: Box::new(self) }
    }
}

} // verus!
