//! A non-interactive table: an optional border, an optional header row
//! with an optional separator, and body rows of single-line cells clipped
//! to their columns, scrolled by cells horizontally and by rows vertically.

use vstd::prelude::*;
use crate::color::{Color, ColorPair};
use crate::error::Error;
use crate::text::{take_cells_ellipsis, repeat_char, repeat_string, push_str, str_chars, string_from_chars,
    clip_to_cells_ellipsis, cell_width, char_string, to_owned_string, TabPolicy};
use crate::window::{Canvas, Window, DrawOp, op_view, ops_views, push_op};
use crate::widgets::common::BorderChars;
use crate::widgets::container::sat16;
use crate::widgets::input::{sat_sub, string_views};
use crate::widgets::text::{Alignment, min_int};
use crate::widgets::Widget;

verus! {

/// `s` padded with spaces to `width` cells by `align` (half the padding on
/// the left, rounded down, when centered); unchanged when its length (as a
/// `u16`) already reaches `width`.
pub open spec fn aligned_text(s: Seq<char>, width: u16, align: Alignment) -> Seq<char> {
    let tw = (s.len() as u16) as int;
    if tw >= width {
        s
    } else {
        let pad = width - tw;
        match align {
            Alignment::Left => s + repeat_char(' ', pad as nat),
            Alignment::Right => repeat_char(' ', pad as nat) + s,
            Alignment::Center => repeat_char(' ', (pad / 2) as nat) + s + repeat_char(' ', (pad - pad / 2) as nat),
        }
    }
}

/// Replaces `out` with `s` padded to `width` cells by `align`.
pub fn align_to_width(out: &mut String, s: &str, width: u16, align: Alignment)
    ensures
        final(out)@ == aligned_text(s@, width, align),
{
    *out = String::new();
    let text_w = cell_width(s, TabPolicy::SingleCell) as u16;
    if text_w >= width {
        push_str(out, s);
        assert(out@ =~= aligned_text(s@, width, align));
        return;
    }
    let pad = width - text_w;
    match align {
        Alignment::Left => {
            push_str(out, s);
            let sp = repeat_string(' ', pad as usize);
            push_str(out, sp.as_str());
        },
        Alignment::Right => {
            let sp = repeat_string(' ', pad as usize);
            push_str(out, sp.as_str());
            push_str(out, s);
        },
        Alignment::Center => {
            let left = pad / 2;
            let right = pad - left;
            let sl = repeat_string(' ', left as usize);
            push_str(out, sl.as_str());
            push_str(out, s);
            let sr = repeat_string(' ', right as usize);
            push_str(out, sr.as_str());
        },
    }
    assert(out@ =~= aligned_text(s@, width, align));
}

/// The part of `text`, laid out from column `start`, that falls in the
/// columns `vs .. vs + vw`, with its offset from `vs`; `None` when no part
/// does.
pub open spec fn clip_view(text: Seq<char>, start: int, vs: int, vw: int) -> Option<(int, Seq<char>)> {
    let lo = if start > vs { start } else { vs };
    let end = start + text.len();
    let hi = if end < vs + vw { end } else { vs + vw };
    if lo < hi {
        Some((lo - vs, text.subrange(lo - start, hi - start)))
    } else {
        None
    }
}

/// The part of `text`, laid out from column `start`, that is visible in the
/// `visible_width` columns from `visible_start`, with its offset.
pub fn clip_view_text(text: &str, start: u16, visible_start: u16, visible_width: u16) -> (r: Option<(u16, String)>)
    ensures
        match clip_view(text@, start as int, visible_start as int, visible_width as int) {
            Some((off, t)) => r matches Some((o, s)) && o == off && s@ == t,
            None => r is None,
        },
{
    let cs = str_chars(text);
    let lo: u128 = if start > visible_start { start as u128 } else { visible_start as u128 };
    let end: u128 = start as u128 + cs.len() as u128;
    let vend: u128 = visible_start as u128 + visible_width as u128;
    let hi: u128 = if end < vend { end } else { vend };
    if lo >= hi {
        return None;
    }
    let a: usize = (lo - start as u128) as usize;
    let b: usize = (hi - start as u128) as usize;
    let mut out = String::new();
    let mut i: usize = a;
    while i < b
        invariant
            a <= i <= b <= cs@.len(),
            out@ == cs@.subrange(a as int, i as int),
        decreases b - i,
    {
        crate::text::push_char(&mut out, cs[i]);
        assert(cs@.subrange(a as int, i + 1) =~= cs@.subrange(a as int, i as int).push(cs@[i as int]));
        i = i + 1;
    }
    Some(((lo - visible_start as u128) as u16, out))
}

/// A column of a [`Table`]: its header, width in cells and alignment.
#[derive(Debug, Clone)]
pub struct TableColumn {
    pub header: String,
    pub width: u16,
    /// Alignment of the body cells.
    pub alignment: Alignment,
    /// Alignment of the header cell, when it differs from the body's.
    pub header_alignment: Option<Alignment>,
    pub header_color: Option<ColorPair>,
    pub cell_color: Option<ColorPair>,
}

impl TableColumn {
    /// A left-aligned column 10 cells wide.
    pub fn new(header: &str) -> (r: Self)
        ensures
            r.header@ == header@,
            r.width == 10,
            r.alignment == Alignment::Left,
            (r.header_alignment is None),
            (r.header_color is None),
            (r.cell_color is None),
    {
        TableColumn {
            header: to_owned_string(header),
            width: 10,
            alignment: Alignment::Left,
            header_alignment: None,
            header_color: None,
            cell_color: None,
        }
    }

    /// The width in cells.
    pub fn width(&self) -> (r: u16)
        ensures
            r == self.width,
    {
        self.width
    }

    /// Sets the width in cells.
    pub fn with_width(self, width: u16) -> (r: Self)
        ensures
            r == (TableColumn { width, ..self }),
    {
        TableColumn { width, ..self }
    }

    /// Sets the alignment of the body cells.
    pub fn with_alignment(self, alignment: Alignment) -> (r: Self)
        ensures
            r == (TableColumn { alignment, ..self }),
    {
        TableColumn { alignment, ..self }
    }

    /// Sets the alignment of the header cell.
    pub fn with_header_alignment(self, alignment: Alignment) -> (r: Self)
        ensures
            r == (TableColumn { header_alignment: Some(alignment), ..self }),
    {
        TableColumn { header_alignment: Some(alignment), ..self }
    }

    /// Sets the header cell color.
    pub fn with_header_color(self, color: ColorPair) -> (r: Self)
        ensures
            r == (TableColumn { header_color: Some(color), ..self }),
    {
        TableColumn { header_color: Some(color), ..self }
    }

    /// Sets the body cell color.
    pub fn with_cell_color(self, color: ColorPair) -> (r: Self)
        ensures
            r == (TableColumn { cell_color: Some(color), ..self }),
    {
        TableColumn { cell_color: Some(color), ..self }
    }
}

/// A non-interactive table at `(x, y)` of `width` x `height` cells.
///
/// Rows hold one string per column: missing cells show empty, extra cells
/// are ignored. Cells are single-line, clipped with an ellipsis to their
/// column and aligned in it; `scroll_x` shifts the columns left by cells
/// and `scroll_y` skips body rows.
#[derive(Debug, Clone)]
pub struct Table {
    pub x: u16,
    pub y: u16,
    pub width: u16,
    pub height: u16,
    pub columns: Vec<TableColumn>,
    pub rows: Vec<Vec<String>>,
    pub show_border: bool,
    pub border_chars: BorderChars,
    pub border_color: ColorPair,
    pub show_header: bool,
    pub show_header_separator: bool,
    pub header_color: ColorPair,
    pub cell_color: ColorPair,
    /// Color of the column separators and of the header separator.
    pub grid_color: ColorPair,
    pub scroll_x: u16,
    pub scroll_y: u16,
    pub show_column_separators: bool,
    pub column_separator: char,
}

/// A write: row, column, text and colors.
pub type Write = (int, int, Seq<char>, Option<ColorPair>);

/// The sum of the widths of `cols`.
pub open spec fn widths_sum(cols: Seq<TableColumn>) -> int
    decreases cols.len(),
{
    if cols.len() == 0 { 0 } else { widths_sum(cols.drop_last()) + cols.last().width }
}

/// The header texts of `cols`.
pub open spec fn header_views(cols: Seq<TableColumn>) -> Seq<Seq<char>> {
    cols.map_values(|c: TableColumn| c.header@)
}

/// The column where each of the first `k` separators falls (after column
/// `i` ends, where the next column starts one cell later), with the start
/// of column `k`; sums saturate at `u16::MAX`.
pub open spec fn separator_fold(cols: Seq<TableColumn>, k: nat) -> (Seq<int>, int)
    decreases k,
{
    if k == 0 {
        (Seq::empty(), 0)
    } else {
        let prev = separator_fold(cols, (k - 1) as nat);
        let end = sat16(prev.1 + cols[k - 1].width);
        (prev.0.push(end), sat16(end + 1))
    }
}

impl Table {
    /// The table's plain columns.
    pub open spec fn cols(&self) -> Seq<TableColumn> {
        self.columns@
    }

    /// The area inside the border, as (x, y, width, height).
    pub open spec fn content_area_spec(&self) -> (int, int, int, int) {
        if !self.show_border {
            (self.x as int, self.y as int, self.width as int, self.height as int)
        } else {
            (sat16(self.x + 1), sat16(self.y + 1), sat_sub(self.width as int, 2), sat_sub(self.height as int, 2))
        }
    }

    /// The area of the body rows: the content area below the header row and
    /// its separator, when shown and when there is room.
    pub open spec fn body_area_spec(&self) -> (int, int, int, int) {
        let c = self.content_area_spec();
        if self.show_header && c.3 > 0 {
            let by = sat16(c.1 + 1);
            let bh = c.3 - 1;
            if self.show_header_separator && bh > 0 {
                (c.0, sat16(by + 1), c.2, bh - 1)
            } else {
                (c.0, by, c.2, bh)
            }
        } else {
            c
        }
    }

    /// The width of all columns with the separators between them (sums
    /// saturate at `u16::MAX`).
    pub open spec fn total_width_spec(&self) -> int {
        let n = self.cols().len();
        if n == 0 {
            0
        } else {
            let w = sat16(widths_sum(self.cols()));
            if self.show_column_separators { sat16(w + ((n - 1) as u16) as int) } else { w }
        }
    }

    /// The end of the visible columns, `scroll_x` plus the content width
    /// (saturating).
    pub open spec fn visible_end(&self) -> int {
        sat16(self.scroll_x + self.content_area_spec().2)
    }

    /// The writes of column `i` of a row at `y` when it starts at column
    /// `col_start`, with the start column of the next one: a visible column
    /// shows its cell, clipped with an ellipsis, aligned and cut to the
    /// visible columns; a visible separator follows every column but the
    /// last when separators are on.
    pub open spec fn col_step(&self, cells: Seq<Seq<char>>, y: int, is_header: bool, i: int, col_start: int)
        -> (Seq<Write>, int) {
        let col = self.cols()[i];
        let c = self.content_area_spec();
        let vs = self.scroll_x as int;
        let ve = self.visible_end();
        let col_end = sat16(col_start + col.width);
        let base = if is_header { self.header_color } else { self.cell_color };
        let cell: Seq<Write> = if col_end > vs && col_start < ve {
            let raw = if i < cells.len() { cells[i] } else { Seq::empty() };
            let align = if is_header {
                match col.header_alignment { Some(a) => a, None => col.alignment }
            } else {
                col.alignment
            };
            let padded = aligned_text(take_cells_ellipsis(raw, col.width as int), col.width, align);
            match clip_view(padded, col_start, vs, c.2) {
                Some((off, t)) => seq![(y, sat16(c.0 + off), t, Some(base))],
                None => Seq::empty(),
            }
        } else {
            Seq::empty()
        };
        let has_sep = self.show_column_separators && i + 1 < self.cols().len();
        let sep: Seq<Write> = if has_sep && col_end >= vs && col_end < ve {
            seq![(y, sat16(c.0 + (col_end - vs)), seq![self.column_separator], Some(self.grid_color))]
        } else {
            Seq::empty()
        };
        (cell + sep, if has_sep { sat16(col_end + 1) } else { col_end })
    }

    /// The writes of the first `k` columns of a row at `y`, with the start
    /// column of the next one.
    pub open spec fn row_fold(&self, cells: Seq<Seq<char>>, y: int, is_header: bool, k: nat) -> (Seq<Write>, int)
        decreases k,
    {
        if k == 0 {
            (Seq::empty(), 0)
        } else {
            let prev = self.row_fold(cells, y, is_header, (k - 1) as nat);
            let st = self.col_step(cells, y, is_header, k - 1, prev.1);
            (prev.0 + st.0, st.1)
        }
    }

    /// A row at `y`: the visible row blanked in the header or cell color,
    /// then the columns; nothing when there is no content width or no
    /// column width.
    pub open spec fn row_writes(&self, cells: Seq<Seq<char>>, y: int, is_header: bool) -> Seq<Write> {
        let c = self.content_area_spec();
        if c.2 == 0 || self.total_width_spec() == 0 {
            Seq::empty()
        } else {
            let base = if is_header { self.header_color } else { self.cell_color };
            seq![(y, c.0, repeat_char(' ', c.2 as nat), Some(base))] + self.row_fold(cells, y, is_header,
                self.cols().len()).0
        }
    }

    /// The columns of the separators, when separators are on.
    pub open spec fn separator_positions(&self) -> Seq<int> {
        let n = self.cols().len();
        let count: nat = if self.show_column_separators && n > 0 { (n - 1) as nat } else { 0 };
        separator_fold(self.cols(), count).0
    }

    /// The header separator at `y`: the border's horizontal glyph over the
    /// visible columns, with its crossing glyph where a separator falls.
    pub open spec fn rule_writes(&self, y: int) -> Seq<Write> {
        let c = self.content_area_spec();
        if c.2 == 0 {
            Seq::empty()
        } else {
            let vs = self.scroll_x as int;
            let n = self.visible_end() - vs;
            let text = Seq::new(n as nat, |j: int| if self.separator_positions().contains(vs + j) {
                self.border_chars.intersect
            } else {
                self.border_chars.horizontal
            });
            seq![(y, c.0, text, Some(self.grid_color))]
        }
    }

    /// The header row and its separator, when shown and there is room.
    pub open spec fn header_writes(&self) -> Seq<Write> {
        let c = self.content_area_spec();
        if !self.show_header || c.2 == 0 || c.3 == 0 || self.cols().len() == 0 {
            Seq::empty()
        } else {
            self.row_writes(header_views(self.cols()), c.1, true) + (if self.show_header_separator && c.3 >= 2 {
                self.rule_writes(sat16(c.1 + 1))
            } else {
                Seq::empty()
            })
        }
    }

    /// The number of body rows shown.
    pub open spec fn visible_rows(&self) -> int {
        if self.total_width_spec() == 0 {
            0
        } else {
            min_int(sat_sub(self.rows@.len() as int, self.scroll_y as int), self.body_area_spec().3)
        }
    }

    /// The first `k` shown body rows.
    pub open spec fn rows_writes(&self, k: nat) -> Seq<Write>
        decreases k,
    {
        if k == 0 {
            Seq::empty()
        } else {
            let idx = k - 1;
            self.rows_writes((k - 1) as nat) + self.row_writes(string_views(self.rows@[self.scroll_y + idx]@),
                sat16(self.body_area_spec().1 + idx), false)
        }
    }

    /// The body rows from `scroll_y` that fit, then blank rows (in the
    /// default colors) for the rest of the body area.
    pub open spec fn body_writes(&self) -> Seq<Write> {
        let b = self.body_area_spec();
        if b.2 == 0 || b.3 == 0 || self.cols().len() == 0 {
            Seq::empty()
        } else {
            let v = self.visible_rows();
            self.rows_writes(v as nat) + Seq::new((b.3 - v) as nat, |j: int| (sat16(b.1 + v + j), b.0,
                repeat_char(' ', b.2 as nat), None::<ColorPair>))
        }
    }

    /// The right and bottom edges of the border (saturating at `u16::MAX`).
    pub open spec fn border_far(&self) -> (int, int) {
        (sat16(self.x + sat_sub(self.width as int, 1)), sat16(self.y + sat_sub(self.height as int, 1)))
    }

    /// The horizontal run between two corners of the border.
    pub open spec fn border_run(&self, y: int) -> Seq<Write> {
        if self.width > 2 {
            seq![(y, sat16(self.x + 1), repeat_char(self.border_chars.horizontal, sat_sub(self.width as int, 2) as nat),
                Some(self.border_color))]
        } else {
            Seq::empty()
        }
    }

    /// The top edge of the border.
    pub open spec fn border_top(&self) -> Seq<Write> {
        let c = Some(self.border_color);
        seq![(self.y as int, self.x as int, seq![self.border_chars.top_left], c)] + self.border_run(self.y as int)
            + seq![(self.y as int, self.border_far().0, seq![self.border_chars.top_right], c)]
    }

    /// The side edges of the border, row by row between the top and bottom
    /// rows: left side, then right side.
    pub open spec fn border_sides(&self) -> Seq<Write> {
        if self.height > 2 {
            let first = sat16(self.y + 1);
            let x0 = self.x as int;
            let x1 = self.border_far().0;
            Seq::new((2 * sat_sub(self.border_far().1, first)) as nat, |j: int| (first + j / 2,
                if j % 2 == 0 { x0 } else { x1 }, seq![self.border_chars.vertical], Some(self.border_color)))
        } else {
            Seq::empty()
        }
    }

    /// The bottom edge of the border, when the table is taller than a row.
    pub open spec fn border_bottom(&self) -> Seq<Write> {
        let c = Some(self.border_color);
        let y1 = self.border_far().1;
        if self.height > 1 {
            seq![(y1, self.x as int, seq![self.border_chars.bottom_left], c)] + self.border_run(y1) + seq![
                (y1, self.border_far().0, seq![self.border_chars.bottom_right], c),
            ]
        } else {
            Seq::empty()
        }
    }

    /// The outer border, when shown: corners, horizontal runs between them
    /// and the sides.
    pub open spec fn border_writes(&self) -> Seq<Write> {
        if !self.show_border || self.width == 0 || self.height == 0 {
            Seq::empty()
        } else {
            self.border_top() + self.border_sides() + self.border_bottom()
        }
    }

    /// Everything the table draws: nothing for a zero size, else the border,
    /// the header and the body.
    pub open spec fn table_writes(&self) -> Seq<Write> {
        if self.width == 0 || self.height == 0 {
            Seq::empty()
        } else {
            self.border_writes() + self.header_writes() + self.body_writes()
        }
    }
}

impl Table {
    /// The table `new(x, y, width, height)` makes.
    pub open spec fn fresh(x: u16, y: u16, width: u16, height: u16, columns: Vec<TableColumn>, rows: Vec<Vec<String>>) -> Table {
        Table {
            x,
            y,
            width,
            height,
            columns,
            rows,
            show_border: true,
            border_chars: BorderChars::single_line_spec(),
            border_color: ColorPair { fg: Color::LightGray, bg: Color::Transparent },
            show_header: true,
            show_header_separator: true,
            header_color: ColorPair { fg: Color::White, bg: Color::Transparent },
            cell_color: ColorPair { fg: Color::LightGray, bg: Color::Transparent },
            grid_color: ColorPair { fg: Color::DarkGray, bg: Color::Transparent },
            scroll_x: 0,
            scroll_y: 0,
            show_column_separators: true,
            column_separator: '│',
        }
    }

    /// An empty table at `(x, y)` of `width` x `height` cells, with a
    /// single-line border, a header with a separator, column separators and
    /// no scrolling.
    pub fn new(x: u16, y: u16, width: u16, height: u16) -> (r: Self)
        ensures
            r == Table::fresh(x, y, width, height, r.columns, r.rows),
            r.columns@.len() == 0,
            r.rows@.len() == 0,
    {
        Table {
            x,
            y,
            width,
            height,
            columns: Vec::new(),
            rows: Vec::new(),
            show_border: true,
            border_chars: BorderChars::single_line(),
            border_color: ColorPair::new(Color::LightGray, Color::Transparent),
            show_header: true,
            show_header_separator: true,
            header_color: ColorPair::new(Color::White, Color::Transparent),
            cell_color: ColorPair::new(Color::LightGray, Color::Transparent),
            grid_color: ColorPair::new(Color::DarkGray, Color::Transparent),
            scroll_x: 0,
            scroll_y: 0,
            show_column_separators: true,
            column_separator: '│',
        }
    }

    /// Moves and resizes the table.
    pub fn with_position_and_size(self, x: u16, y: u16, width: u16, height: u16) -> (r: Self)
        ensures
            r == (Table { x, y, width, height, ..self }),
    {
        Table { x, y, width, height, ..self }
    }

    /// Sets the columns.
    pub fn with_columns(self, columns: Vec<TableColumn>) -> (r: Self)
        ensures
            r == (Table { columns, ..self }),
    {
        Table { columns, ..self }
    }

    /// Sets the rows, one string per cell.
    pub fn with_rows(self, rows: Vec<Vec<String>>) -> (r: Self)
        ensures
            r == (Table { rows, ..self }),
    {
        Table { rows, ..self }
    }

    /// Shows or hides the outer border.
    pub fn with_border(self, enabled: bool) -> (r: Self)
        ensures
            r == (Table { show_border: enabled, ..self }),
    {
        Table { show_border: enabled, ..self }
    }

    /// Sets the border glyphs.
    pub fn with_border_chars(self, chars: BorderChars) -> (r: Self)
        ensures
            r == (Table { border_chars: chars, ..self }),
    {
        Table { border_chars: chars, ..self }
    }

    /// Sets the border color.
    pub fn with_border_color(self, color: ColorPair) -> (r: Self)
        ensures
            r == (Table { border_color: color, ..self }),
    {
        Table { border_color: color, ..self }
    }

    /// Shows or hides the header row.
    pub fn with_header(self, enabled: bool) -> (r: Self)
        ensures
            r == (Table { show_header: enabled, ..self }),
    {
        Table { show_header: enabled, ..self }
    }

    /// Shows or hides the line below the header.
    pub fn with_header_separator(self, enabled: bool) -> (r: Self)
        ensures
            r == (Table { show_header_separator: enabled, ..self }),
    {
        Table { show_header_separator: enabled, ..self }
    }

    /// Sets the header color.
    pub fn with_header_color(self, color: ColorPair) -> (r: Self)
        ensures
            r == (Table { header_color: color, ..self }),
    {
        Table { header_color: color, ..self }
    }

    /// Sets the body cell color.
    pub fn with_cell_color(self, color: ColorPair) -> (r: Self)
        ensures
            r == (Table { cell_color: color, ..self }),
    {
        Table { cell_color: color, ..self }
    }

    /// Sets the color of the separators.
    pub fn with_grid_color(self, color: ColorPair) -> (r: Self)
        ensures
            r == (Table { grid_color: color, ..self }),
    {
        Table { grid_color: color, ..self }
    }

    /// Sets the scroll position: `scroll_x` in cells, `scroll_y` in rows.
    pub fn with_scroll(self, scroll_x: u16, scroll_y: u16) -> (r: Self)
        ensures
            r == (Table { scroll_x, scroll_y, ..self }),
    {
        Table { scroll_x, scroll_y, ..self }
    }

    /// Shows or hides the separators between columns.
    pub fn with_column_separators(self, enabled: bool) -> (r: Self)
        ensures
            r == (Table { show_column_separators: enabled, ..self }),
    {
        Table { show_column_separators: enabled, ..self }
    }

    /// Sets the scroll position.
    pub fn set_scroll(&mut self, scroll_x: u16, scroll_y: u16)
        ensures
            *final(self) == (Table { scroll_x, scroll_y, ..*old(self) }),
    {
        self.scroll_x = scroll_x;
        self.scroll_y = scroll_y;
    }

    /// The horizontal scroll position, in cells.
    pub fn scroll_x(&self) -> (r: u16)
        ensures
            r == self.scroll_x,
    {
        self.scroll_x
    }

    /// The vertical scroll position, in rows.
    pub fn scroll_y(&self) -> (r: u16)
        ensures
            r == self.scroll_y,
    {
        self.scroll_y
    }

    /// The number of rows.
    pub fn row_count(&self) -> (r: usize)
        ensures
            r == self.rows@.len(),
    {
        self.rows.len()
    }

    /// The number of columns.
    pub fn column_count(&self) -> (r: usize)
        ensures
            r == self.columns@.len(),
    {
        self.columns.len()
    }

    /// The area inside the border, as (x, y, width, height).
    pub fn content_area(&self) -> (r: (u16, u16, u16, u16))
        ensures
            (r.0 as int, r.1 as int, r.2 as int, r.3 as int) == self.content_area_spec(),
    {
        if !self.show_border {
            return (self.x, self.y, self.width, self.height);
        }
        (self.x.saturating_add(1), self.y.saturating_add(1), self.width.saturating_sub(2), self.height.saturating_sub(2))
    }

    /// The area of the body rows.
    fn body_area(&self) -> (r: (u16, u16, u16, u16))
        ensures
            (r.0 as int, r.1 as int, r.2 as int, r.3 as int) == self.body_area_spec(),
    {
        let (cx, cy, cw, ch) = self.content_area();
        let mut body_y = cy;
        let mut body_h = ch;
        if self.show_header && ch > 0 {
            body_y = body_y.saturating_add(1);
            body_h = body_h.saturating_sub(1);
            if self.show_header_separator && body_h > 0 {
                body_y = body_y.saturating_add(1);
                body_h = body_h.saturating_sub(1);
            }
        }
        (cx, body_y, cw, body_h)
    }

    /// The width of all columns and the separators between them.
    fn total_table_content_width(&self) -> (r: u16)
        ensures
            r == self.total_width_spec(),
    {
        let n = self.columns.len();
        if n == 0 {
            return 0;
        }
        let mut sum: u16 = 0;
        let mut i: usize = 0;
        while i < n
            invariant
                i <= n == self.cols().len(),
                sum == sat16(widths_sum(self.cols().take(i as int))),
            decreases n - i,
        {
            proof {
                assert(self.cols().take(i + 1).drop_last() =~= self.cols().take(i as int));
                lemma_widths_sum_nonneg(self.cols().take(i as int));
            }
            sum = sum.saturating_add(self.columns[i].width);
            i = i + 1;
        }
        proof {
            assert(self.cols().take(n as int) =~= self.cols());
        }
        if self.show_column_separators {
            sum.saturating_add((n - 1) as u16)
        } else {
            sum
        }
    }
}

/// Widths never sum to less than zero.
proof fn lemma_widths_sum_nonneg(cols: Seq<TableColumn>)
    ensures
        widths_sum(cols) >= 0,
    decreases cols.len(),
{
    if cols.len() > 0 {
        lemma_widths_sum_nonneg(cols.drop_last());
    }
}

impl Default for Table {
    /// An empty table of zero size at the origin.
    fn default() -> (r: Self)
        ensures
            r == Table::fresh(0, 0, 0, 0, r.columns, r.rows),
            r.columns@.len() == 0,
            r.rows@.len() == 0,
    {
        Table::new(0, 0, 0, 0)
    }
}

impl Table {
    /// Appends the horizontal run of the border at `y` to `out`.
    fn border_run_ops(&self, out: &mut Vec<DrawOp>, y: u16)
        ensures
            ops_views(final(out)@) == ops_views(old(out)@) + self.border_run(y as int),
    {
        let ghost base = ops_views(out@);
        if self.width > 2 {
            push_op(out, y, self.x.saturating_add(1), repeat_string(self.border_chars.horizontal,
                self.width.saturating_sub(2) as usize), Some(self.border_color));
        }
        assert(ops_views(out@) =~= base + self.border_run(y as int));
    }

    /// Appends the side edges of the border to `out`.
    fn border_side_ops(&self, out: &mut Vec<DrawOp>)
        ensures
            ops_views(final(out)@) == ops_views(old(out)@) + self.border_sides(),
    {
        let ghost base = ops_views(out@);
        if self.height <= 2 {
            assert(ops_views(out@) =~= base + self.border_sides());
            return;
        }
        let c = Some(self.border_color);
        let v = self.border_chars.vertical;
        let x0 = self.x;
        let x1 = self.x.saturating_add(self.width.saturating_sub(1));
        let y1 = self.y.saturating_add(self.height.saturating_sub(1));
        let first = self.y.saturating_add(1);
        let ghost sides = self.border_sides();
        let mut yy = first;
        while yy < y1
            invariant
                first <= yy,
                yy <= y1 || yy == first,
                first as int == sat16(self.y + 1),
                y1 as int == self.border_far().1,
                x1 as int == self.border_far().0,
                x0 == self.x,
                c == Some(self.border_color),
                v == self.border_chars.vertical,
                self.height > 2,
                sides == self.border_sides(),
                sides.len() == 2 * sat_sub(y1 as int, first as int),
                ops_views(out@) == base + sides.take(2 * (yy - first)),
            decreases y1 - yy,
        {
            push_op(out, yy, x0, char_string(v), c);
            push_op(out, yy, x1, char_string(v), c);
            proof {
                let k = yy - first;
                assert(sides[2 * k] == (yy as int, x0 as int, seq![v], c));
                assert(sides[2 * k + 1] == (yy as int, x1 as int, seq![v], c));
                assert(sides.take(2 * (k + 1)) =~= sides.take(2 * k).push(sides[2 * k]).push(sides[2 * k + 1]));
            }
            yy = yy + 1;
        }
        proof {
            if y1 > first {
                assert(yy == y1);
            }
            assert(sides.take(2 * (yy - first)) =~= sides);
        }
    }

    /// Appends the border writes to `out`.
    fn draw_border(&self, out: &mut Vec<DrawOp>)
        ensures
            ops_views(final(out)@) == ops_views(old(out)@) + self.border_writes(),
    {
        let ghost base = ops_views(out@);
        if !self.show_border || self.width == 0 || self.height == 0 {
            assert(ops_views(out@) =~= base + self.border_writes());
            return;
        }
        let bc = self.border_chars;
        let c = Some(self.border_color);
        let x1 = self.x.saturating_add(self.width.saturating_sub(1));
        let y1 = self.y.saturating_add(self.height.saturating_sub(1));
        push_op(out, self.y, self.x, char_string(bc.top_left), c);
        self.border_run_ops(out, self.y);
        push_op(out, self.y, x1, char_string(bc.top_right), c);
        let ghost top = ops_views(out@);
        assert(top =~= base + self.border_top());
        self.border_side_ops(out);
        let ghost mid = ops_views(out@);
        if self.height > 1 {
            push_op(out, y1, self.x, char_string(bc.bottom_left), c);
            self.border_run_ops(out, y1);
            push_op(out, y1, x1, char_string(bc.bottom_right), c);
        }
        assert(ops_views(out@) =~= mid + self.border_bottom());
        assert(ops_views(out@) =~= base + self.border_writes());
    }

    /// Appends column `i` of a row at `y` showing `cells`, when it starts at
    /// `col_start`, to `out`; returns where the next column starts.
    fn draw_column(&self, out: &mut Vec<DrawOp>, y: u16, cells: &Vec<String>, is_header: bool, i: usize,
        col_start: u16, content_x: u16, content_w: u16, base_color: ColorPair, visible_end: u16) -> (r: u16)
        requires
            i < self.cols().len(),
            content_x as int == self.content_area_spec().0,
            content_w as int == self.content_area_spec().2,
            visible_end as int == self.visible_end(),
            base_color == (if is_header { self.header_color } else { self.cell_color }),
        ensures
            ops_views(final(out)@) == ops_views(old(out)@) + self.col_step(string_views(cells@), y as int, is_header,
                i as int, col_start as int).0,
            r as int == self.col_step(string_views(cells@), y as int, is_header, i as int, col_start as int).1,
    {
        let ghost base = ops_views(out@);
        let ghost cv = string_views(cells@);
        let visible_start = self.scroll_x;
        let col = &self.columns[i];
        let col_end = col_start.saturating_add(col.width);
        if col_end > visible_start && col_start < visible_end {
            let empty = String::new();
            let raw: &str = if i < cells.len() { cells[i].as_str() } else { empty.as_str() };
            proof {
                if i < cells.len() {
                    assert(cv[i as int] == cells@[i as int]@);
                }
            }
            let align = if is_header {
                match col.header_alignment {
                    Some(a) => a,
                    None => col.alignment,
                }
            } else {
                col.alignment
            };
            let clipped = clip_to_cells_ellipsis(raw, col.width, TabPolicy::SingleCell);
            let mut scratch = String::new();
            align_to_width(&mut scratch, clipped.as_str(), col.width, align);
            match clip_view_text(scratch.as_str(), col_start, visible_start, content_w) {
                Some((offset, visible_cell)) => {
                    push_op(out, y, content_x.saturating_add(offset), visible_cell, Some(base_color));
                },
                None => {},
            }
        }
        let ghost after_cell = ops_views(out@);
        let n = self.columns.len();
        let next = if self.show_column_separators && i < n - 1 {
            if col_end >= visible_start && col_end < visible_end {
                let vx = col_end - visible_start;
                push_op(out, y, content_x.saturating_add(vx), char_string(self.column_separator), Some(self.grid_color));
            }
            col_end.saturating_add(1)
        } else {
            col_end
        };
        assert(ops_views(out@) =~= base + self.col_step(cv, y as int, is_header, i as int, col_start as int).0);
        next
    }

    /// Appends a row at `y` showing `cells` to `out`.
    fn draw_row_cells(&self, out: &mut Vec<DrawOp>, y: u16, cells: &Vec<String>, is_header: bool)
        ensures
            ops_views(final(out)@) == ops_views(old(out)@) + self.row_writes(string_views(cells@), y as int, is_header),
    {
        let ghost base = ops_views(out@);
        let ghost cv = string_views(cells@);
        let (content_x, _, content_w, _) = self.content_area();
        if content_w == 0 {
            assert(ops_views(out@) =~= base + self.row_writes(cv, y as int, is_header));
            return;
        }
        let total_w = self.total_table_content_width();
        if total_w == 0 {
            assert(ops_views(out@) =~= base + self.row_writes(cv, y as int, is_header));
            return;
        }
        let base_color = if is_header { self.header_color } else { self.cell_color };
        push_op(out, y, content_x, repeat_string(' ', content_w as usize), Some(base_color));
        let ghost head = ops_views(out@);
        let visible_start = self.scroll_x;
        let visible_end = self.scroll_x.saturating_add(content_w);
        let mut col_start: u16 = 0;
        let n = self.columns.len();
        let mut i: usize = 0;
        proof {
            assert(ops_views(out@) =~= head + self.row_fold(cv, y as int, is_header, 0).0);
        }
        while i < n
            invariant
                i <= n == self.cols().len(),
                cv == string_views(cells@),
                content_x as int == self.content_area_spec().0,
                content_w as int == self.content_area_spec().2,
                visible_start == self.scroll_x,
                visible_end as int == self.visible_end(),
                base_color == (if is_header { self.header_color } else { self.cell_color }),
                col_start as int == self.row_fold(cv, y as int, is_header, i as nat).1,
                ops_views(out@) == head + self.row_fold(cv, y as int, is_header, i as nat).0,
            decreases n - i,
        {
            let ghost before = ops_views(out@);
            col_start = self.draw_column(out, y, cells, is_header, i, col_start, content_x, content_w, base_color,
                visible_end);
            proof {
                assert(ops_views(out@) =~= head + self.row_fold(cv, y as int, is_header, (i + 1) as nat).0);
            }
            i = i + 1;
        }
        proof {
            assert(ops_views(out@) =~= base + self.row_writes(cv, y as int, is_header));
        }
    }

    /// The separator columns, as `u16`s.
    fn separator_positions_vec(&self) -> (r: Vec<u16>)
        ensures
            r@.map_values(|p: u16| p as int) == self.separator_positions(),
    {
        let n = self.columns.len();
        let count: usize = if self.show_column_separators && n > 0 { n - 1 } else { 0 };
        let mut out: Vec<u16> = Vec::new();
        let mut start: u16 = 0;
        let mut i: usize = 0;
        proof {
            assert(out@.map_values(|p: u16| p as int) =~= Seq::<int>::empty());
        }
        while i < count
            invariant
                i <= count,
                count <= n,
                n == self.cols().len(),
                out@.map_values(|p: u16| p as int) == separator_fold(self.cols(), i as nat).0,
                start as int == separator_fold(self.cols(), i as nat).1,
            decreases count - i,
        {
            let end = start.saturating_add(self.columns[i].width);
            let ghost before = out@;
            out.push(end);
            proof {
                assert(out@.map_values(|p: u16| p as int) =~= before.map_values(|p: u16| p as int).push(end as int));
            }
            start = end.saturating_add(1);
            i = i + 1;
        }
        out
    }

    /// Appends the header separator at `y` to `out`.
    fn draw_horizontal_rule(&self, out: &mut Vec<DrawOp>, y: u16, x: u16, w: u16)
        requires
            x as int == self.content_area_spec().0,
            w as int == self.content_area_spec().2,
        ensures
            ops_views(final(out)@) == ops_views(old(out)@) + self.rule_writes(y as int),
    {
        let ghost base = ops_views(out@);
        if w == 0 {
            assert(ops_views(out@) =~= base + self.rule_writes(y as int));
            return;
        }
        let positions = self.separator_positions_vec();
        let ghost ps = self.separator_positions();
        let visible_start = self.scroll_x;
        let visible_end = self.scroll_x.saturating_add(w);
        let bc = self.border_chars;
        let ghost text = Seq::new((visible_end - visible_start) as nat, |j: int| if ps.contains(visible_start + j) {
            bc.intersect
        } else {
            bc.horizontal
        });
        let mut scratch = String::new();
        let mut col = visible_start;
        while col < visible_end
            invariant
                visible_start <= col <= visible_end,
                positions@.map_values(|p: u16| p as int) == ps,
                text == Seq::new((visible_end - visible_start) as nat, |j: int| if ps.contains(visible_start + j) {
                    bc.intersect
                } else {
                    bc.horizontal
                }),
                scratch@ == text.take(col - visible_start),
            decreases visible_end - col,
        {
            let mut found = false;
            let mut k: usize = 0;
            while k < positions.len()
                invariant
                    k <= positions@.len(),
                    positions@.map_values(|p: u16| p as int) == ps,
                    found == (exists|m: int| 0 <= m < k && positions@[m] == col),
                decreases positions.len() - k,
            {
                if positions[k] == col {
                    found = true;
                }
                k = k + 1;
            }
            proof {
                if found {
                    let m = choose|m: int| 0 <= m < k && positions@[m] == col;
                    assert(ps[m] == col as int);
                } else {
                    assert forall|m: int| 0 <= m < ps.len() implies ps[m] != col as int by {
                        assert(ps[m] == positions@[m] as int);
                    }
                }
                assert(found == ps.contains(col as int));
            }
            let g = if found { bc.intersect } else { bc.horizontal };
            crate::text::push_char(&mut scratch, g);
            proof {
                assert(text.take(col + 1 - visible_start) =~= text.take(col - visible_start).push(g));
            }
            col = col + 1;
        }
        proof {
            assert(text.take(visible_end - visible_start) =~= text);
        }
        push_op(out, y, x, scratch, Some(self.grid_color));
        proof {
            assert(ops_views(out@) =~= base + self.rule_writes(y as int));
        }
    }

    /// Appends the header row and its separator to `out`.
    fn draw_header(&self, out: &mut Vec<DrawOp>)
        ensures
            ops_views(final(out)@) == ops_views(old(out)@) + self.header_writes(),
    {
        let ghost base = ops_views(out@);
        let (cx, cy, cw, ch) = self.content_area();
        if !self.show_header || cw == 0 || ch == 0 || self.columns.len() == 0 {
            assert(ops_views(out@) =~= base + self.header_writes());
            return;
        }
        let mut headers: Vec<String> = Vec::new();
        let mut i: usize = 0;
        while i < self.columns.len()
            invariant
                i <= self.cols().len(),
                string_views(headers@) == header_views(self.cols()).take(i as int),
            decreases self.columns.len() - i,
        {
            let h = to_owned_string(self.columns[i].header.as_str());
            let ghost before = headers@;
            headers.push(h);
            proof {
                assert(string_views(headers@) =~= string_views(before).push(h@));
                assert(header_views(self.cols()).take(i + 1) =~= header_views(self.cols()).take(i as int).push(
                    self.cols()[i as int].header@));
            }
            i = i + 1;
        }
        proof {
            assert(header_views(self.cols()).take(i as int) =~= header_views(self.cols()));
        }
        self.draw_row_cells(out, cy, &headers, true);
        let ghost mid = ops_views(out@);
        if self.show_header_separator && ch >= 2 {
            self.draw_horizontal_rule(out, cy.saturating_add(1), cx, cw);
        }
        proof {
            assert(ops_views(out@) =~= base + self.header_writes());
        }
    }

    /// Appends the body rows and the blank rows below them to `out`.
    fn draw_body(&self, out: &mut Vec<DrawOp>)
        ensures
            ops_views(final(out)@) == ops_views(old(out)@) + self.body_writes(),
    {
        let ghost base = ops_views(out@);
        let (bx, by, bw, bh) = self.body_area();
        if bw == 0 || bh == 0 || self.columns.len() == 0 {
            assert(ops_views(out@) =~= base + self.body_writes());
            return;
        }
        let start_row = self.scroll_y as usize;
        let total_w = self.total_table_content_width();
        let visible_rows: usize = if total_w == 0 {
            0
        } else {
            let rest = self.rows.len().saturating_sub(start_row);
            if rest < bh as usize { rest } else { bh as usize }
        };
        let mut idx: usize = 0;
        while idx < visible_rows
            invariant
                idx <= visible_rows,
                visible_rows as int == self.visible_rows(),
                visible_rows <= bh,
                visible_rows == 0 || start_row + visible_rows <= self.rows@.len(),
                start_row == self.scroll_y,
                by as int == self.body_area_spec().1,
                ops_views(out@) == base + self.rows_writes(idx as nat),
            decreases visible_rows - idx,
        {
            let row_ref = &self.rows[start_row + idx];
            let yy = by.saturating_add(idx as u16);
            self.draw_row_cells(out, yy, row_ref, false);
            proof {
                assert(ops_views(out@) =~= base + self.rows_writes((idx + 1) as nat));
            }
            idx = idx + 1;
        }
        let ghost rows_done = ops_views(out@);
        let v = visible_rows as u16;
        let ghost blanks = Seq::new((bh - v) as nat, |j: int| (sat16(by + v + j), bx as int,
            repeat_char(' ', bw as nat), None::<ColorPair>));
        let mut row: u16 = v;
        while row < bh
            invariant
                v <= row <= bh,
                blanks == Seq::new((bh - v) as nat, |j: int| (sat16(by + v + j), bx as int,
                    repeat_char(' ', bw as nat), None::<ColorPair>)),
                ops_views(out@) == rows_done + blanks.take(row - v),
            decreases bh - row,
        {
            push_op(out, by.saturating_add(row), bx, repeat_string(' ', bw as usize), None);
            proof {
                assert(blanks.take(row + 1 - v) =~= blanks.take(row - v).push(blanks[row - v]));
            }
            row = row + 1;
        }
        proof {
            assert(blanks.take(bh - v) =~= blanks);
            assert(ops_views(out@) =~= base + self.body_writes());
        }
    }
}

impl Widget for Table {
    open spec fn size_spec(&self) -> (u16, u16) {
        (self.width, self.height)
    }

    open spec fn position_spec(&self) -> (u16, u16) {
        (self.x, self.y)
    }

    open spec fn draws(&self, views: Seq<crate::widgets::WindowView>, size: (u16, u16), before: Seq<crate::window::OpView>,
        after: Seq<crate::window::OpView>, r: Result<(), Error>) -> bool {
        r is Ok && after == crate::window::apply_writes(before, views, size, self.table_writes())
    }

    /// Draws the border, the header and the body (see
    /// [`Table::table_writes`]).
    fn draw(&self, window: &mut Canvas) -> (r: Result<(), Error>)
        ensures
            r is Ok,
            final(window).ops_view() == old(window).ops_after_each(self.table_writes()),
            final(window).cursor_view() == old(window).cursor_view(),
    {
        let mut out: Vec<DrawOp> = Vec::new();
        proof {
            assert(ops_views(out@) =~= Seq::<Write>::empty());
        }
        if self.width > 0 && self.height > 0 {
            self.draw_border(&mut out);
            self.draw_header(&mut out);
            self.draw_body(&mut out);
        }
        proof {
            assert(ops_views(out@) =~= self.table_writes());
        }
        window.emit(&out);
        Ok(())
    }

    fn get_size(&self) -> (r: (u16, u16)) {
        (self.width, self.height)
    }

    fn get_position(&self) -> (r: (u16, u16)) {
        (self.x, self.y)
    }
}


/// Padding fills the width exactly: a text shorter than the width comes out
/// exactly `width` cells long, a longer one unchanged, and the text itself
/// stands in the result as it was.
pub proof fn lemma_aligned_width(s: Seq<char>, width: u16, align: Alignment)
    requires
        s.len() <= u16::MAX,
    ensures
        aligned_text(s, width, align).len() == (if s.len() >= width { s.len() as int } else { width as int }),
        exists|k: int| 0 <= k && k + s.len() <= aligned_text(s, width, align).len()
            && #[trigger] aligned_text(s, width, align).subrange(k, k + s.len()) == s,
{
    if s.len() >= width {
        assert(aligned_text(s, width, align).subrange(0, s.len() as int) =~= s);
        assert(0 <= 0 && 0 + s.len() <= aligned_text(s, width, align).len());
    } else {
        let pad = width - s.len();
        let k: int = match align {
            Alignment::Left => 0,
            Alignment::Right => pad,
            Alignment::Center => pad / 2,
        };
        assert(aligned_text(s, width, align).subrange(k, k + s.len()) =~= s);
        assert(0 <= k && k + s.len() <= aligned_text(s, width, align).len());
    }
}

/// What a cell shows of itself lies inside the visible columns and is part
/// of the cell.
pub proof fn lemma_clip_view_fits(text: Seq<char>, start: int, vs: int, vw: int)
    requires
        start >= 0,
        vs >= 0,
        vw >= 0,
    ensures
        clip_view(text, start, vs, vw) matches Some((off, t)) ==> 0 <= off && off + t.len() <= vw && 0 < t.len()
            && t == text.subrange(off + vs - start, off + vs - start + t.len()),
{
}

impl crate::widgets::BoxedWidget for Table {
    fn into_boxed(self) -> (r: crate::widgets::DynWidget) {
        crate::widgets::DynWidget { widget: Box::new(self) }
    }
}

/// The writes of `rs`, one list after another.
pub open spec fn concat_writes(rs: Seq<Seq<Write>>) -> Seq<Write>
    decreases rs.len(),
{
    if rs.len() == 0 {
        Seq::empty()
    } else {
        concat_writes(rs.drop_last()) + rs.last()
    }
}

/// The first `k` shown body rows are rows `scroll_y` to `scroll_y + k - 1`
/// of the table, on the first `k` lines of the body area.
proof fn lemma_rows_writes_scrolled(t: &Table, k: nat)
    ensures
        t.rows_writes(k) == concat_writes(Seq::new(k, |j: int| t.row_writes(string_views(t.rows@[t.scroll_y + j]@),
            sat16(t.body_area_spec().1 + j), false))),
    decreases k,
{
    let f = |j: int| t.row_writes(string_views(t.rows@[t.scroll_y + j]@), sat16(t.body_area_spec().1 + j), false);
    if k > 0 {
        lemma_rows_writes_scrolled(t, (k - 1) as nat);
        assert(Seq::new(k, f).drop_last() =~= Seq::new((k - 1) as nat, f));
    } else {
        assert(Seq::new(0, f) =~= Seq::<Seq<Write>>::empty());
    }
}

/// A table's body shows its rows from the vertical scroll position on:
/// body line `j` holds row `scroll_y + j`, for each `j` below the number of
/// rows shown (which stay within the rows), and the lines below them are
/// blank.
pub proof fn lemma_body_rows_follow_scroll(t: &Table)
    ensures
        t.visible_rows() > 0 ==> t.scroll_y + t.visible_rows() <= t.rows@.len(),
        ({
            let b = t.body_area_spec();
            let v = t.visible_rows();
            b.2 > 0 && b.3 > 0 && t.cols().len() > 0 ==> t.body_writes() == concat_writes(Seq::new(v as nat,
                |j: int| t.row_writes(string_views(t.rows@[t.scroll_y + j]@), sat16(b.1 + j), false)))
                + Seq::new((b.3 - v) as nat, |j: int| (sat16(b.1 + v + j), b.0, repeat_char(' ', b.2 as nat),
                None::<ColorPair>))
        }),
{
    let b = t.body_area_spec();
    if b.2 > 0 && b.3 > 0 && t.cols().len() > 0 {
        lemma_rows_writes_scrolled(t, t.visible_rows() as nat);
    }
}

} // verus!
