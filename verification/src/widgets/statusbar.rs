//! A status bar with left, centered and right sections, placed at the top,
//! the bottom or a percentage of the window height.

use vstd::prelude::*;
use crate::color::ColorPair;
use crate::error::Error;
use crate::text::{take_cells, repeat_char, repeat_string, to_owned_string, push_char, cell_width, clip_to_cells,
    TabPolicy};
use crate::window::{Canvas, Window, DrawOp, ops_views, push_op};
use crate::widgets::container::sat16;
use crate::widgets::input::sat_sub;
use crate::widgets::Widget;

verus! {

/// Where a status bar sits.
#[derive(Debug, Clone, Copy, PartialEq, Eq, Structural)]
pub enum StatusBarPosition {
    Bottom,
    Top,
    /// At this percentage of the window height (kept so the bar fits).
    Percentage(u16),
}

/// A status bar `height` rows tall.
pub struct StatusBar {
    pub left: String,
    pub center: String,
    pub right: String,
    pub colors: Option<ColorPair>,
    pub height: u16,
    pub position: StatusBarPosition,
    /// Whether its rows are filled with its background color.
    pub fill_background: bool,
}

/// `s` when its length (as a `u16`) fits in `width` cells, else its first
/// `width - 1` chars and an ellipsis.
pub open spec fn fit_or_ellipsis(s: Seq<char>, width: int) -> Seq<char> {
    if (s.len() as u16) <= width { s } else { take_cells(s, sat_sub(width, 1)).push('…') }
}

/// Returns `s`, or its first `width - 1` chars and an ellipsis when its
/// length (as a `u16`) exceeds `width`.
fn fit_with_ellipsis(s: &str, width: u16) -> (r: String)
    ensures
        r@ == fit_or_ellipsis(s@, width as int),
{
    if cell_width(s, TabPolicy::SingleCell) as u16 <= width {
        to_owned_string(s)
    } else {
        let mut t = clip_to_cells(s, width.saturating_sub(1), TabPolicy::SingleCell);
        push_char(&mut t, '…');
        t
    }
}

impl StatusBar {
    /// An empty one-row bar at the bottom that fills its background.
    pub fn new() -> (r: Self)
        ensures
            r.left@.len() == 0 && r.center@.len() == 0 && r.right@.len() == 0,
            (r.colors is None),
            r.height == 1,
            r.position == StatusBarPosition::Bottom,
            r.fill_background,
    {
        StatusBar {
            left: String::new(),
            center: String::new(),
            right: String::new(),
            colors: None,
            height: 1,
            position: StatusBarPosition::Bottom,
            fill_background: true,
        }
    }

    /// Sets the left section.
    pub fn with_left(self, text: &str) -> (r: Self)
        ensures
            r.left@ == text@,
            r.center == self.center && r.right == self.right,
            r.colors == self.colors && r.height == self.height && r.position == self.position
                && r.fill_background == self.fill_background,
    {
        StatusBar { left: to_owned_string(text), ..self }
    }

    /// Sets the center section.
    pub fn with_center(self, text: &str) -> (r: Self)
        ensures
            r.center@ == text@,
            r.left == self.left && r.right == self.right,
            r.colors == self.colors && r.height == self.height && r.position == self.position
                && r.fill_background == self.fill_background,
    {
        StatusBar { center: to_owned_string(text), ..self }
    }

    /// Sets the right section.
    pub fn with_right(self, text: &str) -> (r: Self)
        ensures
            r.right@ == text@,
            r.left == self.left && r.center == self.center,
            r.colors == self.colors && r.height == self.height && r.position == self.position
                && r.fill_background == self.fill_background,
    {
        StatusBar { right: to_owned_string(text), ..self }
    }

    /// Sets all three sections.
    pub fn with_sections(self, left: &str, center: &str, right: &str) -> (r: Self)
        ensures
            r.left@ == left@ && r.center@ == center@ && r.right@ == right@,
            r.colors == self.colors && r.height == self.height && r.position == self.position
                && r.fill_background == self.fill_background,
    {
        StatusBar { left: to_owned_string(left), center: to_owned_string(center), right: to_owned_string(right), ..self }
    }

    /// Sets the colors.
    pub fn with_color(self, colors: ColorPair) -> (r: Self)
        ensures
            r == (StatusBar { colors: Some(colors), ..self }),
    {
        StatusBar { colors: Some(colors), ..self }
    }

    /// Sets the height in rows.
    pub fn with_height(self, height: u16) -> (r: Self)
        ensures
            r == (StatusBar { height, ..self }),
    {
        StatusBar { height, ..self }
    }

    /// Sets where the bar sits.
    pub fn with_position(self, position: StatusBarPosition) -> (r: Self)
        ensures
            r == (StatusBar { position, ..self }),
    {
        StatusBar { position, ..self }
    }

    /// Fills the bar's rows with its background, or not.
    pub fn with_fill_background(self, fill: bool) -> (r: Self)
        ensures
            r == (StatusBar { fill_background: fill, ..self }),
    {
        StatusBar { fill_background: fill, ..self }
    }

    /// Replaces the left section.
    pub fn set_left(&mut self, text: &str)
        ensures
            final(self).left@ == text@,
            final(self).center == old(self).center && final(self).right == old(self).right,
            final(self).colors == old(self).colors && final(self).height == old(self).height
                && final(self).position == old(self).position && final(self).fill_background == old(self).fill_background,
    {
        self.left = to_owned_string(text);
    }

    /// Replaces the center section.
    pub fn set_center(&mut self, text: &str)
        ensures
            final(self).center@ == text@,
            final(self).left == old(self).left && final(self).right == old(self).right,
            final(self).colors == old(self).colors && final(self).height == old(self).height
                && final(self).position == old(self).position && final(self).fill_background == old(self).fill_background,
    {
        self.center = to_owned_string(text);
    }

    /// Replaces the right section.
    pub fn set_right(&mut self, text: &str)
        ensures
            final(self).right@ == text@,
            final(self).left == old(self).left && final(self).center == old(self).center,
            final(self).colors == old(self).colors && final(self).height == old(self).height
                && final(self).position == old(self).position && final(self).fill_background == old(self).fill_background,
    {
        self.right = to_owned_string(text);
    }

    /// The left section.
    pub fn left(&self) -> (r: &str)
        ensures
            r@ == self.left@,
    {
        self.left.as_str()
    }

    /// The center section.
    pub fn center(&self) -> (r: &str)
        ensures
            r@ == self.center@,
    {
        self.center.as_str()
    }

    /// The right section.
    pub fn right(&self) -> (r: &str)
        ensures
            r@ == self.right@,
    {
        self.right.as_str()
    }

    /// The first row of the bar in a window `window_height` rows tall: 0
    /// when the bar is as tall as the window; else the last rows, the first
    /// row, or the row at the percentage (kept low enough for the bar to
    /// fit, rounded down).
    pub open spec fn y_spec(&self, window_height: u16) -> int {
        if self.height >= window_height {
            0
        } else {
            match self.position {
                StatusBarPosition::Bottom => window_height - self.height,
                StatusBarPosition::Top => 0,
                StatusBarPosition::Percentage(percent) => {
                    let max_percent = 100 - (self.height * 100) / (window_height as int);
                    let p = if percent < max_percent { percent as int } else { max_percent };
                    p * window_height / 100
                },
            }
        }
    }

    /// The first row of the bar (see [`StatusBar::y_spec`]), for any height.
    fn y_for(&self, window_height: u16) -> (r: u16)
        ensures
            r == self.y_spec(window_height),
    {
        if self.height >= window_height {
            return 0;
        }
        match self.position {
            StatusBarPosition::Bottom => window_height - self.height,
            StatusBarPosition::Top => 0,
            StatusBarPosition::Percentage(percent) => {
                let h = self.height as u32;
                let wh = window_height as u32;
                proof {
                    let hi = h as int;
                    let wi = wh as int;
                    assert((hi * 100) / wi < 100) by (nonlinear_arith)
                        requires
                            0 <= hi < wi,
                    ;
                }
                let max_percent: u32 = 100 - (h * 100) / wh;
                let p: u32 = if (percent as u32) < max_percent { percent as u32 } else { max_percent };
                proof {
                    let pi = p as int;
                    let wi = wh as int;
                    assert(pi * wi <= 100 * wi) by (nonlinear_arith)
                        requires
                            0 <= pi <= 100,
                            wi >= 0,
                    ;
                    assert((pi * wi) / 100 <= wi) by (nonlinear_arith)
                        requires
                            pi * wi <= 100 * wi,
                            wi >= 0,
                    ;
                }
                ((p * wh) / 100) as u16
            },
        }
    }

    /// The first row of the bar in a window `window_height` rows tall.
    pub fn calculate_y(&self, window_height: u16) -> (r: u16)
        requires
            (self.position is Percentage && self.height < window_height) ==> self.height * 100 <= u16::MAX,
        ensures
            r == self.y_spec(window_height),
    {
        self.y_for(window_height)
    }

    /// The column of the center section in a bar `width` cells wide:
    /// centered in the space between the other sections (and a cell after
    /// each), or right after the left section when it does not fit.
    pub open spec fn center_x_spec(&self, width: int) -> int {
        let cl = (self.center@.len() as u16) as int;
        let la: int = if self.left@.len() > 0 { sat16((self.left@.len() as u16) + 1) } else { 0 };
        let ra: int = if self.right@.len() > 0 { sat16((self.right@.len() as u16) + 1) } else { 0 };
        if cl + la + ra < width { la + (width - la - ra - cl) / 2 } else { la }
    }

    /// The center text: whole when it fits from its column, else cut with
    /// an ellipsis to the room left (nothing when one cell or less is left).
    pub open spec fn center_text_spec(&self, width: int) -> Seq<char> {
        let cx = self.center_x_spec(width);
        let cl = (self.center@.len() as u16) as int;
        if cx + cl <= width {
            self.center@
        } else {
            let avail = sat_sub(width, cx);
            if avail > 1 { take_cells(self.center@, avail - 1).push('…') } else { Seq::empty() }
        }
    }

    /// The bar's writes in a window of `width` x `wh` cells: its rows filled
    /// (when filling and colored), the left section at column 0, the right
    /// one flush right, the center one last, then the rows below the first
    /// that are inside the window filled again.
    ///
    pub open spec fn bar_writes(&self, width: u16, wh: u16) -> Seq<(int, int, Seq<char>, Option<ColorPair>)> {
        let y = self.y_spec(wh);
        let line = repeat_char(' ', width as nat);
        let fill: Seq<(int, int, Seq<char>, Option<ColorPair>)> = if self.fill_background && self.colors is Some {
            Seq::new(self.height as nat, |i: int| (sat16(y + i), 0int, line, self.colors))
        } else {
            Seq::empty()
        };
        let left: Seq<(int, int, Seq<char>, Option<ColorPair>)> = if self.left@.len() > 0 {
            seq![(y, 0int, fit_or_ellipsis(self.left@, width as int), self.colors)]
        } else {
            Seq::empty()
        };
        let right: Seq<(int, int, Seq<char>, Option<ColorPair>)> = if self.right@.len() > 0 {
            seq![(y, sat_sub(width as int, (self.right@.len() as u16) as int), fit_or_ellipsis(self.right@, width as int),
                self.colors)]
        } else {
            Seq::empty()
        };
        let center: Seq<(int, int, Seq<char>, Option<ColorPair>)> = if self.center@.len() > 0 {
            seq![(y, self.center_x_spec(width as int), self.center_text_spec(width as int), self.colors)]
        } else {
            Seq::empty()
        };
        let extra: Seq<(int, int, Seq<char>, Option<ColorPair>)> = if self.fill_background && self.colors is Some {
            let k = if sat_sub(self.height as int, 1) < sat_sub(wh as int, y + 1) {
                sat_sub(self.height as int, 1)
            } else {
                sat_sub(wh as int, y + 1)
            };
            Seq::new(k as nat, |i: int| (y + 1 + i, 0int, line, self.colors))
        } else {
            Seq::empty()
        };
        fill + left + right + center + extra
    }
}

impl StatusBar {
    /// Appends `n` full-width blank rows from row `y0` (saturating at
    /// `u16::MAX`) to `out`.
    fn fill_rows(&self, out: &mut Vec<DrawOp>, y0: u16, n: u16, width: u16)
        ensures
            ops_views(final(out)@) == ops_views(old(out)@) + Seq::new(n as nat, |i: int| (sat16(y0 + i), 0int,
                repeat_char(' ', width as nat), self.colors)),
    {
        let ghost base = ops_views(out@);
        let ghost ws = Seq::new(n as nat, |i: int| (sat16(y0 + i), 0int, repeat_char(' ', width as nat), self.colors));
        let mut i: u16 = 0;
        while i < n
            invariant
                i <= n,
                ws == Seq::new(n as nat, |i: int| (sat16(y0 + i), 0int, repeat_char(' ', width as nat), self.colors)),
                ops_views(out@) == base + ws.take(i as int),
            decreases n - i,
        {
            push_op(out, y0.saturating_add(i), 0, repeat_string(' ', width as usize), self.colors);
            proof {
                assert(ws.take(i + 1) =~= ws.take(i as int).push(ws[i as int]));
            }
            i = i + 1;
        }
        assert(ws.take(n as int) =~= ws);
    }

    /// The column of the center section.
    fn center_x(&self, width: u16) -> (r: u16)
        ensures
            r == self.center_x_spec(width as int),
    {
        let cl = cell_width(self.center.as_str(), TabPolicy::SingleCell) as u16;
        let la: u16 = if cell_width(self.left.as_str(), TabPolicy::SingleCell) > 0 {
            (cell_width(self.left.as_str(), TabPolicy::SingleCell) as u16).saturating_add(1)
        } else {
            0
        };
        let ra: u16 = if cell_width(self.right.as_str(), TabPolicy::SingleCell) > 0 {
            (cell_width(self.right.as_str(), TabPolicy::SingleCell) as u16).saturating_add(1)
        } else {
            0
        };
        if (cl as u32) + (la as u32) + (ra as u32) < width as u32 {
            la + (width - la - ra - cl) / 2
        } else {
            la
        }
    }

    /// The bar's writes in a window of `width` x `wh` cells.
    fn bar_ops(&self, width: u16, wh: u16) -> (r: Vec<DrawOp>)
        ensures
            ops_views(r@) == self.bar_writes(width, wh),
    {
        let mut out: Vec<DrawOp> = Vec::new();
        assert(ops_views(out@) =~= Seq::<(int, int, Seq<char>, Option<ColorPair>)>::empty());
        let y = self.y_for(wh);
        let filling = self.fill_background && self.colors.is_some();
        if filling {
            self.fill_rows(&mut out, y, self.height, width);
        }
        let ghost s1 = ops_views(out@);
        if cell_width(self.left.as_str(), TabPolicy::SingleCell) > 0 {
            push_op(&mut out, y, 0, fit_with_ellipsis(self.left.as_str(), width), self.colors);
        }
        let ghost s2 = ops_views(out@);
        let right_len = cell_width(self.right.as_str(), TabPolicy::SingleCell);
        if right_len > 0 {
            let right_x = width.saturating_sub(right_len as u16);
            push_op(&mut out, y, right_x, fit_with_ellipsis(self.right.as_str(), width), self.colors);
        }
        let ghost s3 = ops_views(out@);
        if cell_width(self.center.as_str(), TabPolicy::SingleCell) > 0 {
            let cx = self.center_x(width);
            let cl = cell_width(self.center.as_str(), TabPolicy::SingleCell) as u16;
            let text = if (cx as u32) + (cl as u32) <= width as u32 {
                to_owned_string(self.center.as_str())
            } else {
                let available = width.saturating_sub(cx);
                if available > 1 {
                    let mut t = clip_to_cells(self.center.as_str(), available - 1, TabPolicy::SingleCell);
                    push_char(&mut t, '…');
                    t
                } else {
                    String::new()
                }
            };
            assert(text@ =~= self.center_text_spec(width as int));
            push_op(&mut out, y, cx, text, self.colors);
        }
        let ghost s4 = ops_views(out@);
        if filling {
            let a: u16 = self.height.saturating_sub(1);
            let b: u16 = if (y as u32) + 1 <= wh as u32 { wh - y - 1 } else { 0 };
            let k: u16 = if a < b { a } else { b };
            if k > 0 {
                self.fill_rows(&mut out, y + 1, k, width);
                assert(Seq::new(k as nat, |i: int| (sat16(y + 1 + i), 0int, repeat_char(' ', width as nat), self.colors))
                    =~= Seq::new(k as nat, |i: int| (y + 1 + i, 0int, repeat_char(' ', width as nat), self.colors)));
            }
        }
        assert(ops_views(out@) =~= self.bar_writes(width, wh));
        out
    }
}

impl Widget for StatusBar {
    open spec fn size_spec(&self) -> (u16, u16) {
        (u16::MAX, self.height)
    }

    open spec fn position_spec(&self) -> (u16, u16) {
        (0, 0)
    }

    open spec fn draws(&self, views: Seq<crate::widgets::WindowView>, size: (u16, u16), before: Seq<crate::window::OpView>,
        after: Seq<crate::window::OpView>, r: Result<(), Error>) -> bool {
        r is Ok && after == crate::window::apply_writes(before, views, size, self.bar_writes(crate::window::visible_of(views, size).0, crate::window::visible_of(views, size).1))
    }

    /// Draws the bar across the visible width (see [`StatusBar::bar_writes`]).
    fn draw(&self, window: &mut Canvas) -> (r: Result<(), Error>)
        ensures
            r is Ok,
            final(window).ops_view() == old(window).ops_after_each(self.bar_writes(old(window).visible_size().0,
                old(window).visible_size().1)),
            final(window).cursor_view() == old(window).cursor_view(),
    {
        let (width, height) = window.get_size();
        let ops = self.bar_ops(width, height);
        window.emit(&ops);
        Ok(())
    }

    fn get_size(&self) -> (r: (u16, u16)) {
        (u16::MAX, self.height)
    }

    fn get_position(&self) -> (r: (u16, u16)) {
        (0, 0)
    }
}

impl Default for StatusBar {
    /// The same as [`StatusBar::new`].
    fn default() -> (r: Self)
        ensures
            r.left@.len() == 0 && r.center@.len() == 0 && r.right@.len() == 0,
            (r.colors is None),
            r.height == 1,
            r.position == StatusBarPosition::Bottom,
            r.fill_background,
    {
        StatusBar::new()
    }
}


/// A status bar shorter than the window lies inside it: its last row is at
/// most the window's last row. For a bar placed by percentage this holds in
/// windows of at most 100 rows; in taller ones the rounding can push it one
/// row down.
pub proof fn lemma_bar_fits(b: StatusBar, wh: u16)
    requires
        b.height < wh,
        b.position is Percentage ==> wh <= 100,
    ensures
        b.y_spec(wh) + b.height <= wh,
{
    if let StatusBarPosition::Percentage(percent) = b.position {
        let h = b.height as int;
        let w = wh as int;
        let q = (h * 100) / w;
        let p = if (percent as int) < 100 - q { percent as int } else { 100 - q };
        assert(q * w <= h * 100 && h * 100 < q * w + w) by (nonlinear_arith)
            requires
                w > 0,
                h >= 0,
                q == (h * 100) / w,
        ;
        assert(0 <= q < 100) by (nonlinear_arith)
            requires
                0 <= h < w,
                q == (h * 100) / w,
        ;
        assert(p * w <= (100 - q) * w) by (nonlinear_arith)
            requires
                0 <= p <= 100 - q,
                w > 0,
        ;
        assert((p * w) / 100 <= w - h) by (nonlinear_arith)
            requires
                p * w <= (100 - q) * w,
                h * 100 < q * w + w,
                w <= 100,
                p >= 0,
        ;
    }
}

impl crate::widgets::BoxedWidget for StatusBar {
    fn into_boxed(self) -> (r: crate::widgets::DynWidget) {
        crate::widgets::DynWidget { widget: Box::new(self) }
    }
}

} // verus!
