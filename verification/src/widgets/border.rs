//! A plain rectangular frame.

use vstd::prelude::*;
use crate::color::ColorPair;
use crate::error::Error;
use crate::text::char_string;
use crate::window::{Canvas, Window, DrawOp, ops_views, push_op};
use crate::widgets::common::BorderChars;
use crate::widgets::container::sat16;
use crate::widgets::input::sat_sub;
use crate::widgets::Widget;

verus! {

/// A four-sided frame at `(x, y)` of `width` x `height` cells.
pub struct Border {
    pub x: u16,
    pub y: u16,
    pub width: u16,
    pub height: u16,
    pub style: BorderChars,
}

impl Border {
    /// A single-line frame.
    pub fn new(x: u16, y: u16, width: u16, height: u16) -> (r: Self)
        ensures
            r == (Border { x, y, width, height, style: BorderChars::single_line_spec() }),
    {
        Border { x, y, width, height, style: BorderChars::single_line() }
    }

    /// Sets the glyphs.
    pub fn with_style(self, style: BorderChars) -> (r: Self)
        ensures
            r == (Border { style, ..self }),
    {
        Border { style, ..self }
    }

    /// The last column and row of the frame (saturating at `u16::MAX`).
    pub open spec fn far(&self) -> (int, int) {
        (sat16(self.x + sat_sub(self.width as int, 1)), sat16(self.y + sat_sub(self.height as int, 1)))
    }

    /// The frame: the four corners, then the top and bottom edges column by
    /// column, then the left and right sides row by row.
    pub open spec fn border_writes(&self) -> Seq<(int, int, Seq<char>, Option<ColorPair>)> {
        let s = self.style;
        let (x1, y1) = self.far();
        let x0 = self.x as int;
        let y0 = self.y as int;
        seq![
            (y0, x0, seq![s.top_left], None::<ColorPair>),
            (y0, x1, seq![s.top_right], None::<ColorPair>),
            (y1, x0, seq![s.bottom_left], None::<ColorPair>),
            (y1, x1, seq![s.bottom_right], None::<ColorPair>),
        ] + Seq::new((2 * sat_sub(self.width as int, 2)) as nat, |j: int| (if j % 2 == 0 { y0 } else { y1 },
            sat16(x0 + 1 + j / 2), seq![s.horizontal], None::<ColorPair>))
            + Seq::new((2 * sat_sub(self.height as int, 2)) as nat, |j: int| (sat16(y0 + 1 + j / 2),
            if j % 2 == 0 { x0 } else { x1 }, seq![s.vertical], None::<ColorPair>))
    }

    /// Appends the top and bottom edges (`horizontal`) or the left and right
    /// sides to `out`, one pair of glyphs per step.
    fn edge_ops(&self, out: &mut Vec<DrawOp>, horizontal: bool)
        ensures
            ops_views(final(out)@) == ops_views(old(out)@) + (if horizontal {
                Seq::new((2 * sat_sub(self.width as int, 2)) as nat, |j: int| (if j % 2 == 0 { self.y as int } else { self.far().1 },
                    sat16(self.x + 1 + j / 2), seq![self.style.horizontal], None::<ColorPair>))
            } else {
                Seq::new((2 * sat_sub(self.height as int, 2)) as nat, |j: int| (sat16(self.y + 1 + j / 2),
                    if j % 2 == 0 { self.x as int } else { self.far().0 }, seq![self.style.vertical], None::<ColorPair>))
            }),
    {
        let ghost base = ops_views(out@);
        let ghost ws = if horizontal {
            Seq::new((2 * sat_sub(self.width as int, 2)) as nat, |j: int| (if j % 2 == 0 { self.y as int } else { self.far().1 },
                sat16(self.x + 1 + j / 2), seq![self.style.horizontal], None::<ColorPair>))
        } else {
            Seq::new((2 * sat_sub(self.height as int, 2)) as nat, |j: int| (sat16(self.y + 1 + j / 2),
                if j % 2 == 0 { self.x as int } else { self.far().0 }, seq![self.style.vertical], None::<ColorPair>))
        };
        let x1 = self.x.saturating_add(self.width.saturating_sub(1));
        let y1 = self.y.saturating_add(self.height.saturating_sub(1));
        let n: u16 = if horizontal { self.width.saturating_sub(2) } else { self.height.saturating_sub(2) };
        let mut i: u16 = 0;
        while i < n
            invariant
                i <= n,
                ws.len() == 2 * n,
                x1 as int == self.far().0,
                y1 as int == self.far().1,
                n == (if horizontal { sat_sub(self.width as int, 2) } else { sat_sub(self.height as int, 2) }),
                ws == (if horizontal {
                    Seq::new((2 * sat_sub(self.width as int, 2)) as nat, |j: int| (if j % 2 == 0 { self.y as int } else { self.far().1 },
                        sat16(self.x + 1 + j / 2), seq![self.style.horizontal], None::<ColorPair>))
                } else {
                    Seq::new((2 * sat_sub(self.height as int, 2)) as nat, |j: int| (sat16(self.y + 1 + j / 2),
                        if j % 2 == 0 { self.x as int } else { self.far().0 }, seq![self.style.vertical], None::<ColorPair>))
                }),
                ops_views(out@) == base + ws.take(2 * i),
            decreases n - i,
        {
            if horizontal {
                let xx = self.x.saturating_add(1).saturating_add(i);
                push_op(out, self.y, xx, char_string(self.style.horizontal), None);
                push_op(out, y1, xx, char_string(self.style.horizontal), None);
            } else {
                let yy = self.y.saturating_add(1).saturating_add(i);
                push_op(out, yy, self.x, char_string(self.style.vertical), None);
                push_op(out, yy, x1, char_string(self.style.vertical), None);
            }
            proof {
                assert(ws.take(2 * (i + 1)) =~= ws.take(2 * i).push(ws[2 * i]).push(ws[2 * i + 1]));
            }
            i = i + 1;
        }
        assert(ws.take(2 * n) =~= ws);
    }
}

impl Widget for Border {
    open spec fn size_spec(&self) -> (u16, u16) {
        (self.width, self.height)
    }

    open spec fn position_spec(&self) -> (u16, u16) {
        (self.x, self.y)
    }

    open spec fn draws(&self, views: Seq<crate::widgets::WindowView>, size: (u16, u16), before: Seq<crate::window::OpView>,
        after: Seq<crate::window::OpView>, r: Result<(), Error>) -> bool {
        r is Ok && after == crate::window::apply_writes(before, views, size, self.border_writes())
    }

    /// Draws the frame in the default colors.
    fn draw(&self, window: &mut Canvas) -> (r: Result<(), Error>)
        ensures
            r is Ok,
            final(window).ops_view() == old(window).ops_after_each(self.border_writes()),
            final(window).cursor_view() == old(window).cursor_view(),
    {
        let mut out: Vec<DrawOp> = Vec::new();
        let x1 = self.x.saturating_add(self.width.saturating_sub(1));
        let y1 = self.y.saturating_add(self.height.saturating_sub(1));
        push_op(&mut out, self.y, self.x, char_string(self.style.top_left), None);
        push_op(&mut out, self.y, x1, char_string(self.style.top_right), None);
        push_op(&mut out, y1, self.x, char_string(self.style.bottom_left), None);
        push_op(&mut out, y1, x1, char_string(self.style.bottom_right), None);
        self.edge_ops(&mut out, true);
        self.edge_ops(&mut out, false);
        assert(ops_views(out@) =~= self.border_writes());
        window.emit(&out);
        Ok(())
    }

    fn get_size(&self) -> (r: (u16, u16)) {
        (self.width, self.height)
    }

    fn get_position(&self) -> (r: (u16, u16)) {
        (self.x, self.y)
    }
}

impl crate::widgets::BoxedWidget for Border {
    fn into_boxed(self) -> (r: crate::widgets::DynWidget) {
        crate::widgets::DynWidget { widget: Box::new(self) }
    }
}

} // verus!
