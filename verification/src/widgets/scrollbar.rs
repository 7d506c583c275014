//! The integer side of scrollbars and sliders: where a scrollbar puts its
//! arrows and its track, and how a slider track is drawn once the position
//! and size of its thumb are known.
//!
//! Lengths along a slider's axis are measured in half-cells ("virtual"
//! units), so a thumb edge can fall in the middle of a cell, drawn with a
//! half block.

use vstd::prelude::*;
use crate::color::ColorPair;
use crate::error::Error;
use crate::window::{Canvas, DrawOp, ops_views, push_op, apply_writes, lemma_grows_through_view, lemma_grows_trans,
    lemma_grows_refl};
use crate::widgets::common::WindowView;
use crate::widgets::controls::{ArrowButton, ArrowDirection, ScrollBarOptions, SliderOrientation, arrow_glyph};
use crate::widgets::scroll::{ScrollOrientation, sat_add16};
use crate::widgets::container::sat16;
use crate::text::char_string;
use crate::widgets::input::sat_sub;
use crate::widgets::{WidgetArea, rects_overlap};
use crate::widgets::Widget;

verus! {

/// `v`, but at least 1.
pub open spec fn at_least_one(v: u16) -> u16 {
    if v == 0 { 1 } else { v }
}

/// Where a scrollbar draws its parts: the views of its start and end arrows
/// (when it shows them) and the view of its slider track.
#[derive(Debug, Clone, Copy, PartialEq, Eq)]
pub struct ScrollBarParts {
    pub arrows: Option<(WindowView, WindowView)>,
    pub track: WindowView,
}

/// A view at `(x, y)` of `width` x `height` cells, not scrolled.
pub open spec fn plain_view(x: u16, y: u16, width: u16, height: u16) -> WindowView {
    WindowView { x_offset: x, y_offset: y, scroll_x: 0, scroll_y: 0, width, height }
}

impl ScrollBarOptions {
    /// The cells along the axis of a `width` x `height` bar that the track
    /// gets: all of them, or two fewer when arrows are shown.
    pub open spec fn track_len_spec(&self, width: u16, height: u16) -> int {
        let axis = match self.orientation {
            ScrollOrientation::Vertical => height,
            ScrollOrientation::Horizontal => width,
        };
        if self.show_arrows { sat_sub(axis as int, 2) } else { axis as int }
    }

    /// The cells along the axis that the track of a `width` x `height` bar
    /// gets.
    pub fn track_len_cells(&self, width: u16, height: u16) -> (r: u16)
        ensures
            r == self.track_len_spec(width, height),
    {
        let axis = match self.orientation {
            ScrollOrientation::Vertical => height,
            ScrollOrientation::Horizontal => width,
        };
        if self.show_arrows { axis.saturating_sub(2) } else { axis }
    }

    /// The parts of a `width` x `height` bar: an arrow at each end of the
    /// axis (one cell along it, the whole bar across it) when arrows are
    /// shown, and the track between them, at least one cell each way.
    pub open spec fn parts_spec(&self, width: u16, height: u16) -> ScrollBarParts {
        let inset: u16 = if self.show_arrows { 1 } else { 0 };
        let w1 = at_least_one(width);
        let h1 = at_least_one(height);
        match self.orientation {
            ScrollOrientation::Vertical => ScrollBarParts {
                arrows: if self.show_arrows {
                    Some((plain_view(0, 0, w1, 1), plain_view(0, sat_sub(height as int, 1) as u16, w1, 1)))
                } else {
                    None
                },
                track: plain_view(0, inset, w1, at_least_one(self.track_len_spec(width, height) as u16)),
            },
            ScrollOrientation::Horizontal => ScrollBarParts {
                arrows: if self.show_arrows {
                    Some((plain_view(0, 0, 1, h1), plain_view(sat_sub(width as int, 1) as u16, 0, 1, h1)))
                } else {
                    None
                },
                track: plain_view(inset, 0, at_least_one(self.track_len_spec(width, height) as u16), h1),
            },
        }
    }

    /// Where a `width` x `height` bar draws its arrows and its track.
    pub fn part_views(&self, width: u16, height: u16) -> (r: ScrollBarParts)
        ensures
            r == self.parts_spec(width, height),
    {
        let inset: u16 = if self.show_arrows { 1 } else { 0 };
        let w1 = if width == 0 { 1 } else { width };
        let h1 = if height == 0 { 1 } else { height };
        let len = self.track_len_cells(width, height);
        let len1 = if len == 0 { 1 } else { len };
        match self.orientation {
            ScrollOrientation::Vertical => {
                let arrows = if self.show_arrows {
                    Some((
                        WindowView { x_offset: 0, y_offset: 0, scroll_x: 0, scroll_y: 0, width: w1, height: 1 },
                        WindowView { x_offset: 0, y_offset: height.saturating_sub(1), scroll_x: 0, scroll_y: 0,
                            width: w1, height: 1 },
                    ))
                } else {
                    None
                };
                ScrollBarParts {
                    arrows,
                    track: WindowView { x_offset: 0, y_offset: inset, scroll_x: 0, scroll_y: 0, width: w1, height: len1 },
                }
            },
            ScrollOrientation::Horizontal => {
                let arrows = if self.show_arrows {
                    Some((
                        WindowView { x_offset: 0, y_offset: 0, scroll_x: 0, scroll_y: 0, width: 1, height: h1 },
                        WindowView { x_offset: width.saturating_sub(1), y_offset: 0, scroll_x: 0, scroll_y: 0,
                            width: 1, height: h1 },
                    ))
                } else {
                    None
                };
                ScrollBarParts {
                    arrows,
                    track: WindowView { x_offset: inset, y_offset: 0, scroll_x: 0, scroll_y: 0, width: len1, height: h1 },
                }
            },
        }
    }

    /// The start and end arrows of a bar whose parts are `parts`: pointing
    /// up and down (or left and right), each the size of its view, in the
    /// arrow color.
    pub open spec fn arrows_spec(&self, parts: ScrollBarParts) -> Option<(ArrowButton, ArrowButton)> {
        match parts.arrows {
            None => None,
            Some((s, e)) => {
                let (sd, ed) = match self.orientation {
                    ScrollOrientation::Vertical => (ArrowDirection::Up, ArrowDirection::Down),
                    ScrollOrientation::Horizontal => (ArrowDirection::Left, ArrowDirection::Right),
                };
                Some((ArrowButton { width: s.width, height: s.height, dir: sd, color: self.arrow_color },
                    ArrowButton { width: e.width, height: e.height, dir: ed, color: self.arrow_color }))
            },
        }
    }

    /// The track area of a bar occupying `outer` on the screen: `outer`
    /// without the arrow cell at each end of the axis when arrows are shown.
    pub fn slider_area_within(&self, outer: WidgetArea) -> (r: WidgetArea)
        requires
            self.show_arrows ==> match self.orientation {
                ScrollOrientation::Vertical => outer.y < u16::MAX,
                ScrollOrientation::Horizontal => outer.x < u16::MAX,
            },
        ensures
            r == (match self.orientation {
                ScrollOrientation::Vertical => WidgetArea { x: outer.x, y: (outer.y + (if self.show_arrows { 1int } else { 0 })) as u16,
                    width: outer.width, height: (if self.show_arrows { sat_sub(outer.height as int, 2) } else { outer.height as int }) as u16 },
                ScrollOrientation::Horizontal => WidgetArea { x: (outer.x + (if self.show_arrows { 1int } else { 0 })) as u16, y: outer.y,
                    width: (if self.show_arrows { sat_sub(outer.width as int, 2) } else { outer.width as int }) as u16, height: outer.height },
            }),
    {
        match self.orientation {
            ScrollOrientation::Vertical => {
                let top: u16 = if self.show_arrows { 1 } else { 0 };
                let h = outer.height.saturating_sub(if self.show_arrows { 2 } else { 0 });
                WidgetArea::new(outer.x, outer.y + top, outer.width, h)
            },
            ScrollOrientation::Horizontal => {
                let left: u16 = if self.show_arrows { 1 } else { 0 };
                let w = outer.width.saturating_sub(if self.show_arrows { 2 } else { 0 });
                WidgetArea::new(outer.x + left, outer.y, w, outer.height)
            },
        }
    }

    /// The area of the start arrow of a bar occupying `outer`: its first
    /// cell along the axis, across the whole bar.
    pub fn start_arrow_area_within(&self, outer: WidgetArea) -> (r: WidgetArea)
        ensures
            r == (match self.orientation {
                ScrollOrientation::Vertical => WidgetArea { height: 1, ..outer },
                ScrollOrientation::Horizontal => WidgetArea { width: 1, ..outer },
            }),
    {
        match self.orientation {
            ScrollOrientation::Vertical => WidgetArea::new(outer.x, outer.y, outer.width, 1),
            ScrollOrientation::Horizontal => WidgetArea::new(outer.x, outer.y, 1, outer.height),
        }
    }

    /// The area of the end arrow of a bar occupying `outer`: its last cell
    /// along the axis, across the whole bar.
    pub fn end_arrow_area_within(&self, outer: WidgetArea) -> (r: WidgetArea)
        requires
            match self.orientation {
                ScrollOrientation::Vertical => outer.y + sat_sub(outer.height as int, 1) <= u16::MAX,
                ScrollOrientation::Horizontal => outer.x + sat_sub(outer.width as int, 1) <= u16::MAX,
            },
        ensures
            r == (match self.orientation {
                ScrollOrientation::Vertical => WidgetArea { y: (outer.y + sat_sub(outer.height as int, 1)) as u16, height: 1, ..outer },
                ScrollOrientation::Horizontal => WidgetArea { x: (outer.x + sat_sub(outer.width as int, 1)) as u16, width: 1, ..outer },
            }),
    {
        match self.orientation {
            ScrollOrientation::Vertical => {
                let y = outer.y + outer.height.saturating_sub(1);
                WidgetArea::new(outer.x, y, outer.width, 1)
            },
            ScrollOrientation::Horizontal => {
                let x = outer.x + outer.width.saturating_sub(1);
                WidgetArea::new(x, outer.y, 1, outer.height)
            },
        }
    }
}

/// The write of an arrow button: its glyph at the center of its area, in
/// its color.
pub open spec fn arrow_write(a: ArrowButton) -> (int, int, Seq<char>, Option<ColorPair>) {
    ((if a.height >= 1 { (a.height - 1) / 2 } else { 0 }), (if a.width >= 1 { (a.width - 1) / 2 } else { 0 }),
        seq![arrow_glyph(a.dir)], Some(a.color))
}

/// Draws `a` through `view`, on top of the active views.
fn draw_in_view(window: &mut Canvas, view: WindowView, a: &ArrowButton)
    ensures
        final(window).ops_view() == apply_writes(old(window).ops_view(), old(window).views_view().push(view),
            old(window).size_view(), seq![arrow_write(*a)]),
        final(window).grows_from(old(window)),
        final(window).cursor_view() == old(window).cursor_view(),
{
    let ghost c0 = *window;
    window.push_view(view);
    let ghost pushed = *window;
    let _ = a.draw(window);
    let ghost drawn = *window;
    window.pop_view();
    proof {
        assert(pushed.views_view() == c0.views_view().push(view));
        assert(drawn.views_view() == pushed.views_view());
        assert(window.views_view() =~= c0.views_view());
        assert(drawn.ops_view() == pushed.ops_after_write(arrow_write(*a).0, arrow_write(*a).1, arrow_write(*a).2,
            arrow_write(*a).3));
        lemma_grows_through_view(&c0, &pushed, &drawn, view);
        let ws = seq![arrow_write(*a)];
        assert(ws.drop_last() =~= Seq::<(int, int, Seq<char>, Option<ColorPair>)>::empty());
        assert(ws.last() == arrow_write(*a));
        let vs = c0.views_view().push(view);
        assert(apply_writes(c0.ops_view(), vs, c0.size_view(), ws.drop_last()) == c0.ops_view());
        assert(window.ops_view() == drawn.ops_view());
        assert(pushed.ops_view() == c0.ops_view());
        assert(pushed.size_view() == c0.size_view());
    }
}

impl ScrollBarOptions {
    /// The start and end arrows of a bar whose parts are `parts` (see
    /// [`ScrollBarOptions::arrows_spec`]).
    pub fn arrows(&self, parts: &ScrollBarParts) -> (r: Option<(ArrowButton, ArrowButton)>)
        ensures
            r == self.arrows_spec(*parts),
    {
        match parts.arrows {
            None => None,
            Some((s, e)) => {
                let (sd, ed) = match self.orientation {
                    ScrollOrientation::Vertical => (ArrowDirection::Up, ArrowDirection::Down),
                    ScrollOrientation::Horizontal => (ArrowDirection::Left, ArrowDirection::Right),
                };
                Some((ArrowButton { width: s.width, height: s.height, dir: sd, color: self.arrow_color },
                    ArrowButton { width: e.width, height: e.height, dir: ed, color: self.arrow_color }))
            },
        }
    }

    /// The writes of the arrows of a `width` x `height` bar on a surface
    /// whose ops are `ops`, seen through `views`: the start arrow through
    /// its view, then the end arrow through its own; nothing when arrows are
    /// not shown.
    pub open spec fn arrows_after(&self, width: u16, height: u16, ops: Seq<(int, int, Seq<char>, Option<ColorPair>)>,
        views: Seq<WindowView>, size: (u16, u16)) -> Seq<(int, int, Seq<char>, Option<ColorPair>)> {
        let parts = self.parts_spec(width, height);
        match (parts.arrows, self.arrows_spec(parts)) {
            (Some((sv, ev)), Some((sa, ea))) => apply_writes(apply_writes(ops, views.push(sv), size, seq![arrow_write(sa)]),
                views.push(ev), size, seq![arrow_write(ea)]),
            _ => ops,
        }
    }

    /// Draws the arrows of a `width` x `height` bar, each through its view
    /// (nothing when arrows are not shown).
    pub fn draw_arrows(&self, window: &mut Canvas, width: u16, height: u16)
        ensures
            final(window).ops_view() == self.arrows_after(width, height, old(window).ops_view(), old(window).views_view(),
                old(window).size_view()),
            final(window).grows_from(old(window)),
            final(window).cursor_view() == old(window).cursor_view(),
    {
        let parts = self.part_views(width, height);
        let arrows = self.arrows(&parts);
        match (parts.arrows, arrows) {
            (Some((sv, ev)), Some((sa, ea))) => {
                let ghost c0 = *window;
                draw_in_view(window, sv, &sa);
                let ghost c1 = *window;
                draw_in_view(window, ev, &ea);
                proof {
                    lemma_grows_trans(&c0, &c1, window);
                }
            },
            _ => {
                proof {
                    lemma_grows_refl(window);
                }
            },
        }
    }
}

/// A write of the plain-value kind that the surface records.
pub type Write = (int, int, Seq<char>, Option<ColorPair>);

/// Row `y` of a track fill: `cols` spaces, one write per cell.
pub open spec fn fill_row(y: int, cols: nat, c: ColorPair) -> Seq<Write> {
    Seq::new(cols, |x: int| (y, x, seq![' '], Some(c)))
}

/// The first `rows` rows of a track fill, top row first.
pub open spec fn fill_rows(rows: nat, cols: nat, c: ColorPair) -> Seq<Write>
    decreases rows,
{
    if rows == 0 { Seq::empty() } else { fill_rows((rows - 1) as nat, cols, c) + fill_row(rows - 1, cols, c) }
}

/// The glyph of cell `t` along the axis of a track whose thumb covers the
/// half-cells from `start_v` up to `end_v`: a full block when the thumb
/// covers the cell, a half block on the covered side when it covers half of
/// it, nothing (a space) otherwise.
pub open spec fn thumb_glyph(o: SliderOrientation, start_v: int, end_v: int, t: int) -> char {
    let cvs = sat16(2 * t);
    let cve = sat16(cvs + 2);
    let cs = if start_v >= cvs { start_v } else { cvs };
    let ce = if end_v <= cve { end_v } else { cve };
    let cov = sat_sub(ce, cs);
    if cov >= 2 {
        '█'
    } else if cov == 1 {
        if cs == cvs {
            match o { SliderOrientation::Vertical => '▀', SliderOrientation::Horizontal => '▌' }
        } else {
            match o { SliderOrientation::Vertical => '▄', SliderOrientation::Horizontal => '▐' }
        }
    } else {
        ' '
    }
}

/// The writes of glyph `g` in cell `t` along the axis, across all `cross`
/// cells of the track (none for a space).
pub open spec fn thumb_line(o: SliderOrientation, t: int, cross: nat, g: char, c: ColorPair) -> Seq<Write> {
    if g == ' ' {
        Seq::empty()
    } else {
        Seq::new(cross, |u: int| match o {
            SliderOrientation::Vertical => (t, u, seq![g], Some(c)),
            SliderOrientation::Horizontal => (u, t, seq![g], Some(c)),
        })
    }
}

/// The thumb writes of the `k` cells along the axis from `first`.
pub open spec fn thumb_lines(o: SliderOrientation, first: int, k: nat, start_v: int, end_v: int, cross: nat,
    c: ColorPair) -> Seq<Write>
    decreases k,
{
    if k == 0 {
        Seq::empty()
    } else {
        thumb_lines(o, first, (k - 1) as nat, start_v, end_v, cross, c)
            + thumb_line(o, first + k - 1, cross, thumb_glyph(o, start_v, end_v, first + k - 1), c)
    }
}

/// The rows, columns, axis length and cross length of a `width` x `height`
/// track: a vertical one spans at least one column, a horizontal one at
/// least one row.
pub open spec fn track_dims(o: SliderOrientation, width: u16, height: u16) -> (nat, nat, nat, nat) {
    match o {
        SliderOrientation::Vertical => (height as nat, at_least_one(width) as nat, height as nat, at_least_one(width) as nat),
        SliderOrientation::Horizontal => (at_least_one(height) as nat, width as nat, width as nat, at_least_one(height) as nat),
    }
}

/// Everything a `width` x `height` slider track writes when its thumb
/// starts at half-cell `start_v` and is `thumb_v` half-cells long: every
/// cell filled with a space in the track color, row by row, then the
/// thumb's glyphs in the thumb color, from the cell where it starts to the
/// one where it ends (both kept on the track).
pub open spec fn slider_writes(o: SliderOrientation, width: u16, height: u16, start_v: u16, thumb_v: u16,
    track: ColorPair, thumb: ColorPair) -> Seq<Write> {
    let (rows, cols, axis, cross) = track_dims(o, width, height);
    let fill = fill_rows(rows, cols, track);
    if axis == 0 {
        fill
    } else {
        let end_v = sat_add16(start_v as int, thumb_v as int);
        let first: int = if (start_v / 2) as int <= axis - 1 { (start_v / 2) as int } else { axis - 1 };
        let last_raw: int = sat_sub((end_v + 1) / 2, 1);
        let last: int = if last_raw <= axis - 1 { last_raw } else { axis - 1 };
        if first <= last {
            fill + thumb_lines(o, first, (last - first + 1) as nat, start_v as int, end_v, cross, thumb)
        } else {
            fill
        }
    }
}

/// Appends a track fill of `rows` x `cols` spaces in `c` to `out`.
fn push_fill(out: &mut Vec<DrawOp>, rows: u16, cols: u16, c: ColorPair)
    ensures
        ops_views(final(out)@) == ops_views(old(out)@) + fill_rows(rows as nat, cols as nat, c),
{
    let ghost base = ops_views(out@);
    let mut y: u16 = 0;
    assert(ops_views(out@) =~= base + fill_rows(0, cols as nat, c));
    while y < rows
        invariant
            y <= rows,
            ops_views(out@) == base + fill_rows(y as nat, cols as nat, c),
        decreases rows - y,
    {
        let mut x: u16 = 0;
        assert(ops_views(out@) =~= base + fill_rows(y as nat, cols as nat, c) + fill_row(y as int, cols as nat, c).take(0));
        while x < cols
            invariant
                x <= cols,
                y < rows,
                ops_views(out@) == base + fill_rows(y as nat, cols as nat, c) + fill_row(y as int, cols as nat, c).take(
                    x as int),
            decreases cols - x,
        {
            push_op(out, y, x, char_string(' '), Some(c));
            assert(fill_row(y as int, cols as nat, c).take(x + 1) =~= fill_row(y as int, cols as nat, c).take(
                x as int).push((y as int, x as int, seq![' '], Some(c))));
            assert(ops_views(out@) =~= base + fill_rows(y as nat, cols as nat, c) + fill_row(y as int, cols as nat,
                c).take(x + 1));
            x = x + 1;
        }
        assert(fill_row(y as int, cols as nat, c).take(cols as int) =~= fill_row(y as int, cols as nat, c));
        assert(fill_rows((y + 1) as nat, cols as nat, c) == fill_rows(y as nat, cols as nat, c) + fill_row(y as int,
            cols as nat, c));
        assert(ops_views(out@) =~= base + fill_rows((y + 1) as nat, cols as nat, c));
        y = y + 1;
    }
}

/// The glyph of cell `t` (see [`thumb_glyph`]).
fn glyph_at(o: SliderOrientation, start_v: u16, end_v: u16, t: u16) -> (r: char)
    ensures
        r == thumb_glyph(o, start_v as int, end_v as int, t as int),
{
    let cvs: u16 = if t > 0x7fff { 0xffff } else { t * 2 };
    let cve = cvs.saturating_add(2);
    let cs = if start_v >= cvs { start_v } else { cvs };
    let ce = if end_v <= cve { end_v } else { cve };
    let cov = ce.saturating_sub(cs);
    if cov >= 2 {
        '█'
    } else if cov == 1 {
        if cs == cvs {
            match o { SliderOrientation::Vertical => '▀', SliderOrientation::Horizontal => '▌' }
        } else {
            match o { SliderOrientation::Vertical => '▄', SliderOrientation::Horizontal => '▐' }
        }
    } else {
        ' '
    }
}

/// Appends the thumb writes of the `n` cells along the axis from `first`.
fn push_thumb(out: &mut Vec<DrawOp>, o: SliderOrientation, first: u16, n: u16, start_v: u16, end_v: u16,
    cross: u16, c: ColorPair)
    requires
        first + n <= u16::MAX + 1,
    ensures
        ops_views(final(out)@) == ops_views(old(out)@) + thumb_lines(o, first as int, n as nat, start_v as int,
            end_v as int, cross as nat, c),
{
    let ghost base = ops_views(out@);
    let mut k: u16 = 0;
    assert(ops_views(out@) =~= base + thumb_lines(o, first as int, 0, start_v as int, end_v as int, cross as nat, c));
    while k < n
        invariant
            k <= n,
            first + n <= u16::MAX + 1,
            ops_views(out@) == base + thumb_lines(o, first as int, k as nat, start_v as int, end_v as int, cross as nat, c),
        decreases n - k,
    {
        let t = first + k;
        let g = glyph_at(o, start_v, end_v, t);
        let ghost line = thumb_line(o, t as int, cross as nat, g, c);
        let ghost before = ops_views(out@);
        if g != ' ' {
            let mut u: u16 = 0;
            assert(ops_views(out@) =~= before + line.take(0));
            while u < cross
                invariant
                    u <= cross,
                    g != ' ',
                    line == thumb_line(o, t as int, cross as nat, g, c),
                    ops_views(out@) == before + line.take(u as int),
                decreases cross - u,
            {
                match o {
                    SliderOrientation::Vertical => push_op(out, t, u, char_string(g), Some(c)),
                    SliderOrientation::Horizontal => push_op(out, u, t, char_string(g), Some(c)),
                }
                assert(line.take(u + 1) =~= line.take(u as int).push(line[u as int]));
                assert(ops_views(out@) =~= before + line.take(u + 1));
                u = u + 1;
            }
            assert(line.take(cross as int) =~= line);
        } else {
            assert(line =~= Seq::<Write>::empty());
            assert(ops_views(out@) =~= before + line);
        }
        assert(ops_views(out@) =~= base + thumb_lines(o, first as int, (k + 1) as nat, start_v as int, end_v as int,
            cross as nat, c));
        k = k + 1;
    }
}

/// Draws a `width` x `height` slider track whose thumb starts at half-cell
/// `start_v` and is `thumb_v` half-cells long (see [`slider_writes`]).
pub fn draw_slider_track(window: &mut Canvas, o: SliderOrientation, width: u16, height: u16, start_v: u16,
    thumb_v: u16, track: ColorPair, thumb: ColorPair)
    requires
        start_v + thumb_v < u16::MAX,
    ensures
        final(window).ops_view() == old(window).ops_after_each(slider_writes(o, width, height, start_v, thumb_v, track,
            thumb)),
        final(window).grows_from(old(window)),
        final(window).cursor_view() == old(window).cursor_view(),
{
    let w1 = if width == 0 { 1 } else { width };
    let h1 = if height == 0 { 1 } else { height };
    let (rows, cols, axis, cross) = match o {
        SliderOrientation::Vertical => (height, w1, height, w1),
        SliderOrientation::Horizontal => (h1, width, width, h1),
    };
    let mut out: Vec<DrawOp> = Vec::new();
    assert(ops_views(out@) =~= Seq::<Write>::empty());
    push_fill(&mut out, rows, cols, track);
    if axis > 0 {
        let end_v = start_v.saturating_add(thumb_v);
        let first = if start_v / 2 <= axis - 1 { start_v / 2 } else { axis - 1 };
        let last_raw = ((end_v + 1) / 2).saturating_sub(1);
        let last = if last_raw <= axis - 1 { last_raw } else { axis - 1 };
        if first <= last {
            push_thumb(&mut out, o, first, last - first + 1, start_v, end_v, cross, thumb);
        }
    }
    assert(ops_views(out@) =~= slider_writes(o, width, height, start_v, thumb_v, track, thumb));
    window.emit(&out);
}

/// Every cell of a track fill lies in the fill's rows and columns.
proof fn lemma_fill_inside(rows: nat, cols: nat, c: ColorPair)
    ensures
        forall|i: int| 0 <= i < fill_rows(rows, cols, c).len() ==> {
            &&& 0 <= #[trigger] fill_rows(rows, cols, c)[i].0 < rows
            &&& 0 <= fill_rows(rows, cols, c)[i].1 < cols
            &&& fill_rows(rows, cols, c)[i].2.len() == 1
        },
    decreases rows,
{
    if rows > 0 {
        lemma_fill_inside((rows - 1) as nat, cols, c);
        let prev = fill_rows((rows - 1) as nat, cols, c);
        let row = fill_row(rows - 1, cols, c);
        assert forall|i: int| 0 <= i < fill_rows(rows, cols, c).len() implies {
            &&& 0 <= #[trigger] fill_rows(rows, cols, c)[i].0 < rows
            &&& 0 <= fill_rows(rows, cols, c)[i].1 < cols
            &&& fill_rows(rows, cols, c)[i].2.len() == 1
        } by {
            if i < prev.len() {
                assert(fill_rows(rows, cols, c)[i] == prev[i]);
            } else {
                assert(fill_rows(rows, cols, c)[i] == row[i - prev.len()]);
            }
        }
    }
}

/// Every thumb write of the `k` cells from `first` lies in one of those
/// cells along the axis and in the `cross` cells across it.
proof fn lemma_thumb_inside(o: SliderOrientation, first: int, k: nat, start_v: int, end_v: int, cross: nat,
    c: ColorPair)
    requires
        first >= 0,
    ensures
        forall|i: int| 0 <= i < thumb_lines(o, first, k, start_v, end_v, cross, c).len() ==> {
            let w = #[trigger] thumb_lines(o, first, k, start_v, end_v, cross, c)[i];
            let (along, across) = match o {
                SliderOrientation::Vertical => (w.0, w.1),
                SliderOrientation::Horizontal => (w.1, w.0),
            };
            &&& first <= along < first + k
            &&& 0 <= across < cross
            &&& w.2.len() == 1
        },
    decreases k,
{
    if k > 0 {
        lemma_thumb_inside(o, first, (k - 1) as nat, start_v, end_v, cross, c);
        let prev = thumb_lines(o, first, (k - 1) as nat, start_v, end_v, cross, c);
        let t = first + k - 1;
        let line = thumb_line(o, t, cross, thumb_glyph(o, start_v, end_v, t), c);
        let all = thumb_lines(o, first, k, start_v, end_v, cross, c);
        assert forall|i: int| 0 <= i < all.len() implies {
            let w = #[trigger] all[i];
            let (along, across) = match o {
                SliderOrientation::Vertical => (w.0, w.1),
                SliderOrientation::Horizontal => (w.1, w.0),
            };
            &&& first <= along < first + k
            &&& 0 <= across < cross
            &&& w.2.len() == 1
        } by {
            if i < prev.len() {
                assert(all[i] == prev[i]);
            } else {
                assert(all[i] == line[i - prev.len()]);
            }
        }
    }
}

/// A slider draws only on its track: every write is one cell inside the
/// `width` x `height` track (at least one cell across its axis).
pub proof fn lemma_slider_inside(o: SliderOrientation, width: u16, height: u16, start_v: u16, thumb_v: u16,
    track: ColorPair, thumb: ColorPair)
    ensures
        forall|i: int| 0 <= i < slider_writes(o, width, height, start_v, thumb_v, track, thumb).len() ==> {
            let w = #[trigger] slider_writes(o, width, height, start_v, thumb_v, track, thumb)[i];
            &&& 0 <= w.0 < track_dims(o, width, height).0
            &&& 0 <= w.1 < track_dims(o, width, height).1
            &&& w.2.len() == 1
        },
{
    let (rows, cols, axis, cross) = track_dims(o, width, height);
    lemma_fill_inside(rows, cols, track);
    let fill = fill_rows(rows, cols, track);
    let all = slider_writes(o, width, height, start_v, thumb_v, track, thumb);
    if axis > 0 {
        let end_v = sat_add16(start_v as int, thumb_v as int);
        let first: int = if (start_v / 2) as int <= axis - 1 { (start_v / 2) as int } else { axis - 1 };
        let last_raw: int = sat_sub((end_v + 1) / 2, 1);
        let last: int = if last_raw <= axis - 1 { last_raw } else { axis - 1 };
        if first <= last {
            let k = (last - first + 1) as nat;
            lemma_thumb_inside(o, first, k, start_v as int, end_v, cross, thumb);
            let th = thumb_lines(o, first, k, start_v as int, end_v, cross, thumb);
            assert forall|i: int| 0 <= i < all.len() implies {
                let w = #[trigger] all[i];
                &&& 0 <= w.0 < rows
                &&& 0 <= w.1 < cols
                &&& w.2.len() == 1
            } by {
                if i < fill.len() {
                    assert(all[i] == fill[i]);
                } else {
                    assert(all[i] == th[i - fill.len()]);
                }
            }
        }
    }
}

/// The parts of a bar lie inside it and do not overlap: with arrows, the
/// start arrow takes the first cell along the axis, the end arrow the last
/// and the track the ones between, when the bar is at least three cells
/// long; without arrows the track is the whole bar.
pub proof fn lemma_parts_tile(opts: ScrollBarOptions, width: u16, height: u16)
    requires
        width >= 1,
        height >= 1,
        opts.show_arrows ==> match opts.orientation {
            ScrollOrientation::Vertical => height >= 3,
            ScrollOrientation::Horizontal => width >= 3,
        },
    ensures
        ({
            let p = opts.parts_spec(width, height);
            let t = p.track;
            let r = |v: WindowView| (v.x_offset, v.y_offset, v.width, v.height);
            &&& t.x_offset + t.width <= width && t.y_offset + t.height <= height
            &&& (p.arrows is None <==> !opts.show_arrows)
            &&& !opts.show_arrows ==> r(t) == (0u16, 0u16, width, height)
            &&& p.arrows matches Some((s, e)) ==> {
                &&& s.x_offset + s.width <= width && s.y_offset + s.height <= height
                &&& e.x_offset + e.width <= width && e.y_offset + e.height <= height
                &&& !rects_overlap(r(s), r(t)) && !rects_overlap(r(e), r(t)) && !rects_overlap(r(s), r(e))
                &&& s.width as int * s.height + t.width * t.height + e.width * e.height == width as int * height
            }
        }),
{
    let p = opts.parts_spec(width, height);
    if opts.show_arrows {
        match opts.orientation {
            ScrollOrientation::Vertical => {
                assert(p.track.height == height - 2);
                assert(width as int * 1 + width * (height - 2) + width * 1 == width as int * height) by (nonlinear_arith);
            },
            ScrollOrientation::Horizontal => {
                assert(p.track.width == width - 2);
                assert(1 * height as int + (width - 2) * height + 1 * height == width as int * height) by (nonlinear_arith);
            },
        }
    }
}

/// `v` kept between `lo` and `hi`.
pub open spec fn clamp_to(v: int, lo: int, hi: int) -> int {
    if v < lo { lo } else if v > hi { hi } else { v }
}

/// How far along the axis of a track occupying `area` a pointer at
/// `(x, y)` is, in cells from the start of the track, once the pointer is
/// brought inside the area.
pub open spec fn pointer_cells(o: SliderOrientation, x: u16, y: u16, area: WidgetArea) -> int {
    match o {
        SliderOrientation::Vertical => clamp_to(y as int, area.y as int, sat_sub(area.y + area.height, 1)) - area.y,
        SliderOrientation::Horizontal => clamp_to(x as int, area.x as int, sat_sub(area.x + area.width, 1)) - area.x,
    }
}

/// Whether a pointer can be brought inside `area`: its edges are on the
/// screen and it is not empty (or starts at the edge of the screen).
pub open spec fn clampable(area: WidgetArea) -> bool {
    &&& area.x + area.width <= u16::MAX
    &&& area.y + area.height <= u16::MAX
    &&& area.x <= sat_sub(area.x + area.width, 1)
    &&& area.y <= sat_sub(area.y + area.height, 1)
}

/// How far along the axis of a track occupying `area` a pointer at
/// `(x, y)` is, in cells (see [`pointer_cells`]).
pub fn pointer_axis_cells(o: SliderOrientation, x: u16, y: u16, area: WidgetArea) -> (r: u16)
    requires
        clampable(area),
    ensures
        r == pointer_cells(o, x, y, area),
{
    let right = area.right().saturating_sub(1);
    let bottom = area.bottom().saturating_sub(1);
    let cx = if x < area.x { area.x } else if x > right { right } else { x };
    let cy = if y < area.y { area.y } else if y > bottom { bottom } else { y };
    match o {
        SliderOrientation::Vertical => cy - area.y,
        SliderOrientation::Horizontal => cx - area.x,
    }
}

/// Where inside a thumb starting at half-cell `thumb_start_v` and
/// `thumb_size_v` half-cells long a pointer at `(x, y)` grabs it, in
/// half-cells from the thumb's start (at most its length).
pub fn drag_offset_virtual(o: SliderOrientation, x: u16, y: u16, area: WidgetArea, thumb_start_v: u16,
    thumb_size_v: u16) -> (r: u16)
    requires
        clampable(area),
    ensures
        r == ({
            let off = sat_sub(sat16(2 * pointer_cells(o, x, y, area)), thumb_start_v as int);
            if off <= thumb_size_v { off } else { thumb_size_v as int }
        }),
        r <= thumb_size_v,
{
    let cells = pointer_axis_cells(o, x, y, area);
    let v: u16 = if cells > 0x7fff { 0xffff } else { cells * 2 };
    let off = v.saturating_sub(thumb_start_v);
    if off <= thumb_size_v { off } else { thumb_size_v }
}

/// Where a drag by a pointer at `(x, y)`, holding the thumb `offset_v`
/// half-cells from its start, puts the start of a `thumb_v` half-cells
/// long thumb on a track `axis_cells` long, and the last start the thumb
/// can take, both in half-cells: the pointer less the offset, kept at most
/// the last start. A track counts as at least one cell long and a thumb as
/// at least one half-cell.
pub fn dragged_thumb_start(o: SliderOrientation, x: u16, y: u16, area: WidgetArea, axis_cells: u16, thumb_v: u16,
    offset_v: u16) -> (r: (u16, u16))
    requires
        clampable(area),
    ensures
        r.1 == sat_sub(sat16(2 * at_least_one(axis_cells)), at_least_one(thumb_v) as int),
        r.0 == ({
            let want = sat_sub(sat16(2 * pointer_cells(o, x, y, area)), offset_v as int);
            if want <= r.1 { want } else { r.1 as int }
        }),
        r.0 <= r.1,
{
    let track_cells = if axis_cells == 0 { 1 } else { axis_cells };
    let track_v: u16 = if track_cells > 0x7fff { 0xffff } else { track_cells * 2 };
    let cells = pointer_axis_cells(o, x, y, area);
    let mouse_v: u16 = if cells > 0x7fff { 0xffff } else { cells * 2 };
    let thumb = if thumb_v == 0 { 1 } else { thumb_v };
    let max_start = track_v.saturating_sub(thumb);
    let want = mouse_v.saturating_sub(offset_v);
    let start = if want <= max_start { want } else { max_start };
    (start, max_start)
}

/// The slider orientation of a scrollbar of orientation `o`.
pub open spec fn slider_orientation(o: ScrollOrientation) -> SliderOrientation {
    match o {
        ScrollOrientation::Vertical => SliderOrientation::Vertical,
        ScrollOrientation::Horizontal => SliderOrientation::Horizontal,
    }
}

impl ScrollBarOptions {
    /// Draws a `width` x `height` scrollbar: its arrows, if shown, then its
    /// track through the track's view, with the thumb starting at half-cell
    /// `start_v` of the track and `thumb_v` half-cells long.
    pub fn draw_bar(&self, window: &mut Canvas, width: u16, height: u16, start_v: u16, thumb_v: u16)
        requires
            start_v + thumb_v < u16::MAX,
        ensures
            final(window).ops_view() == apply_writes(self.arrows_after(width, height, old(window).ops_view(),
                old(window).views_view(), old(window).size_view()), old(window).views_view().push(
                self.parts_spec(width, height).track), old(window).size_view(), slider_writes(
                slider_orientation(self.orientation), self.parts_spec(width, height).track.width,
                self.parts_spec(width, height).track.height, start_v, thumb_v, self.track_color, self.thumb_color)),
            final(window).grows_from(old(window)),
            final(window).cursor_view() == old(window).cursor_view(),
    {
        let ghost c0 = *window;
        self.draw_arrows(window, width, height);
        let ghost c1 = *window;
        let parts = self.part_views(width, height);
        let o = match self.orientation {
            ScrollOrientation::Vertical => SliderOrientation::Vertical,
            ScrollOrientation::Horizontal => SliderOrientation::Horizontal,
        };
        window.push_view(parts.track);
        let ghost pushed = *window;
        draw_slider_track(window, o, parts.track.width, parts.track.height, start_v, thumb_v, self.track_color,
            self.thumb_color);
        let ghost drawn = *window;
        window.pop_view();
        proof {
            lemma_grows_through_view(&c1, &pushed, &drawn, parts.track);
            assert(window.views_view() =~= c1.views_view());
            assert(window.grows_from(&c1));
            lemma_grows_trans(&c0, &c1, window);
        }
    }
}

/// Whether the cell `(x, y)` lies in `a`.
pub open spec fn area_has(a: WidgetArea, x: int, y: int) -> bool {
    a.x <= x < a.x + a.width && a.y <= y < a.y + a.height
}

/// Whether the cell `(x, y)` lies in `a` (computed without overflow).
fn area_has_cell(a: WidgetArea, x: u16, y: u16) -> (r: bool)
    ensures
        r == area_has(a, x as int, y as int),
{
    x >= a.x && (x as u32) < a.x as u32 + a.width as u32 && y >= a.y && (y as u32) < a.y as u32 + a.height as u32
}

impl ScrollBarOptions {
    /// The cells that a left click at `(x, y)` on the arrows of a bar
    /// occupying `area` scrolls by: back by the scroll step (1 when unset)
    /// on the start arrow, forward by it on the end arrow; `None` elsewhere
    /// or when the bar has no arrows.
    pub open spec fn arrow_click_spec(&self, x: int, y: int, area: WidgetArea) -> Option<int> {
        let step = match self.scroll_step { Some(n) => n as int, None => 1 };
        let first = match self.orientation {
            ScrollOrientation::Vertical => WidgetArea { height: 1, ..area },
            ScrollOrientation::Horizontal => WidgetArea { width: 1, ..area },
        };
        let last = match self.orientation {
            ScrollOrientation::Vertical => WidgetArea { y: (area.y + sat_sub(area.height as int, 1)) as u16, height: 1,
                ..area },
            ScrollOrientation::Horizontal => WidgetArea { x: (area.x + sat_sub(area.width as int, 1)) as u16, width: 1,
                ..area },
        };
        if !self.show_arrows {
            None
        } else if area_has(first, x, y) {
            Some(-step)
        } else if area_has(last, x, y) {
            Some(step)
        } else {
            None
        }
    }

    /// The cells that a left click at `(x, y)` on the arrows of a bar
    /// occupying `area` scrolls by (see [`ScrollBarOptions::arrow_click_spec`]).
    pub fn arrow_click_step(&self, x: u16, y: u16, area: WidgetArea) -> (r: Option<i32>)
        requires
            self.show_arrows && !area_has(match self.orientation {
                ScrollOrientation::Vertical => WidgetArea { height: 1, ..area },
                ScrollOrientation::Horizontal => WidgetArea { width: 1, ..area },
            }, x as int, y as int) ==> match self.orientation {
                ScrollOrientation::Vertical => area.y + sat_sub(area.height as int, 1) <= u16::MAX,
                ScrollOrientation::Horizontal => area.x + sat_sub(area.width as int, 1) <= u16::MAX,
            },
        ensures
            match r {
                Some(n) => self.arrow_click_spec(x as int, y as int, area) == Some(n as int),
                None => self.arrow_click_spec(x as int, y as int, area) is None,
            },
    {
        if !self.show_arrows {
            return None;
        }
        let step: i32 = match self.scroll_step {
            Some(n) => n as i32,
            None => 1,
        };
        if area_has_cell(self.start_arrow_area_within(area), x, y) {
            return Some(-step);
        }
        if area_has_cell(self.end_arrow_area_within(area), x, y) {
            return Some(step);
        }
        None
    }
}

} // verus!
