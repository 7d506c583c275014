//! The drawing interface: the [`Window`] trait that terminal backends
//! implement, and [`Canvas`], the buffered surface widgets draw into.

use vstd::prelude::*;
use crate::color::ColorPair;
use crate::error::Error;
use crate::text::{repeat_char, repeat_string, to_owned_string};
use crate::widgets::common::{WindowView, within_view, lemma_view_clips};

verus! {

/// A cursor placement requested for the end of the frame.
#[derive(Debug, Clone, Copy, PartialEq, Eq, Structural)]
pub struct CursorSpec {
    pub x: u16,
    pub y: u16,
    pub visible: bool,
}

/// The drawing interface of a terminal backend. Coordinates start at (0, 0)
/// in the top-left corner; `y` is the row and `x` the column.
pub trait Window {
    /// Writes `s` at row `y`, column `x` in the default colors.
    fn write_str(&mut self, y: u16, x: u16, s: &str) -> Result<(), Error>;

    /// Writes `s` at row `y`, column `x` in `colors`.
    fn write_str_colored(&mut self, y: u16, x: u16, s: &str, colors: ColorPair) -> Result<(), Error>;

    /// Commits buffered output.
    fn flush(&mut self) -> Result<(), Error>;

    /// Requests a cursor state for the end of the frame; the last request wins.
    fn request_cursor(&mut self, cursor: CursorSpec);

    /// Drops any pending cursor request.
    fn clear_cursor_request(&mut self);

    /// Finishes a frame.
    fn end_frame(&mut self) -> Result<(), Error>;

    /// Moves the terminal cursor now.
    fn set_cursor_position(&mut self, x: u16, y: u16) -> Result<(), Error>;

    /// Shows or hides the terminal cursor now.
    fn show_cursor(&mut self, show: bool) -> Result<(), Error>;

    /// The size of the window as (width, height).
    fn get_size(&self) -> (u16, u16);

    /// Blanks the whole window.
    fn clear_screen(&mut self) -> Result<(), Error>;

    /// Blanks row `y`.
    fn clear_line(&mut self, y: u16) -> Result<(), Error>;

    /// Blanks the rectangle with corners (y1, x1) and (y2, x2), in any order.
    fn clear_area(&mut self, y1: u16, x1: u16, y2: u16, x2: u16) -> Result<(), Error>;
}

/// One recorded write: `text` at row `y`, column `x`, in `colors` (or the
/// default colors when `None`).
#[derive(Debug, Clone, PartialEq, Eq)]
pub struct DrawOp {
    pub y: u16,
    pub x: u16,
    pub text: String,
    pub colors: Option<ColorPair>,
}

/// A recorded write as a plain value: row, column, text and colors.
pub type OpView = (int, int, Seq<char>, Option<ColorPair>);

/// The plain value of a recorded write.
pub open spec fn op_view(op: DrawOp) -> (int, int, Seq<char>, Option<ColorPair>) {
    (op.y as int, op.x as int, op.text@, op.colors)
}

/// Routes a write through a stack of views, innermost (last) first; `None`
/// when some view drops it.
pub open spec fn route_all(views: Seq<WindowView>, y: int, x: int, s: Seq<char>) -> Option<(int, int, Seq<char>)>
    decreases views.len(),
{
    if views.len() == 0 {
        Some((y, x, s))
    } else {
        match views.last().route_spec(y, x, s) {
            None => None,
            Some((y2, x2, s2)) => route_all(views.drop_last(), y2, x2, s2),
        }
    }
}

/// Where a write at `(y, x)` of `s` lands on a surface of `size` seen
/// through `views`, if anywhere.
pub open spec fn land(views: Seq<WindowView>, size: (u16, u16), y: int, x: int, s: Seq<char>) -> Option<(int, int, Seq<char>)> {
    match route_all(views, y, x, s) {
        None => None,
        Some((py, px, t)) => if py < size.1 && px < size.0 {
            Some((py, px, t))
        } else {
            None
        },
    }
}

/// `ops` after each write `(y, x, s, colors)` of `ws`, in turn, on a surface
/// of `size` seen through `views`.
pub open spec fn apply_writes(ops: Seq<(int, int, Seq<char>, Option<ColorPair>)>, views: Seq<WindowView>,
    size: (u16, u16), ws: Seq<(int, int, Seq<char>, Option<ColorPair>)>) -> Seq<(int, int, Seq<char>, Option<ColorPair>)>
    decreases ws.len(),
{
    if ws.len() == 0 {
        ops
    } else {
        let prev = apply_writes(ops, views, size, ws.drop_last());
        let w = ws.last();
        match land(views, size, w.0, w.1, w.2) {
            None => prev,
            Some((py, px, t)) => prev.push((py, px, t, w.3)),
        }
    }
}

/// The size that drawing code sees through `views` on a surface of `size`:
/// that of the innermost view, or of the surface when no view is active.
pub open spec fn visible_of(views: Seq<WindowView>, size: (u16, u16)) -> (u16, u16) {
    if views.len() == 0 {
        size
    } else {
        (views.last().width, views.last().height)
    }
}

/// `ops` after writing `s` at `(y, x)` in `colors` on a surface of `size`
/// seen through `views`.
pub open spec fn write_after(ops: Seq<(int, int, Seq<char>, Option<ColorPair>)>, views: Seq<WindowView>,
    size: (u16, u16), y: int, x: int, s: Seq<char>, colors: Option<ColorPair>) -> Seq<(int, int, Seq<char>, Option<ColorPair>)> {
    match land(views, size, y, x, s) {
        None => ops,
        Some((py, px, t)) => ops.push((py, px, t, colors)),
    }
}

/// The writes `ws`, each in `colors`.
pub open spec fn colored(ws: Seq<(int, int, Seq<char>)>, colors: Option<ColorPair>) -> Seq<(int, int, Seq<char>, Option<ColorPair>)> {
    ws.map_values(|w: (int, int, Seq<char>)| (w.0, w.1, w.2, colors))
}

/// Whether `op` is where some write (at non-negative coordinates) lands on a
/// surface of `size` seen through `views`.
pub open spec fn lands_under(views: Seq<WindowView>, size: (u16, u16), op: (int, int, Seq<char>, Option<ColorPair>)) -> bool {
    exists|y: int, x: int, s: Seq<char>| #![trigger land(views, size, y, x, s)]
        y >= 0 && x >= 0 && land(views, size, y, x, s) == Some((op.0, op.1, op.2))
}

/// The plain values of a list of writes.
pub open spec fn ops_views(ops: Seq<DrawOp>) -> Seq<(int, int, Seq<char>, Option<ColorPair>)> {
    ops.map_values(|op: DrawOp| op_view(op))
}

/// Appends the write of `text` at `(y, x)` in `colors` to `out`.
pub fn push_op(out: &mut Vec<DrawOp>, y: u16, x: u16, text: String, colors: Option<ColorPair>)
    ensures
        ops_views(final(out)@) == ops_views(old(out)@).push((y as int, x as int, text@, colors)),
{
    let op = DrawOp { y, x, text, colors };
    out.push(op);
    assert(ops_views(out@) =~= ops_views(old(out)@).push(op_view(op)));
}

/// A buffered drawing surface of `width` x `height` cells.
///
/// Widgets draw through the stack of active views (see [`WindowView`]); a
/// write that survives every view and lands inside the surface is recorded,
/// in surface coordinates, as a [`DrawOp`]. Nothing is ever erased: a later
/// write simply covers an earlier one when the ops are replayed in order.
pub struct Canvas {
    width: u16,
    height: u16,
    views: Vec<WindowView>,
    ops: Vec<DrawOp>,
    cursor: Option<CursorSpec>,
}

impl Canvas {
    /// The recorded writes, in order, as plain values.
    pub closed spec fn ops_view(&self) -> Seq<(int, int, Seq<char>, Option<ColorPair>)> {
        self.ops@.map_values(|op: DrawOp| op_view(op))
    }

    /// The stack of active views, outermost first.
    pub closed spec fn views_view(&self) -> Seq<WindowView> {
        self.views@
    }

    /// The surface size.
    pub closed spec fn size_view(&self) -> (u16, u16) {
        (self.width, self.height)
    }

    /// The pending cursor request.
    pub closed spec fn cursor_view(&self) -> Option<CursorSpec> {
        self.cursor
    }

    /// The size that drawing code sees: that of the innermost view, or of the
    /// surface when no view is active.
    pub open spec fn visible_size(&self) -> (u16, u16) {
        visible_of(self.views_view(), self.size_view())
    }

    /// Where a write at `(y, x)` of `s` ends up on the surface, if anywhere.
    pub open spec fn landing(&self, y: int, x: int, s: Seq<char>) -> Option<(int, int, Seq<char>)> {
        land(self.views_view(), self.size_view(), y, x, s)
    }

    /// The ops after each write of `ws`, in turn, each in its own colors.
    pub open spec fn ops_after_each(&self, ws: Seq<(int, int, Seq<char>, Option<ColorPair>)>) -> Seq<(int, int, Seq<char>, Option<ColorPair>)> {
        apply_writes(self.ops_view(), self.views_view(), self.size_view(), ws)
    }

    /// The ops after writing `s` at `(y, x)` in `colors`.
    pub open spec fn ops_after_write(&self, y: int, x: int, s: Seq<char>, colors: Option<ColorPair>) -> Seq<(int, int, Seq<char>, Option<ColorPair>)> {
        write_after(self.ops_view(), self.views_view(), self.size_view(), y, x, s, colors)
    }

    /// Every recorded write starts on the surface.
    pub open spec fn on_surface(&self) -> bool {
        forall|i: int| 0 <= i < self.ops_view().len() ==> {
            &&& 0 <= #[trigger] self.ops_view()[i].0 < self.size_view().1
            &&& 0 <= self.ops_view()[i].1 < self.size_view().0
        }
    }

    /// Every write recorded after those of `before` is where some write
    /// through the views of `before` lands.
    pub open spec fn adds_landings(&self, before: &Canvas) -> bool {
        forall|i: int| before.ops_view().len() <= i < self.ops_view().len() ==> lands_under(before.views_view(),
            before.size_view(), #[trigger] self.ops_view()[i])
    }

    /// Every write recorded after those of `before` is where some write
    /// through the views of `before` and then one of `cells` lands.
    pub open spec fn draws_in_cells(&self, before: &Canvas, cells: Seq<WindowView>) -> bool {
        cells_drawn(self.ops_view(), before.ops_view().len() as int, before.views_view(), before.size_view(), cells)
    }

    /// `self` is `before` with writes added: same views and size, the writes
    /// of `before` come first, and each added one is where a write through
    /// the active views lands.
    pub open spec fn grows_from(&self, before: &Canvas) -> bool {
        &&& self.views_view() == before.views_view()
        &&& self.size_view() == before.size_view()
        &&& before.ops_view().is_prefix_of(self.ops_view())
        &&& self.adds_landings(before)
    }

    /// A blank surface of `width` x `height` cells with no active view.
    pub fn new(width: u16, height: u16) -> (r: Self)
        ensures
            r.size_view() == (width, height),
            r.ops_view() == Seq::<(int, int, Seq<char>, Option<ColorPair>)>::empty(),
            r.views_view() == Seq::<WindowView>::empty(),
            r.cursor_view() is None,
            r.on_surface(),
    {
        let r = Canvas { width, height, views: Vec::new(), ops: Vec::new(), cursor: None };
        assert(r.ops_view() =~= Seq::<(int, int, Seq<char>, Option<ColorPair>)>::empty());
        r
    }

    /// The recorded writes.
    pub fn ops(&self) -> (r: &Vec<DrawOp>)
        ensures
            r@.map_values(|op: DrawOp| op_view(op)) == self.ops_view(),
    {
        &self.ops
    }

    /// The pending cursor request.
    pub fn cursor(&self) -> (r: Option<CursorSpec>)
        ensures
            r == self.cursor_view(),
    {
        self.cursor
    }

    /// Drops all recorded writes (views and cursor are kept).
    pub fn clear_ops(&mut self)
        ensures
            final(self).ops_view() == Seq::<(int, int, Seq<char>, Option<ColorPair>)>::empty(),
            final(self).views_view() == old(self).views_view(),
            final(self).size_view() == old(self).size_view(),
            final(self).cursor_view() == old(self).cursor_view(),
    {
        self.ops = Vec::new();
        assert(self.ops_view() =~= Seq::<(int, int, Seq<char>, Option<ColorPair>)>::empty());
    }

    /// Makes `view` the innermost view: later writes go through it first.
    pub fn push_view(&mut self, view: WindowView)
        ensures
            final(self).views_view() == old(self).views_view().push(view),
            final(self).ops_view() == old(self).ops_view(),
            final(self).size_view() == old(self).size_view(),
            final(self).cursor_view() == old(self).cursor_view(),
    {
        self.views.push(view);
    }

    /// Drops the innermost view.
    pub fn pop_view(&mut self)
        ensures
            final(self).views_view() == (if old(self).views_view().len() == 0 {
                old(self).views_view()
            } else {
                old(self).views_view().drop_last()
            }),
            final(self).ops_view() == old(self).ops_view(),
            final(self).size_view() == old(self).size_view(),
            final(self).cursor_view() == old(self).cursor_view(),
    {
        let _ = self.views.pop();
    }

    /// Records a write of `s` at `(y, x)` in `colors`, routed through the
    /// active views.
    pub fn put(&mut self, y: u16, x: u16, s: &str, colors: Option<ColorPair>)
        ensures
            final(self).ops_view() == old(self).ops_after_write(y as int, x as int, s@, colors),
            final(self).views_view() == old(self).views_view(),
            final(self).size_view() == old(self).size_view(),
            final(self).cursor_view() == old(self).cursor_view(),
            final(self).grows_from(old(self)),
            old(self).on_surface() ==> final(self).on_surface(),
    {
        proof {
            lemma_write_grows(self, y as int, x as int, s@, colors);
            lemma_land_clips(self.views_view(), self.size_view(), y as int, x as int, s@);
            let w = old(self).ops_after_write(y as int, x as int, s@, colors);
            assert forall|i: int| old(self).ops_view().len() <= i < w.len() implies lands_under(
                old(self).views_view(), old(self).size_view(), #[trigger] w[i]) by {
                assert(land(old(self).views_view(), old(self).size_view(), y as int, x as int, s@) == Some(
                    (w[i].0, w[i].1, w[i].2)));
            }
        }
        let mut cy = y;
        let mut cx = x;
        let mut cs = to_owned_string(s);
        let mut i = self.views.len();
        assert(self.views@.take(i as int) =~= self.views@);
        while i > 0
            invariant
                i <= self.views@.len(),
                route_all(self.views@, y as int, x as int, s@)
                    == route_all(self.views@.take(i as int), cy as int, cx as int, cs@),
            decreases i,
        {
            assert(self.views@.take(i as int).drop_last() == self.views@.take(i - 1));
            assert(self.views@.take(i as int).last() == self.views@[i - 1]);
            match self.views[i - 1].route(cy, cx, cs.as_str()) {
                None => {
                    return;
                }
                Some((ny, nx, t)) => {
                    cy = ny;
                    cx = nx;
                    cs = t;
                }
            }
            i = i - 1;
        }
        assert(self.views@.take(0) == Seq::<WindowView>::empty());
        if cy < self.height && cx < self.width {
            let op = DrawOp { y: cy, x: cx, text: cs, colors };
            self.ops.push(op);
            assert(self.ops_view() =~= old(self).ops_view().push(op_view(op)));
        }
    }

    /// Records each write of `ops`, in turn, routed through the active views.
    pub fn emit(&mut self, ops: &Vec<DrawOp>)
        ensures
            final(self).ops_view() == old(self).ops_after_each(ops_views(ops@)),
            final(self).grows_from(old(self)),
            final(self).cursor_view() == old(self).cursor_view(),
            old(self).on_surface() ==> final(self).on_surface(),
    {
        let ghost c0 = *self;
        let mut i: usize = 0;
        while i < ops.len()
            invariant
                i <= ops@.len(),
                self.views_view() == c0.views_view(),
                self.size_view() == c0.size_view(),
                self.cursor_view() == c0.cursor_view(),
                self.ops_view() == c0.ops_after_each(ops_views(ops@).take(i as int)),
                c0.ops_view().is_prefix_of(self.ops_view()),
                self.grows_from(&c0),
                c0.on_surface() ==> self.on_surface(),
            decreases ops.len() - i,
        {
            let op = &ops[i];
            let ghost before = *self;
            self.put(op.y, op.x, op.text.as_str(), op.colors);
            proof {
                assert(ops_views(ops@).take(i + 1).drop_last() =~= ops_views(ops@).take(i as int));
                assert(ops_views(ops@).take(i + 1).last() == op_view(ops@[i as int]));
                lemma_prefix_trans(c0.ops_view(), before.ops_view(), self.ops_view());
                lemma_grows_trans(&c0, &before, self);
            }
            i = i + 1;
        }
        assert(ops_views(ops@).take(ops@.len() as int) =~= ops_views(ops@));
    }

    /// Records a cursor request, mapped through the active views.
    pub fn put_cursor(&mut self, cursor: CursorSpec)
        ensures
            final(self).cursor_view() == Some(map_cursor_all(old(self).views_view(), cursor)),
            final(self).ops_view() == old(self).ops_view(),
            final(self).views_view() == old(self).views_view(),
            final(self).size_view() == old(self).size_view(),
    {
        let mut c = cursor;
        let mut i = self.views.len();
        assert(self.views@.take(i as int) =~= self.views@);
        while i > 0
            invariant
                i <= self.views@.len(),
                map_cursor_all(self.views@, cursor) == map_cursor_all(self.views@.take(i as int), c),
            decreases i,
        {
            assert(self.views@.take(i as int).drop_last() == self.views@.take(i - 1));
            assert(self.views@.take(i as int).last() == self.views@[i - 1]);
            c = self.views[i - 1].map_cursor(c);
            i = i - 1;
        }
        assert(self.views@.take(0) == Seq::<WindowView>::empty());
        self.cursor = Some(c);
    }

    /// Blanks `n` rows from row `top`, each `width` cells from column `left`,
    /// by writing spaces over them, top row first.
    fn blank_rows(&mut self, top: u16, n: u16, left: u16, width: u16)
        requires
            top + n <= u16::MAX + 1,
        ensures
            final(self).ops_view() == old(self).ops_after_each(blank_writes(top as int, left as int, width as int, n as nat)),
            final(self).grows_from(old(self)),
            final(self).cursor_view() == old(self).cursor_view(),
    {
        let spaces = repeat_string(' ', width as usize);
        let mut out: Vec<DrawOp> = Vec::new();
        let mut i: u16 = 0;
        assert(ops_views(out@) =~= blank_writes(top as int, left as int, width as int, 0));
        while i < n
            invariant
                i <= n,
                top + n <= u16::MAX + 1,
                spaces@ == repeat_char(' ', width as nat),
                ops_views(out@) == blank_writes(top as int, left as int, width as int, i as nat),
            decreases n - i,
        {
            push_op(&mut out, top + i, left, spaces.clone(), None);
            assert(ops_views(out@) =~= blank_writes(top as int, left as int, width as int, (i + 1) as nat));
            i = i + 1;
        }
        self.emit(&out);
    }
}

/// The smaller of `a` and `b`.
pub open spec fn min_int(a: int, b: int) -> int {
    if a <= b { a } else { b }
}

/// The larger of `a` and `b`.
pub open spec fn max_int(a: int, b: int) -> int {
    if a <= b { b } else { a }
}

/// Whether every write of `ops` from index `from` on is where some write
/// through `views` and then one of `cells` lands on a surface of `size`.
pub open spec fn cells_drawn(ops: Seq<(int, int, Seq<char>, Option<ColorPair>)>, from: int, views: Seq<WindowView>,
    size: (u16, u16), cells: Seq<WindowView>) -> bool {
    forall|i: int| from <= i < ops.len() ==> exists|j: int| 0 <= j < cells.len()
        && lands_under(views.push(cells[j]), size, #[trigger] ops[i])
}

/// Every surface has grown from itself.
pub proof fn lemma_grows_refl(c: &Canvas)
    ensures
        c.grows_from(c),
{
    assert(c.ops_view().is_prefix_of(c.ops_view())) by {
        assert(c.ops_view().subrange(0, c.ops_view().len() as int) =~= c.ops_view());
    }
}

/// `n` rows of `width` spaces from row `top`, column `left`, top row first,
/// in the default colors.
pub open spec fn blank_writes(top: int, left: int, width: int, n: nat) -> Seq<(int, int, Seq<char>, Option<ColorPair>)> {
    Seq::new(n, |i: int| (top + i, left, repeat_char(' ', width as nat), None::<ColorPair>))
}

/// Maps a cursor request through a stack of views, innermost (last) first.
pub open spec fn map_cursor_all(views: Seq<WindowView>, c: CursorSpec) -> CursorSpec
    decreases views.len(),
{
    if views.len() == 0 {
        c
    } else {
        map_cursor_all(views.drop_last(), views.last().map_cursor_spec(c))
    }
}

impl Window for Canvas {
    fn write_str(&mut self, y: u16, x: u16, s: &str) -> (r: Result<(), Error>)
        ensures
            r is Ok,
            final(self).ops_view() == old(self).ops_after_write(y as int, x as int, s@, None),
            final(self).views_view() == old(self).views_view(),
            final(self).size_view() == old(self).size_view(),
            final(self).cursor_view() == old(self).cursor_view(),
            final(self).grows_from(old(self)),
    {
        self.put(y, x, s, None);
        Ok(())
    }

    fn write_str_colored(&mut self, y: u16, x: u16, s: &str, colors: ColorPair) -> (r: Result<(), Error>)
        ensures
            r is Ok,
            final(self).ops_view() == old(self).ops_after_write(y as int, x as int, s@, Some(colors)),
            final(self).views_view() == old(self).views_view(),
            final(self).size_view() == old(self).size_view(),
            final(self).cursor_view() == old(self).cursor_view(),
            final(self).grows_from(old(self)),
    {
        self.put(y, x, s, Some(colors));
        Ok(())
    }

    fn flush(&mut self) -> (r: Result<(), Error>)
        ensures
            r is Ok,
            *final(self) == *old(self),
    {
        Ok(())
    }

    fn request_cursor(&mut self, cursor: CursorSpec)
        ensures
            final(self).cursor_view() == Some(map_cursor_all(old(self).views_view(), cursor)),
            final(self).ops_view() == old(self).ops_view(),
            final(self).views_view() == old(self).views_view(),
            final(self).size_view() == old(self).size_view(),
    {
        self.put_cursor(cursor);
    }

    fn clear_cursor_request(&mut self)
        ensures
            final(self).cursor_view() is None,
            final(self).ops_view() == old(self).ops_view(),
            final(self).views_view() == old(self).views_view(),
            final(self).size_view() == old(self).size_view(),
    {
        self.cursor = None;
    }

    fn end_frame(&mut self) -> (r: Result<(), Error>)
        ensures
            r is Ok,
            *final(self) == *old(self),
    {
        Ok(())
    }

    fn set_cursor_position(&mut self, x: u16, y: u16) -> (r: Result<(), Error>)
        ensures
            r is Ok,
            *final(self) == *old(self),
    {
        Ok(())
    }

    fn show_cursor(&mut self, show: bool) -> (r: Result<(), Error>)
        ensures
            r is Ok,
            *final(self) == *old(self),
    {
        Ok(())
    }

    fn get_size(&self) -> (r: (u16, u16))
        ensures
            r == self.visible_size(),
    {
        if self.views.len() == 0 {
            (self.width, self.height)
        } else {
            let v = self.views[self.views.len() - 1];
            (v.width, v.height)
        }
    }

    fn clear_screen(&mut self) -> (r: Result<(), Error>)
        ensures
            r is Ok,
            final(self).ops_view() == old(self).ops_after_each(blank_writes(0, 0,
                old(self).visible_size().0 as int, old(self).visible_size().1 as nat)),
            final(self).grows_from(old(self)),
            final(self).cursor_view() == old(self).cursor_view(),
    {
        let (w, h) = self.get_size();
        self.blank_rows(0, h, 0, w);
        Ok(())
    }

    fn clear_line(&mut self, y: u16) -> (r: Result<(), Error>)
        ensures
            (old(self).views_view().len() == 0 && y >= old(self).size_view().1) <==> r is Err,
            r is Err ==> r == Err::<(), Error>(Error::LineOutOfBoundsError { y, height: old(self).size_view().1 })
                && *final(self) == *old(self),
            r is Ok ==> final(self).ops_view() == (if y < old(self).visible_size().1 {
                old(self).ops_after_each(blank_writes(y as int, 0, old(self).visible_size().0 as int, 1))
            } else {
                old(self).ops_view()
            }),
            final(self).grows_from(old(self)),
            final(self).cursor_view() == old(self).cursor_view(),
    {
        let (w, h) = self.get_size();
        if self.views.len() == 0 && y >= h {
            return Err(Error::LineOutOfBoundsError { y, height: h });
        }
        if y >= h {
            proof { lemma_grows_refl(self); }
            return Ok(());
        }
        self.blank_rows(y, 1, 0, w);
        Ok(())
    }

    fn clear_area(&mut self, y1: u16, x1: u16, y2: u16, x2: u16) -> (r: Result<(), Error>)
        ensures
            r is Err <==> (old(self).views_view().len() == 0 && (x1 >= old(self).size_view().0
                || x2 >= old(self).size_view().0 || y1 >= old(self).size_view().1 || y2 >= old(self).size_view().1)),
            r is Err ==> r == Err::<(), Error>(Error::BoxOutOfBoundsError {
                x1, y1, x2, y2, width: old(self).size_view().0, height: old(self).size_view().1 })
                && *final(self) == *old(self),
            r is Ok ==> final(self).ops_view() == (if x1 < old(self).visible_size().0 && x2 < old(self).visible_size().0
                && y1 < old(self).visible_size().1 && y2 < old(self).visible_size().1 {
                old(self).ops_after_each(blank_writes(min_int(y1 as int, y2 as int), min_int(x1 as int, x2 as int),
                    max_int(x1 as int, x2 as int) - min_int(x1 as int, x2 as int) + 1,
                    (max_int(y1 as int, y2 as int) - min_int(y1 as int, y2 as int) + 1) as nat))
            } else {
                old(self).ops_view()
            }),
            final(self).grows_from(old(self)),
            final(self).cursor_view() == old(self).cursor_view(),
    {
        let (w, h) = self.get_size();
        if x1 >= w || x2 >= w || y1 >= h || y2 >= h {
            if self.views.len() == 0 {
                return Err(Error::BoxOutOfBoundsError { x1, y1, x2, y2, width: w, height: h });
            }
            proof { lemma_grows_refl(self); }
            return Ok(());
        }
        let (top, bottom) = if y1 <= y2 { (y1, y2) } else { (y2, y1) };
        let (left, right) = if x1 <= x2 { (x1, x2) } else { (x2, x1) };
        self.blank_rows(top, bottom - top + 1, left, right - left + 1);
        Ok(())
    }
}

} // verus!

verus! {

/// Adding writes is transitive.
pub proof fn lemma_grows_trans(a: &Canvas, b: &Canvas, c: &Canvas)
    requires
        b.grows_from(a),
        c.grows_from(b),
    ensures
        c.grows_from(a),
{
    assert(a.ops_view() =~= c.ops_view().subrange(0, a.ops_view().len() as int));
    assert forall|i: int| a.ops_view().len() <= i < c.ops_view().len() implies lands_under(a.views_view(),
        a.size_view(), #[trigger] c.ops_view()[i]) by {
        if i < b.ops_view().len() {
            assert(c.ops_view()[i] == b.ops_view()[i]);
        }
    }
}

/// Growth chains: a surface grown from one grown from `a` is grown from `a`.
pub broadcast proof fn lemma_grows_chain(a: &Canvas, b: &Canvas, c: &Canvas)
    requires
        b.grows_from(a),
        c.grows_from(b),
    ensures
        #![trigger b.grows_from(a), c.grows_from(b)]
        c.grows_from(a),
{
    lemma_grows_trans(a, b, c);
}

/// A write through a view lands where the write it is turned into, through
/// the views under it, lands.
pub proof fn lemma_landing_through_view(views: Seq<WindowView>, v: WindowView, size: (u16, u16),
    op: (int, int, Seq<char>, Option<ColorPair>))
    requires
        lands_under(views.push(v), size, op),
    ensures
        lands_under(views, size, op),
        exists|y: int, x: int, s: Seq<char>| #![trigger land(views, size, y, x, s)]
            within_view(v, y, x, s) && land(views, size, y, x, s) == Some((op.0, op.1, op.2)),
{
    let (y, x, s) = choose|y: int, x: int, s: Seq<char>| #![trigger land(views.push(v), size, y, x, s)]
        y >= 0 && x >= 0 && land(views.push(v), size, y, x, s) == Some((op.0, op.1, op.2));
    assert(views.push(v).drop_last() =~= views);
    assert(views.push(v).last() == v);
    lemma_view_clips(v, y, x, s);
    let (y2, x2, s2) = v.route_spec(y, x, s).unwrap();
    assert(route_all(views.push(v), y, x, s) == route_all(views, y2, x2, s2));
    assert(land(views, size, y2, x2, s2) == Some((op.0, op.1, op.2)));
    assert(y2 >= 0 && x2 >= 0);
}

/// Drawing through a pushed view, then dropping it again, leaves the
/// surface grown from what it was before the push.
pub proof fn lemma_grows_through_view(a: &Canvas, b: &Canvas, c: &Canvas, v: WindowView)
    requires
        b.views_view() == a.views_view().push(v),
        b.size_view() == a.size_view(),
        b.ops_view() == a.ops_view(),
        c.views_view() == b.views_view(),
        c.size_view() == b.size_view(),
        b.ops_view().is_prefix_of(c.ops_view()),
        c.adds_landings(b),
    ensures
        c.adds_landings(a),
        a.ops_view().is_prefix_of(c.ops_view()),
{
    assert forall|i: int| a.ops_view().len() <= i < c.ops_view().len() implies lands_under(a.views_view(),
        a.size_view(), #[trigger] c.ops_view()[i]) by {
        lemma_landing_through_view(a.views_view(), v, a.size_view(), c.ops_view()[i]);
    }
}

/// A write leaves the surface grown from what it was.
pub proof fn lemma_write_grows(c: &Canvas, y: int, x: int, s: Seq<char>, colors: Option<ColorPair>)
    ensures
        c.ops_view().is_prefix_of(c.ops_after_write(y, x, s, colors)),
{
    assert(c.ops_view() =~= c.ops_after_write(y, x, s, colors).subrange(0, c.ops_view().len() as int));
}

/// Being a prefix is transitive.
pub proof fn lemma_prefix_trans<T>(a: Seq<T>, b: Seq<T>, c: Seq<T>)
    requires
        a.is_prefix_of(b),
        b.is_prefix_of(c),
    ensures
        a.is_prefix_of(c),
{
    assert(a =~= c.subrange(0, a.len() as int));
}

/// Drawing through a stack of views: what lands on the surface lies on it,
/// inside the outermost view's rectangle when there is a view, and is a
/// prefix of what was written.
pub proof fn lemma_land_clips(views: Seq<WindowView>, size: (u16, u16), y: int, x: int, s: Seq<char>)
    requires
        y >= 0,
        x >= 0,
    ensures
        land(views, size, y, x, s) matches Some((py, px, t)) ==> {
            &&& 0 <= py < size.1
            &&& 0 <= px < size.0
            &&& t.is_prefix_of(s)
            &&& views.len() > 0 ==> within_view(views[0], py, px, t)
        },
{
    lemma_route_all_clips(views, y, x, s);
}

/// Routing through a stack of views keeps coordinates non-negative, keeps a
/// prefix of the text, and ends inside the outermost view.
pub proof fn lemma_route_all_clips(views: Seq<WindowView>, y: int, x: int, s: Seq<char>)
    requires
        y >= 0,
        x >= 0,
    ensures
        route_all(views, y, x, s) matches Some((py, px, t)) ==> {
            &&& py >= 0
            &&& px >= 0
            &&& t.is_prefix_of(s)
            &&& views.len() > 0 ==> within_view(views[0], py, px, t)
        },
    decreases views.len(),
{
    if views.len() > 0 {
        let v = views.last();
        lemma_view_clips(v, y, x, s);
        if let Some((y2, x2, s2)) = v.route_spec(y, x, s) {
            lemma_route_all_clips(views.drop_last(), y2, x2, s2);
            if let Some((py, px, t)) = route_all(views.drop_last(), y2, x2, s2) {
                lemma_prefix_trans(t, s2, s);
                if views.len() == 1 {
                    assert(views.drop_last().len() == 0);
                    assert(views[0] == v);
                } else {
                    assert(views.drop_last()[0] == views[0]);
                }
            }
        }
    }
}

/// What is drawn through cells stays in them: every write added while
/// drawing through one of `cells` is where a write lying inside that cell
/// (on its rows, from its columns, not past its right edge) lands through
/// the views that were active.
pub proof fn lemma_cells_contain_writes(before: &Canvas, after: &Canvas, cells: Seq<WindowView>, i: int)
    requires
        after.draws_in_cells(before, cells),
        before.ops_view().len() <= i < after.ops_view().len(),
    ensures
        exists|j: int, y: int, x: int, s: Seq<char>| #![trigger cells[j], land(before.views_view(), before.size_view(), y, x, s)]
            0 <= j < cells.len() && within_view(cells[j], y, x, s)
            && land(before.views_view(), before.size_view(), y, x, s) == Some((after.ops_view()[i].0,
            after.ops_view()[i].1, after.ops_view()[i].2)),
{
    let op = after.ops_view()[i];
    let j = choose|j: int| 0 <= j < cells.len() && lands_under(before.views_view().push(cells[j]), before.size_view(), op);
    lemma_landing_through_view(before.views_view(), cells[j], before.size_view(), op);
    let (y, x, s) = choose|y: int, x: int, s: Seq<char>| #![trigger land(before.views_view(), before.size_view(), y, x, s)]
        within_view(cells[j], y, x, s) && land(before.views_view(), before.size_view(), y, x, s) == Some((op.0, op.1, op.2));
    assert(0 <= j < cells.len() && within_view(cells[j], y, x, s) && land(before.views_view(), before.size_view(), y,
        x, s) == Some((op.0, op.1, op.2)));
}

/// What a backend does with the terminal cursor at the end of a frame.
#[derive(Debug, Clone, Copy, PartialEq, Eq)]
pub struct CursorUpdate {
    /// Where to move the cursor, if anywhere.
    pub move_to: Option<(u16, u16)>,
    /// Whether to show (`Some(true)`) or hide (`Some(false)`) the cursor.
    pub show: Option<bool>,
    /// The cursor state to remember for the next frame.
    pub last: CursorSpec,
}

/// The cursor wanted at the end of a frame: the request of the frame, else
/// the state of the last frame, else hidden at the origin.
pub open spec fn desired_cursor(pending: Option<CursorSpec>, last: Option<CursorSpec>) -> CursorSpec {
    match pending {
        Some(c) => c,
        None => match last {
            Some(l) => l,
            None => CursorSpec { x: 0, y: 0, visible: false },
        },
    }
}

/// Whether the cursor was visible at the end of the last frame.
pub open spec fn was_visible(last: Option<CursorSpec>) -> bool {
    last matches Some(l) && l.visible
}

/// The end-of-frame cursor update. `rendered` says whether writes were
/// replayed this frame, which hides the cursor and leaves it after the last
/// write. A visible cursor is moved unless it is already where it should
/// be and nothing was rendered; it is shown when it was hidden (or hidden
/// by the rendering) and hidden when it was visible and is no longer wanted.
pub open spec fn cursor_update_spec(pending: Option<CursorSpec>, last: Option<CursorSpec>, rendered: bool) -> CursorUpdate {
    let d = desired_cursor(pending, last);
    let moved = match last {
        Some(p) => !p.visible || p.x != d.x || p.y != d.y,
        None => true,
    };
    CursorUpdate {
        move_to: if d.visible && (moved || rendered) { Some((d.x, d.y)) } else { None },
        show: if d.visible {
            if !was_visible(last) || rendered { Some(true) } else { None }
        } else if was_visible(last) {
            Some(false)
        } else {
            None
        },
        last: d,
    }
}

/// Decides what to do with the terminal cursor at the end of a frame, from
/// the frame's request, the state left by the last frame and whether writes
/// were rendered (see [`cursor_update_spec`]).
pub fn cursor_update(pending: Option<CursorSpec>, last: Option<CursorSpec>, rendered: bool) -> (r: CursorUpdate)
    ensures
        r == cursor_update_spec(pending, last, rendered),
{
    let desired = match pending {
        Some(c) => c,
        None => match last {
            Some(l) => l,
            None => CursorSpec { x: 0, y: 0, visible: false },
        },
    };
    let moved = match last {
        Some(p) => !p.visible || p.x != desired.x || p.y != desired.y,
        None => true,
    };
    let prev_visible = match last {
        Some(p) => p.visible,
        None => false,
    };
    let move_to = if desired.visible && (moved || rendered) { Some((desired.x, desired.y)) } else { None };
    let show = if desired.visible {
        if !prev_visible || rendered { Some(true) } else { None }
    } else if prev_visible {
        Some(false)
    } else {
        None
    };
    CursorUpdate { move_to, show, last: desired }
}

/// After an end-of-frame update the terminal cursor is where the frame
/// wants it: visible exactly when wanted and, when visible, at the wanted
/// cell, whether or not it had to be moved, and the state remembered for the
/// next frame is the one the terminal is now in. The terminal starts the
/// update as the last frame left it, except that rendering hides the cursor
/// and moves it away.
pub proof fn lemma_cursor_update_settles(pending: Option<CursorSpec>, last: Option<CursorSpec>, rendered: bool)
    ensures
        ({
            let u = cursor_update_spec(pending, last, rendered);
            let d = desired_cursor(pending, last);
            let visible_before = was_visible(last) && !rendered;
            let visible_after = match u.show { Some(b) => b, None => visible_before };
            &&& visible_after == d.visible
            &&& d.visible ==> (u.move_to == Some((d.x, d.y)) || (!rendered && last == Some(d)))
            &&& u.last == d
        }),
{
}

} // verus!
