//! [`ScrollBox`]: a container whose children scroll inside its frame, with
//! sticky edges and auto-scrolling while a drag nears an edge.
//!
//! The scroll state is a plain [`ScrollState`] held by the box. Wheel input
//! with acceleration and timed auto-scrolling, which work in fractions of a
//! cell, are driven from outside through [`ScrollBox::scroll_by`].

use vstd::prelude::*;
use crate::color::ColorPair;
use crate::error::Error;
use crate::window::{Canvas, Window, cells_drawn, lemma_grows_through_view};
use crate::widgets::common::{BorderChars, WindowView};
use crate::widgets::container::{Container, ContainerProps, LayoutDirection, Padding, Gap, ContentAlignment,
    BorderSide, BorderSides, BorderConfig, TitleAlignment, resized, layout_spec, autosize_gap_spec,
    ChildProps, ChildConstraints, AxisConstraints, add_child_specs};
use crate::widgets::controls::StickyEdge;
use crate::widgets::scroll::{ScrollOffset, ScrollOrientation, ScrollSize, ScrollState, max_offset_spec, sat_sub,
    sat_add16};
use crate::widgets::Widget;

verus! {

broadcast use crate::window::lemma_grows_chain;

/// A scroll state as its content size, viewport size and offset.
pub type Parts = (ScrollSize, ScrollSize, ScrollOffset);

/// The position of `p` along `o`.
pub open spec fn part_pos(p: Parts, o: ScrollOrientation) -> int {
    match o {
        ScrollOrientation::Vertical => p.2.y as int,
        ScrollOrientation::Horizontal => p.2.x as int,
    }
}

/// The largest position of `p` along `o`.
pub open spec fn part_max(p: Parts, o: ScrollOrientation) -> int {
    max_offset_spec(p.0, p.1, o)
}

/// `p` moved to `v` along `o`, clamped on both axes.
pub open spec fn placed(p: Parts, o: ScrollOrientation, v: int) -> Parts {
    match o {
        ScrollOrientation::Vertical => ScrollState::clamped(p.0, p.1, p.2.x as int, v),
        ScrollOrientation::Horizontal => ScrollState::clamped(p.0, p.1, v, p.2.y as int),
    }
}

/// `p` moved by `delta` along `o`, saturating, then clamped.
pub open spec fn moved(p: Parts, o: ScrollOrientation, delta: int) -> Parts {
    let pos = part_pos(p, o);
    placed(p, o, if delta < 0 { sat_sub(pos, -delta) } else { sat_add16(pos, delta) })
}

/// The smaller of `a` and `b`.
pub open spec fn min2(a: int, b: int) -> int {
    if a <= b { a } else { b }
}

/// The larger of `a` and `b`.
pub open spec fn max2(a: int, b: int) -> int {
    if a >= b { a } else { b }
}

/// The space children reporting `sizes` take when stacked along the axis
/// (vertically when `vertical`), the first `k` of them, with `gap` cells
/// between two neighbours: the sum along the axis, the largest across it,
/// each sum saturating.
pub open spec fn stacked_extent(sizes: Seq<(u16, u16)>, vertical: bool, gap: int, k: nat) -> (int, int)
    decreases k,
{
    if k == 0 {
        (0, 0)
    } else {
        let (w, h) = stacked_extent(sizes, vertical, gap, (k - 1) as nat);
        let (cw, ch) = sizes[k - 1];
        let g = if k < sizes.len() { gap } else { 0 };
        if vertical {
            (max2(w, cw as int), sat_add16(sat_add16(h, ch as int), g))
        } else {
            (sat_add16(sat_add16(w, cw as int), g), max2(h, ch as int))
        }
    }
}

/// A scrollable box: a [`Container`] frame whose children scroll in its
/// content area.
pub struct ScrollBox {
    /// The frame and the children.
    pub root: Container,
    /// The scroll position and the sizes it is clamped by.
    pub state: ScrollState,
    /// The area auto-scrolling measures the pointer against.
    pub viewport_x: u16,
    pub viewport_y: u16,
    pub viewport_width: u16,
    pub viewport_height: u16,
    pub scroll_x_enabled: bool,
    pub scroll_y_enabled: bool,
    /// Whether the box keeps to its sticky edge.
    pub sticky_scroll: bool,
    pub sticky_start: Option<StickyEdge>,
    /// Whether the user scrolled away from the sticky edge.
    pub has_manual_scroll: bool,
    pub is_applying_sticky: bool,
    /// Whether a drag near an edge is scrolling the box.
    pub auto_scrolling: bool,
    pub auto_scroll_mouse_x: u16,
    pub auto_scroll_mouse_y: u16,
    /// How close to an edge (in cells) a drag starts auto-scrolling.
    pub auto_scroll_threshold: u16,
    pub viewport_culling: bool,
}

impl ScrollBox {
    /// Whether the box sits on its sticky edge when its state is `p`.
    pub open spec fn at_sticky(&self, p: Parts) -> bool {
        self.sticky_scroll && match self.sticky_start {
            None => false,
            Some(StickyEdge::Top) => part_pos(p, ScrollOrientation::Vertical) == 0,
            Some(StickyEdge::Bottom) => part_pos(p, ScrollOrientation::Vertical) >= part_max(p,
                ScrollOrientation::Vertical),
            Some(StickyEdge::Left) => part_pos(p, ScrollOrientation::Horizontal) == 0,
            Some(StickyEdge::Right) => part_pos(p, ScrollOrientation::Horizontal) >= part_max(p,
                ScrollOrientation::Horizontal),
        }
    }

    /// Whether the box counts as scrolled by hand after a move that left
    /// its state at `p`, having counted as `manual` before: once off the
    /// sticky edge with more than one row to scroll, it does.
    pub open spec fn noted(&self, manual: bool, p: Parts) -> bool {
        manual || (!self.is_applying_sticky && !self.at_sticky(p) && part_max(p, ScrollOrientation::Vertical) > 1)
    }

    /// The box with state `st` and manual flag `m`, all else as in `self`.
    pub open spec fn with_scroll(self, m: bool, st: ScrollState) -> ScrollBox {
        ScrollBox { state: st, has_manual_scroll: m, ..self }
    }

    /// Whether the box is as a new one is, scrolling aside: an empty,
    /// self-sizing frame, an empty scroll state, no sticky edge, no
    /// auto-scroll under way, a 3-cell auto-scroll threshold and culling on.
    pub open spec fn is_fresh(&self) -> bool {
        &&& self.root.props() == resized(Container::initial_props(), Seq::empty())
        &&& self.root.child_props() == Seq::<crate::widgets::container::ChildProps>::empty()
        &&& self.state.wf()
        &&& self.state.parts() == ScrollState::clamped(ScrollSize { width: 0, height: 0 },
            ScrollSize { width: 0, height: 0 }, 0, 0)
        &&& self.viewport_x == 0 && self.viewport_y == 0 && self.viewport_width == 0 && self.viewport_height == 0
        &&& !self.sticky_scroll && self.sticky_start is None && !self.has_manual_scroll && !self.is_applying_sticky
        &&& !self.auto_scrolling && self.auto_scroll_mouse_x == 0 && self.auto_scroll_mouse_y == 0
        &&& self.auto_scroll_threshold == 3
        &&& self.viewport_culling
    }

    /// A new box: scrolling vertically only (see [`ScrollBox::is_fresh`]).
    pub fn new() -> (r: Self)
        ensures
            r.is_fresh(),
            !r.scroll_x_enabled && r.scroll_y_enabled,
    {
        ScrollBox {
            root: Container::new(),
            state: ScrollState::new(ScrollSize::new(0, 0), ScrollSize::new(0, 0)),
            viewport_x: 0,
            viewport_y: 0,
            viewport_width: 0,
            viewport_height: 0,
            scroll_x_enabled: false,
            scroll_y_enabled: true,
            sticky_scroll: false,
            sticky_start: None,
            has_manual_scroll: false,
            is_applying_sticky: false,
            auto_scrolling: false,
            auto_scroll_mouse_x: 0,
            auto_scroll_mouse_y: 0,
            auto_scroll_threshold: 3,
            viewport_culling: true,
        }
    }

    /// The scroll state.
    pub fn state(&self) -> (r: ScrollState)
        ensures
            r == self.state,
    {
        self.state
    }

    /// Uses `state` as the scroll state.
    pub fn with_state(self, state: ScrollState) -> (r: Self)
        ensures
            r == (ScrollBox { state, ..self }),
    {
        ScrollBox { state, ..self }
    }

    /// Places and sizes the frame.
    pub fn with_position_and_size(self, x: u16, y: u16, width: u16, height: u16) -> (r: Self)
        ensures
            r.root.props() == (ContainerProps { x, y, width, height, auto_size: false, ..self.root.props() }),
            r.root.child_props() == self.root.child_props(),
            r.root.child_entries() == self.root.child_entries(),
            r == (ScrollBox { root: r.root, ..self }),
    {
        ScrollBox { root: self.root.with_position_and_size(x, y, width, height), ..self }
    }

    /// A box that scrolls vertically.
    pub fn vertical() -> (r: Self)
        ensures
            r.is_fresh(),
            r.scroll_y_enabled && !r.scroll_x_enabled,
    {
        Self::new().with_scroll_y(true)
    }

    /// A box that scrolls horizontally (and vertically, as every new box).
    pub fn horizontal() -> (r: Self)
        ensures
            r.is_fresh(),
            r.scroll_x_enabled && r.scroll_y_enabled,
    {
        Self::new().with_scroll_x(true)
    }

    /// A box that scrolls both ways.
    pub fn both() -> (r: Self)
        ensures
            r.is_fresh(),
            r.scroll_x_enabled && r.scroll_y_enabled,
    {
        Self::new().with_scroll_x(true).with_scroll_y(true)
    }

    /// Sets the stacking axis of the children.
    pub fn with_layout_direction(self, direction: LayoutDirection) -> (r: Self)
        ensures
            r.root.props() == resized(ContainerProps { layout_direction: direction, ..self.root.props() },
                self.root.child_props()),
            r.root.child_props() == self.root.child_props(),
            r.root.child_entries() == self.root.child_entries(),
            r == (ScrollBox { root: r.root, ..self }),
    {
        ScrollBox { root: self.root.with_layout_direction(direction), ..self }
    }

    /// Sets the padding.
    pub fn with_padding(self, padding: Padding) -> (r: Self)
        ensures
            r.root.props() == resized(ContainerProps { padding, ..self.root.props() }, self.root.child_props()),
            r.root.child_props() == self.root.child_props(),
            r.root.child_entries() == self.root.child_entries(),
            r == (ScrollBox { root: r.root, ..self }),
    {
        ScrollBox { root: self.root.with_padding(padding), ..self }
    }

    /// Sets the gap between children.
    pub fn with_gap(self, gap: Gap) -> (r: Self)
        ensures
            r.root.props() == resized(ContainerProps { gap: Some(gap), ..self.root.props() }, self.root.child_props()),
            r.root.child_props() == self.root.child_props(),
            r.root.child_entries() == self.root.child_entries(),
            r == (ScrollBox { root: r.root, ..self }),
    {
        ScrollBox { root: self.root.with_gap(gap), ..self }
    }

    /// Sets the gap between rows.
    pub fn with_row_gap(self, gap: Gap) -> (r: Self)
        ensures
            r.root.props() == resized(ContainerProps { row_gap: Some(gap), ..self.root.props() },
                self.root.child_props()),
            r.root.child_props() == self.root.child_props(),
            r.root.child_entries() == self.root.child_entries(),
            r == (ScrollBox { root: r.root, ..self }),
    {
        ScrollBox { root: self.root.with_row_gap(gap), ..self }
    }

    /// Sets the gap between columns.
    pub fn with_column_gap(self, gap: Gap) -> (r: Self)
        ensures
            r.root.props() == resized(ContainerProps { column_gap: Some(gap), ..self.root.props() },
                self.root.child_props()),
            r.root.child_props() == self.root.child_props(),
            r.root.child_entries() == self.root.child_entries(),
            r == (ScrollBox { root: r.root, ..self }),
    {
        ScrollBox { root: self.root.with_column_gap(gap), ..self }
    }

    /// Sets the content alignment.
    pub fn with_content_alignment(self, alignment: ContentAlignment) -> (r: Self)
        ensures
            r.root.props() == (ContainerProps { content_alignment: alignment, ..self.root.props() }),
            r.root.child_props() == self.root.child_props(),
            r.root.child_entries() == self.root.child_entries(),
            r == (ScrollBox { root: r.root, ..self }),
    {
        ScrollBox { root: self.root.with_content_alignment(alignment), ..self }
    }

    /// Draws a border on exactly the given sides.
    pub fn with_border_sides(self, sides: Vec<BorderSide>) -> (r: Self)
        ensures
            r.root.props() == resized(ContainerProps { border: BorderConfig { sides: BorderSides::from_seq(sides@),
                ..self.root.props().border }, ..self.root.props() }, self.root.child_props()),
            r.root.child_props() == self.root.child_props(),
            r.root.child_entries() == self.root.child_entries(),
            r == (ScrollBox { root: r.root, ..self }),
    {
        ScrollBox { root: self.root.with_border_sides(sides), ..self }
    }

    /// Draws a border on all four sides.
    pub fn with_border(self) -> (r: Self)
        ensures
            r.root.props() == resized(ContainerProps { border: BorderConfig {
                sides: BorderSides { top: true, right: true, bottom: true, left: true },
                ..self.root.props().border }, ..self.root.props() }, self.root.child_props()),
            r.root.child_props() == self.root.child_props(),
            r.root.child_entries() == self.root.child_entries(),
            r == (ScrollBox { root: r.root, ..self }),
    {
        ScrollBox { root: self.root.with_border(), ..self }
    }

    /// Removes the border.
    pub fn without_border(self) -> (r: Self)
        ensures
            r.root.props() == resized(ContainerProps { border: BorderConfig {
                sides: BorderSides { top: false, right: false, bottom: false, left: false },
                ..self.root.props().border }, ..self.root.props() }, self.root.child_props()),
            r.root.child_props() == self.root.child_props(),
            r.root.child_entries() == self.root.child_entries(),
            r == (ScrollBox { root: r.root, ..self }),
    {
        ScrollBox { root: self.root.without_border(), ..self }
    }

    /// Sets the border glyphs (turning a border on when there is none).
    pub fn with_border_chars(self, chars: BorderChars) -> (r: Self)
        ensures
            r.root.props() == resized(ContainerProps { border: Container::ensure_sides(BorderConfig { chars,
                ..self.root.props().border }), ..self.root.props() }, self.root.child_props()),
            r.root.child_props() == self.root.child_props(),
            r.root.child_entries() == self.root.child_entries(),
            r == (ScrollBox { root: r.root, ..self }),
    {
        ScrollBox { root: self.root.with_border_chars(chars), ..self }
    }

    /// Sets the border color (turning a border on when there is none).
    pub fn with_border_color(self, color: ColorPair) -> (r: Self)
        ensures
            r.root.props() == resized(ContainerProps { border: Container::ensure_sides(BorderConfig { color,
                ..self.root.props().border }), ..self.root.props() }, self.root.child_props()),
            r.root.child_props() == self.root.child_props(),
            r.root.child_entries() == self.root.child_entries(),
            r == (ScrollBox { root: r.root, ..self }),
    {
        ScrollBox { root: self.root.with_border_color(color), ..self }
    }

    /// Sets the border color used while focused (turning a border on when
    /// there is none).
    pub fn with_focused_border_color(self, color: ColorPair) -> (r: Self)
        ensures
            r.root.props() == resized(ContainerProps { border: Container::ensure_sides(BorderConfig {
                focused_color: Some(color), ..self.root.props().border }), ..self.root.props() },
                self.root.child_props()),
            r.root.child_props() == self.root.child_props(),
            r.root.child_entries() == self.root.child_entries(),
            r == (ScrollBox { root: r.root, ..self }),
    {
        ScrollBox { root: self.root.with_focused_border_color(color), ..self }
    }

    /// Sets the title shown in the top border.
    pub fn with_title(self, title: &str) -> (r: Self)
        ensures
            r.root.props() == resized(ContainerProps { title: Some(title@), border: BorderConfig {
                sides: BorderSides { top: true, ..self.root.props().border.sides }, ..self.root.props().border },
                ..self.root.props() }, self.root.child_props()),
            r.root.child_props() == self.root.child_props(),
            r.root.child_entries() == self.root.child_entries(),
            r == (ScrollBox { root: r.root, ..self }),
    {
        ScrollBox { root: self.root.with_title(title), ..self }
    }

    /// Sets where the title sits.
    pub fn with_title_alignment(self, alignment: TitleAlignment) -> (r: Self)
        ensures
            r.root.props() == (ContainerProps { title_alignment: alignment, ..self.root.props() }),
            r.root.child_props() == self.root.child_props(),
            r.root.child_entries() == self.root.child_entries(),
            r == (ScrollBox { root: r.root, ..self }),
    {
        ScrollBox { root: self.root.with_title_alignment(alignment), ..self }
    }

    /// Fills the frame's content area with `color`.
    pub fn with_background_color(self, color: ColorPair) -> (r: Self)
        ensures
            r.root.props() == (ContainerProps { background_color: Some(color), should_fill: true,
                ..self.root.props() }),
            r.root.child_props() == self.root.child_props(),
            r.root.child_entries() == self.root.child_entries(),
            r == (ScrollBox { root: r.root, ..self }),
    {
        ScrollBox { root: self.root.with_background_color(color), ..self }
    }

    /// Appends a child.
    pub fn add_child<T: crate::widgets::BoxedWidget>(self, child: T) -> (r: Self)
        ensures
            r.root.props() == resized(self.root.props(), r.root.child_props()),
            r.root.child_props() == self.root.child_props().push(ChildProps {
                width: add_child_specs(self.root.props().layout_direction).0,
                height: add_child_specs(self.root.props().layout_direction).1,
                constraints: ChildConstraints { width: AxisConstraints { min: 0, max: None },
                    height: AxisConstraints { min: 0, max: None } },
                intrinsic_width: child.size_spec().0, intrinsic_height: child.size_spec().1 }),
            r.root.child_entries() == self.root.child_entries().push(r.root.child_entries().last()),
            crate::widgets::container::child_is(&r.root, self.root.child_props().len() as int, &child),
            r == (ScrollBox { root: r.root, ..self }),
    {
        ScrollBox { root: self.root.add_child(child), ..self }
    }

    /// Turns vertical scrolling on or off.
    pub fn with_scroll_y(self, enabled: bool) -> (r: Self)
        ensures
            r == (ScrollBox { scroll_y_enabled: enabled, ..self }),
    {
        ScrollBox { scroll_y_enabled: enabled, ..self }
    }

    /// Turns horizontal scrolling on or off.
    pub fn with_scroll_x(self, enabled: bool) -> (r: Self)
        ensures
            r == (ScrollBox { scroll_x_enabled: enabled, ..self }),
    {
        ScrollBox { scroll_x_enabled: enabled, ..self }
    }

    /// Turns sticky scrolling on or off.
    pub fn with_sticky_scroll(self, enabled: bool) -> (r: Self)
        ensures
            r == (ScrollBox { sticky_scroll: enabled, ..self }),
    {
        ScrollBox { sticky_scroll: enabled, ..self }
    }

    /// Sets the edge to stick to.
    pub fn with_sticky_start(self, edge: StickyEdge) -> (r: Self)
        ensures
            r == (ScrollBox { sticky_start: Some(edge), ..self }),
    {
        ScrollBox { sticky_start: Some(edge), ..self }
    }

    /// Turns viewport culling on or off.
    pub fn with_viewport_culling(self, enabled: bool) -> (r: Self)
        ensures
            r == (ScrollBox { viewport_culling: enabled, ..self }),
    {
        ScrollBox { viewport_culling: enabled, ..self }
    }

    /// Sets how close to an edge a drag starts auto-scrolling.
    pub fn with_auto_scroll_threshold(self, threshold: u16) -> (r: Self)
        ensures
            r == (ScrollBox { auto_scroll_threshold: threshold, ..self }),
    {
        ScrollBox { auto_scroll_threshold: threshold, ..self }
    }

    /// The vertical scroll position.
    pub fn scroll_y(&self) -> (r: u16)
        ensures
            r == part_pos(self.state.parts(), ScrollOrientation::Vertical),
    {
        self.state.offset_for(ScrollOrientation::Vertical)
    }

    /// The horizontal scroll position.
    pub fn scroll_x(&self) -> (r: u16)
        ensures
            r == part_pos(self.state.parts(), ScrollOrientation::Horizontal),
    {
        self.state.offset_for(ScrollOrientation::Horizontal)
    }

    /// The largest horizontal scroll position.
    pub fn scrollable_width(&self) -> (r: u16)
        ensures
            r == part_max(self.state.parts(), ScrollOrientation::Horizontal),
    {
        self.state.max_offset_for(ScrollOrientation::Horizontal)
    }

    /// The largest vertical scroll position.
    pub fn scrollable_height(&self) -> (r: u16)
        ensures
            r == part_max(self.state.parts(), ScrollOrientation::Vertical),
    {
        self.state.max_offset_for(ScrollOrientation::Vertical)
    }

    /// Whether the box sits on its sticky edge.
    fn is_at_sticky_position(&self) -> (r: bool)
        ensures
            r == self.at_sticky(self.state.parts()),
    {
        if !self.sticky_scroll {
            return false;
        }
        match self.sticky_start {
            None => false,
            Some(StickyEdge::Top) => self.state.offset_for(ScrollOrientation::Vertical) == 0,
            Some(StickyEdge::Bottom) => self.state.offset_for(ScrollOrientation::Vertical)
                >= self.state.max_offset_for(ScrollOrientation::Vertical),
            Some(StickyEdge::Left) => self.state.offset_for(ScrollOrientation::Horizontal) == 0,
            Some(StickyEdge::Right) => self.state.offset_for(ScrollOrientation::Horizontal)
                >= self.state.max_offset_for(ScrollOrientation::Horizontal),
        }
    }

    /// Records a scroll by hand when it left the sticky edge.
    fn mark_manual_scroll(&mut self)
        ensures
            *final(self) == (ScrollBox { has_manual_scroll: old(self).noted(old(self).has_manual_scroll,
                old(self).state.parts()), ..*old(self) }),
    {
        if !self.is_applying_sticky {
            if !self.is_at_sticky_position() && self.state.max_offset_for(ScrollOrientation::Vertical) > 1 {
                self.has_manual_scroll = true;
            }
        }
    }

    /// Moves the state by `delta` along `o` and notes a scroll by hand.
    fn move_by(&mut self, o: ScrollOrientation, delta: i16)
        ensures
            final(self).state.wf(),
            final(self).state.parts() == moved(old(self).state.parts(), o, delta as int),
            *final(self) == old(self).with_scroll(old(self).noted(
                old(self).has_manual_scroll, final(self).state.parts()), final(self).state),
    {
        self.state.scroll_by(o, delta);
        self.mark_manual_scroll();
    }

    /// Moves the state to `v` along `o` and notes a scroll by hand.
    fn move_to(&mut self, o: ScrollOrientation, v: u16)
        ensures
            final(self).state.wf(),
            final(self).state.parts() == placed(old(self).state.parts(), o, v as int),
            *final(self) == old(self).with_scroll(old(self).noted(
                old(self).has_manual_scroll, final(self).state.parts()), final(self).state),
    {
        self.state.set_offset_for(o, v);
        self.mark_manual_scroll();
    }

    /// Scrolls vertically to `position` (clamped).
    pub fn set_scroll_y(&mut self, position: u16)
        ensures
            final(self).state.wf(),
            final(self).state.parts() == placed(old(self).state.parts(), ScrollOrientation::Vertical, position as int),
            *final(self) == old(self).with_scroll(old(self).noted(
                old(self).has_manual_scroll, final(self).state.parts()), final(self).state),
    {
        self.move_to(ScrollOrientation::Vertical, position);
    }

    /// Scrolls horizontally to `position` (clamped).
    pub fn set_scroll_x(&mut self, position: u16)
        ensures
            final(self).state.wf(),
            final(self).state.parts() == placed(old(self).state.parts(), ScrollOrientation::Horizontal,
                position as int),
            *final(self) == old(self).with_scroll(old(self).noted(
                old(self).has_manual_scroll, final(self).state.parts()), final(self).state),
    {
        self.move_to(ScrollOrientation::Horizontal, position);
    }

    /// Scrolls by `delta_x` columns and then `delta_y` rows, each only when
    /// non-zero and enabled on its axis.
    pub fn scroll_by(&mut self, delta_x: i16, delta_y: i16)
        ensures
            ({
                let p0 = old(self).state.parts();
                let mx = delta_x != 0 && old(self).scroll_x_enabled;
                let my = delta_y != 0 && old(self).scroll_y_enabled;
                let p1 = if mx { moved(p0, ScrollOrientation::Horizontal, delta_x as int) } else { p0 };
                let m1 = if mx { old(self).noted(old(self).has_manual_scroll, p1) } else { old(self).has_manual_scroll };
                let p2 = if my { moved(p1, ScrollOrientation::Vertical, delta_y as int) } else { p1 };
                let m2 = if my { old(self).noted(m1, p2) } else { m1 };
                &&& final(self).state.parts() == p2
                &&& *final(self) == old(self).with_scroll(m2, final(self).state)
            }),
            (delta_x != 0 && old(self).scroll_x_enabled) || (delta_y != 0 && old(self).scroll_y_enabled)
                ==> final(self).state.wf(),
    {
        if delta_x != 0 && self.scroll_x_enabled {
            self.move_by(ScrollOrientation::Horizontal, delta_x);
        }
        if delta_y != 0 && self.scroll_y_enabled {
            self.move_by(ScrollOrientation::Vertical, delta_y);
        }
    }

    /// Scrolls to column `x` and row `y` on the axes that scroll, then notes
    /// a scroll by hand.
    pub fn scroll_to(&mut self, x: u16, y: u16)
        ensures
            ({
                let p0 = old(self).state.parts();
                let p1 = if old(self).scroll_x_enabled { placed(p0, ScrollOrientation::Horizontal, x as int) } else { p0 };
                let p2 = if old(self).scroll_y_enabled { placed(p1, ScrollOrientation::Vertical, y as int) } else { p1 };
                &&& final(self).state.parts() == p2
                &&& *final(self) == old(self).with_scroll(old(self).noted(old(self).has_manual_scroll, p2),
                    final(self).state)
            }),
    {
        if self.scroll_x_enabled {
            self.state.set_offset_for(ScrollOrientation::Horizontal, x);
        }
        if self.scroll_y_enabled {
            self.state.set_offset_for(ScrollOrientation::Vertical, y);
        }
        self.mark_manual_scroll();
    }

    /// Scrolls to the top.
    pub fn scroll_to_top(&mut self)
        ensures
            final(self).state.parts() == placed(old(self).state.parts(), ScrollOrientation::Vertical, 0),
            *final(self) == old(self).with_scroll(old(self).noted(
                old(self).has_manual_scroll, final(self).state.parts()), final(self).state),
    {
        self.set_scroll_y(0);
    }

    /// Scrolls to the bottom.
    pub fn scroll_to_bottom(&mut self)
        ensures
            final(self).state.parts() == placed(old(self).state.parts(), ScrollOrientation::Vertical,
                part_max(old(self).state.parts(), ScrollOrientation::Vertical)),
            *final(self) == old(self).with_scroll(old(self).noted(
                old(self).has_manual_scroll, final(self).state.parts()), final(self).state),
    {
        let h = self.scrollable_height();
        self.set_scroll_y(h);
    }

    /// Scrolls to the left edge.
    pub fn scroll_to_left(&mut self)
        ensures
            final(self).state.parts() == placed(old(self).state.parts(), ScrollOrientation::Horizontal, 0),
            *final(self) == old(self).with_scroll(old(self).noted(
                old(self).has_manual_scroll, final(self).state.parts()), final(self).state),
    {
        self.set_scroll_x(0);
    }

    /// Scrolls to the right edge.
    pub fn scroll_to_right(&mut self)
        ensures
            final(self).state.parts() == placed(old(self).state.parts(), ScrollOrientation::Horizontal,
                part_max(old(self).state.parts(), ScrollOrientation::Horizontal)),
            *final(self) == old(self).with_scroll(old(self).noted(
                old(self).has_manual_scroll, final(self).state.parts()), final(self).state),
    {
        let w = self.scrollable_width();
        self.set_scroll_x(w);
    }
}

impl ScrollBox {
    /// The auto-scroll direction along `o` for a pointer at `m` on that
    /// axis: -1 within the threshold of the start of the viewport while
    /// there is room to scroll back, 1 past the threshold before its end
    /// while there is room to scroll on, 0 elsewhere and outside it.
    pub open spec fn auto_dir_spec(&self, o: ScrollOrientation, m: u16) -> int {
        let (vs, vl) = match o {
            ScrollOrientation::Vertical => (self.viewport_y as int, self.viewport_height as int),
            ScrollOrientation::Horizontal => (self.viewport_x as int, self.viewport_width as int),
        };
        let pos = part_pos(self.state.parts(), o);
        let max = part_max(self.state.parts(), o);
        if m < vs || m > vs + vl {
            0
        } else if m - vs < self.auto_scroll_threshold {
            if pos > 0 { -1 } else { 0 }
        } else if m - vs > sat_sub(vl, self.auto_scroll_threshold as int) {
            if pos < max { 1 } else { 0 }
        } else {
            0
        }
    }

    /// Whether the viewport's far edges are on the screen.
    pub open spec fn viewport_on_screen(&self) -> bool {
        self.viewport_x + self.viewport_width <= u16::MAX && self.viewport_y + self.viewport_height <= u16::MAX
    }

    fn auto_dir(&self, o: ScrollOrientation, m: u16) -> (r: i8)
        requires
            self.viewport_on_screen(),
        ensures
            r == self.auto_dir_spec(o, m),
    {
        let (vs, vl) = match o {
            ScrollOrientation::Vertical => (self.viewport_y, self.viewport_height),
            ScrollOrientation::Horizontal => (self.viewport_x, self.viewport_width),
        };
        if m < vs || m > vs + vl {
            return 0;
        }
        let rel = m - vs;
        let pos = self.state.offset_for(o);
        let max = self.state.max_offset_for(o);
        if rel < self.auto_scroll_threshold {
            return if pos > 0 { -1 } else { 0 };
        }
        if rel > vl.saturating_sub(self.auto_scroll_threshold) {
            return if pos < max { 1 } else { 0 };
        }
        0
    }

    /// The horizontal auto-scroll direction for a pointer in column
    /// `mouse_x` (see [`ScrollBox::auto_dir_spec`]).
    pub fn get_auto_scroll_direction_x(&self, mouse_x: u16) -> (r: i8)
        requires
            self.viewport_on_screen(),
        ensures
            r == self.auto_dir_spec(ScrollOrientation::Horizontal, mouse_x),
    {
        self.auto_dir(ScrollOrientation::Horizontal, mouse_x)
    }

    /// The vertical auto-scroll direction for a pointer in row `mouse_y`
    /// (see [`ScrollBox::auto_dir_spec`]).
    pub fn get_auto_scroll_direction_y(&self, mouse_y: u16) -> (r: i8)
        requires
            self.viewport_on_screen(),
        ensures
            r == self.auto_dir_spec(ScrollOrientation::Vertical, mouse_y),
    {
        self.auto_dir(ScrollOrientation::Vertical, mouse_y)
    }

    /// The auto-scroll speed, in cells per second, for a pointer at
    /// `(mouse_x, mouse_y)`: 72 within one cell of the nearest viewport
    /// edge, 36 within two, 6 farther in.
    pub open spec fn auto_speed_spec(&self, mouse_x: u16, mouse_y: u16) -> int {
        let rx: int = if mouse_x > self.viewport_x { mouse_x - self.viewport_x } else { 0 };
        let ry: int = if mouse_y > self.viewport_y { mouse_y - self.viewport_y } else { 0 };
        let d = min2(min2(rx, self.viewport_width - rx), min2(ry, self.viewport_height - ry));
        if d <= 1 { 72 } else if d <= 2 { 36 } else { 6 }
    }

    /// The auto-scroll speed, in cells per second, for a pointer at
    /// `(mouse_x, mouse_y)` (see [`ScrollBox::auto_speed_spec`]).
    pub fn get_auto_scroll_speed(&self, mouse_x: u16, mouse_y: u16) -> (r: u16)
        ensures
            r == self.auto_speed_spec(mouse_x, mouse_y),
    {
        let rx: i32 = if mouse_x > self.viewport_x { (mouse_x - self.viewport_x) as i32 } else { 0 };
        let ry: i32 = if mouse_y > self.viewport_y { (mouse_y - self.viewport_y) as i32 } else { 0 };
        let dl = rx;
        let dr = self.viewport_width as i32 - rx;
        let dt = ry;
        let db = self.viewport_height as i32 - ry;
        let a = if dl <= dr { dl } else { dr };
        let b = if dt <= db { dt } else { db };
        let d = if a <= b { a } else { b };
        if d <= 1 { 72 } else if d <= 2 { 36 } else { 6 }
    }

    /// Follows a drag to `(mouse_x, mouse_y)`: auto-scrolling is on while
    /// the pointer calls for a direction on either axis, off otherwise.
    pub fn handle_drag(&mut self, mouse_x: u16, mouse_y: u16)
        requires
            old(self).viewport_on_screen(),
        ensures
            *final(self) == (ScrollBox {
                auto_scroll_mouse_x: mouse_x,
                auto_scroll_mouse_y: mouse_y,
                auto_scrolling: old(self).auto_dir_spec(ScrollOrientation::Horizontal, mouse_x) != 0
                    || old(self).auto_dir_spec(ScrollOrientation::Vertical, mouse_y) != 0,
                ..*old(self)
            }),
    {
        self.auto_scroll_mouse_x = mouse_x;
        self.auto_scroll_mouse_y = mouse_y;
        let dx = self.get_auto_scroll_direction_x(mouse_x);
        let dy = self.get_auto_scroll_direction_y(mouse_y);
        if dx == 0 && dy == 0 {
            self.stop_auto_scroll();
        } else if !self.auto_scrolling {
            self.auto_scrolling = true;
        }
    }

    /// Stops auto-scrolling.
    pub fn stop_auto_scroll(&mut self)
        ensures
            *final(self) == (ScrollBox { auto_scrolling: false, ..*old(self) }),
    {
        self.auto_scrolling = false;
    }

    /// The size of the content, from the sizes the children report: stacked
    /// along the layout axis with the gap between neighbours, and never
    /// smaller than the `vw` x `vh` viewport; the viewport itself when there
    /// are no children.
    pub open spec fn content_size_spec(&self, vw: u16, vh: u16) -> (int, int) {
        let sizes = self.root.child_sizes();
        if sizes.len() == 0 {
            (vw as int, vh as int)
        } else {
            let (w, h) = stacked_extent(sizes, self.root.props().layout_direction == LayoutDirection::Vertical,
                autosize_gap_spec(self.root.props()) as int, sizes.len());
            (max2(w, vw as int), max2(h, vh as int))
        }
    }

    /// The state drawing scrolls by: the stored one, given the frame's
    /// content area as viewport and the content size, both clamping the
    /// position.
    pub open spec fn synced_parts(&self) -> Parts {
        let (cx, cy, cw, ch) = Container::content_area_spec(self.root.props());
        let v = ScrollSize { width: cw as u16, height: ch as u16 };
        let (w, h) = self.content_size_spec(cw as u16, ch as u16);
        let p = self.state.parts();
        let p1 = ScrollState::clamped(p.0, v, p.2.x as int, p.2.y as int);
        ScrollState::clamped(ScrollSize { width: w as u16, height: h as u16 }, v, p1.2.x as int, p1.2.y as int)
    }

    /// The view the children are drawn through: the frame's content area,
    /// scrolled by the synced position on the axes that scroll.
    pub open spec fn content_view_spec(&self) -> WindowView {
        let (cx, cy, cw, ch) = Container::content_area_spec(self.root.props());
        let p = self.synced_parts();
        WindowView {
            x_offset: cx as u16,
            y_offset: cy as u16,
            scroll_x: if self.scroll_x_enabled { p.2.x } else { 0 },
            scroll_y: if self.scroll_y_enabled { p.2.y } else { 0 },
            width: cw as u16,
            height: ch as u16,
        }
    }

    /// The content size (see [`ScrollBox::content_size_spec`]).
    fn inferred_content_size(&self, vw: u16, vh: u16) -> (r: ScrollSize)
        ensures
            (r.width as int, r.height as int) == self.content_size_spec(vw, vh),
    {
        let n = self.root.child_count();
        if n == 0 {
            return ScrollSize::new(vw, vh);
        }
        let gap = self.root.autosize_gap_pixels();
        let vertical = match self.root.layout_direction() {
            LayoutDirection::Vertical => true,
            LayoutDirection::Horizontal => false,
        };
        let ghost sizes = self.root.child_sizes();
        let mut w: u16 = 0;
        let mut h: u16 = 0;
        let mut i: usize = 0;
        while i < n
            invariant
                i <= n,
                n == sizes.len(),
                sizes == self.root.child_sizes(),
                gap == autosize_gap_spec(self.root.props()),
                vertical == (self.root.props().layout_direction == LayoutDirection::Vertical),
                (w as int, h as int) == stacked_extent(sizes, vertical, gap as int, i as nat),
            decreases n - i,
        {
            let (cw, ch) = self.root.child_size(i);
            let g: u16 = if i + 1 < n { gap } else { 0 };
            if vertical {
                w = if w >= cw { w } else { cw };
                h = h.saturating_add(ch).saturating_add(g);
            } else {
                w = w.saturating_add(cw).saturating_add(g);
                h = if h >= ch { h } else { ch };
            }
            i = i + 1;
        }
        let w = if w >= vw { w } else { vw };
        let h = if h >= vh { h } else { vh };
        ScrollSize::new(w, h)
    }

    /// The state as drawing uses it (see [`ScrollBox::synced_parts`]).
    fn synced_state(&self) -> (r: ScrollState)
        ensures
            r.wf(),
            r.parts() == self.synced_parts(),
    {
        let (_, _, cw, ch) = self.root.content_area();
        let viewport = ScrollSize::new(cw, ch);
        let content = self.inferred_content_size(cw, ch);
        let mut s = self.state;
        s.set_viewport_size(viewport);
        s.set_content_size(content);
        s
    }

    /// Stores in the state the viewport and content sizes that drawing
    /// scrolls by, clamping the position to them.
    pub fn sync_sizes(&mut self)
        ensures
            final(self).state.wf(),
            final(self).state.parts() == old(self).synced_parts(),
            *final(self) == (ScrollBox { state: final(self).state, ..*old(self) }),
    {
        self.state = self.synced_state();
    }
}

impl Widget for ScrollBox {
    open spec fn size_spec(&self) -> (u16, u16) {
        (self.root.props().width, self.root.props().height)
    }

    open spec fn position_spec(&self) -> (u16, u16) {
        (self.root.props().x, self.root.props().y)
    }

    /// The frame's writes come first; every later write lands through the
    /// content area and one of the children's cells. The result is left to the children.
    open spec fn draws(&self, views: Seq<crate::widgets::WindowView>, size: (u16, u16), before: Seq<crate::window::OpView>,
        after: Seq<crate::window::OpView>, r: Result<(), Error>) -> bool {
        &&& crate::window::apply_writes(before, views, size, Container::frame_writes(self.root.props())).is_prefix_of(after)
        &&& cells_drawn(after, crate::window::apply_writes(before, views, size, Container::frame_writes(self.root.props())).len()
            as int, views.push(self.content_view_spec()), size, layout_spec(self.root.props(), self.root.child_props()))
    }

    /// Draws the frame where it stands, then the children through the
    /// content area, scrolled by the synced position.
    fn draw(&self, window: &mut Canvas) -> (r: Result<(), Error>)
        ensures
            old(window).ops_after_each(Container::frame_writes(self.root.props())).is_prefix_of(final(window).ops_view()),
            cells_drawn(final(window).ops_view(), old(window).ops_after_each(Container::frame_writes(
                self.root.props())).len() as int, old(window).views_view().push(self.content_view_spec()),
                old(window).size_view(), layout_spec(self.root.props(), self.root.child_props())),
            self.root.children_drawn(layout_spec(self.root.props(), self.root.child_props()),
                old(window).views_view().push(self.content_view_spec()), old(window).size_view(),
                old(window).ops_after_each(Container::frame_writes(self.root.props())), final(window).ops_view(), r),
    {
        let ghost c0 = *window;
        let _ = self.root.draw_frame(window);
        let ghost c1 = *window;
        let s = self.synced_state();
        let offset = s.offset();
        let (cx, cy, cw, ch) = self.root.content_area();
        let view = WindowView {
            x_offset: cx,
            y_offset: cy,
            scroll_x: if self.scroll_x_enabled { offset.x } else { 0 },
            scroll_y: if self.scroll_y_enabled { offset.y } else { 0 },
            width: cw,
            height: ch,
        };
        assert(view == self.content_view_spec());
        window.push_view(view);
        let ghost pushed = *window;
        let r = self.root.draw_contents(window);
        let ghost drawn = *window;
        window.pop_view();
        proof {
            lemma_grows_through_view(&c1, &pushed, &drawn, view);
            assert(window.views_view() =~= c1.views_view());
            assert(window.size_view() == c1.size_view());
            assert(window.grows_from(&c1));
            crate::window::lemma_grows_trans(&c0, &c1, window);
        }
        r
    }

    fn get_size(&self) -> (r: (u16, u16)) {
        self.root.get_size()
    }

    fn get_position(&self) -> (r: (u16, u16)) {
        self.root.get_position()
    }
}

/// Going back to the sticky edge is not a scroll by hand: a box sticking to
/// its bottom (or top) that scrolls to its last (or first) row keeps its
/// manual flag as it was.
pub proof fn lemma_sticky_edge_not_manual(b: ScrollBox, p: Parts)
    requires
        b.sticky_scroll,
        b.sticky_start == Some(StickyEdge::Bottom) || b.sticky_start == Some(StickyEdge::Top),
    ensures
        b.sticky_start == Some(StickyEdge::Bottom) ==> b.noted(b.has_manual_scroll, placed(p,
            ScrollOrientation::Vertical, part_max(p, ScrollOrientation::Vertical))) == b.has_manual_scroll,
        b.sticky_start == Some(StickyEdge::Top) ==> b.noted(b.has_manual_scroll, placed(p,
            ScrollOrientation::Vertical, 0)) == b.has_manual_scroll,
{
}

/// Auto-scrolling only moves where there is room: it goes back only from
/// past the start and on only from before the end.
pub proof fn lemma_auto_dir_in_range(b: ScrollBox, o: ScrollOrientation, m: u16)
    ensures
        b.auto_dir_spec(o, m) == -1 ==> part_pos(b.state.parts(), o) > 0,
        b.auto_dir_spec(o, m) == 1 ==> part_pos(b.state.parts(), o) < part_max(b.state.parts(), o),
        -1 <= b.auto_dir_spec(o, m) <= 1,
{
}

impl crate::widgets::BoxedWidget for ScrollBox {
    fn into_boxed(self) -> (r: crate::widgets::DynWidget) {
        crate::widgets::DynWidget { widget: Box::new(self) }
    }
}

} // verus!
