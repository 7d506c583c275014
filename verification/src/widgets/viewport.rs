//! A scrollable window onto content larger than its visible area, with
//! optional scroll indicators on its edges.
//!
//! A viewport keeps its own scroll position, or is driven by a
//! [`ScrollState`] it holds: then sizes and offsets are read from and
//! written to that state, and its own position follows it.

use vstd::prelude::*;
use crate::color::{Color, ColorPair};
use crate::error::Error;
use crate::text::{repeat_char, repeat_string, char_string};
use crate::window::{Canvas, Window, DrawOp, ops_views, push_op, lands_under};
use crate::widgets::common::WindowView;
use crate::widgets::scroll::{ScrollState, ScrollSize, ScrollOffset, ScrollOrientation, sat_sub, sat_add16, min};
use crate::widgets::Widget;

verus! {

/// A viewport of `width` x `height` cells onto content of
/// `content_width` x `content_height` cells.
pub struct Viewport {
    pub width: u16,
    pub height: u16,
    pub content_width: u16,
    pub content_height: u16,
    pub scroll_x: u16,
    pub scroll_y: u16,
    /// The scroll state that drives the viewport, if any.
    pub scroll_state: Option<ScrollState>,
    pub show_indicators: bool,
    pub indicator_color: Option<ColorPair>,
}

/// A scroll position after a step of `delta`: back by `-delta` (stopping at
/// 0), or forward by `delta` (stopping at `u16::MAX`, then at `max`).
pub open spec fn step_scroll(pos: int, delta: int, max: int) -> int {
    if delta < 0 { sat_sub(pos, -delta) } else { min(sat_add16(pos, delta), max) }
}

impl Viewport {
    /// The scroll position, from the driving state when there is one.
    pub open spec fn position_spec(&self) -> (int, int) {
        match self.scroll_state {
            Some(s) => (s.offset_view().x as int, s.offset_view().y as int),
            None => (self.scroll_x as int, self.scroll_y as int),
        }
    }

    /// The largest horizontal scroll position.
    pub open spec fn max_x_spec(&self) -> int {
        match self.scroll_state {
            Some(s) => s.max_for(ScrollOrientation::Horizontal),
            None => sat_sub(self.content_width as int, self.width as int),
        }
    }

    /// The largest vertical scroll position.
    pub open spec fn max_y_spec(&self) -> int {
        match self.scroll_state {
            Some(s) => s.max_for(ScrollOrientation::Vertical),
            None => sat_sub(self.content_height as int, self.height as int),
        }
    }

    /// The viewport's own position follows the driving state.
    pub open spec fn synced(&self) -> bool {
        self.scroll_state matches Some(s) ==> (self.scroll_x == s.offset_view().x && self.scroll_y
            == s.offset_view().y)
    }

    /// Everything but the scroll position and the driving state is as in
    /// `other`.
    pub open spec fn same_frame(&self, other: &Viewport) -> bool {
        &&& self.width == other.width
        &&& self.height == other.height
        &&& self.content_width == other.content_width
        &&& self.content_height == other.content_height
        &&& self.show_indicators == other.show_indicators
        &&& self.indicator_color == other.indicator_color
    }

    /// A viewport of `width` x `height` cells onto content of the same size,
    /// at the origin, with no indicators (dark gray when shown).
    pub fn new(width: u16, height: u16) -> (r: Self)
        ensures
            r == (Viewport {
                width,
                height,
                content_width: width,
                content_height: height,
                scroll_x: 0,
                scroll_y: 0,
                scroll_state: None,
                show_indicators: false,
                indicator_color: Some(ColorPair { fg: Color::DarkGray, bg: Color::Transparent }),
            }),
    {
        Viewport {
            width,
            height,
            content_width: width,
            content_height: height,
            scroll_x: 0,
            scroll_y: 0,
            scroll_state: None,
            show_indicators: false,
            indicator_color: Some(ColorPair::new(Color::DarkGray, Color::Transparent)),
        }
    }

    /// Sets the content size (and that of the driving state, re-clamping
    /// its offset).
    pub fn with_content_size(self, width: u16, height: u16) -> (r: Self)
        ensures
            r.content_width == width,
            r.content_height == height,
            r.width == self.width,
            r.height == self.height,
            r.scroll_x == self.scroll_x,
            r.scroll_y == self.scroll_y,
            r.show_indicators == self.show_indicators,
            r.indicator_color == self.indicator_color,
            match self.scroll_state {
                None => r.scroll_state is None,
                Some(s) => r.scroll_state matches Some(t) && t.wf() && t.parts() == ScrollState::clamped(
                    ScrollSize { width, height }, s.viewport_view(), s.offset_view().x as int, s.offset_view().y as int),
            },
    {
        let mut this = self;
        this.content_width = width;
        this.content_height = height;
        match &mut this.scroll_state {
            Some(s) => s.set_content_size(ScrollSize::new(width, height)),
            None => {},
        }
        this
    }

    /// Shows or hides the scroll indicators.
    pub fn with_scroll_indicators(self, show: bool) -> (r: Self)
        ensures
            r == (Viewport { show_indicators: show, ..self }),
    {
        Viewport { show_indicators: show, ..self }
    }

    /// Lets `state` drive the viewport: the state takes the viewport size,
    /// then the content size (re-clamping its offset after each), and the
    /// viewport takes the state's offset. The viewport keeps its own copy of
    /// the state, not one shared with the caller: later scrolling shows in
    /// [`Viewport::scroll_state`], not in the value that was passed in.
    pub fn with_scroll_state(self, state: ScrollState) -> (r: Self)
        ensures
            r.same_frame(&self),
            r.scroll_state matches Some(t) && t.wf() && t.parts() == ({
                let v = ScrollSize { width: self.width, height: self.height };
                let first = ScrollState::clamped(state.content_view(), v, state.offset_view().x as int,
                    state.offset_view().y as int);
                ScrollState::clamped(ScrollSize { width: self.content_width, height: self.content_height }, v,
                    first.2.x as int, first.2.y as int)
            }),
            r.synced(),
    {
        let mut s = state;
        s.set_viewport_size(ScrollSize::new(self.width, self.height));
        s.set_content_size(ScrollSize::new(self.content_width, self.content_height));
        let o = s.offset();
        Viewport { scroll_x: o.x, scroll_y: o.y, scroll_state: Some(s), ..self }
    }

    /// The driving state, if any.
    pub fn scroll_state(&self) -> (r: Option<ScrollState>)
        ensures
            r == self.scroll_state,
    {
        self.scroll_state
    }

    /// Sets the indicator color.
    pub fn with_indicator_color(self, color: ColorPair) -> (r: Self)
        ensures
            r == (Viewport { indicator_color: Some(color), ..self }),
    {
        Viewport { indicator_color: Some(color), ..self }
    }

    /// Copies the driving state's offset into the viewport's own position.
    fn sync_from_state(&mut self)
        ensures
            final(self).synced(),
            final(self).scroll_state == old(self).scroll_state,
            final(self).same_frame(old(self)),
            old(self).scroll_state is None ==> *final(self) == *old(self),
    {
        match &self.scroll_state {
            Some(s) => {
                let o = s.offset();
                self.scroll_x = o.x;
                self.scroll_y = o.y;
            },
            None => {},
        }
    }

    /// Scrolls down by `delta` rows (up when negative), within range.
    pub fn scroll_vertical(&mut self, delta: i16)
        ensures
            final(self).same_frame(old(self)),
            final(self).synced(),
            match old(self).scroll_state {
                None => final(self).scroll_state is None && final(self).scroll_x == old(self).scroll_x
                    && final(self).scroll_y == step_scroll(old(self).scroll_y as int, delta as int, old(self).max_y_spec()),
                Some(s) => final(self).scroll_state matches Some(t) && t.wf() && t.parts() == ScrollState::clamped(
                    s.content_view(), s.viewport_view(), s.offset_view().x as int,
                    if delta < 0 { sat_sub(s.offset_view().y as int, -delta) }
                    else { sat_add16(s.offset_view().y as int, delta as int) }),
            },
    {
        if self.scroll_state.is_some() {
            match &mut self.scroll_state {
                Some(s) => s.scroll_by(ScrollOrientation::Vertical, delta),
                None => {},
            }
            self.sync_from_state();
            return;
        }
        let magnitude: u16 = if delta < 0 {
            if delta == i16::MIN { 0x8000u16 } else { (-delta) as u16 }
        } else {
            delta as u16
        };
        if delta < 0 {
            self.scroll_y = self.scroll_y.saturating_sub(magnitude);
        } else {
            let max_scroll = self.max_scroll_y();
            let v = self.scroll_y.saturating_add(magnitude);
            self.scroll_y = if v < max_scroll { v } else { max_scroll };
        }
    }

    /// Scrolls right by `delta` columns (left when negative), within range.
    pub fn scroll_horizontal(&mut self, delta: i16)
        ensures
            final(self).same_frame(old(self)),
            final(self).synced(),
            match old(self).scroll_state {
                None => final(self).scroll_state is None && final(self).scroll_y == old(self).scroll_y
                    && final(self).scroll_x == step_scroll(old(self).scroll_x as int, delta as int, old(self).max_x_spec()),
                Some(s) => final(self).scroll_state matches Some(t) && t.wf() && t.parts() == ScrollState::clamped(
                    s.content_view(), s.viewport_view(),
                    if delta < 0 { sat_sub(s.offset_view().x as int, -delta) }
                    else { sat_add16(s.offset_view().x as int, delta as int) }, s.offset_view().y as int),
            },
    {
        if self.scroll_state.is_some() {
            match &mut self.scroll_state {
                Some(s) => s.scroll_by(ScrollOrientation::Horizontal, delta),
                None => {},
            }
            self.sync_from_state();
            return;
        }
        let magnitude: u16 = if delta < 0 {
            if delta == i16::MIN { 0x8000u16 } else { (-delta) as u16 }
        } else {
            delta as u16
        };
        if delta < 0 {
            self.scroll_x = self.scroll_x.saturating_sub(magnitude);
        } else {
            let max_scroll = self.max_scroll_x();
            let v = self.scroll_x.saturating_add(magnitude);
            self.scroll_x = if v < max_scroll { v } else { max_scroll };
        }
    }

    /// Scrolls to `(x, y)`, clamped into range.
    pub fn scroll_to(&mut self, x: u16, y: u16)
        ensures
            final(self).same_frame(old(self)),
            final(self).synced(),
            match old(self).scroll_state {
                None => final(self).scroll_state is None
                    && final(self).scroll_x == min(x as int, old(self).max_x_spec())
                    && final(self).scroll_y == min(y as int, old(self).max_y_spec()),
                Some(s) => final(self).scroll_state matches Some(t) && t.wf() && t.parts() == ScrollState::clamped(
                    s.content_view(), s.viewport_view(), x as int, y as int),
            },
    {
        if self.scroll_state.is_some() {
            match &mut self.scroll_state {
                Some(s) => s.set_offset(ScrollOffset::new(x, y)),
                None => {},
            }
            self.sync_from_state();
            return;
        }
        let mx = self.max_scroll_x();
        let my = self.max_scroll_y();
        self.scroll_x = if x < mx { x } else { mx };
        self.scroll_y = if y < my { y } else { my };
    }

    /// Scrolls to the start (`to_end` false) or the end of `o`.
    fn scroll_edge(&mut self, o: ScrollOrientation, to_end: bool)
        ensures
            final(self).same_frame(old(self)),
            final(self).synced(),
            match old(self).scroll_state {
                None => final(self).scroll_state is None && (match o {
                    ScrollOrientation::Vertical => final(self).scroll_x == old(self).scroll_x
                        && final(self).scroll_y == (if to_end { old(self).max_y_spec() } else { 0 }),
                    ScrollOrientation::Horizontal => final(self).scroll_y == old(self).scroll_y
                        && final(self).scroll_x == (if to_end { old(self).max_x_spec() } else { 0 }),
                }),
                Some(s) => final(self).scroll_state matches Some(t) && t.wf() && t.parts() == (match o {
                    ScrollOrientation::Vertical => ScrollState::clamped(s.content_view(), s.viewport_view(),
                        s.offset_view().x as int, if to_end { s.max_for(o) } else { 0 }),
                    ScrollOrientation::Horizontal => ScrollState::clamped(s.content_view(), s.viewport_view(),
                        if to_end { s.max_for(o) } else { 0 }, s.offset_view().y as int),
                }),
            },
    {
        if self.scroll_state.is_some() {
            match &mut self.scroll_state {
                Some(s) => if to_end { s.scroll_to_end(o) } else { s.scroll_to_start(o) },
                None => {},
            }
            self.sync_from_state();
            return;
        }
        match o {
            ScrollOrientation::Vertical => {
                self.scroll_y = if to_end { self.max_scroll_y() } else { 0 };
            },
            ScrollOrientation::Horizontal => {
                self.scroll_x = if to_end { self.max_scroll_x() } else { 0 };
            },
        }
    }

    /// Scrolls to the top.
    pub fn scroll_to_top(&mut self)
        ensures
            final(self).same_frame(old(self)),
            final(self).synced(),
            match old(self).scroll_state {
                None => final(self).scroll_state is None && final(self).scroll_x == old(self).scroll_x
                    && final(self).scroll_y == 0,
                Some(s) => final(self).scroll_state matches Some(t) && t.wf() && t.parts() == ScrollState::clamped(
                    s.content_view(), s.viewport_view(), s.offset_view().x as int, 0),
            },
    {
        self.scroll_edge(ScrollOrientation::Vertical, false);
    }

    /// Scrolls to the bottom.
    pub fn scroll_to_bottom(&mut self)
        ensures
            final(self).same_frame(old(self)),
            final(self).synced(),
            match old(self).scroll_state {
                None => final(self).scroll_state is None && final(self).scroll_x == old(self).scroll_x
                    && final(self).scroll_y == old(self).max_y_spec(),
                Some(s) => final(self).scroll_state matches Some(t) && t.wf() && t.parts() == ScrollState::clamped(
                    s.content_view(), s.viewport_view(), s.offset_view().x as int,
                    s.max_for(ScrollOrientation::Vertical)),
            },
    {
        self.scroll_edge(ScrollOrientation::Vertical, true);
    }

    /// Scrolls to the left edge.
    pub fn scroll_to_left(&mut self)
        ensures
            final(self).same_frame(old(self)),
            final(self).synced(),
            match old(self).scroll_state {
                None => final(self).scroll_state is None && final(self).scroll_y == old(self).scroll_y
                    && final(self).scroll_x == 0,
                Some(s) => final(self).scroll_state matches Some(t) && t.wf() && t.parts() == ScrollState::clamped(
                    s.content_view(), s.viewport_view(), 0, s.offset_view().y as int),
            },
    {
        self.scroll_edge(ScrollOrientation::Horizontal, false);
    }

    /// Scrolls to the right edge.
    pub fn scroll_to_right(&mut self)
        ensures
            final(self).same_frame(old(self)),
            final(self).synced(),
            match old(self).scroll_state {
                None => final(self).scroll_state is None && final(self).scroll_y == old(self).scroll_y
                    && final(self).scroll_x == old(self).max_x_spec(),
                Some(s) => final(self).scroll_state matches Some(t) && t.wf() && t.parts() == ScrollState::clamped(
                    s.content_view(), s.viewport_view(), s.max_for(ScrollOrientation::Horizontal),
                    s.offset_view().y as int),
            },
    {
        self.scroll_edge(ScrollOrientation::Horizontal, true);
    }

    /// The scroll position as (x, y).
    pub fn scroll_position(&self) -> (r: (u16, u16))
        ensures
            (r.0 as int, r.1 as int) == self.position_spec(),
    {
        match &self.scroll_state {
            Some(s) => {
                let o = s.offset();
                (o.x, o.y)
            },
            None => (self.scroll_x, self.scroll_y),
        }
    }

    /// The largest horizontal scroll position.
    pub fn max_scroll_x(&self) -> (r: u16)
        ensures
            r == self.max_x_spec(),
    {
        match &self.scroll_state {
            Some(s) => s.max_offset_for(ScrollOrientation::Horizontal),
            None => self.content_width.saturating_sub(self.width),
        }
    }

    /// The largest vertical scroll position.
    pub fn max_scroll_y(&self) -> (r: u16)
        ensures
            r == self.max_y_spec(),
    {
        match &self.scroll_state {
            Some(s) => s.max_offset_for(ScrollOrientation::Vertical),
            None => self.content_height.saturating_sub(self.height),
        }
    }

    /// Whether the content is taller than the viewport.
    pub fn can_scroll_vertical(&self) -> (r: bool)
        ensures
            r == (self.max_y_spec() > 0),
    {
        match &self.scroll_state {
            Some(s) => s.can_scroll_vertical(),
            None => self.content_height > self.height,
        }
    }

    /// Whether the content is wider than the viewport.
    pub fn can_scroll_horizontal(&self) -> (r: bool)
        ensures
            r == (self.max_x_spec() > 0),
    {
        match &self.scroll_state {
            Some(s) => s.can_scroll_horizontal(),
            None => self.content_width > self.width,
        }
    }

    /// Whether there is content above the view.
    pub fn can_scroll_up(&self) -> (r: bool)
        ensures
            r == (self.position_spec().1 > 0),
    {
        match &self.scroll_state {
            Some(s) => s.offset_for(ScrollOrientation::Vertical) > 0,
            None => self.scroll_y > 0,
        }
    }

    /// Whether there is content below the view.
    pub fn can_scroll_down(&self) -> (r: bool)
        ensures
            r == (self.position_spec().1 < self.max_y_spec()),
    {
        match &self.scroll_state {
            Some(s) => s.offset_for(ScrollOrientation::Vertical) < s.max_offset_for(ScrollOrientation::Vertical),
            None => self.scroll_y < self.max_scroll_y(),
        }
    }

    /// Whether there is content left of the view.
    pub fn can_scroll_left(&self) -> (r: bool)
        ensures
            r == (self.position_spec().0 > 0),
    {
        match &self.scroll_state {
            Some(s) => s.offset_for(ScrollOrientation::Horizontal) > 0,
            None => self.scroll_x > 0,
        }
    }

    /// Whether there is content right of the view.
    pub fn can_scroll_right(&self) -> (r: bool)
        ensures
            r == (self.position_spec().0 < self.max_x_spec()),
    {
        match &self.scroll_state {
            Some(s) => s.offset_for(ScrollOrientation::Horizontal) < s.max_offset_for(ScrollOrientation::Horizontal),
            None => self.scroll_x < self.max_scroll_x(),
        }
    }

    /// The visible part of the content as (start_x, start_y, end_x, end_y),
    /// ends exclusive and capped at the content size.
    pub fn visible_range(&self) -> (r: (u16, u16, u16, u16))
        ensures
            match self.scroll_state {
                Some(s) => r.0 == s.offset_view().x && r.1 == s.offset_view().y
                    && r.2 == min(sat_add16(s.offset_view().x as int, s.viewport_view().width as int),
                        s.content_view().width as int)
                    && r.3 == min(sat_add16(s.offset_view().y as int, s.viewport_view().height as int),
                        s.content_view().height as int),
                None => r.0 == self.scroll_x && r.1 == self.scroll_y
                    && r.2 == min(sat_add16(self.scroll_x as int, self.width as int), self.content_width as int)
                    && r.3 == min(sat_add16(self.scroll_y as int, self.height as int), self.content_height as int),
            },
    {
        match &self.scroll_state {
            Some(s) => s.visible_range(),
            None => {
                let end_x = self.scroll_x.saturating_add(self.width);
                let end_y = self.scroll_y.saturating_add(self.height);
                (self.scroll_x, self.scroll_y, if end_x < self.content_width { end_x } else { self.content_width },
                    if end_y < self.content_height { end_y } else { self.content_height })
            },
        }
    }

    /// The viewport size as (width, height).
    pub fn viewport_size(&self) -> (r: (u16, u16))
        ensures
            r == (self.width, self.height),
    {
        (self.width, self.height)
    }

    /// The content size as (width, height).
    pub fn content_size(&self) -> (r: (u16, u16))
        ensures
            r == (self.content_width, self.content_height),
    {
        (self.content_width, self.content_height)
    }

    /// Resizes the viewport and brings the scroll position back into range.
    pub fn set_viewport_size(&mut self, width: u16, height: u16)
        ensures
            final(self).width == width,
            final(self).height == height,
            final(self).content_width == old(self).content_width,
            final(self).content_height == old(self).content_height,
            final(self).show_indicators == old(self).show_indicators,
            final(self).indicator_color == old(self).indicator_color,
            final(self).synced(),
            match old(self).scroll_state {
                None => final(self).scroll_state is None
                    && final(self).scroll_x == min(old(self).scroll_x as int, sat_sub(old(self).content_width as int, width as int))
                    && final(self).scroll_y == min(old(self).scroll_y as int, sat_sub(old(self).content_height as int, height as int)),
                Some(s) => final(self).scroll_state matches Some(t) && t.wf() && t.parts() == ScrollState::clamped(
                    s.content_view(), ScrollSize { width, height }, s.offset_view().x as int, s.offset_view().y as int),
            },
    {
        self.width = width;
        self.height = height;
        if self.scroll_state.is_some() {
            match &mut self.scroll_state {
                Some(s) => s.set_viewport_size(ScrollSize::new(width, height)),
                None => {},
            }
            self.sync_from_state();
            return;
        }
        let mx = self.max_scroll_x();
        let my = self.max_scroll_y();
        self.scroll_x = if self.scroll_x < mx { self.scroll_x } else { mx };
        self.scroll_y = if self.scroll_y < my { self.scroll_y } else { my };
    }

    /// Sets the content size and brings the scroll position back into range.
    pub fn set_content_size(&mut self, width: u16, height: u16)
        ensures
            final(self).content_width == width,
            final(self).content_height == height,
            final(self).width == old(self).width,
            final(self).height == old(self).height,
            final(self).show_indicators == old(self).show_indicators,
            final(self).indicator_color == old(self).indicator_color,
            final(self).synced(),
            match old(self).scroll_state {
                None => final(self).scroll_state is None
                    && final(self).scroll_x == min(old(self).scroll_x as int, sat_sub(width as int, old(self).width as int))
                    && final(self).scroll_y == min(old(self).scroll_y as int, sat_sub(height as int, old(self).height as int)),
                Some(s) => final(self).scroll_state matches Some(t) && t.wf() && t.parts() == ScrollState::clamped(
                    ScrollSize { width, height }, s.viewport_view(), s.offset_view().x as int, s.offset_view().y as int),
            },
    {
        self.content_width = width;
        self.content_height = height;
        if self.scroll_state.is_some() {
            match &mut self.scroll_state {
                Some(s) => s.set_content_size(ScrollSize::new(width, height)),
                None => {},
            }
            self.sync_from_state();
            return;
        }
        let mx = self.max_scroll_x();
        let my = self.max_scroll_y();
        self.scroll_x = if self.scroll_x < mx { self.scroll_x } else { mx };
        self.scroll_y = if self.scroll_y < my { self.scroll_y } else { my };
    }

    /// The view that shows the content at the scroll position, clipped to
    /// the viewport.
    pub open spec fn view_spec(&self) -> WindowView {
        WindowView {
            x_offset: 0,
            y_offset: 0,
            scroll_x: self.position_spec().0 as u16,
            scroll_y: self.position_spec().1 as u16,
            width: self.width,
            height: self.height,
        }
    }

    /// The view that shows the content at the scroll position.
    pub fn create_view(&self) -> (r: WindowView)
        ensures
            r == self.view_spec(),
    {
        let (sx, sy) = self.scroll_position();
        WindowView { x_offset: 0, y_offset: 0, scroll_x: sx, scroll_y: sy, width: self.width, height: self.height }
    }

    /// Draws `content` through the viewport's view and returns what drawing
    /// it returns.
    pub fn draw_content(&self, window: &mut Canvas, content: &dyn Widget) -> (r: Result<(), Error>)
        ensures
            final(window).grows_from(old(window)),
            final(window).draws_in_cells(old(window), seq![self.view_spec()]),
            content.draws(old(window).views_view().push(self.view_spec()), old(window).size_view(),
                old(window).ops_view(), final(window).ops_view(), r),
    {
        let view = self.create_view();
        let ghost before = *window;
        window.push_view(view);
        let ghost pushed = *window;
        let r = content.draw(window);
        let ghost drawn = *window;
        window.pop_view();
        proof {
            crate::window::lemma_grows_through_view(&before, &pushed, &drawn, view);
            assert(before.views_view().push(view).drop_last() =~= before.views_view());
            let cells = seq![self.view_spec()];
            assert(cells[0] == view);
            assert forall|i: int| before.ops_view().len() <= i < window.ops_view().len() implies exists|j: int|
                0 <= j < cells.len() && crate::window::lands_under(before.views_view().push(cells[j]),
                before.size_view(), #[trigger] window.ops_view()[i]) by {
                assert(cells[0] == view);
                assert(window.ops_view()[i] == drawn.ops_view()[i]);
                assert(lands_under(pushed.views_view(), pushed.size_view(), drawn.ops_view()[i]));
            }
        }
        r
    }

    /// The color the indicators are drawn in.
    pub open spec fn indicator_color_spec(&self) -> ColorPair {
        match self.indicator_color {
            Some(c) => c,
            None => ColorPair { fg: Color::DarkGray, bg: Color::Transparent },
        }
    }

    /// The indicators: a row of `▲` at the top while there is content above,
    /// a row of `▼` at the bottom while there is content below, `◀` down the
    /// left column while there is content to the left and `▶` down the right
    /// column while there is content to the right.
    pub open spec fn indicator_writes(&self) -> Seq<(int, int, Seq<char>, Option<ColorPair>)> {
        if !self.show_indicators {
            Seq::empty()
        } else {
            let c = Some(self.indicator_color_spec());
            let h = self.height as nat;
            (if self.position_spec().1 > 0 { seq![(0int, 0int, repeat_char('▲', self.width as nat), c)] } else { Seq::empty() })
            + (if self.position_spec().1 < self.max_y_spec() {
                seq![(sat_sub(self.height as int, 1), 0int, repeat_char('▼', self.width as nat), c)]
            } else {
                Seq::empty()
            })
            + (if self.position_spec().0 > 0 { Seq::new(h, |y: int| (y, 0int, seq!['◀'], c)) } else { Seq::empty() })
            + (if self.position_spec().0 < self.max_x_spec() {
                Seq::new(h, |y: int| (y, sat_sub(self.width as int, 1), seq!['▶'], c))
            } else {
                Seq::empty()
            })
        }
    }

    /// Appends a glyph down column `x` of every row to `out`.
    fn column_ops(&self, out: &mut Vec<DrawOp>, x: u16, g: char, c: Option<ColorPair>)
        ensures
            ops_views(final(out)@) == ops_views(old(out)@) + Seq::new(self.height as nat, |y: int| (y, x as int, seq![g], c)),
    {
        let ghost base = ops_views(out@);
        let ghost col = Seq::new(self.height as nat, |y: int| (y, x as int, seq![g], c));
        let mut y: u16 = 0;
        while y < self.height
            invariant
                y <= self.height,
                col == Seq::new(self.height as nat, |y: int| (y, x as int, seq![g], c)),
                ops_views(out@) == base + col.take(y as int),
            decreases self.height - y,
        {
            push_op(out, y, x, char_string(g), c);
            proof {
                assert(col.take(y + 1) =~= col.take(y as int).push(col[y as int]));
            }
            y = y + 1;
        }
        assert(col.take(self.height as int) =~= col);
    }

    /// The indicator writes.
    fn indicator_ops(&self) -> (r: Vec<DrawOp>)
        ensures
            ops_views(r@) == self.indicator_writes(),
    {
        let mut out: Vec<DrawOp> = Vec::new();
        assert(ops_views(out@) =~= Seq::<(int, int, Seq<char>, Option<ColorPair>)>::empty());
        if !self.show_indicators {
            return out;
        }
        let c = Some(match self.indicator_color {
            Some(c) => c,
            None => ColorPair::new(Color::DarkGray, Color::Transparent),
        });
        let ghost s0 = ops_views(out@);
        if self.can_scroll_up() {
            push_op(&mut out, 0, 0, repeat_string('▲', self.width as usize), c);
        }
        let ghost s1 = ops_views(out@);
        if self.can_scroll_down() {
            push_op(&mut out, self.height.saturating_sub(1), 0, repeat_string('▼', self.width as usize), c);
        }
        let ghost s2 = ops_views(out@);
        if self.can_scroll_left() {
            self.column_ops(&mut out, 0, '◀', c);
        }
        let ghost s3 = ops_views(out@);
        if self.can_scroll_right() {
            self.column_ops(&mut out, self.width.saturating_sub(1), '▶', c);
        }
        assert(ops_views(out@) =~= self.indicator_writes());
        out
    }

    /// A wheel step of `delta` notches: three rows per notch, up for a
    /// positive step; true when the vertical position changed.
    pub fn handle_scroll_event(&mut self, delta: i8) -> (r: bool)
        ensures
            final(self).same_frame(old(self)),
            final(self).synced(),
            match old(self).scroll_state {
                None => final(self).scroll_state is None && final(self).scroll_x == old(self).scroll_x
                    && final(self).scroll_y == step_scroll(old(self).scroll_y as int, delta * -3, old(self).max_y_spec()),
                Some(s) => final(self).scroll_state matches Some(t) && t.wf() && t.parts() == ScrollState::clamped(
                    s.content_view(), s.viewport_view(), s.offset_view().x as int,
                    if delta * -3 < 0 { sat_sub(s.offset_view().y as int, delta * 3) }
                    else { sat_add16(s.offset_view().y as int, delta * -3) }),
            },
            r == (final(self).scroll_y != old(self).scroll_y),
    {
        let old_y = self.scroll_y;
        let d: i16 = delta as i16;
        assert(-384 <= d * -3 <= 384);
        self.scroll_vertical(d * -3);
        old_y != self.scroll_y
    }

    /// A horizontal wheel step of `delta` notches: three columns per notch,
    /// left for a positive step; true when the horizontal position changed.
    pub fn handle_horizontal_scroll_event(&mut self, delta: i8) -> (r: bool)
        ensures
            final(self).same_frame(old(self)),
            final(self).synced(),
            match old(self).scroll_state {
                None => final(self).scroll_state is None && final(self).scroll_y == old(self).scroll_y
                    && final(self).scroll_x == step_scroll(old(self).scroll_x as int, delta * -3, old(self).max_x_spec()),
                Some(s) => final(self).scroll_state matches Some(t) && t.wf() && t.parts() == ScrollState::clamped(
                    s.content_view(), s.viewport_view(),
                    if delta * -3 < 0 { sat_sub(s.offset_view().x as int, delta * 3) }
                    else { sat_add16(s.offset_view().x as int, delta * -3) }, s.offset_view().y as int),
            },
            r == (final(self).scroll_x != old(self).scroll_x),
    {
        let old_x = self.scroll_x;
        let d: i16 = delta as i16;
        assert(-384 <= d * -3 <= 384);
        self.scroll_horizontal(d * -3);
        old_x != self.scroll_x
    }

    /// Shows the indicators.
    pub fn enable_indicators(&mut self)
        ensures
            *final(self) == (Viewport { show_indicators: true, ..*old(self) }),
    {
        self.show_indicators = true;
    }

    /// Hides the indicators.
    pub fn disable_indicators(&mut self)
        ensures
            *final(self) == (Viewport { show_indicators: false, ..*old(self) }),
    {
        self.show_indicators = false;
    }

    /// Sets the indicator color.
    pub fn set_indicator_color(&mut self, color: ColorPair)
        ensures
            *final(self) == (Viewport { indicator_color: Some(color), ..*old(self) }),
    {
        self.indicator_color = Some(color);
    }

    /// Resets the scroll position to the top-left corner, that of the
    /// driving state too when there is one.
    pub fn reset_scroll(&mut self)
        ensures
            final(self).same_frame(old(self)),
            final(self).scroll_x == 0,
            final(self).scroll_y == 0,
            final(self).position_spec() == (0int, 0int),
            match old(self).scroll_state {
                None => final(self).scroll_state is None,
                Some(s) => final(self).scroll_state matches Some(t) && t.wf() && t.parts() == ScrollState::clamped(
                    s.content_view(), s.viewport_view(), 0, 0),
            },
    {
        match &mut self.scroll_state {
            Some(s) => s.set_offset(ScrollOffset::new(0, 0)),
            None => {},
        }
        self.scroll_x = 0;
        self.scroll_y = 0;
    }
}

impl Widget for Viewport {
    open spec fn size_spec(&self) -> (u16, u16) {
        (self.width, self.height)
    }

    open spec fn position_spec(&self) -> (u16, u16) {
        (0, 0)
    }

    open spec fn draws(&self, views: Seq<crate::widgets::WindowView>, size: (u16, u16), before: Seq<crate::window::OpView>,
        after: Seq<crate::window::OpView>, r: Result<(), Error>) -> bool {
        r is Ok && after == crate::window::apply_writes(before, views, size, self.indicator_writes())
    }

    /// Draws only the scroll indicators: content is drawn through
    /// [`Viewport::draw_content`].
    fn draw(&self, window: &mut Canvas) -> (r: Result<(), Error>)
        ensures
            r is Ok,
            final(window).ops_view() == old(window).ops_after_each(self.indicator_writes()),
            final(window).cursor_view() == old(window).cursor_view(),
    {
        let ops = self.indicator_ops();
        window.emit(&ops);
        Ok(())
    }

    fn get_size(&self) -> (r: (u16, u16)) {
        (self.width, self.height)
    }

    fn get_position(&self) -> (r: (u16, u16)) {
        (0, 0)
    }
}


/// A viewport's own scroll step never takes a position in range out of it.
pub proof fn lemma_step_in_range(pos: int, delta: int, max: int)
    requires
        0 <= pos <= max,
    ensures
        0 <= step_scroll(pos, delta, max) <= max,
{
}

impl crate::widgets::BoxedWidget for Viewport {
    fn into_boxed(self) -> (r: crate::widgets::DynWidget) {
        crate::widgets::DynWidget { widget: Box::new(self) }
    }
}

} // verus!
