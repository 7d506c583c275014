//! Shared scroll state: content size, viewport size and a clamped offset.

use vstd::prelude::*;

verus! {

/// A scroll axis.
#[derive(Debug, Clone, Copy, PartialEq, Eq, Structural)]
pub enum ScrollOrientation {
    Vertical,
    Horizontal,
}

/// A size in cells.
#[derive(Debug, Clone, Copy, PartialEq, Eq, Structural)]
pub struct ScrollSize {
    pub width: u16,
    pub height: u16,
}

impl ScrollSize {
    /// A size of `width` x `height` cells.
    pub fn new(width: u16, height: u16) -> (r: Self)
        ensures
            r == (ScrollSize { width, height }),
    {
        ScrollSize { width, height }
    }
}

/// A scroll position in cells.
#[derive(Debug, Clone, Copy, PartialEq, Eq, Structural)]
pub struct ScrollOffset {
    pub x: u16,
    pub y: u16,
}

impl ScrollOffset {
    /// The position `(x, y)`.
    pub fn new(x: u16, y: u16) -> (r: Self)
        ensures
            r == (ScrollOffset { x, y }),
    {
        ScrollOffset { x, y }
    }
}

/// `a - b`, or 0 when `b > a`.
pub open spec fn sat_sub(a: int, b: int) -> int {
    if a > b { a - b } else { 0 }
}

/// `a + b`, or `u16::MAX` when the sum does not fit.
pub open spec fn sat_add16(a: int, b: int) -> int {
    if a + b > u16::MAX { u16::MAX as int } else { a + b }
}

/// The smaller of `a` and `b`.
pub open spec fn min(a: int, b: int) -> int {
    if a <= b { a } else { b }
}

/// The largest scroll position along an axis.
pub open spec fn max_offset_spec(content: ScrollSize, viewport: ScrollSize, o: ScrollOrientation) -> int {
    match o {
        ScrollOrientation::Vertical => sat_sub(content.height as int, viewport.height as int),
        ScrollOrientation::Horizontal => sat_sub(content.width as int, viewport.width as int),
    }
}

/// Scroll state shared by scrollable widgets. The offset never exceeds the
/// largest scroll position `content - viewport` along either axis; every
/// mutation re-clamps it.
#[derive(Debug, Clone, Copy, PartialEq, Eq, Structural)]
pub struct ScrollState {
    content: ScrollSize,
    viewport: ScrollSize,
    offset: ScrollOffset,
}

impl ScrollState {
    /// The content size.
    pub closed spec fn content_view(self) -> ScrollSize {
        self.content
    }

    /// The viewport size.
    pub closed spec fn viewport_view(self) -> ScrollSize {
        self.viewport
    }

    /// The scroll offset.
    pub closed spec fn offset_view(self) -> ScrollOffset {
        self.offset
    }

    /// The largest scroll position along `o`.
    pub open spec fn max_for(self, o: ScrollOrientation) -> int {
        max_offset_spec(self.content_view(), self.viewport_view(), o)
    }

    /// The scroll position along `o`.
    pub open spec fn offset_along(self, o: ScrollOrientation) -> int {
        match o {
            ScrollOrientation::Vertical => self.offset_view().y as int,
            ScrollOrientation::Horizontal => self.offset_view().x as int,
        }
    }

    /// The offset lies within the scrollable range on both axes.
    pub open spec fn wf(self) -> bool {
        &&& self.offset_view().x <= self.max_for(ScrollOrientation::Horizontal)
        &&& self.offset_view().y <= self.max_for(ScrollOrientation::Vertical)
    }

    /// A state with the given sizes, scrolled to `(x, y)` clamped into range.
    pub open spec fn clamped(content: ScrollSize, viewport: ScrollSize, x: int, y: int) -> (ScrollSize, ScrollSize, ScrollOffset) {
        (content, viewport, ScrollOffset {
            x: min(x, max_offset_spec(content, viewport, ScrollOrientation::Horizontal)) as u16,
            y: min(y, max_offset_spec(content, viewport, ScrollOrientation::Vertical)) as u16,
        })
    }

    /// The (content, viewport, offset) triple.
    pub open spec fn parts(self) -> (ScrollSize, ScrollSize, ScrollOffset) {
        (self.content_view(), self.viewport_view(), self.offset_view())
    }

    /// A state of the given sizes, scrolled to the start.
    pub fn new(content: ScrollSize, viewport: ScrollSize) -> (r: Self)
        ensures
            r.wf(),
            r.parts() == Self::clamped(content, viewport, 0, 0),
    {
        let mut this = ScrollState { content, viewport, offset: ScrollOffset::new(0, 0) };
        this.clamp();
        this
    }

    /// A state with no content and no viewport.
    pub fn default() -> (r: Self)
        ensures
            r.wf(),
            r.parts() == Self::clamped(ScrollSize { width: 0, height: 0 }, ScrollSize { width: 0, height: 0 }, 0, 0),
    {
        Self::new(ScrollSize::new(0, 0), ScrollSize::new(0, 0))
    }

    /// The content size.
    pub fn content_size(&self) -> (r: ScrollSize)
        ensures
            r == self.content_view(),
    {
        self.content
    }

    /// The viewport size.
    pub fn viewport_size(&self) -> (r: ScrollSize)
        ensures
            r == self.viewport_view(),
    {
        self.viewport
    }

    /// The scroll offset.
    pub fn offset(&self) -> (r: ScrollOffset)
        ensures
            r == self.offset_view(),
    {
        self.offset
    }

    /// The scroll position along `orientation`.
    pub fn offset_for(&self, orientation: ScrollOrientation) -> (r: u16)
        ensures
            r == self.offset_along(orientation),
    {
        match orientation {
            ScrollOrientation::Vertical => self.offset.y,
            ScrollOrientation::Horizontal => self.offset.x,
        }
    }

    /// Sets the content size and re-clamps the offset.
    pub fn set_content_size(&mut self, size: ScrollSize)
        ensures
            final(self).wf(),
            final(self).parts() == Self::clamped(size, old(self).viewport_view(),
                old(self).offset_view().x as int, old(self).offset_view().y as int),
    {
        self.content = size;
        self.clamp();
    }

    /// Sets the viewport size and re-clamps the offset.
    pub fn set_viewport_size(&mut self, size: ScrollSize)
        ensures
            final(self).wf(),
            final(self).parts() == Self::clamped(old(self).content_view(), size,
                old(self).offset_view().x as int, old(self).offset_view().y as int),
    {
        self.viewport = size;
        self.clamp();
    }

    /// Scrolls to `offset`, clamped into range.
    pub fn set_offset(&mut self, offset: ScrollOffset)
        ensures
            final(self).wf(),
            final(self).parts() == Self::clamped(old(self).content_view(), old(self).viewport_view(),
                offset.x as int, offset.y as int),
    {
        self.offset = offset;
        self.clamp();
    }

    /// Scrolls to `value` along `orientation` (clamped); the other axis is
    /// re-clamped too.
    pub fn set_offset_for(&mut self, orientation: ScrollOrientation, value: u16)
        ensures
            final(self).wf(),
            final(self).parts() == (match orientation {
                ScrollOrientation::Vertical => Self::clamped(old(self).content_view(), old(self).viewport_view(),
                    old(self).offset_view().x as int, value as int),
                ScrollOrientation::Horizontal => Self::clamped(old(self).content_view(), old(self).viewport_view(),
                    value as int, old(self).offset_view().y as int),
            }),
    {
        match orientation {
            ScrollOrientation::Vertical => self.offset.y = value,
            ScrollOrientation::Horizontal => self.offset.x = value,
        }
        self.clamp();
    }

    /// Scrolls by `delta` cells along `orientation`: the position moves with
    /// saturation at 0 and `u16::MAX`, then both axes are clamped.
    pub fn scroll_by(&mut self, orientation: ScrollOrientation, delta: i16)
        ensures
            final(self).wf(),
            final(self).parts() == (match orientation {
                ScrollOrientation::Vertical => Self::clamped(old(self).content_view(), old(self).viewport_view(),
                    old(self).offset_view().x as int,
                    if delta < 0 { sat_sub(old(self).offset_view().y as int, -delta) }
                    else { sat_add16(old(self).offset_view().y as int, delta as int) }),
                ScrollOrientation::Horizontal => Self::clamped(old(self).content_view(), old(self).viewport_view(),
                    if delta < 0 { sat_sub(old(self).offset_view().x as int, -delta) }
                    else { sat_add16(old(self).offset_view().x as int, delta as int) },
                    old(self).offset_view().y as int),
            }),
    {
        let magnitude: u16 = if delta < 0 {
            if delta == i16::MIN { 0x8000u16 } else { (-delta) as u16 }
        } else {
            delta as u16
        };
        match orientation {
            ScrollOrientation::Vertical => {
                if delta < 0 {
                    self.offset.y = self.offset.y.saturating_sub(magnitude);
                } else {
                    self.offset.y = self.offset.y.saturating_add(magnitude);
                }
            },
            ScrollOrientation::Horizontal => {
                if delta < 0 {
                    self.offset.x = self.offset.x.saturating_sub(magnitude);
                } else {
                    self.offset.x = self.offset.x.saturating_add(magnitude);
                }
            },
        }
        self.clamp();
    }

    /// Scrolls to `value` along `orientation` (clamped).
    pub fn scroll_to(&mut self, orientation: ScrollOrientation, value: u16)
        ensures
            final(self).wf(),
            final(self).parts() == (match orientation {
                ScrollOrientation::Vertical => Self::clamped(old(self).content_view(), old(self).viewport_view(),
                    old(self).offset_view().x as int, value as int),
                ScrollOrientation::Horizontal => Self::clamped(old(self).content_view(), old(self).viewport_view(),
                    value as int, old(self).offset_view().y as int),
            }),
    {
        self.set_offset_for(orientation, value);
    }

    /// Scrolls to the start along `orientation`.
    pub fn scroll_to_start(&mut self, orientation: ScrollOrientation)
        ensures
            final(self).wf(),
            final(self).parts() == (match orientation {
                ScrollOrientation::Vertical => Self::clamped(old(self).content_view(), old(self).viewport_view(),
                    old(self).offset_view().x as int, 0),
                ScrollOrientation::Horizontal => Self::clamped(old(self).content_view(), old(self).viewport_view(),
                    0, old(self).offset_view().y as int),
            }),
    {
        self.set_offset_for(orientation, 0);
    }

    /// Scrolls to the end along `orientation`.
    pub fn scroll_to_end(&mut self, orientation: ScrollOrientation)
        ensures
            final(self).wf(),
            final(self).parts() == (match orientation {
                ScrollOrientation::Vertical => Self::clamped(old(self).content_view(), old(self).viewport_view(),
                    old(self).offset_view().x as int, old(self).max_for(orientation)),
                ScrollOrientation::Horizontal => Self::clamped(old(self).content_view(), old(self).viewport_view(),
                    old(self).max_for(orientation), old(self).offset_view().y as int),
            }),
    {
        let max = self.max_offset_for(orientation);
        self.set_offset_for(orientation, max);
    }

    /// The largest scroll position on both axes.
    pub fn max_offset(&self) -> (r: ScrollOffset)
        ensures
            r.x == self.max_for(ScrollOrientation::Horizontal),
            r.y == self.max_for(ScrollOrientation::Vertical),
    {
        ScrollOffset::new(self.max_offset_x(), self.max_offset_y())
    }

    /// The largest scroll position along `orientation`.
    pub fn max_offset_for(&self, orientation: ScrollOrientation) -> (r: u16)
        ensures
            r == self.max_for(orientation),
    {
        match orientation {
            ScrollOrientation::Vertical => self.max_offset_y(),
            ScrollOrientation::Horizontal => self.max_offset_x(),
        }
    }

    /// `content.width - viewport.width`, or 0.
    pub fn max_offset_x(&self) -> (r: u16)
        ensures
            r == self.max_for(ScrollOrientation::Horizontal),
    {
        self.content.width.saturating_sub(self.viewport.width)
    }

    /// `content.height - viewport.height`, or 0.
    pub fn max_offset_y(&self) -> (r: u16)
        ensures
            r == self.max_for(ScrollOrientation::Vertical),
    {
        self.content.height.saturating_sub(self.viewport.height)
    }

    /// Whether there is anything to scroll along `orientation`.
    pub fn can_scroll(&self, orientation: ScrollOrientation) -> (r: bool)
        ensures
            r == (self.max_for(orientation) > 0),
    {
        self.max_offset_for(orientation) > 0
    }

    /// Whether the content is taller than the viewport.
    pub fn can_scroll_vertical(&self) -> (r: bool)
        ensures
            r == (self.max_for(ScrollOrientation::Vertical) > 0),
    {
        self.can_scroll(ScrollOrientation::Vertical)
    }

    /// Whether the content is wider than the viewport.
    pub fn can_scroll_horizontal(&self) -> (r: bool)
        ensures
            r == (self.max_for(ScrollOrientation::Horizontal) > 0),
    {
        self.can_scroll(ScrollOrientation::Horizontal)
    }

    /// Whether the position along `orientation` is 0.
    pub fn at_start(&self, orientation: ScrollOrientation) -> (r: bool)
        ensures
            r == (self.offset_along(orientation) == 0),
    {
        self.offset_for(orientation) == 0
    }

    /// Whether the position along `orientation` is the largest one.
    pub fn at_end(&self, orientation: ScrollOrientation) -> (r: bool)
        ensures
            r == (self.offset_along(orientation) >= self.max_for(orientation)),
    {
        self.offset_for(orientation) >= self.max_offset_for(orientation)
    }

    /// The visible part of the content as (start_x, start_y, end_x, end_y),
    /// ends exclusive and capped at the content size.
    pub fn visible_range(&self) -> (r: (u16, u16, u16, u16))
        ensures
            r.0 == self.offset_view().x,
            r.1 == self.offset_view().y,
            r.2 == min(sat_add16(self.offset_view().x as int, self.viewport_view().width as int),
                self.content_view().width as int),
            r.3 == min(sat_add16(self.offset_view().y as int, self.viewport_view().height as int),
                self.content_view().height as int),
    {
        let start_x = self.offset.x;
        let start_y = self.offset.y;
        let end_x = self.offset.x.saturating_add(self.viewport.width).min(self.content.width);
        let end_y = self.offset.y.saturating_add(self.viewport.height).min(self.content.height);
        (start_x, start_y, end_x, end_y)
    }

    /// Clamps the offset into the scrollable range.
    pub fn clamp(&mut self)
        ensures
            final(self).wf(),
            final(self).parts() == Self::clamped(old(self).content_view(), old(self).viewport_view(),
                old(self).offset_view().x as int, old(self).offset_view().y as int),
    {
        let max_x = self.max_offset_x();
        let max_y = self.max_offset_y();
        self.offset.x = self.offset.x.min(max_x);
        self.offset.y = self.offset.y.min(max_y);
    }
}

/// Clamping is idempotent: a clamped state is left as it is.
pub proof fn lemma_clamp_idempotent(s: ScrollState)
    requires
        s.wf(),
    ensures
        ScrollState::clamped(s.content_view(), s.viewport_view(), s.offset_view().x as int,
            s.offset_view().y as int) == s.parts(),
{
}

/// Scrolling to the end along an axis leaves the state at its end, and
/// scrolling to the start leaves it at its start.
pub proof fn lemma_scroll_ends(s: ScrollState, o: ScrollOrientation)
    requires
        s.wf(),
    ensures
        ({
            let (c, v, off) = match o {
                ScrollOrientation::Vertical => ScrollState::clamped(s.content_view(), s.viewport_view(),
                    s.offset_view().x as int, s.max_for(o)),
                ScrollOrientation::Horizontal => ScrollState::clamped(s.content_view(), s.viewport_view(),
                    s.max_for(o), s.offset_view().y as int),
            };
            match o {
                ScrollOrientation::Vertical => off.y == max_offset_spec(c, v, o),
                ScrollOrientation::Horizontal => off.x == max_offset_spec(c, v, o),
            }
        }),
        ({
            let (c, v, off) = match o {
                ScrollOrientation::Vertical => ScrollState::clamped(s.content_view(), s.viewport_view(),
                    s.offset_view().x as int, 0),
                ScrollOrientation::Horizontal => ScrollState::clamped(s.content_view(), s.viewport_view(), 0,
                    s.offset_view().y as int),
            };
            match o {
                ScrollOrientation::Vertical => off.y == 0,
                ScrollOrientation::Horizontal => off.x == 0,
            }
        }),
{
}

/// Scrolling by `d` and then by `-d` returns to the start position whenever
/// the first move stayed inside the scrollable range.
pub proof fn lemma_scroll_by_round_trip(s: ScrollState, d: i16)
    requires
        s.wf(),
        d > i16::MIN,
        0 <= s.offset_view().y + d <= s.max_for(ScrollOrientation::Vertical),
    ensures
        ({
            let moved = if d < 0 { sat_sub(s.offset_view().y as int, -d) } else { sat_add16(s.offset_view().y as int, d as int) };
            let (c1, v1, o1) = ScrollState::clamped(s.content_view(), s.viewport_view(), s.offset_view().x as int, moved);
            let back = if -d < 0 { sat_sub(o1.y as int, d as int) } else { sat_add16(o1.y as int, -d) };
            let (c2, v2, o2) = ScrollState::clamped(c1, v1, o1.x as int, back);
            o2 == s.offset_view()
        }),
{
}

} // verus!
