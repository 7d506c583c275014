//! The widget system: the [`Widget`] trait, shared geometry and the widgets.

pub mod border;
pub mod common;
pub mod container;
pub mod controls;
pub mod figlet;
pub mod helpers;
pub mod input;
pub mod panel;
pub mod text;
pub mod tooltip;
pub mod scroll;
pub mod scrollbar;
pub mod scrollbox;
pub mod spinner;
pub mod statusbar;
pub mod table;
pub mod viewport;

pub use border::Border;
pub use common::{BorderChars, FocusStyle, WindowView};
pub use text::{Alignment, Label, Text, TextBlock, TextWrapMode, VerticalAlignment};
pub use panel::{Panel, PanelContent, Scroller};
pub use table::{Table, TableColumn};
pub use viewport::Viewport;
pub use scrollbox::ScrollBox;
pub use spinner::Spinner;
pub use tooltip::{HoverTracker, Tooltip};
pub use figlet::FigletText;
pub use statusbar::{StatusBar, StatusBarPosition};
pub use controls::{ArrowButton, ArrowDirection, ScrollBarOptions, ScrollUnit, SliderOrientation, StickyEdge};
pub use scroll::{ScrollOffset, ScrollOrientation, ScrollSize, ScrollState};

use vstd::prelude::*;
use crate::error::Error;
use crate::window::{Canvas, OpView};

verus! {

/// Something that can be drawn onto a [`Canvas`].
pub trait Widget {
    /// The widget's size, as `get_size` reports it.
    spec fn size_spec(&self) -> (u16, u16);

    /// The widget's position, as `get_position` reports it.
    spec fn position_spec(&self) -> (u16, u16);

    /// What drawing does: with `views` active on a surface of `size`, the
    /// recorded writes go from `before` to `after` and the result is `r`.
    spec fn draws(&self, views: Seq<WindowView>, size: (u16, u16), before: Seq<OpView>, after: Seq<OpView>,
        r: Result<(), Error>) -> bool;

    /// Draws the widget. Drawing only adds writes: what was recorded before
    /// stays, the active views and surface size are unchanged, and every
    /// added write is where some write through the active views lands, so a
    /// widget drawn through a view stays inside it. What it writes and
    /// returns is as [`Widget::draws`] says.
    fn draw(&self, window: &mut Canvas) -> (r: Result<(), Error>)
        ensures
            final(window).grows_from(old(window)),
            self.draws(old(window).views_view(), old(window).size_view(), old(window).ops_view(),
                final(window).ops_view(), r),
    ;

    /// The widget's size as (width, height).
    fn get_size(&self) -> (r: (u16, u16))
        ensures
            r == self.size_spec(),
    ;

    /// The widget's position as (x, y).
    fn get_position(&self) -> (r: (u16, u16))
        ensures
            r == self.position_spec(),
    ;

    /// Fails when the widget is wider or taller than the window.
    fn validate(&self, window_width: u16, window_height: u16) -> (r: Result<(), Error>)
        ensures
            r is Ok <==> (self.size_spec().0 <= window_width && self.size_spec().1 <= window_height),
            r is Err ==> r == Err::<(), Error>(Error::WidgetValidationError {
                widget_width: self.size_spec().0,
                widget_height: self.size_spec().1,
                window_width,
                window_height,
            }),
    {
        let (width, height) = self.get_size();
        if width > window_width || height > window_height {
            return Err(Error::WidgetValidationError {
                widget_width: width,
                widget_height: height,
                window_width,
                window_height,
            });
        }
        Ok(())
    }

    /// Position and size as (x, y, width, height).
    fn get_bounds(&self) -> (r: (u16, u16, u16, u16))
        ensures
            r == (self.position_spec().0, self.position_spec().1, self.size_spec().0, self.size_spec().1),
    {
        let (x, y) = self.get_position();
        let (width, height) = self.get_size();
        (x, y, width, height)
    }

    /// Whether the widget is drawn at all.
    fn is_visible(&self) -> (r: bool)
        ensures
            r,
    {
        true
    }

    /// Whether `(x, y)` lies inside the widget's bounds.
    fn contains_point(&self, x: u16, y: u16) -> (r: bool)
        ensures
            r == (self.position_spec().0 <= x < self.position_spec().0 + self.size_spec().0
                && self.position_spec().1 <= y < self.position_spec().1 + self.size_spec().1),
    {
        let (pos_x, pos_y) = self.get_position();
        let (width, height) = self.get_size();
        x >= pos_x && (x as u32) < pos_x as u32 + width as u32 && y >= pos_y && (y as u32) < pos_y as u32
            + height as u32
    }

    /// The widget's bounds as a [`WidgetArea`].
    fn get_area(&self) -> (r: WidgetArea)
        ensures
            r == (WidgetArea {
                x: self.position_spec().0,
                y: self.position_spec().1,
                width: self.size_spec().0,
                height: self.size_spec().1,
            }),
    {
        let (x, y, width, height) = self.get_bounds();
        WidgetArea::new(x, y, width, height)
    }
}

/// Whether the bounds of the two widgets share a cell.
pub fn overlaps_with(a: &dyn Widget, other: &dyn Widget) -> (r: bool)
    ensures
        r == rects_overlap(
            (a.position_spec().0, a.position_spec().1, a.size_spec().0, a.size_spec().1),
            (other.position_spec().0, other.position_spec().1, other.size_spec().0, other.size_spec().1),
        ),
{
    let (x1, y1, w1, h1) = a.get_bounds();
    let (x2, y2, w2, h2) = other.get_bounds();
    !(x1 as u32 >= x2 as u32 + w2 as u32 || x2 as u32 >= x1 as u32 + w1 as u32 || y1 as u32 >= y2 as u32
        + h2 as u32 || y2 as u32 >= y1 as u32 + h1 as u32)
}

/// Whether two rectangles given as (x, y, width, height) share a cell.
pub open spec fn rects_overlap(a: (u16, u16, u16, u16), b: (u16, u16, u16, u16)) -> bool {
    !(a.0 >= b.0 + b.2 || b.0 >= a.0 + a.2 || a.1 >= b.1 + b.3 || b.1 >= a.1 + a.3)
}

/// A rectangle in terminal cells.
#[derive(Debug, Clone, Copy, PartialEq, Eq, Structural)]
pub struct WidgetArea {
    pub x: u16,
    pub y: u16,
    pub width: u16,
    pub height: u16,
}

impl WidgetArea {
    /// A rectangle at `(x, y)` of `width` x `height` cells.
    pub fn new(x: u16, y: u16, width: u16, height: u16) -> (r: Self)
        ensures
            r == (WidgetArea { x, y, width, height }),
    {
        WidgetArea { x, y, width, height }
    }

    /// The column just past the right edge.
    pub fn right(&self) -> (r: u16)
        requires
            self.x + self.width <= u16::MAX,
        ensures
            r == self.x + self.width,
    {
        self.x + self.width
    }

    /// The row just past the bottom edge.
    pub fn bottom(&self) -> (r: u16)
        requires
            self.y + self.height <= u16::MAX,
        ensures
            r == self.y + self.height,
    {
        self.y + self.height
    }

    /// Whether `(x, y)` lies inside the rectangle.
    pub fn contains_point(&self, x: u16, y: u16) -> (r: bool)
        requires
            self.x + self.width <= u16::MAX,
            self.y + self.height <= u16::MAX,
        ensures
            r == (self.x <= x < self.x + self.width && self.y <= y < self.y + self.height),
    {
        x >= self.x && x < self.right() && y >= self.y && y < self.bottom()
    }

    /// Whether the two rectangles share a cell.
    pub fn intersects(&self, other: &WidgetArea) -> (r: bool)
        requires
            self.x + self.width <= u16::MAX,
            self.y + self.height <= u16::MAX,
            other.x + other.width <= u16::MAX,
            other.y + other.height <= u16::MAX,
        ensures
            r == rects_overlap((self.x, self.y, self.width, self.height), (other.x, other.y, other.width, other.height)),
    {
        !(self.x >= other.right() || other.x >= self.right() || self.y >= other.bottom() || other.y
            >= self.bottom())
    }
}

/// A rectangle overlaps another exactly when the other overlaps it.
pub proof fn lemma_overlap_symmetric(a: (u16, u16, u16, u16), b: (u16, u16, u16, u16))
    ensures
        rects_overlap(a, b) == rects_overlap(b, a),
{
}

/// A rectangle overlaps itself exactly when it is not empty.
pub proof fn lemma_overlap_self(a: (u16, u16, u16, u16))
    ensures
        rects_overlap(a, a) <==> (a.2 > 0 && a.3 > 0),
{
}

/// A widget behind a trait object.
pub struct DynWidget {
    pub widget: Box<dyn Widget>,
}

/// A widget that can be stored behind a trait object.
pub trait BoxedWidget: Widget {
    /// The widget behind a trait object, reporting and drawing as `self`
    /// does.
    fn into_boxed(self) -> (r: DynWidget)
        where Self: Sized,
        ensures
            r.widget.size_spec() == self.size_spec(),
            r.widget.position_spec() == self.position_spec(),
            forall|v: Seq<WindowView>, s: (u16, u16), b: Seq<OpView>, a: Seq<OpView>, res: Result<(), Error>|
                #[trigger] r.widget.draws(v, s, b, a, res) == self.draws(v, s, b, a, res),
    ;
}

} // verus!
