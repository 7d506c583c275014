//! Small pieces of the scroll controls: arrow buttons and the options and
//! enumerations that scrollbars, sliders and scroll boxes are configured
//! with.

use vstd::prelude::*;
use crate::color::{Color, ColorPair};
use crate::error::Error;
use crate::window::{Canvas, Window};
use crate::widgets::scroll::ScrollOrientation;
use crate::widgets::Widget;

verus! {

/// The unit of a scroll step.
#[derive(Debug, Clone, Copy, PartialEq, Eq, Hash, Structural)]
pub enum ScrollUnit {
    /// Cells.
    Absolute,
    /// A fraction of the viewport size.
    Viewport,
    /// A fraction of the content size.
    Content,
    /// The configured step size (1 cell when none is set).
    Step,
}

/// The direction an arrow button points in.
#[derive(Debug, Clone, Copy, PartialEq, Eq, Hash, Structural)]
pub enum ArrowDirection {
    Up,
    Down,
    Left,
    Right,
}

/// The axis of a slider track.
#[derive(Debug, Clone, Copy, PartialEq, Eq, Hash, Structural)]
pub enum SliderOrientation {
    Vertical,
    Horizontal,
}

/// The edge a scroll box keeps in view as its content grows.
#[derive(Debug, Clone, Copy, PartialEq, Eq, Structural)]
pub enum StickyEdge {
    Top,
    Bottom,
    Left,
    Right,
}

/// A render-only arrow glyph, centered in its area.
#[derive(Debug, Clone, Copy, PartialEq, Eq, Structural)]
pub struct ArrowButton {
    pub width: u16,
    pub height: u16,
    pub dir: ArrowDirection,
    pub color: ColorPair,
}

/// The glyph of an arrow pointing in `dir`.
pub open spec fn arrow_glyph(dir: ArrowDirection) -> char {
    match dir {
        ArrowDirection::Up => '▲',
        ArrowDirection::Down => '▼',
        ArrowDirection::Left => '◀',
        ArrowDirection::Right => '▶',
    }
}

impl ArrowButton {
    /// A 1x1 white arrow pointing in `dir`.
    pub fn new(dir: ArrowDirection) -> (r: Self)
        ensures
            r == (ArrowButton { width: 1, height: 1, dir, color: ColorPair { fg: Color::White, bg: Color::Transparent } }),
    {
        ArrowButton { width: 1, height: 1, dir, color: ColorPair::new(Color::White, Color::Transparent) }
    }

    /// Sets the color.
    pub fn with_color(self, color: ColorPair) -> (r: Self)
        ensures
            r == (ArrowButton { color, ..self }),
    {
        ArrowButton { color, ..self }
    }

    /// Sets the color in place.
    pub fn set_color(&mut self, color: ColorPair)
        ensures
            *final(self) == (ArrowButton { color, ..*old(self) }),
    {
        self.color = color;
    }

    /// The arrow glyph.
    pub fn glyph(&self) -> (r: &'static str)
        ensures
            r@ == seq![arrow_glyph(self.dir)],
    {
        match self.dir {
            ArrowDirection::Up => {
                proof {
                    reveal_strlit("▲");
                }
                "▲"
            },
            ArrowDirection::Down => {
                proof {
                    reveal_strlit("▼");
                }
                "▼"
            },
            ArrowDirection::Left => {
                proof {
                    reveal_strlit("◀");
                }
                "◀"
            },
            ArrowDirection::Right => {
                proof {
                    reveal_strlit("▶");
                }
                "▶"
            },
        }
    }
}

impl Widget for ArrowButton {
    open spec fn size_spec(&self) -> (u16, u16) {
        (self.width, self.height)
    }

    open spec fn position_spec(&self) -> (u16, u16) {
        (0, 0)
    }

    open spec fn draws(&self, views: Seq<crate::widgets::WindowView>, size: (u16, u16), before: Seq<crate::window::OpView>,
        after: Seq<crate::window::OpView>, r: Result<(), Error>) -> bool {
        r is Ok && after == crate::window::write_after(before, views, size,
            (if self.height >= 1 { (self.height - 1) / 2 } else { 0 }),
            (if self.width >= 1 { (self.width - 1) / 2 } else { 0 }),
            seq![arrow_glyph(self.dir)], Some(self.color))
    }

    /// Writes the glyph at the center of the button's area (rounded up and
    /// left).
    fn draw(&self, window: &mut Canvas) -> (r: Result<(), Error>)
        ensures
            r is Ok,
            final(window).ops_view() == old(window).ops_after_write(
                (if self.height >= 1 { (self.height - 1) / 2 } else { 0 }),
                (if self.width >= 1 { (self.width - 1) / 2 } else { 0 }),
                seq![arrow_glyph(self.dir)], Some(self.color)),
            final(window).cursor_view() == old(window).cursor_view(),
    {
        let x = self.width.saturating_sub(1) / 2;
        let y = self.height.saturating_sub(1) / 2;
        let g = self.glyph();
        window.put(y, x, g, Some(self.color));
        Ok(())
    }

    fn get_size(&self) -> (r: (u16, u16)) {
        (self.width, self.height)
    }

    fn get_position(&self) -> (r: (u16, u16)) {
        (0, 0)
    }
}

/// How a scrollbar looks and steps.
#[derive(Debug, Clone, Copy, PartialEq, Eq, Structural)]
pub struct ScrollBarOptions {
    pub orientation: ScrollOrientation,
    pub show_arrows: bool,
    pub track_color: ColorPair,
    pub thumb_color: ColorPair,
    pub arrow_color: ColorPair,
    /// Cells per arrow click or step.
    pub scroll_step: Option<u16>,
}

impl Default for ScrollBarOptions {
    /// Vertical, no arrows, a dark gray track and a white thumb and arrows.
    fn default() -> (r: Self)
        ensures
            r == (ScrollBarOptions {
                orientation: ScrollOrientation::Vertical,
                show_arrows: false,
                track_color: ColorPair { fg: Color::DarkGray, bg: Color::Transparent },
                thumb_color: ColorPair { fg: Color::White, bg: Color::Transparent },
                arrow_color: ColorPair { fg: Color::White, bg: Color::Transparent },
                scroll_step: None,
            }),
    {
        ScrollBarOptions {
            orientation: ScrollOrientation::Vertical,
            show_arrows: false,
            track_color: ColorPair::new(Color::DarkGray, Color::Transparent),
            thumb_color: ColorPair::new(Color::White, Color::Transparent),
            arrow_color: ColorPair::new(Color::White, Color::Transparent),
            scroll_step: None,
        }
    }
}

impl crate::widgets::BoxedWidget for ArrowButton {
    fn into_boxed(self) -> (r: crate::widgets::DynWidget) {
        crate::widgets::DynWidget { widget: Box::new(self) }
    }
}

} // verus!
