//! Shared widget building blocks: border glyph sets, focus styles and the
//! clipped, scrollable view that child widgets draw through.

use vstd::prelude::*;
use crate::color::{Color, ColorPair};
use crate::text::{take_cells, clip_to_cells, TabPolicy};
use crate::window::CursorSpec;

verus! {

/// The glyphs used to draw a box.
#[derive(Debug, Clone, Copy, PartialEq, Eq, Structural)]
pub struct BorderChars {
    pub top_left: char,
    pub top_right: char,
    pub bottom_left: char,
    pub bottom_right: char,
    pub horizontal: char,
    pub vertical: char,
    pub intersect: char,
    pub intersect_left: char,
    pub intersect_right: char,
    pub intersect_top: char,
    pub intersect_bottom: char,
}

impl BorderChars {
    /// Thin single-line box drawing glyphs.
    pub fn single_line() -> (r: Self)
        ensures
            r == (BorderChars {
                top_left: '┌', top_right: '┐', bottom_left: '└', bottom_right: '┘',
                horizontal: '─', vertical: '│', intersect: '┼', intersect_left: '├',
                intersect_right: '┤', intersect_top: '┬', intersect_bottom: '┴',
            }),
    {
        BorderChars {
            top_left: '┌', top_right: '┐', bottom_left: '└', bottom_right: '┘',
            horizontal: '─', vertical: '│', intersect: '┼', intersect_left: '├',
            intersect_right: '┤', intersect_top: '┬', intersect_bottom: '┴',
        }
    }

    /// Double-line box drawing glyphs.
    pub fn double_line() -> (r: Self)
        ensures
            r == (BorderChars {
                top_left: '╔', top_right: '╗', bottom_left: '╚', bottom_right: '╝',
                horizontal: '═', vertical: '║', intersect: '╬', intersect_left: '╠',
                intersect_right: '╣', intersect_top: '╦', intersect_bottom: '╩',
            }),
    {
        BorderChars {
            top_left: '╔', top_right: '╗', bottom_left: '╚', bottom_right: '╝',
            horizontal: '═', vertical: '║', intersect: '╬', intersect_left: '╠',
            intersect_right: '╣', intersect_top: '╦', intersect_bottom: '╩',
        }
    }

    /// Plain ASCII glyphs.
    pub fn ascii() -> (r: Self)
        ensures
            r == (BorderChars {
                top_left: '+', top_right: '+', bottom_left: '+', bottom_right: '+',
                horizontal: '-', vertical: '|', intersect: '+', intersect_left: '+',
                intersect_right: '+', intersect_top: '+', intersect_bottom: '+',
            }),
    {
        BorderChars {
            top_left: '+', top_right: '+', bottom_left: '+', bottom_right: '+',
            horizontal: '-', vertical: '|', intersect: '+', intersect_left: '+',
            intersect_right: '+', intersect_top: '+', intersect_bottom: '+',
        }
    }

    /// Single-line glyphs with rounded corners.
    pub fn rounded() -> (r: Self)
        ensures
            r == (BorderChars {
                top_left: '╭', top_right: '╮', bottom_left: '╰', bottom_right: '╯',
                horizontal: '─', vertical: '│', intersect: '┼', intersect_left: '├',
                intersect_right: '┤', intersect_top: '┬', intersect_bottom: '┴',
            }),
    {
        BorderChars {
            top_left: '╭', top_right: '╮', bottom_left: '╰', bottom_right: '╯',
            horizontal: '─', vertical: '│', intersect: '┼', intersect_left: '├',
            intersect_right: '┤', intersect_top: '┬', intersect_bottom: '┴',
        }
    }
}

/// Optional overrides applied to a widget while it has focus.
#[derive(Debug, Clone, Copy, PartialEq, Eq, Structural)]
pub struct FocusStyle {
    pub border_chars: Option<BorderChars>,
    pub border_color: Option<Color>,
    pub text_color: Option<Color>,
    pub bg_color: Option<Color>,
}

impl FocusStyle {
    /// A style that overrides nothing.
    pub fn new() -> (r: Self)
        ensures
            r == (FocusStyle { border_chars: None, border_color: None, text_color: None, bg_color: None }),
    {
        FocusStyle { border_chars: None, border_color: None, text_color: None, bg_color: None }
    }

    /// Overrides the border glyphs.
    pub fn with_border_chars(self, chars: BorderChars) -> (r: Self)
        ensures
            r == (FocusStyle { border_chars: Some(chars), ..self }),
    {
        FocusStyle { border_chars: Some(chars), ..self }
    }

    /// Overrides the border color.
    pub fn with_border_color(self, color: Color) -> (r: Self)
        ensures
            r == (FocusStyle { border_color: Some(color), ..self }),
    {
        FocusStyle { border_color: Some(color), ..self }
    }

    /// Overrides the text color.
    pub fn with_text_color(self, color: Color) -> (r: Self)
        ensures
            r == (FocusStyle { text_color: Some(color), ..self }),
    {
        FocusStyle { text_color: Some(color), ..self }
    }

    /// Overrides the background color.
    pub fn with_bg_color(self, color: Color) -> (r: Self)
        ensures
            r == (FocusStyle { bg_color: Some(color), ..self }),
    {
        FocusStyle { bg_color: Some(color), ..self }
    }

    /// Double-line blue border with cyan text.
    pub fn focused() -> (r: Self)
        ensures
            r == (FocusStyle {
                border_chars: Some(BorderChars::double_line_spec()),
                border_color: Some(Color::Blue),
                text_color: Some(Color::Cyan),
                bg_color: None,
            }),
    {
        FocusStyle::new()
            .with_border_chars(BorderChars::double_line())
            .with_border_color(Color::Blue)
            .with_text_color(Color::Cyan)
    }

    /// Yellow text on a dark gray background.
    pub fn highlighted() -> (r: Self)
        ensures
            r == (FocusStyle {
                border_chars: None,
                border_color: None,
                text_color: Some(Color::Yellow),
                bg_color: Some(Color::DarkGray),
            }),
    {
        FocusStyle::new().with_text_color(Color::Yellow).with_bg_color(Color::DarkGray)
    }
}

impl BorderChars {
    /// The single-line glyph set.
    pub open spec fn single_line_spec() -> BorderChars {
        BorderChars {
            top_left: '┌', top_right: '┐', bottom_left: '└', bottom_right: '┘',
            horizontal: '─', vertical: '│', intersect: '┼', intersect_left: '├',
            intersect_right: '┤', intersect_top: '┬', intersect_bottom: '┴',
        }
    }

    /// The double-line glyph set.
    pub open spec fn double_line_spec() -> BorderChars {
        BorderChars {
            top_left: '╔', top_right: '╗', bottom_left: '╚', bottom_right: '╝',
            horizontal: '═', vertical: '║', intersect: '╬', intersect_left: '╠',
            intersect_right: '╣', intersect_top: '╦', intersect_bottom: '╩',
        }
    }
}

/// A rectangular, scrollable region of a parent surface.
///
/// A write at local `(y, x)` is shifted back by the scroll position; it is
/// dropped unless it then lies inside the view's `width` x `height`
/// (content before the scroll position is scrolled off), and otherwise
/// clipped to the cells left on its row and moved by the view's offset into
/// the parent.
#[derive(Debug, Clone, Copy, PartialEq, Eq, Structural)]
pub struct WindowView {
    pub x_offset: u16,
    pub y_offset: u16,
    pub scroll_x: u16,
    pub scroll_y: u16,
    pub width: u16,
    pub height: u16,
}

impl WindowView {
    /// Where a write of `s` at local `(y, x)` lands in the parent, and what is
    /// left of `s` after clipping; `None` when nothing of it is visible.
    pub open spec fn route_spec(self, y: int, x: int, s: Seq<char>) -> Option<(int, int, Seq<char>)> {
        if x < self.scroll_x || y < self.scroll_y || y - self.scroll_y >= self.height
            || x - self.scroll_x >= self.width {
            None
        } else {
            let lx = x - self.scroll_x;
            let ly = y - self.scroll_y;
            let py = ly + self.y_offset;
            let px = lx + self.x_offset;
            if py > u16::MAX || px > u16::MAX {
                None
            } else {
                Some((py, px, take_cells(s, self.width - lx)))
            }
        }
    }

    /// Routes a write of `s` at local `(y, x)` into the parent.
    pub fn route(&self, y: u16, x: u16, s: &str) -> (r: Option<(u16, u16, String)>)
        ensures
            match r {
                Some((py, px, t)) => self.route_spec(y as int, x as int, s@) == Some((py as int, px as int, t@)),
                None => self.route_spec(y as int, x as int, s@) is None,
            },
    {
        if x < self.scroll_x || y < self.scroll_y {
            return None;
        }
        let lx = x - self.scroll_x;
        let ly = y - self.scroll_y;
        if ly >= self.height || lx >= self.width {
            return None;
        }
        if ly as u32 + self.y_offset as u32 > 0xffff || lx as u32 + self.x_offset as u32 > 0xffff {
            return None;
        }
        let clipped = clip_to_cells(s, self.width - lx, TabPolicy::SingleCell);
        Some((ly + self.y_offset, lx + self.x_offset, clipped))
    }

    /// The parent position of a cursor placed at local `(cursor.y, cursor.x)`:
    /// scroll is subtracted and offset added, both saturating.
    pub open spec fn map_cursor_spec(self, cursor: CursorSpec) -> CursorSpec {
        let lx = if cursor.x >= self.scroll_x { cursor.x - self.scroll_x } else { 0 };
        let ly = if cursor.y >= self.scroll_y { cursor.y - self.scroll_y } else { 0 };
        let x = if self.x_offset + lx > u16::MAX { u16::MAX as int } else { self.x_offset + lx };
        let y = if self.y_offset + ly > u16::MAX { u16::MAX as int } else { self.y_offset + ly };
        CursorSpec { x: x as u16, y: y as u16, visible: cursor.visible }
    }

    /// Maps a cursor request into the parent's coordinates.
    pub fn map_cursor(&self, cursor: CursorSpec) -> (r: CursorSpec)
        ensures
            r == self.map_cursor_spec(cursor),
    {
        let x = self.x_offset.saturating_add(cursor.x.saturating_sub(self.scroll_x));
        let y = self.y_offset.saturating_add(cursor.y.saturating_sub(self.scroll_y));
        CursorSpec { x, y, visible: cursor.visible }
    }
}

/// Whether `(py, px, t)` lies inside the rectangle of `v` in its parent:
/// on one of its rows, from one of its columns, and not past its right edge.
pub open spec fn within_view(v: WindowView, py: int, px: int, t: Seq<char>) -> bool {
    &&& v.y_offset <= py < v.y_offset + v.height
    &&& v.x_offset <= px
    &&& px + t.len() <= v.x_offset + v.width
}

/// A view clips what is drawn through it: whatever survives lands inside the
/// view's rectangle in the parent, as a prefix of what was written.
pub proof fn lemma_view_clips(v: WindowView, y: int, x: int, s: Seq<char>)
    ensures
        v.route_spec(y, x, s) matches Some((py, px, t)) ==> within_view(v, py, px, t) && t.is_prefix_of(s),
{
    if let Some((py, px, t)) = v.route_spec(y, x, s) {
        let lx = x - v.scroll_x;
        assert(t == take_cells(s, v.width - lx));
        assert(t =~= s.subrange(0, t.len() as int));
    }
}

} // verus!
