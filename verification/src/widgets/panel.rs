//! A bordered panel with an optional header section and a body of plain
//! text or a [`TextBlock`], which can scroll vertically.
//!
//! ```text
//! ┌─────────────────┐
//! │   Header Text   │
//! ├─────────────────┤
//! │  Body content   │
//! │  goes here...   │
//! └─────────────────┘
//! ```

use vstd::prelude::*;
use crate::color::{Color, ColorPair};
use crate::error::Error;
use crate::text::{spec_byte_len, sat_byte_len, byte_prefix, byte_prefix_string, char_string, str_chars,
    to_owned_string, cell_width, TabPolicy};
use crate::textops::{lines_spec, max_bytes, split_lines, max_line_bytes, char_vec_views};
use crate::window::{Canvas, Window, DrawOp, op_view, ops_views, apply_writes, colored, push_op};
use crate::widgets::common::{BorderChars, WindowView};
use crate::widgets::container::sat16;
use crate::widgets::input::sat_sub;
use crate::widgets::text::{Alignment, TextBlock, align_offset, aligned_offset, block_writes, min_int,
    wrapped_lines_spec};
use crate::widgets::Widget;

verus! {

/// A vertical scroll position kept within `0..=max`, where `max` is given
/// by the owner on each call, with an optional inversion of the wheel.
///
/// A click or drag on the scrollbar column (or one column either side of
/// it) within the track jumps to the position the row stands for: the first
/// row is the top, the last row the bottom, rows between in proportion
/// (rounded down).
#[derive(Debug, Clone, Copy, PartialEq, Eq, Structural)]
pub struct Scroller {
    pub offset: u16,
    pub invert_vertical: bool,
}

/// `offset + delta` kept within `0..=max`.
pub open spec fn clamp_scroll(offset: int, delta: int, max: int) -> int {
    let v = offset + delta;
    if v < 0 { 0 } else if v > max { max } else { v }
}

/// The position a press at row `y` of a track of `track_h` rows starting at
/// row `track_y`, at column `x`, asks for on a scrollbar at column `bar_x`;
/// `None` when the press misses the track.
pub open spec fn track_target(x: int, y: int, bar_x: int, track_h: int, track_y: int, max: int) -> Option<int> {
    if track_h == 0 || x + 1 < bar_x || x > bar_x + 1 || y < track_y || y - track_y >= track_h {
        None
    } else if track_h == 1 {
        Some(0)
    } else {
        Some((y - track_y) * max / (track_h - 1))
    }
}

impl Scroller {
    /// At the top, not inverted.
    pub fn new() -> (r: Self)
        ensures
            r == (Scroller { offset: 0, invert_vertical: false }),
    {
        Scroller { offset: 0, invert_vertical: false }
    }

    /// The current position.
    pub fn offset(&self) -> (r: u16)
        ensures
            r == self.offset,
    {
        self.offset
    }

    /// Back to the top.
    pub fn scroll_to_top(&mut self)
        ensures
            *final(self) == (Scroller { offset: 0, ..*old(self) }),
    {
        self.offset = 0;
    }

    /// Moves by `delta` rows, staying within `0..=max`.
    pub fn scroll_by(&mut self, delta: i16, max: u16)
        ensures
            *final(self) == (Scroller { offset: clamp_scroll(old(self).offset as int, delta as int, max as int) as u16, ..*old(self) }),
    {
        let v: i32 = self.offset as i32 + delta as i32;
        self.offset = if v < 0 { 0 } else if v > max as i32 { max } else { v as u16 };
    }

    /// Moves to row `line`, or to `max` when that is past it.
    pub fn scroll_to(&mut self, line: u16, max: u16)
        ensures
            *final(self) == (Scroller { offset: if line > max { max } else { line }, ..*old(self) }),
    {
        self.offset = if line > max { max } else { line };
    }

    /// Moves to `max`.
    pub fn scroll_to_bottom(&mut self, max: u16)
        ensures
            *final(self) == (Scroller { offset: max, ..*old(self) }),
    {
        self.offset = max;
    }

    /// Whether the position is past the top.
    pub fn can_scroll_up(&self) -> (r: bool)
        ensures
            r == (self.offset > 0),
    {
        self.offset > 0
    }

    /// Whether the position is before `max`.
    pub fn can_scroll_down(&self, max: u16) -> (r: bool)
        ensures
            r == (self.offset < max),
    {
        self.offset < max
    }

    /// Inverts (or not) the direction of wheel events.
    pub fn set_invert_scroll_vertical(&mut self, invert: bool)
        ensures
            *final(self) == (Scroller { invert_vertical: invert, ..*old(self) }),
    {
        self.invert_vertical = invert;
    }

    /// Whether wheel events are inverted.
    pub fn is_scroll_vertical_inverted(&self) -> (r: bool)
        ensures
            r == self.invert_vertical,
    {
        self.invert_vertical
    }

    /// Moves by a wheel step of `delta` rows (negated when inverted) within
    /// `0..=max`; true when the position changed.
    pub fn handle_scroll_event(&mut self, delta: i8, max: u16) -> (r: bool)
        ensures
            final(self).invert_vertical == old(self).invert_vertical,
            final(self).offset == clamp_scroll(old(self).offset as int,
                if old(self).invert_vertical { -delta } else { delta as int }, max as int),
            r == (final(self).offset != old(self).offset),
    {
        let before = self.offset;
        let d: i16 = if self.invert_vertical { -(delta as i16) } else { delta as i16 };
        self.scroll_by(d, max);
        self.offset != before
    }

    /// Jumps to the position a press at `(x, y)` on a scrollbar at column
    /// `bar_x` with a track of `track_h` rows from row `track_y` asks for;
    /// true when the position changed.
    pub fn handle_scrollbar_event(&mut self, x: u16, y: u16, bar_x: u16, track_h: u16, track_y: u16, max: u16) -> (r: bool)
        ensures
            final(self).invert_vertical == old(self).invert_vertical,
            final(self).offset == (match track_target(x as int, y as int, bar_x as int, track_h as int, track_y as int, max as int) {
                Some(t) => t,
                None => old(self).offset as int,
            }),
            r == (final(self).offset != old(self).offset),
    {
        if track_h == 0 || (x as u32) + 1 < bar_x as u32 || (x as u32) > bar_x as u32 + 1 || y < track_y
            || y - track_y >= track_h {
            return false;
        }
        let before = self.offset;
        let target: u16 = if track_h == 1 {
            0
        } else {
            let row = (y - track_y) as u32;
            let span = (track_h - 1) as u32;
            proof {
                let ri = row as int;
                let si = span as int;
                let m = max as int;
                assert(ri * m <= si * m) by (nonlinear_arith)
                    requires
                        ri <= si,
                        m >= 0,
                ;
                assert(si * m <= 65535 * 65535) by (nonlinear_arith)
                    requires
                        0 <= si <= 65535,
                        0 <= m <= 65535,
                ;
                assert((si * m) / si == m) by (nonlinear_arith)
                    requires
                        si > 0,
                ;
                assert((ri * m) / si <= (si * m) / si) by (nonlinear_arith)
                    requires
                        ri * m <= si * m,
                        si > 0,
                ;
            }
            ((row * max as u32) / span) as u16
        };
        self.offset = target;
        self.offset != before
    }

    /// The same as a press: a drag on the track follows the pointer.
    pub fn handle_drag_event(&mut self, x: u16, y: u16, bar_x: u16, track_h: u16, track_y: u16, max: u16) -> (r: bool)
        ensures
            final(self).invert_vertical == old(self).invert_vertical,
            final(self).offset == (match track_target(x as int, y as int, bar_x as int, track_h as int, track_y as int, max as int) {
                Some(t) => t,
                None => old(self).offset as int,
            }),
            r == (final(self).offset != old(self).offset),
    {
        self.handle_scrollbar_event(x, y, bar_x, track_h, track_y, max)
    }
}

/// What a panel's body shows.
pub enum PanelContent {
    /// Plain text, one line per line of the text.
    Text(String),
    /// A text block, drawn in the body area.
    Block(Box<TextBlock>),
}

/// A bordered panel: an optional header section (centered text between a top
/// border and a separator) above a body of text or a [`TextBlock`], inside
/// `padding` cells of space. Auto-sizing panels take the size of their
/// content; scrollable ones scroll their body by lines.
pub struct Panel {
    pub width: u16,
    pub height: u16,
    pub header_text: String,
    pub body_content: PanelContent,
    pub header_style: BorderChars,
    pub body_style: BorderChars,
    pub header_color: Option<ColorPair>,
    pub body_color: Option<ColorPair>,
    pub header_border_color: Option<ColorPair>,
    pub body_border_color: Option<ColorPair>,
    pub padding: u16,
    /// Alignment of the body text; the header is always centered.
    pub alignment: Alignment,
    pub auto_size: bool,
    pub scroller: Scroller,
    pub scrollable: bool,
    pub show_scroll_indicators: bool,
}

/// The number of lines of a text body: none for an empty text.
pub open spec fn text_line_count(t: Seq<char>) -> int {
    if t.len() == 0 { 0 } else { lines_spec(t).len() as int }
}

/// Whether two panels agree on everything but their size, header text and
/// body.
pub open spec fn same_settings(a: &Panel, b: &Panel) -> bool {
    &&& a.header_style == b.header_style
    &&& a.body_style == b.body_style
    &&& a.header_color == b.header_color
    &&& a.body_color == b.body_color
    &&& a.header_border_color == b.header_border_color
    &&& a.body_border_color == b.body_border_color
    &&& a.padding == b.padding
    &&& a.alignment == b.alignment
    &&& a.auto_size == b.auto_size
    &&& a.scroller == b.scroller
    &&& a.scrollable == b.scrollable
    &&& a.show_scroll_indicators == b.show_scroll_indicators
}

impl Panel {
    /// Whether the panel has a header section.
    pub open spec fn has_header(&self) -> bool {
        self.header_text@.len() > 0
    }

    /// The number of body lines (truncated to `u16`).
    pub open spec fn content_lines_spec(&self) -> u16 {
        match self.body_content {
            PanelContent::Text(t) => text_line_count(t@) as u16,
            PanelContent::Block(b) => wrapped_lines_spec(b.text@, b.wrap_mode, b.width).len() as u16,
        }
    }

    /// The scroll position of the body.
    pub open spec fn scroll_offset_spec(&self) -> u16 {
        self.scroller.offset
    }

    /// Width and height of the body's text area, inside borders and padding
    /// (and below the header section when there is one).
    pub open spec fn inner_spec(&self) -> (int, int) {
        let frame = 2 + 2 * self.padding;
        let ih = sat_sub(self.height as int, frame);
        (sat_sub(self.width as int, frame), if self.has_header() { sat_sub(ih, 2) } else { ih })
    }

    /// The largest scroll position: lines beyond the body height.
    pub open spec fn max_scroll_spec(&self) -> int {
        sat_sub(self.content_lines_spec() as int, self.inner_spec().1)
    }

    /// Whether the body scrolls and has more lines than fit.
    pub open spec fn can_scroll_spec(&self) -> bool {
        self.scrollable && self.content_lines_spec() > self.inner_spec().1
    }

    /// The size that fits the content: the widest of the header and the
    /// body lines (in bytes) and their total height, plus padding and
    /// borders on each side, plus a row for the separator when there is a
    /// header and more than one content row (sums saturate at `u16::MAX`).
    pub open spec fn fitted_size(&self) -> (u16, u16) {
        let has_h = self.has_header();
        let hw: int = if has_h { sat_byte_len(self.header_text@) as u16 as int } else { 0 };
        let body: (int, int) = match self.body_content {
            PanelContent::Text(t) => if t@.len() > 0 {
                (max_bytes(lines_spec(t@)) as u16 as int, lines_spec(t@).len() as u16 as int)
            } else {
                (0, 0)
            },
            PanelContent::Block(b) => (b.width as int, b.height as int),
        };
        let cw = if hw > body.0 { hw } else { body.0 };
        let ch = sat16((if has_h { 1int } else { 0int }) + body.1);
        let w = sat16(cw + 2 * self.padding + 2);
        let h0 = sat16(ch + 2 * self.padding + 2);
        let h = if has_h && ch > 1 { sat16(h0 + 1) } else { h0 };
        (w as u16, h as u16)
    }

    /// The size after a content change: the fitted size when auto-sizing,
    /// else `before`.
    pub open spec fn resized_from(&self, before: (u16, u16)) -> bool {
        (self.width, self.height) == (if self.auto_size { self.fitted_size() } else { before })
    }

    /// A panel of `width` x `height` cells (auto-sizing when either is 0)
    /// with no header, an empty text body, single-line borders, padding 1,
    /// left-aligned body, not scrollable.
    pub fn new(width: u16, height: u16) -> (r: Self)
        ensures
            r.width == width,
            r.height == height,
            r.header_text@.len() == 0,
            r.body_content matches PanelContent::Text(t) && t@.len() == 0,
            r.header_style == BorderChars::single_line_spec(),
            r.body_style == BorderChars::single_line_spec(),
            (r.header_color is None),
            (r.body_color is None),
            (r.header_border_color is None),
            (r.body_border_color is None),
            r.padding == 1,
            r.alignment == Alignment::Left,
            r.auto_size == (width == 0 || height == 0),
            r.scroller == (Scroller { offset: 0, invert_vertical: false }),
            !r.scrollable,
            !r.show_scroll_indicators,
    {
        Panel {
            width,
            height,
            header_text: String::new(),
            body_content: PanelContent::Text(String::new()),
            header_style: BorderChars::single_line(),
            body_style: BorderChars::single_line(),
            header_color: None,
            body_color: None,
            header_border_color: None,
            body_border_color: None,
            padding: 1,
            alignment: Alignment::Left,
            auto_size: width == 0 || height == 0,
            scroller: Scroller::new(),
            scrollable: false,
            show_scroll_indicators: false,
        }
    }

    /// An empty panel that sizes itself to its content.
    pub fn auto_sized() -> (r: Self)
        ensures
            r.width == 0 && r.height == 0,
            r.auto_size,
            r.header_text@.len() == 0,
            r.body_content matches PanelContent::Text(t) && t@.len() == 0,
            r.default_look(),
            !r.scrollable,
            !r.show_scroll_indicators,
    {
        Panel::new(0, 0)
    }

    /// The look `new` gives: single-line borders, default colors, padding 1,
    /// left-aligned body, at the top of the scroll range, not inverted.
    pub open spec fn default_look(&self) -> bool {
        &&& self.header_style == BorderChars::single_line_spec()
        &&& self.body_style == BorderChars::single_line_spec()
        &&& self.header_color is None
        &&& self.body_color is None
        &&& self.header_border_color is None
        &&& self.body_border_color is None
        &&& self.padding == 1
        &&& self.alignment == Alignment::Left
        &&& self.scroller == Scroller { offset: 0, invert_vertical: false }
    }

    /// An auto-sizing panel with `header` over a text `body`.
    pub fn simple(header: &str, body: &str) -> (r: Self)
        ensures
            r.header_text@ == header@,
            r.body_content matches PanelContent::Text(t) && t@ == body@,
            r.default_look(),
            r.auto_size,
            !r.scrollable,
            !r.show_scroll_indicators,
            (r.width, r.height) == r.fitted_size(),
    {
        Panel::new(0, 0).with_header(header).with_body(body)
    }

    /// An auto-sizing panel with `header` over a text `body` that scrolls,
    /// with scroll indicators.
    pub fn with_scroll(header: &str, body: &str) -> (r: Self)
        ensures
            r.header_text@ == header@,
            r.body_content matches PanelContent::Text(t) && t@ == body@,
            r.default_look(),
            r.auto_size,
            r.scrollable,
            r.show_scroll_indicators,
            (r.width, r.height) == r.fitted_size(),
    {
        Panel::new(0, 0).with_header(header).with_body(body).with_scrollable(true).with_scroll_indicators(true)
    }

    /// Sets the size to the fitted size when auto-sizing.
    fn adjust_size(&mut self)
        ensures
            final(self).resized_from((old(self).width, old(self).height)),
            final(self).header_text == old(self).header_text,
            final(self).body_content == old(self).body_content,
            same_settings(final(self), old(self)),
    {
        if !self.auto_size {
            return;
        }
        let has_h = cell_width(self.header_text.as_str(), TabPolicy::SingleCell) > 0;
        let mut content_width: u16 = 0;
        let mut content_height: u16 = 0;
        if has_h {
            let cs = str_chars(self.header_text.as_str());
            proof {
                assert(cs@.take(cs@.len() as int) == cs@);
            }
            content_width = crate::text::byte_len_prefix(cs.as_slice(), cs.len()) as u16;
            content_height = 1;
        }
        match &self.body_content {
            PanelContent::Text(text) => {
                if cell_width(text.as_str(), TabPolicy::SingleCell) > 0 {
                    let cs = str_chars(text.as_str());
                    let lines = split_lines(cs.as_slice());
                    let max_line_width = max_line_bytes(&lines) as u16;
                    if max_line_width > content_width {
                        content_width = max_line_width;
                    }
                    content_height = content_height.saturating_add(lines.len() as u16);
                }
            },
            PanelContent::Block(block) => {
                let (bw, bh) = block.get_size();
                if bw > content_width {
                    content_width = bw;
                }
                content_height = content_height.saturating_add(bh);
            },
        }
        let frame: u32 = self.padding as u32 * 2 + 2;
        let w: u32 = content_width as u32 + frame;
        let h: u32 = content_height as u32 + frame;
        self.width = if w > 0xffff { 0xffff } else { w as u16 };
        self.height = if h > 0xffff { 0xffff } else { h as u16 };
        if has_h && content_height > 1 {
            self.height = self.height.saturating_add(1);
        }
    }

    /// Sets the header text (the size follows when auto-sizing).
    pub fn with_header(self, text: &str) -> (r: Self)
        ensures
            r.header_text@ == text@,
            r.body_content == self.body_content,
            same_settings(&r, &self),
            r.resized_from((self.width, self.height)),
    {
        let mut this = self;
        this.set_header(text);
        this
    }

    /// Sets a text body (the size follows when auto-sizing).
    pub fn with_body(self, text: &str) -> (r: Self)
        ensures
            r.header_text == self.header_text,
            r.body_content matches PanelContent::Text(t) && t@ == text@,
            same_settings(&r, &self),
            r.resized_from((self.width, self.height)),
    {
        let mut this = self;
        this.body_content = PanelContent::Text(to_owned_string(text));
        this.adjust_size();
        this
    }

    /// Sets a text block as the body (the size follows when auto-sizing).
    pub fn with_body_block(self, text_block: TextBlock) -> (r: Self)
        ensures
            r.header_text == self.header_text,
            r.body_content == PanelContent::Block(Box::new(text_block)),
            same_settings(&r, &self),
            r.resized_from((self.width, self.height)),
    {
        let mut this = self;
        this.body_content = PanelContent::Block(Box::new(text_block));
        this.adjust_size();
        this
    }

    /// Sets the glyphs of the header section.
    pub fn with_header_style(self, style: BorderChars) -> (r: Self)
        ensures
            r == (Panel { header_style: style, ..self }),
    {
        Panel { header_style: style, ..self }
    }

    /// Sets the glyphs of the body section.
    pub fn with_body_style(self, style: BorderChars) -> (r: Self)
        ensures
            r == (Panel { body_style: style, ..self }),
    {
        Panel { body_style: style, ..self }
    }

    /// Sets the header text colors.
    pub fn with_header_color(self, color: Option<ColorPair>) -> (r: Self)
        ensures
            r == (Panel { header_color: color, ..self }),
    {
        Panel { header_color: color, ..self }
    }

    /// Sets the body text colors.
    pub fn with_body_color(self, color: Option<ColorPair>) -> (r: Self)
        ensures
            r == (Panel { body_color: color, ..self }),
    {
        Panel { body_color: color, ..self }
    }

    /// Sets the header border color over a transparent background.
    pub fn with_header_border_color(self, color: Color) -> (r: Self)
        ensures
            r == (Panel { header_border_color: Some(ColorPair { fg: color, bg: Color::Transparent }), ..self }),
    {
        Panel { header_border_color: Some(ColorPair::new(color, Color::Transparent)), ..self }
    }

    /// Sets the body border color over a transparent background.
    pub fn with_body_border_color(self, color: Color) -> (r: Self)
        ensures
            r == (Panel { body_border_color: Some(ColorPair { fg: color, bg: Color::Transparent }), ..self }),
    {
        Panel { body_border_color: Some(ColorPair::new(color, Color::Transparent)), ..self }
    }

    /// Sets the padding (the size follows when auto-sizing).
    pub fn with_padding(self, padding: u16) -> (r: Self)
        ensures
            r.header_text == self.header_text,
            r.body_content == self.body_content,
            same_settings(&r, &Panel { padding, ..self }),
            r.resized_from((self.width, self.height)),
    {
        let mut this = self;
        this.padding = padding;
        this.adjust_size();
        this
    }

    /// Sets the alignment of the body text.
    pub fn with_alignment(self, alignment: Alignment) -> (r: Self)
        ensures
            r == (Panel { alignment, ..self }),
    {
        Panel { alignment, ..self }
    }

    /// Replaces the header text (the size follows when auto-sizing).
    pub fn set_header(&mut self, text: &str)
        ensures
            final(self).header_text@ == text@,
            final(self).body_content == old(self).body_content,
            same_settings(final(self), old(self)),
            final(self).resized_from((old(self).width, old(self).height)),
    {
        self.header_text = to_owned_string(text);
        self.adjust_size();
    }

    /// Replaces the body with text (the size follows when auto-sizing) and
    /// scrolls back to the top.
    pub fn set_body(&mut self, text: &str)
        ensures
            final(self).header_text == old(self).header_text,
            final(self).body_content matches PanelContent::Text(t) && t@ == text@,
            same_settings(final(self), &Panel { scroller: Scroller { offset: 0, ..old(self).scroller }, ..*old(self) }),
            final(self).resized_from((old(self).width, old(self).height)),
    {
        self.body_content = PanelContent::Text(to_owned_string(text));
        self.adjust_size();
        self.scroller.scroll_to_top();
    }

    /// Replaces the body with a text block (the size follows when
    /// auto-sizing) and scrolls back to the top.
    pub fn set_body_block(&mut self, text_block: TextBlock)
        ensures
            final(self).header_text == old(self).header_text,
            final(self).body_content == PanelContent::Block(Box::new(text_block)),
            same_settings(final(self), &Panel { scroller: Scroller { offset: 0, ..old(self).scroller }, ..*old(self) }),
            final(self).resized_from((old(self).width, old(self).height)),
    {
        self.body_content = PanelContent::Block(Box::new(text_block));
        self.adjust_size();
        self.scroller.scroll_to_top();
    }

    /// The body's text block, if the body is one.
    pub fn body_block(&self) -> (r: Option<&TextBlock>)
        ensures
            match self.body_content {
                PanelContent::Block(b) => r == Some(&*b),
                PanelContent::Text(_) => r is None,
            },
    {
        match &self.body_content {
            PanelContent::Block(block) => Some(&**block),
            PanelContent::Text(_) => None,
        }
    }

    /// The body's text block, to change in place, if the body is one.
    pub fn body_block_mut(&mut self) -> (r: Option<&mut TextBlock>)
        ensures
            (old(self).body_content is Text) ==> (r is None && *final(self) == *old(self)),
            (old(self).body_content is Block) ==> (r is Some && *r->0 == *old(self).body_content->Block_0
                && *final(self) == (Panel { body_content: PanelContent::Block(Box::new(*final(r->0))), ..*old(self) })),
    {
        match &mut self.body_content {
            PanelContent::Block(block) => Some(&mut **block),
            PanelContent::Text(_) => None,
        }
    }

    /// Makes the body scrollable or not.
    pub fn with_scrollable(self, scrollable: bool) -> (r: Self)
        ensures
            r == (Panel { scrollable, ..self }),
    {
        Panel { scrollable, ..self }
    }

    /// Shows or hides the scroll indicators.
    pub fn with_scroll_indicators(self, show: bool) -> (r: Self)
        ensures
            r == (Panel { show_scroll_indicators: show, ..self }),
    {
        Panel { show_scroll_indicators: show, ..self }
    }

    /// Natural (`true`) or inverted wheel direction.
    pub fn with_scroll_direction(self, natural: bool) -> (r: Self)
        ensures
            r == (Panel { scroller: Scroller { invert_vertical: !natural, ..self.scroller }, ..self }),
    {
        let mut this = self;
        this.scroller.set_invert_scroll_vertical(!natural);
        this
    }

    /// Inverts (or not) the wheel direction.
    pub fn set_invert_scroll(&mut self, invert: bool)
        ensures
            *final(self) == (Panel { scroller: Scroller { invert_vertical: invert, ..old(self).scroller }, ..*old(self) }),
    {
        self.scroller.set_invert_scroll_vertical(invert);
    }

    /// Whether the wheel direction is inverted.
    pub fn is_scroll_inverted(&self) -> (r: bool)
        ensures
            r == self.scroller.invert_vertical,
    {
        self.scroller.is_scroll_vertical_inverted()
    }

    /// The number of body lines (truncated to `u16`).
    fn get_content_line_count(&self) -> (r: u16)
        ensures
            r == self.content_lines_spec(),
    {
        match &self.body_content {
            PanelContent::Text(text) => {
                if cell_width(text.as_str(), TabPolicy::SingleCell) == 0 {
                    0
                } else {
                    let cs = str_chars(text.as_str());
                    let lines = split_lines(cs.as_slice());
                    proof {
                        assert(char_vec_views(lines@).len() == lines@.len());
                    }
                    lines.len() as u16
                }
            },
            PanelContent::Block(block) => block.line_count() as u16,
        }
    }

    /// Width and height of the body's text area.
    fn get_inner_dimensions(&self) -> (r: (u16, u16))
        ensures
            r.0 == self.inner_spec().0,
            r.1 == self.inner_spec().1,
    {
        let frame: u32 = 2 + self.padding as u32 * 2;
        let w: u32 = self.width as u32;
        let h: u32 = self.height as u32;
        let inner_width: u16 = if w >= frame { (w - frame) as u16 } else { 0 };
        let mut inner_height: u16 = if h >= frame { (h - frame) as u16 } else { 0 };
        if cell_width(self.header_text.as_str(), TabPolicy::SingleCell) > 0 {
            inner_height = inner_height.saturating_sub(2);
        }
        (inner_width, inner_height)
    }

    /// The largest scroll position.
    pub fn max_scroll_offset(&self) -> (r: u16)
        ensures
            r == self.max_scroll_spec(),
    {
        let (_, inner_height) = self.get_inner_dimensions();
        self.get_content_line_count().saturating_sub(inner_height)
    }

    /// Whether the body scrolls and has more lines than fit.
    pub fn can_scroll(&self) -> (r: bool)
        ensures
            r == self.can_scroll_spec(),
    {
        if !self.scrollable {
            return false;
        }
        let (_, inner_height) = self.get_inner_dimensions();
        self.get_content_line_count() > inner_height
    }

    /// Whether the body scrolls and is scrolled down.
    pub fn can_scroll_up(&self) -> (r: bool)
        ensures
            r == (self.scrollable && self.scroller.offset > 0),
    {
        self.scrollable && self.scroller.can_scroll_up()
    }

    /// Whether the body scrolls and is above its last position.
    pub fn can_scroll_down(&self) -> (r: bool)
        ensures
            r == (self.scrollable && self.scroller.offset < self.max_scroll_spec()),
    {
        self.scrollable && self.scroller.can_scroll_down(self.max_scroll_offset())
    }

    /// Scrolls by `delta` lines within the scroll range (no effect when not
    /// scrollable).
    pub fn scroll_by(&mut self, delta: i16)
        ensures
            *final(self) == (if old(self).scrollable {
                Panel { scroller: Scroller {
                    offset: clamp_scroll(old(self).scroller.offset as int, delta as int, old(self).max_scroll_spec()) as u16,
                    ..old(self).scroller }, ..*old(self) }
            } else {
                *old(self)
            }),
    {
        if !self.scrollable {
            return;
        }
        let max_offset = self.max_scroll_offset();
        self.scroller.scroll_by(delta, max_offset);
    }

    /// Scrolls to `line`, or to the last position when that is past it (no
    /// effect when not scrollable).
    pub fn scroll_to(&mut self, line: u16)
        ensures
            *final(self) == (if old(self).scrollable {
                Panel { scroller: Scroller {
                    offset: if line > old(self).max_scroll_spec() { old(self).max_scroll_spec() as u16 } else { line },
                    ..old(self).scroller }, ..*old(self) }
            } else {
                *old(self)
            }),
    {
        if !self.scrollable {
            return;
        }
        let max_offset = self.max_scroll_offset();
        self.scroller.scroll_to(line, max_offset);
    }

    /// Scrolls back to the top.
    pub fn scroll_to_top(&mut self)
        ensures
            *final(self) == (Panel { scroller: Scroller { offset: 0, ..old(self).scroller }, ..*old(self) }),
    {
        self.scroller.scroll_to_top();
    }

    /// Scrolls to the last position (no effect when not scrollable).
    pub fn scroll_to_bottom(&mut self)
        ensures
            *final(self) == (if old(self).scrollable {
                Panel { scroller: Scroller { offset: old(self).max_scroll_spec() as u16, ..old(self).scroller }, ..*old(self) }
            } else {
                *old(self)
            }),
    {
        if self.scrollable {
            let max_offset = self.max_scroll_offset();
            self.scroller.scroll_to_bottom(max_offset);
        }
    }

    /// The scroll position.
    pub fn scroll_offset(&self) -> (r: u16)
        ensures
            r == self.scroller.offset,
            r == self.scroll_offset_spec(),
    {
        self.scroller.offset()
    }

    /// A wheel step of `delta` lines; true when the position changed (never
    /// when not scrollable).
    pub fn handle_scroll_event(&mut self, delta: i8) -> (r: bool)
        ensures
            !old(self).scrollable ==> !r && *final(self) == *old(self),
            old(self).scrollable ==> *final(self) == (Panel { scroller: Scroller {
                offset: clamp_scroll(old(self).scroller.offset as int,
                    if old(self).scroller.invert_vertical { -delta } else { delta as int },
                    old(self).max_scroll_spec()) as u16,
                ..old(self).scroller }, ..*old(self) }),
            r == (final(self).scroller.offset != old(self).scroller.offset),
    {
        if !self.scrollable {
            return false;
        }
        let max_offset = self.max_scroll_offset();
        self.scroller.handle_scroll_event(delta, max_offset)
    }

    /// The first row of the body text, in panel coordinates.
    pub open spec fn content_top(&self) -> int {
        (if self.has_header() { 3int } else { 1int }) + self.padding
    }

    /// The position a press at `(x, y)` (relative to the panel) on the
    /// scrollbar column asks for, if it hits the track.
    pub open spec fn press_target(&self, x: u16, y: u16) -> Option<int> {
        track_target(x as int, y as int, self.width - 2, self.inner_spec().1, self.content_top(),
            self.max_scroll_spec())
    }

    /// Drags on the scrollbar jump to the position under the pointer; true
    /// when the position changed (never when the body cannot scroll).
    pub fn handle_drag_event(&mut self, drag_x: u16, drag_y: u16) -> (r: bool)
        requires
            old(self).can_scroll_spec() ==> old(self).width >= 2 && old(self).content_top() <= u16::MAX,
        ensures
            !old(self).can_scroll_spec() ==> !r && *final(self) == *old(self),
            old(self).can_scroll_spec() ==> *final(self) == (Panel { scroller: Scroller {
                offset: (match old(self).press_target(drag_x, drag_y) {
                    Some(t) => t,
                    None => old(self).scroller.offset as int,
                }) as u16,
                ..old(self).scroller }, ..*old(self) }),
            r == (final(self).scroller.offset != old(self).scroller.offset),
    {
        if !self.scrollable || !self.can_scroll() {
            return false;
        }
        let scrollbar_x = self.width - 2;
        let (_, inner_height) = self.get_inner_dimensions();
        let content_start_y = if cell_width(self.header_text.as_str(), TabPolicy::SingleCell) > 0 {
            3 + self.padding
        } else {
            1 + self.padding
        };
        let max_scroll = self.max_scroll_offset();
        self.scroller.handle_drag_event(drag_x, drag_y, scrollbar_x, inner_height, content_start_y, max_scroll)
    }

    /// Clicks on the scrollbar jump to the position under the pointer; true
    /// when the position changed (never when the body cannot scroll).
    pub fn handle_click_event(&mut self, click_x: u16, click_y: u16) -> (r: bool)
        requires
            old(self).can_scroll_spec() ==> old(self).width >= 2 && old(self).content_top() <= u16::MAX,
        ensures
            !old(self).can_scroll_spec() ==> !r && *final(self) == *old(self),
            old(self).can_scroll_spec() ==> *final(self) == (Panel { scroller: Scroller {
                offset: (match old(self).press_target(click_x, click_y) {
                    Some(t) => t,
                    None => old(self).scroller.offset as int,
                }) as u16,
                ..old(self).scroller }, ..*old(self) }),
            r == (final(self).scroller.offset != old(self).scroller.offset),
    {
        if !self.scrollable || !self.can_scroll() {
            return false;
        }
        let scrollbar_x = self.width - 2;
        let (_, inner_height) = self.get_inner_dimensions();
        let content_start_y = if cell_width(self.header_text.as_str(), TabPolicy::SingleCell) > 0 {
            3 + self.padding
        } else {
            1 + self.padding
        };
        let max_scroll = self.max_scroll_offset();
        self.scroller.handle_scrollbar_event(click_x, click_y, scrollbar_x, inner_height, content_start_y, max_scroll)
    }

    /// Turns auto-sizing on or off; turning it on sizes the panel to its
    /// content.
    pub fn with_auto_size(self, auto_size: bool) -> (r: Self)
        ensures
            r.header_text == self.header_text,
            r.body_content == self.body_content,
            same_settings(&r, &Panel { auto_size, ..self }),
            r.resized_from((self.width, self.height)),
    {
        let mut this = self;
        this.auto_size = auto_size;
        if auto_size {
            this.adjust_size();
        }
        this
    }
}

/// A horizontal border row `w` cells wide at row `y`: `l`, then `m` in
/// every inner cell, then `r` in the last cell.
pub open spec fn hline_writes(w: u16, y: int, l: char, m: char, r: char, c: Option<ColorPair>)
    -> Seq<(int, int, Seq<char>, Option<ColorPair>)> {
    seq![(y, 0int, seq![l], c)] + Seq::new(sat_sub(w as int, 2) as nat, |i: int| (y, i + 1, seq![m], c)) + seq![
        (y, w - 1, seq![r], c),
    ]
}

/// The side borders of `n` rows from row `top` (saturating at `u16::MAX`):
/// `v` in the first and in the last of `w` columns.
pub open spec fn side_writes(n: nat, top: int, w: u16, v: char, c: Option<ColorPair>)
    -> Seq<(int, int, Seq<char>, Option<ColorPair>)>
    decreases n,
{
    if n == 0 {
        Seq::empty()
    } else {
        let y = sat16(top + n - 1);
        side_writes((n - 1) as nat, top, w, v, c) + seq![(y, 0int, seq![v], c), (y, w - 1, seq![v], c)]
    }
}

/// A scrollable panel's text body shows its lines from the scroll offset
/// on: body row `i` holds line `offset + i` of the text, cut to the inner
/// width (in bytes) and aligned in it, for each `i` below the number of
/// lines left from the offset and the inner height, and nothing more. A
/// panel that does not scroll shows its lines from the first.
pub proof fn lemma_body_lines_follow_scroll(p: &Panel, t: Seq<char>)
    requires
        p.body_content matches PanelContent::Text(b) && b@ == t,
    ensures
        ({
            let lines = lines_spec(t);
            let start: int = if p.scrollable { p.scroll_offset_spec() as int } else { 0 };
            let (iw, ih) = p.inner_spec();
            let w = p.content_writes();
            &&& w.len() == min_int(sat_sub(lines.len() as int, start), ih)
            &&& forall|i: int| 0 <= i < w.len() ==> {
                &&& start + i < lines.len()
                &&& (#[trigger] w[i]).0 == i
                &&& w[i].2 == byte_prefix(lines[start + i], iw)
                &&& w[i].1 == align_offset(p.alignment, spec_byte_len(w[i].2) as int, iw)
                &&& w[i].3 == p.body_color
            }
        }),
{
}

/// Scrolling a text body down by one line moves every shown line up by one
/// row: what the panel scrolled one further shows in row `i` is what it
/// showed in row `i + 1`.
pub proof fn lemma_scrolling_shifts_body(p: &Panel, t: Seq<char>)
    requires
        p.body_content matches PanelContent::Text(b) && b@ == t,
        p.scrollable,
        p.scroller.offset < u16::MAX,
    ensures
        ({
            let q = Panel { scroller: Scroller { offset: (p.scroller.offset + 1) as u16, ..p.scroller }, ..*p };
            forall|i: int| 0 <= i < q.content_writes().len() && i + 1 < p.content_writes().len() ==>
                (#[trigger] q.content_writes()[i]).2 == p.content_writes()[i + 1].2
        }),
{
    let q = Panel { scroller: Scroller { offset: (p.scroller.offset + 1) as u16, ..p.scroller }, ..*p };
    lemma_body_lines_follow_scroll(p, t);
    lemma_body_lines_follow_scroll(&q, t);
    assert forall|i: int| 0 <= i < q.content_writes().len() && i + 1 < p.content_writes().len() implies
        (#[trigger] q.content_writes()[i]).2 == p.content_writes()[i + 1].2 by {
        assert(q.content_writes()[i].2 == byte_prefix(lines_spec(t)[q.scroller.offset + i], q.inner_spec().0));
        assert(p.content_writes()[i + 1].2 == byte_prefix(lines_spec(t)[p.scroller.offset + (i + 1)], p.inner_spec().0));
    }
}

/// Whether writes `ws` hold, at `2 * k` and `2 * k + 1`, the vertical
/// border char `v` on row `top + k` (saturating) at column 0 and at column
/// `w - 1`.
pub open spec fn side_rows_at(ws: Seq<(int, int, Seq<char>, Option<ColorPair>)>, k: int, top: int, w: u16, v: char,
    c: Option<ColorPair>) -> bool {
    &&& ws[2 * k] == (sat16(top + k), 0int, seq![v], c)
    &&& ws[2 * k + 1] == (sat16(top + k), w - 1, seq![v], c)
}

/// Both sides of every body row get the vertical border char: for each of
/// the `n` rows from `top` (rows saturating at `u16::MAX`), in order, one
/// write at column 0 and then one at the last column `w - 1`.
pub proof fn lemma_side_writes_rows(n: nat, top: int, w: u16, v: char, c: Option<ColorPair>)
    ensures
        side_writes(n, top, w, v, c).len() == 2 * n,
        forall|k: int| 0 <= k < n ==> side_rows_at(#[trigger] side_writes(n, top, w, v, c), k, top, w, v, c),
    decreases n,
{
    if n > 0 {
        let m = (n - 1) as nat;
        lemma_side_writes_rows(m, top, w, v, c);
        let prev = side_writes(m, top, w, v, c);
        let all = side_writes(n, top, w, v, c);
        assert forall|k: int| 0 <= k < n implies side_rows_at(#[trigger] side_writes(n, top, w, v, c), k, top, w, v, c) by {
            if k < m {
                assert(side_rows_at(prev, k, top, w, v, c));
                assert(all[2 * k] == prev[2 * k]);
                assert(all[2 * k + 1] == prev[2 * k + 1]);
            } else {
                assert(k == m);
                assert(2 * k == prev.len());
            }
        }
    }
}

/// The color of the scroll indicators.
pub open spec fn indicator_color() -> ColorPair {
    ColorPair { fg: Color::DarkGray, bg: Color::Transparent }
}

/// Appends the border row of [`hline_writes`] to `out`.
fn hline_ops(out: &mut Vec<DrawOp>, w: u16, y: u16, l: char, m: char, r: char, c: Option<ColorPair>)
    requires
        w >= 1,
    ensures
        ops_views(final(out)@) == ops_views(old(out)@) + hline_writes(w, y as int, l, m, r, c),
{
    let ghost base = ops_views(out@);
    push_op(out, y, 0, char_string(l), c);
    let mut x: u16 = 1;
    while x < w - 1
        invariant
            1 <= x,
            w >= 1,
            x <= w - 1 || x == 1,
            ops_views(out@) == base + seq![(y as int, 0int, seq![l], c)] + Seq::new((x - 1) as nat,
                |i: int| (y as int, i + 1, seq![m], c)),
        decreases w - x,
    {
        push_op(out, y, x, char_string(m), c);
        proof {
            assert(Seq::new(x as nat, |i: int| (y as int, i + 1, seq![m], c)) =~= Seq::new((x - 1) as nat,
                |i: int| (y as int, i + 1, seq![m], c)).push((y as int, x as int, seq![m], c)));
        }
        x = x + 1;
    }
    proof {
        if w >= 2 {
            assert(x == w - 1);
        } else {
            assert(x == 1);
        }
        assert(x - 1 == sat_sub(w as int, 2));
    }
    push_op(out, y, w - 1, char_string(r), c);
    proof {
        assert(ops_views(out@) =~= base + hline_writes(w, y as int, l, m, r, c));
    }
}

/// Appends the side borders of [`side_writes`] to `out`.
fn side_ops(out: &mut Vec<DrawOp>, n: u32, top: u16, w: u16, v: char, c: Option<ColorPair>)
    requires
        w >= 1,
    ensures
        ops_views(final(out)@) == ops_views(old(out)@) + side_writes(n as nat, top as int, w, v, c),
{
    let ghost base = ops_views(out@);
    let mut k: u32 = 0;
    while k < n
        invariant
            k <= n,
            w >= 1,
            ops_views(out@) == base + side_writes(k as nat, top as int, w, v, c),
        decreases n - k,
    {
        let t: u64 = top as u64 + k as u64;
        let y: u16 = if t > 0xffff { 0xffff } else { t as u16 };
        push_op(out, y, 0, char_string(v), c);
        push_op(out, y, w - 1, char_string(v), c);
        k = k + 1;
        proof {
            assert(side_writes(k as nat, top as int, w, v, c) == side_writes((k - 1) as nat, top as int, w, v, c)
                + seq![(y as int, 0int, seq![v], c), (y as int, w - 1, seq![v], c)]);
            assert(ops_views(out@) =~= base + side_writes(k as nat, top as int, w, v, c));
        }
    }
}

impl Panel {
    /// The first body row, below the top border or the header section.
    pub open spec fn body_top(&self) -> int {
        if self.has_header() { 3 } else { 1 }
    }

    /// The header row: side borders and the header text, cut to the inner
    /// width (in bytes) and centered.
    pub open spec fn header_text_writes(&self) -> Seq<(int, int, Seq<char>, Option<ColorPair>)> {
        let iw = sat_sub(self.width as int, 2);
        let tr = byte_prefix(self.header_text@, iw);
        let tl = spec_byte_len(tr) as int;
        let sx = if tl < iw { 1 + (iw - tl) / 2 } else { 1 };
        seq![
            (1int, 0int, seq![self.header_style.vertical], self.header_border_color),
            (1int, sx, tr, self.header_color),
            (1int, self.width - 1, seq![self.header_style.vertical], self.header_border_color),
        ]
    }

    /// The scrollbar at the right of the body when indicators are on and the
    /// body can scroll: a track of `│` with a `█` thumb as long as the share
    /// of lines in view (at least one cell) and placed by the scroll
    /// position, then `▲` at the top while scrolled down and `▼` at the
    /// bottom while not at the end.
    pub open spec fn indicator_writes(&self) -> Seq<(int, int, Seq<char>, Option<ColorPair>)> {
        let ih = self.inner_spec().1;
        let ms = self.max_scroll_spec();
        if self.show_scroll_indicators && self.can_scroll_spec() && ms > 0 {
            let sx = sat_sub(self.width as int, 2);
            let ssy = sat16(self.body_top() + self.padding);
            let lines = self.content_lines_spec() as int;
            let ts0 = ih * ih / lines;
            let ts = if ts0 < 1 { 1 } else { ts0 };
            let tp0 = self.scroller.offset * sat_sub(ih, ts) / ms;
            let tp = if tp0 > u16::MAX { u16::MAX as int } else { tp0 };
            let c = Some(indicator_color());
            Seq::new(ih as nat, |i: int| (sat16(ssy + i), sx, if tp <= i && i < tp + ts { seq!['█'] } else { seq!['│'] }, c))
                + (if self.scroller.offset > 0 { seq![(ssy, sx, seq!['▲'], c)] } else { Seq::empty() })
                + (if self.scroller.offset < ms { seq![(sat16(ssy + sat_sub(ih, 1)), sx, seq!['▼'], c)] } else { Seq::empty() })
        } else {
            Seq::empty()
        }
    }

    /// Everything drawn before the body text: the header section (or the top
    /// border), the body's side borders and the scroll indicators.
    pub open spec fn top_writes(&self) -> Seq<(int, int, Seq<char>, Option<ColorPair>)> {
        let hs = self.header_style;
        let bs = self.body_style;
        let head = if self.has_header() {
            hline_writes(self.width, 0, hs.top_left, hs.horizontal, hs.top_right, self.header_border_color)
                + self.header_text_writes()
                + hline_writes(self.width, 2, hs.intersect_left, hs.horizontal, hs.intersect_right, self.header_border_color)
        } else {
            hline_writes(self.width, 0, bs.top_left, bs.horizontal, bs.top_right, self.body_border_color)
        };
        head + side_writes((self.inner_spec().1 + 2 * self.padding) as nat, self.body_top(), self.width, bs.vertical,
            self.body_border_color) + self.indicator_writes()
    }

    /// The view the body text is drawn through: the inner area, inside the
    /// border and padding.
    pub open spec fn content_view(&self) -> WindowView {
        WindowView {
            x_offset: sat16(1 + self.padding) as u16,
            y_offset: sat16(self.body_top() + self.padding) as u16,
            scroll_x: 0,
            scroll_y: 0,
            width: self.inner_spec().0 as u16,
            height: self.inner_spec().1 as u16,
        }
    }

    /// The lines of a text body that fit, from the scroll position when
    /// scrollable, each cut to the inner width (in bytes) and aligned.
    pub open spec fn text_content_writes(&self, t: Seq<char>) -> Seq<(int, int, Seq<char>, Option<ColorPair>)> {
        let iw = self.inner_spec().0;
        let ih = self.inner_spec().1;
        let lines = lines_spec(t);
        let start: int = if self.scrollable { self.scroller.offset as int } else { 0 };
        let count = min_int(sat_sub(lines.len() as int, start), ih);
        Seq::new(count as nat, |i: int| {
            let tr = byte_prefix(lines[start + i], iw);
            (i, align_offset(self.alignment, spec_byte_len(tr) as int, iw), tr, self.body_color)
        })
    }

    /// The body text, in the coordinates of [`Panel::content_view`].
    pub open spec fn content_writes(&self) -> Seq<(int, int, Seq<char>, Option<ColorPair>)> {
        match self.body_content {
            PanelContent::Text(t) => self.text_content_writes(t@),
            PanelContent::Block(b) => colored(block_writes(wrapped_lines_spec(b.text@, b.wrap_mode, b.width),
                min_int(self.inner_spec().0, b.width as int), min_int(self.inner_spec().1, b.height as int), b.h_align,
                b.v_align), b.colors),
        }
    }

    /// The bottom border.
    pub open spec fn bottom_writes(&self) -> Seq<(int, int, Seq<char>, Option<ColorPair>)> {
        let bs = self.body_style;
        hline_writes(self.width, self.height - 1, bs.bottom_left, bs.horizontal, bs.bottom_right, self.body_border_color)
    }

    /// `ops` after the panel is drawn on a surface of `size` seen through
    /// `views`: nothing for a zero size; else the top part, the body text
    /// through the content view (when the inner area is not empty) and the
    /// bottom border.
    pub open spec fn drawn(&self, ops: Seq<(int, int, Seq<char>, Option<ColorPair>)>, views: Seq<WindowView>,
        size: (u16, u16)) -> Seq<(int, int, Seq<char>, Option<ColorPair>)> {
        if self.width == 0 || self.height == 0 {
            ops
        } else {
            let o1 = apply_writes(ops, views, size, self.top_writes());
            let o2 = if self.inner_spec().0 > 0 && self.inner_spec().1 > 0 {
                apply_writes(o1, views.push(self.content_view()), size, self.content_writes())
            } else {
                o1
            };
            apply_writes(o2, views, size, self.bottom_writes())
        }
    }

    /// Appends the header row to `out`.
    fn header_text_ops(&self, out: &mut Vec<DrawOp>)
        requires
            self.width >= 1,
        ensures
            ops_views(final(out)@) == ops_views(old(out)@) + self.header_text_writes(),
    {
        let ghost base = ops_views(out@);
        push_op(out, 1, 0, char_string(self.header_style.vertical), self.header_border_color);
        let inner_width = self.width.saturating_sub(2);
        let truncated = byte_prefix_string(self.header_text.as_str(), inner_width as usize);
        let cs = str_chars(truncated.as_str());
        proof {
            assert(cs@.take(cs@.len() as int) == cs@);
        }
        let text_len = crate::text::byte_len_prefix(cs.as_slice(), cs.len()) as u16;
        let start_x = if text_len < inner_width { 1 + (inner_width - text_len) / 2 } else { 1 };
        push_op(out, 1, start_x, truncated, self.header_color);
        push_op(out, 1, self.width - 1, char_string(self.header_style.vertical), self.header_border_color);
        proof {
            assert(ops_views(out@) =~= base + self.header_text_writes());
        }
    }

    /// Appends the scroll indicators to `out`.
    fn indicator_ops(&self, out: &mut Vec<DrawOp>)
        ensures
            ops_views(final(out)@) == ops_views(old(out)@) + self.indicator_writes(),
    {
        let ghost base = ops_views(out@);
        if !(self.show_scroll_indicators && self.can_scroll()) {
            assert(ops_views(out@) =~= base + self.indicator_writes());
            return;
        }
        let ms = self.max_scroll_offset();
        if ms == 0 {
            assert(ops_views(out@) =~= base + self.indicator_writes());
            return;
        }
        let (_, ih) = self.get_inner_dimensions();
        let sx = self.width.saturating_sub(2);
        let top: u16 = if cell_width(self.header_text.as_str(), TabPolicy::SingleCell) > 0 { 3 } else { 1 };
        let ssy = top.saturating_add(self.padding);
        let lines = self.get_content_line_count();
        proof {
            assert((ih as int) * (ih as int) <= 65535 * 65535) by (nonlinear_arith)
                requires
                    0 <= ih <= 65535,
            ;
            assert(self.scroller.offset as int * (ih as int) <= 65535 * 65535) by (nonlinear_arith)
                requires
                    0 <= ih <= 65535,
                    0 <= self.scroller.offset <= 65535,
            ;
        }
        let ts0: u32 = (ih as u32 * ih as u32) / lines as u32;
        let ts: u32 = if ts0 < 1 { 1 } else { ts0 };
        let room: u32 = if ih as u32 >= ts { ih as u32 - ts } else { 0 };
        proof {
            assert(self.scroller.offset as int * (room as int) <= 65535 * 65535) by (nonlinear_arith)
                requires
                    0 <= room <= 65535,
                    0 <= self.scroller.offset <= 65535,
            ;
        }
        let tp0: u64 = (self.scroller.offset as u64 * room as u64) / ms as u64;
        let tp: u64 = if tp0 > 0xffff { 0xffff } else { tp0 };
        let c = Some(ColorPair::new(Color::DarkGray, Color::Transparent));
        let ghost track = Seq::new(ih as nat, |i: int| (sat16(ssy + i), sx as int,
            if tp <= i && i < tp + ts { seq!['█'] } else { seq!['│'] }, c));
        let mut i: u16 = 0;
        while i < ih
            invariant
                i <= ih,
                track == Seq::new(ih as nat, |i: int| (sat16(ssy + i), sx as int,
                    if tp <= i && i < tp + ts { seq!['█'] } else { seq!['│'] }, c)),
                ops_views(out@) == base + track.take(i as int),
            decreases ih - i,
        {
            let yy: u16 = ssy.saturating_add(i);
            let g = if tp <= i as u64 && (i as u64) < tp + ts as u64 { '█' } else { '│' };
            push_op(out, yy, sx, char_string(g), c);
            proof {
                assert(track.take(i + 1) =~= track.take(i as int).push(track[i as int]));
            }
            i = i + 1;
        }
        proof {
            assert(track.take(ih as int) =~= track);
        }
        let ghost mid = ops_views(out@);
        if self.scroller.offset > 0 {
            push_op(out, ssy, sx, char_string('▲'), c);
        }
        let ghost mid2 = ops_views(out@);
        if self.scroller.offset < ms {
            push_op(out, ssy.saturating_add(ih.saturating_sub(1)), sx, char_string('▼'), c);
        }
        proof {
            assert(ops_views(out@) =~= base + self.indicator_writes());
        }
    }

    /// The writes drawn before the body text.
    fn top_ops(&self) -> (r: Vec<DrawOp>)
        requires
            self.width >= 1,
        ensures
            ops_views(r@) == self.top_writes(),
    {
        let mut out: Vec<DrawOp> = Vec::new();
        let hs = self.header_style;
        let bs = self.body_style;
        let has_h = cell_width(self.header_text.as_str(), TabPolicy::SingleCell) > 0;
        if has_h {
            hline_ops(&mut out, self.width, 0, hs.top_left, hs.horizontal, hs.top_right, self.header_border_color);
            self.header_text_ops(&mut out);
            hline_ops(&mut out, self.width, 2, hs.intersect_left, hs.horizontal, hs.intersect_right,
                self.header_border_color);
        } else {
            hline_ops(&mut out, self.width, 0, bs.top_left, bs.horizontal, bs.top_right, self.body_border_color);
        }
        let ghost head = ops_views(out@);
        let (_, ih) = self.get_inner_dimensions();
        let top: u16 = if has_h { 3 } else { 1 };
        side_ops(&mut out, ih as u32 + self.padding as u32 * 2, top, self.width, bs.vertical, self.body_border_color);
        self.indicator_ops(&mut out);
        proof {
            assert(ops_views(Seq::<DrawOp>::empty()) =~= Seq::<(int, int, Seq<char>, Option<ColorPair>)>::empty());
            assert(ops_views(out@) =~= self.top_writes());
        }
        out
    }

    /// The writes that show a text body, in content-view coordinates.
    fn text_content_ops(&self, text: &str) -> (r: Vec<DrawOp>)
        ensures
            ops_views(r@) == self.text_content_writes(text@),
    {
        let (iw, ih) = self.get_inner_dimensions();
        let cs = str_chars(text);
        let lines = split_lines(cs.as_slice());
        let ghost ls = char_vec_views(lines@);
        let start: usize = if self.scrollable { self.scroller.offset as usize } else { 0 };
        let rest: usize = lines.len().saturating_sub(start);
        let count: u16 = if rest < ih as usize { rest as u16 } else { ih };
        let ghost ws = self.text_content_writes(text@);
        let mut out: Vec<DrawOp> = Vec::new();
        let mut i: u16 = 0;
        proof {
            assert(ws.len() == count);
            assert(ops_views(out@) =~= ws.take(0));
        }
        while i < count
            invariant
                i <= count,
                ws == self.text_content_writes(text@),
                ws.len() == count,
                ls == char_vec_views(lines@),
                ls == lines_spec(text@),
                count <= ih,
                count == 0 || start + count <= lines@.len(),
                start as int == (if self.scrollable { self.scroller.offset as int } else { 0 }),
                iw as int == self.inner_spec().0,
                ops_views(out@) == ws.take(i as int),
            decreases count - i,
        {
            let line = crate::text::string_from_chars(lines[start + i as usize].as_slice());
            let truncated = byte_prefix_string(line.as_str(), iw as usize);
            let tcs = str_chars(truncated.as_str());
            proof {
                assert(tcs@.take(tcs@.len() as int) == tcs@);
            }
            let len = crate::text::byte_len_prefix(tcs.as_slice(), tcs.len()) as u16;
            let x = aligned_offset(self.alignment, len, iw);
            let ghost before = ops_views(out@);
            push_op(&mut out, i, x, truncated, self.body_color);
            proof {
                assert(ls[start + i] == lines@[start + i]@);
                assert(ws.take(i + 1) =~= ws.take(i as int).push(ws[i as int]));
            }
            i = i + 1;
        }
        proof {
            assert(ws.take(count as int) =~= ws);
        }
        out
    }
}

impl Widget for Panel {
    open spec fn size_spec(&self) -> (u16, u16) {
        (self.width, self.height)
    }

    open spec fn position_spec(&self) -> (u16, u16) {
        (0, 0)
    }

    open spec fn draws(&self, views: Seq<crate::widgets::WindowView>, size: (u16, u16), before: Seq<crate::window::OpView>,
        after: Seq<crate::window::OpView>, r: Result<(), Error>) -> bool {
        r is Ok && after == self.drawn(before, views, size)
    }

    /// Draws the panel at the origin of the window (see [`Panel::drawn`]).
    fn draw(&self, window: &mut Canvas) -> (r: Result<(), Error>)
        ensures
            r is Ok,
            final(window).ops_view() == self.drawn(old(window).ops_view(), old(window).views_view(),
                old(window).size_view()),
            final(window).cursor_view() == old(window).cursor_view(),
    {
        if self.width == 0 || self.height == 0 {
            return Ok(());
        }
        let ghost c0 = *window;
        let top = self.top_ops();
        window.emit(&top);
        let ghost c1 = *window;
        let (iw, ih) = self.get_inner_dimensions();
        if iw > 0 && ih > 0 {
            let has_h = cell_width(self.header_text.as_str(), TabPolicy::SingleCell) > 0;
            let top_row: u16 = if has_h { 3 } else { 1 };
            let view = WindowView {
                x_offset: self.padding.saturating_add(1),
                y_offset: top_row.saturating_add(self.padding),
                scroll_x: 0,
                scroll_y: 0,
                width: iw,
                height: ih,
            };
            assert(view == self.content_view());
            window.push_view(view);
            let ghost pushed = *window;
            let ops = match &self.body_content {
                PanelContent::Text(text) => self.text_content_ops(text.as_str()),
                PanelContent::Block(block) => {
                    let aw = if iw < block.width { iw } else { block.width };
                    let ah = if ih < block.height { ih } else { block.height };
                    block.block_ops(aw, ah)
                },
            };
            assert(ops_views(ops@) == self.content_writes());
            window.emit(&ops);
            assert(window.ops_view() == apply_writes(c1.ops_view(), c0.views_view().push(self.content_view()),
                c0.size_view(), self.content_writes()));
            let ghost drawn = *window;
            window.pop_view();
            proof {
                crate::window::lemma_grows_through_view(&c1, &pushed, &drawn, view);
            }
            assert(window.views_view() == c0.views_view());
        }
        assert(c1.ops_view() == apply_writes(c0.ops_view(), c0.views_view(), c0.size_view(), self.top_writes()));
        let ghost c2 = *window;
        let mut bottom: Vec<DrawOp> = Vec::new();
        let bs = self.body_style;
        hline_ops(&mut bottom, self.width, self.height - 1, bs.bottom_left, bs.horizontal, bs.bottom_right,
            self.body_border_color);
        proof {
            assert(ops_views(Seq::<DrawOp>::empty()) =~= Seq::<(int, int, Seq<char>, Option<ColorPair>)>::empty());
            assert(ops_views(bottom@) =~= self.bottom_writes());
        }
        window.emit(&bottom);
        proof {
            crate::window::lemma_prefix_trans(c0.ops_view(), c1.ops_view(), c2.ops_view());
            crate::window::lemma_prefix_trans(c0.ops_view(), c2.ops_view(), window.ops_view());
            crate::window::lemma_grows_trans(&c0, &c1, &c2);
            crate::window::lemma_grows_trans(&c0, &c2, window);
        }
        Ok(())
    }

    fn get_size(&self) -> (r: (u16, u16)) {
        (self.width, self.height)
    }

    fn get_position(&self) -> (r: (u16, u16)) {
        (0, 0)
    }
}


/// Scrolling a panel keeps it within its scroll range: stepping and
/// pressing on the scrollbar both land between the top and the last
/// position.
pub proof fn lemma_panel_scroll_in_range(p: Panel, delta: int, x: u16, y: u16)
    ensures
        0 <= clamp_scroll(p.scroller.offset as int, delta, p.max_scroll_spec()) <= p.max_scroll_spec(),
        p.press_target(x, y) matches Some(t) ==> 0 <= t <= p.max_scroll_spec(),
{
    let h = p.inner_spec().1;
    let m = p.max_scroll_spec();
    if let Some(t) = p.press_target(x, y) {
        if h > 1 {
            let row = y - p.content_top();
            assert(0 <= row <= h - 1);
            assert(row * m <= (h - 1) * m) by (nonlinear_arith)
                requires
                    0 <= row <= h - 1,
                    m >= 0,
            ;
            assert((row * m) / (h - 1) <= ((h - 1) * m) / (h - 1)) by (nonlinear_arith)
                requires
                    row * m <= (h - 1) * m,
                    h - 1 > 0,
            ;
            assert(((h - 1) * m) / (h - 1) == m) by (nonlinear_arith)
                requires
                    h - 1 > 0,
            ;
            assert(0 <= (row * m) / (h - 1)) by (nonlinear_arith)
                requires
                    row >= 0,
                    m >= 0,
                    h - 1 > 0,
            ;
        }
    }
}

impl crate::widgets::BoxedWidget for Panel {
    fn into_boxed(self) -> (r: crate::widgets::DynWidget) {
        crate::widgets::DynWidget { widget: Box::new(self) }
    }
}

} // verus!
