//! A one-line tooltip, placed near the pointer and kept on screen.

use vstd::prelude::*;
use std::time::{Duration, Instant};
use crate::color::{Color, ColorPair};
use crate::error::Error;
use crate::text::{take_cells, to_owned_string, clip_to_cells, cell_width, TabPolicy};
use crate::window::{Canvas, Window};
use crate::widgets::container::sat16;
use crate::widgets::input::sat_sub;

verus! {

/// A tooltip showing `text` in `colors` after the pointer has rested for
/// `delay` milliseconds.
pub struct Tooltip {
    pub text: String,
    pub delay: u64,
    pub colors: ColorPair,
    pub position: (u16, u16),
}

impl Tooltip {
    /// A tooltip in yellow on a transparent background, at the origin, that
    /// shows after half a second (500 ms).
    pub fn new(text: &str) -> (r: Self)
        ensures
            r.text@ == text@,
            r.delay == 500,
            r.colors == (ColorPair { fg: Color::Yellow, bg: Color::Transparent }),
            r.position == (0u16, 0u16),
    {
        Tooltip {
            text: to_owned_string(text),
            delay: 500,
            colors: ColorPair::new(Color::Yellow, Color::Transparent),
            position: (0, 0),
        }
    }

    /// Sets the delay before the tooltip shows, in milliseconds.
    pub fn with_delay(self, delay: u64) -> (r: Self)
        ensures
            r == (Tooltip { delay, ..self }),
    {
        Tooltip { delay, ..self }
    }

    /// Sets the colors.
    pub fn with_color(self, colors: ColorPair) -> (r: Self)
        ensures
            r == (Tooltip { colors, ..self }),
    {
        Tooltip { colors, ..self }
    }

    /// Places the tooltip at `(x, y)`.
    pub fn at(self, x: u16, y: u16) -> (r: Self)
        ensures
            r == (Tooltip { position: (x, y), ..self }),
    {
        Tooltip { position: (x, y), ..self }
    }

    /// The text.
    pub fn text(&self) -> (r: &str)
        ensures
            r@ == self.text@,
    {
        self.text.as_str()
    }

    /// The delay before the tooltip shows, in milliseconds.
    pub fn delay(&self) -> (r: u64)
        ensures
            r == self.delay,
    {
        self.delay
    }

    /// Where the tooltip goes for a pointer at `(mouse_x, mouse_y)`: the row
    /// below the pointer, at its column, moved left and up as far as needed
    /// to keep the whole text inside the window.
    pub fn position_near_mouse(&self, mouse_x: u16, mouse_y: u16, window_width: u16, window_height: u16) -> (r: (u16, u16))
        ensures
            r.0 as int == (if mouse_x as int > sat_sub(window_width as int, (self.text@.len() as u16) as int) {
                sat_sub(window_width as int, (self.text@.len() as u16) as int)
            } else {
                mouse_x as int
            }),
            r.1 as int == (if sat16(mouse_y + 1) > sat_sub(window_height as int, 1) {
                sat_sub(window_height as int, 1)
            } else {
                sat16(mouse_y + 1)
            }),
    {
        let tooltip_width = cell_width(self.text.as_str(), TabPolicy::SingleCell) as u16;
        let max_x = window_width.saturating_sub(tooltip_width);
        let max_y = window_height.saturating_sub(1);
        let mut x = mouse_x;
        let mut y = mouse_y.saturating_add(1);
        if x > max_x {
            x = max_x;
        }
        if y > max_y {
            y = max_y;
        }
        (x, y)
    }

    /// The text shown at column `x` of a window `width` cells wide: all of
    /// it when it fits, else what fits.
    pub open spec fn shown_text(&self, x: int, width: int) -> Seq<char> {
        if x + (self.text@.len() as u16) <= width { self.text@ } else { take_cells(self.text@, width - x) }
    }

    /// Draws the tooltip at `(x, y)`, cut at the right edge of the window;
    /// nothing when `(x, y)` is outside it.
    pub fn draw_at(&self, window: &mut Canvas, x: u16, y: u16) -> (r: Result<(), Error>)
        ensures
            r is Ok,
            final(window).ops_view() == (if x >= old(window).visible_size().0 || y >= old(window).visible_size().1 {
                old(window).ops_view()
            } else {
                old(window).ops_after_write(y as int, x as int, self.shown_text(x as int,
                    old(window).visible_size().0 as int), Some(self.colors))
            }),
            final(window).views_view() == old(window).views_view(),
            final(window).size_view() == old(window).size_view(),
            final(window).cursor_view() == old(window).cursor_view(),
    {
        let (window_width, window_height) = window.get_size();
        let text_len = cell_width(self.text.as_str(), TabPolicy::SingleCell) as u16;
        if x >= window_width || y >= window_height {
            return Ok(());
        }
        let shown = if (x as u32) + (text_len as u32) <= window_width as u32 {
            to_owned_string(self.text.as_str())
        } else {
            clip_to_cells(self.text.as_str(), window_width - x, TabPolicy::SingleCell)
        };
        window.put(y, x, shown.as_str(), Some(self.colors));
        Ok(())
    }
}

/// A moment of the monotonic clock (std's `Instant`), carried through
/// unchanged.
#[verifier::external_type_specification]
#[verifier::external_body]
pub struct ExInstant(Instant);

/// `Instant::now`: the current moment. Nothing is stated of it: it depends
/// on the clock.
#[verifier::external_body]
fn clock_now() -> (r: Instant) {
    Instant::now()
}

/// `Instant::elapsed`: the time since `start`. Nothing is stated of it: it
/// depends on the clock.
#[verifier::external_body]
fn elapsed_since(start: &Instant) -> (r: Duration) {
    start.elapsed()
}

/// `Duration::as_millis`: the whole milliseconds of `d`. Nothing is stated
/// of the result, as a `Duration` is opaque here; the library only reads
/// elapsed times through it.
#[verifier::external_body]
fn duration_millis(d: &Duration) -> (r: u128) {
    d.as_millis()
}

/// The whole milliseconds since `start`, saturating at `u64::MAX`.
fn elapsed_millis(start: &Instant) -> (r: u64) {
    let ms = duration_millis(&elapsed_since(start));
    if ms > u64::MAX as u128 {
        u64::MAX
    } else {
        ms as u64
    }
}

/// Whether a hover that has lasted `elapsed` milliseconds has reached a
/// delay of `delay` milliseconds.
pub fn delay_reached(elapsed: u64, delay: u64) -> (r: bool)
    ensures
        r == (elapsed >= delay),
{
    elapsed >= delay
}

/// Whether a tooltip with a delay of `delay` milliseconds shows, given how
/// long the current hover has lasted (`None` when not hovering).
pub open spec fn tooltip_due(elapsed: Option<u64>, delay: u64) -> bool {
    match elapsed {
        Some(e) => e >= delay,
        None => false,
    }
}

/// What holds of a hover's length whatever the clock says: there is one
/// exactly while hovering, and it is zero when the hover's start is not
/// known.
pub open spec fn possible_hover_duration(t: &HoverTracker, d: Option<u64>) -> bool {
    &&& (d is Some <==> t.is_hovering)
    &&& (t.is_hovering && t.hover_start is None ==> d == Some(0u64))
}

/// Tracks how long the pointer has rested on something.
pub struct HoverTracker {
    pub hover_start: Option<Instant>,
    pub is_hovering: bool,
}

impl HoverTracker {
    /// Not hovering.
    pub fn new() -> (r: Self)
        ensures
            !r.is_hovering,
            r.hover_start is None,
    {
        HoverTracker { hover_start: None, is_hovering: false }
    }

    /// Starts a hover now, unless one is under way.
    pub fn start_hover(&mut self)
        ensures
            final(self).is_hovering,
            old(self).is_hovering ==> final(self).hover_start == old(self).hover_start,
            !old(self).is_hovering ==> final(self).hover_start is Some,
    {
        if !self.is_hovering {
            self.is_hovering = true;
            self.hover_start = Some(clock_now());
        }
    }

    /// Ends the hover.
    pub fn end_hover(&mut self)
        ensures
            !final(self).is_hovering,
            final(self).hover_start is None,
    {
        self.is_hovering = false;
        self.hover_start = None;
    }

    /// How long the current hover has lasted, in whole milliseconds (zero
    /// when its start is not known); `None` when not hovering.
    pub fn hover_duration(&self) -> (r: Option<u64>)
        ensures
            possible_hover_duration(self, r),
    {
        if self.is_hovering {
            Some(match &self.hover_start {
                Some(start) => elapsed_millis(start),
                None => 0,
            })
        } else {
            None
        }
    }

    /// Whether a hover is under way.
    pub fn is_hovering(&self) -> (r: bool)
        ensures
            r == self.is_hovering,
    {
        self.is_hovering
    }

    /// Whether the current hover has lasted `delay` milliseconds (never
    /// when not hovering): [`tooltip_due`] of the hover's length.
    pub fn should_show_tooltip(&self, delay: u64) -> (r: bool)
        ensures
            exists|d: Option<u64>| possible_hover_duration(self, d) && r == tooltip_due(d, delay),
    {
        match self.hover_duration() {
            Some(duration) => delay_reached(duration, delay),
            None => false,
        }
    }

    /// Whether no hover is under way.
    pub fn should_hide_tooltip(&self) -> (r: bool)
        ensures
            r == !self.is_hovering,
    {
        !self.is_hovering
    }

    /// Whether the current hover has lasted `delay` milliseconds (never
    /// when not hovering): [`tooltip_due`] of the hover's length.
    pub fn has_delay_passed(&self, delay: u64) -> (r: bool)
        ensures
            exists|d: Option<u64>| possible_hover_duration(self, d) && r == tooltip_due(d, delay),
    {
        match self.hover_duration() {
            Some(duration) => delay_reached(duration, delay),
            None => false,
        }
    }

    /// As [`HoverTracker::should_show_tooltip`], ending the hover when the
    /// answer is yes so that it is given once.
    pub fn should_show_tooltip_once(&mut self, delay: u64) -> (r: bool)
        ensures
            exists|d: Option<u64>| possible_hover_duration(old(self), d) && r == tooltip_due(d, delay),
            !old(self).is_hovering ==> !r && final(self).is_hovering == old(self).is_hovering
                && final(self).hover_start == old(self).hover_start,
            r ==> !final(self).is_hovering && final(self).hover_start is None,
            !r ==> final(self).is_hovering == old(self).is_hovering && final(self).hover_start == old(self).hover_start,
    {
        let should_show = self.should_show_tooltip(delay);
        if should_show {
            self.end_hover();
        }
        should_show
    }
}

impl Default for HoverTracker {
    /// Not hovering.
    fn default() -> (r: Self)
        ensures
            !r.is_hovering,
            r.hover_start is None,
    {
        HoverTracker::new()
    }
}

} // verus!
