//! An animated loading spinner: one frame of a sequence, optionally followed
//! by a label, advanced by the caller between draws.

use vstd::prelude::*;
use crate::color::ColorPair;
use crate::error::Error;
use crate::text::{char_string, to_owned_string, push_str, push_char, cell_width, TabPolicy};
use crate::window::{Canvas, Window};
use crate::widgets::container::sat16;
use crate::widgets::input::string_views;
use crate::widgets::Widget;

verus! {

/// A spinner at `(x, y)` showing frame `current` of `frames`.
pub struct Spinner {
    pub frames: Vec<String>,
    pub current: usize,
    pub x: u16,
    pub y: u16,
    pub colors: Option<ColorPair>,
    pub label: Option<String>,
}

/// The frames a new spinner cycles through.
pub open spec fn braille_frames() -> Seq<Seq<char>> {
    seq![seq!['⠋'], seq!['⠙'], seq!['⠹'], seq!['⠸'], seq!['⠼'], seq!['⠴'], seq!['⠦'], seq!['⠧'], seq!['⠇'],
        seq!['⠏']]
}

impl Spinner {
    /// The frame shown: frame `current`, or nothing when there is no such
    /// frame.
    pub open spec fn frame_spec(&self) -> Seq<char> {
        if self.current < self.frames@.len() { self.frames@[self.current as int]@ } else { Seq::empty() }
    }

    /// What the spinner shows: the frame, then a space and the label when
    /// there is one.
    pub open spec fn display_spec(&self) -> Seq<char> {
        match self.label {
            Some(l) => self.frame_spec() + seq![' '] + l@,
            None => self.frame_spec(),
        }
    }

    /// A spinner of ten braille frames at the origin, on the first frame,
    /// with no label and the default colors.
    pub fn new() -> (r: Self)
        ensures
            string_views(r.frames@) == braille_frames(),
            r.current == 0,
            r.x == 0 && r.y == 0,
            (r.colors is None),
            (r.label is None),
    {
        let mut frames: Vec<String> = Vec::new();
        frames.push(char_string('⠋'));
        frames.push(char_string('⠙'));
        frames.push(char_string('⠹'));
        frames.push(char_string('⠸'));
        frames.push(char_string('⠼'));
        frames.push(char_string('⠴'));
        frames.push(char_string('⠦'));
        frames.push(char_string('⠧'));
        frames.push(char_string('⠇'));
        frames.push(char_string('⠏'));
        assert(string_views(frames@) =~= braille_frames());
        Spinner { frames, current: 0, x: 0, y: 0, colors: None, label: None }
    }

    /// A spinner cycling through `frames`.
    pub fn with_frames(frames: &[&str]) -> (r: Self)
        ensures
            string_views(r.frames@) == frames@.map_values(|f: &str| f@),
            r.current == 0,
            r.x == 0 && r.y == 0,
            (r.colors is None),
            (r.label is None),
    {
        let mut out: Vec<String> = Vec::new();
        let mut i: usize = 0;
        while i < frames.len()
            invariant
                i <= frames@.len(),
                string_views(out@) == frames@.map_values(|f: &str| f@).take(i as int),
            decreases frames.len() - i,
        {
            let s = to_owned_string(frames[i]);
            let ghost before = out@;
            out.push(s);
            proof {
                assert(string_views(out@) =~= string_views(before).push(s@));
                assert(frames@.map_values(|f: &str| f@).take(i + 1) =~= frames@.map_values(|f: &str| f@).take(
                    i as int).push(frames@[i as int]@));
            }
            i = i + 1;
        }
        assert(frames@.map_values(|f: &str| f@).take(i as int) =~= frames@.map_values(|f: &str| f@));
        Spinner { frames: out, current: 0, x: 0, y: 0, colors: None, label: None }
    }

    /// Places the spinner at `(x, y)`.
    pub fn at(self, x: u16, y: u16) -> (r: Self)
        ensures
            r == (Spinner { x, y, ..self }),
    {
        Spinner { x, y, ..self }
    }

    /// Sets the colors.
    pub fn with_color(self, colors: ColorPair) -> (r: Self)
        ensures
            r == (Spinner { colors: Some(colors), ..self }),
    {
        Spinner { colors: Some(colors), ..self }
    }

    /// Shows `label` after the frame.
    pub fn with_label(self, label: &str) -> (r: Self)
        ensures
            r.label matches Some(l) && l@ == label@,
            r.frames == self.frames,
            r.current == self.current,
            r.x == self.x && r.y == self.y,
            r.colors == self.colors,
    {
        Spinner { label: Some(to_owned_string(label)), ..self }
    }

    /// Moves to the next frame, back to the first after the last.
    pub fn advance(&mut self)
        requires
            old(self).current < old(self).frames@.len(),
        ensures
            *final(self) == (Spinner { current: ((old(self).current + 1) % (old(self).frames@.len() as int)) as usize, ..*old(self) }),
    {
        let n = self.frames.len();
        self.current = (self.current + 1) % n;
    }

    /// The frame shown.
    pub fn current_frame(&self) -> (r: &str)
        requires
            self.current < self.frames@.len(),
        ensures
            r@ == self.frames@[self.current as int]@,
    {
        self.frames[self.current].as_str()
    }

    /// The number of frames.
    pub fn frame_count(&self) -> (r: usize)
        ensures
            r == self.frames@.len(),
    {
        self.frames.len()
    }

    /// Back to the first frame.
    pub fn reset(&mut self)
        ensures
            *final(self) == (Spinner { current: 0, ..*old(self) }),
    {
        self.current = 0;
    }

    /// What the spinner shows.
    fn display_text(&self) -> (r: String)
        ensures
            r@ == self.display_spec(),
    {
        let mut s = String::new();
        if self.current < self.frames.len() {
            push_str(&mut s, self.frames[self.current].as_str());
        }
        match &self.label {
            Some(l) => {
                push_char(&mut s, ' ');
                push_str(&mut s, l.as_str());
            },
            None => {},
        }
        assert(s@ =~= self.display_spec());
        s
    }
}

impl Widget for Spinner {
    /// The frame's width, plus one and the label's width when labelled
    /// (each truncated to `u16`, the sum saturating), by one row.
    open spec fn size_spec(&self) -> (u16, u16) {
        let fw = self.frame_spec().len() as u16 as int;
        (match self.label {
            Some(l) => sat16(fw + 1 + (l@.len() as u16) as int) as u16,
            None => fw as u16,
        }, 1)
    }

    open spec fn position_spec(&self) -> (u16, u16) {
        (self.x, self.y)
    }

    open spec fn draws(&self, views: Seq<crate::widgets::WindowView>, size: (u16, u16), before: Seq<crate::window::OpView>,
        after: Seq<crate::window::OpView>, r: Result<(), Error>) -> bool {
        r is Ok && after == crate::window::write_after(before, views, size, self.y as int, self.x as int, self.display_spec(), self.colors)
    }

    /// Writes the frame (and label) at the spinner's position.
    fn draw(&self, window: &mut Canvas) -> (r: Result<(), Error>)
        ensures
            r is Ok,
            final(window).ops_view() == old(window).ops_after_write(self.y as int, self.x as int,
                self.display_spec(), self.colors),
            final(window).cursor_view() == old(window).cursor_view(),
    {
        let text = self.display_text();
        window.put(self.y, self.x, text.as_str(), self.colors);
        Ok(())
    }

    fn get_size(&self) -> (r: (u16, u16)) {
        let fw: u16 = if self.current < self.frames.len() {
            cell_width(self.frames[self.current].as_str(), TabPolicy::SingleCell) as u16
        } else {
            0
        };
        let w = match &self.label {
            Some(l) => fw.saturating_add(1).saturating_add(cell_width(l.as_str(), TabPolicy::SingleCell) as u16),
            None => fw,
        };
        (w, 1)
    }

    fn get_position(&self) -> (r: (u16, u16)) {
        (self.x, self.y)
    }
}


/// The frame index after `k` advances from frame `c` of `n`.
pub open spec fn advanced(c: int, n: int, k: nat) -> int
    decreases k,
{
    if k == 0 { c } else { (advanced(c, n, (k - 1) as nat) + 1) % n }
}

/// Advancing a spinner through as many frames as it has brings it back to
/// the frame it started on.
pub proof fn lemma_advance_cycles(c: int, n: int)
    requires
        0 <= c < n,
    ensures
        advanced(c, n, n as nat) == c,
{
    lemma_advanced_is_mod(c, n, n as nat);
    vstd::arithmetic::div_mod::lemma_mod_add_multiples_vanish(c, n);
    vstd::arithmetic::div_mod::lemma_small_mod(c as nat, n as nat);
}

/// `k` advances from frame `c` land on frame `(c + k) % n`.
proof fn lemma_advanced_is_mod(c: int, n: int, k: nat)
    requires
        0 <= c < n,
    ensures
        advanced(c, n, k) == (c + k) % n,
    decreases k,
{
    if k == 0 {
        vstd::arithmetic::div_mod::lemma_small_mod(c as nat, n as nat);
    } else {
        lemma_advanced_is_mod(c, n, (k - 1) as nat);
        vstd::arithmetic::div_mod::lemma_add_mod_noop(c + k - 1, 1, n);
        if n > 1 {
            vstd::arithmetic::div_mod::lemma_small_mod(1, n as nat);
        }
        vstd::arithmetic::div_mod::lemma_mod_twice(c + k - 1, n);
        assert(((c + k - 1) % n + 1) % n == (c + k) % n) by {
            vstd::arithmetic::div_mod::lemma_add_mod_noop(c + k - 1, 1, n);
            if n == 1 {
                vstd::arithmetic::div_mod::lemma_mod_self_0(1);
            }
        }
    }
}

impl crate::widgets::BoxedWidget for Spinner {
    fn into_boxed(self) -> (r: crate::widgets::DynWidget) {
        crate::widgets::DynWidget { widget: Box::new(self) }
    }
}

} // verus!
