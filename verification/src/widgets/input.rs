//! Single-line text input: the editing state ([`TextInputState`]) and the
//! widget that draws it ([`TextInput`]).
//!
//! The caret and the selection are char indices into the text. The text is
//! segmented into extended grapheme clusters (by `unicode_segmentation`); each
//! cluster occupies one terminal cell, so the column of a char is the number
//! of clusters that end at or before it.

use vstd::prelude::*;
use unicode_segmentation::UnicodeSegmentation;
use crate::color::{Color, ColorPair};
use crate::error::Error;
use crate::input::{Event, KeyKind, KeybindAction, is_control, is_control_spec};
use crate::widgets::scroll::sat_add16;
use crate::text::{sat_byte_len, byte_len_prefix, str_chars, string_from_chars, push_char, char_string, repeat_char,
    take_cells, clip_to_cells, repeat_string, TabPolicy};
use crate::window::{Canvas, CursorSpec, Window, DrawOp, ops_views, push_op, map_cursor_all};

verus! {

/// The extended grapheme clusters of a string, in order.
pub uninterp spec fn grapheme_clusters(s: Seq<char>) -> Seq<Seq<char>>;

/// The chars of `gs`, concatenated in order.
pub open spec fn flatten(gs: Seq<Seq<char>>) -> Seq<char>
    decreases gs.len(),
{
    if gs.len() == 0 {
        Seq::empty()
    } else {
        flatten(gs.drop_last()) + gs.last()
    }
}

/// The views of a sequence of strings.
pub open spec fn string_views(v: Seq<String>) -> Seq<Seq<char>> {
    v.map_values(|g: String| g@)
}

/// Whether every char of `s` is printable ASCII (U+0020 to U+007E).
pub open spec fn printable_ascii(s: Seq<char>) -> bool {
    forall|i: int| 0 <= i < s.len() ==> ' ' <= #[trigger] s[i] <= '~'
}

/// `unicode_segmentation::UnicodeSegmentation::graphemes(s, true)`, each
/// cluster copied into a `String`. The clusters are named by
/// `grapheme_clusters`; as the crate's iterator yields consecutive, non-empty
/// slices from the start of `s` to its end, they concatenate back to `s`.
/// The crate puts every printable ASCII char in the category that the
/// segmentation rules break on both sides of, so a text of such chars has
/// one cluster per char.
#[verifier::external_body]
fn extended_graphemes(s: &str) -> (r: Vec<String>)
    ensures
        string_views(r@) == grapheme_clusters(s@),
        flatten(string_views(r@)) == s@,
        forall|i: int| 0 <= i < r@.len() ==> (#[trigger] r@[i])@.len() > 0,
        printable_ascii(s@) ==> forall|i: int| 0 <= i < r@.len() ==> (#[trigger] r@[i])@.len() == 1,
{
    let mut out = Vec::new();
    for g in s.graphemes(true) {
        out.push(g.to_string());
    }
    out
}

/// The sum of `cl`.
pub open spec fn sum(cl: Seq<usize>) -> int
    decreases cl.len(),
{
    if cl.len() == 0 {
        0
    } else {
        sum(cl.drop_last()) + cl.last()
    }
}

/// The number of clusters, of lengths `cl`, that end at or before char `c`
/// (the index of the cluster that holds `c`, when there is one).
pub open spec fn col_from(cl: Seq<usize>, c: int) -> int
    decreases cl.len(),
{
    if cl.len() == 0 {
        0
    } else if c < cl[0] {
        0
    } else {
        1 + col_from(cl.drop_first(), c - cl[0])
    }
}

/// A place in the text: UTF-8 byte offset (saturating), char index and cell column.
#[derive(Debug, Clone, Copy, PartialEq, Eq, Structural)]
pub struct TextPosition {
    pub byte: usize,
    pub character: usize,
    pub column: usize,
}

/// The text, the caret and the selection anchor.
pub type EditModel = (Seq<char>, int, Option<int>);

/// The selected char range `(start, end)`, if the anchor differs from the caret.
pub open spec fn sel_of(cursor: int, anchor: Option<int>) -> Option<(int, int)> {
    match anchor {
        None => None,
        Some(a) => if a == cursor {
            None
        } else if a < cursor {
            Some((a, cursor))
        } else {
            Some((cursor, a))
        },
    }
}

/// `m` with the selected chars removed and the caret at their start.
pub open spec fn delete_sel(m: EditModel) -> EditModel {
    match sel_of(m.1, m.2) {
        None => m,
        Some((s, e)) => (m.0.take(s) + m.0.skip(if e <= m.0.len() { e } else { m.0.len() as int }), s, None),
    }
}

/// `m` with `s` inserted at the caret, the caret moved past it.
pub open spec fn insert_at_caret(m: EditModel, s: Seq<char>) -> EditModel {
    (m.0.take(m.1) + s + m.0.skip(m.1), m.1 + s.len(), m.2)
}

/// Typing `s`: the selection, if any, is replaced by `s`.
pub open spec fn type_text(m: EditModel, s: Seq<char>) -> EditModel {
    insert_at_caret(delete_sel(m), s)
}

/// Backspace: removes the selection, or else the char before the caret.
pub open spec fn backspace_model(m: EditModel) -> EditModel {
    if sel_of(m.1, m.2) is Some {
        delete_sel(m)
    } else if m.1 == 0 {
        m
    } else {
        (m.0.take(m.1 - 1) + m.0.skip(m.1), m.1 - 1, m.2)
    }
}

/// Delete: removes the selection, or else the char after the caret.
pub open spec fn delete_forward_model(m: EditModel) -> EditModel {
    if sel_of(m.1, m.2) is Some {
        delete_sel(m)
    } else if m.1 >= m.0.len() {
        m
    } else {
        (m.0.take(m.1) + m.0.skip(m.1 + 1), m.1, m.2)
    }
}

/// Moves the caret to `to`; when `selecting`, the anchor is set to the old
/// caret if there was none, and otherwise dropped.
pub open spec fn move_model(m: EditModel, to: int, selecting: bool) -> EditModel {
    (m.0, to, if selecting {
        if m.2 is None { Some(m.1) } else { m.2 }
    } else {
        None
    })
}

/// Editing state of a single-line text input.
#[derive(Debug, Clone)]
pub struct TextInputState {
    text: String,
    chars: Vec<char>,
    clusters: Vec<usize>,
    cursor: usize,
    selection_anchor: Option<usize>,
    view_col: usize,
    focused: bool,
    pub last_x: u16,
    pub last_y: u16,
    pub last_w: u16,
}

impl TextInputState {
    /// The text.
    pub closed spec fn text_view(&self) -> Seq<char> {
        self.text@
    }

    /// The caret, as a char index.
    pub closed spec fn cursor_view(&self) -> int {
        self.cursor as int
    }

    /// The selection anchor, as a char index.
    pub closed spec fn anchor_view(&self) -> Option<int> {
        match self.selection_anchor {
            None => None,
            Some(a) => Some(a as int),
        }
    }

    /// The first visible column.
    pub closed spec fn view_col_view(&self) -> int {
        self.view_col as int
    }

    /// The last drawn position and width `(last_x, last_y, last_w)`.
    pub closed spec fn geometry_view(&self) -> (u16, u16, u16) {
        (self.last_x, self.last_y, self.last_w)
    }

    /// Whether the input has focus.
    pub closed spec fn focused_view(&self) -> bool {
        self.focused
    }

    /// The char lengths of the grapheme clusters of the text.
    pub closed spec fn clusters_view(&self) -> Seq<usize> {
        self.clusters@
    }

    /// The text, caret and anchor together.
    pub open spec fn model(&self) -> EditModel {
        (self.text_view(), self.cursor_view(), self.anchor_view())
    }

    /// The internal invariant: the cluster lengths are those of the text's
    /// grapheme clusters (all positive, summing to the text length), and the
    /// caret lies within the text. (The anchor may lie one past the end after
    /// a backspace at the anchor; ranges are then cut at the end of the text.)
    pub closed spec fn wf(&self) -> bool {
        &&& self.chars@ == self.text@
        &&& self.clusters@.len() == grapheme_clusters(self.text@).len()
        &&& forall|i: int| 0 <= i < self.clusters@.len() ==> #[trigger] self.clusters@[i]
            == grapheme_clusters(self.text@)[i].len()
        &&& forall|i: int| 0 <= i < self.clusters@.len() ==> #[trigger] self.clusters@[i] > 0
        &&& sum(self.clusters@) == self.text@.len()
        &&& printable_ascii(self.text@) ==> forall|i: int| 0 <= i < self.clusters@.len() ==> #[trigger] self.clusters@[i]
            == 1
        &&& self.cursor <= self.text@.len()
    }

    /// The number of columns the whole text occupies.
    pub open spec fn end_column(&self) -> int {
        self.clusters_view().len() as int
    }

    /// The selected range, if any.
    pub open spec fn selection_spec(&self) -> Option<(int, int)> {
        sel_of(self.cursor_view(), self.anchor_view())
    }

    /// The same state with model `m` (focus, view column and geometry kept).
    pub open spec fn has_model(&self, m: EditModel) -> bool {
        self.model() == m
    }

    /// An empty, unfocused input.
    pub fn new() -> (r: Self)
        ensures
            r.wf(),
            r.model() == (Seq::<char>::empty(), 0int, None::<int>),
            !r.focused_view(),
            r.view_col_view() == 0,
            r.geometry_view() == (0u16, 0u16, 0u16),
    {
        let mut s = TextInputState {
            text: String::new(),
            chars: Vec::new(),
            clusters: Vec::new(),
            cursor: 0,
            selection_anchor: None,
            view_col: 0,
            focused: false,
            last_x: 0,
            last_y: 0,
            last_w: 0,
        };
        s.reindex();
        s
    }

    /// Recomputes the chars and the cluster lengths of the text.
    fn reindex(&mut self)
        requires
            old(self).cursor <= old(self).text@.len(),
        ensures
            final(self).wf(),
            final(self).text == old(self).text,
            final(self).cursor == old(self).cursor,
            final(self).selection_anchor == old(self).selection_anchor,
            final(self).view_col == old(self).view_col,
            final(self).focused == old(self).focused,
            final(self).geometry_view() == old(self).geometry_view(),
    {
        let cl = cluster_lengths_of(self.text.as_str());
        self.clusters = cl;
        self.chars = str_chars(self.text.as_str());
    }

    /// The text.
    pub fn text(&self) -> (r: &str)
        ensures
            r@ == self.text_view(),
    {
        self.text.as_str()
    }

    /// Replaces the text; the caret moves to its end and the selection and
    /// horizontal scroll are reset.
    pub fn set_text(&mut self, text: &str)
        requires
            old(self).wf(),
        ensures
            final(self).wf(),
            final(self).model() == (text@, text@.len() as int, None::<int>),
            final(self).view_col_view() == 0,
            final(self).focused_view() == old(self).focused_view(),
            final(self).geometry_view() == old(self).geometry_view(),
    {
        let cs = str_chars(text);
        self.text = string_from_chars(cs.as_slice());
        self.cursor = 0;
        self.selection_anchor = None;
        self.reindex();
        self.cursor = self.chars.len();
        self.view_col = 0;
    }

    /// Empties the text and resets caret, selection and scroll.
    pub fn clear(&mut self)
        requires
            old(self).wf(),
        ensures
            final(self).wf(),
            final(self).model() == (Seq::<char>::empty(), 0int, None::<int>),
            final(self).view_col_view() == 0,
            final(self).focused_view() == old(self).focused_view(),
            final(self).geometry_view() == old(self).geometry_view(),
    {
        self.text = String::new();
        self.cursor = 0;
        self.selection_anchor = None;
        self.view_col = 0;
        self.reindex();
    }

    /// Whether the input has focus.
    pub fn is_focused(&self) -> (r: bool)
        ensures
            r == self.focused_view(),
    {
        self.focused
    }

    /// Gives or takes focus; losing focus drops the selection anchor.
    pub fn set_focused(&mut self, focused: bool)
        requires
            old(self).wf(),
        ensures
            final(self).wf(),
            final(self).focused_view() == focused,
            final(self).model() == (old(self).text_view(), old(self).cursor_view(),
                if focused { old(self).anchor_view() } else { None }),
            final(self).view_col_view() == old(self).view_col_view(),
            final(self).geometry_view() == old(self).geometry_view(),
            final(self).clusters_view() == old(self).clusters_view(),
    {
        self.focused = focused;
        if !focused {
            self.selection_anchor = None;
        }
    }

    /// The caret, as a char index.
    pub fn cursor(&self) -> (r: usize)
        ensures
            r == self.cursor_view(),
    {
        self.cursor
    }

    /// Moves the caret to char `cursor` (at most the text length); the
    /// selection anchor is kept.
    pub fn set_cursor(&mut self, cursor: usize)
        requires
            old(self).wf(),
        ensures
            final(self).wf(),
            final(self).model() == (old(self).text_view(),
                if cursor <= old(self).text_view().len() { cursor as int } else { old(self).text_view().len() as int },
                old(self).anchor_view()),
            final(self).view_col_view() == old(self).view_col_view(),
            final(self).focused_view() == old(self).focused_view(),
            final(self).geometry_view() == old(self).geometry_view(),
            final(self).clusters_view() == old(self).clusters_view(),
    {
        let len = self.chars.len();
        self.cursor = if cursor <= len { cursor } else { len };
    }

    /// The selected char range `(start, end)`, if the anchor differs from the caret.
    pub fn selection(&self) -> (r: Option<(usize, usize)>)
        ensures
            match r {
                None => self.selection_spec() is None,
                Some((s, e)) => self.selection_spec() == Some((s as int, e as int)),
            },
    {
        let a = match self.selection_anchor {
            None => return None,
            Some(a) => a,
        };
        if a == self.cursor {
            return None;
        }
        if a < self.cursor {
            Some((a, self.cursor))
        } else {
            Some((self.cursor, a))
        }
    }

    /// Drops the selection anchor.
    pub fn clear_selection(&mut self)
        requires
            old(self).wf(),
        ensures
            final(self).wf(),
            final(self).model() == (old(self).text_view(), old(self).cursor_view(), None::<int>),
            final(self).view_col_view() == old(self).view_col_view(),
            final(self).focused_view() == old(self).focused_view(),
            final(self).geometry_view() == old(self).geometry_view(),
            final(self).clusters_view() == old(self).clusters_view(),
    {
        self.selection_anchor = None;
    }

    /// Selects the whole text: anchor at 0, caret at the end.
    pub fn select_all(&mut self)
        requires
            old(self).wf(),
        ensures
            final(self).wf(),
            final(self).model() == (old(self).text_view(), old(self).text_view().len() as int, Some(0int)),
            final(self).view_col_view() == old(self).view_col_view(),
            final(self).focused_view() == old(self).focused_view(),
            final(self).geometry_view() == old(self).geometry_view(),
            final(self).clusters_view() == old(self).clusters_view(),
    {
        let len = self.chars.len();
        self.selection_anchor = Some(0);
        self.cursor = len;
    }

    /// Whether some chars are selected.
    pub fn has_selection(&self) -> (r: bool)
        ensures
            r == self.selection_spec() is Some,
    {
        self.selection().is_some()
    }

    /// Replaces chars `[start, end)` of the text by `ins` (caret and anchor
    /// are left to the caller).
    fn splice_text(&mut self, start: usize, end: usize, ins: &[char])
        requires
            old(self).wf(),
            start <= end <= old(self).text@.len(),
        ensures
            final(self).text@ == old(self).text@.take(start as int) + ins@ + old(self).text@.skip(end as int),
            final(self).cursor == old(self).cursor,
            final(self).selection_anchor == old(self).selection_anchor,
            final(self).view_col == old(self).view_col,
            final(self).focused == old(self).focused,
            final(self).geometry_view() == old(self).geometry_view(),
    {
        let mut out: Vec<char> = Vec::new();
        let mut i: usize = 0;
        while i < start
            invariant
                i <= start <= end <= self.chars@.len(),
                out@ == self.chars@.take(i as int),
            decreases start - i,
        {
            out.push(self.chars[i]);
            assert(self.chars@.take(i + 1) == self.chars@.take(i as int).push(self.chars@[i as int]));
            i = i + 1;
        }
        let mut j: usize = 0;
        while j < ins.len()
            invariant
                j <= ins@.len(),
                start <= end <= self.chars@.len(),
                out@ == self.chars@.take(start as int) + ins@.take(j as int),
            decreases ins.len() - j,
        {
            out.push(ins[j]);
            assert(ins@.take(j + 1) == ins@.take(j as int).push(ins@[j as int]));
            j = j + 1;
        }
        assert(ins@.take(ins@.len() as int) == ins@);
        let mut k: usize = end;
        while k < self.chars.len()
            invariant
                start <= end <= k <= self.chars@.len(),
                out@ == self.chars@.take(start as int) + ins@ + self.chars@.subrange(end as int, k as int),
            decreases self.chars.len() - k,
        {
            out.push(self.chars[k]);
            assert(self.chars@.subrange(end as int, k + 1) == self.chars@.subrange(end as int, k as int).push(
                self.chars@[k as int]));
            k = k + 1;
        }
        assert(self.chars@.subrange(end as int, self.chars@.len() as int) == self.chars@.skip(end as int));
        self.text = string_from_chars(out.as_slice());
    }

    /// Removes chars `[start, end)`, the end cut at the end of the text
    /// (nothing when `start >= end`).
    fn delete_range_chars(&mut self, start: usize, end: usize)
        requires
            old(self).wf(),
            start <= old(self).text@.len(),
            old(self).cursor <= start,
        ensures
            final(self).wf(),
            final(self).text@ == (if start < end {
                old(self).text@.take(start as int) + old(self).text@.skip(
                    if end <= old(self).text@.len() { end as int } else { old(self).text@.len() as int })
            } else {
                old(self).text@
            }),
            final(self).cursor == old(self).cursor,
            final(self).selection_anchor == old(self).selection_anchor,
            final(self).view_col == old(self).view_col,
            final(self).focused == old(self).focused,
            final(self).geometry_view() == old(self).geometry_view(),
    {
        if start >= end {
            return;
        }
        let e = if end <= self.chars.len() { end } else { self.chars.len() };
        let empty: Vec<char> = Vec::new();
        self.splice_text(start, e, empty.as_slice());
        assert(self.text@ =~= old(self).text@.take(start as int) + old(self).text@.skip(e as int));
        self.reindex();
    }

    /// Inserts `s` at the caret and moves the caret past it.
    fn insert_str_at_cursor(&mut self, s: &str)
        requires
            old(self).wf(),
        ensures
            final(self).wf(),
            final(self).model() == insert_at_caret(old(self).model(), s@),
            final(self).view_col == old(self).view_col,
            final(self).focused == old(self).focused,
            final(self).geometry_view() == old(self).geometry_view(),
    {
        let cs = str_chars(s);
        let at = self.cursor;
        self.splice_text(at, at, cs.as_slice());
        let ghost t = self.text@;
        assert(t.len() == at + cs@.len() + (old(self).text@.len() - at));
        self.reindex();
        let n = self.chars.len();
        assert(at + cs@.len() <= n);
        self.cursor = at + cs.len();
    }

    /// The chars `[start, end)` as a string (empty when `start >= end`).
    fn slice_chars(&self, start: usize, end: usize) -> (r: String)
        requires
            self.wf(),
            start <= self.text@.len(),
        ensures
            r@ == (if start < end {
                self.text@.subrange(start as int, if end <= self.text@.len() { end as int } else { self.text@.len() as int })
            } else {
                Seq::empty()
            }),
    {
        if start >= end {
            return String::new();
        }
        let end = if end <= self.chars.len() { end } else { self.chars.len() };
        let mut out = String::new();
        let mut i = start;
        while i < end
            invariant
                start <= i <= end <= self.chars@.len(),
                out@ == self.chars@.subrange(start as int, i as int),
            decreases end - i,
        {
            push_char(&mut out, self.chars[i]);
            assert(self.chars@.subrange(start as int, i + 1) == self.chars@.subrange(start as int, i as int).push(
                self.chars@[i as int]));
            i = i + 1;
        }
        out
    }

    /// Removes the selected chars and puts the caret at their start; `false`
    /// when nothing was selected.
    pub fn delete_selection(&mut self) -> (r: bool)
        requires
            old(self).wf(),
        ensures
            final(self).wf(),
            r == (old(self).selection_spec() is Some),
            final(self).model() == delete_sel(old(self).model()),
            final(self).view_col_view() == old(self).view_col_view(),
            final(self).focused_view() == old(self).focused_view(),
            final(self).geometry_view() == old(self).geometry_view(),
    {
        let (start, end) = match self.selection() {
            None => return false,
            Some(p) => p,
        };
        self.cursor = start;
        self.selection_anchor = None;
        self.delete_range_chars(start, end);
        true
    }

    /// Types `ch`: replaces the selection, if any, then inserts at the caret.
    pub fn insert_char(&mut self, ch: char)
        requires
            old(self).wf(),
        ensures
            final(self).wf(),
            final(self).model() == type_text(old(self).model(), seq![ch]),
            final(self).view_col_view() == old(self).view_col_view(),
            final(self).focused_view() == old(self).focused_view(),
            final(self).geometry_view() == old(self).geometry_view(),
    {
        let _ = self.delete_selection();
        let mut s = String::new();
        push_char(&mut s, ch);
        assert(s@ =~= seq![ch]);
        self.insert_str_at_cursor(s.as_str());
    }

    /// Types `s` (nothing at all when `s` is empty): replaces the selection,
    /// if any, then inserts at the caret.
    pub fn insert_str(&mut self, s: &str)
        requires
            old(self).wf(),
        ensures
            final(self).wf(),
            final(self).model() == (if s@.len() == 0 { old(self).model() } else { type_text(old(self).model(), s@) }),
            final(self).view_col_view() == old(self).view_col_view(),
            final(self).focused_view() == old(self).focused_view(),
            final(self).geometry_view() == old(self).geometry_view(),
    {
        let cs = str_chars(s);
        if cs.len() == 0 {
            return;
        }
        let _ = self.delete_selection();
        self.insert_str_at_cursor(s);
    }

    /// Removes the selection, or else the char before the caret.
    pub fn backspace(&mut self)
        requires
            old(self).wf(),
        ensures
            final(self).wf(),
            final(self).model() == backspace_model(old(self).model()),
            final(self).view_col_view() == old(self).view_col_view(),
            final(self).focused_view() == old(self).focused_view(),
            final(self).geometry_view() == old(self).geometry_view(),
    {
        if self.delete_selection() {
            return;
        }
        if self.cursor == 0 {
            return;
        }
        let start = self.cursor - 1;
        let end = self.cursor;
        self.cursor = start;
        self.delete_range_chars(start, end);
    }

    /// Removes the selection, or else the char after the caret.
    pub fn delete_forward(&mut self)
        requires
            old(self).wf(),
        ensures
            final(self).wf(),
            final(self).model() == delete_forward_model(old(self).model()),
            final(self).view_col_view() == old(self).view_col_view(),
            final(self).focused_view() == old(self).focused_view(),
            final(self).geometry_view() == old(self).geometry_view(),
    {
        if self.delete_selection() {
            return;
        }
        let len = self.chars.len();
        if self.cursor >= len {
            return;
        }
        let c = self.cursor;
        self.delete_range_chars(c, c + 1);
    }

    /// Sets the anchor to the caret when selecting and there is none, or
    /// drops it when not selecting.
    fn begin_or_clear_selection(&mut self, selecting: bool)
        requires
            old(self).wf(),
        ensures
            final(self).wf(),
            final(self).model() == move_model(old(self).model(), old(self).cursor_view(), selecting),
            final(self).view_col_view() == old(self).view_col_view(),
            final(self).focused_view() == old(self).focused_view(),
            final(self).geometry_view() == old(self).geometry_view(),
            final(self).clusters_view() == old(self).clusters_view(),
    {
        if selecting {
            if self.selection_anchor.is_none() {
                self.selection_anchor = Some(self.cursor);
            }
        } else {
            self.selection_anchor = None;
        }
    }

    /// Moves the caret one char left (not past the start).
    pub fn move_left(&mut self, selecting: bool)
        requires
            old(self).wf(),
        ensures
            final(self).wf(),
            final(self).model() == move_model(old(self).model(),
                if old(self).cursor_view() > 0 { old(self).cursor_view() - 1 } else { 0 }, selecting),
            final(self).view_col_view() == old(self).view_col_view(),
            final(self).focused_view() == old(self).focused_view(),
            final(self).geometry_view() == old(self).geometry_view(),
            final(self).clusters_view() == old(self).clusters_view(),
    {
        self.begin_or_clear_selection(selecting);
        self.cursor = self.cursor.saturating_sub(1);
        if !selecting {
            self.selection_anchor = None;
        }
    }

    /// Moves the caret one char right (not past the end).
    pub fn move_right(&mut self, selecting: bool)
        requires
            old(self).wf(),
        ensures
            final(self).wf(),
            final(self).model() == move_model(old(self).model(),
                if old(self).cursor_view() < old(self).text_view().len() { old(self).cursor_view() + 1 }
                else { old(self).text_view().len() as int }, selecting),
            final(self).view_col_view() == old(self).view_col_view(),
            final(self).focused_view() == old(self).focused_view(),
            final(self).geometry_view() == old(self).geometry_view(),
            final(self).clusters_view() == old(self).clusters_view(),
    {
        self.begin_or_clear_selection(selecting);
        let len = self.chars.len();
        self.cursor = if self.cursor < len { self.cursor + 1 } else { len };
        if !selecting {
            self.selection_anchor = None;
        }
    }

    /// Moves the caret to the start.
    pub fn move_home(&mut self, selecting: bool)
        requires
            old(self).wf(),
        ensures
            final(self).wf(),
            final(self).model() == move_model(old(self).model(), 0, selecting),
            final(self).view_col_view() == old(self).view_col_view(),
            final(self).focused_view() == old(self).focused_view(),
            final(self).geometry_view() == old(self).geometry_view(),
            final(self).clusters_view() == old(self).clusters_view(),
    {
        self.begin_or_clear_selection(selecting);
        self.cursor = 0;
        if !selecting {
            self.selection_anchor = None;
        }
    }

    /// Moves the caret to the end.
    pub fn move_end(&mut self, selecting: bool)
        requires
            old(self).wf(),
        ensures
            final(self).wf(),
            final(self).model() == move_model(old(self).model(), old(self).text_view().len() as int, selecting),
            final(self).view_col_view() == old(self).view_col_view(),
            final(self).focused_view() == old(self).focused_view(),
            final(self).geometry_view() == old(self).geometry_view(),
            final(self).clusters_view() == old(self).clusters_view(),
    {
        self.begin_or_clear_selection(selecting);
        self.cursor = self.chars.len();
        if !selecting {
            self.selection_anchor = None;
        }
    }

    /// The selected text, if any.
    pub fn copy_selection(&self) -> (r: Option<String>)
        requires
            self.wf(),
        ensures
            match self.selection_spec() {
                None => r is None,
                Some((s, e)) => r is Some && r.unwrap()@ == selected_text(self.text_view(), s, e),
            },
    {
        let (start, end) = match self.selection() {
            None => return None,
            Some(p) => p,
        };
        Some(self.slice_chars(start, end))
    }

    /// Removes the selected text and returns it, if any.
    pub fn cut_selection(&mut self) -> (r: Option<String>)
        requires
            old(self).wf(),
        ensures
            final(self).wf(),
            final(self).model() == delete_sel(old(self).model()),
            match old(self).selection_spec() {
                None => r is None,
                Some((s, e)) => r is Some && r.unwrap()@ == selected_text(old(self).text_view(), s, e),
            },
            final(self).view_col_view() == old(self).view_col_view(),
            final(self).focused_view() == old(self).focused_view(),
            final(self).geometry_view() == old(self).geometry_view(),
    {
        let (start, end) = match self.selection() {
            None => return None,
            Some(p) => p,
        };
        let cut = self.slice_chars(start, end);
        self.cursor = start;
        self.selection_anchor = None;
        self.delete_range_chars(start, end);
        Some(cut)
    }

    /// The number of chars in the text.
    pub fn len_chars(&self) -> (r: usize)
        requires
            self.wf(),
        ensures
            r == self.text_view().len(),
    {
        self.chars.len()
    }

    /// The position just past the end of the text.
    fn end_position(&self) -> (r: TextPosition)
        requires
            self.wf(),
        ensures
            (r.byte as int, r.character as int, r.column as int) == self.char_position(self.text_view().len() as int),
    {
        let len = self.chars.len();
        let b = byte_len_prefix(self.chars.as_slice(), len);
        assert(self.chars@.take(len as int) == self.chars@);
        TextPosition { byte: b, character: len, column: self.clusters.len() }
    }

    /// (byte, char, column) of char `c`; past the end, of the end of the text.
    pub open spec fn char_position(&self, c: int) -> (int, int, int) {
        if c >= self.text_view().len() {
            (sat_byte_len(self.text_view()), self.text_view().len() as int, self.end_column())
        } else {
            (sat_byte_len(self.text_view().take(c)), c, col_from(self.clusters_view(), c))
        }
    }

    /// (byte, char, column) of the start of the cluster in column `col`;
    /// from the last column on, of the end of the text.
    pub open spec fn column_position(&self, col: int) -> (int, int, int) {
        if col >= self.end_column() {
            self.char_position(self.text_view().len() as int)
        } else {
            let c = sum(self.clusters_view().take(col));
            (sat_byte_len(self.text_view().take(c)), c, col)
        }
    }

    /// The position of char `character`.
    pub fn position_at_character(&self, character: usize) -> (r: TextPosition)
        requires
            self.wf(),
        ensures
            (r.byte as int, r.character as int, r.column as int) == self.char_position(character as int),
    {
        let len = self.chars.len();
        if character >= len {
            return self.end_position();
        }
        let ghost cl = self.clusters@;
        let mut k: usize = 0;
        let mut start: usize = 0;
        proof {
            assert(cl.skip(0) == cl);
        }
        loop
            invariant
                cl == self.clusters@,
                self.wf(),
                len == self.text@.len(),
                len == self.chars@.len(),
                character < len,
                k <= cl.len(),
                start == sum(cl.take(k as int)),
                start <= character,
                col_from(cl, character as int) == k + col_from(cl.skip(k as int), character - start),
            ensures
                col_from(cl, character as int) == k,
            decreases cl.len() - k,
        {
            if k >= self.clusters.len() {
                assert(cl.skip(k as int).len() == 0);
                break;
            }
            proof {
                lemma_sum_prefix_le(cl, k + 1);
                assert(cl.take(k + 1).drop_last() == cl.take(k as int));
                assert(cl.skip(k as int)[0] == cl[k as int]);
            }
            if start + self.clusters[k] > character {
                break;
            }
            proof {
                assert(cl.skip(k as int).drop_first() == cl.skip(k + 1));
            }
            start = start + self.clusters[k];
            k = k + 1;
        }
        let b = byte_len_prefix(self.chars.as_slice(), character);
        TextPosition { byte: b, character, column: k }
    }

    /// The position of the start of the cluster in column `column`.
    pub fn position_at_column(&self, column: usize) -> (r: TextPosition)
        requires
            self.wf(),
        ensures
            (r.byte as int, r.character as int, r.column as int) == self.column_position(column as int),
            r.character <= self.text_view().len(),
    {
        if column >= self.clusters.len() {
            return self.end_position();
        }
        let ghost cl = self.clusters@;
        let total = self.chars.len();
        let mut k: usize = 0;
        let mut start: usize = 0;
        while k < column
            invariant
                cl == self.clusters@,
                self.wf(),
                total == self.text@.len(),
                total == sum(cl),
                k <= column < cl.len(),
                start == sum(cl.take(k as int)),
            decreases column - k,
        {
            proof {
                lemma_sum_prefix_le(cl, k + 1);
                assert(cl.take(k + 1).drop_last() == cl.take(k as int));
                assert(start + cl[k as int] <= total);
            }
            start = start + self.clusters[k];
            k = k + 1;
        }
        proof {
            lemma_sum_prefix_le(cl, column as int);
        }
        let b = byte_len_prefix(self.chars.as_slice(), start);
        TextPosition { byte: b, character: start, column }
    }

    /// The UTF-8 byte offset of char `char_idx` (saturating).
    pub fn byte_index_for_char_index(&self, char_idx: usize) -> (r: usize)
        requires
            self.wf(),
        ensures
            r == self.char_position(char_idx as int).0,
    {
        self.position_at_character(char_idx).byte
    }

    /// Handles an input event; returns whether it was consumed. An unfocused
    /// input ignores everything. Shift+Left / Shift+Right extend the
    /// selection; other modified keys act as their plain key when neither Ctrl
    /// nor Alt is held.
    pub fn handle_event(&mut self, event: Event) -> (r: bool)
        requires
            old(self).wf(),
        ensures
            final(self).wf(),
            !old(self).focused_view() ==> !r && final(self).model() == old(self).model(),
            old(self).focused_view() ==> (r, final(self).model()) == event_effect(old(self).model(), event),
            final(self).view_col_view() == old(self).view_col_view(),
            final(self).focused_view() == old(self).focused_view(),
            final(self).geometry_view() == old(self).geometry_view(),
    {
        if !self.focused {
            return false;
        }
        if let Event::KeyWithModifiers(k) = &event {
            if k.mods.shift {
                match k.key {
                    KeyKind::Left => {
                        self.move_left(true);
                        return true;
                    },
                    KeyKind::Right => {
                        self.move_right(true);
                        return true;
                    },
                    _ => {},
                }
            }
        }
        let event = match event.as_legacy_key_event() {
            Some(e) => e,
            None => event,
        };
        match event {
            Event::Character(c) => {
                if !is_control(c) {
                    self.insert_char(c);
                }
                true
            },
            Event::Paste(text) => {
                self.insert_str(text.as_str());
                true
            },
            Event::Backspace => {
                self.backspace();
                true
            },
            Event::Delete => {
                self.delete_forward();
                true
            },
            Event::KeyLeft => {
                self.move_left(false);
                true
            },
            Event::KeyRight => {
                self.move_right(false);
                true
            },
            Event::Escape => {
                self.clear_selection();
                true
            },
            Event::Keybind(action) => match action {
                KeybindAction::SelectAll => {
                    self.select_all();
                    true
                },
                KeybindAction::Copy => {
                    let _ = self.copy_selection();
                    true
                },
                KeybindAction::Cut => {
                    let _ = self.cut_selection();
                    true
                },
                KeybindAction::Paste => true,
                KeybindAction::Other => false,
            },
            _ => false,
        }
    }

    /// The first visible column.
    pub fn view_col(&self) -> (r: usize)
        ensures
            r == self.view_col_view(),
    {
        self.view_col
    }

    /// Puts the caret at the cluster under screen column `x` of the last
    /// drawn field and drops the selection.
    pub fn click_set_cursor(&mut self, x: u16)
        requires
            old(self).wf(),
        ensures
            final(self).wf(),
            final(self).model() == (old(self).text_view(),
                old(self).column_position(old(self).view_col_view() + sat_sub16(x, old(self).geometry_view().0)).1,
                None::<int>),
            final(self).view_col_view() == old(self).view_col_view(),
            final(self).focused_view() == old(self).focused_view(),
            final(self).geometry_view() == old(self).geometry_view(),
    {
        let local_x = x.saturating_sub(self.last_x);
        let n = self.clusters.len();
        let col = self.view_col.saturating_add(local_x as usize);
        assert(col >= n ==> self.view_col + local_x >= n);
        let idx = self.position_at_column(col).character;
        self.cursor = idx;
        self.selection_anchor = None;
    }

    /// Extends the selection to the cluster under screen column `x` (clamped
    /// to the last drawn field); the anchor is set at the caret if there was none.
    pub fn drag_select_to(&mut self, x: u16)
        requires
            old(self).wf(),
        ensures
            final(self).wf(),
            final(self).model() == ({
                let (lx, ly, lw) = old(self).geometry_view();
                let cx = if lw == 0 { lx as int } else { clamp_int(x as int, lx as int,
                    lx + sat_sub(lw as int, 1) ) };
                let cx16 = if cx > u16::MAX { u16::MAX as int } else { cx };
                (old(self).text_view(),
                old(self).column_position(old(self).view_col_view() + (cx16 - lx)).1,
                if old(self).anchor_view() is None { Some(old(self).cursor_view()) } else { old(self).anchor_view() })
            }),
            final(self).view_col_view() == old(self).view_col_view(),
            final(self).focused_view() == old(self).focused_view(),
            final(self).geometry_view() == old(self).geometry_view(),
    {
        let clamped_x = if self.last_w == 0 {
            self.last_x
        } else {
            let min_x = self.last_x;
            let max_x_inclusive = self.last_x.saturating_add(self.last_w.saturating_sub(1));
            if x < min_x { min_x } else if x > max_x_inclusive { max_x_inclusive } else { x }
        };
        let local_x = clamped_x.saturating_sub(self.last_x);
        let n = self.clusters.len();
        let col = self.view_col.saturating_add(local_x as usize);
        assert(col >= n ==> self.view_col + local_x >= n);
        let idx = self.position_at_column(col).character;
        if self.selection_anchor.is_none() {
            self.selection_anchor = Some(self.cursor);
        }
        self.cursor = idx;
    }

    /// Scrolls horizontally so that caret column `caret_col` is inside a field
    /// of `field_cells` cells.
    fn ensure_cursor_visible(&mut self, field_cells: u16, caret_col: usize)
        requires
            old(self).wf(),
        ensures
            final(self).wf(),
            final(self).model() == old(self).model(),
            final(self).view_col_view() == scroll_to_caret(old(self).view_col_view(), field_cells as int, caret_col as int),
            final(self).focused_view() == old(self).focused_view(),
            final(self).geometry_view() == old(self).geometry_view(),
            final(self).clusters_view() == old(self).clusters_view(),
    {
        if field_cells == 0 {
            self.view_col = 0;
            return;
        }
        if caret_col < self.view_col {
            self.view_col = caret_col;
            return;
        }
        let viewport_end = self.view_col.saturating_add((field_cells - 1) as usize);
        if caret_col > viewport_end {
            self.view_col = caret_col - (field_cells - 1) as usize;
        }
    }

    /// The text of the cluster in column `col` (a space past the end).
    pub open spec fn cluster_at(&self, col: int) -> Seq<char> {
        if col >= self.end_column() {
            seq![' ']
        } else {
            let start = sum(self.clusters_view().take(col));
            self.text_view().subrange(start, start + self.clusters_view()[col])
        }
    }

    /// The text of the cluster in column `col` (a space past the end).
    fn cluster_text(&self, col: usize) -> (r: String)
        requires
            self.wf(),
        ensures
            r@ == self.cluster_at(col as int),
    {
        if col >= self.clusters.len() {
            let mut s = String::new();
            push_char(&mut s, ' ');
            assert(s@ =~= seq![' ']);
            return s;
        }
        let p = self.position_at_column(col);
        let total = self.chars.len();
        proof {
            lemma_sum_prefix_le(self.clusters@, col + 1);
            assert(self.clusters@.take(col + 1).drop_last() == self.clusters@.take(col as int));
            assert(p.character + self.clusters@[col as int] <= total);
        }
        let end = p.character + self.clusters[col];
        self.slice_chars(p.character, end)
    }
}


/// The char lengths of the grapheme clusters of `s`.
pub open spec fn cluster_lengths(s: Seq<char>) -> Seq<usize> {
    grapheme_clusters(s).map_values(|g: Seq<char>| g.len() as usize)
}

/// The cell column of char `c` of `s`, one cell per grapheme cluster: the
/// number of clusters that end at or before it, or of all of them from the
/// end of the text on.
pub open spec fn column_of_char(s: Seq<char>, c: int) -> int {
    if c >= s.len() { grapheme_clusters(s).len() as int } else { col_from(cluster_lengths(s), c) }
}

/// The char index where the cluster in cell column `col` of `s` starts, or
/// the length of `s` from the last column on.
pub open spec fn char_of_column(s: Seq<char>, col: int) -> int {
    if col >= grapheme_clusters(s).len() { s.len() as int } else { sum(cluster_lengths(s).take(col)) }
}

/// A well-formed state's cluster lengths are those of its text.
pub proof fn lemma_clusters_of_text(st: &TextInputState)
    requires
        st.wf(),
    ensures
        st.clusters_view() == cluster_lengths(st.text_view()),
{
    assert(st.clusters_view() =~= cluster_lengths(st.text_view()));
}

/// In every well-formed state (every state the editing operations reach),
/// the position of each char and of each column agrees with the text alone:
/// the byte offset is that of the chars before it, the column of a char is
/// [`column_of_char`] (as [`cell_column_for_char_index`] gives it) and the
/// char at a column is [`char_of_column`] (as [`char_index_from_cell_column`]
/// gives it).
pub proof fn lemma_positions_follow_text(st: &TextInputState)
    requires
        st.wf(),
    ensures
        forall|c: int| c >= 0 ==> (#[trigger] st.char_position(c)).0 == sat_byte_len(take_cells(st.text_view(), c))
            && st.char_position(c).2 == column_of_char(st.text_view(), c),
        forall|col: int| col >= 0 ==> (#[trigger] st.column_position(col)).1 == char_of_column(st.text_view(), col)
            && st.column_position(col).0 == sat_byte_len(take_cells(st.text_view(), st.column_position(col).1)),
{
    lemma_clusters_of_text(st);
    let t = st.text_view();
    assert(t.take(t.len() as int) =~= t);
    assert forall|col: int| col >= 0 implies (#[trigger] st.column_position(col)).1 == char_of_column(t, col)
        && st.column_position(col).0 == sat_byte_len(take_cells(t, st.column_position(col).1)) by {
        if col < st.end_column() {
            lemma_sum_prefix_le(st.clusters_view(), col);
        }
    }
}

/// Cluster lengths that are all 1 add up to their count.
proof fn lemma_sum_of_ones(cl: Seq<usize>, k: int)
    requires
        0 <= k <= cl.len(),
        forall|i: int| 0 <= i < cl.len() ==> #[trigger] cl[i] == 1,
    ensures
        sum(cl.take(k)) == k,
    decreases k,
{
    if k > 0 {
        lemma_sum_of_ones(cl, k - 1);
        assert(cl.take(k).drop_last() =~= cl.take(k - 1));
    }
}

/// With clusters of one char each, char `c` lies in column `c`.
proof fn lemma_col_from_ones(cl: Seq<usize>, c: int)
    requires
        0 <= c < cl.len(),
        forall|i: int| 0 <= i < cl.len() ==> #[trigger] cl[i] == 1,
    ensures
        col_from(cl, c) == c,
    decreases cl.len(),
{
    if c > 0 {
        let rest = cl.drop_first();
        assert forall|i: int| 0 <= i < rest.len() implies #[trigger] rest[i] == 1 by {
            assert(rest[i] == cl[i + 1]);
        }
        lemma_col_from_ones(rest, c - 1);
    }
}

/// In a text of printable ASCII every char is a column of its own: the
/// text takes as many columns as it has chars, char `c` lies in column `c`,
/// and column `col` starts at char `col` (both capped at the end of the
/// text). So a click or a drag at a column selects the char of that index.
pub proof fn lemma_printable_ascii_columns(st: &TextInputState)
    requires
        st.wf(),
        printable_ascii(st.text_view()),
    ensures
        st.end_column() == st.text_view().len(),
        forall|c: int| c >= 0 ==> (#[trigger] st.char_position(c)).2 == (if c < st.text_view().len() { c } else {
            st.text_view().len() as int }),
        forall|col: int| col >= 0 ==> (#[trigger] st.column_position(col)).1 == (if col < st.text_view().len() {
            col } else { st.text_view().len() as int }),
{
    let cl = st.clusters_view();
    lemma_clusters_of_text(st);
    assert(st.clusters_view() == st.clusters@);
    lemma_sum_of_ones(cl, cl.len() as int);
    assert(cl.take(cl.len() as int) =~= cl);
    assert forall|c: int| c >= 0 implies (#[trigger] st.char_position(c)).2 == (if c < st.text_view().len() { c }
        else { st.text_view().len() as int }) by {
        if c < st.text_view().len() {
            lemma_col_from_ones(cl, c);
        }
    }
    assert forall|col: int| col >= 0 implies (#[trigger] st.column_position(col)).1 == (if col
        < st.text_view().len() { col } else { st.text_view().len() as int }) by {
        if col < st.end_column() {
            lemma_sum_of_ones(cl, col);
        }
    }
}

/// The length in chars of each extended grapheme cluster of `s`, in order.
fn cluster_lengths_of(s: &str) -> (cl: Vec<usize>)
    ensures
        cl@.len() == grapheme_clusters(s@).len(),
        forall|i: int| 0 <= i < cl@.len() ==> #[trigger] cl@[i] == grapheme_clusters(s@)[i].len(),
        forall|i: int| 0 <= i < cl@.len() ==> #[trigger] cl@[i] > 0,
        sum(cl@) == s@.len(),
        cl@ == cluster_lengths(s@),
        printable_ascii(s@) ==> forall|i: int| 0 <= i < cl@.len() ==> #[trigger] cl@[i] == 1,
{
    let gs = extended_graphemes(s);
    let ghost gv = string_views(gs@);
    let mut cl: Vec<usize> = Vec::new();
    let mut i: usize = 0;
    while i < gs.len()
        invariant
            i <= gs@.len(),
            gv == string_views(gs@),
            gv.len() == gs@.len(),
            cl@.len() == i,
            forall|j: int| 0 <= j < i ==> #[trigger] cl@[j] == gv[j].len(),
            forall|j: int| 0 <= j < gs@.len() ==> (#[trigger] gs@[j])@.len() > 0,
            sum(cl@) == flatten(gv.take(i as int)).len(),
        decreases gs.len() - i,
    {
        let n = str_chars(gs[i].as_str()).len();
        assert(gv[i as int] == gs@[i as int]@);
        let ghost before = cl@;
        cl.push(n);
        assert(cl@.drop_last() =~= before);
        assert(gv.take(i + 1).drop_last() =~= gv.take(i as int));
        assert(gv.take(i + 1).last() == gv[i as int]);
        i = i + 1;
    }
    assert(gv.take(gs@.len() as int) =~= gv);
    assert forall|j: int| 0 <= j < cl@.len() implies #[trigger] cl@[j] > 0 by {
        assert(gv[j] == gs@[j]@);
    }
    assert forall|j: int| printable_ascii(s@) && 0 <= j < cl@.len() implies #[trigger] cl@[j] == 1 by {
        assert(gv[j] == gs@[j]@);
    }
    assert(cl@ =~= cluster_lengths(s@));
    cl
}

/// The cell column of char `char_idx` of `s` (truncated to `u16`).
pub fn cell_column_for_char_index(s: &str, char_idx: usize) -> (r: u16)
    ensures
        r == column_of_char(s@, char_idx as int) as u16,
{
    let cl = cluster_lengths_of(s);
    let len = str_chars(s).len();
    if char_idx >= len {
        return cl.len() as u16;
    }
    let ghost c = cl@;
    let mut k: usize = 0;
    let mut start: usize = 0;
    proof {
        assert(c.skip(0) == c);
    }
    loop
        invariant
            c == cl@,
            c == cluster_lengths(s@),
            sum(c) == s@.len(),
            len == s@.len(),
            char_idx < len,
            k <= c.len(),
            start == sum(c.take(k as int)),
            start <= char_idx,
            col_from(c, char_idx as int) == k + col_from(c.skip(k as int), char_idx - start),
        ensures
            col_from(c, char_idx as int) == k,
        decreases c.len() - k,
    {
        if k >= cl.len() {
            assert(c.skip(k as int).len() == 0);
            break;
        }
        proof {
            lemma_sum_prefix_le(c, k + 1);
            assert(c.take(k + 1).drop_last() == c.take(k as int));
            assert(c.skip(k as int)[0] == c[k as int]);
        }
        if start + cl[k] > char_idx {
            break;
        }
        proof {
            assert(c.skip(k as int).drop_first() == c.skip(k + 1));
        }
        start = start + cl[k];
        k = k + 1;
    }
    k as u16
}

/// The char index where cell column `column` of `s` starts.
pub fn char_index_from_cell_column(s: &str, column: u16) -> (r: usize)
    ensures
        r == char_of_column(s@, column as int),
{
    let cl = cluster_lengths_of(s);
    let len = str_chars(s).len();
    let col = column as usize;
    if col >= cl.len() {
        return len;
    }
    let ghost c = cl@;
    let mut k: usize = 0;
    let mut start: usize = 0;
    while k < col
        invariant
            c == cl@,
            c == cluster_lengths(s@),
            sum(c) == s@.len(),
            len == s@.len(),
            k <= col < c.len(),
            start == sum(c.take(k as int)),
        decreases col - k,
    {
        proof {
            lemma_sum_prefix_le(c, k + 1);
            assert(c.take(k + 1).drop_last() == c.take(k as int));
            assert(start + c[k as int] <= s@.len());
        }
        start = start + cl[k];
        k = k + 1;
    }
    start
}

/// `a - b` on `u16`, or 0.
pub open spec fn sat_sub16(a: u16, b: u16) -> int {
    if a >= b { a - b } else { 0 }
}

/// `a - b`, or 0.
pub open spec fn sat_sub(a: int, b: int) -> int {
    if a >= b { a - b } else { 0 }
}

/// `v` clamped into `[lo, hi]`.
pub open spec fn clamp_int(v: int, lo: int, hi: int) -> int {
    if v < lo { lo } else if v > hi { hi } else { v }
}

/// The first visible column after scrolling so that `caret` fits in a field
/// of `cells` cells that started at column `view`.
pub open spec fn scroll_to_caret(view: int, cells: int, caret: int) -> int {
    if cells == 0 {
        0
    } else if caret < view {
        caret
    } else if caret > view + cells - 1 {
        caret - (cells - 1)
    } else {
        view
    }
}

/// What a plain event does to the edit model, and whether it is consumed.
pub open spec fn plain_event_effect(m: EditModel, e: Event) -> (bool, EditModel) {
    match e {
        Event::Character(c) => (true, if is_control_spec(c) { m } else { type_text(m, seq![c]) }),
        Event::Paste(t) => (true, if t@.len() == 0 { m } else { type_text(m, t@) }),
        Event::Backspace => (true, backspace_model(m)),
        Event::Delete => (true, delete_forward_model(m)),
        Event::KeyLeft => (true, move_model(m, if m.1 > 0 { m.1 - 1 } else { 0 }, false)),
        Event::KeyRight => (true, move_model(m, if m.1 < m.0.len() { m.1 + 1 } else { m.0.len() as int }, false)),
        Event::Escape => (true, (m.0, m.1, None)),
        Event::Keybind(a) => match a {
            KeybindAction::SelectAll => (true, (m.0, m.0.len() as int, Some(0))),
            KeybindAction::Copy => (true, m),
            KeybindAction::Cut => (true, delete_sel(m)),
            KeybindAction::Paste => (true, m),
            KeybindAction::Other => (false, m),
        },
        _ => (false, m),
    }
}

/// What an event does to the edit model of a focused input, and whether it
/// is consumed.
pub open spec fn event_effect(m: EditModel, e: Event) -> (bool, EditModel) {
    match e {
        Event::KeyWithModifiers(k) => if k.mods.shift && k.key == KeyKind::Left {
            (true, move_model(m, if m.1 > 0 { m.1 - 1 } else { 0 }, true))
        } else if k.mods.shift && k.key == KeyKind::Right {
            (true, move_model(m, if m.1 < m.0.len() { m.1 + 1 } else { m.0.len() as int }, true))
        } else {
            match e.legacy_spec() {
                Some(l) => plain_event_effect(m, l),
                None => plain_event_effect(m, e),
            }
        },
        _ => plain_event_effect(m, e),
    }
}

/// The chars of a selection `[s, e)`, cut at the end of `t`.
pub open spec fn selected_text(t: Seq<char>, s: int, e: int) -> Seq<char> {
    t.subrange(s, if e <= t.len() { e } else { t.len() as int })
}

/// Delete removes the char at the caret and Backspace the char before it,
/// when nothing is selected: Delete at caret `c` leaves the chars before `c`
/// and those after `c + 1`, with the caret still at `c`; Backspace at `c`
/// leaves those before `c - 1` and from `c` on, with the caret at `c - 1`.
/// So Delete at `c` removes what Backspace removes at `c + 1`, and neither
/// touches any other char.
pub proof fn lemma_delete_and_backspace(t: Seq<char>, c: int)
    requires
        0 <= c < t.len(),
    ensures
        event_effect((t, c, None), Event::Delete) == (true, (t.take(c) + t.skip(c + 1), c, None::<int>)),
        event_effect((t, c + 1, None), Event::Backspace) == (true, (t.take(c) + t.skip(c + 1), c, None::<int>)),
        ({
            let d = event_effect((t, c, None), Event::Delete).1.0;
            &&& d.len() == t.len() - 1
            &&& forall|i: int| 0 <= i < c ==> d[i] == t[i]
            &&& forall|i: int| c <= i < d.len() ==> d[i] == t[i + 1]
        }),
{
    assert(sel_of(c, None) is None);
    assert(sel_of(c + 1, None) is None);
    assert((t.take(c + 1 - 1) + t.skip(c + 1)) =~= (t.take(c) + t.skip(c + 1)));
}

/// The other editing keys, with nothing selected at caret `c`: typing a
/// printable char puts it at the caret and moves the caret past it; Left
/// and Right move the caret one char (stopping at the ends) without
/// touching the text; pasting puts the pasted text at the caret. With a
/// selection `[s, e)`, Delete and Backspace remove exactly the selected
/// chars and leave the caret at `s`, and typing replaces them.
pub proof fn lemma_editing_keys(t: Seq<char>, c: int, ch: char, s: int, e: int)
    requires
        0 <= c <= t.len(),
        0 <= s < e <= t.len(),
        !is_control_spec(ch),
    ensures
        event_effect((t, c, None), Event::Character(ch)) == (true, (t.take(c) + seq![ch] + t.skip(c), c + 1, None::<int>)),
        event_effect((t, c, None), Event::KeyLeft) == (true, (t, if c > 0 { c - 1 } else { 0 }, None::<int>)),
        event_effect((t, c, None), Event::KeyRight) == (true, (t, if c < t.len() { c + 1 } else { c }, None::<int>)),
        event_effect((t, e, Some(s)), Event::Delete) == (true, (t.take(s) + t.skip(e), s, None::<int>)),
        event_effect((t, e, Some(s)), Event::Backspace) == (true, (t.take(s) + t.skip(e), s, None::<int>)),
        event_effect((t, s, Some(e)), Event::Character(ch)) == (true, (t.take(s) + seq![ch] + t.skip(e), s + 1,
            None::<int>)),
{
    assert(sel_of(c, None) is None);
    assert(sel_of(e, Some(s)) == Some((s, e)));
    assert(sel_of(s, Some(e)) == Some((s, e)));
    let d = t.take(s) + t.skip(e);
    assert(d.take(s) =~= t.take(s));
    assert(d.skip(s) =~= t.skip(e));
}

/// Prefix sums never exceed the whole sum (all entries are non-negative).
pub proof fn lemma_sum_prefix_le(cl: Seq<usize>, k: int)
    requires
        0 <= k <= cl.len(),
    ensures
        sum(cl.take(k)) <= sum(cl),
    decreases cl.len() - k,
{
    if k < cl.len() {
        lemma_sum_prefix_le(cl, k + 1);
        assert(cl.take(k + 1).drop_last() == cl.take(k));
    } else {
        assert(cl.take(k) == cl);
    }
}

/// A write: row, column, text and colors.
pub type InputWrite = (int, int, Seq<char>, Option<ColorPair>);

/// The first column drawn: the first visible one, or the end of the text.
pub open spec fn first_drawn_col(st: &TextInputState) -> int {
    if st.view_col_view() < st.end_column() { st.view_col_view() } else { st.end_column() }
}

/// The number of columns drawn in a field `cw` cells wide: from the first
/// drawn one up to the end of the text or of the field.
pub open spec fn drawn_col_count(st: &TextInputState, cw: u16) -> int {
    let ve = st.view_col_view() + cw;
    let ve = if ve > usize::MAX { usize::MAX as int } else { ve };
    let last = if st.end_column() < ve { st.end_column() } else { ve };
    sat_sub(last, first_drawn_col(st))
}

/// What column `col` shows: its cluster, a tab as a space.
pub open spec fn shown_cluster(st: &TextInputState, col: int) -> Seq<char> {
    let start = sum(st.clusters_view().take(col));
    if st.clusters_view()[col] == 1 && st.text_view()[start] == '\t' {
        seq![' ']
    } else {
        st.text_view().subrange(start, start + st.clusters_view()[col])
    }
}

/// Whether the cluster in column `col` overlaps the selection.
pub open spec fn col_selected(st: &TextInputState, col: int) -> bool {
    let start = sum(st.clusters_view().take(col));
    let end = start + st.clusters_view()[col];
    match st.selection_spec() {
        Some((b, e)) => b < end && e > start,
        None => false,
    }
}

impl TextInput {
    /// The runs of the first `k` drawn columns: finished runs as writes,
    /// then the text, column and colors of the run being built. A run is a
    /// stretch of columns in one color (selection or text), written at the
    /// column of its first cell.
    pub open spec fn run_fold(&self, st: &TextInputState, cx: u16, k: nat) -> (Seq<InputWrite>, Seq<char>, int, Option<ColorPair>)
        decreases k,
    {
        if k == 0 {
            (Seq::empty(), Seq::empty(), cx as int, None)
        } else {
            let prev = self.run_fold(st, cx, (k - 1) as nat);
            let col = first_drawn_col(st) + k - 1;
            let color = if col_selected(st, col) { self.selection_color } else { self.text_color };
            let offset = col - st.view_col_view();
            let dx = if offset > u16::MAX { u16::MAX as int } else if cx + offset > u16::MAX { u16::MAX as int } else { cx + offset };
            let piece = shown_cluster(st, col);
            if prev.3 == Some(color) {
                (prev.0, prev.1 + piece, prev.2, prev.3)
            } else {
                match prev.3 {
                    Some(rc) => (prev.0.push((st.geometry_view().1 as int, prev.2, prev.1, Some(rc))), piece, dx, Some(color)),
                    None => (prev.0, prev.1 + piece, dx, Some(color)),
                }
            }
        }
    }

    /// The writes of the visible text of a field from column `cx`, `cw`
    /// cells wide, on the state's last row: one per run of equal color.
    pub open spec fn run_writes(&self, st: &TextInputState, cx: u16, cw: u16) -> Seq<InputWrite> {
        let f = self.run_fold(st, cx, drawn_col_count(st, cw) as nat);
        match f.3 {
            Some(rc) => f.0.push((st.geometry_view().1 as int, f.2, f.1, Some(rc))),
            None => f.0,
        }
    }

    /// The column of the caret in a field from column `cx`, `cw` cells
    /// wide: its column after the first visible one, kept in the field.
    pub open spec fn caret_x(&self, st: &TextInputState, cx: int, cw: int) -> int {
        let off = self.caret_offset(st, cw);
        if cx + off > u16::MAX { u16::MAX as int } else { cx + off }
    }

    /// How far into the field the caret is: its column after the first
    /// visible one, at most the field's last cell.
    pub open spec fn caret_offset(&self, st: &TextInputState, cw: int) -> int {
        let caret_col = st.char_position(st.cursor_view()).2;
        let visible = sat_sub(caret_col, st.view_col_view());
        let limit = sat_sub(cw, 1);
        if visible < limit { visible } else { limit }
    }

    /// Everything the field writes for a state `st` whose view column has
    /// been brought to the caret: the brackets (with a border), a blank
    /// field, the text runs (or the placeholder, cut to the field, when the
    /// text is empty), and, while focused with a cursor color, the caret's
    /// cluster cut to the room left.
    pub open spec fn field_writes(&self, st: &TextInputState) -> Seq<InputWrite> {
        let y = self.y as int;
        let (cx, cw) = self.content_span();
        let brackets: Seq<InputWrite> = if self.show_border {
            seq![(y, self.x as int, seq!['['], Some(self.border_color)),
                (y, sat_add16(self.x as int, sat_sub(self.width as int, 1)), seq![']'], Some(self.border_color))]
        } else {
            Seq::empty()
        };
        let blank: Seq<InputWrite> = if cw > 0 { seq![(y, cx, repeat_char(' ', cw as nat), None)] } else { Seq::empty() };
        let body: Seq<InputWrite> = if st.text_view().len() > 0 {
            self.run_writes(st, cx as u16, cw as u16)
        } else {
            let ph = match self.placeholder { Some(p) => p@, None => Seq::empty() };
            seq![(y, cx, take_cells(ph, cw), Some(self.placeholder_color))]
        };
        let caret: Seq<InputWrite> = match self.cursor_color {
            Some(c) => if st.focused_view() {
                let caret_col = st.char_position(st.cursor_view()).2;
                let caret_x = self.caret_x(st, cx, cw);
                seq![(y, caret_x, take_cells(st.cluster_at(caret_col), sat_sub(cw, self.caret_offset(st, cw))), Some(c))]
            } else {
                Seq::empty()
            },
            None => Seq::empty(),
        };
        brackets + blank + body + caret
    }
}

/// A single-line text input field; its editing state lives in a
/// [`TextInputState`] passed to [`TextInput::draw`].
#[derive(Debug, Clone)]
pub struct TextInput {
    pub x: u16,
    pub y: u16,
    pub width: u16,
    pub placeholder: Option<String>,
    pub show_border: bool,
    pub text_color: ColorPair,
    pub placeholder_color: ColorPair,
    pub selection_color: ColorPair,
    pub border_color: ColorPair,
    pub cursor_color: Option<ColorPair>,
}

impl TextInput {
    /// A zero-width field at (0, 0) with the default colors.
    pub fn new() -> (r: Self)
        ensures
            r.x == 0 && r.y == 0 && r.width == 0,
            (r.placeholder is None),
            !r.show_border,
            r.text_color == (ColorPair { fg: Color::White, bg: Color::Transparent }),
            r.placeholder_color == (ColorPair { fg: Color::DarkGray, bg: Color::Transparent }),
            r.selection_color == (ColorPair { fg: Color::Black, bg: Color::LightBlue }),
            r.border_color == (ColorPair { fg: Color::LightGray, bg: Color::Transparent }),
            (r.cursor_color is None),
    {
        TextInput {
            x: 0,
            y: 0,
            width: 0,
            placeholder: None,
            show_border: false,
            text_color: ColorPair::new(Color::White, Color::Transparent),
            placeholder_color: ColorPair::new(Color::DarkGray, Color::Transparent),
            selection_color: ColorPair::new(Color::Black, Color::LightBlue),
            border_color: ColorPair::new(Color::LightGray, Color::Transparent),
            cursor_color: None,
        }
    }

    /// Places the field at `(x, y)`.
    pub fn with_position(self, x: u16, y: u16) -> (r: Self)
        ensures
            r == (TextInput { x, y, ..self }),
    {
        TextInput { x, y, ..self }
    }

    /// Sets the field width in cells (borders included).
    pub fn with_width(self, width: u16) -> (r: Self)
        ensures
            r == (TextInput { width, ..self }),
    {
        TextInput { width, ..self }
    }

    /// Sets the text shown while the input is empty.
    pub fn with_placeholder(self, placeholder: &str) -> (r: Self)
        ensures
            r.placeholder is Some && r.placeholder.unwrap()@ == placeholder@,
            r.x == self.x && r.y == self.y && r.width == self.width && r.show_border == self.show_border,
            r.text_color == self.text_color && r.placeholder_color == self.placeholder_color,
            r.selection_color == self.selection_color && r.border_color == self.border_color,
            r.cursor_color == self.cursor_color,
    {
        TextInput { placeholder: Some(crate::text::to_owned_string(placeholder)), ..self }
    }

    /// Shows or hides the `[` `]` border.
    pub fn with_border(self, border: bool) -> (r: Self)
        ensures
            r == (TextInput { show_border: border, ..self }),
    {
        TextInput { show_border: border, ..self }
    }

    /// Sets the text colors.
    pub fn with_text_color(self, colors: ColorPair) -> (r: Self)
        ensures
            r == (TextInput { text_color: colors, ..self }),
    {
        TextInput { text_color: colors, ..self }
    }

    /// Sets the placeholder colors.
    pub fn with_placeholder_color(self, colors: ColorPair) -> (r: Self)
        ensures
            r == (TextInput { placeholder_color: colors, ..self }),
    {
        TextInput { placeholder_color: colors, ..self }
    }

    /// Sets the colors of selected text.
    pub fn with_selection_color(self, colors: ColorPair) -> (r: Self)
        ensures
            r == (TextInput { selection_color: colors, ..self }),
    {
        TextInput { selection_color: colors, ..self }
    }

    /// Sets the border colors.
    pub fn with_border_color(self, colors: ColorPair) -> (r: Self)
        ensures
            r == (TextInput { border_color: colors, ..self }),
    {
        TextInput { border_color: colors, ..self }
    }

    /// Draws a block cursor cell in `colors` while focused.
    pub fn with_cursor_cell_color(self, colors: ColorPair) -> (r: Self)
        ensures
            r == (TextInput { cursor_color: Some(colors), ..self }),
    {
        TextInput { cursor_color: Some(colors), ..self }
    }

    /// The column where text starts and the number of cells available for it.
    pub open spec fn content_span(&self) -> (int, int) {
        if self.show_border {
            (if self.x + 1 > u16::MAX { u16::MAX as int } else { self.x + 1 }, sat_sub(self.width as int, 2))
        } else {
            (self.x as int, self.width as int)
        }
    }

    /// Draws the field and records its geometry in `state`; scrolls the state
    /// so the caret is visible and, while focused, requests the cursor at it
    /// (see [`TextInput::field_writes`]).
    pub fn draw(&self, window: &mut Canvas, state: &mut TextInputState) -> (r: Result<(), Error>)
        requires
            old(state).wf(),
        ensures
            r is Ok,
            final(state).wf(),
            final(state).model() == old(state).model(),
            final(state).focused_view() == old(state).focused_view(),
            final(state).geometry_view() == (self.x, self.y, self.width),
            final(state).clusters_view() == old(state).clusters_view(),
            self.width > 0 ==> final(state).view_col_view() == scroll_to_caret(old(state).view_col_view(),
                sat_sub(self.content_span().1, 1), old(state).char_position(old(state).cursor_view()).2),
            self.width == 0 ==> final(state).view_col_view() == old(state).view_col_view(),
            self.width == 0 ==> *final(window) == *old(window),
            self.width > 0 ==> final(window).ops_view() == old(window).ops_after_each(self.field_writes(final(state))),
            final(window).grows_from(old(window)),
            self.width > 0 && final(state).focused_view() ==> final(window).cursor_view() == Some(map_cursor_all(
                old(window).views_view(), CursorSpec {
                    x: self.caret_x(final(state), self.content_span().0, self.content_span().1) as u16,
                    y: self.y,
                    visible: true,
                })),
            !(self.width > 0 && final(state).focused_view()) ==> final(window).cursor_view() == old(window).cursor_view(),
    {
        state.last_x = self.x;
        state.last_y = self.y;
        state.last_w = self.width;
        if self.width == 0 {
            return Ok(());
        }
        let content_w = if self.show_border { self.width.saturating_sub(2) } else { self.width };
        let caret_col = state.position_at_character(state.cursor).column;
        state.ensure_cursor_visible(content_w.saturating_sub(1), caret_col);
        let (out, caret_x) = self.field_ops(state);
        window.emit(&out);
        if state.focused {
            window.request_cursor(CursorSpec { x: caret_x, y: self.y, visible: true });
        }
        Ok(())
    }

    /// The writes of the field for a state already scrolled to its caret,
    /// and the column of the caret (see [`TextInput::field_writes`]).
    fn field_ops(&self, state: &TextInputState) -> (r: (Vec<DrawOp>, u16))
        requires
            state.wf(),
            state.geometry_view().1 == self.y,
        ensures
            ops_views(r.0@) == self.field_writes(state),
            r.1 as int == self.caret_x(state, self.content_span().0, self.content_span().1),
    {
        let mut out: Vec<DrawOp> = Vec::new();
        assert(ops_views(out@) =~= Seq::<InputWrite>::empty());
        let (content_x, content_w) = if self.show_border {
            push_op(&mut out, self.y, self.x, char_string('['), Some(self.border_color));
            push_op(&mut out, self.y, self.x.saturating_add(self.width.saturating_sub(1)), char_string(']'),
                Some(self.border_color));
            (self.x.saturating_add(1), self.width.saturating_sub(2))
        } else {
            (self.x, self.width)
        };
        let ghost s1 = ops_views(out@);
        if content_w > 0 {
            push_op(&mut out, self.y, content_x, repeat_string(' ', content_w as usize), None);
        }
        let ghost s2 = ops_views(out@);
        let caret_col = state.position_at_character(state.cursor).column;
        if state.chars.len() > 0 {
            self.selection_ops(state, content_x, content_w, &mut out);
        } else {
            let clipped = match &self.placeholder {
                Some(p) => clip_to_cells(p.as_str(), content_w, TabPolicy::SingleCell),
                None => String::new(),
            };
            push_op(&mut out, self.y, content_x, clipped, Some(self.placeholder_color));
        }
        let ghost s3 = ops_views(out@);
        let caret_visible_col = caret_col.saturating_sub(state.view_col);
        let limit = content_w.saturating_sub(1);
        let caret_offset: u16 = if caret_visible_col < limit as usize { caret_visible_col as u16 } else { limit };
        let caret_x = content_x.saturating_add(caret_offset);
        if state.focused {
            if let Some(colors) = self.cursor_color {
                let g = state.cluster_text(caret_col);
                let clipped = clip_to_cells(g.as_str(), content_w.saturating_sub(caret_offset), TabPolicy::SingleCell);
                push_op(&mut out, self.y, caret_x, clipped, Some(colors));
            }
        }
        proof {
            let (cx, cw) = self.content_span();
            assert(cx == content_x && cw == content_w);
            assert(caret_offset == self.caret_offset(state, cw));
            assert(ops_views(out@) =~= self.field_writes(state));
        }
        (out, caret_x)
    }

    /// Appends the writes of the visible text, in runs of equal color, to
    /// `out` (see [`TextInput::run_writes`]).
    fn selection_ops(&self, state: &TextInputState, content_x: u16, content_w: u16, out: &mut Vec<DrawOp>)
        requires
            state.wf(),
        ensures
            ops_views(final(out)@) == ops_views(old(out)@) + self.run_writes(state, content_x, content_w),
    {
        let ghost base = ops_views(out@);
        let view_start = state.view_col;
        let view_end = view_start.saturating_add(content_w as usize);
        let selection = state.selection();
        let start_pos = state.position_at_column(view_start);
        let mut character = start_pos.character;
        let mut column = start_pos.column;
        let mut run = String::new();
        let mut run_start_x: u16 = content_x;
        let mut run_color: Option<ColorPair> = None;
        let n = state.clusters.len();
        let total = state.chars.len();
        let ghost c0 = column as int;
        proof {
            if view_start < n {
                lemma_sum_prefix_le(state.clusters@, view_start as int);
            }
            assert(state.clusters@.take(n as int) == state.clusters@);
            assert(c0 == first_drawn_col(state));
            assert(run@ =~= Seq::<char>::empty());
        }
        while column < n && column < view_end
            invariant
                state.wf(),
                c0 == first_drawn_col(state),
                c0 <= column <= n,
                column <= view_end,
                n == state.clusters@.len(),
                total == state.text@.len(),
                view_start == state.view_col,
                view_end as int == (if state.view_col + content_w > usize::MAX { usize::MAX as int } else {
                    state.view_col + content_w }),
                selection == (match state.selection_spec() { Some((b, e)) => Some((b as usize, e as usize)), None => None::<(usize, usize)> }),
                character == sum(state.clusters@.take(column as int)),
                character <= total,
                ops_views(out@) == base + self.run_fold(state, content_x, (column - c0) as nat).0,
                run@ == self.run_fold(state, content_x, (column - c0) as nat).1,
                run_start_x as int == self.run_fold(state, content_x, (column - c0) as nat).2,
                run_color == self.run_fold(state, content_x, (column - c0) as nat).3,
            decreases n - column,
        {
            proof {
                lemma_sum_prefix_le(state.clusters@, column + 1);
                assert(state.clusters@.take(column + 1).drop_last() == state.clusters@.take(column as int));
            }
            let len = state.clusters[column];
            let start_char = character;
            let start_col = column;
            character = character + len;
            column = column + 1;
            let selected = match selection {
                Some((b, e)) => b < character && e > start_char,
                None => false,
            };
            let colors = if selected { self.selection_color } else { self.text_color };
            let offset = start_col - view_start;
            let draw_x = if offset > 0xffff { 0xffffu16 } else { content_x.saturating_add(offset as u16) };
            let same = match run_color {
                Some(c) => c == colors,
                None => false,
            };
            let is_tab = len == 1 && state.chars[start_char] == '\t';
            let g = if is_tab {
                char_string(' ')
            } else {
                state.slice_chars(start_char, character)
            };
            if !same {
                if let Some(color) = run_color {
                    push_op(out, state.last_y, run_start_x, run, Some(color));
                    run = String::new();
                }
                run_start_x = draw_x;
                run_color = Some(colors);
            }
            crate::text::push_str(&mut run, g.as_str());
            proof {
                assert(g@ == shown_cluster(state, start_col as int));
                assert(selected == col_selected(state, start_col as int));
                assert(ops_views(out@) =~= base + self.run_fold(state, content_x, (column - c0) as nat).0);
                assert(run@ =~= self.run_fold(state, content_x, (column - c0) as nat).1);
            }
        }
        proof {
            assert(column - c0 == drawn_col_count(state, content_w));
        }
        if let Some(color) = run_color {
            push_op(out, state.last_y, run_start_x, run, Some(color));
        }
        proof {
            assert(ops_views(out@) =~= base + self.run_writes(state, content_x, content_w));
        }
    }
}

/// Typing a char and then pressing backspace gives back the text and the
/// caret, when nothing was selected.
pub proof fn lemma_type_then_backspace(m: EditModel, c: char)
    requires
        0 <= m.1 <= m.0.len(),
        sel_of(m.1, m.2) is None,
    ensures
        backspace_model(type_text(m, seq![c])).0 == m.0,
        backspace_model(type_text(m, seq![c])).1 == m.1,
{
    let t = type_text(m, seq![c]);
    assert(delete_sel(m) == m);
    assert(t.0 == m.0.take(m.1) + seq![c] + m.0.skip(m.1));
    if let Some((a, b)) = sel_of(t.1, t.2) {
        assert(a == m.1 && b == m.1 + 1);
    }
    assert(backspace_model(t).0 =~= m.0);
}

/// Selecting everything and typing replaces the whole text, the caret after
/// it.
pub proof fn lemma_select_all_then_type(t: Seq<char>, s: Seq<char>)
    ensures
        type_text((t, t.len() as int, Some(0int)), s).0 == s,
        type_text((t, t.len() as int, Some(0int)), s).1 == s.len(),
{
    let m = (t, t.len() as int, Some(0int));
    assert(delete_sel(m).0.take(0) + s + delete_sel(m).0.skip(0) =~= s);
}

/// Cutting the selection and typing what was cut puts the text back.
pub proof fn lemma_cut_then_paste(m: EditModel)
    requires
        0 <= m.1 <= m.0.len(),
        m.2 matches Some(a) && 0 <= a <= m.0.len(),
    ensures
        sel_of(m.1, m.2) matches Some((s, e)) ==> type_text(delete_sel(m), selected_text(m.0, s, e)).0 == m.0,
{
    if let Some((s, e)) = sel_of(m.1, m.2) {
        let d = delete_sel(m);
        assert(d.0 == m.0.take(s) + m.0.skip(e));
        assert(d.1 == s);
        assert(type_text(d, selected_text(m.0, s, e)).0 =~= m.0);
    }
}

/// The positions a state reports agree with the text-level measures: the
/// byte offset of a char with `byte_index_for_char_index`, its column with
/// `cell_column_for_char_index`, and the char a column starts at with
/// `char_index_from_cell_column`.
pub proof fn lemma_positions_agree(st: &TextInputState, c: int, col: int)
    requires
        st.wf(),
        c >= 0,
        col >= 0,
    ensures
        st.char_position(c).0 == sat_byte_len(take_cells(st.text_view(), c)),
        st.char_position(c).2 == column_of_char(st.text_view(), c),
        st.column_position(col).1 == char_of_column(st.text_view(), col),
        st.column_position(col).0 == sat_byte_len(take_cells(st.text_view(), st.column_position(col).1)),
{
    lemma_clusters_of_text(st);
    assert(st.text_view().take(st.text_view().len() as int) =~= st.text_view());
    if col < st.end_column() {
        lemma_sum_prefix_le(st.clusters_view(), col);
    }
}

} // verus!
