//! Text measurement and clipping in terminal cells.
//!
//! Every `char` occupies one terminal cell; a tab occupies one cell as well
//! (`TabPolicy::SingleCell`). Positions inside a string are counted in chars,
//! and byte offsets follow the UTF-8 encoding of those chars.

use vstd::prelude::*;
pub use crate::widgets::input::{cell_column_for_char_index, char_index_from_cell_column};

verus! {

broadcast use vstd::string::group_string_axioms;

/// How a tab character is measured.
#[derive(Debug, Clone, Copy, PartialEq, Eq, Structural)]
pub enum TabPolicy {
    /// A tab occupies a single cell.
    SingleCell,
}

/// The number of bytes in the UTF-8 encoding of `c`.
pub open spec fn spec_utf8_len(c: char) -> nat {
    if (c as u32) < 0x80 {
        1
    } else if (c as u32) < 0x800 {
        2
    } else if (c as u32) < 0x10000 {
        3
    } else {
        4
    }
}

/// The number of UTF-8 bytes needed for the chars of `s`.
pub open spec fn spec_byte_len(s: Seq<char>) -> nat
    decreases s.len(),
{
    if s.len() == 0 {
        0
    } else {
        spec_byte_len(s.drop_last()) + spec_utf8_len(s.last())
    }
}

/// The first `n` chars of `s` (all of `s` when it is shorter).
pub open spec fn take_cells(s: Seq<char>, n: int) -> Seq<char> {
    if s.len() <= n {
        s
    } else {
        s.take(n)
    }
}

/// `s` clipped to `n` cells, with a trailing ellipsis where chars were cut off.
pub open spec fn take_cells_ellipsis(s: Seq<char>, n: int) -> Seq<char> {
    if s.len() <= n {
        s
    } else if n <= 0 {
        Seq::empty()
    } else {
        s.take(n - 1).push('…')
    }
}

/// `n` copies of `c`.
pub open spec fn repeat_char(c: char, n: nat) -> Seq<char> {
    Seq::new(n, |_i: int| c)
}

/// The number of bytes in the UTF-8 encoding of `c`.
pub fn utf8_len(c: char) -> (r: usize)
    ensures
        r == spec_utf8_len(c),
        1 <= r <= 4,
{
    let v = c as u32;
    if v < 0x80 {
        1
    } else if v < 0x800 {
        2
    } else if v < 0x10000 {
        3
    } else {
        4
    }
}

/// `String::push`: appends `c` to `s`, so that its chars are those of `s`
/// followed by `c`.
#[verifier::external_body]
pub(crate) fn push_char(s: &mut String, c: char)
    ensures
        final(s)@ == old(s)@.push(c),
{
    s.push(c);
}

/// The chars of `s`, in order.
pub fn str_chars(s: &str) -> (r: Vec<char>)
    ensures
        r@ == s@,
{
    let mut out: Vec<char> = Vec::new();
    for c in it: s.chars()
        invariant
            it.seq() == s@,
            out@ == it.seq().take(it.index()),
    {
        out.push(c);
    }
    out
}

/// A one-char string.
pub fn char_string(c: char) -> (r: String)
    ensures
        r@ == seq![c],
{
    let mut s = String::new();
    push_char(&mut s, c);
    assert(s@ =~= seq![c]);
    s
}

/// A new `String` holding the chars of `cs`.
pub fn string_from_chars(cs: &[char]) -> (r: String)
    ensures
        r@ == cs@,
{
    let mut out = String::new();
    let mut i: usize = 0;
    while i < cs.len()
        invariant
            i <= cs@.len(),
            out@ == cs@.take(i as int),
        decreases cs.len() - i,
    {
        push_char(&mut out, cs[i]);
        assert(cs@.take(i + 1) == cs@.take(i as int).push(cs@[i as int]));
        i = i + 1;
    }
    assert(cs@.take(cs@.len() as int) == cs@);
    out
}

/// An owned copy of `s`.
pub fn to_owned_string(s: &str) -> (r: String)
    ensures
        r@ == s@,
{
    let cs = str_chars(s);
    string_from_chars(cs.as_slice())
}

/// A string of `n` copies of `c`.
pub fn repeat_string(c: char, n: usize) -> (r: String)
    ensures
        r@ == repeat_char(c, n as nat),
{
    let mut out = String::new();
    let mut i: usize = 0;
    while i < n
        invariant
            i <= n,
            out@ == repeat_char(c, i as nat),
        decreases n - i,
    {
        push_char(&mut out, c);
        assert(repeat_char(c, (i + 1) as nat) == repeat_char(c, i as nat).push(c));
        i = i + 1;
    }
    out
}

/// Appends the chars of `t` to `s`.
pub fn push_str(s: &mut String, t: &str)
    ensures
        final(s)@ == old(s)@ + t@,
{
    let cs = str_chars(t);
    let ghost start = s@;
    let mut i: usize = 0;
    while i < cs.len()
        invariant
            i <= cs@.len(),
            cs@ == t@,
            s@ == start + cs@.take(i as int),
        decreases cs.len() - i,
    {
        push_char(s, cs[i]);
        assert(cs@.take(i + 1) == cs@.take(i as int).push(cs@[i as int]));
        i = i + 1;
    }
    assert(cs@.take(cs@.len() as int) == cs@);
}

/// Width of `s` in terminal cells.
pub fn cell_width(s: &str, policy: TabPolicy) -> (r: usize)
    ensures
        r == s@.len(),
{
    let cs = str_chars(s);
    cs.len()
}

/// `s` clipped to at most `max_cells` cells.
pub fn clip_to_cells(s: &str, max_cells: u16, policy: TabPolicy) -> (r: String)
    ensures
        r@ == take_cells(s@, max_cells as int),
        r@.len() <= max_cells,
{
    let cs = str_chars(s);
    if cs.len() <= max_cells as usize {
        string_from_chars(cs.as_slice())
    } else {
        let mut out = String::new();
        let mut i: usize = 0;
        while i < max_cells as usize
            invariant
                i <= max_cells,
                max_cells < cs@.len(),
                out@ == cs@.take(i as int),
            decreases max_cells - i,
        {
            push_char(&mut out, cs[i]);
            assert(cs@.take(i + 1) == cs@.take(i as int).push(cs@[i as int]));
            i = i + 1;
        }
        out
    }
}

/// `s` clipped to at most `max_cells` cells; where chars are cut off the last
/// visible cell shows an ellipsis.
pub fn clip_to_cells_ellipsis(s: &str, max_cells: u16, policy: TabPolicy) -> (r: String)
    ensures
        r@ == take_cells_ellipsis(s@, max_cells as int),
        r@.len() <= max_cells,
{
    let cs = str_chars(s);
    if cs.len() <= max_cells as usize {
        string_from_chars(cs.as_slice())
    } else if max_cells == 0 {
        String::new()
    } else {
        let mut out = clip_to_cells(s, max_cells - 1, policy);
        push_char(&mut out, '…');
        out
    }
}

/// `s` made to fit in `max_cells` cells: clipped, with an ellipsis when
/// `ellipsis` is set and chars were cut off.
pub fn fit_to_cells(s: &str, max_cells: u16, policy: TabPolicy, ellipsis: bool) -> (r: String)
    ensures
        ellipsis ==> r@ == take_cells_ellipsis(s@, max_cells as int),
        !ellipsis ==> r@ == take_cells(s@, max_cells as int),
        r@.len() <= max_cells,
{
    if ellipsis {
        clip_to_cells_ellipsis(s, max_cells, policy)
    } else {
        clip_to_cells(s, max_cells, policy)
    }
}

/// The UTF-8 byte length of `s`, saturating at `usize::MAX`.
pub open spec fn sat_byte_len(s: Seq<char>) -> int {
    if spec_byte_len(s) > usize::MAX { usize::MAX as int } else { spec_byte_len(s) as int }
}

/// The UTF-8 byte length of `cs[..n]`, saturating at `usize::MAX`.
pub fn byte_len_prefix(cs: &[char], n: usize) -> (r: usize)
    requires
        n <= cs@.len(),
    ensures
        r == sat_byte_len(cs@.take(n as int)),
{
    let mut i: usize = 0;
    let mut b: usize = 0;
    while i < n
        invariant
            i <= n <= cs@.len(),
            b == sat_byte_len(cs@.take(i as int)),
        decreases n - i,
    {
        assert(cs@.take(i + 1).drop_last() == cs@.take(i as int));
        b = b.saturating_add(utf8_len(cs[i]));
        i = i + 1;
    }
    b
}

/// The byte offset in `s` of its char number `char_idx` (the byte length of
/// `s` when `char_idx` is past the end), saturating at `usize::MAX`.
pub fn byte_index_for_char_index(s: &str, char_idx: usize) -> (r: usize)
    ensures
        r == sat_byte_len(take_cells(s@, char_idx as int)),
{
    let cs = str_chars(s);
    if char_idx >= cs.len() {
        assert(cs@.take(cs@.len() as int) == cs@);
        byte_len_prefix(cs.as_slice(), cs.len())
    } else {
        byte_len_prefix(cs.as_slice(), char_idx)
    }
}

/// The byte length of a prefix never exceeds that of the whole.
pub proof fn lemma_byte_len_prefix_le(s: Seq<char>, n: int)
    requires
        0 <= n <= s.len(),
    ensures
        spec_byte_len(s.take(n)) <= spec_byte_len(s),
    decreases s.len() - n,
{
    if n < s.len() {
        lemma_byte_len_prefix_le(s, n + 1);
        assert(s.take(n + 1).drop_last() == s.take(n));
    } else {
        assert(s.take(n) == s);
    }
}

/// How many leading chars of `s`, counting on from `k`, fit in `n` bytes.
pub open spec fn fit_count(s: Seq<char>, n: int, k: int) -> int
    decreases s.len() - k,
{
    if 0 <= k < s.len() && spec_byte_len(s.take(k + 1)) <= n {
        fit_count(s, n, k + 1)
    } else {
        k
    }
}

/// The longest prefix of `s` whose UTF-8 encoding fits in `n` bytes: what a
/// byte-indexed slice `&s[..n]` keeps when `n` falls on a char boundary.
pub open spec fn byte_prefix(s: Seq<char>, n: int) -> Seq<char> {
    s.take(fit_count(s, n, 0))
}

/// `fit_count` stays within the string.
pub proof fn lemma_fit_count_bounds(s: Seq<char>, n: int, k: int)
    requires
        0 <= k <= s.len(),
    ensures
        k <= fit_count(s, n, k) <= s.len(),
    decreases s.len() - k,
{
    if k < s.len() && spec_byte_len(s.take(k + 1)) <= n {
        lemma_fit_count_bounds(s, n, k + 1);
    }
}

/// The longest prefix of `s` that fits in `n` bytes of UTF-8.
pub fn byte_prefix_string(s: &str, n: usize) -> (r: String)
    ensures
        r@ == byte_prefix(s@, n as int),
        spec_byte_len(r@) <= n,
{
    let cs = str_chars(s);
    let mut k: usize = 0;
    let mut b: usize = 0;
    while k < cs.len()
        invariant
            k <= cs@.len(),
            cs@ == s@,
            b == spec_byte_len(cs@.take(k as int)),
            b <= n,
            fit_count(s@, n as int, 0) == fit_count(s@, n as int, k as int),
        ensures
            k <= cs@.len(),
            cs@ == s@,
            fit_count(s@, n as int, 0) == fit_count(s@, n as int, k as int),
            k == cs@.len() || spec_byte_len(cs@.take(k + 1)) > n,
        decreases cs.len() - k,
    {
        assert(cs@.take(k + 1).drop_last() == cs@.take(k as int));
        let c = utf8_len(cs[k]);
        if c > n - b {
            assert(spec_byte_len(cs@.take(k + 1)) > n);
            break;
        }
        b = b + c;
        k = k + 1;
    }
    proof {
        lemma_fit_count_bounds(s@, n as int, k as int);
        if k == cs.len() {
            assert(fit_count(s@, n as int, k as int) == k);
        }
    }
    let mut out = String::new();
    let mut i: usize = 0;
    while i < k
        invariant
            i <= k <= cs@.len(),
            out@ == cs@.take(i as int),
        decreases k - i,
    {
        push_char(&mut out, cs[i]);
        assert(cs@.take(i + 1) == cs@.take(i as int).push(cs@[i as int]));
        i = i + 1;
    }
    out
}

} // verus!
