//! Splitting text into lines, words and fixed-width chunks, and greedy word
//! wrapping, over sequences of chars.

use vstd::prelude::*;
use crate::text::{spec_byte_len, sat_byte_len, byte_len_prefix};
use crate::widgets::input::flatten;

verus! {

/// Lines found so far and the line being read.
pub type SplitState = (Seq<Seq<char>>, Seq<char>);

/// Whether `c` has the Unicode `White_Space` property.
pub open spec fn is_ws_spec(c: char) -> bool {
    let v = c as u32;
    (0x09 <= v && v <= 0x0d) || v == 0x20 || v == 0x85 || v == 0xa0 || v == 0x1680 || (0x2000 <= v && v
        <= 0x200a) || v == 0x2028 || v == 0x2029 || v == 0x202f || v == 0x205f || v == 0x3000
}

/// Whether `c` has the Unicode `White_Space` property (as `char::is_whitespace`).
pub fn is_whitespace(c: char) -> (r: bool)
    ensures
        r == is_ws_spec(c),
{
    let v = c as u32;
    (0x09 <= v && v <= 0x0d) || v == 0x20 || v == 0x85 || v == 0xa0 || v == 0x1680 || (0x2000 <= v && v
        <= 0x200a) || v == 0x2028 || v == 0x2029 || v == 0x202f || v == 0x205f || v == 0x3000
}

/// `s` without one trailing carriage return.
pub open spec fn strip_cr(s: Seq<char>) -> Seq<char> {
    if s.len() > 0 && s.last() == '\r' { s.drop_last() } else { s }
}

/// Reading one char while splitting into lines: a newline ends the line
/// (dropping a carriage return just before it).
pub open spec fn line_step(st: SplitState, c: char) -> SplitState {
    if c == '\n' { (st.0.push(strip_cr(st.1)), Seq::empty()) } else { (st.0, st.1.push(c)) }
}

/// The state after reading `s` while splitting into lines.
pub open spec fn fold_lines(s: Seq<char>) -> SplitState {
    s.fold_left((Seq::<Seq<char>>::empty(), Seq::<char>::empty()), |st: SplitState, c: char| line_step(st, c))
}

/// The lines of `s` as `str::lines` gives them: split at `\n` or `\r\n`,
/// with no empty line after a final line ending.
pub open spec fn lines_spec(s: Seq<char>) -> Seq<Seq<char>> {
    let st = fold_lines(s);
    if st.1.len() > 0 { st.0.push(st.1) } else { st.0 }
}

/// Reading one char while splitting into words: whitespace ends a word.
pub open spec fn word_step(st: SplitState, c: char) -> SplitState {
    if is_ws_spec(c) {
        (if st.1.len() > 0 { st.0.push(st.1) } else { st.0 }, Seq::empty())
    } else {
        (st.0, st.1.push(c))
    }
}

/// The state after reading `s` while splitting into words.
pub open spec fn fold_words(s: Seq<char>) -> SplitState {
    s.fold_left((Seq::<Seq<char>>::empty(), Seq::<char>::empty()), |st: SplitState, c: char| word_step(st, c))
}

/// The maximal runs of non-whitespace chars of `s`, in order (as
/// `str::split_whitespace`).
pub open spec fn words_spec(s: Seq<char>) -> Seq<Seq<char>> {
    let st = fold_words(s);
    if st.1.len() > 0 { st.0.push(st.1) } else { st.0 }
}

/// Reading one char while cutting into chunks of `n` chars.
pub open spec fn chunk_step(st: SplitState, c: char, n: int) -> SplitState {
    if st.1.len() >= n { (st.0.push(st.1), seq![c]) } else { (st.0, st.1.push(c)) }
}

/// The state after reading `s` while cutting into chunks of `n` chars.
pub open spec fn fold_chunks(s: Seq<char>, n: int) -> SplitState {
    s.fold_left((Seq::<Seq<char>>::empty(), Seq::<char>::empty()), |st: SplitState, c: char| chunk_step(st, c, n))
}

/// `s` cut into consecutive chunks of `n` chars (the last may be shorter).
pub open spec fn chunks_spec(s: Seq<char>, n: int) -> Seq<Seq<char>> {
    let st = fold_chunks(s, n);
    if st.1.len() > 0 { st.0.push(st.1) } else { st.0 }
}

/// The views of a sequence of char vectors.
pub open spec fn char_vec_views(v: Seq<Vec<char>>) -> Seq<Seq<char>> {
    v.map_values(|x: Vec<char>| x@)
}

/// Splits `cs` as `str::lines` does.
pub fn split_lines(cs: &[char]) -> (r: Vec<Vec<char>>)
    ensures
        char_vec_views(r@) == lines_spec(cs@),
{
    let mut out: Vec<Vec<char>> = Vec::new();
    let mut cur: Vec<char> = Vec::new();
    let mut i: usize = 0;
    while i < cs.len()
        invariant
            i <= cs@.len(),
            (char_vec_views(out@), cur@) == fold_lines(cs@.take(i as int)),
        decreases cs.len() - i,
    {
        assert(cs@.take(i + 1).drop_last() == cs@.take(i as int));
        let c = cs[i];
        let ghost st = fold_lines(cs@.take(i as int));
        assert(fold_lines(cs@.take(i + 1)) == line_step(st, c));
        if c == '\n' {
            let mut line = cur;
            let n = line.len();
            if n > 0 && line[n - 1] == '\r' {
                let _ = line.pop();
                assert(line@ == cur@.drop_last());
            }
            let ghost before = out@;
            out.push(line);
            assert(char_vec_views(out@) =~= char_vec_views(before).push(line@));
            cur = Vec::new();
            assert(cur@ =~= Seq::<char>::empty());
        } else {
            cur.push(c);
        }
        i = i + 1;
    }
    assert(cs@.take(cs@.len() as int) == cs@);
    if cur.len() > 0 {
        let ghost before = out@;
        out.push(cur);
        assert(char_vec_views(out@) =~= char_vec_views(before).push(before_cur(cur@)));
    }
    out
}

/// `s`, unchanged (names the line being read in a proof).
pub open spec fn before_cur(s: Seq<char>) -> Seq<char> {
    s
}

/// Splits `cs` as `str::split_whitespace` does.
pub fn split_words(cs: &[char]) -> (r: Vec<Vec<char>>)
    ensures
        char_vec_views(r@) == words_spec(cs@),
{
    let mut out: Vec<Vec<char>> = Vec::new();
    let mut cur: Vec<char> = Vec::new();
    let mut i: usize = 0;
    while i < cs.len()
        invariant
            i <= cs@.len(),
            (char_vec_views(out@), cur@) == fold_words(cs@.take(i as int)),
        decreases cs.len() - i,
    {
        assert(cs@.take(i + 1).drop_last() == cs@.take(i as int));
        let c = cs[i];
        let ghost st = fold_words(cs@.take(i as int));
        assert(fold_words(cs@.take(i + 1)) == word_step(st, c));
        if is_whitespace(c) {
            if cur.len() > 0 {
                let ghost before = out@;
                let ghost word = cur@;
                out.push(cur);
                assert(char_vec_views(out@) =~= char_vec_views(before).push(word));
            }
            cur = Vec::new();
            assert(cur@ =~= Seq::<char>::empty());
        } else {
            cur.push(c);
        }
        i = i + 1;
    }
    assert(cs@.take(cs@.len() as int) == cs@);
    if cur.len() > 0 {
        let ghost before = out@;
        let ghost word = cur@;
        out.push(cur);
        assert(char_vec_views(out@) =~= char_vec_views(before).push(word));
    }
    out
}

/// Cuts `cs` into chunks of `n` chars (`n > 0`).
pub fn split_chunks(cs: &[char], n: usize) -> (r: Vec<Vec<char>>)
    requires
        n > 0,
    ensures
        char_vec_views(r@) == chunks_spec(cs@, n as int),
{
    let mut out: Vec<Vec<char>> = Vec::new();
    let mut cur: Vec<char> = Vec::new();
    let mut i: usize = 0;
    while i < cs.len()
        invariant
            i <= cs@.len(),
            (char_vec_views(out@), cur@) == fold_chunks(cs@.take(i as int), n as int),
        decreases cs.len() - i,
    {
        assert(cs@.take(i + 1).drop_last() == cs@.take(i as int));
        let c = cs[i];
        let ghost st = fold_chunks(cs@.take(i as int), n as int);
        assert(fold_chunks(cs@.take(i + 1), n as int) == chunk_step(st, c, n as int));
        if cur.len() >= n {
            let ghost before = out@;
            let ghost chunk = cur@;
            out.push(cur);
            assert(char_vec_views(out@) =~= char_vec_views(before).push(chunk));
            cur = Vec::new();
            cur.push(c);
            assert(cur@ =~= seq![c]);
        } else {
            cur.push(c);
        }
        i = i + 1;
    }
    assert(cs@.take(cs@.len() as int) == cs@);
    if cur.len() > 0 {
        let ghost before = out@;
        let ghost chunk = cur@;
        out.push(cur);
        assert(char_vec_views(out@) =~= char_vec_views(before).push(chunk));
    }
    out
}

/// Placing one word while wrapping greedily at `width` bytes: the word joins
/// the current line (after a space, unless the line is empty) when the line,
/// the word and one more byte fit (`tight`: when the line, a space if needed,
/// and the word fit); otherwise the current line, if any, is finished and
/// the word starts a new one.
pub open spec fn wrap_step(st: SplitState, w: Seq<char>, width: int, tight: bool) -> SplitState {
    let cur = spec_byte_len(st.1) as int;
    let wb = spec_byte_len(w) as int;
    let fits = if tight {
        (if st.1.len() == 0 { wb } else { cur + 1 + wb }) <= width
    } else {
        cur + wb + 1 <= width
    };
    if fits {
        (st.0, if st.1.len() > 0 { st.1.push(' ') + w } else { st.1 + w })
    } else {
        (if st.1.len() > 0 { st.0.push(st.1) } else { st.0 }, w)
    }
}

/// The state after placing `words`.
pub open spec fn fold_wrap(words: Seq<Seq<char>>, width: int, tight: bool) -> SplitState {
    words.fold_left((Seq::<Seq<char>>::empty(), Seq::<char>::empty()), |st: SplitState, w: Seq<char>| wrap_step(st, w, width, tight))
}

/// The lines of greedy word wrapping of `words` at `width` bytes.
pub open spec fn wrap_spec(words: Seq<Seq<char>>, width: int, tight: bool) -> Seq<Seq<char>> {
    let st = fold_wrap(words, width, tight);
    if st.1.len() > 0 { st.0.push(st.1) } else { st.0 }
}

/// Appends the chars of `w` to `v`.
pub fn extend_chars(v: &mut Vec<char>, w: &[char])
    ensures
        final(v)@ == old(v)@ + w@,
{
    let mut i: usize = 0;
    while i < w.len()
        invariant
            i <= w@.len(),
            v@ == old(v)@ + w@.take(i as int),
        decreases w.len() - i,
    {
        v.push(w[i]);
        assert(w@.take(i + 1) == w@.take(i as int).push(w@[i as int]));
        i = i + 1;
    }
    assert(w@.take(w@.len() as int) == w@);
}

/// Greedy word wrapping of `words` at `width` bytes.
pub fn wrap_words(words: &Vec<Vec<char>>, width: u16, tight: bool) -> (r: Vec<Vec<char>>)
    ensures
        char_vec_views(r@) == wrap_spec(char_vec_views(words@), width as int, tight),
{
    let ghost ws = char_vec_views(words@);
    let mut out: Vec<Vec<char>> = Vec::new();
    let mut cur: Vec<char> = Vec::new();
    let mut i: usize = 0;
    while i < words.len()
        invariant
            i <= words@.len(),
            ws == char_vec_views(words@),
            (char_vec_views(out@), cur@) == fold_wrap(ws.take(i as int), width as int, tight),
        decreases words.len() - i,
    {
        assert(ws.take(i + 1).drop_last() == ws.take(i as int));
        assert(ws.take(i + 1).last() == words@[i as int]@);
        let w = &words[i];
        let ghost st = fold_wrap(ws.take(i as int), width as int, tight);
        assert(fold_wrap(ws.take(i + 1), width as int, tight) == wrap_step(st, w@, width as int, tight));
        let cb = byte_len_prefix(cur.as_slice(), cur.len());
        let wb = byte_len_prefix(w.as_slice(), w.len());
        proof {
            assert(cur@.take(cur@.len() as int) == cur@);
            assert(w@.take(w@.len() as int) == w@);
        }
        let wd = width as usize;
        let fits = if tight {
            if cur.len() == 0 { wb <= wd } else { cb < wd && wb < wd && cb + 1 + wb <= wd }
        } else {
            cb < wd && wb < wd && cb + wb + 1 <= wd
        };
        if fits {
            if cur.len() > 0 {
                cur.push(' ');
            }
            extend_chars(&mut cur, w.as_slice());
        } else {
            if cur.len() > 0 {
                let ghost before = out@;
                let ghost line = cur@;
                out.push(cur);
                assert(char_vec_views(out@) =~= char_vec_views(before).push(line));
            }
            cur = Vec::new();
            extend_chars(&mut cur, w.as_slice());
            assert(cur@ =~= w@);
        }
        i = i + 1;
    }
    assert(ws.take(ws.len() as int) == ws);
    if cur.len() > 0 {
        let ghost before = out@;
        let ghost line = cur@;
        out.push(cur);
        assert(char_vec_views(out@) =~= char_vec_views(before).push(line));
    }
    out
}

/// The largest UTF-8 byte length among `lines` (0 for none), saturating.
pub open spec fn max_bytes(lines: Seq<Seq<char>>) -> int
    decreases lines.len(),
{
    if lines.len() == 0 {
        0
    } else {
        let prev = max_bytes(lines.drop_last());
        let b = sat_byte_len(lines.last());
        if b > prev { b } else { prev }
    }
}

/// The largest UTF-8 byte length among `lines` (0 for none), saturating.
pub fn max_line_bytes(lines: &Vec<Vec<char>>) -> (r: usize)
    ensures
        r == max_bytes(char_vec_views(lines@)),
{
    let ghost ls = char_vec_views(lines@);
    let mut m: usize = 0;
    let mut i: usize = 0;
    while i < lines.len()
        invariant
            i <= lines@.len(),
            ls == char_vec_views(lines@),
            m == max_bytes(ls.take(i as int)),
        decreases lines.len() - i,
    {
        assert(ls.take(i + 1).drop_last() == ls.take(i as int));
        assert(ls.take(i + 1).last() == lines@[i as int]@);
        let b = byte_len_prefix(lines[i].as_slice(), lines[i].len());
        assert(lines@[i as int]@.take(lines@[i as int]@.len() as int) == lines@[i as int]@);
        if b > m {
            m = b;
        }
        i = i + 1;
    }
    assert(ls.take(ls.len() as int) == ls);
    m
}

/// `lines` joined with a newline between each two.
pub open spec fn join_lines(lines: Seq<Seq<char>>) -> Seq<char>
    decreases lines.len(),
{
    if lines.len() == 0 {
        Seq::empty()
    } else if lines.len() == 1 {
        lines[0]
    } else {
        join_lines(lines.drop_last()).push('\n') + lines.last()
    }
}

/// `lines` joined with a newline between each two.
pub fn join_char_lines(lines: &Vec<Vec<char>>) -> (r: Vec<char>)
    ensures
        r@ == join_lines(char_vec_views(lines@)),
{
    let ghost ls = char_vec_views(lines@);
    let mut out: Vec<char> = Vec::new();
    let mut i: usize = 0;
    while i < lines.len()
        invariant
            i <= lines@.len(),
            ls == char_vec_views(lines@),
            out@ == join_lines(ls.take(i as int)),
        decreases lines.len() - i,
    {
        assert(ls.take(i + 1).drop_last() == ls.take(i as int));
        assert(ls.take(i + 1).last() == lines@[i as int]@);
        if i > 0 {
            out.push('\n');
        } else {
            assert(ls.take(1)[0] == lines@[0]@);
            assert(out@ + lines@[0]@ == lines@[0]@);
        }
        extend_chars(&mut out, lines[i].as_slice());
        i = i + 1;
    }
    assert(ls.take(ls.len() as int) == ls);
    out
}

/// What is known of the chunks read so far: they concatenate, with the
/// chunk being read, to what was read; the finished ones are full and the
/// current one is not over full (and not empty once something was read).
proof fn lemma_fold_chunks_inv(s: Seq<char>, n: int, k: int)
    requires
        n > 0,
        0 <= k <= s.len(),
    ensures
        flatten(fold_chunks(s.take(k), n).0) + fold_chunks(s.take(k), n).1 == s.take(k),
        forall|i: int| 0 <= i < fold_chunks(s.take(k), n).0.len() ==> (#[trigger] fold_chunks(s.take(k), n).0[i]).len() == n,
        fold_chunks(s.take(k), n).1.len() <= n,
        k > 0 ==> fold_chunks(s.take(k), n).1.len() > 0,
    decreases k,
{
    if k > 0 {
        lemma_fold_chunks_inv(s, n, k - 1);
        assert(s.take(k).drop_last() =~= s.take(k - 1));
        assert(s.take(k).last() == s[k - 1]);
        let prev = fold_chunks(s.take(k - 1), n);
        let cur = fold_chunks(s.take(k), n);
        assert(cur == chunk_step(prev, s[k - 1], n));
        if prev.1.len() >= n {
            assert(prev.0.push(prev.1).drop_last() =~= prev.0);
            assert(flatten(prev.0.push(prev.1)) == flatten(prev.0) + prev.1);
            assert(flatten(cur.0) + cur.1 =~= s.take(k));
        } else {
            assert(flatten(cur.0) + cur.1 =~= s.take(k));
        }
    } else {
        assert(s.take(0) =~= Seq::<char>::empty());
        assert(flatten(Seq::<Seq<char>>::empty()) =~= Seq::<char>::empty());
    }
}

/// Cutting a text into chunks loses and adds nothing: the chunks
/// concatenate back to the text, and each holds between 1 and `n` chars.
pub proof fn lemma_chunks_concat(s: Seq<char>, n: int)
    requires
        n > 0,
    ensures
        flatten(chunks_spec(s, n)) == s,
        forall|i: int| 0 <= i < chunks_spec(s, n).len() ==> 0 < (#[trigger] chunks_spec(s, n)[i]).len() <= n,
{
    lemma_fold_chunks_inv(s, n, s.len() as int);
    assert(s.take(s.len() as int) =~= s);
    let st = fold_chunks(s, n);
    if st.1.len() > 0 {
        assert(st.0.push(st.1).drop_last() =~= st.0);
        assert(flatten(st.0.push(st.1)) == flatten(st.0) + st.1);
    } else {
        assert(flatten(st.0) + st.1 =~= flatten(st.0));
    }
}

/// `ws` joined by single spaces.
pub open spec fn join_words(ws: Seq<Seq<char>>) -> Seq<char>
    decreases ws.len(),
{
    if ws.len() == 0 {
        Seq::empty()
    } else if ws.len() == 1 {
        ws[0]
    } else {
        join_words(ws.drop_last()) + seq![' '] + ws.last()
    }
}

/// The finished lines and the line being filled, as one list.
pub open spec fn wrap_lines_so_far(st: SplitState) -> Seq<Seq<char>> {
    if st.1.len() > 0 { st.0.push(st.1) } else { st.0 }
}

/// What is known of the lines placed so far: none is empty, the line being
/// filled is empty only before the first word, and joined by single spaces
/// they give the words read so far joined the same way.
proof fn lemma_fold_wrap_inv(ws: Seq<Seq<char>>, width: int, tight: bool, k: int)
    requires
        0 <= k <= ws.len(),
        forall|i: int| 0 <= i < ws.len() ==> (#[trigger] ws[i]).len() > 0,
    ensures
        join_words(wrap_lines_so_far(fold_wrap(ws.take(k), width, tight))) == join_words(ws.take(k)),
        forall|i: int| 0 <= i < fold_wrap(ws.take(k), width, tight).0.len() ==> (#[trigger] fold_wrap(ws.take(k),
            width, tight).0[i]).len() > 0,
        (fold_wrap(ws.take(k), width, tight).1.len() > 0) == (k > 0),
    decreases k,
{
    if k == 0 {
        assert(ws.take(0) =~= Seq::<Seq<char>>::empty());
    } else {
        lemma_fold_wrap_inv(ws, width, tight, k - 1);
        assert(ws.take(k).drop_last() =~= ws.take(k - 1));
        assert(ws.take(k).last() == ws[k - 1]);
        let prev = fold_wrap(ws.take(k - 1), width, tight);
        let cur = fold_wrap(ws.take(k), width, tight);
        let w = ws[k - 1];
        assert(cur == wrap_step(prev, w, width, tight));
        assert(w.len() > 0);
        if k == 1 {
            assert(prev.0.len() == 0 && prev.1.len() == 0);
            assert(cur.0 =~= Seq::<Seq<char>>::empty());
            assert(cur.1 =~= w);
            assert(wrap_lines_so_far(cur) =~= seq![w]);
            assert(ws.take(1) =~= seq![w]);
        } else {
            let l = prev.0;
            let c = prev.1;
            assert(c.len() > 0);
            assert(join_words(ws.take(k)) == join_words(ws.take(k - 1)) + seq![' '] + w);
            assert(join_words(ws.take(k - 1)) == join_words(l.push(c)));
            assert(l.push(c).drop_last() =~= l);
            if cur.0 == l {
                let c2 = c.push(' ') + w;
                assert(cur.1 == c2);
                assert(l.push(c2).drop_last() =~= l);
                if l.len() == 0 {
                    assert(join_words(l.push(c2)) == c2);
                    assert(join_words(l.push(c)) == c);
                    assert(c2 =~= c + seq![' '] + w);
                } else {
                    assert(join_words(l.push(c2)) == join_words(l) + seq![' '] + c2);
                    assert(join_words(l.push(c)) == join_words(l) + seq![' '] + c);
                    assert(join_words(l) + seq![' '] + c2 =~= join_words(l) + seq![' '] + c + seq![' '] + w);
                }
                assert forall|i: int| 0 <= i < cur.0.len() implies (#[trigger] cur.0[i]).len() > 0 by {
                    assert(cur.0[i] == prev.0[i]);
                }
            } else {
                assert(cur.0 == l.push(c));
                assert(cur.1 == w);
                let lc = l.push(c);
                assert(lc.push(w).drop_last() =~= lc);
                assert(join_words(lc.push(w)) == join_words(lc) + seq![' '] + w);
                assert forall|i: int| 0 <= i < cur.0.len() implies (#[trigger] cur.0[i]).len() > 0 by {
                    if i < l.len() {
                        assert(cur.0[i] == prev.0[i]);
                    }
                }
            }
        }
    }
}

/// Wrapping only chooses where lines break: no line is empty, and the
/// lines joined again by single spaces are the words joined by single
/// spaces, so every line is a run of consecutive words with one space
/// between each two, and no word is lost, added, reordered or split.
pub proof fn lemma_wrap_keeps_words(ws: Seq<Seq<char>>, width: int, tight: bool)
    requires
        forall|i: int| 0 <= i < ws.len() ==> (#[trigger] ws[i]).len() > 0,
    ensures
        join_words(wrap_spec(ws, width, tight)) == join_words(ws),
        forall|i: int| 0 <= i < wrap_spec(ws, width, tight).len() ==> (#[trigger] wrap_spec(ws, width, tight)[i]).len()
            > 0,
{
    lemma_fold_wrap_inv(ws, width, tight, ws.len() as int);
    assert(ws.take(ws.len() as int) =~= ws);
    let st = fold_wrap(ws, width, tight);
    assert(wrap_spec(ws, width, tight) == wrap_lines_so_far(st));
    assert forall|i: int| 0 <= i < wrap_spec(ws, width, tight).len() implies (#[trigger] wrap_spec(ws, width,
        tight)[i]).len() > 0 by {
        if i < st.0.len() {
            assert(wrap_spec(ws, width, tight)[i] == st.0[i]);
        }
    }
}

/// The words finished so far are never empty.
proof fn lemma_fold_words_nonempty(s: Seq<char>, k: int)
    requires
        0 <= k <= s.len(),
    ensures
        forall|i: int| 0 <= i < fold_words(s.take(k)).0.len() ==> (#[trigger] fold_words(s.take(k)).0[i]).len() > 0,
    decreases k,
{
    if k > 0 {
        lemma_fold_words_nonempty(s, k - 1);
        assert(s.take(k).drop_last() =~= s.take(k - 1));
        assert(s.take(k).last() == s[k - 1]);
        let prev = fold_words(s.take(k - 1));
        let cur = fold_words(s.take(k));
        assert(cur == word_step(prev, s[k - 1]));
        assert forall|i: int| 0 <= i < cur.0.len() implies (#[trigger] cur.0[i]).len() > 0 by {
            if i < prev.0.len() {
                assert(cur.0[i] == prev.0[i]);
            }
        }
    } else {
        assert(s.take(0) =~= Seq::<char>::empty());
    }
}

/// No word of a text is empty.
pub proof fn lemma_words_nonempty(s: Seq<char>)
    ensures
        forall|i: int| 0 <= i < words_spec(s).len() ==> (#[trigger] words_spec(s)[i]).len() > 0,
{
    lemma_fold_words_nonempty(s, s.len() as int);
    assert(s.take(s.len() as int) =~= s);
    let st = fold_words(s);
    assert forall|i: int| 0 <= i < words_spec(s).len() implies (#[trigger] words_spec(s)[i]).len() > 0 by {
        if i < st.0.len() {
            assert(words_spec(s)[i] == st.0[i]);
        }
    }
}

/// Word wrapping a text keeps its words and the single spaces between
/// them: the wrapped lines, none empty, joined by single spaces give the
/// text's words joined by single spaces.
pub proof fn lemma_word_wrap_text(s: Seq<char>, width: int, tight: bool)
    ensures
        join_words(wrap_spec(words_spec(s), width, tight)) == join_words(words_spec(s)),
        forall|i: int| 0 <= i < wrap_spec(words_spec(s), width, tight).len() ==> (#[trigger] wrap_spec(words_spec(s),
            width, tight)[i]).len() > 0,
{
    lemma_words_nonempty(s);
    lemma_wrap_keeps_words(words_spec(s), width, tight);
}

/// The byte length of two texts one after the other is the sum of theirs.
pub proof fn lemma_byte_len_concat(a: Seq<char>, b: Seq<char>)
    ensures
        spec_byte_len(a + b) == spec_byte_len(a) + spec_byte_len(b),
    decreases b.len(),
{
    if b.len() > 0 {
        lemma_byte_len_concat(a, b.drop_last());
        assert((a + b).drop_last() =~= a + b.drop_last());
        assert((a + b).last() == b.last());
    } else {
        assert(a + b =~= a);
    }
}

/// Whether `line` is one of the first `k` words or fits in `width` bytes.
pub open spec fn fits_or_word(line: Seq<char>, ws: Seq<Seq<char>>, k: int, width: int) -> bool {
    spec_byte_len(line) <= width || exists|j: int| 0 <= j < k && ws[j] == line
}

/// Every line placed so far is a single word or fits the width.
proof fn lemma_fold_wrap_fits(ws: Seq<Seq<char>>, width: int, tight: bool, k: int)
    requires
        0 <= k <= ws.len(),
    ensures
        forall|i: int| 0 <= i < fold_wrap(ws.take(k), width, tight).0.len() ==> fits_or_word(
            #[trigger] fold_wrap(ws.take(k), width, tight).0[i], ws, k, width),
        fold_wrap(ws.take(k), width, tight).1.len() > 0 ==> fits_or_word(fold_wrap(ws.take(k), width, tight).1, ws,
            k, width),
    decreases k,
{
    if k > 0 {
        lemma_fold_wrap_fits(ws, width, tight, k - 1);
        assert(ws.take(k).drop_last() =~= ws.take(k - 1));
        assert(ws.take(k).last() == ws[k - 1]);
        let prev = fold_wrap(ws.take(k - 1), width, tight);
        let cur = fold_wrap(ws.take(k), width, tight);
        let w = ws[k - 1];
        assert(cur == wrap_step(prev, w, width, tight));
        assert forall|line: Seq<char>| fits_or_word(line, ws, k - 1, width) implies #[trigger] fits_or_word(line,
            ws, k, width) by {
            if spec_byte_len(line) > width {
                let j = choose|j: int| 0 <= j < k - 1 && ws[j] == line;
                assert(0 <= j < k && ws[j] == line);
            }
        }
        assert(fits_or_word(w, ws, k, width)) by {
            assert(ws[k - 1] == w);
        }
        if cur.0 == prev.0 && prev.1.len() > 0 && cur.1 == prev.1.push(' ') + w {
            lemma_byte_len_concat(prev.1.push(' '), w);
            lemma_byte_len_concat(prev.1, seq![' ']);
            assert(prev.1.push(' ') =~= prev.1 + seq![' ']);
            assert(spec_byte_len(seq![' ']) == 1) by {
                assert(seq![' '].drop_last() =~= Seq::<char>::empty());
                assert(seq![' '].last() == ' ');
                assert((' ' as u32) < 0x80);
                assert(crate::text::spec_utf8_len(' ') == 1);
                assert(spec_byte_len(Seq::<char>::empty()) == 0);
            }
        }
        assert forall|i: int| 0 <= i < cur.0.len() implies fits_or_word(#[trigger] cur.0[i], ws, k, width) by {
            if i < prev.0.len() {
                assert(cur.0[i] == prev.0[i]);
                assert(fits_or_word(prev.0[i], ws, k - 1, width));
            } else {
                assert(cur.0[i] == prev.1);
                assert(fits_or_word(prev.1, ws, k - 1, width));
            }
        }
        if cur.1.len() > 0 && cur.1 != w {
            if prev.1.len() > 0 {
                assert(fits_or_word(cur.1, ws, k, width));
            } else {
                assert(cur.1 =~= w);
            }
        }
    } else {
        assert(ws.take(0) =~= Seq::<Seq<char>>::empty());
    }
}

/// Greedy wrapping keeps to the width: every line fits in `width` bytes,
/// unless it is a single word, which is never split.
pub proof fn lemma_wrap_fits_width(ws: Seq<Seq<char>>, width: int, tight: bool)
    ensures
        forall|i: int| 0 <= i < wrap_spec(ws, width, tight).len() ==> spec_byte_len(#[trigger] wrap_spec(ws, width,
            tight)[i]) <= width || exists|j: int| 0 <= j < ws.len() && ws[j] == wrap_spec(ws, width, tight)[i],
{
    lemma_fold_wrap_fits(ws, width, tight, ws.len() as int);
    assert(ws.take(ws.len() as int) =~= ws);
    let st = fold_wrap(ws, width, tight);
    assert forall|i: int| 0 <= i < wrap_spec(ws, width, tight).len() implies spec_byte_len(#[trigger] wrap_spec(ws,
        width, tight)[i]) <= width || exists|j: int| 0 <= j < ws.len() && ws[j] == wrap_spec(ws, width, tight)[i] by {
        let line = wrap_spec(ws, width, tight)[i];
        if i < st.0.len() {
            assert(line == st.0[i]);
        } else {
            assert(line == st.1);
        }
        assert(fits_or_word(line, ws, ws.len() as int, width));
    }
}

} // verus!
