//! Line-oriented `key=value` text, as the prepared cache's META and index
//! files use it: lines split on `\n`, surrounding Unicode whitespace trimmed,
//! blank lines and `#` comments skipped, the key ending at the first `=`.
use vstd::prelude::*;
use crate::std_text::is_unicode_whitespace;

verus! {

/// The characters of `s`, in order.
pub fn chars_of(s: &str) -> (r: Vec<char>)
    ensures
        r@ == s@,
{
    let n = s.unicode_len();
    let mut out: Vec<char> = Vec::new();
    let mut i: usize = 0;
    while i < n
        invariant
            n == s@.len(),
            i <= n,
            out@ == s@.subrange(0, i as int),
        decreases n - i,
    {
        out.push(s.get_char(i));
        assert(out@ =~= s@.subrange(0, i + 1));
        i = i + 1;
    }
    assert(out@ =~= s@);
    out
}

/// `char::is_whitespace`: the Unicode `White_Space` characters.
pub fn char_is_whitespace(c: char) -> (r: bool)
    ensures
        r == is_unicode_whitespace(c),
{
    ('\u{9}' <= c && c <= '\u{d}') || c == ' ' || c == '\u{85}' || c == '\u{a0}' || c == '\u{1680}'
        || ('\u{2000}' <= c && c <= '\u{200a}') || c == '\u{2028}' || c == '\u{2029}'
        || c == '\u{202f}' || c == '\u{205f}' || c == '\u{3000}'
}

/// The first index in `lo..hi` that is not whitespace, or `hi`.
pub open spec fn trim_lo(s: Seq<char>, lo: int, hi: int) -> int
    decreases hi - lo,
{
    if lo < hi && is_unicode_whitespace(s[lo]) {
        trim_lo(s, lo + 1, hi)
    } else {
        lo
    }
}

/// One past the last index in `lo..hi` that is not whitespace, or `lo`.
pub open spec fn trim_hi(s: Seq<char>, lo: int, hi: int) -> int
    decreases hi - lo,
{
    if lo < hi && is_unicode_whitespace(s[hi - 1]) {
        trim_hi(s, lo, hi - 1)
    } else {
        hi
    }
}

/// The first index in `lo..hi` holding `c`, or `hi`.
pub open spec fn find_char(s: Seq<char>, lo: int, hi: int, c: char) -> int
    decreases hi - lo,
{
    if lo < hi && s[lo] != c {
        find_char(s, lo + 1, hi, c)
    } else {
        lo
    }
}

/// The key and value ranges of the line `ls..le`, if it holds an entry:
/// a trimmed line that is not blank, not a `#` comment, and has an `=`.
pub open spec fn line_entry(s: Seq<char>, ls: int, le: int) -> Option<(int, int, int, int)> {
    let a = trim_lo(s, ls, le);
    let b = trim_hi(s, a, le);
    if a == b || s[a] == '#' {
        None
    } else {
        let e = find_char(s, a, b, '=');
        if e == b {
            None
        } else {
            let ka = trim_lo(s, a, e);
            let kb = trim_hi(s, ka, e);
            let va = trim_lo(s, e + 1, b);
            let vb = trim_hi(s, va, b);
            Some((ka, kb, va, vb))
        }
    }
}

/// The entries of the lines from `start` on, as index ranges.
pub open spec fn entries_from(s: Seq<char>, start: int) -> Seq<(int, int, int, int)>
    decreases s.len() - start + 1,
{
    if start < 0 || start > s.len() {
        Seq::empty()
    } else {
        let nl = find_char(s, start, s.len() as int, '\n');
        proof {
            lemma_find_char_bounds(s, start, s.len() as int, '\n');
        }
        let here = match line_entry(s, start, nl) {
            Some(e) => seq![e],
            None => Seq::empty(),
        };
        if nl < s.len() {
            here + entries_from(s, nl + 1)
        } else {
            here
        }
    }
}

/// The `key=value` entries of a text, keys and values trimmed.
pub open spec fn kv_entries(s: Seq<char>) -> Seq<(Seq<char>, Seq<char>)> {
    entries_from(s, 0).map_values(
        |e: (int, int, int, int)| (s.subrange(e.0, e.1), s.subrange(e.2, e.3)),
    )
}

/// Trimming from the front stops within the range.
pub proof fn lemma_trim_lo_bounds(s: Seq<char>, lo: int, hi: int)
    requires
        lo <= hi,
    ensures
        lo <= trim_lo(s, lo, hi) <= hi,
    decreases hi - lo,
{
    if lo < hi && is_unicode_whitespace(s[lo]) {
        lemma_trim_lo_bounds(s, lo + 1, hi);
    }
}

/// Trimming from the back stops within the range.
pub proof fn lemma_trim_hi_bounds(s: Seq<char>, lo: int, hi: int)
    requires
        lo <= hi,
    ensures
        lo <= trim_hi(s, lo, hi) <= hi,
    decreases hi - lo,
{
    if lo < hi && is_unicode_whitespace(s[hi - 1]) {
        lemma_trim_hi_bounds(s, lo, hi - 1);
    }
}

/// A search for a character stops within the range, at that character if
/// before the end.
pub proof fn lemma_find_char_bounds(s: Seq<char>, lo: int, hi: int, c: char)
    requires
        lo <= hi,
    ensures
        lo <= find_char(s, lo, hi, c) <= hi,
        find_char(s, lo, hi, c) < hi ==> s[find_char(s, lo, hi, c)] == c,
    decreases hi - lo,
{
    if lo < hi && s[lo] != c {
        lemma_find_char_bounds(s, lo + 1, hi, c);
    }
}

// ---------------------------------------------------------------------------
// Reading a text in pieces: the entries of lines depend on those lines only.

/// `t` holds `s`'s characters of `lo..hi`, moved by `d`.
pub open spec fn agrees(s: Seq<char>, t: Seq<char>, lo: int, hi: int, d: int) -> bool {
    forall|i: int| lo <= i < hi ==> #[trigger] s[i] == t[i + d]
}

/// An entry's ranges moved by `d`.
pub open spec fn moved(e: (int, int, int, int), d: int) -> (int, int, int, int) {
    (e.0 + d, e.1 + d, e.2 + d, e.3 + d)
}

proof fn lemma_trim_lo_moved(s: Seq<char>, t: Seq<char>, lo: int, hi: int, d: int)
    requires
        lo <= hi,
        agrees(s, t, lo, hi, d),
    ensures
        trim_lo(t, lo + d, hi + d) == trim_lo(s, lo, hi) + d,
    decreases hi - lo,
{
    if lo < hi {
        assert(s[lo] == t[lo + d]);
        lemma_trim_lo_moved(s, t, lo + 1, hi, d);
    }
}

proof fn lemma_trim_hi_moved(s: Seq<char>, t: Seq<char>, lo: int, hi: int, d: int)
    requires
        lo <= hi,
        agrees(s, t, lo, hi, d),
    ensures
        trim_hi(t, lo + d, hi + d) == trim_hi(s, lo, hi) + d,
    decreases hi - lo,
{
    if lo < hi {
        assert(s[hi - 1] == t[hi - 1 + d]);
        lemma_trim_hi_moved(s, t, lo, hi - 1, d);
    }
}

proof fn lemma_find_char_moved(s: Seq<char>, t: Seq<char>, lo: int, hi: int, c: char, d: int)
    requires
        lo <= hi,
        agrees(s, t, lo, hi, d),
    ensures
        find_char(t, lo + d, hi + d, c) == find_char(s, lo, hi, c) + d,
    decreases hi - lo,
{
    if lo < hi {
        assert(s[lo] == t[lo + d]);
        lemma_find_char_moved(s, t, lo + 1, hi, c, d);
    }
}

/// A line's entry lies within the line: key before the `=`, value after it.
pub proof fn lemma_line_entry_bounds(s: Seq<char>, ls: int, le: int)
    requires
        ls <= le,
    ensures
        line_entry(s, ls, le) matches Some(e) ==> ls <= e.0 <= e.1 <= e.2 <= e.3 <= le,
{
    let a = trim_lo(s, ls, le);
    lemma_trim_lo_bounds(s, ls, le);
    let b = trim_hi(s, a, le);
    lemma_trim_hi_bounds(s, a, le);
    if !(a == b || s[a] == '#') {
        let e = find_char(s, a, b, '=');
        lemma_find_char_bounds(s, a, b, '=');
        if e != b {
            lemma_trim_lo_bounds(s, a, e);
            let ka = trim_lo(s, a, e);
            lemma_trim_hi_bounds(s, ka, e);
            lemma_trim_lo_bounds(s, e + 1, b);
            let va = trim_lo(s, e + 1, b);
            lemma_trim_hi_bounds(s, va, b);
        }
    }
}

/// A line reads the same wherever its characters stand.
proof fn lemma_line_entry_moved(s: Seq<char>, t: Seq<char>, ls: int, le: int, d: int)
    requires
        ls <= le,
        agrees(s, t, ls, le, d),
    ensures
        line_entry(t, ls + d, le + d) == match line_entry(s, ls, le) {
            Some(e) => Some(moved(e, d)),
            None => None::<(int, int, int, int)>,
        },
{
    let a = trim_lo(s, ls, le);
    lemma_trim_lo_moved(s, t, ls, le, d);
    lemma_trim_lo_bounds(s, ls, le);
    let b = trim_hi(s, a, le);
    lemma_trim_hi_moved(s, t, a, le, d);
    lemma_trim_hi_bounds(s, a, le);
    if a < b {
        assert(s[a] == t[a + d]);
    }
    if !(a == b || s[a] == '#') {
        let e = find_char(s, a, b, '=');
        lemma_find_char_moved(s, t, a, b, '=', d);
        lemma_find_char_bounds(s, a, b, '=');
        if e != b {
            lemma_trim_lo_moved(s, t, a, e, d);
            lemma_trim_lo_bounds(s, a, e);
            let ka = trim_lo(s, a, e);
            lemma_trim_hi_moved(s, t, ka, e, d);
            lemma_trim_lo_moved(s, t, e + 1, b, d);
            lemma_trim_lo_bounds(s, e + 1, b);
            let va = trim_lo(s, e + 1, b);
            lemma_trim_hi_moved(s, t, va, b, d);
        }
    }
}

/// The entries from `start` on lie within the text, in order of their
/// ranges.
pub proof fn lemma_entries_bounds(s: Seq<char>, start: int)
    requires
        0 <= start <= s.len(),
    ensures
        forall|i: int| 0 <= i < entries_from(s, start).len() ==> {
            let e = #[trigger] entries_from(s, start)[i];
            start <= e.0 <= e.1 <= e.2 <= e.3 <= s.len()
        },
    decreases s.len() - start + 1,
{
    let nl = find_char(s, start, s.len() as int, '\n');
    lemma_find_char_bounds(s, start, s.len() as int, '\n');
    lemma_line_entry_bounds(s, start, nl);
    let here = match line_entry(s, start, nl) {
        Some(e) => seq![e],
        None => Seq::empty(),
    };
    if nl < s.len() {
        lemma_entries_bounds(s, nl + 1);
        let rest = entries_from(s, nl + 1);
        assert(entries_from(s, start) == here + rest);
        assert forall|i: int| 0 <= i < entries_from(s, start).len() implies {
            let e = #[trigger] entries_from(s, start)[i];
            start <= e.0 <= e.1 <= e.2 <= e.3 <= s.len()
        } by {
            if i >= here.len() {
                assert(entries_from(s, start)[i] == rest[i - here.len()]);
            }
        }
    }
}

/// The entries of lines read the same wherever the lines stand.
proof fn lemma_entries_moved(s: Seq<char>, t: Seq<char>, j: int, d: int)
    requires
        0 <= j <= s.len(),
        0 <= d,
        t.len() == s.len() + d,
        agrees(s, t, j, s.len() as int, d),
    ensures
        entries_from(t, j + d) == entries_from(s, j).map_values(|e: (int, int, int, int)| moved(e, d)),
    decreases s.len() - j + 1,
{
    let n = s.len() as int;
    let nl = find_char(s, j, n, '\n');
    lemma_find_char_moved(s, t, j, n, '\n', d);
    lemma_find_char_bounds(s, j, n, '\n');
    assert(agrees(s, t, j, nl, d));
    lemma_line_entry_moved(s, t, j, nl, d);
    let here = match line_entry(s, j, nl) {
        Some(e) => seq![e],
        None => Seq::<(int, int, int, int)>::empty(),
    };
    let f = |e: (int, int, int, int)| moved(e, d);
    if nl < n {
        assert(agrees(s, t, nl + 1, n, d));
        lemma_entries_moved(s, t, nl + 1, d);
        assert((here + entries_from(s, nl + 1)).map_values(f) =~= here.map_values(f) + entries_from(s, nl + 1).map_values(f));
    } else {
        assert(here.map_values(f) =~= here.map_values(f));
    }
}

/// A search stops at the first occurrence of the character.
proof fn lemma_find_char_first(s: Seq<char>, lo: int, hi: int, c: char, k: int)
    requires
        lo <= k <= hi,
        k < hi ==> s[k] == c,
        forall|i: int| lo <= i < k ==> #[trigger] s[i] != c,
    ensures
        find_char(s, lo, hi, c) == k,
    decreases k - lo,
{
    if lo < k {
        lemma_find_char_first(s, lo + 1, hi, c, k);
    }
}

/// Lines are read one at a time: the entries of a line, a line break and
/// more text are the line's entries followed by the rest's.
pub proof fn lemma_kv_entries_split(a: Seq<char>, b: Seq<char>)
    requires
        forall|i: int| 0 <= i < a.len() ==> #[trigger] a[i] != '\n',
    ensures
        kv_entries(a + seq!['\n'] + b) == kv_entries(a) + kv_entries(b),
{
    let s = a + seq!['\n'] + b;
    let n = a.len() as int;
    let d = n + 1;
    assert(s[n] == '\n');
    assert forall|i: int| 0 <= i < n implies #[trigger] s[i] != '\n' by {
        assert(s[i] == a[i]);
    }
    lemma_find_char_first(s, 0, s.len() as int, '\n', n);
    lemma_find_char_first(a, 0, n, '\n', n);
    assert(agrees(a, s, 0, n, 0));
    lemma_line_entry_moved(a, s, 0, n, 0);
    lemma_line_entry_bounds(a, 0, n);
    assert forall|i: int| 0 <= i < b.len() implies #[trigger] b[i] == s[i + d] by {}
    assert(agrees(b, s, 0, b.len() as int, d));
    lemma_entries_moved(b, s, 0, d);
    lemma_entries_bounds(b, 0);
    let here_a = match line_entry(a, 0, n) {
        Some(e) => seq![e],
        None => Seq::<(int, int, int, int)>::empty(),
    };
    let here_s = match line_entry(s, 0, n) {
        Some(e) => seq![e],
        None => Seq::<(int, int, int, int)>::empty(),
    };
    let f = |e: (int, int, int, int)| moved(e, d);
    let rest = entries_from(b, 0);
    assert(entries_from(a, 0) == here_a);
    assert(entries_from(s, 0) == here_s + rest.map_values(f));
    let ks = kv_entries(s);
    let kab = kv_entries(a) + kv_entries(b);
    assert(ks.len() == kab.len());
    assert forall|i: int| 0 <= i < ks.len() implies ks[i] == kab[i] by {
        if i < here_a.len() {
            let e = here_a[i];
            assert(here_s[i] == e);
            assert(s.subrange(e.0, e.1) =~= a.subrange(e.0, e.1));
            assert(s.subrange(e.2, e.3) =~= a.subrange(e.2, e.3));
        } else {
            let j = i - here_a.len();
            let e = rest[j];
            assert(entries_from(s, 0)[i] == moved(e, d));
            assert(s.subrange(e.0 + d, e.1 + d) =~= b.subrange(e.0, e.1));
            assert(s.subrange(e.2 + d, e.3 + d) =~= b.subrange(e.2, e.3));
        }
    }
    assert(ks =~= kab);
}

/// Trimming from the back keeps a character that is not whitespace.
proof fn lemma_trim_hi_keeps(s: Seq<char>, lo: int, hi: int, m: int)
    requires
        lo <= m < hi,
        !is_unicode_whitespace(s[m]),
    ensures
        m + 1 <= trim_hi(s, lo, hi),
    decreases hi - lo,
{
    if hi - 1 > m {
        lemma_trim_hi_keeps(s, lo, hi - 1, m);
    }
}

/// A key made of lowercase letters and underscores.
pub open spec fn plain_key(k: Seq<char>) -> bool {
    &&& k.len() > 0
    &&& forall|i: int| 0 <= i < k.len() ==> ('a' <= #[trigger] k[i] && k[i] <= 'z') || k[i] == '_'
}

/// A `key=value` line with a plain key holds one entry under that key; a
/// value that is empty or has no whitespace at its ends reads back as
/// itself.
pub proof fn lemma_kv_entries_line(k: Seq<char>, v: Seq<char>)
    requires
        plain_key(k),
        forall|i: int| 0 <= i < v.len() ==> #[trigger] v[i] != '\n',
    ensures
        kv_entries(k + seq!['='] + v).len() == 1,
        kv_entries(k + seq!['='] + v)[0].0 == k,
        (v.len() == 0 || (!is_unicode_whitespace(v[0]) && !is_unicode_whitespace(v.last())))
            ==> kv_entries(k + seq!['='] + v)[0].1 == v,
{
    let s = k + seq!['='] + v;
    let n = k.len() as int;
    let len = s.len() as int;
    assert forall|i: int| 0 <= i < len implies #[trigger] s[i] != '\n' by {
        if i < n {
            assert(s[i] == k[i]);
        } else if i > n {
            assert(s[i] == v[i - n - 1]);
        }
    }
    lemma_find_char_first(s, 0, len, '\n', len);
    assert(s[0] == k[0]);
    assert(trim_lo(s, 0, len) == 0);
    assert(s[n] == '=');
    lemma_trim_hi_keeps(s, 0, len, n);
    let b = trim_hi(s, 0, len);
    lemma_trim_hi_bounds(s, 0, len);
    assert forall|i: int| 0 <= i < n implies #[trigger] s[i] != '=' by {
        assert(s[i] == k[i]);
    }
    lemma_find_char_first(s, 0, b, '=', n);
    assert(s[n - 1] == k[n - 1]);
    assert(trim_lo(s, 0, n) == 0);
    assert(trim_hi(s, 0, n) == n);
    assert(s.subrange(0, n) =~= k);
    let va = trim_lo(s, n + 1, b);
    let vb = trim_hi(s, va, b);
    if v.len() == 0 {
        assert(b == len);
        assert(s.subrange(va, vb) =~= v);
    } else if !is_unicode_whitespace(v[0]) && !is_unicode_whitespace(v.last()) {
        assert(s[len - 1] == v.last());
        assert(b == len);
        assert(s[n + 1] == v[0]);
        assert(va == n + 1);
        assert(vb == len);
        assert(s.subrange(va, vb) =~= v);
    }
}

fn trim_lo_exec(s: &Vec<char>, lo: usize, hi: usize) -> (r: usize)
    requires
        lo <= hi <= s@.len(),
    ensures
        r == trim_lo(s@, lo as int, hi as int),
{
    let mut i = lo;
    while i < hi && char_is_whitespace(s[i])
        invariant
            lo <= i <= hi <= s@.len(),
            trim_lo(s@, lo as int, hi as int) == trim_lo(s@, i as int, hi as int),
        decreases hi - i,
    {
        i = i + 1;
    }
    i
}

fn trim_hi_exec(s: &Vec<char>, lo: usize, hi: usize) -> (r: usize)
    requires
        lo <= hi <= s@.len(),
    ensures
        r == trim_hi(s@, lo as int, hi as int),
{
    let mut j = hi;
    while lo < j && char_is_whitespace(s[j - 1])
        invariant
            lo <= j <= hi <= s@.len(),
            trim_hi(s@, lo as int, hi as int) == trim_hi(s@, lo as int, j as int),
        decreases j - lo,
    {
        j = j - 1;
    }
    j
}

fn find_char_exec(s: &Vec<char>, lo: usize, hi: usize, c: char) -> (r: usize)
    requires
        lo <= hi <= s@.len(),
    ensures
        r == find_char(s@, lo as int, hi as int, c),
{
    let mut i = lo;
    while i < hi && s[i] != c
        invariant
            lo <= i <= hi <= s@.len(),
            find_char(s@, lo as int, hi as int, c) == find_char(s@, i as int, hi as int, c),
        decreases hi - i,
    {
        i = i + 1;
    }
    i
}

/// The `key=value` entries of `input`, in order, keys and values trimmed.
pub fn key_value_lines(input: &str) -> (r: Vec<(&str, &str)>)
    ensures
        r@.len() == kv_entries(input@).len(),
        forall|i: int|
            0 <= i < r@.len() ==> (#[trigger] r@[i]).0@ == kv_entries(input@)[i].0 && r@[i].1@
                == kv_entries(input@)[i].1,
{
    let chars = chars_of(input);
    let n = chars.len();
    let ghost s = input@;
    let mut out: Vec<(&str, &str)> = Vec::new();
    let mut start: usize = 0;
    let ghost mut done: Seq<(int, int, int, int)> = Seq::empty();
    loop
        invariant_except_break
            entries_from(s, 0) == done + entries_from(s, start as int),
        invariant
            chars@ == s,
            s == input@,
            n == s.len(),
            start <= n,
            out@.len() == done.len(),
            forall|i: int|
                0 <= i < done.len() ==> (#[trigger] out@[i]).0@ == s.subrange(done[i].0, done[i].1)
                    && out@[i].1@ == s.subrange(done[i].2, done[i].3),
            forall|i: int|
                0 <= i < done.len() ==> 0 <= (#[trigger] done[i]).0 <= done[i].1 <= n && 0 <= done[i].2
                    <= done[i].3 <= n,
        ensures
            done == entries_from(s, 0),
            out@.len() == done.len(),
            forall|i: int|
                0 <= i < done.len() ==> (#[trigger] out@[i]).0@ == s.subrange(done[i].0, done[i].1)
                    && out@[i].1@ == s.subrange(done[i].2, done[i].3),
        decreases n - start,
    {
        let nl = find_char_exec(&chars, start, n, '\n');
        proof {
            lemma_find_char_bounds(s, start as int, n as int, '\n');
        }
        let a = trim_lo_exec(&chars, start, nl);
        proof {
            lemma_trim_lo_bounds(s, start as int, nl as int);
        }
        let b = trim_hi_exec(&chars, a, nl);
        proof {
            lemma_trim_hi_bounds(s, a as int, nl as int);
        }
        let ghost here: Seq<(int, int, int, int)> = match line_entry(s, start as int, nl as int) {
            Some(e) => seq![e],
            None => Seq::empty(),
        };
        if a < b && chars[a] != '#' {
            let e = find_char_exec(&chars, a, b, '=');
            proof {
                lemma_find_char_bounds(s, a as int, b as int, '=');
            }
            if e < b {
                let ka = trim_lo_exec(&chars, a, e);
                proof {
                    lemma_trim_lo_bounds(s, a as int, e as int);
                }
                let kb = trim_hi_exec(&chars, ka, e);
                proof {
                    lemma_trim_hi_bounds(s, ka as int, e as int);
                }
                let va = trim_lo_exec(&chars, e + 1, b);
                proof {
                    lemma_trim_lo_bounds(s, e + 1, b as int);
                }
                let vb = trim_hi_exec(&chars, va, b);
                proof {
                    lemma_trim_hi_bounds(s, va as int, b as int);
                }
                let key = input.substring_char(ka, kb);
                let value = input.substring_char(va, vb);
                out.push((key, value));
                proof {
                    assert(here == seq![(ka as int, kb as int, va as int, vb as int)]);
                }
            } else {
                proof {
                    assert(here =~= Seq::<(int, int, int, int)>::empty());
                }
            }
        } else {
            proof {
                assert(here =~= Seq::<(int, int, int, int)>::empty());
            }
        }
        proof {
            let old_done = done;
            done = done + here;
            assert(entries_from(s, start as int) == if nl < n {
                here + entries_from(s, nl + 1)
            } else {
                here
            });
            if nl < n {
                assert(old_done + (here + entries_from(s, nl + 1)) =~= done + entries_from(s, nl + 1));
            } else {
                assert(old_done + here =~= done);
            }
            assert forall|i: int| 0 <= i < done.len() implies (#[trigger] out@[i]).0@ == s.subrange(
                done[i].0,
                done[i].1,
            ) && out@[i].1@ == s.subrange(done[i].2, done[i].3) by {
                if i < old_done.len() {
                    assert(done[i] == old_done[i]);
                }
            }
        }
        if nl < n {
            start = nl + 1;
        } else {
            proof {
                assert(done == entries_from(s, 0));
            }
            break;
        }
    }
    proof {
        assert forall|i: int| 0 <= i < out@.len() implies (#[trigger] out@[i]).0@ == kv_entries(
            input@,
        )[i].0 && out@[i].1@ == kv_entries(input@)[i].1 by {
            assert(kv_entries(input@)[i] == (s.subrange(done[i].0, done[i].1), s.subrange(
                done[i].2,
                done[i].3,
            )));
        }
    }
    out
}


/// The trimmed, non-blank lines from `start` on, as index ranges.
pub open spec fn nonblank_from(s: Seq<char>, start: int) -> Seq<(int, int)>
    decreases s.len() - start + 1,
{
    if start < 0 || start > s.len() {
        Seq::empty()
    } else {
        let nl = find_char(s, start, s.len() as int, '\n');
        proof {
            lemma_find_char_bounds(s, start, s.len() as int, '\n');
        }
        let a = trim_lo(s, start, nl);
        let b = trim_hi(s, a, nl);
        let here = if a < b { seq![(a, b)] } else { Seq::empty() };
        if nl < s.len() {
            here + nonblank_from(s, nl + 1)
        } else {
            here
        }
    }
}

/// The lines of a text, each trimmed, blank ones left out.
pub open spec fn trimmed_nonblank_lines(s: Seq<char>) -> Seq<Seq<char>> {
    nonblank_from(s, 0).map_values(|e: (int, int)| s.subrange(e.0, e.1))
}

/// The lines of `input`, each trimmed, blank ones left out, in order.
pub fn nonblank_lines(input: &str) -> (r: Vec<&str>)
    ensures
        r@.len() == trimmed_nonblank_lines(input@).len(),
        forall|i: int| 0 <= i < r@.len() ==> (#[trigger] r@[i])@ == trimmed_nonblank_lines(input@)[i],
{
    let chars = chars_of(input);
    let n = chars.len();
    let ghost s = input@;
    let mut out: Vec<&str> = Vec::new();
    let mut start: usize = 0;
    let ghost mut done: Seq<(int, int)> = Seq::empty();
    loop
        invariant_except_break
            nonblank_from(s, 0) == done + nonblank_from(s, start as int),
        invariant
            chars@ == s,
            s == input@,
            n == s.len(),
            start <= n,
            out@.len() == done.len(),
            forall|i: int| 0 <= i < done.len() ==> (#[trigger] out@[i])@ == s.subrange(done[i].0, done[i].1),
            forall|i: int| 0 <= i < done.len() ==> 0 <= (#[trigger] done[i]).0 <= done[i].1 <= n,
        ensures
            done == nonblank_from(s, 0),
            out@.len() == done.len(),
            forall|i: int| 0 <= i < done.len() ==> (#[trigger] out@[i])@ == s.subrange(done[i].0, done[i].1),
        decreases n - start,
    {
        let nl = find_char_exec(&chars, start, n, '\n');
        proof {
            lemma_find_char_bounds(s, start as int, n as int, '\n');
        }
        let a = trim_lo_exec(&chars, start, nl);
        proof {
            lemma_trim_lo_bounds(s, start as int, nl as int);
        }
        let b = trim_hi_exec(&chars, a, nl);
        proof {
            lemma_trim_hi_bounds(s, a as int, nl as int);
        }
        let ghost here: Seq<(int, int)> = if a < b { seq![(a as int, b as int)] } else { Seq::empty() };
        if a < b {
            out.push(input.substring_char(a, b));
        }
        proof {
            let old_done = done;
            done = done + here;
            if nl < n {
                assert(old_done + (here + nonblank_from(s, nl + 1)) =~= done + nonblank_from(s, nl + 1));
            } else {
                assert(old_done + here =~= done);
            }
            assert forall|i: int| 0 <= i < done.len() implies (#[trigger] out@[i])@ == s.subrange(
                done[i].0,
                done[i].1,
            ) by {
                if i < old_done.len() {
                    assert(done[i] == old_done[i]);
                }
            }
        }
        if nl < n {
            start = nl + 1;
        } else {
            break;
        }
    }
    proof {
        assert forall|i: int| 0 <= i < out@.len() implies (#[trigger] out@[i])@
            == trimmed_nonblank_lines(input@)[i] by {
            assert(trimmed_nonblank_lines(input@)[i] == s.subrange(done[i].0, done[i].1));
        }
    }
    out
}

} // verus!
