//! The host-side builder of prepared caches: it splits book text into
//! script runs, lays shaped glyphs out into pages under the reader's
//! per-page budgets, and writes the VRUN pages and page-local VFNT fonts
//! that the reader loads, with their FAT 8.3 names and the book's folder id.
use vstd::prelude::*;
use vstd::string::StringSliceAdditionalSpecFns;
use vstd::utf8::encode_utf8;
use crate::key_value_text::chars_of;
use crate::prepared_cache::{
    PAGE_LOCAL_CAPACITY, FONT_DEVANAGARI, FONT_GUJARATI, FONT_LATIN, MAX_FONT_BYTES, MAX_GLYPHS,
    page_local_args_ok, page_local_args_valid, page_local_name_string, page_local_stem,
};
use crate::std_text::string_push;
use crate::le_bytes::{i16_bytes, le_i16, le_u16, le_u32, lemma_le_roundtrip, put_i16, put_u16, put_u32, u16_bytes, u32_bytes};
use crate::prepared_cache::{PreparedGlyphRecord, vrun_parse_spec, vrun_record_spec};

verus! {

pub const SCRIPT_LATIN: u16 = 1;
pub const SCRIPT_DEVANAGARI: u16 = 2;
pub const SCRIPT_GUJARATI: u16 = 3;
pub const VFNT_METRICS_LEN: usize = 16;
pub const VFNT_BITMAP_LEN: usize = 16;
pub const VFNT_ONE_BPP: u16 = 1;
pub const VRUN_RECORD_LEN: usize = 20;
pub const MAX_PAGE_GLYPHS: usize = 1024;
pub const MAX_PAGE_BYTES: usize = 24576;

/// Why building a prepared cache failed.
#[derive(Clone, Copy, Debug, PartialEq, Eq, Structural)]
pub enum PreparedGenError {
    InvalidPageLocalName,
    UnknownFontSlot(u32),
    GlyphCountOverflow,
    PageByteCountOverflow,
    FontByteCountOverflow,
    NoUsedGlyphs,
    VfntTruncated,
    VfntBadMagic,
    VfntBadVersion,
    VfntBadFormat,
    RangeOverflow,
    RangeOutside,
    ReadPastEnd,
    MissingGlyph(u32),
    UnknownFontReference(u32),
    ClusterTooLarge(u32),
    MissingGujaratiFont,
    NoGlyphs,
    TooManyPages(usize),
    PageGlyphLimit(usize, usize),
    PageByteLimit(usize, usize),
    FontByteLimit(usize, usize),
}

// ---------------------------------------------------------------------------
// Scripts

#[derive(Clone, Copy, Debug, PartialEq, Eq, Structural)]
pub enum ScriptKind {
    Latin,
    Devanagari,
    Gujarati,
}

/// Devanagari, Vedic extensions, Devanagari Extended and Extended-A.
pub open spec fn is_devanagari_spec(ch: char) -> bool {
    ('\u{0900}' <= ch && ch <= '\u{097F}') || ('\u{1CD0}' <= ch && ch <= '\u{1CFF}') || ('\u{A8E0}' <= ch
        && ch <= '\u{A8FF}') || ('\u{11B00}' <= ch && ch <= '\u{11B5F}')
}

pub open spec fn is_gujarati_spec(ch: char) -> bool {
    '\u{0A80}' <= ch && ch <= '\u{0AFF}'
}

/// The script a character is shaped with; everything that is neither
/// Devanagari nor Gujarati goes with Latin.
pub open spec fn script_of(ch: char) -> ScriptKind {
    if is_devanagari_spec(ch) {
        ScriptKind::Devanagari
    } else if is_gujarati_spec(ch) {
        ScriptKind::Gujarati
    } else {
        ScriptKind::Latin
    }
}

pub fn is_devanagari(ch: char) -> (r: bool)
    ensures
        r == is_devanagari_spec(ch),
{
    ('\u{0900}' <= ch && ch <= '\u{097F}') || ('\u{1CD0}' <= ch && ch <= '\u{1CFF}') || ('\u{A8E0}' <= ch
        && ch <= '\u{A8FF}') || ('\u{11B00}' <= ch && ch <= '\u{11B5F}')
}

pub fn is_gujarati(ch: char) -> (r: bool)
    ensures
        r == is_gujarati_spec(ch),
{
    '\u{0A80}' <= ch && ch <= '\u{0AFF}'
}

pub fn script_for_char(ch: char) -> (r: ScriptKind)
    ensures
        r == script_of(ch),
{
    if is_devanagari(ch) {
        ScriptKind::Devanagari
    } else if is_gujarati(ch) {
        ScriptKind::Gujarati
    } else {
        ScriptKind::Latin
    }
}

/// A stretch of text in one script.
#[derive(Clone, Debug)]
pub struct TextRun<'a> {
    pub script: ScriptKind,
    pub text: &'a str,
}

/// The end of the run that starts at `i`: the first later character of
/// another script, or the end of the text.
pub open spec fn run_end(s: Seq<char>, i: int, j: int) -> int
    decreases s.len() - j,
{
    if j < s.len() && script_of(s[j]) == script_of(s[i]) {
        run_end(s, i, j + 1)
    } else {
        j
    }
}

/// A script run ends within the text, and every character up to its end
/// has the run's script.
pub proof fn lemma_run_end_bounds(s: Seq<char>, i: int, j: int)
    requires
        0 <= i < j <= s.len(),
    ensures
        j <= run_end(s, i, j) <= s.len(),
        forall|k: int| i <= k < run_end(s, i, j) && j <= k ==> script_of(#[trigger] s[k]) == script_of(s[i]),
    decreases s.len() - j,
{
    if j < s.len() && script_of(s[j]) == script_of(s[i]) {
        lemma_run_end_bounds(s, i, j + 1);
    }
}

/// The script of a character is decided by its Unicode block: the whole
/// Gujarati block U+0A80..U+0AFF (letters, vowel signs, marks and digits)
/// is Gujarati; the Devanagari block, Vedic Extensions, Devanagari Extended
/// and Devanagari Extended-A are Devanagari; every other character is Latin.
pub proof fn lemma_script_blocks(c: char)
    ensures
        ('\u{0A80}' <= c && c <= '\u{0AFF}') ==> script_of(c) == ScriptKind::Gujarati,
        (('\u{0900}' <= c && c <= '\u{097F}') || ('\u{1CD0}' <= c && c <= '\u{1CFF}')
            || ('\u{A8E0}' <= c && c <= '\u{A8FF}') || ('\u{11B00}' <= c && c <= '\u{11B5F}'))
            ==> script_of(c) == ScriptKind::Devanagari,
        !('\u{0A80}' <= c && c <= '\u{0AFF}') && !('\u{0900}' <= c && c <= '\u{097F}')
            && !('\u{1CD0}' <= c && c <= '\u{1CFF}') && !('\u{A8E0}' <= c && c <= '\u{A8FF}')
            && !('\u{11B00}' <= c && c <= '\u{11B5F}') ==> script_of(c) == ScriptKind::Latin,
{
}

proof fn lemma_run_end_uniform(s: Seq<char>, i: int, j: int)
    requires
        0 <= i < j <= s.len(),
        forall|k: int| 0 <= k < s.len() ==> script_of(#[trigger] s[k]) == script_of(s[i]),
    ensures
        run_end(s, i, j) == s.len(),
    decreases s.len() - j,
{
    if j < s.len() {
        lemma_run_end_uniform(s, i, j + 1);
    }
}

/// Text all in one script is one run: it is not cut anywhere.
pub proof fn lemma_single_script_one_run(s: Seq<char>)
    requires
        s.len() > 0,
        forall|k: int| 0 <= k < s.len() ==> script_of(#[trigger] s[k]) == script_of(s[0]),
    ensures
        runs_from(s, 0) == seq![(0int, s.len() as int)],
{
    lemma_run_end_uniform(s, 0, 1);
    assert(runs_from(s, s.len() as int) =~= Seq::<(int, int)>::empty());
    assert(runs_from(s, 0) =~= seq![(0int, s.len() as int)]);
}

/// Text drawn only from the Gujarati block, vowel signs and marks
/// included, is one Gujarati run covering the whole text.
pub proof fn lemma_gujarati_text_one_run(s: Seq<char>)
    requires
        s.len() > 0,
        forall|k: int| 0 <= k < s.len() ==> '\u{0A80}' <= #[trigger] s[k] && s[k] <= '\u{0AFF}',
    ensures
        runs_from(s, 0) == seq![(0int, s.len() as int)],
        script_of(s[0]) == ScriptKind::Gujarati,
{
    assert forall|k: int| 0 <= k < s.len() implies script_of(#[trigger] s[k]) == script_of(s[0]) by {
        lemma_script_blocks(s[k]);
        lemma_script_blocks(s[0]);
    }
    lemma_single_script_one_run(s);
}

/// The maximal single-script runs of the text from `start` on, as ranges.
pub open spec fn runs_from(s: Seq<char>, start: int) -> Seq<(int, int)>
    decreases s.len() - start,
{
    if start < 0 || start >= s.len() {
        Seq::empty()
    } else {
        let e = run_end(s, start, start + 1);
        proof {
            lemma_run_end_bounds(s, start, start + 1);
        }
        seq![(start, e)] + runs_from(s, e)
    }
}

/// Splits text into maximal runs of one script, in order.
pub fn split_script_runs(input: &str) -> (r: Vec<TextRun<'_>>)
    ensures
        r@.len() == runs_from(input@, 0).len(),
        forall|i: int| 0 <= i < r@.len() ==> {
            let (a, b) = runs_from(input@, 0)[i];
            &&& (#[trigger] r@[i]).text@ == input@.subrange(a, b)
            &&& r@[i].script == script_of(input@[a])
        },
{
    let chars = chars_of(input);
    let n = chars.len();
    let ghost s = input@;
    let mut runs: Vec<TextRun<'_>> = Vec::new();
    let mut start: usize = 0;
    let ghost mut done: Seq<(int, int)> = Seq::empty();
    while start < n
        invariant
            chars@ == s,
            s == input@,
            n == s.len(),
            start <= n,
            runs_from(s, 0) == done + runs_from(s, start as int),
            runs@.len() == done.len(),
            forall|i: int| 0 <= i < done.len() ==> {
                let (a, b) = done[i];
                &&& 0 <= a < b <= n
                &&& (#[trigger] runs@[i]).text@ == s.subrange(a, b)
                &&& runs@[i].script == script_of(s[a])
            },
        decreases n - start,
    {
        let script = script_for_char(chars[start]);
        let mut end = start + 1;
        while end < n && script_for_char(chars[end]) == script
            invariant
                chars@ == s,
                n == s.len(),
                start < end <= n,
                script == script_of(s[start as int]),
                run_end(s, start as int, start + 1) == run_end(s, start as int, end as int),
            decreases n - end,
        {
            end = end + 1;
        }
        proof {
            lemma_run_end_bounds(s, start as int, start + 1);
        }
        runs.push(TextRun { script, text: input.substring_char(start, end) });
        proof {
            let old_done = done;
            done = done.push((start as int, end as int));
            assert(runs_from(s, start as int) == seq![(start as int, end as int)] + runs_from(s, end as int));
            assert(old_done + (seq![(start as int, end as int)] + runs_from(s, end as int)) =~= done + runs_from(s, end as int));
            assert forall|i: int| 0 <= i < done.len() implies {
                let (a, b) = done[i];
                &&& 0 <= a < b <= n
                &&& (#[trigger] runs@[i]).text@ == s.subrange(a, b)
                &&& runs@[i].script == script_of(s[a])
            } by {
                if i < old_done.len() {
                    assert(done[i] == old_done[i]);
                }
            }
        }
        start = end;
    }
    assert(done + runs_from(s, start as int) =~= done);
    runs
}

// ---------------------------------------------------------------------------
// Names

/// The generator's page-local file name: the same FAT 8.3 name the reader
/// looks for; unusable arguments are `InvalidPageLocalName`.
pub fn page_local_file_name(prefix: char, page: usize, extension: &str) -> (r: Result<String, PreparedGenError>)
    ensures
        if page_local_args_ok(prefix, page as int, extension) {
            r matches Ok(s) && s@ == page_local_stem(prefix, page as int, extension)
        } else {
            r matches Err(e) && e == PreparedGenError::InvalidPageLocalName
        },
{
    if !page_local_args_valid(prefix, page, extension) {
        return Err(PreparedGenError::InvalidPageLocalName);
    }
    Ok(page_local_name_string(prefix, page, extension))
}

/// What `char::to_lowercase` yields for a character: Unicode's lowercase
/// mapping, which may be several characters.
pub uninterp spec fn char_lowercase(c: char) -> Seq<char>;

/// The ASCII lowercase of `c`: `A` to `Z` become `a` to `z`, every other
/// character stays.
pub open spec fn ascii_lower(c: char) -> char {
    if 'A' <= c && c <= 'Z' {
        ((c as u32) + 32) as char
    } else {
        c
    }
}

/// `char::to_lowercase`, collected: the characters of `c`'s Unicode
/// lowercase mapping, named `char_lowercase` here and not restated beyond
/// what std documents for ASCII, where the mapping is the one character
/// `c.to_ascii_lowercase()`.
#[verifier::external_body]
fn char_to_lowercase(c: char) -> (r: Vec<char>)
    ensures
        r@ == char_lowercase(c),
        (c as u32) < 128 ==> r@ == seq![ascii_lower(c)],
{
    c.to_lowercase().collect()
}

/// The path with backslashes made forward slashes and lowercased.
pub open spec fn normalized_path_spec(s: Seq<char>) -> Seq<char>
    decreases s.len(),
{
    if s.len() == 0 {
        Seq::empty()
    } else {
        normalized_path_spec(s.drop_last()) + char_lowercase(if s.last() == '\\' { '/' } else { s.last() })
    }
}

/// Every character of `s` is ASCII.
pub open spec fn all_ascii(s: Seq<char>) -> bool {
    forall|i: int| 0 <= i < s.len() ==> (s[i] as u32) < 128
}

/// The normalized key of an ASCII path: backslashes made forward slashes,
/// `A` to `Z` lowercased, one character for one.
pub open spec fn ascii_path_key(s: Seq<char>) -> Seq<char> {
    s.map_values(|c: char| ascii_lower(if c == '\\' { '/' } else { c }))
}

/// Two ASCII paths that differ only in letter case and in the direction of
/// their slashes have the same normalized key, and so the same cache folder.
pub proof fn lemma_ascii_path_key_ignores_case(p: Seq<char>, q: Seq<char>)
    requires
        p.len() == q.len(),
        forall|i: int| 0 <= i < p.len() ==> ascii_lower(if p[i] == '\\' { '/' } else { p[i] })
            == ascii_lower(if q[i] == '\\' { '/' } else { q[i] }),
    ensures
        ascii_path_key(p) == ascii_path_key(q),
{
    assert(ascii_path_key(p) =~= ascii_path_key(q));
}

pub fn normalized_path_key(path: &str) -> (r: String)
    ensures
        r@ == normalized_path_spec(path@),
        all_ascii(path@) ==> r@ == ascii_path_key(path@),
{
    let chars = chars_of(path);
    let mut out = String::new();
    let mut i: usize = 0;
    while i < chars.len()
        invariant
            chars@ == path@,
            i <= chars@.len(),
            out@ == normalized_path_spec(path@.take(i as int)),
            all_ascii(path@) ==> out@ == ascii_path_key(path@.take(i as int)),
        decreases chars@.len() - i,
    {
        let c = if chars[i] == '\\' { '/' } else { chars[i] };
        let lower = char_to_lowercase(c);
        let ghost ascii_before = out@;
        let ghost before = out@;
        let mut j: usize = 0;
        while j < lower.len()
            invariant
                j <= lower@.len(),
                out@ == before + lower@.take(j as int),
            decreases lower@.len() - j,
        {
            string_push(&mut out, lower[j]);
            assert(before + lower@.take(j + 1) =~= (before + lower@.take(j as int)).push(lower@[j as int]));
            j = j + 1;
        }
        proof {
            assert(lower@.take(j as int) =~= lower@);
            assert(path@.take(i + 1).drop_last() =~= path@.take(i as int));
            if all_ascii(path@) {
                assert((path@[i as int] as u32) < 128);
                assert(ascii_path_key(path@.take(i + 1)) =~= ascii_path_key(path@.take(i as int)).push(ascii_lower(c)));
            }
        }
        i = i + 1;
    }
    assert(path@.take(i as int) =~= path@);
    out
}

/// The 32-bit FNV-1a hash of a byte string.
pub open spec fn fnv1a(b: Seq<u8>) -> u32
    decreases b.len(),
{
    if b.len() == 0 {
        0x811C9DC5
    } else {
        (((fnv1a(b.drop_last()) ^ (b.last() as u32)) as nat * 0x01000193nat) % 0x1_0000_0000nat) as u32
    }
}

/// The uppercase hex digit of `d`.
pub open spec fn hex_char(d: int) -> char {
    (if d < 10 { 48 + d } else { 55 + d }) as char
}

/// Eight uppercase hex digits of `v`, most significant first.
pub open spec fn hex8(v: int) -> Seq<char> {
    seq![
        hex_char((v / 0x10000000) % 16),
        hex_char((v / 0x1000000) % 16),
        hex_char((v / 0x100000) % 16),
        hex_char((v / 0x10000) % 16),
        hex_char((v / 0x1000) % 16),
        hex_char((v / 0x100) % 16),
        hex_char((v / 0x10) % 16),
        hex_char(v % 16),
    ]
}

fn hex_digit(d: u32) -> (r: char)
    requires
        d < 16,
    ensures
        r == hex_char(d as int),
{
    let code: u8 = if d < 10 { 48 + d as u8 } else { 55 + d as u8 };
    code as char
}

/// The book's cache folder: the FNV-1a hash of its normalized device path,
/// as eight uppercase hex digits.
pub open spec fn book_folder_spec(path: Seq<char>) -> Seq<char> {
    hex8(fnv1a(encode_utf8(normalized_path_spec(path))) as int)
}

pub fn book_folder_for_path(path: &str) -> (r: String)
    ensures
        r@ == book_folder_spec(path@),
        all_ascii(path@) ==> r@ == hex8(fnv1a(encode_utf8(ascii_path_key(path@))) as int),
{
    let key = normalized_path_key(path);
    book_folder_for_key(key.as_str())
}

/// The cache folder of an already normalized key: the FNV-1a hash of its
/// UTF-8 bytes as eight uppercase hex digits.
pub fn book_folder_for_key(key: &str) -> (r: String)
    ensures
        r@ == hex8(fnv1a(key.spec_bytes()) as int),
{
    let bytes = key.as_bytes();
    let mut value: u32 = 0x811C9DC5;
    let mut i: usize = 0;
    while i < bytes.len()
        invariant
            bytes@ == key.spec_bytes(),
            i <= bytes@.len(),
            value == fnv1a(bytes@.take(i as int)),
        decreases bytes@.len() - i,
    {
        proof {
            assert(bytes@.take(i + 1).drop_last() =~= bytes@.take(i as int));
        }
        value = value ^ (bytes[i] as u32);
        value = value.wrapping_mul(0x01000193);
        i = i + 1;
    }
    assert(bytes@.take(i as int) =~= bytes@);
    let mut out = String::new();
    string_push(&mut out, hex_digit((value / 0x10000000) % 16));
    string_push(&mut out, hex_digit((value / 0x1000000) % 16));
    string_push(&mut out, hex_digit((value / 0x100000) % 16));
    string_push(&mut out, hex_digit((value / 0x10000) % 16));
    string_push(&mut out, hex_digit((value / 0x1000) % 16));
    string_push(&mut out, hex_digit((value / 0x100) % 16));
    string_push(&mut out, hex_digit((value / 0x10) % 16));
    string_push(&mut out, hex_digit(value % 16));
    assert(out@ =~= hex8(value as int));
    out
}

/// A META.TXT value: carriage returns and newlines become spaces.
pub open spec fn meta_value_spec(s: Seq<char>) -> Seq<char> {
    s.map_values(|c: char| if c == '\r' || c == '\n' { ' ' } else { c })
}

pub fn meta_value(value: &str) -> (r: String)
    ensures
        r@ == meta_value_spec(value@),
{
    let chars = chars_of(value);
    let mut out = String::new();
    let mut i: usize = 0;
    while i < chars.len()
        invariant
            chars@ == value@,
            i <= chars@.len(),
            out@ == meta_value_spec(value@.take(i as int)),
        decreases chars@.len() - i,
    {
        let c = chars[i];
        string_push(&mut out, if c == '\r' || c == '\n' { ' ' } else { c });
        assert(meta_value_spec(value@.take(i + 1)) =~= meta_value_spec(value@.take(i as int)).push(
            if c == '\r' || c == '\n' { ' ' } else { c },
        ));
        i = i + 1;
    }
    assert(value@.take(i as int) =~= value@);
    out
}

// ---------------------------------------------------------------------------
// VRUN pages

/// A glyph placed on a page.
#[derive(Clone, Copy, Debug, PartialEq, Eq, Structural)]
pub struct PositionedGlyph {
    pub font_id: u32,
    pub glyph_id: u32,
    pub x: i16,
    pub y: i16,
    pub advance_x: i16,
    pub advance_y: i16,
    pub cluster: u32,
}

/// The glyphs of one page, in drawing order.
#[derive(Clone, Debug)]
pub struct PreparedPage {
    pub glyphs: Vec<PositionedGlyph>,
}

/// The 20 bytes of a glyph record.
pub open spec fn vrun_record_bytes(g: PositionedGlyph) -> Seq<u8> {
    u32_bytes(g.font_id as int) + u32_bytes(g.glyph_id as int) + i16_bytes(g.x as int) + i16_bytes(g.y as int)
        + i16_bytes(g.advance_x as int) + i16_bytes(g.advance_y as int) + u32_bytes(g.cluster as int)
}

/// The records of a page's glyphs, in order.
pub open spec fn vrun_records(gs: Seq<PositionedGlyph>) -> Seq<u8>
    decreases gs.len(),
{
    if gs.len() == 0 {
        Seq::empty()
    } else {
        vrun_records(gs.drop_last()) + vrun_record_bytes(gs.last())
    }
}

/// A VRUN page: `VRUN`, version 1, the 20-byte header length, the glyph
/// count, the page width and height, a reserved word, then the records.
pub open spec fn vrun_bytes(gs: Seq<PositionedGlyph>, width: u16, height: u16) -> Seq<u8> {
    seq![0x56u8, 0x52u8, 0x55u8, 0x4eu8] + u16_bytes(1) + u16_bytes(20) + u32_bytes((gs.len() as u32) as int)
        + u16_bytes(width as int) + u16_bytes(height as int) + u32_bytes(0) + vrun_records(gs)
}

pub fn build_vrun(page: &PreparedPage, width: u16, height: u16) -> (r: Result<Vec<u8>, PreparedGenError>)
    ensures
        r matches Ok(b) && b@ == vrun_bytes(page.glyphs@, width, height),
{
    let mut out: Vec<u8> = Vec::new();
    out.push(0x56u8);
    out.push(0x52u8);
    out.push(0x55u8);
    out.push(0x4eu8);
    put_u16(&mut out, 1);
    put_u16(&mut out, 20);
    put_u32(&mut out, #[verifier::truncate] (page.glyphs.len() as u32));
    put_u16(&mut out, width);
    put_u16(&mut out, height);
    put_u32(&mut out, 0);
    let ghost header = out@;
    let mut i: usize = 0;
    while i < page.glyphs.len()
        invariant
            i <= page.glyphs@.len(),
            out@ == header + vrun_records(page.glyphs@.take(i as int)),
        decreases page.glyphs@.len() - i,
    {
        let g = page.glyphs[i];
        put_u32(&mut out, g.font_id);
        put_u32(&mut out, g.glyph_id);
        put_i16(&mut out, g.x);
        put_i16(&mut out, g.y);
        put_i16(&mut out, g.advance_x);
        put_i16(&mut out, g.advance_y);
        put_u32(&mut out, g.cluster);
        proof {
            assert(page.glyphs@.take(i + 1).drop_last() =~= page.glyphs@.take(i as int));
            assert(out@ =~= header + vrun_records(page.glyphs@.take(i + 1)));
        }
        i = i + 1;
    }
    assert(page.glyphs@.take(i as int) =~= page.glyphs@);
    assert(out@ =~= vrun_bytes(page.glyphs@, width, height));
    Ok(out)
}

/// The records of `gs` are 20 bytes each, the `i`-th at `20 * i`.
pub proof fn lemma_vrun_records(gs: Seq<PositionedGlyph>)
    ensures
        vrun_records(gs).len() == 20 * gs.len(),
        forall|i: int| 0 <= i < gs.len() ==> vrun_records(gs).subrange(20 * i, 20 * i + 20) == vrun_record_bytes(#[trigger] gs[i]),
    decreases gs.len(),
{
    if gs.len() > 0 {
        let init = gs.drop_last();
        lemma_vrun_records(init);
        let r = vrun_records(gs);
        assert forall|i: int| 0 <= i < gs.len() implies r.subrange(20 * i, 20 * i + 20) == vrun_record_bytes(#[trigger] gs[i]) by {
            if i < gs.len() - 1 {
                assert(init[i] == gs[i]);
                assert(r.subrange(20 * i, 20 * i + 20) =~= vrun_records(init).subrange(20 * i, 20 * i + 20));
            } else {
                assert(r.subrange(20 * i, 20 * i + 20) =~= vrun_record_bytes(gs.last()));
            }
        }
    }
}

proof fn lemma_vrun_header(gs: Seq<PositionedGlyph>, width: u16, height: u16)
    requires
        gs.len() <= MAX_GLYPHS,
    ensures
        vrun_bytes(gs, width, height).len() == 20 + 20 * gs.len(),
        vrun_parse_spec(vrun_bytes(gs, width, height)) == Ok::<int, crate::prepared_cache::PreparedTxtError>(gs.len() as int),
{
    let b = vrun_bytes(gs, width, height);
    let n = gs.len() as int;
    lemma_vrun_records(gs);
    assert(b.subrange(4, 6) =~= u16_bytes(1));
    assert(b.subrange(6, 8) =~= u16_bytes(20));
    assert(b.subrange(8, 12) =~= u32_bytes((gs.len() as u32) as int));
    lemma_le_roundtrip(b, 4, 1, 16);
    lemma_le_roundtrip(b, 6, 20, 16);
    lemma_le_roundtrip(b, 8, n, 32);
}

#[verifier::rlimit(50)]
proof fn lemma_vrun_record(gs: Seq<PositionedGlyph>, width: u16, height: u16, i: int)
    requires
        0 <= i < gs.len(),
    ensures
        vrun_record_spec(vrun_bytes(gs, width, height), i) == (PreparedGlyphRecord {
            font_id: gs[i].font_id,
            glyph_id: gs[i].glyph_id,
            x: gs[i].x,
            y: gs[i].y,
        }),
{
    let b = vrun_bytes(gs, width, height);
    let recs = vrun_records(gs);
    lemma_vrun_records(gs);
    let off = 20 + 20 * i;
    let g = gs[i];
    assert(recs.subrange(20 * i, 20 * i + 20) == vrun_record_bytes(g));
    assert(b.subrange(off, off + 20) =~= recs.subrange(20 * i, 20 * i + 20));
    let rec = vrun_record_bytes(g);
    assert(b.subrange(off, off + 4) =~= rec.subrange(0, 4));
    assert(rec.subrange(0, 4) =~= u32_bytes(g.font_id as int));
    assert(b.subrange(off + 4, off + 8) =~= rec.subrange(4, 8));
    assert(rec.subrange(4, 8) =~= u32_bytes(g.glyph_id as int));
    assert(b.subrange(off + 8, off + 10) =~= rec.subrange(8, 10));
    assert(rec.subrange(8, 10) =~= i16_bytes(g.x as int));
    assert(b.subrange(off + 10, off + 12) =~= rec.subrange(10, 12));
    assert(rec.subrange(10, 12) =~= i16_bytes(g.y as int));
    lemma_le_roundtrip(b, off, g.font_id as int, 32);
    lemma_le_roundtrip(b, off + 4, g.glyph_id as int, 32);
    lemma_le_roundtrip(b, off + 8, g.x as int, -16);
    lemma_le_roundtrip(b, off + 10, g.y as int, -16);
}

/// A page the builder writes reads back in the reader as the same glyphs:
/// for a page of at most `MAX_GLYPHS` glyphs, the reader accepts the bytes,
/// counts the glyphs, and finds each glyph's font, glyph id and position.
pub proof fn lemma_vrun_roundtrip(gs: Seq<PositionedGlyph>, width: u16, height: u16)
    requires
        gs.len() <= MAX_GLYPHS,
    ensures
        vrun_parse_spec(vrun_bytes(gs, width, height)) == Ok::<int, crate::prepared_cache::PreparedTxtError>(gs.len() as int),
        forall|i: int| 0 <= i < gs.len() ==> vrun_record_spec(vrun_bytes(gs, width, height), i) == (PreparedGlyphRecord {
            font_id: (#[trigger] gs[i]).font_id,
            glyph_id: gs[i].glyph_id,
            x: gs[i].x,
            y: gs[i].y,
        }),
{
    lemma_vrun_header(gs, width, height);
    assert forall|i: int| 0 <= i < gs.len() implies vrun_record_spec(vrun_bytes(gs, width, height), i) == (PreparedGlyphRecord {
        font_id: (#[trigger] gs[i]).font_id,
        glyph_id: gs[i].glyph_id,
        x: gs[i].x,
        y: gs[i].y,
    }) by {
        lemma_vrun_record(gs, width, height, i);
    }
}

// ---------------------------------------------------------------------------
// Page budgets

/// A glyph's share of a page: its font, its id, and the bytes of its bitmap.
#[derive(Clone, Copy, Debug, PartialEq, Eq, Structural)]
pub struct GlyphResource {
    pub font_id: u32,
    pub glyph_id: u32,
    pub bitmap_bytes: usize,
}

/// The budget slot of a script font.
pub open spec fn budget_slot_spec(font_id: u32) -> Option<int> {
    if font_id == FONT_LATIN {
        Some(0)
    } else if font_id == FONT_DEVANAGARI {
        Some(1)
    } else if font_id == FONT_GUJARATI {
        Some(2)
    } else {
        None
    }
}

pub fn font_budget_slot(font_id: u32) -> (r: Result<usize, PreparedGenError>)
    ensures
        match budget_slot_spec(font_id) {
            Some(s) => r == Ok::<usize, PreparedGenError>(s as usize),
            None => r == Err::<usize, PreparedGenError>(PreparedGenError::UnknownFontSlot(font_id)),
        },
{
    if font_id == FONT_LATIN {
        Ok(0)
    } else if font_id == FONT_DEVANAGARI {
        Ok(1)
    } else if font_id == FONT_GUJARATI {
        Ok(2)
    } else {
        Err(PreparedGenError::UnknownFontSlot(font_id))
    }
}

/// Accounts one glyph resource in the per-font byte counts: a glyph not yet
/// on the page adds its metrics and bitmap records and its bitmap to its
/// font (a font's first glyph also its header). `None` when the font would
/// outgrow `MAX_FONT_BYTES`.
pub open spec fn budget_step(fb: Seq<int>, ids: Set<(u32, u32)>, r: GlyphResource) -> Result<
    Option<(Seq<int>, Set<(u32, u32)>)>,
    PreparedGenError,
> {
    match budget_slot_spec(r.font_id) {
        None => Err(PreparedGenError::UnknownFontSlot(r.font_id)),
        Some(s) => if ids.contains((r.font_id, r.glyph_id)) {
            Ok(Some((fb, ids)))
        } else {
            let v = (if fb[s] == 0 { 44 } else { fb[s] }) + 32 + r.bitmap_bytes;
            if v > usize::MAX {
                Err(PreparedGenError::FontByteCountOverflow)
            } else if v > MAX_FONT_BYTES {
                Ok(None)
            } else {
                Ok(Some((fb.update(s, v), ids.insert((r.font_id, r.glyph_id)))))
            }
        },
    }
}

/// Accounts the resources in order.
pub open spec fn budget_fold(fb: Seq<int>, ids: Set<(u32, u32)>, rs: Seq<GlyphResource>) -> Result<
    Option<(Seq<int>, Set<(u32, u32)>)>,
    PreparedGenError,
>
    decreases rs.len(),
{
    if rs.len() == 0 {
        Ok(Some((fb, ids)))
    } else {
        match budget_step(fb, ids, rs[0]) {
            Err(e) => Err(e),
            Ok(None) => Ok(None),
            Ok(Some((fb2, ids2))) => budget_fold(fb2, ids2, rs.drop_first()),
        }
    }
}

/// What is left on a page for glyphs and fonts.
#[derive(Debug)]
pub struct PageBudget {
    pub glyph_count: usize,
    pub font_bytes: [usize; 3],
    pub glyph_ids: Vec<(u32, u32)>,
}

/// A budget after `rs` joins the page: `None` when the page would outgrow
/// the reader's glyph limit, its page size or a font's size.
pub open spec fn projected_spec(gc: int, fb: Seq<int>, ids: Set<(u32, u32)>, rs: Seq<GlyphResource>) -> Result<
    Option<(int, Seq<int>, Set<(u32, u32)>)>,
    PreparedGenError,
> {
    let n = gc + rs.len();
    if n > usize::MAX {
        Err(PreparedGenError::GlyphCountOverflow)
    } else if 20 + n * 20 > usize::MAX {
        Err(PreparedGenError::PageByteCountOverflow)
    } else if n > MAX_PAGE_GLYPHS || 20 + n * 20 > MAX_PAGE_BYTES {
        Ok(None)
    } else {
        match budget_fold(fb, ids, rs) {
            Err(e) => Err(e),
            Ok(None) => Ok(None),
            Ok(Some((fb2, ids2))) => Ok(Some((n, fb2, ids2))),
        }
    }
}

/// Every count within the reader's limits.
pub open spec fn within_limits(gc: int, fb: Seq<int>) -> bool {
    &&& gc <= MAX_PAGE_GLYPHS
    &&& fb.len() == 3
    &&& forall|s: int| 0 <= s < 3 ==> #[trigger] fb[s] <= MAX_FONT_BYTES
}

proof fn lemma_fold_within(fb: Seq<int>, ids: Set<(u32, u32)>, rs: Seq<GlyphResource>)
    requires
        fb.len() == 3,
        forall|s: int| 0 <= s < 3 ==> #[trigger] fb[s] <= MAX_FONT_BYTES,
    ensures
        budget_fold(fb, ids, rs) matches Ok(Some((fb2, ids2))) ==> fb2.len() == 3 && forall|s: int| 0 <= s < 3 ==> #[trigger] fb2[s] <= MAX_FONT_BYTES,
    decreases rs.len(),
{
    if rs.len() > 0 {
        match budget_step(fb, ids, rs[0]) {
            Ok(Some((fb2, ids2))) => lemma_fold_within(fb2, ids2, rs.drop_first()),
            _ => {},
        }
    }
}

proof fn lemma_fold_error_kinds(fb: Seq<int>, ids: Set<(u32, u32)>, rs: Seq<GlyphResource>)
    ensures
        budget_fold(fb, ids, rs) matches Err(e) ==> e is UnknownFontSlot || e is FontByteCountOverflow,
    decreases rs.len(),
{
    if rs.len() > 0 {
        match budget_step(fb, ids, rs[0]) {
            Ok(Some((fb2, ids2))) => lemma_fold_error_kinds(fb2, ids2, rs.drop_first()),
            _ => {},
        }
    }
}

/// Adding resources to a budget fails only for an unknown font or a count
/// that no longer fits a `usize`.
pub proof fn lemma_projected_error_kinds(gc: int, fb: Seq<int>, ids: Set<(u32, u32)>, rs: Seq<GlyphResource>)
    ensures
        projected_spec(gc, fb, ids, rs) matches Err(e) ==> e is UnknownFontSlot || e is FontByteCountOverflow
            || e is GlyphCountOverflow || e is PageByteCountOverflow,
{
    lemma_fold_error_kinds(fb, ids, rs);
}

impl PageBudget {
    pub open spec fn ids(&self) -> Set<(u32, u32)> {
        self.glyph_ids@.to_set()
    }

    pub open spec fn wf(&self) -> bool {
        self.glyph_ids@.no_duplicates()
    }

    pub open spec fn font_bytes_spec(&self) -> Seq<int> {
        seq![self.font_bytes[0] as int, self.font_bytes[1] as int, self.font_bytes[2] as int]
    }

    /// The budget of an empty page.
    pub fn empty() -> (r: Self)
        ensures
            r.wf(),
            r.glyph_count == 0,
            r.font_bytes_spec() == seq![0int, 0, 0],
            r.ids() == Set::<(u32, u32)>::empty(),
    {
        let r = PageBudget { glyph_count: 0, font_bytes: [0, 0, 0], glyph_ids: Vec::new() };
        assert(r.glyph_ids@.to_set() =~= Set::<(u32, u32)>::empty());
        assert(r.font_bytes_spec() =~= seq![0int, 0, 0]);
        r
    }

    fn copy(&self) -> (r: Self)
        requires
            self.wf(),
        ensures
            r.wf(),
            r.glyph_count == self.glyph_count,
            r.font_bytes == self.font_bytes,
            r.glyph_ids@ == self.glyph_ids@,
    {
        let mut ids: Vec<(u32, u32)> = Vec::new();
        let mut i: usize = 0;
        while i < self.glyph_ids.len()
            invariant
                i <= self.glyph_ids@.len(),
                ids@ == self.glyph_ids@.take(i as int),
            decreases self.glyph_ids@.len() - i,
        {
            ids.push(self.glyph_ids[i]);
            assert(ids@ =~= self.glyph_ids@.take(i + 1));
            i = i + 1;
        }
        assert(ids@ =~= self.glyph_ids@);
        PageBudget { glyph_count: self.glyph_count, font_bytes: self.font_bytes, glyph_ids: ids }
    }

    fn contains_id(&self, key: (u32, u32)) -> (r: bool)
        ensures
            r == self.ids().contains(key),
    {
        let mut i: usize = 0;
        while i < self.glyph_ids.len()
            invariant
                i <= self.glyph_ids@.len(),
                forall|k: int| 0 <= k < i ==> self.glyph_ids@[k] != key,
            decreases self.glyph_ids@.len() - i,
        {
            if self.glyph_ids[i].0 == key.0 && self.glyph_ids[i].1 == key.1 {
                assert(self.glyph_ids@.contains(key));
                return true;
            }
            i = i + 1;
        }
        false
    }

    /// The budget with `resources` added, if they fit.
    pub fn projected(&self, resources: &[GlyphResource]) -> (r: Result<Option<Self>, PreparedGenError>)
        requires
            self.wf(),
        ensures
            match projected_spec(self.glyph_count as int, self.font_bytes_spec(), self.ids(), resources@) {
                Err(e) => r matches Err(x) && x == e,
                Ok(None) => r matches Ok(None),
                Ok(Some((n, fb, ids))) => r matches Ok(Some(b)) && b.wf() && b.glyph_count == n
                    && b.font_bytes_spec() == fb && b.ids() == ids,
            },
    {
        let glyph_count = match self.glyph_count.checked_add(resources.len()) {
            Some(n) => n,
            None => {
                return Err(PreparedGenError::GlyphCountOverflow);
            },
        };
        let record_bytes = match glyph_count.checked_mul(VRUN_RECORD_LEN) {
            Some(b) => b,
            None => {
                return Err(PreparedGenError::PageByteCountOverflow);
            },
        };
        let page_bytes = match 20usize.checked_add(record_bytes) {
            Some(b) => b,
            None => {
                return Err(PreparedGenError::PageByteCountOverflow);
            },
        };
        if glyph_count > MAX_PAGE_GLYPHS || page_bytes > MAX_PAGE_BYTES {
            return Ok(None);
        }
        let mut projected = self.copy();
        projected.glyph_count = glyph_count;
        let ghost rs = resources@;
        let mut i: usize = 0;
        assert(rs.skip(0) =~= rs);
        while i < resources.len()
            invariant
                rs == resources@,
                i <= rs.len(),
                projected.wf(),
                projected.glyph_count == glyph_count,
                glyph_count == self.glyph_count + rs.len(),
                glyph_count <= MAX_PAGE_GLYPHS,
                20 + glyph_count * 20 <= MAX_PAGE_BYTES,
                budget_fold(self.font_bytes_spec(), self.ids(), rs) == budget_fold(projected.font_bytes_spec(), projected.ids(), rs.skip(i as int)),
            decreases rs.len() - i,
        {
            let resource = resources[i];
            assert(rs.skip(i as int)[0] == resource);
            assert(rs.skip(i as int).drop_first() =~= rs.skip(i + 1));
            let slot = match font_budget_slot(resource.font_id) {
                Ok(s) => s,
                Err(e) => {
                    return Err(e);
                },
            };
            let key = (resource.font_id, resource.glyph_id);
            let ghost fb0 = projected.font_bytes_spec();
            let ghost ids0 = projected.ids();
            if !projected.contains_id(key) {
                let ghost old_ids = projected.glyph_ids@;
                projected.glyph_ids.push(key);
                proof {
                    old_ids.lemma_push_to_set_commute(key);
                    assert(projected.glyph_ids@ == old_ids.push(key));
                    assert(projected.glyph_ids@.no_duplicates()) by {
                        assert forall|a: int, b: int| 0 <= a < b < projected.glyph_ids@.len() implies projected.glyph_ids@[a] != projected.glyph_ids@[b] by {
                            if b == old_ids.len() {
                                assert(old_ids.contains(old_ids[a]));
                            }
                        }
                    }
                }
                let current = projected.font_bytes[slot];
                let base = if current == 0 { 44 } else { current };
                let size = match base.checked_add(32) {
                    Some(v) => match v.checked_add(resource.bitmap_bytes) {
                        Some(v) => v,
                        None => {
                            return Err(PreparedGenError::FontByteCountOverflow);
                        },
                    },
                    None => {
                        return Err(PreparedGenError::FontByteCountOverflow);
                    },
                };
                projected.font_bytes.set(slot, size);
                if size > MAX_FONT_BYTES {
                    return Ok(None);
                }
                proof {
                    assert(projected.font_bytes_spec() =~= fb0.update(slot as int, size as int));
                    assert(projected.ids() == ids0.insert(key));
                    assert(budget_step(fb0, ids0, resource) == Ok::<Option<(Seq<int>, Set<(u32, u32)>)>, PreparedGenError>(Some((projected.font_bytes_spec(), projected.ids()))));
                }
            } else {
                proof {
                    assert(budget_step(fb0, ids0, resource) == Ok::<Option<(Seq<int>, Set<(u32, u32)>)>, PreparedGenError>(Some((projected.font_bytes_spec(), projected.ids()))));
                }
            }
            i = i + 1;
        }
        assert(rs.skip(i as int) =~= Seq::<GlyphResource>::empty());
        Ok(Some(projected))
    }

    /// Adds `resources` to the page if they fit and reports whether they did;
    /// otherwise the budget stays as it was.
    pub fn add(&mut self, resources: &[GlyphResource]) -> (r: Result<bool, PreparedGenError>)
        requires
            old(self).wf(),
        ensures
            final(self).wf(),
            match projected_spec(old(self).glyph_count as int, old(self).font_bytes_spec(), old(self).ids(), resources@) {
                Err(e) => r matches Err(x) && x == e && final(self).glyph_count == old(self).glyph_count
                    && final(self).font_bytes == old(self).font_bytes && final(self).ids() == old(self).ids(),
                Ok(None) => r == Ok::<bool, PreparedGenError>(false) && final(self).glyph_count == old(self).glyph_count
                    && final(self).font_bytes == old(self).font_bytes && final(self).ids() == old(self).ids(),
                Ok(Some((n, fb, ids))) => r == Ok::<bool, PreparedGenError>(true) && final(self).glyph_count == n
                    && final(self).font_bytes_spec() == fb && final(self).ids() == ids,
            },
    {
        match self.projected(resources) {
            Err(e) => Err(e),
            Ok(None) => Ok(false),
            Ok(Some(p)) => {
                *self = p;
                Ok(true)
            },
        }
    }
}

impl Default for PageBudget {
    fn default() -> (r: Self)
        ensures
            r.wf(),
            r.glyph_count == 0,
            r.font_bytes_spec() == seq![0int, 0, 0],
            r.ids() == Set::<(u32, u32)>::empty(),
    {
        PageBudget::empty()
    }
}

/// A budget stays within the reader's limits: adding resources to a budget
/// within them either leaves it unchanged or yields one within them.
pub proof fn lemma_budget_within_limits(gc: int, fb: Seq<int>, ids: Set<(u32, u32)>, rs: Seq<GlyphResource>)
    requires
        within_limits(gc, fb),
    ensures
        projected_spec(gc, fb, ids, rs) matches Ok(Some((n, fb2, ids2))) ==> within_limits(n, fb2),
{
    lemma_fold_within(fb, ids, rs);
}

/// The page-wide key of a glyph resource.
pub open spec fn resource_key(r: GlyphResource) -> (u32, u32) {
    (r.font_id, r.glyph_id)
}

/// The keys of the glyph resources `rs`.
pub open spec fn resource_keys(rs: Seq<GlyphResource>) -> Set<(u32, u32)> {
    Set::new(|k: (u32, u32)| exists|i: int| 0 <= i < rs.len() && resource_key(#[trigger] rs[i]) == k)
}

/// The bytes that `rs` adds to slot `s` beyond what `ids` already holds:
/// each glyph new to the page costs its 32-byte records and its bitmap, at
/// its first occurrence only.
pub open spec fn new_glyph_bytes(ids: Set<(u32, u32)>, rs: Seq<GlyphResource>, s: int) -> int
    decreases rs.len(),
{
    if rs.len() == 0 {
        0
    } else {
        let r = rs[0];
        if budget_slot_spec(r.font_id) == Some(s) && !ids.contains(resource_key(r)) {
            32 + r.bitmap_bytes + new_glyph_bytes(ids.insert(resource_key(r)), rs.drop_first(), s)
        } else {
            new_glyph_bytes(ids, rs.drop_first(), s)
        }
    }
}

/// Slot `s`'s byte count once `rs` joined the page: unchanged when `rs`
/// brings no new glyph to it, otherwise the new glyphs' bytes on top of
/// what it held, or on top of the 44-byte header for a font new to the page.
pub open spec fn slot_total(fb: Seq<int>, ids: Set<(u32, u32)>, rs: Seq<GlyphResource>, s: int) -> int {
    let added = new_glyph_bytes(ids, rs, s);
    if added == 0 {
        fb[s]
    } else {
        (if fb[s] == 0 { 44 } else { fb[s] }) + added
    }
}

/// Every resource names a script font, and no bitmap is so large that a
/// font's count could leave a `usize`.
pub open spec fn resources_accountable(rs: Seq<GlyphResource>) -> bool {
    forall|i: int| 0 <= i < rs.len() ==> {
        &&& budget_slot_spec((#[trigger] rs[i]).font_id) is Some
        &&& MAX_FONT_BYTES + 32 + rs[i].bitmap_bytes <= usize::MAX
    }
}

proof fn lemma_new_glyph_bytes_other_slot(ids: Set<(u32, u32)>, rs: Seq<GlyphResource>, s: int, k: (u32, u32))
    requires
        budget_slot_spec(k.0) != Some(s),
    ensures
        new_glyph_bytes(ids.insert(k), rs, s) == new_glyph_bytes(ids, rs, s),
    decreases rs.len(),
{
    if rs.len() > 0 {
        let r = rs[0];
        let rk = resource_key(r);
        if budget_slot_spec(r.font_id) == Some(s) && !ids.contains(rk) {
            assert(rk != k);
            assert(ids.insert(k).insert(rk) =~= ids.insert(rk).insert(k));
            lemma_new_glyph_bytes_other_slot(ids.insert(rk), rs.drop_first(), s, k);
        } else {
            lemma_new_glyph_bytes_other_slot(ids, rs.drop_first(), s, k);
        }
    }
}

proof fn lemma_new_glyph_bytes_nonneg(ids: Set<(u32, u32)>, rs: Seq<GlyphResource>, s: int)
    ensures
        new_glyph_bytes(ids, rs, s) >= 0,
    decreases rs.len(),
{
    if rs.len() > 0 {
        let r = rs[0];
        if budget_slot_spec(r.font_id) == Some(s) && !ids.contains(resource_key(r)) {
            lemma_new_glyph_bytes_nonneg(ids.insert(resource_key(r)), rs.drop_first(), s);
        } else {
            lemma_new_glyph_bytes_nonneg(ids, rs.drop_first(), s);
        }
    }
}

proof fn lemma_resource_keys_step(rs: Seq<GlyphResource>)
    requires
        rs.len() > 0,
    ensures
        resource_keys(rs) == resource_keys(rs.drop_first()).insert(resource_key(rs[0])),
{
    let t = rs.drop_first();
    assert forall|k: (u32, u32)| resource_keys(rs).contains(k) implies #[trigger] resource_keys(t).insert(resource_key(rs[0])).contains(k) by {
        let i = choose|i: int| 0 <= i < rs.len() && resource_key(#[trigger] rs[i]) == k;
        if i > 0 {
            assert(t[i - 1] == rs[i]);
        }
    }
    assert forall|k: (u32, u32)| #[trigger] resource_keys(t).insert(resource_key(rs[0])).contains(k) implies resource_keys(rs).contains(k) by {
        if k != resource_key(rs[0]) {
            let j = choose|j: int| 0 <= j < t.len() && resource_key(#[trigger] t[j]) == k;
            assert(rs[j + 1] == t[j]);
        } else {
            assert(resource_key(rs[0]) == k);
        }
    }
    assert(resource_keys(rs) =~= resource_keys(t).insert(resource_key(rs[0])));
}

/// The per-font accounting of a page: for resources that all name a script
/// font, adding them to counts within the limits never fails; it fits
/// exactly when every slot's total stays within `MAX_FONT_BYTES`, and then
/// the page holds the union of its glyph keys and those of `rs`, and each
/// slot its total: a glyph new to the page adds its 32 record bytes and
/// its bitmap once (and a font new to the page its 44-byte header), a glyph
/// already there adds nothing.
pub proof fn lemma_budget_fold_accounting(fb: Seq<int>, ids: Set<(u32, u32)>, rs: Seq<GlyphResource>)
    requires
        fb.len() == 3,
        forall|s: int| 0 <= s < 3 ==> 0 <= #[trigger] fb[s] <= MAX_FONT_BYTES,
        resources_accountable(rs),
    ensures
        budget_fold(fb, ids, rs) is Ok,
        (budget_fold(fb, ids, rs) matches Ok(Some(_))) <==> (forall|s: int| 0 <= s < 3 ==> #[trigger] slot_total(fb, ids, rs, s) <= MAX_FONT_BYTES),
        budget_fold(fb, ids, rs) matches Ok(Some((fb2, ids2))) ==> {
            &&& ids2 == ids.union(resource_keys(rs))
            &&& fb2 == seq![slot_total(fb, ids, rs, 0), slot_total(fb, ids, rs, 1), slot_total(fb, ids, rs, 2)]
        },
    decreases rs.len(),
{
    if rs.len() == 0 {
        assert(resource_keys(rs) =~= Set::<(u32, u32)>::empty());
        assert(ids.union(resource_keys(rs)) =~= ids);
        assert(fb =~= seq![slot_total(fb, ids, rs, 0), slot_total(fb, ids, rs, 1), slot_total(fb, ids, rs, 2)]);
    } else {
        let r = rs[0];
        let t = rs.drop_first();
        let k = resource_key(r);
        assert(budget_slot_spec(rs[0].font_id) is Some);
        let slot = budget_slot_spec(r.font_id)->0;
        assert(resources_accountable(t)) by {
            assert forall|i: int| 0 <= i < t.len() implies {
                &&& budget_slot_spec((#[trigger] t[i]).font_id) is Some
                &&& MAX_FONT_BYTES + 32 + t[i].bitmap_bytes <= usize::MAX
            } by {
                assert(t[i] == rs[i + 1]);
            }
        }
        lemma_resource_keys_step(rs);
        assert forall|s: int| 0 <= s < 3 implies new_glyph_bytes(ids, rs, s) >= 0 by {
            lemma_new_glyph_bytes_nonneg(ids, rs, s);
        }
        if ids.contains(k) {
            lemma_budget_fold_accounting(fb, ids, t);
            assert forall|s: int|
                #![trigger slot_total(fb, ids, rs, s)]
                #![trigger slot_total(fb, ids, t, s)]
                0 <= s < 3 implies slot_total(fb, ids, rs, s) == slot_total(fb, ids, t, s) by {}
            assert(ids.union(resource_keys(t)) =~= ids.union(resource_keys(rs)));
            assert(budget_step(fb, ids, r) == Ok::<Option<(Seq<int>, Set<(u32, u32)>)>, PreparedGenError>(Some((fb, ids))));
            assert(budget_fold(fb, ids, rs) == budget_fold(fb, ids, t));
        } else {
            let v = (if fb[slot] == 0 { 44 } else { fb[slot] }) + 32 + r.bitmap_bytes;
            assert(v <= usize::MAX);
            lemma_new_glyph_bytes_nonneg(ids.insert(k), t, slot);
            if v > MAX_FONT_BYTES {
                assert(budget_fold(fb, ids, rs) == Ok::<Option<(Seq<int>, Set<(u32, u32)>)>, PreparedGenError>(None));
                assert(slot_total(fb, ids, rs, slot) > MAX_FONT_BYTES);
            } else {
                let fb2 = fb.update(slot, v);
                let ids2 = ids.insert(k);
                lemma_budget_fold_accounting(fb2, ids2, t);
                assert forall|s: int|
                    #![trigger slot_total(fb, ids, rs, s)]
                    #![trigger slot_total(fb2, ids2, t, s)]
                    0 <= s < 3 implies slot_total(fb, ids, rs, s) == slot_total(fb2, ids2, t, s) by {
                    if s != slot {
                        lemma_new_glyph_bytes_other_slot(ids, t, s, k);
                    } else {
                        lemma_new_glyph_bytes_nonneg(ids2, t, s);
                    }
                }
                assert(ids2.union(resource_keys(t)) =~= ids.union(resource_keys(rs)));
                assert(budget_fold(fb, ids, rs) == budget_fold(fb2, ids2, t));
            }
        }
    }
}

/// The page budget's accounting: for a budget within the reader's limits
/// and resources that all name a script font, `projected` never fails; it
/// yields a budget exactly when the glyph count, the page size and every
/// font's total stay within their limits, and that budget counts the new
/// glyphs, holds the union of the keys and each font's total.
pub proof fn lemma_projected_accounting(gc: int, fb: Seq<int>, ids: Set<(u32, u32)>, rs: Seq<GlyphResource>)
    requires
        0 <= gc,
        within_limits(gc, fb),
        forall|s: int| 0 <= s < 3 ==> 0 <= #[trigger] fb[s],
        resources_accountable(rs),
        20 + (gc + rs.len()) * 20 <= usize::MAX,
    ensures
        ({
            let n = gc + rs.len();
            let fits = n <= MAX_PAGE_GLYPHS && 20 + n * 20 <= MAX_PAGE_BYTES
                && forall|s: int| 0 <= s < 3 ==> #[trigger] slot_total(fb, ids, rs, s) <= MAX_FONT_BYTES;
            projected_spec(gc, fb, ids, rs) == if fits {
                Ok::<Option<(int, Seq<int>, Set<(u32, u32)>)>, PreparedGenError>(Some((
                    n,
                    seq![slot_total(fb, ids, rs, 0), slot_total(fb, ids, rs, 1), slot_total(fb, ids, rs, 2)],
                    ids.union(resource_keys(rs)),
                )))
            } else {
                Ok(None)
            }
        }),
{
    lemma_budget_fold_accounting(fb, ids, rs);
}

// ---------------------------------------------------------------------------
// VFNT fonts

/// One glyph's rasterized 1-bpp bitmap and metrics.
#[derive(Clone, Debug)]
pub struct GlyphAsset {
    pub glyph_id: u32,
    pub advance_x: i16,
    pub bearing_x: i16,
    pub bearing_y: i16,
    pub width: u16,
    pub height: u16,
    pub row_stride: u16,
    pub bitmap: Vec<u8>,
}

/// `a` comes before `b` when ordered by glyph id, ties kept in input order.
pub open spec fn asset_before(ids: Seq<u32>, a: int, b: int) -> bool {
    ids[a] < ids[b] || (ids[a] == ids[b] && a < b)
}

/// `p` lists the indices of `ids` sorted by glyph id, stably.
pub open spec fn is_stable_order(ids: Seq<u32>, p: Seq<usize>) -> bool {
    &&& p.len() == ids.len()
    &&& forall|k: int| 0 <= k < p.len() ==> #[trigger] p[k] < ids.len()
    &&& forall|a: int, b: int| 0 <= a < b < p.len() ==> asset_before(ids, #[trigger] p[a] as int, #[trigger] p[b] as int)
}

pub open spec fn asset_ids(gs: Seq<GlyphAsset>) -> Seq<u32> {
    gs.map_values(|g: GlyphAsset| g.glyph_id)
}

/// The stable sort order of the assets by glyph id.
fn sorted_order(glyphs: &[GlyphAsset]) -> (r: Vec<usize>)
    ensures
        is_stable_order(asset_ids(glyphs@), r@),
{
    let ghost ids = asset_ids(glyphs@);
    let mut p: Vec<usize> = Vec::new();
    let mut i: usize = 0;
    while i < glyphs.len()
        invariant
            ids == asset_ids(glyphs@),
            i <= glyphs@.len(),
            p@.len() == i,
            forall|k: int| 0 <= k < p@.len() ==> #[trigger] p@[k] < i,
            forall|a: int, b: int| 0 <= a < b < p@.len() ==> asset_before(ids, #[trigger] p@[a] as int, #[trigger] p@[b] as int),
        decreases glyphs@.len() - i,
    {
        let id = glyphs[i].glyph_id;
        let mut pos: usize = 0;
        while pos < p.len() && glyphs[p[pos]].glyph_id <= id
            invariant
                ids == asset_ids(glyphs@),
                i < glyphs@.len(),
                id == glyphs@[i as int].glyph_id,
                pos <= p@.len(),
                forall|k: int| 0 <= k < p@.len() ==> #[trigger] p@[k] < i,
                forall|k: int| 0 <= k < pos ==> ids[#[trigger] p@[k] as int] <= ids[i as int],
            decreases p@.len() - pos,
        {
            proof {
                assert(ids[p@[pos as int] as int] == glyphs@[p@[pos as int] as int].glyph_id);
                assert(ids[i as int] == glyphs@[i as int].glyph_id);
            }
            pos = pos + 1;
        }
        let ghost old_p = p@;
        proof {
            assert(ids[i as int] == id);
            assert forall|k: int| pos <= k < old_p.len() implies ids[#[trigger] old_p[k] as int] > ids[i as int] by {
                if pos < old_p.len() {
                    assert(ids[old_p[pos as int] as int] > ids[i as int]);
                    if k > pos {
                        assert(asset_before(ids, old_p[pos as int] as int, old_p[k] as int));
                    }
                }
            }
        }
        p.insert(pos, i);
        proof {
            assert forall|a: int, b: int| 0 <= a < b < p@.len() implies asset_before(ids, #[trigger] p@[a] as int, #[trigger] p@[b] as int) by {
                if a < pos && b < pos {
                    assert(p@[a] == old_p[a] && p@[b] == old_p[b]);
                } else if a < pos && b == pos {
                    assert(p@[a] == old_p[a]);
                } else if a < pos {
                    assert(p@[a] == old_p[a] && p@[b] == old_p[b - 1]);
                } else if a == pos {
                    assert(p@[b] == old_p[b - 1]);
                } else {
                    assert(p@[a] == old_p[a - 1] && p@[b] == old_p[b - 1]);
                }
            }
            assert forall|k: int| 0 <= k < p@.len() implies #[trigger] p@[k] < i + 1 by {
                if k < pos {
                    assert(p@[k] == old_p[k]);
                } else if k > pos {
                    assert(p@[k] == old_p[k - 1]);
                }
            }
        }
        i = i + 1;
    }
    p
}

/// The 16-byte metrics record of a glyph.
pub open spec fn metrics_record_bytes(g: GlyphAsset) -> Seq<u8> {
    u32_bytes(g.glyph_id as int) + i16_bytes(g.advance_x as int) + i16_bytes(0) + i16_bytes(g.bearing_x as int)
        + i16_bytes(g.bearing_y as int) + u16_bytes(g.width as int) + u16_bytes(g.height as int)
}

/// The 16-byte bitmap index record of a glyph whose bitmap starts at `off`.
pub open spec fn bitmap_record_bytes(g: GlyphAsset, off: int) -> Seq<u8> {
    u32_bytes(g.glyph_id as int) + u32_bytes((off as u32) as int) + u32_bytes(((g.bitmap@.len() as int) as u32) as int)
        + u16_bytes(g.row_stride as int) + u16_bytes(0)
}

/// The metrics table, the bitmap index and the bitmap data of glyphs
/// written in the given order.
pub open spec fn vfnt_tables(q: Seq<GlyphAsset>) -> (Seq<u8>, Seq<u8>, Seq<u8>)
    decreases q.len(),
{
    if q.len() == 0 {
        (Seq::empty(), Seq::empty(), Seq::empty())
    } else {
        let (m, ix, d) = vfnt_tables(q.drop_last());
        let g = q.last();
        (m + metrics_record_bytes(g), ix + bitmap_record_bytes(g, d.len() as int), d + g.bitmap@)
    }
}

/// A signed 16-bit value clamped into range.
pub open spec fn clamp_i16(v: int) -> int {
    if v < -32768 {
        -32768
    } else if v > 32767 {
        32767
    } else {
        v
    }
}

/// The header's line height: the size rounded up, plus eight.
pub open spec fn vfnt_line_height(ceil_u16: u16) -> int {
    if ceil_u16 + 8 > 65535 { 65535 } else { ceil_u16 + 8 }
}

/// The header's descent: the line height below the ascent, negated.
pub open spec fn vfnt_descent(ceil_u16: u16, ascent: i16) -> int {
    -clamp_i16((vfnt_line_height(ceil_u16) as u16 as i16) - ascent)
}

/// A VFNT font of glyphs in the given order: the 44-byte header (magic,
/// version, header length, pixel size, line height, ascent, descent, glyph
/// count, the offsets of the three tables, the bitmap data length, the
/// script and the 1-bpp format), then the metrics table, the bitmap index
/// and the bitmap data.
pub open spec fn vfnt_bytes(script: u16, pixel_size: u16, ceil_u16: u16, ascent: i16, q: Seq<GlyphAsset>) -> Seq<u8> {
    let (m, ix, d) = vfnt_tables(q);
    vfnt_header(script, pixel_size, ceil_u16, ascent, q.len() as int, d.len() as int) + m + ix + d
}

/// The 44-byte VFNT header.
pub open spec fn vfnt_header(script: u16, pixel_size: u16, ceil_u16: u16, ascent: i16, n: int, data_len: int) -> Seq<u8> {
    seq![0x56u8, 0x46u8, 0x4eu8, 0x54u8] + u16_bytes(1) + u16_bytes(44) + u32_bytes(0) + u16_bytes(pixel_size as int)
        + u16_bytes(vfnt_line_height(ceil_u16)) + i16_bytes(ascent as int) + i16_bytes(vfnt_descent(ceil_u16, ascent))
        + u32_bytes((n as u32) as int) + u32_bytes(44) + u32_bytes(((44 + 16 * n) as u32) as int)
        + u32_bytes(((44 + 32 * n) as u32) as int) + u32_bytes((data_len as u32) as int) + u16_bytes(script as int)
        + u16_bytes(1)
}

fn build_vfnt_header(script: u16, pixel_size: u16, ceil_u16: u16, ascent: i16, n: usize, data_len: usize) -> (r: Vec<u8>)
    requires
        clamp_i16((vfnt_line_height(ceil_u16) as u16 as i16) - ascent) != -32768,
        44 + 32 * n <= usize::MAX,
    ensures
        r@ == vfnt_header(script, pixel_size, ceil_u16, ascent, n as int, data_len as int),
{
    let line_height = ceil_u16.saturating_add(8);
    let lh_i16 = #[verifier::truncate] (line_height as i16);
    let diff: i32 = lh_i16 as i32 - ascent as i32;
    let clamped: i16 = if diff < -32768 { -32768 } else if diff > 32767 { 32767 } else { diff as i16 };
    let descent: i16 = -clamped;
    let mut out: Vec<u8> = Vec::new();
    out.push(0x56u8);
    out.push(0x46u8);
    out.push(0x4eu8);
    out.push(0x54u8);
    put_u16(&mut out, 1);
    put_u16(&mut out, 44);
    put_u32(&mut out, 0);
    put_u16(&mut out, pixel_size);
    put_u16(&mut out, line_height);
    put_i16(&mut out, ascent);
    put_i16(&mut out, descent);
    put_u32(&mut out, #[verifier::truncate] (n as u32));
    put_u32(&mut out, 44);
    put_u32(&mut out, #[verifier::truncate] ((44 + 16 * n) as u32));
    put_u32(&mut out, #[verifier::truncate] ((44 + 32 * n) as u32));
    put_u32(&mut out, #[verifier::truncate] (data_len as u32));
    put_u16(&mut out, script);
    put_u16(&mut out, 1);
    assert(out@ =~= vfnt_header(script, pixel_size, ceil_u16, ascent, n as int, data_len as int));
    out
}

/// The assets in the order `p` gives.
pub open spec fn ordered_assets(gs: Seq<GlyphAsset>, p: Seq<usize>) -> Seq<GlyphAsset> {
    p.map_values(|k: usize| gs[k as int])
}

fn push_bytes(out: &mut Vec<u8>, data: &[u8])
    ensures
        final(out)@ == old(out)@ + data@,
{
    let mut i: usize = 0;
    while i < data.len()
        invariant
            i <= data@.len(),
            out@ == old(out)@ + data@.take(i as int),
        decreases data@.len() - i,
    {
        out.push(data[i]);
        assert(out@ =~= old(out)@ + data@.take(i + 1));
        i = i + 1;
    }
    assert(data@.take(i as int) =~= data@);
}

/// Builds a VFNT font from rasterized glyphs, sorted by glyph id (stably).
/// The pixel size, the size rounded up and the ascent come from the font
/// size; a font needs at least one glyph.
#[verifier::rlimit(40)]
pub fn build_vfnt(script_code: u16, pixel_size: u16, ceil_u16: u16, ascent: i16, glyphs: &[GlyphAsset]) -> (r: Result<Vec<u8>, PreparedGenError>)
    requires
        clamp_i16((vfnt_line_height(ceil_u16) as u16 as i16) - ascent) != -32768,
        44 + 32 * glyphs@.len() <= usize::MAX,
    ensures
        glyphs@.len() == 0 ==> r == Err::<Vec<u8>, PreparedGenError>(PreparedGenError::NoUsedGlyphs),
        glyphs@.len() > 0 ==> exists|p: Seq<usize>| is_stable_order(asset_ids(glyphs@), p) && (r matches Ok(b)
            && b@ == vfnt_bytes(script_code, pixel_size, ceil_u16, ascent, ordered_assets(glyphs@, p))),
{
    if glyphs.len() == 0 {
        return Err(PreparedGenError::NoUsedGlyphs);
    }
    let order = sorted_order(glyphs);
    let ghost q = ordered_assets(glyphs@, order@);
    let mut metrics: Vec<u8> = Vec::new();
    let mut bitmap_index: Vec<u8> = Vec::new();
    let mut bitmap_data: Vec<u8> = Vec::new();
    let mut k: usize = 0;
    while k < order.len()
        invariant
            is_stable_order(asset_ids(glyphs@), order@),
            q == ordered_assets(glyphs@, order@),
            k <= order@.len(),
            (metrics@, bitmap_index@, bitmap_data@) == vfnt_tables(q.take(k as int)),
        decreases order@.len() - k,
    {
        let g = &glyphs[order[k]];
        proof {
            assert(q.take(k + 1).drop_last() =~= q.take(k as int));
            assert(q.take(k + 1).last() == glyphs@[order@[k as int] as int]);
        }
        let offset = #[verifier::truncate] (bitmap_data.len() as u32);
        push_bytes(&mut bitmap_data, g.bitmap.as_slice());
        put_u32(&mut metrics, g.glyph_id);
        put_i16(&mut metrics, g.advance_x);
        put_i16(&mut metrics, 0);
        put_i16(&mut metrics, g.bearing_x);
        put_i16(&mut metrics, g.bearing_y);
        put_u16(&mut metrics, g.width);
        put_u16(&mut metrics, g.height);
        put_u32(&mut bitmap_index, g.glyph_id);
        put_u32(&mut bitmap_index, offset);
        put_u32(&mut bitmap_index, #[verifier::truncate] (g.bitmap.len() as u32));
        put_u16(&mut bitmap_index, g.row_stride);
        put_u16(&mut bitmap_index, 0);
        proof {
            let g0 = glyphs@[order@[k as int] as int];
            assert(metrics@ =~= vfnt_tables(q.take(k as int)).0 + metrics_record_bytes(g0));
            assert(bitmap_index@ =~= vfnt_tables(q.take(k as int)).1 + bitmap_record_bytes(g0, vfnt_tables(q.take(k as int)).2.len() as int));
        }
        k = k + 1;
    }
    assert(q.take(k as int) =~= q);
    let mut out = build_vfnt_header(script_code, pixel_size, ceil_u16, ascent, order.len(), bitmap_data.len());
    push_bytes(&mut out, metrics.as_slice());
    push_bytes(&mut out, bitmap_index.as_slice());
    push_bytes(&mut out, bitmap_data.as_slice());
    assert(out@ =~= vfnt_bytes(script_code, pixel_size, ceil_u16, ascent, q));
    Ok(out)
}

/// A range check: `RangeOverflow` when `start + len` does not fit a
/// `usize`, `RangeOutside` when the range leaves the buffer.
pub open spec fn gen_range_check(total: int, start: int, len: int) -> Result<(), PreparedGenError> {
    if start + len > usize::MAX {
        Err(PreparedGenError::RangeOverflow)
    } else if start <= total && start + len <= total {
        Ok(())
    } else {
        Err(PreparedGenError::RangeOutside)
    }
}

pub fn checked_range(total: usize, start: usize, len: usize) -> (r: Result<(), PreparedGenError>)
    ensures
        r == gen_range_check(total as int, start as int, len as int),
{
    match start.checked_add(len) {
        None => Err(PreparedGenError::RangeOverflow),
        Some(end) => if start <= total && end <= total {
            Ok(())
        } else {
            Err(PreparedGenError::RangeOutside)
        },
    }
}

pub fn read_u16(data: &[u8], offset: usize) -> (r: Result<u16, PreparedGenError>)
    ensures
        offset + 2 <= data@.len() ==> r == Ok::<u16, PreparedGenError>(le_u16(data@, offset as int) as u16),
        offset + 2 > data@.len() ==> r == Err::<u16, PreparedGenError>(PreparedGenError::ReadPastEnd),
{
    match crate::le_bytes::get_u16(data, offset) {
        Some(v) => Ok(v),
        None => Err(PreparedGenError::ReadPastEnd),
    }
}

pub fn read_u32(data: &[u8], offset: usize) -> (r: Result<u32, PreparedGenError>)
    ensures
        offset + 4 <= data@.len() ==> r == Ok::<u32, PreparedGenError>(le_u32(data@, offset as int) as u32),
        offset + 4 > data@.len() ==> r == Err::<u32, PreparedGenError>(PreparedGenError::ReadPastEnd),
{
    match crate::le_bytes::get_u32(data, offset) {
        Some(v) => Ok(v),
        None => Err(PreparedGenError::ReadPastEnd),
    }
}

/// The check of the bitmaps from the `i`-th on: each lies within the
/// bitmap data; the first that does not decides the error.
pub open spec fn vfnt_bitmaps_check(d: Seq<u8>, bio: int, bdl: int, i: int, count: int) -> Result<(), PreparedGenError>
    decreases count - i,
{
    if i >= count {
        Ok(())
    } else {
        match gen_range_check(bdl, le_u32(d, bio + 16 * i + 4), le_u32(d, bio + 16 * i + 8)) {
            Err(e) => Err(e),
            Ok(()) => vfnt_bitmaps_check(d, bio, bdl, i + 1, count),
        }
    }
}

/// The builder's own check of a VFNT font: the header is there, the magic,
/// version and bitmap format are right, and the tables, the bitmap data and
/// every bitmap lie within the font.
pub open spec fn validate_vfnt_spec(d: Seq<u8>) -> Result<(), PreparedGenError> {
    if d.len() < 44 {
        Err(PreparedGenError::VfntTruncated)
    } else if !crate::prepared_cache::vfnt_magic_ok(d) {
        Err(PreparedGenError::VfntBadMagic)
    } else if le_u16(d, 4) != 1 {
        Err(PreparedGenError::VfntBadVersion)
    } else if le_u16(d, 42) != 1 {
        Err(PreparedGenError::VfntBadFormat)
    } else {
        let count = le_u32(d, 20);
        let mo = le_u32(d, 24);
        let bio = le_u32(d, 28);
        let bdo = le_u32(d, 32);
        let bdl = le_u32(d, 36);
        match gen_range_check(d.len() as int, mo, count * 16) {
            Err(e) => Err(e),
            Ok(()) => match gen_range_check(d.len() as int, bio, count * 16) {
                Err(e) => Err(e),
                Ok(()) => match gen_range_check(d.len() as int, bdo, bdl) {
                    Err(e) => Err(e),
                    Ok(()) => vfnt_bitmaps_check(d, bio, bdl, 0, count),
                },
            },
        }
    }
}

pub fn validate_vfnt(data: &[u8]) -> (r: Result<(), PreparedGenError>)
    ensures
        r == validate_vfnt_spec(data@),
{
    let ghost d = data@;
    if data.len() < 44 {
        return Err(PreparedGenError::VfntTruncated);
    }
    if !(data[0] == 0x56u8 && data[1] == 0x46u8 && data[2] == 0x4eu8 && data[3] == 0x54u8) {
        return Err(PreparedGenError::VfntBadMagic);
    }
    if read_u16(data, 4)? != 1 {
        return Err(PreparedGenError::VfntBadVersion);
    }
    if read_u16(data, 42)? != 1 {
        return Err(PreparedGenError::VfntBadFormat);
    }
    let count = read_u32(data, 20)? as usize;
    let metrics_offset = read_u32(data, 24)? as usize;
    let bitmap_index_offset = read_u32(data, 28)? as usize;
    let bitmap_data_offset = read_u32(data, 32)? as usize;
    let bitmap_data_len = read_u32(data, 36)? as usize;
    let table64 = (count as u64) * 16;
    if table64 > usize::MAX as u64 {
        return Err(PreparedGenError::RangeOverflow);
    }
    let table = table64 as usize;
    match checked_range(data.len(), metrics_offset, table) {
        Err(e) => {
            return Err(e);
        },
        Ok(()) => {},
    }
    match checked_range(data.len(), bitmap_index_offset, table) {
        Err(e) => {
            return Err(e);
        },
        Ok(()) => {},
    }
    match checked_range(data.len(), bitmap_data_offset, bitmap_data_len) {
        Err(e) => {
            return Err(e);
        },
        Ok(()) => {},
    }
    let n = data.len();
    let mut index: usize = 0;
    while index < count
        invariant
            d == data@,
            n == d.len(),
            index <= count,
            count == le_u32(d, 20),
            bitmap_index_offset == le_u32(d, 28),
            bitmap_data_len == le_u32(d, 36),
            bitmap_index_offset + count * 16 <= n,
            validate_vfnt_spec(d) == vfnt_bitmaps_check(d, bitmap_index_offset as int, bitmap_data_len as int, index as int, count as int),
        decreases count - index,
    {
        proof {
            assert(index * 16 + 16 <= count * 16) by (nonlinear_arith)
                requires
                    index < count,
            ;
        }
        let off = bitmap_index_offset + index * 16;
        let bitmap_offset = read_u32(data, off + 4)? as usize;
        let bitmap_len = read_u32(data, off + 8)? as usize;
        match checked_range(bitmap_data_len, bitmap_offset, bitmap_len) {
            Err(e) => {
                return Err(e);
            },
            Ok(()) => {},
        }
        index = index + 1;
    }
    Ok(())
}

/// The glyph id of the `i`-th metrics record of a table at `mo`.
pub open spec fn metric_id_at(d: Seq<u8>, mo: int, i: int) -> int {
    le_u32(d, mo + 16 * i)
}

/// The glyph ids a VFNT font's metrics table lists.
pub open spec fn vfnt_listed_ids(d: Seq<u8>) -> Set<u32> {
    Set::new(|x: u32| exists|i: int| 0 <= i < le_u32(d, 20) && #[trigger] metric_id_at(d, le_u32(d, 24), i) == x)
}

/// The glyph ids a valid VFNT font lists, each once.
pub fn vfnt_glyph_ids(data: &[u8]) -> (r: Result<Vec<u32>, PreparedGenError>)
    ensures
        match validate_vfnt_spec(data@) {
            Err(e) => r matches Err(x) && x == e,
            Ok(()) => r matches Ok(v) && v@.no_duplicates() && v@.to_set() == vfnt_listed_ids(data@),
        },
{
    match validate_vfnt(data) {
        Err(e) => {
            return Err(e);
        },
        Ok(()) => {},
    }
    let ghost d = data@;
    let count = read_u32(data, 20).unwrap() as usize;
    let metrics_offset = read_u32(data, 24).unwrap() as usize;
    let n = data.len();
    let mut ids: Vec<u32> = Vec::new();
    let mut index: usize = 0;
    while index < count
        invariant
            d == data@,
            n == d.len(),
            index <= count,
            count == le_u32(d, 20),
            metrics_offset == le_u32(d, 24),
            metrics_offset + count * 16 <= n,
            ids@.no_duplicates(),
            ids@.to_set() == Set::new(|x: u32| exists|i: int| 0 <= i < index && #[trigger] metric_id_at(d, metrics_offset as int, i) == x),
        decreases count - index,
    {
        proof {
            assert(index * 16 + 16 <= count * 16) by (nonlinear_arith)
                requires
                    index < count,
            ;
        }
        let id = read_u32(data, metrics_offset + index * 16).unwrap();
        let ghost before = ids@;
        let mut found = false;
        let mut k: usize = 0;
        while k < ids.len()
            invariant
                k <= ids@.len(),
                !found ==> forall|j: int| 0 <= j < k ==> ids@[j] != id,
                found ==> ids@.contains(id),
            decreases ids@.len() - k,
        {
            if ids[k] == id {
                found = true;
            }
            k = k + 1;
        }
        if !found {
            ids.push(id);
            proof {
                before.lemma_push_to_set_commute(id);
                assert forall|a: int, b: int| 0 <= a < b < ids@.len() implies ids@[a] != ids@[b] by {
                    if b == before.len() {
                        assert(before[a] != id);
                    }
                }
            }
        }
        proof {
            assert(ids@.to_set() =~= Set::new(|x: u32| exists|i: int| 0 <= i < index + 1 && #[trigger] metric_id_at(d, metrics_offset as int, i) == x)) by {
                assert forall|x: u32| ids@.to_set().contains(x) <==> (exists|i: int| 0 <= i < index + 1 && #[trigger] metric_id_at(d, metrics_offset as int, i) == x) by {
                    if x == id {
                        assert(metric_id_at(d, metrics_offset as int, index as int) == x);
                    }
                }
            }
        }
        index = index + 1;
    }
    proof {
        assert(ids@.to_set() =~= vfnt_listed_ids(d));
    }
    Ok(ids)
}

/// The distinct glyph ids of a font on a page, in increasing order.
pub fn glyph_ids_for_font(page: &PreparedPage, font_id: u32) -> (r: Vec<u32>)
    ensures
        forall|a: int, b: int| 0 <= a < b < r@.len() ==> r@[a] < r@[b],
        r@.to_set() == Set::new(|x: u32| exists|i: int| 0 <= i < page.glyphs@.len() && (#[trigger] page.glyphs@[i]).font_id == font_id && page.glyphs@[i].glyph_id == x),
{
    let ghost gs = page.glyphs@;
    let mut ids: Vec<u32> = Vec::new();
    let mut i: usize = 0;
    while i < page.glyphs.len()
        invariant
            gs == page.glyphs@,
            i <= gs.len(),
            forall|a: int, b: int| 0 <= a < b < ids@.len() ==> ids@[a] < ids@[b],
            ids@.to_set() == Set::new(|x: u32| exists|k: int| 0 <= k < i && (#[trigger] gs[k]).font_id == font_id && gs[k].glyph_id == x),
        decreases gs.len() - i,
    {
        let g = page.glyphs[i];
        if g.font_id == font_id {
            let id = g.glyph_id;
            let mut pos: usize = 0;
            while pos < ids.len() && ids[pos] < id
                invariant
                    pos <= ids@.len(),
                    forall|k: int| 0 <= k < pos ==> ids@[k] < id,
                decreases ids@.len() - pos,
            {
                pos = pos + 1;
            }
            let ghost before = ids@;
            if pos < ids.len() && ids[pos] == id {
                assert(before.to_set().contains(id));
                assert(ids@.to_set() =~= Set::new(|x: u32| exists|k: int| 0 <= k < i + 1 && (#[trigger] gs[k]).font_id == font_id && gs[k].glyph_id == x)) by {
                    assert forall|x: u32| ids@.to_set().contains(x) <==> (exists|k: int| 0 <= k < i + 1 && (#[trigger] gs[k]).font_id == font_id && gs[k].glyph_id == x) by {
                        if x == id {
                            assert(gs[i as int].glyph_id == x);
                        }
                    }
                }
            } else {
                proof {
                    assert forall|k: int| pos <= k < before.len() implies before[k] > id by {
                        if pos < before.len() {
                            assert(before[pos as int] >= id);
                            assert(before[pos as int] != id);
                            if k > pos {
                                assert(before[pos as int] < before[k]);
                            }
                        }
                    }
                }
                ids.insert(pos, id);
                proof {
                    assert forall|a: int, b: int| 0 <= a < b < ids@.len() implies ids@[a] < ids@[b] by {
                        if a < pos && b < pos {
                        } else if a < pos && b == pos {
                        } else if a < pos {
                            assert(ids@[b] == before[b - 1]);
                        } else if a == pos {
                            assert(ids@[b] == before[b - 1]);
                        } else {
                            assert(ids@[a] == before[a - 1] && ids@[b] == before[b - 1]);
                        }
                    }
                    assert(ids@.to_set() =~= Set::new(|x: u32| exists|k: int| 0 <= k < i + 1 && (#[trigger] gs[k]).font_id == font_id && gs[k].glyph_id == x)) by {
                        assert forall|x: u32| ids@.to_set().contains(x) <==> before.to_set().contains(x) || x == id by {
                            if ids@.contains(x) {
                                let j = choose|j: int| 0 <= j < ids@.len() && ids@[j] == x;
                                if j < pos {
                                    assert(before[j] == x);
                                } else if j > pos {
                                    assert(before[j - 1] == x);
                                }
                            }
                            if before.contains(x) {
                                let j = choose|j: int| 0 <= j < before.len() && before[j] == x;
                                if j < pos {
                                    assert(ids@[j] == x);
                                } else {
                                    assert(ids@[j + 1] == x);
                                }
                            }
                            if x == id {
                                assert(ids@[pos as int] == id);
                            }
                        }
                        assert forall|x: u32| ids@.to_set().contains(x) <==> (exists|k: int| 0 <= k < i + 1 && (#[trigger] gs[k]).font_id == font_id && gs[k].glyph_id == x) by {
                            assert(before.to_set().contains(x) == (exists|k: int| 0 <= k < i && (#[trigger] gs[k]).font_id == font_id && gs[k].glyph_id == x));
                            if x == id {
                                assert(gs[i as int].glyph_id == x);
                            }
                            if (exists|k: int| 0 <= k < i + 1 && (#[trigger] gs[k]).font_id == font_id && gs[k].glyph_id == x) {
                                let k = choose|k: int| 0 <= k < i + 1 && (#[trigger] gs[k]).font_id == font_id && gs[k].glyph_id == x;
                                if k < i {
                                    assert(before.to_set().contains(x));
                                }
                            }
                        }
                    }
                }
            }
        } else {
            assert(ids@.to_set() =~= Set::new(|x: u32| exists|k: int| 0 <= k < i + 1 && (#[trigger] gs[k]).font_id == font_id && gs[k].glyph_id == x)) by {
                assert forall|x: u32| ids@.to_set().contains(x) <==> (exists|k: int| 0 <= k < i + 1 && (#[trigger] gs[k]).font_id == font_id && gs[k].glyph_id == x) by {
                    if (exists|k: int| 0 <= k < i + 1 && (#[trigger] gs[k]).font_id == font_id && gs[k].glyph_id == x) {
                        let k = choose|k: int| 0 <= k < i + 1 && (#[trigger] gs[k]).font_id == font_id && gs[k].glyph_id == x;
                        assert(k < i);
                    }
                }
            }
        }
        i = i + 1;
    }
    ids
}

/// Why a page's glyph cannot be served by the fonts written for it: an id
/// missing from its script font, or an unknown font.
pub open spec fn page_ref_error(g: PositionedGlyph, lat: Seq<u32>, dev: Seq<u32>, guj: Seq<u32>) -> Option<PreparedGenError> {
    if g.font_id == FONT_LATIN {
        if lat.contains(g.glyph_id) { None } else { Some(PreparedGenError::MissingGlyph(g.glyph_id)) }
    } else if g.font_id == FONT_DEVANAGARI {
        if dev.contains(g.glyph_id) { None } else { Some(PreparedGenError::MissingGlyph(g.glyph_id)) }
    } else if g.font_id == FONT_GUJARATI {
        if guj.contains(g.glyph_id) { None } else { Some(PreparedGenError::MissingGlyph(g.glyph_id)) }
    } else {
        Some(PreparedGenError::UnknownFontReference(g.font_id))
    }
}

/// The error of the first glyph that cannot be served.
pub open spec fn first_page_ref_error(gs: Seq<PositionedGlyph>, lat: Seq<u32>, dev: Seq<u32>, guj: Seq<u32>) -> Option<PreparedGenError>
    decreases gs.len(),
{
    if gs.len() == 0 {
        None
    } else {
        match page_ref_error(gs[0], lat, dev, guj) {
            Some(e) => Some(e),
            None => first_page_ref_error(gs.drop_first(), lat, dev, guj),
        }
    }
}

fn slice_contains(ids: &[u32], id: u32) -> (r: bool)
    ensures
        r == ids@.contains(id),
{
    let mut i: usize = 0;
    while i < ids.len()
        invariant
            i <= ids@.len(),
            forall|k: int| 0 <= k < i ==> ids@[k] != id,
        decreases ids@.len() - i,
    {
        if ids[i] == id {
            assert(ids@[i as int] == id);
            return true;
        }
        i = i + 1;
    }
    false
}

/// Checks that every glyph of a page is in the font written for its script.
pub fn validate_page_references(page: &PreparedPage, latin_ids: &[u32], devanagari_ids: &[u32], gujarati_ids: &[u32]) -> (r: Result<(), PreparedGenError>)
    ensures
        r == match first_page_ref_error(page.glyphs@, latin_ids@, devanagari_ids@, gujarati_ids@) {
            Some(e) => Err::<(), PreparedGenError>(e),
            None => Ok(()),
        },
{
    let ghost gs = page.glyphs@;
    let mut i: usize = 0;
    assert(gs.skip(0) =~= gs);
    while i < page.glyphs.len()
        invariant
            gs == page.glyphs@,
            i <= gs.len(),
            first_page_ref_error(gs, latin_ids@, devanagari_ids@, gujarati_ids@) == first_page_ref_error(gs.skip(i as int), latin_ids@, devanagari_ids@, gujarati_ids@),
        decreases gs.len() - i,
    {
        let g = page.glyphs[i];
        assert(gs.skip(i as int)[0] == g);
        assert(gs.skip(i as int).drop_first() =~= gs.skip(i + 1));
        if g.font_id == FONT_LATIN {
            if !slice_contains(latin_ids, g.glyph_id) {
                return Err(PreparedGenError::MissingGlyph(g.glyph_id));
            }
        } else if g.font_id == FONT_DEVANAGARI {
            if !slice_contains(devanagari_ids, g.glyph_id) {
                return Err(PreparedGenError::MissingGlyph(g.glyph_id));
            }
        } else if g.font_id == FONT_GUJARATI {
            if !slice_contains(gujarati_ids, g.glyph_id) {
                return Err(PreparedGenError::MissingGlyph(g.glyph_id));
            }
        } else {
            return Err(PreparedGenError::UnknownFontReference(g.font_id));
        }
        i = i + 1;
    }
    assert(gs.skip(i as int) =~= Seq::<PositionedGlyph>::empty());
    Ok(())
}

// ---------------------------------------------------------------------------
// Bitmaps

/// The integer metrics of a rasterized glyph: its bounding box.
#[derive(Clone, Copy, Debug, PartialEq, Eq, Structural)]
pub struct RasterMetrics {
    pub xmin: i32,
    pub ymin: i32,
    pub width: usize,
    pub height: usize,
}

/// Bytes per 1-bpp row of `w` pixels.
pub open spec fn row_bytes(w: int) -> int {
    (w + 7) / 8
}

/// The size of a glyph's 1-bpp bitmap: its rows times the bytes per row,
/// saturated at `usize::MAX`.
pub fn one_bpp_bitmap_len(metrics: &RasterMetrics) -> (r: usize)
    ensures
        r == if row_bytes(metrics.width as int) * metrics.height > usize::MAX {
            usize::MAX as int
        } else {
            row_bytes(metrics.width as int) * metrics.height
        },
{
    let stride = metrics.width / 8 + if metrics.width % 8 != 0 { 1 } else { 0 };
    assert(stride == row_bytes(metrics.width as int));
    match stride.checked_mul(metrics.height) {
        Some(v) => v,
        None => usize::MAX,
    }
}

/// Whether the pixel at `(x, y)` of a `w`-wide coverage map is inked.
pub open spec fn inked(gray: Seq<u8>, w: int, y: int, x: int) -> bool {
    gray[y * w + x] >= 96
}

/// The weight of bit `b` of a byte, most significant first.
pub open spec fn bit_weight(b: int) -> int {
    if b == 0 { 128 } else if b == 1 { 64 } else if b == 2 { 32 } else if b == 3 { 16 } else if b == 4 { 8 } else if b == 5 { 4 } else if b == 6 { 2 } else { 1 }
}

/// Bit `b` of byte `j` of row `y`: set when its pixel exists and is inked.
pub open spec fn packed_bit(gray: Seq<u8>, w: int, y: int, j: int, b: int) -> int {
    if 8 * j + b < w && inked(gray, w, y, 8 * j + b) { bit_weight(b) } else { 0 }
}

/// Byte `j` of row `y` of the 1-bpp bitmap.
pub open spec fn packed_byte(gray: Seq<u8>, w: int, y: int, j: int) -> u8 {
    (packed_bit(gray, w, y, j, 0) + packed_bit(gray, w, y, j, 1) + packed_bit(gray, w, y, j, 2) + packed_bit(gray, w, y, j, 3)
        + packed_bit(gray, w, y, j, 4) + packed_bit(gray, w, y, j, 5) + packed_bit(gray, w, y, j, 6) + packed_bit(gray, w, y, j, 7)) as u8
}

/// The first `n` rows of the 1-bpp bitmap, `stride` bytes each.
pub open spec fn one_bpp_rows(gray: Seq<u8>, w: int, stride: int, n: int) -> Seq<u8>
    decreases n,
{
    if n <= 0 {
        Seq::empty()
    } else {
        one_bpp_rows(gray, w, stride, n - 1) + Seq::new(stride as nat, |j: int| packed_byte(gray, w, n - 1, j))
    }
}

/// Thresholds an 8-bit coverage map into a 1-bpp bitmap: a pixel is inked
/// at coverage 96 or more; rows are padded to whole bytes, most significant
/// bit first. Returns the bitmap and its row stride.
pub fn coverage_to_one_bpp(grayscale: &[u8], width: usize, height: usize) -> (r: (Vec<u8>, u16))
    requires
        width * height <= grayscale@.len(),
        row_bytes(width as int) * height <= usize::MAX,
    ensures
        r.0@ == one_bpp_rows(grayscale@, width as int, row_bytes(width as int), height as int),
        r.0@.len() == row_bytes(width as int) * height,
        r.1 == (row_bytes(width as int) as u16),
{
    let stride = width / 8 + if width % 8 != 0 { 1 } else { 0 };
    assert(stride == row_bytes(width as int));
    let ghost g = grayscale@;
    let mut out: Vec<u8> = Vec::new();
    let mut y: usize = 0;
    while y < height
        invariant
            g == grayscale@,
            stride == row_bytes(width as int),
            width * height <= g.len(),
            y <= height,
            out@ == one_bpp_rows(g, width as int, stride as int, y as int),
        decreases height - y,
    {
        let ghost before = out@;
        let mut j: usize = 0;
        while j < stride
            invariant
                g == grayscale@,
                stride == row_bytes(width as int),
                width * height <= g.len(),
                y < height,
                j <= stride,
                out@ == before + Seq::new(j as nat, |k: int| packed_byte(g, width as int, y as int, k)),
            decreases stride - j,
        {
            let mut byte: u32 = 0;
            let mut b: usize = 0;
            while b < 8
                invariant
                    g == grayscale@,
                    width * height <= g.len(),
                    y < height,
                    j < stride,
                    stride == row_bytes(width as int),
                    b <= 8,
                    byte == (if b > 0 { packed_bit(g, width as int, y as int, j as int, 0) } else { 0 })
                        + (if b > 1 { packed_bit(g, width as int, y as int, j as int, 1) } else { 0 })
                        + (if b > 2 { packed_bit(g, width as int, y as int, j as int, 2) } else { 0 })
                        + (if b > 3 { packed_bit(g, width as int, y as int, j as int, 3) } else { 0 })
                        + (if b > 4 { packed_bit(g, width as int, y as int, j as int, 4) } else { 0 })
                        + (if b > 5 { packed_bit(g, width as int, y as int, j as int, 5) } else { 0 })
                        + (if b > 6 { packed_bit(g, width as int, y as int, j as int, 6) } else { 0 })
                        + (if b > 7 { packed_bit(g, width as int, y as int, j as int, 7) } else { 0 }),
                decreases 8 - b,
            {
                let x = 8 * j + b;
                if x < width {
                    proof {
                        assert(y * width + x < width * height) by (nonlinear_arith)
                            requires
                                y < height,
                                x < width,
                        ;
                    }
                    let glen = grayscale.len();
                    assert(y * width + x < glen);
                    let idx = y * width + x;
                    if grayscale[idx] >= 96 {
                        let weight: u32 = if b == 0 { 128 } else if b == 1 { 64 } else if b == 2 { 32 } else if b == 3 { 16 } else if b == 4 { 8 } else if b == 5 { 4 } else if b == 6 { 2 } else { 1 };
                        byte = byte + weight;
                    }
                }
                b = b + 1;
            }
            out.push(byte as u8);
            assert(out@ =~= before + Seq::new((j + 1) as nat, |k: int| packed_byte(g, width as int, y as int, k)));
            j = j + 1;
        }
        y = y + 1;
    }
    proof {
        lemma_one_bpp_rows_len(g, width as int, stride as int, height as int);
    }
    (out, #[verifier::truncate] (stride as u16))
}

proof fn lemma_one_bpp_rows_len(gray: Seq<u8>, w: int, stride: int, n: int)
    requires
        stride >= 0,
        n >= 0,
    ensures
        one_bpp_rows(gray, w, stride, n).len() == stride * n,
    decreases n,
{
    if n > 0 {
        lemma_one_bpp_rows_len(gray, w, stride, n - 1);
        let row = Seq::new(stride as nat, |j: int| packed_byte(gray, w, n - 1, j));
        assert(one_bpp_rows(gray, w, stride, n) == one_bpp_rows(gray, w, stride, n - 1) + row);
        assert(row.len() == stride);
        assert(stride * (n - 1) + stride == stride * n) by (nonlinear_arith);
    } else {
        assert(stride * n == 0) by (nonlinear_arith)
            requires
                n == 0,
        ;
    }
}

// ---------------------------------------------------------------------------
// Layout

/// A glyph as the shaper placed it, in pixels.
#[derive(Clone, Copy, Debug, PartialEq, Eq, Structural)]
pub struct ShapedGlyph {
    pub font_id: u32,
    pub glyph_id: u32,
    pub x_offset: i16,
    pub y_offset: i16,
    pub advance_x: i16,
    pub advance_y: i16,
    pub cluster: u32,
}

/// A shaped glyph with its rasterized box and its share of the page budget.
#[derive(Clone, Copy, Debug, PartialEq, Eq, Structural)]
pub struct MeasuredGlyph {
    pub shaped: ShapedGlyph,
    pub metrics: RasterMetrics,
    pub resource: GlyphResource,
}

/// The page geometry and line height text is laid out with.
#[derive(Clone, Copy, Debug, PartialEq, Eq, Structural)]
pub struct LayoutConfig {
    pub page_width: i16,
    pub page_height: i16,
    pub margin_x: i16,
    pub margin_y: i16,
    pub line_height: i16,
}

/// The pages text was laid out into, and how many page breaks the per-page
/// budget forced.
pub struct LayoutResult {
    pub pages: Vec<PreparedPage>,
    pub resource_split_pages: usize,
}

/// `a + b`, saturated into `i16`.
pub fn sat_add_i16(a: i16, b: i16) -> (r: i16)
    ensures
        r == clamp_i16(a + b),
{
    let v: i32 = a as i32 + b as i32;
    if v < -32768 {
        -32768
    } else if v > 32767 {
        32767
    } else {
        v as i16
    }
}

/// `a - b`, saturated into `i16`.
pub fn sat_sub_i16(a: i16, b: i16) -> (r: i16)
    ensures
        r == clamp_i16(a - b),
{
    let v: i32 = a as i32 - b as i32;
    if v < -32768 {
        -32768
    } else if v > 32767 {
        32767
    } else {
        v as i16
    }
}

/// The glyphs of a sequence of pages, page after page.
pub open spec fn flat_pages(ps: Seq<PreparedPage>) -> Seq<PositionedGlyph>
    decreases ps.len(),
{
    if ps.len() == 0 {
        Seq::empty()
    } else {
        flat_pages(ps.drop_last()) + ps.last().glyphs@
    }
}

/// A placed glyph is the measured one: same font, glyph, advances and cluster.
pub open spec fn placed_from(p: PositionedGlyph, m: MeasuredGlyph) -> bool {
    &&& p.font_id == m.shaped.font_id
    &&& p.glyph_id == m.shaped.glyph_id
    &&& p.advance_x == m.shaped.advance_x
    &&& p.advance_y == m.shaped.advance_y
    &&& p.cluster == m.shaped.cluster
}

/// A layout in progress, as the contracts see it: the finished pages, the
/// glyphs of the page being filled, that page's budget (glyph count, bytes
/// per script font, the glyphs its fonts hold), the pen position, and how
/// many page breaks the budget forced.
#[verifier::ext_equal]
pub struct LayoutView {
    pub pages: Seq<Seq<PositionedGlyph>>,
    pub current: Seq<PositionedGlyph>,
    pub glyph_count: int,
    pub font_bytes: Seq<int>,
    pub ids: Set<(u32, u32)>,
    pub x: int,
    pub baseline: int,
    pub splits: int,
    pub page_font_bytes: Seq<Seq<int>>,
}

/// Per-font byte counts a page can hold: one per script font, each within
/// `MAX_FONT_BYTES`.
pub open spec fn fonts_within_limit(fb: Seq<int>) -> bool {
    &&& fb.len() == 3
    &&& forall|s: int| 0 <= s < 3 ==> #[trigger] fb[s] <= MAX_FONT_BYTES
}

/// The first baseline of a page.
pub open spec fn first_baseline(c: LayoutConfig) -> int {
    c.margin_y + c.line_height
}

/// A fresh layout: no page finished, the pen at the left margin on the
/// first baseline.
pub open spec fn start_view(c: LayoutConfig) -> LayoutView {
    LayoutView {
        pages: Seq::empty(),
        current: Seq::empty(),
        glyph_count: 0,
        font_bytes: seq![0int, 0, 0],
        ids: Set::empty(),
        x: c.margin_x as int,
        baseline: first_baseline(c),
        splits: 0,
        page_font_bytes: Seq::empty(),
    }
}

/// A new page: the current one is finished (its per-font byte counts kept
/// with it), the budget starts over and the pen goes to the left margin on
/// the first baseline.
pub open spec fn next_page_view(v: LayoutView, c: LayoutConfig) -> LayoutView {
    LayoutView {
        pages: v.pages.push(v.current),
        current: Seq::empty(),
        glyph_count: 0,
        font_bytes: seq![0int, 0, 0],
        ids: Set::empty(),
        x: c.margin_x as int,
        baseline: first_baseline(c),
        splits: v.splits,
        page_font_bytes: v.page_font_bytes.push(v.font_bytes),
    }
}

/// The baseline one line further down, saturated into `i16`.
pub open spec fn lowered_baseline(v: LayoutView, c: LayoutConfig) -> int {
    clamp_i16(v.baseline + c.line_height)
}

/// A new line past the bottom of the page starts a new page.
pub open spec fn line_overflows(v: LayoutView, c: LayoutConfig) -> bool {
    lowered_baseline(v, c) + c.line_height > c.page_height
}

/// A new line: the pen goes back to the left margin one line lower, or to a
/// new page when that line would pass the bottom of the page.
pub open spec fn next_line_view(v: LayoutView, c: LayoutConfig) -> LayoutView {
    if line_overflows(v, c) {
        next_page_view(v, c)
    } else {
        LayoutView { x: c.margin_x as int, baseline: lowered_baseline(v, c), ..v }
    }
}

/// Where a measured glyph lands with the pen at `(x, baseline)`: its bitmap
/// box is placed by the shaping offsets and its bearing, every step
/// saturated into `i16`.
pub open spec fn glyph_at(x: int, baseline: int, m: MeasuredGlyph) -> PositionedGlyph {
    PositionedGlyph {
        font_id: m.shaped.font_id,
        glyph_id: m.shaped.glyph_id,
        x: clamp_i16(clamp_i16(x + m.shaped.x_offset) + (m.metrics.xmin as i16)) as i16,
        y: clamp_i16(clamp_i16(clamp_i16(baseline - (m.metrics.height as i16)) - (m.metrics.ymin as i16)) + m.shaped.y_offset) as i16,
        advance_x: m.shaped.advance_x,
        advance_y: m.shaped.advance_y,
        cluster: m.shaped.cluster,
    }
}

/// The raster box of `m` fits `i16` coordinates, as the page records need.
pub open spec fn metrics_in_i16(m: MeasuredGlyph) -> bool {
    &&& -32768 <= m.metrics.xmin <= 32767
    &&& -32768 <= m.metrics.ymin <= 32767
    &&& m.metrics.height <= 32767
}

/// Where a glyph lands, away from the edges of `i16`: its box's left edge
/// is the pen's x moved by the shaping x offset and the glyph's left
/// bearing; its top edge is the baseline raised by the glyph's height,
/// moved by its lowest row and then by the shaping y offset (added, in the
/// page's downward y). The glyph keeps its font, id, advances and cluster.
pub proof fn lemma_glyph_position(x: int, baseline: int, m: MeasuredGlyph)
    requires
        metrics_in_i16(m),
        -32768 <= x + m.shaped.x_offset <= 32767,
        -32768 <= x + m.shaped.x_offset + m.metrics.xmin <= 32767,
        -32768 <= baseline - m.metrics.height <= 32767,
        -32768 <= baseline - m.metrics.height - m.metrics.ymin <= 32767,
        -32768 <= baseline - m.metrics.height - m.metrics.ymin + m.shaped.y_offset <= 32767,
    ensures
        glyph_at(x, baseline, m).x == x + m.shaped.x_offset + m.metrics.xmin,
        glyph_at(x, baseline, m).y == baseline - m.metrics.height - m.metrics.ymin + m.shaped.y_offset,
        placed_from(glyph_at(x, baseline, m), m),
{
}

/// The shaping offsets move a glyph the way they point: a larger y offset
/// never places the glyph higher (and, away from the edges of `i16`, moves
/// it down by exactly the difference), and leaves its x alone; likewise a
/// larger x offset never places it further left, and leaves its y alone.
pub proof fn lemma_offsets_move_glyph(x: int, baseline: int, m: MeasuredGlyph, dx: i16, dy: i16)
    requires
        metrics_in_i16(m),
        m.shaped.x_offset <= dx,
        m.shaped.y_offset <= dy,
    ensures
        ({
            let my = MeasuredGlyph { shaped: ShapedGlyph { y_offset: dy, ..m.shaped }, ..m };
            let mx = MeasuredGlyph { shaped: ShapedGlyph { x_offset: dx, ..m.shaped }, ..m };
            let inner_y = clamp_i16(clamp_i16(baseline - m.metrics.height) - m.metrics.ymin);
            &&& glyph_at(x, baseline, m).y <= glyph_at(x, baseline, my).y
            &&& glyph_at(x, baseline, my).x == glyph_at(x, baseline, m).x
            &&& (-32768 <= inner_y + m.shaped.y_offset && inner_y + dy <= 32767 ==> glyph_at(x, baseline, my).y
                - glyph_at(x, baseline, m).y == dy - m.shaped.y_offset)
            &&& glyph_at(x, baseline, m).x <= glyph_at(x, baseline, mx).x
            &&& glyph_at(x, baseline, mx).y == glyph_at(x, baseline, m).y
        }),
{
}

/// The glyphs placed one after the other, the pen advancing by each glyph's
/// advance.
pub open spec fn place_glyphs(v: LayoutView, ms: Seq<MeasuredGlyph>) -> LayoutView
    decreases ms.len(),
{
    if ms.len() == 0 {
        v
    } else {
        let w = place_glyphs(v, ms.drop_last());
        LayoutView {
            current: w.current.push(glyph_at(w.x, w.baseline, ms.last())),
            x: clamp_i16(w.x + ms.last().shaped.advance_x),
            ..w
        }
    }
}

/// The width of a cluster: its advances summed, saturated into `i16`.
pub open spec fn cluster_advance(ms: Seq<MeasuredGlyph>) -> int
    decreases ms.len(),
{
    if ms.len() == 0 {
        0
    } else {
        clamp_i16(cluster_advance(ms.drop_last()) + ms.last().shaped.advance_x)
    }
}

/// The budget shares of a cluster's glyphs.
pub open spec fn cluster_resources(ms: Seq<MeasuredGlyph>) -> Seq<GlyphResource> {
    ms.map_values(|m: MeasuredGlyph| m.resource)
}

/// The view with the budget that `projected_spec` gave.
pub open spec fn with_budget(v: LayoutView, n: int, fb: Seq<int>, ids: Set<(u32, u32)>) -> LayoutView {
    LayoutView { glyph_count: n, font_bytes: fb, ids, ..v }
}

/// Placing one cluster: a cluster wider than what is left of the line,
/// with the pen past the left margin, starts a new line. When the page's
/// budget cannot take the cluster, an empty page refuses it
/// (`ClusterTooLarge`, with the cluster's id); otherwise a new page starts
/// (a page break the budget forced) and a cluster that does not fit an empty
/// page either is refused. Errors of the budget itself pass through.
pub open spec fn place_cluster_view(v: LayoutView, c: LayoutConfig, ms: Seq<MeasuredGlyph>) -> Result<LayoutView, PreparedGenError> {
    let v1 = if clamp_i16(v.x + cluster_advance(ms)) > c.page_width && v.x > c.margin_x {
        next_line_view(v, c)
    } else {
        v
    };
    let rs = cluster_resources(ms);
    match projected_spec(v1.glyph_count, v1.font_bytes, v1.ids, rs) {
        Err(e) => Err(e),
        Ok(Some((n, fb, ids))) => Ok(place_glyphs(with_budget(v1, n, fb, ids), ms)),
        Ok(None) => if v1.current.len() == 0 {
            Err(PreparedGenError::ClusterTooLarge(ms[0].shaped.cluster))
        } else {
            let v2 = next_page_view(v1, c);
            let v3 = LayoutView { splits: if v2.splits < usize::MAX { v2.splits + 1 } else { v2.splits }, ..v2 };
            match projected_spec(0, seq![0int, 0, 0], Set::empty(), rs) {
                Err(e) => Err(e),
                Ok(None) => Err(PreparedGenError::ClusterTooLarge(ms[0].shaped.cluster)),
                Ok(Some((n, fb, ids))) => Ok(place_glyphs(with_budget(v3, n, fb, ids), ms)),
            }
        },
    }
}

/// The end of the cluster that starts at `start`, looking from `i` on: the
/// first later glyph with another cluster id, or the end of the run.
pub open spec fn cluster_end(ms: Seq<MeasuredGlyph>, start: int, i: int) -> int
    decreases ms.len() - i,
{
    if i < ms.len() && ms[i].shaped.cluster == ms[start].shaped.cluster {
        cluster_end(ms, start, i + 1)
    } else {
        i
    }
}

/// A cluster ends after its first glyph and within the run.
pub proof fn lemma_cluster_end_bounds(ms: Seq<MeasuredGlyph>, start: int, i: int)
    requires
        i <= ms.len(),
    ensures
        i <= cluster_end(ms, start, i) <= ms.len(),
    decreases ms.len() - i,
{
    if i < ms.len() && ms[i].shaped.cluster == ms[start].shaped.cluster {
        lemma_cluster_end_bounds(ms, start, i + 1);
    }
}

/// A run laid out from glyph `start` on: cluster after cluster, glyphs of
/// one cluster being those next to each other with the same cluster id; the
/// first refused cluster stops the run.
pub open spec fn run_from(v: LayoutView, c: LayoutConfig, ms: Seq<MeasuredGlyph>, start: int) -> Result<LayoutView, PreparedGenError>
    decreases ms.len() - start,
{
    if start < 0 || start >= ms.len() {
        Ok(v)
    } else {
        let end = cluster_end(ms, start, start + 1);
        proof {
            lemma_cluster_end_bounds(ms, start, start + 1);
        }
        match place_cluster_view(v, c, ms.subrange(start, end)) {
            Err(e) => Err(e),
            Ok(w) => run_from(w, c, ms, end),
        }
    }
}

/// Lays shaped, measured text out into pages: glyphs flow left to right,
/// clusters stay whole, a cluster that would cross the right edge starts a
/// new line, a line past the bottom starts a new page, and a cluster whose
/// glyphs or bitmaps would overflow the reader's per-page budget starts a
/// new page.
pub struct TextLayout {
    config: LayoutConfig,
    baseline_start: i16,
    completed: Vec<PreparedPage>,
    current: Vec<PositionedGlyph>,
    budget: PageBudget,
    resource_split_pages: usize,
    x: i16,
    baseline: i16,
    page_fonts: Ghost<Seq<Seq<int>>>,
}

impl View for TextLayout {
    type V = LayoutView;

    closed spec fn view(&self) -> LayoutView {
        LayoutView {
            pages: self.completed@.map_values(|p: PreparedPage| p.glyphs@),
            current: self.current@,
            glyph_count: self.budget.glyph_count as int,
            font_bytes: self.budget.font_bytes_spec(),
            ids: self.budget.ids(),
            x: self.x as int,
            baseline: self.baseline as int,
            splits: self.resource_split_pages as int,
            page_font_bytes: self.page_fonts@,
        }
    }
}

impl TextLayout {
    pub closed spec fn wf(&self) -> bool {
        &&& self.baseline_start == first_baseline(self.config)
        &&& self.budget.wf()
        &&& within_limits(self.budget.glyph_count as int, self.budget.font_bytes_spec())
        &&& self.budget.glyph_count == self.current@.len()
        &&& self.current@.len() == 0 ==> self.budget.font_bytes_spec() == seq![0int, 0, 0] && self.budget.ids() == Set::<(u32, u32)>::empty()
        &&& forall|i: int| 0 <= i < self.completed@.len() ==> (#[trigger] self.completed@[i]).glyphs@.len() <= MAX_PAGE_GLYPHS
        &&& self.page_fonts@.len() == self.completed@.len()
        &&& forall|i: int| 0 <= i < self.page_fonts@.len() ==> fonts_within_limit(#[trigger] self.page_fonts@[i])
    }

    /// The pages finished so far.
    pub closed spec fn completed_pages(&self) -> Seq<PreparedPage> {
        self.completed@
    }

    /// The page being filled.
    pub closed spec fn current_page(&self) -> Seq<PositionedGlyph> {
        self.current@
    }

    /// Every glyph placed so far, in order.
    pub open spec fn placed(&self) -> Seq<PositionedGlyph> {
        flat_pages(self.completed_pages()) + self.current_page()
    }

    pub closed spec fn config_spec(&self) -> LayoutConfig {
        self.config
    }

    pub fn new(config: LayoutConfig) -> (r: Self)
        requires
            -32768 <= config.margin_y + config.line_height <= 32767,
        ensures
            r.wf(),
            r.completed_pages().len() == 0,
            r.current_page().len() == 0,
            r.config_spec() == config,
            r@ == start_view(config),
    {
        let budget = PageBudget::empty();
        TextLayout {
            config,
            baseline_start: config.margin_y + config.line_height,
            completed: Vec::new(),
            current: Vec::new(),
            budget,
            resource_split_pages: 0,
            x: config.margin_x,
            baseline: config.margin_y + config.line_height,
            page_fonts: Ghost(Seq::empty()),
        }
    }

    /// Starts a new page at the top-left margin.
    fn next_page(&mut self)
        requires
            old(self).wf(),
        ensures
            final(self).wf(),
            final(self).completed@ == old(self).completed@.push(PreparedPage { glyphs: old(self).current }),
            final(self).current@.len() == 0,
            final(self).placed() == old(self).placed(),
            final(self).config == old(self).config,
            final(self).resource_split_pages == old(self).resource_split_pages,
            final(self)@ == next_page_view(old(self)@, old(self).config),
    {
        let mut page: Vec<PositionedGlyph> = Vec::new();
        std::mem::swap(&mut page, &mut self.current);
        let ghost done = old(self).completed@;
        self.completed.push(PreparedPage { glyphs: page });
        self.page_fonts = Ghost(self.page_fonts@.push(self.budget.font_bytes_spec()));
        self.budget = PageBudget::empty();
        self.x = self.config.margin_x;
        self.baseline = self.baseline_start;
        proof {
            assert(self.completed@.drop_last() =~= done);
            assert(self.placed() =~= old(self).placed());
            assert(self.completed@.map_values(|p: PreparedPage| p.glyphs@) =~= done.map_values(|p: PreparedPage| p.glyphs@).push(old(self).current@));
            assert(self@ =~= next_page_view(old(self)@, old(self).config));
        }
    }

    /// Starts a new line; past the bottom of the page, a new page. Reports
    /// whether a new page began.
    fn next_line(&mut self) -> (r: bool)
        requires
            old(self).wf(),
        ensures
            final(self).wf(),
            final(self).placed() == old(self).placed(),
            old(self).completed@.len() <= final(self).completed@.len(),
            final(self).completed@.subrange(0, old(self).completed@.len() as int) == old(self).completed@,
            final(self).config == old(self).config,
            final(self).resource_split_pages == old(self).resource_split_pages,
            r ==> final(self).current@.len() == 0,
            !r ==> final(self).current@ == old(self).current@ && final(self).budget == old(self).budget && final(self).completed@ == old(self).completed@,
            r == line_overflows(old(self)@, old(self).config),
            final(self)@ == next_line_view(old(self)@, old(self).config),
    {
        self.x = self.config.margin_x;
        self.baseline = sat_add_i16(self.baseline, self.config.line_height);
        if (self.baseline as i32) + (self.config.line_height as i32) > self.config.page_height as i32 {
            self.next_page();
            assert(self.completed@.subrange(0, old(self).completed@.len() as int) =~= old(self).completed@);
            true
        } else {
            assert(self.completed@.subrange(0, old(self).completed@.len() as int) =~= old(self).completed@);
            assert(self@ =~= next_line_view(old(self)@, old(self).config));
            false
        }
    }

    /// Places one cluster of glyphs.
    #[verifier::rlimit(40)]
    fn place_cluster(&mut self, cluster: &[MeasuredGlyph]) -> (r: Result<(), PreparedGenError>)
        requires
            old(self).wf(),
            cluster@.len() > 0,
        ensures
            final(self).wf(),
            final(self).config == old(self).config,
            old(self).completed@.len() <= final(self).completed@.len(),
            final(self).completed@.subrange(0, old(self).completed@.len() as int) == old(self).completed@,
            r is Ok ==> {
                &&& final(self).placed().len() == old(self).placed().len() + cluster@.len()
                &&& forall|i: int| 0 <= i < old(self).placed().len() ==> final(self).placed()[i] == old(self).placed()[i]
                &&& forall|j: int| 0 <= j < cluster@.len() ==> placed_from(
                    #[trigger] final(self).placed()[old(self).placed().len() + j],
                    cluster@[j],
                )
            },
            match place_cluster_view(old(self)@, old(self).config, cluster@) {
                Ok(v) => r is Ok && final(self)@ == v,
                Err(e) => r == Err::<(), PreparedGenError>(e),
            },
            r matches Err(e) ==> e is ClusterTooLarge || e is UnknownFontSlot || e is GlyphCountOverflow
                || e is PageByteCountOverflow || e is FontByteCountOverflow,
    {
        let ghost c = self.config;
        let ghost v0 = self@;
        let cluster_id = cluster[0].shaped.cluster;
        let mut advance: i16 = 0;
        let mut k: usize = 0;
        while k < cluster.len()
            invariant
                k <= cluster@.len(),
                advance == cluster_advance(cluster@.take(k as int)),
            decreases cluster@.len() - k,
        {
            proof {
                assert(cluster@.take(k + 1).drop_last() =~= cluster@.take(k as int));
            }
            advance = sat_add_i16(advance, cluster[k].shaped.advance_x);
            k = k + 1;
        }
        assert(cluster@.take(k as int) =~= cluster@);
        if sat_add_i16(self.x, advance) > self.config.page_width && self.x > self.config.margin_x {
            let _ = self.next_line();
        }
        let ghost mid = *self;
        let ghost v1 = self@;
        assert(v1 == (if clamp_i16(v0.x + cluster_advance(cluster@)) > c.page_width && v0.x > c.margin_x {
            next_line_view(v0, c)
        } else {
            v0
        }));
        let mut resources: Vec<GlyphResource> = Vec::new();
        let mut k: usize = 0;
        while k < cluster.len()
            invariant
                k <= cluster@.len(),
                resources@ == cluster_resources(cluster@.take(k as int)),
            decreases cluster@.len() - k,
        {
            resources.push(cluster[k].resource);
            proof {
                assert(resources@ =~= cluster_resources(cluster@.take(k + 1)));
            }
            k = k + 1;
        }
        assert(resources@ =~= cluster_resources(cluster@));
        proof {
            lemma_projected_error_kinds(self.budget.glyph_count as int, self.budget.font_bytes_spec(), self.budget.ids(), resources@);
            lemma_projected_error_kinds(0, seq![0int, 0, 0], Set::empty(), resources@);
        }
        let fits = match self.budget.add(resources.as_slice()) {
            Ok(f) => f,
            Err(e) => {
                return Err(e);
            },
        };
        if !fits {
            assert(self@ =~= v1);
            if self.current.len() == 0 {
                return Err(PreparedGenError::ClusterTooLarge(cluster_id));
            }
            self.next_page();
            assert(self.completed@.subrange(0, old(self).completed@.len() as int) =~= old(self).completed@);
            self.resource_split_pages = self.resource_split_pages.saturating_add(1);
            self.budget = PageBudget::empty();
            let fits_alone = match self.budget.add(resources.as_slice()) {
                Ok(f) => f,
                Err(e) => {
                    return Err(e);
                },
            };
            if !fits_alone {
                return Err(PreparedGenError::ClusterTooLarge(cluster_id));
            }
        }
        proof {
            lemma_budget_within_limits(0, seq![0int, 0, 0], Set::empty(), resources@);
            lemma_budget_within_limits(mid.budget.glyph_count as int, mid.budget.font_bytes_spec(), mid.budget.ids(), resources@);
        }
        let ghost before = self.placed();
        let ghost start_len = self.current@.len();
        let ghost base = flat_pages(self.completed@);
        let ghost vstart = self@;
        assert(self.budget.glyph_count == start_len + cluster@.len());
        assert(cluster@.take(0) =~= Seq::<MeasuredGlyph>::empty());
        let mut k: usize = 0;
        while k < cluster.len()
            invariant
                k <= cluster@.len(),
                self.current@.len() == start_len + k,
                base == flat_pages(self.completed@),
                self.placed() == flat_pages(self.completed@) + self.current@,
                self.placed().len() == before.len() + k,
                forall|i: int| 0 <= i < before.len() ==> self.placed()[i] == before[i],
                forall|j: int| 0 <= j < k ==> placed_from(#[trigger] self.placed()[before.len() + j], cluster@[j]),
                self.budget.glyph_count == start_len + cluster@.len(),
                self.budget.wf(),
                within_limits(self.budget.glyph_count as int, self.budget.font_bytes_spec()),
                forall|i: int| 0 <= i < self.completed@.len() ==> (#[trigger] self.completed@[i]).glyphs@.len() <= MAX_PAGE_GLYPHS,
                self.completed@.subrange(0, old(self).completed@.len() as int) == old(self).completed@,
                old(self).completed@.len() <= self.completed@.len(),
                self.config == old(self).config,
                self.baseline_start == first_baseline(self.config),
                self.page_fonts@.len() == self.completed@.len(),
                forall|i: int| 0 <= i < self.page_fonts@.len() ==> fonts_within_limit(#[trigger] self.page_fonts@[i]),
                self@ == place_glyphs(vstart, cluster@.take(k as int)),
            decreases cluster@.len() - k,
        {
            let glyph = cluster[k];
            let xmin16: i16 = #[verifier::truncate] (glyph.metrics.xmin as i16);
            let height16: i16 = #[verifier::truncate] (glyph.metrics.height as i16);
            let ymin16: i16 = #[verifier::truncate] (glyph.metrics.ymin as i16);
            let draw_x = sat_add_i16(sat_add_i16(self.x, glyph.shaped.x_offset), xmin16);
            let draw_y = sat_add_i16(sat_sub_i16(sat_sub_i16(self.baseline, height16), ymin16), glyph.shaped.y_offset);
            let placed = PositionedGlyph {
                font_id: glyph.shaped.font_id,
                glyph_id: glyph.shaped.glyph_id,
                x: draw_x,
                y: draw_y,
                advance_x: glyph.shaped.advance_x,
                advance_y: glyph.shaped.advance_y,
                cluster: glyph.shaped.cluster,
            };
            let ghost prev = self.placed();
            let ghost w = self@;
            proof {
                assert(cluster@.take(k + 1).drop_last() =~= cluster@.take(k as int));
                assert(placed == glyph_at(w.x, w.baseline, glyph));
            }
            self.current.push(placed);
            proof {
                assert(self.placed() =~= prev.push(placed));
            }
            self.x = sat_add_i16(self.x, glyph.shaped.advance_x);
            proof {
                assert(self@ =~= place_glyphs(vstart, cluster@.take(k + 1)));
            }
            k = k + 1;
        }
        assert(cluster@.take(k as int) =~= cluster@);
        Ok(())
    }

    /// Lays out one script run: its glyphs, grouped into clusters of equal
    /// cluster id, are placed cluster by cluster.
    pub fn add_run(&mut self, measured: &[MeasuredGlyph]) -> (r: Result<(), PreparedGenError>)
        requires
            old(self).wf(),
        ensures
            final(self).wf(),
            final(self).config_spec() == old(self).config_spec(),
            old(self).completed_pages().len() <= final(self).completed_pages().len(),
            final(self).completed_pages().subrange(0, old(self).completed_pages().len() as int) == old(self).completed_pages(),
            r is Ok ==> {
                &&& final(self).placed().len() == old(self).placed().len() + measured@.len()
                &&& forall|i: int| 0 <= i < old(self).placed().len() ==> final(self).placed()[i] == old(self).placed()[i]
                &&& forall|j: int| 0 <= j < measured@.len() ==> placed_from(
                    #[trigger] final(self).placed()[old(self).placed().len() + j],
                    measured@[j],
                )
            },
            r matches Err(e) ==> e is ClusterTooLarge || e is UnknownFontSlot || e is GlyphCountOverflow
                || e is PageByteCountOverflow || e is FontByteCountOverflow,
            match run_from(old(self)@, old(self).config_spec(), measured@, 0) {
                Ok(v) => r is Ok && final(self)@ == v,
                Err(e) => r == Err::<(), PreparedGenError>(e),
            },
    {
        let ghost before = self.placed();
        let ghost c = self.config;
        let mut start: usize = 0;
        while start < measured.len()
            invariant
                start <= measured@.len(),
                self.wf(),
                self.config == old(self).config,
                old(self).completed@.len() <= self.completed@.len(),
                self.completed@.subrange(0, old(self).completed@.len() as int) == old(self).completed@,
                before == old(self).placed(),
                self.placed().len() == before.len() + start,
                forall|i: int| 0 <= i < before.len() ==> self.placed()[i] == before[i],
                forall|j: int| 0 <= j < start ==> placed_from(#[trigger] self.placed()[before.len() + j], measured@[j]),
                c == self.config,
                run_from(old(self)@, c, measured@, 0) == run_from(self@, c, measured@, start as int),
            decreases measured@.len() - start,
        {
            let cluster_id = measured[start].shaped.cluster;
            let mut end = start + 1;
            while end < measured.len() && measured[end].shaped.cluster == cluster_id
                invariant
                    start < end <= measured@.len(),
                    cluster_id == measured@[start as int].shaped.cluster,
                    cluster_end(measured@, start as int, start + 1) == cluster_end(measured@, start as int, end as int),
                decreases measured@.len() - end,
            {
                end = end + 1;
            }
            assert(cluster_end(measured@, start as int, start + 1) == end);
            let cluster = vstd::slice::slice_subrange(measured, start, end);
            let ghost prev = self.placed();
            let ghost prev_completed = self.completed@;
            match self.place_cluster(cluster) {
                Ok(()) => {},
                Err(e) => {
                    proof {
                        assert(self.completed@.subrange(0, old(self).completed@.len() as int) =~= old(self).completed@) by {
                            assert(prev_completed.subrange(0, old(self).completed@.len() as int) == old(self).completed@);
                            assert forall|i: int| 0 <= i < old(self).completed@.len() implies self.completed@[i] == old(self).completed@[i] by {
                                assert(self.completed@.subrange(0, prev_completed.len() as int)[i] == prev_completed[i]);
                                assert(prev_completed.subrange(0, old(self).completed@.len() as int)[i] == old(self).completed@[i]);
                            }
                        }
                    }
                    return Err(e);
                },
            }
            proof {
                assert forall|i: int| 0 <= i < old(self).completed@.len() implies self.completed@[i] == old(self).completed@[i] by {
                    assert(self.completed@.subrange(0, prev_completed.len() as int)[i] == prev_completed[i]);
                    assert(prev_completed.subrange(0, old(self).completed@.len() as int)[i] == old(self).completed@[i]);
                }
                assert(self.completed@.subrange(0, old(self).completed@.len() as int) =~= old(self).completed@);
                assert forall|j: int| 0 <= j < end implies placed_from(#[trigger] self.placed()[before.len() + j], measured@[j]) by {
                    if j < start {
                        assert(self.placed()[before.len() + j] == prev[before.len() + j]);
                    } else {
                        assert(cluster@[j - start] == measured@[j]);
                        assert(placed_from(self.placed()[prev.len() + (j - start)], cluster@[j - start]));
                    }
                }
            }
            start = end;
        }
        Ok(())
    }

    /// Ends a line of text: the next text starts on a new line, or a new page.
    pub fn end_line(&mut self)
        requires
            old(self).wf(),
        ensures
            final(self).wf(),
            final(self).placed() == old(self).placed(),
            final(self).config_spec() == old(self).config_spec(),
            old(self).completed_pages().len() <= final(self).completed_pages().len(),
            final(self).completed_pages().subrange(0, old(self).completed_pages().len() as int) == old(self).completed_pages(),
            final(self)@ == next_line_view(old(self)@, old(self).config_spec()),
    {
        if self.next_line() {
            self.budget = PageBudget::empty();
        }
    }

    /// The pages laid out, the last one included, and the count of budget
    /// page breaks.
    pub fn finish(self) -> (r: LayoutResult)
        requires
            self.wf(),
        ensures
            r.pages@.len() == self.completed_pages().len() + 1,
            flat_pages(r.pages@) == self.placed(),
            forall|i: int| 0 <= i < r.pages@.len() ==> (#[trigger] r.pages@[i]).glyphs@.len() <= MAX_PAGE_GLYPHS,
            r.pages@.map_values(|p: PreparedPage| p.glyphs@) == self@.pages.push(self@.current),
            r.resource_split_pages == self@.splits,
            self@.page_font_bytes.push(self@.font_bytes).len() == r.pages@.len(),
            forall|i: int| 0 <= i < r.pages@.len() ==> fonts_within_limit(#[trigger] self@.page_font_bytes.push(self@.font_bytes)[i]),
    {
        let TextLayout { completed, current, resource_split_pages, .. } = self;
        let mut pages = completed;
        let ghost done = pages@;
        pages.push(PreparedPage { glyphs: current });
        assert(pages@.drop_last() =~= done);
        assert(pages@.map_values(|p: PreparedPage| p.glyphs@) =~= done.map_values(|p: PreparedPage| p.glyphs@).push(current@));
        LayoutResult { pages, resource_split_pages }
    }
}

/// The pen's x after the first `j` glyphs of `ms`, starting at `x`: each
/// glyph moves it right by its advance, saturated into `i16`.
pub open spec fn pen_after(x: int, ms: Seq<MeasuredGlyph>, j: int) -> int
    decreases j,
{
    if j <= 0 {
        x
    } else {
        clamp_i16(pen_after(x, ms, j - 1) + ms[j - 1].shaped.advance_x)
    }
}

proof fn lemma_pen_after_prefix(x: int, ms: Seq<MeasuredGlyph>, n: int, j: int)
    requires
        0 <= j <= n <= ms.len(),
    ensures
        pen_after(x, ms.take(n), j) == pen_after(x, ms, j),
    decreases j,
{
    if j > 0 {
        lemma_pen_after_prefix(x, ms, n, j - 1);
        assert(ms.take(n)[j - 1] == ms[j - 1]);
    }
}

/// Placing glyphs appends them to the current page, in order, and leaves
/// the finished pages alone; the `j`-th lands where the pen stands after the
/// glyphs before it, on the same baseline, and the pen ends after all of
/// them.
pub proof fn lemma_place_glyphs(v: LayoutView, ms: Seq<MeasuredGlyph>)
    ensures
        place_glyphs(v, ms).pages == v.pages,
        place_glyphs(v, ms).current.len() == v.current.len() + ms.len(),
        place_glyphs(v, ms).current.subrange(0, v.current.len() as int) == v.current,
        forall|j: int| 0 <= j < ms.len() ==> placed_from(
            #[trigger] place_glyphs(v, ms).current[v.current.len() + j],
            ms[j],
        ),
        forall|j: int| 0 <= j < ms.len() ==> #[trigger] place_glyphs(v, ms).current[v.current.len() + j]
            == glyph_at(pen_after(v.x, ms, j), v.baseline, ms[j]),
        place_glyphs(v, ms).baseline == v.baseline,
        place_glyphs(v, ms).x == pen_after(v.x, ms, ms.len() as int),
    decreases ms.len(),
{
    if ms.len() > 0 {
        let init = ms.drop_last();
        lemma_place_glyphs(v, init);
        let w = place_glyphs(v, init);
        let r = place_glyphs(v, ms);
        assert(init =~= ms.take(init.len() as int));
        assert(r.current == w.current.push(glyph_at(w.x, w.baseline, ms.last())));
        assert(r.current.subrange(0, v.current.len() as int) =~= w.current.subrange(0, v.current.len() as int));
        lemma_pen_after_prefix(v.x, ms, init.len() as int, init.len() as int);
        assert forall|j: int| 0 <= j < ms.len() implies placed_from(#[trigger] r.current[v.current.len() + j], ms[j])
            && r.current[v.current.len() + j] == glyph_at(pen_after(v.x, ms, j), v.baseline, ms[j]) by {
            if j < init.len() {
                assert(r.current[v.current.len() + j] == w.current[v.current.len() + j]);
                assert(init[j] == ms[j]);
                lemma_pen_after_prefix(v.x, ms, init.len() as int, j);
            }
        }
    }
}

/// A shaped cluster is never split: a placed cluster's glyphs are the last
/// glyphs of the page being filled, all of them, in order.
pub proof fn lemma_cluster_kept_whole(v: LayoutView, c: LayoutConfig, ms: Seq<MeasuredGlyph>)
    ensures
        place_cluster_view(v, c, ms) matches Ok(w) ==> {
            &&& w.current.len() >= ms.len()
            &&& forall|j: int| 0 <= j < ms.len() ==> placed_from(
                #[trigger] w.current[w.current.len() - ms.len() + j],
                ms[j],
            )
        },
{
    let v1 = if clamp_i16(v.x + cluster_advance(ms)) > c.page_width && v.x > c.margin_x {
        next_line_view(v, c)
    } else {
        v
    };
    let rs = cluster_resources(ms);
    match projected_spec(v1.glyph_count, v1.font_bytes, v1.ids, rs) {
        Ok(Some((n, fb, ids))) => lemma_place_glyphs(with_budget(v1, n, fb, ids), ms),
        Ok(None) => {
            let v2 = next_page_view(v1, c);
            let v3 = LayoutView { splits: if v2.splits < usize::MAX { v2.splits + 1 } else { v2.splits }, ..v2 };
            match projected_spec(0, seq![0int, 0, 0], Set::empty(), rs) {
                Ok(Some((n, fb, ids))) => lemma_place_glyphs(with_budget(v3, n, fb, ids), ms),
                _ => {},
            }
        },
        _ => {},
    }
}

/// Every page a layout produces fits the reader: no page holds more than
/// `MAX_GLYPHS` glyphs, so each page's VRUN file stays within the reader's
/// page size and is one the reader accepts.
pub proof fn lemma_layout_pages_readable(r: Seq<PreparedPage>, width: u16, height: u16)
    requires
        forall|i: int| 0 <= i < r.len() ==> (#[trigger] r[i]).glyphs@.len() <= MAX_PAGE_GLYPHS,
    ensures
        forall|i: int| 0 <= i < r.len() ==> vrun_bytes((#[trigger] r[i]).glyphs@, width, height).len() <= MAX_PAGE_BYTES,
        forall|i: int| 0 <= i < r.len() ==> vrun_parse_spec(vrun_bytes((#[trigger] r[i]).glyphs@, width, height))
            == Ok::<int, crate::prepared_cache::PreparedTxtError>(r[i].glyphs@.len() as int),
{
    assert forall|i: int| 0 <= i < r.len() implies vrun_parse_spec(vrun_bytes((#[trigger] r[i]).glyphs@, width, height))
        == Ok::<int, crate::prepared_cache::PreparedTxtError>(r[i].glyphs@.len() as int) by {
        lemma_vrun_roundtrip(r[i].glyphs@, width, height);
    }
    assert forall|i: int| 0 <= i < r.len() implies vrun_bytes((#[trigger] r[i]).glyphs@, width, height).len() <= MAX_PAGE_BYTES by {
        lemma_vrun_records(r[i].glyphs@);
    }
}

} // verus!
