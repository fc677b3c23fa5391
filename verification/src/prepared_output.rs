//! The files of a prepared cache as the builder writes them: the laid-out
//! pages trimmed and checked, each page's VRUN file and page-local VFNT
//! fonts under the reader's size limits, and the META.TXT text.
use vstd::prelude::*;
use vstd::string::StringSliceAdditionalSpecFns;
use vstd::utf8::encode_utf8;
use crate::prepared_cache::{key_is, last_value, parse_meta_spec, PreparedCacheLayout, cache_format_bad, decimal_value, is_ascii_digit, text_number, FONT_DEVANAGARI, FONT_GUJARATI, FONT_LATIN, page_local_args_ok, page_local_stem, PAGE_LOCAL_CAPACITY, MAX_FONT_BYTES};
use crate::key_value_text::{chars_of, kv_entries, lemma_kv_entries_line, lemma_kv_entries_split, plain_key};
use crate::std_text::is_unicode_whitespace;
use crate::std_text::{string_push, string_push_str};
use crate::prepared_gen::{
    asset_ids, build_vfnt, build_vrun, clamp_i16, is_stable_order, ordered_assets, page_local_file_name,
    meta_value, meta_value_spec, validate_vfnt, book_folder_spec, fnv1a, hex_char, normalized_path_spec, validate_vfnt_spec, vfnt_bytes, vfnt_line_height, vrun_bytes, GlyphAsset,
    PositionedGlyph, PreparedGenError, PreparedPage, MAX_PAGE_BYTES, MAX_PAGE_GLYPHS,
};

verus! {

/// The page count once trailing empty pages are dropped; the first page
/// always stays.
pub open spec fn trimmed_page_count(ps: Seq<PreparedPage>) -> nat
    decreases ps.len(),
{
    if ps.len() > 1 && ps.last().glyphs@.len() == 0 {
        trimmed_page_count(ps.drop_last())
    } else {
        ps.len()
    }
}

/// No page holds a glyph.
pub open spec fn all_pages_empty(ps: Seq<PreparedPage>) -> bool {
    forall|i: int| 0 <= i < ps.len() ==> (#[trigger] ps[i]).glyphs@.len() == 0
}

/// Trimming keeps a prefix with the first page, drops only empty pages, and
/// leaves a book with no glyph at all with none.
pub proof fn lemma_trimmed_page_count(ps: Seq<PreparedPage>)
    ensures
        trimmed_page_count(ps) <= ps.len(),
        ps.len() > 0 ==> trimmed_page_count(ps) >= 1,
        forall|i: int| trimmed_page_count(ps) <= i < ps.len() ==> (#[trigger] ps[i]).glyphs@.len() == 0,
        all_pages_empty(ps) <==> all_pages_empty(ps.subrange(0, trimmed_page_count(ps) as int)),
    decreases ps.len(),
{
    if ps.len() > 1 && ps.last().glyphs@.len() == 0 {
        let q = ps.drop_last();
        lemma_trimmed_page_count(q);
        assert(q.subrange(0, trimmed_page_count(q) as int) =~= ps.subrange(0, trimmed_page_count(ps) as int));
        assert forall|i: int| trimmed_page_count(ps) <= i < ps.len() implies (#[trigger] ps[i]).glyphs@.len() == 0 by {
            if i < q.len() {
                assert(ps[i] == q[i]);
            }
        }
        if all_pages_empty(q) {
            assert forall|i: int| 0 <= i < ps.len() implies (#[trigger] ps[i]).glyphs@.len() == 0 by {
                if i < q.len() {
                    assert(ps[i] == q[i]);
                }
            }
        }
        if all_pages_empty(ps) {
            assert forall|i: int| 0 <= i < q.len() implies (#[trigger] q[i]).glyphs@.len() == 0 by {
                assert(ps[i] == q[i]);
            }
        }
    } else {
        assert(ps.subrange(0, ps.len() as int) =~= ps);
    }
}

/// What becomes of the laid-out pages before they are written: trailing
/// empty pages are dropped (the first stays); a book with no glyph at all is
/// `NoGlyphs`; more pages than five base-36 digits can name is
/// `TooManyPages` with the count.
pub open spec fn finish_pages_spec(ps: Seq<PreparedPage>) -> Result<(), PreparedGenError> {
    if all_pages_empty(ps) {
        Err(PreparedGenError::NoGlyphs)
    } else if trimmed_page_count(ps) > PAGE_LOCAL_CAPACITY {
        Err(PreparedGenError::TooManyPages(trimmed_page_count(ps) as usize))
    } else {
        Ok(())
    }
}

/// Drops trailing empty pages and checks what is left; the pages are
/// trimmed whatever the answer.
pub fn finish_pages(pages: &mut Vec<PreparedPage>) -> (r: Result<(), PreparedGenError>)
    ensures
        final(pages)@ == old(pages)@.subrange(0, trimmed_page_count(old(pages)@) as int),
        r == finish_pages_spec(old(pages)@),
{
    proof {
        lemma_trimmed_page_count(old(pages)@);
    }
    while pages.len() > 1 && pages[pages.len() - 1].glyphs.len() == 0
        invariant
            trimmed_page_count(pages@) == trimmed_page_count(old(pages)@),
            trimmed_page_count(old(pages)@) <= pages@.len() <= old(pages)@.len(),
            pages@ == old(pages)@.subrange(0, pages@.len() as int),
        decreases pages@.len(),
    {
        let ghost before = pages@;
        let _ = pages.pop();
        proof {
            assert(pages@ =~= before.drop_last());
            lemma_trimmed_page_count(pages@);
        }
    }
    proof {
        if pages@.len() > trimmed_page_count(old(pages)@) {
            assert(pages@.len() <= 1 || pages@.last().glyphs@.len() != 0);
            assert(trimmed_page_count(pages@) == pages@.len());
        }
    }
    assert(pages@ =~= old(pages)@.subrange(0, trimmed_page_count(old(pages)@) as int));
    let mut any = false;
    let mut i: usize = 0;
    while i < pages.len()
        invariant
            i <= pages@.len(),
            any <==> exists|j: int| 0 <= j < i && (#[trigger] pages@[j]).glyphs@.len() != 0,
        decreases pages@.len() - i,
    {
        if pages[i].glyphs.len() != 0 {
            any = true;
        }
        i = i + 1;
    }
    if !any {
        return Err(PreparedGenError::NoGlyphs);
    }
    if pages.len() > PAGE_LOCAL_CAPACITY {
        return Err(PreparedGenError::TooManyPages(pages.len()));
    }
    Ok(())
}

/// A file of the cache, by its views: the name and the bytes.
pub open spec fn file_view(r: Result<(String, Vec<u8>), PreparedGenError>) -> Result<(Seq<char>, Seq<u8>), PreparedGenError> {
    match r {
        Ok((name, bytes)) => Ok((name@, bytes@)),
        Err(e) => Err(e),
    }
}

/// The three ASCII bytes of a file extension.
proof fn lemma_extension_bytes(ext: &str)
    requires
        vstd::string::is_ascii(ext),
    ensures
        ext.spec_bytes().len() == ext@.len(),
        forall|i: int| 0 <= i < ext@.len() ==> (#[trigger] ext.spec_bytes()[i]) as int == ext@[i] as int,
{
    vstd::string::is_ascii_spec_bytes(ext);
}

/// A page's VRUN file: `P`, the page number in base 36, `.VRN`, and the
/// page's bytes. A page with more glyphs than the reader takes is
/// `PageGlyphLimit` (page, glyphs); a page past the names' range is
/// `InvalidPageLocalName`; a file over the reader's byte limit is
/// `PageByteLimit` (page, bytes).
pub open spec fn page_file_spec(glyphs: Seq<PositionedGlyph>, index: int, width: u16, height: u16) -> Result<(Seq<char>, Seq<u8>), PreparedGenError> {
    if glyphs.len() > MAX_PAGE_GLYPHS {
        Err(PreparedGenError::PageGlyphLimit(index as usize, glyphs.len() as usize))
    } else if !(0 <= index < PAGE_LOCAL_CAPACITY) {
        Err(PreparedGenError::InvalidPageLocalName)
    } else if vrun_bytes(glyphs, width, height).len() > MAX_PAGE_BYTES {
        Err(PreparedGenError::PageByteLimit(index as usize, vrun_bytes(glyphs, width, height).len() as usize))
    } else {
        Ok((page_local_stem('P', index, "VRN"), vrun_bytes(glyphs, width, height)))
    }
}

pub fn page_file(page: &PreparedPage, index: usize, width: u16, height: u16) -> (r: Result<(String, Vec<u8>), PreparedGenError>)
    ensures
        file_view(r) == page_file_spec(page.glyphs@, index as int, width, height),
{
    if page.glyphs.len() > MAX_PAGE_GLYPHS {
        return Err(PreparedGenError::PageGlyphLimit(index, page.glyphs.len()));
    }
    proof {
        reveal_strlit("VRN");
        lemma_extension_bytes("VRN");
        assert(page_local_args_ok('P', index as int, "VRN") <==> index < PAGE_LOCAL_CAPACITY);
    }
    let name = match page_local_file_name('P', index, "VRN") {
        Ok(n) => n,
        Err(e) => {
            return Err(e);
        },
    };
    let data = match build_vrun(page, width, height) {
        Ok(d) => d,
        Err(e) => {
            return Err(e);
        },
    };
    if data.len() > MAX_PAGE_BYTES {
        return Err(PreparedGenError::PageByteLimit(index, data.len()));
    }
    Ok((name, data))
}

/// A page-local font file once its bytes are built: the builder's own VFNT
/// check decides first, then the reader's byte limit (`FontByteLimit` with
/// page and bytes), then the name: the prefix, the page in base 36, `.VFN`.
pub open spec fn font_file_spec(bytes: Seq<u8>, index: int, prefix: char) -> Result<(Seq<char>, Seq<u8>), PreparedGenError> {
    if validate_vfnt_spec(bytes) is Err {
        Err(validate_vfnt_spec(bytes)->Err_0)
    } else if bytes.len() > MAX_FONT_BYTES {
        Err(PreparedGenError::FontByteLimit(index as usize, bytes.len() as usize))
    } else if !page_local_args_ok(prefix, index, "VFN") {
        Err(PreparedGenError::InvalidPageLocalName)
    } else {
        Ok((page_local_stem(prefix, index, "VFN"), bytes))
    }
}

/// A page-local font file from the rasterized glyphs that a page uses:
/// the VFNT font of the glyphs sorted by glyph id (ties in the given
/// order), checked and named as `font_file_spec` says; no glyph at all is
/// `NoUsedGlyphs`.
pub fn page_font_file(
    index: usize,
    prefix: char,
    script_code: u16,
    pixel_size: u16,
    ceil_u16: u16,
    ascent: i16,
    assets: &[GlyphAsset],
) -> (r: Result<(String, Vec<u8>), PreparedGenError>)
    requires
        clamp_i16((vfnt_line_height(ceil_u16) as u16 as i16) - ascent) != -32768,
        44 + 32 * assets@.len() <= usize::MAX,
    ensures
        assets@.len() == 0 ==> r == Err::<(String, Vec<u8>), PreparedGenError>(PreparedGenError::NoUsedGlyphs),
        assets@.len() > 0 ==> exists|p: Seq<usize>| is_stable_order(asset_ids(assets@), p) && file_view(r) == font_file_spec(
            vfnt_bytes(script_code, pixel_size, ceil_u16, ascent, ordered_assets(assets@, p)),
            index as int,
            prefix,
        ),
{
    let vfnt = match build_vfnt(script_code, pixel_size, ceil_u16, ascent, assets) {
        Ok(v) => v,
        Err(e) => {
            return Err(e);
        },
    };
    let ghost p = choose|p: Seq<usize>| is_stable_order(asset_ids(assets@), p) && vfnt@ == vfnt_bytes(
        script_code,
        pixel_size,
        ceil_u16,
        ascent,
        ordered_assets(assets@, p),
    );
    match validate_vfnt(vfnt.as_slice()) {
        Ok(()) => {},
        Err(e) => {
            return Err(e);
        },
    }
    if vfnt.len() > MAX_FONT_BYTES {
        return Err(PreparedGenError::FontByteLimit(index, vfnt.len()));
    }
    let name = match page_local_file_name(prefix, index, "VFN") {
        Ok(n) => n,
        Err(e) => {
            return Err(e);
        },
    };
    Ok((name, vfnt))
}

/// The decimal digits of `n`, most significant first.
pub open spec fn decimal_spec(n: nat) -> Seq<char>
    decreases n,
{
    if n < 10 {
        seq![((48 + n) as u8) as char]
    } else {
        decimal_spec(n / 10).push(((48 + n % 10) as u8) as char)
    }
}

/// The decimal digits are ASCII digits.
proof fn lemma_decimal_digits(n: nat)
    ensures
        decimal_spec(n).len() > 0,
        forall|i: int| 0 <= i < decimal_spec(n).len() ==> '0' <= #[trigger] decimal_spec(n)[i] && decimal_spec(n)[i] <= '9',
    decreases n,
{
    if n >= 10 {
        lemma_decimal_digits(n / 10);
        assert forall|i: int| 0 <= i < decimal_spec(n).len() implies '0' <= #[trigger] decimal_spec(n)[i] && decimal_spec(n)[i] <= '9' by {
            if i < decimal_spec(n / 10).len() {
                assert(decimal_spec(n)[i] == decimal_spec(n / 10)[i]);
            }
        }
    }
}

/// The bytes of the decimal digits of `n` are ASCII digits worth `n`.
proof fn lemma_decimal_bytes(n: nat)
    ensures
        ({
            let b = encode_utf8(decimal_spec(n));
            &&& b.len() > 0
            &&& forall|i: int| 0 <= i < b.len() ==> is_ascii_digit(#[trigger] b[i])
            &&& decimal_value(b) == n
        }),
    decreases n,
{
    let c = decimal_spec(n);
    lemma_decimal_digits(n);
    assert(vstd::utf8::is_ascii_chars(c));
    vstd::utf8::is_ascii_chars_encode_utf8(c);
    let b = encode_utf8(c);
    assert forall|i: int| 0 <= i < b.len() implies is_ascii_digit(#[trigger] b[i]) by {
        assert(c[i] as u8 == b[i]);
    }
    if n < 10 {
        assert(b.len() == 1);
        assert(b[0] == c[0] as u8);
        assert(b[0] == 48 + n);
        assert(b.drop_last() =~= Seq::<u8>::empty());
        assert(decimal_value(b.drop_last()) == 0);
        assert(decimal_value(b) == n);
    } else {
        let c1 = decimal_spec(n / 10);
        lemma_decimal_bytes(n / 10);
        lemma_decimal_digits(n / 10);
        assert(vstd::utf8::is_ascii_chars(c1));
        vstd::utf8::is_ascii_chars_encode_utf8(c1);
        let b1 = encode_utf8(c1);
        assert forall|i: int| 0 <= i < b1.len() implies #[trigger] b.drop_last()[i] == b1[i] by {
            assert(c[i] == c1[i]);
            assert(c[i] as u8 == b[i]);
            assert(c1[i] as u8 == b1[i]);
        }
        assert(b.drop_last() =~= b1);
        assert(b.last() == c.last() as u8);
        assert(b.last() == 48 + n % 10);
        assert(decimal_value(b) == decimal_value(b1) * 10 + (n % 10));
        assert(decimal_value(b) == n);
    }
}

/// Decimal digits read back as the number they were written from.
pub proof fn lemma_decimal_reads_back(n: nat)
    requires
        n <= usize::MAX,
    ensures
        text_number(decimal_spec(n)) == Some(n as int),
{
    lemma_decimal_bytes(n);
}

/// Appends the decimal digits of `n`.
pub fn push_decimal(out: &mut String, n: usize)
    ensures
        final(out)@ == old(out)@ + decimal_spec(n as nat),
    decreases n,
{
    if n >= 10 {
        push_decimal(out, n / 10);
    }
    let d: u8 = (n % 10) as u8;
    let ghost mid = out@;
    string_push(out, (48 + d) as char);
    proof {
        if n >= 10 {
            assert(out@ =~= old(out)@ + decimal_spec(n as nat));
        } else {
            assert(out@ =~= old(out)@ + decimal_spec(n as nat));
        }
    }
}

/// The path without its leading slashes.
pub open spec fn strip_leading_slashes(s: Seq<char>) -> Seq<char>
    decreases s.len(),
{
    if s.len() > 0 && s[0] == '/' {
        strip_leading_slashes(s.drop_first())
    } else {
        s
    }
}

proof fn lemma_strip_leading_slashes(s: Seq<char>, k: int)
    requires
        0 <= k <= s.len(),
        forall|j: int| 0 <= j < k ==> s[j] == '/',
        k == s.len() || s[k] != '/',
    ensures
        strip_leading_slashes(s) == s.subrange(k, s.len() as int),
    decreases k,
{
    if k == 0 {
        assert(s.subrange(0, s.len() as int) =~= s);
    } else {
        let t = s.drop_first();
        assert forall|j: int| 0 <= j < k - 1 implies t[j] == '/' by {
            assert(t[j] == s[j + 1]);
        }
        lemma_strip_leading_slashes(t, k - 1);
        assert(t.subrange(k - 1, t.len() as int) =~= s.subrange(k, s.len() as int));
    }
}

/// The META.TXT of a page-local cache: the book id, the source path as the
/// reader names it (one leading slash), the title, cache format 2, the page
/// count and the page naming scheme, one `key=value` line each; values have
/// their line breaks turned into spaces.
pub open spec fn meta_text_spec(book_id: Seq<char>, device_path: Seq<char>, title: Seq<char>, page_count: nat) -> Seq<char> {
    "book_id="@ + book_id + "\nsource=/"@ + meta_value_spec(strip_leading_slashes(device_path)) + "\ntitle="@
        + meta_value_spec(title) + "\ncache_format=2\npage_count="@ + decimal_spec(page_count)
        + "\npage_name_scheme=base36-local-v1\n"@
}

/// No line break in the characters.
pub open spec fn single_line(s: Seq<char>) -> bool {
    forall|i: int| 0 <= i < s.len() ==> #[trigger] s[i] != '\n'
}

proof fn lemma_meta_value_single_line(s: Seq<char>)
    ensures
        single_line(meta_value_spec(s)),
{
}


/// A `key=value` line.
pub open spec fn kv_line(k: Seq<char>, v: Seq<char>) -> Seq<char> {
    k + seq!['='] + v
}

proof fn lemma_kv_line(k: Seq<char>, v: Seq<char>)
    requires
        plain_key(k),
        single_line(v),
    ensures
        single_line(kv_line(k, v)),
        kv_entries(kv_line(k, v)).len() == 1,
        kv_entries(kv_line(k, v))[0].0 == k,
        (v.len() == 0 || (!is_unicode_whitespace(v[0]) && !is_unicode_whitespace(v.last())))
            ==> kv_entries(kv_line(k, v))[0].1 == v,
{
    let l = kv_line(k, v);
    assert forall|i: int| 0 <= i < l.len() implies #[trigger] l[i] != '\n' by {
        if i < k.len() {
            assert(l[i] == k[i]);
        } else if i > k.len() {
            assert(l[i] == v[i - k.len() - 1]);
        }
    }
    lemma_kv_entries_line(k, v);
}

/// Lines, each followed by a line break.
pub open spec fn text_of_lines(ls: Seq<Seq<char>>) -> Seq<char>
    decreases ls.len(),
{
    if ls.len() == 0 {
        Seq::empty()
    } else {
        ls[0] + seq!['\n'] + text_of_lines(ls.drop_first())
    }
}

/// The entries of lines of one entry each are those entries, in order.
proof fn lemma_text_of_lines(ls: Seq<Seq<char>>)
    requires
        forall|i: int| 0 <= i < ls.len() ==> single_line(#[trigger] ls[i]) && kv_entries(ls[i]).len() == 1,
    ensures
        kv_entries(text_of_lines(ls)) == ls.map_values(|l: Seq<char>| kv_entries(l)[0]),
    decreases ls.len(),
{
    if ls.len() == 0 {
        assert(kv_entries(Seq::<char>::empty()) =~= Seq::<(Seq<char>, Seq<char>)>::empty());
        assert(ls.map_values(|l: Seq<char>| kv_entries(l)[0]) =~= Seq::<(Seq<char>, Seq<char>)>::empty());
    } else {
        let rest = ls.drop_first();
        assert forall|i: int| 0 <= i < rest.len() implies single_line(#[trigger] rest[i]) && kv_entries(rest[i]).len() == 1 by {
            assert(rest[i] == ls[i + 1]);
        }
        lemma_text_of_lines(rest);
        assert(single_line(ls[0]));
        lemma_kv_entries_split(ls[0], text_of_lines(rest));
        assert(kv_entries(ls[0]) =~= seq![kv_entries(ls[0])[0]]);
        assert(ls.map_values(|l: Seq<char>| kv_entries(l)[0]) =~= seq![kv_entries(ls[0])[0]] + rest.map_values(
            |l: Seq<char>| kv_entries(l)[0],
        ));
    }
}

/// The keys of META.TXT, as characters.
pub open spec fn meta_keys() -> Seq<Seq<char>> {
    seq![
        seq!['b', 'o', 'o', 'k', '_', 'i', 'd'],
        seq!['s', 'o', 'u', 'r', 'c', 'e'],
        seq!['t', 'i', 't', 'l', 'e'],
        seq!['c', 'a', 'c', 'h', 'e', '_', 'f', 'o', 'r', 'm', 'a', 't'],
        seq!['p', 'a', 'g', 'e', '_', 'c', 'o', 'u', 'n', 't'],
        seq!['p', 'a', 'g', 'e', '_', 'n', 'a', 'm', 'e', '_', 's', 'c', 'h', 'e', 'm', 'e'],
    ]
}

/// The values the builder writes under those keys.
pub open spec fn meta_values(book_id: Seq<char>, device_path: Seq<char>, title: Seq<char>, page_count: nat) -> Seq<Seq<char>> {
    seq![
        book_id,
        seq!['/'] + meta_value_spec(strip_leading_slashes(device_path)),
        meta_value_spec(title),
        seq!['2'],
        decimal_spec(page_count),
        seq!['b', 'a', 's', 'e', '3', '6', '-', 'l', 'o', 'c', 'a', 'l', '-', 'v', '1'],
    ]
}

/// The META.TXT text is its six `key=value` lines.
proof fn lemma_meta_text_lines(book_id: Seq<char>, device_path: Seq<char>, title: Seq<char>, n: nat)
    ensures
        ({
            let k = meta_keys();
            let v = meta_values(book_id, device_path, title, n);
            meta_text_spec(book_id, device_path, title, n) == text_of_lines(
                seq![
                    kv_line(k[0], v[0]),
                    kv_line(k[1], v[1]),
                    kv_line(k[2], v[2]),
                    kv_line(k[3], v[3]),
                    kv_line(k[4], v[4]),
                    kv_line(k[5], v[5]),
                ],
            )
        }),
{
    reveal_strlit("book_id=");
    reveal_strlit("\nsource=/");
    reveal_strlit("\ntitle=");
    reveal_strlit("\ncache_format=2\npage_count=");
    reveal_strlit("\npage_name_scheme=base36-local-v1\n");
    let k = meta_keys();
    let v = meta_values(book_id, device_path, title, n);
    let ls = seq![
        kv_line(k[0], v[0]),
        kv_line(k[1], v[1]),
        kv_line(k[2], v[2]),
        kv_line(k[3], v[3]),
        kv_line(k[4], v[4]),
        kv_line(k[5], v[5]),
    ];
    reveal_with_fuel(text_of_lines, 7);
    assert(ls.drop_first().drop_first().drop_first().drop_first().drop_first().drop_first() =~= Seq::<Seq<char>>::empty());
    assert(meta_text_spec(book_id, device_path, title, n) =~= text_of_lines(ls));
}

/// A plain key read as a key names no literal of another length.
proof fn lemma_plain_key_is(k: Seq<char>, name: &str)
    requires
        plain_key(k),
        vstd::string::is_ascii(name),
        k.len() != name@.len(),
    ensures
        !key_is(k, name),
{
    assert(vstd::utf8::is_ascii_chars(k));
    vstd::utf8::is_ascii_chars_encode_utf8(k);
    vstd::string::is_ascii_spec_bytes(name);
}

/// The META.TXT the builder writes reads back in the reader as the same
/// book, page count and page-local layout, whatever the source path and
/// title: for a book id that is not empty, has no line break and no
/// whitespace at its ends, and a page count from one to the base-36
/// capacity.
pub proof fn lemma_meta_roundtrip(book_id: Seq<char>, device_path: Seq<char>, title: Seq<char>, n: nat)
    requires
        book_id.len() > 0,
        single_line(book_id),
        !is_unicode_whitespace(book_id[0]),
        !is_unicode_whitespace(book_id.last()),
        1 <= n <= PAGE_LOCAL_CAPACITY,
    ensures
        parse_meta_spec(meta_text_spec(book_id, device_path, title, n)) matches Ok((b, _, pc, layout)) && b == book_id
            && pc == n && layout == PreparedCacheLayout::PageLocalBase36,
{
    let k = meta_keys();
    let v = meta_values(book_id, device_path, title, n);
    lemma_meta_text_lines(book_id, device_path, title, n);
    let ls = seq![
        kv_line(k[0], v[0]),
        kv_line(k[1], v[1]),
        kv_line(k[2], v[2]),
        kv_line(k[3], v[3]),
        kv_line(k[4], v[4]),
        kv_line(k[5], v[5]),
    ];
    lemma_meta_value_single_line(strip_leading_slashes(device_path));
    lemma_meta_value_single_line(title);
    lemma_decimal_digits(n);
    assert(single_line(v[1])) by {
        let p = meta_value_spec(strip_leading_slashes(device_path));
        assert forall|i: int| 0 <= i < v[1].len() implies #[trigger] v[1][i] != '\n' by {
            if i > 0 {
                assert(v[1][i] == p[i - 1]);
            }
        }
    }
    assert forall|i: int| 0 <= i < 6 implies plain_key(#[trigger] k[i]) && single_line(v[i]) by {}
    lemma_kv_line(k[0], v[0]);
    lemma_kv_line(k[1], v[1]);
    lemma_kv_line(k[2], v[2]);
    lemma_kv_line(k[3], v[3]);
    lemma_kv_line(k[4], v[4]);
    lemma_kv_line(k[5], v[5]);
    assert forall|i: int| 0 <= i < ls.len() implies single_line(#[trigger] ls[i]) && kv_entries(ls[i]).len() == 1 by {}
    lemma_text_of_lines(ls);
    let e = kv_entries(meta_text_spec(book_id, device_path, title, n));
    assert(e.len() == 6);
    assert forall|i: int| 0 <= i < 6 implies (#[trigger] e[i]).0 == k[i] by {
        assert(e[i] == kv_entries(ls[i])[0]);
    }
    assert(e[0].1 == book_id);
    assert(e[3].1 == v[3]);
    assert(e[4].1 == v[4]);
    reveal_strlit("book_id");
    reveal_strlit("cache_format");
    reveal_strlit("page_count");
    assert("book_id"@ =~= k[0]);
    assert("cache_format"@ =~= k[3]);
    assert("page_count"@ =~= k[4]);
    lemma_plain_key_is(k[5], "page_count");
    lemma_plain_key_is(k[5], "cache_format");
    lemma_plain_key_is(k[5], "book_id");
    lemma_plain_key_is(k[4], "cache_format");
    lemma_plain_key_is(k[4], "book_id");
    lemma_plain_key_is(k[3], "page_count");
    lemma_plain_key_is(k[3], "book_id");
    lemma_plain_key_is(k[2], "page_count");
    lemma_plain_key_is(k[2], "cache_format");
    lemma_plain_key_is(k[2], "book_id");
    lemma_plain_key_is(k[1], "page_count");
    lemma_plain_key_is(k[1], "cache_format");
    lemma_plain_key_is(k[1], "book_id");
    lemma_plain_key_is(k[0], "page_count");
    lemma_plain_key_is(k[0], "cache_format");
    assert(v[3] =~= decimal_spec(2));
    lemma_decimal_reads_back(2);
    lemma_decimal_reads_back(n);
    reveal_with_fuel(last_value, 7);
    assert(last_value(e, "page_count") == Some(v[4]));
    assert(last_value(e, "cache_format") == Some(v[3]));
    assert(last_value(e, "book_id") == Some(book_id));
    assert(!cache_format_bad(e));
}

/// The META.TXT of a book's cache, under the folder id the builder derives
/// from the book's device path, reads back in the reader as that id, the
/// page count and the page-local layout.
pub proof fn lemma_book_meta_roundtrip(device_path: Seq<char>, title: Seq<char>, n: nat)
    requires
        1 <= n <= PAGE_LOCAL_CAPACITY,
    ensures
        parse_meta_spec(meta_text_spec(book_folder_spec(device_path), device_path, title, n)) matches Ok((b, _, pc, layout))
            && b == book_folder_spec(device_path) && pc == n && layout == PreparedCacheLayout::PageLocalBase36,
{
    let id = book_folder_spec(device_path);
    let v = fnv1a(encode_utf8(normalized_path_spec(device_path))) as int;
    assert forall|i: int| 0 <= i < 8 implies ('0' <= #[trigger] id[i] && id[i] <= '9') || ('A' <= id[i] && id[i] <= 'F') by {
        let d = if i == 0 {
            (v / 0x10000000) % 16
        } else if i == 1 {
            (v / 0x1000000) % 16
        } else if i == 2 {
            (v / 0x100000) % 16
        } else if i == 3 {
            (v / 0x10000) % 16
        } else if i == 4 {
            (v / 0x1000) % 16
        } else if i == 5 {
            (v / 0x100) % 16
        } else if i == 6 {
            (v / 0x10) % 16
        } else {
            v % 16
        };
        assert(0 <= d < 16);
        assert(id[i] == hex_char(d));
    }
    assert(id[0] == id[0]);
    assert(id.last() == id[7]);
    lemma_meta_roundtrip(id, device_path, title, n);
}

fn push_meta_value(out: &mut String, chars: &Vec<char>, start: usize)
    requires
        start <= chars@.len(),
    ensures
        final(out)@ == old(out)@ + meta_value_spec(chars@.subrange(start as int, chars@.len() as int)),
{
    let mut i: usize = start;
    while i < chars.len()
        invariant
            start <= i <= chars@.len(),
            out@ == old(out)@ + meta_value_spec(chars@.subrange(start as int, i as int)),
        decreases chars@.len() - i,
    {
        let c = chars[i];
        string_push(out, if c == '\r' || c == '\n' { ' ' } else { c });
        assert(meta_value_spec(chars@.subrange(start as int, i + 1)) =~= meta_value_spec(
            chars@.subrange(start as int, i as int),
        ).push(if c == '\r' || c == '\n' { ' ' } else { c }));
        i = i + 1;
    }
}

pub fn meta_text(book_id: &str, device_path: &str, title: &str, page_count: usize) -> (r: String)
    ensures
        r@ == meta_text_spec(book_id@, device_path@, title@, page_count as nat),
{
    let path = chars_of(device_path);
    let mut k: usize = 0;
    while k < path.len() && path[k] == '/'
        invariant
            k <= path@.len(),
            forall|j: int| 0 <= j < k ==> path@[j] == '/',
        decreases path@.len() - k,
    {
        k = k + 1;
    }
    proof {
        lemma_strip_leading_slashes(path@, k as int);
    }
    let title_value = meta_value(title);
    let mut out = String::new();
    string_push_str(&mut out, "book_id=");
    string_push_str(&mut out, book_id);
    string_push_str(&mut out, "\nsource=/");
    push_meta_value(&mut out, &path, k);
    string_push_str(&mut out, "\ntitle=");
    string_push_str(&mut out, title_value.as_str());
    string_push_str(&mut out, "\ncache_format=2\npage_count=");
    push_decimal(&mut out, page_count);
    string_push_str(&mut out, "\npage_name_scheme=base36-local-v1\n");
    proof {
        assert(out@ =~= meta_text_spec(book_id@, device_path@, title@, page_count as nat));
    }
    out
}

/// What the builder reports of the cache it wrote: the largest page and
/// font files, and how many pages carry a font of each script.
#[derive(Clone, Copy, Debug, PartialEq, Eq, Structural)]
pub struct CacheStats {
    pub max_page_bytes: usize,
    pub max_font_bytes: usize,
    pub latin_pages: usize,
    pub devanagari_pages: usize,
    pub gujarati_pages: usize,
}

impl CacheStats {
    pub fn new() -> (r: Self)
        ensures
            r == (CacheStats { max_page_bytes: 0, max_font_bytes: 0, latin_pages: 0, devanagari_pages: 0, gujarati_pages: 0 }),
    {
        CacheStats { max_page_bytes: 0, max_font_bytes: 0, latin_pages: 0, devanagari_pages: 0, gujarati_pages: 0 }
    }

    /// Notes a page file of `page_bytes` bytes.
    pub fn note_page(&mut self, page_bytes: usize)
        ensures
            *final(self) == (CacheStats {
                max_page_bytes: if page_bytes > old(self).max_page_bytes { page_bytes } else { old(self).max_page_bytes },
                ..*old(self)
            }),
    {
        if page_bytes > self.max_page_bytes {
            self.max_page_bytes = page_bytes;
        }
    }

    /// Notes a page's font file of `font_bytes` bytes for the font slot
    /// `font_id`: that script's page count grows by one.
    pub fn note_font(&mut self, font_id: u32, font_bytes: usize)
        requires
            old(self).latin_pages < usize::MAX,
            old(self).devanagari_pages < usize::MAX,
            old(self).gujarati_pages < usize::MAX,
        ensures
            final(self).max_font_bytes == if font_bytes > old(self).max_font_bytes { font_bytes } else { old(self).max_font_bytes },
            final(self).max_page_bytes == old(self).max_page_bytes,
            final(self).latin_pages == old(self).latin_pages + if font_id == FONT_LATIN { 1int } else { 0 },
            final(self).devanagari_pages == old(self).devanagari_pages + if font_id == FONT_DEVANAGARI { 1int } else { 0 },
            final(self).gujarati_pages == old(self).gujarati_pages + if font_id == FONT_GUJARATI { 1int } else { 0 },
    {
        if font_bytes > self.max_font_bytes {
            self.max_font_bytes = font_bytes;
        }
        if font_id == FONT_LATIN {
            self.latin_pages = self.latin_pages + 1;
        } else if font_id == FONT_DEVANAGARI {
            self.devanagari_pages = self.devanagari_pages + 1;
        } else if font_id == FONT_GUJARATI {
            self.gujarati_pages = self.gujarati_pages + 1;
        }
    }
}

} // verus!
