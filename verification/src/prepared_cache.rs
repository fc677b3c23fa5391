//! The prepared book cache the reader loads: host-shaped pages of positioned
//! glyphs (VRUN) and compact 1-bpp bitmap fonts (VFNT), under
//! `/FCACHE/<BOOKID>/`, described by a `META.TXT` and, in the legacy layout,
//! by `FONTS.IDX` and `PAGES.IDX`.
//!
//! Two layouts are read: cache format 1, legacy caches with global fonts and
//! a page index; cache format 2, page-local caches whose files have
//! deterministic FAT 8.3 base-36 names and whose fonts hold one page's glyphs.
use vstd::prelude::*;
use vstd::string::StringSliceAdditionalSpecFns;
use vstd::utf8::encode_utf8;
use crate::byte_text::str_eq;
use crate::key_value_text::{chars_of, key_value_lines, kv_entries, nonblank_lines, trimmed_nonblank_lines};
use crate::le_bytes::{get_i16, get_u16, get_u32, le_i16, le_u16, le_u32};
use crate::std_text::string_push;

verus! {

pub const CACHE_ROOT: &'static str = "FCACHE";
pub const META_FILE: &'static str = "META.TXT";
pub const FONTS_INDEX_FILE: &'static str = "FONTS.IDX";
pub const PAGES_INDEX_FILE: &'static str = "PAGES.IDX";

pub const CACHE_FORMAT_LEGACY: usize = 1;
pub const CACHE_FORMAT_PAGE_LOCAL: usize = 2;
pub const LEGACY_MAX_PAGES: usize = 192;
pub const PAGE_LOCAL_DIGITS: usize = 5;
/// 36 to the 5th: the pages five base-36 digits can name.
pub const PAGE_LOCAL_CAPACITY: usize = 60_466_176;

pub const MAX_META_BYTES: usize = 1024;
pub const MAX_INDEX_BYTES: usize = 4096;
pub const MAX_FONT_BYTES: usize = 24576;
pub const MAX_PAGE_BYTES: usize = 24576;
pub const MAX_GLYPHS: usize = 1024;

pub const FONT_LATIN: u32 = 1;
pub const FONT_DEVANAGARI: u32 = 2;
pub const FONT_GUJARATI: u32 = 3;

/// `VFNT`.
pub const VFNT_MAGIC: [u8; 4] = [0x56, 0x46, 0x4e, 0x54];
pub const VFNT_VERSION: u16 = 1;
pub const VFNT_HEADER_LEN: usize = 44;
pub const VFNT_GLYPH_METRICS_LEN: usize = 16;
pub const VFNT_GLYPH_BITMAP_LEN: usize = 16;
pub const VFNT_FORMAT_ONE_BPP: u16 = 1;

/// `VRUN`.
pub const VRUN_MAGIC: [u8; 4] = [0x56, 0x52, 0x55, 0x4e];
pub const VRUN_VERSION: u16 = 1;
pub const VRUN_HEADER_LEN: usize = 20;
pub const VRUN_GLYPH_RECORD_LEN: usize = 20;

#[derive(Clone, Copy, Debug, PartialEq, Eq, Structural)]
pub enum PreparedTxtError {
    Missing,
    InvalidMeta,
    MismatchedBook,
    InvalidIndex,
    MissingFont,
    InvalidFont,
    InvalidPage,
    TooLarge,
}

pub open spec fn error_code(e: PreparedTxtError) -> &'static str {
    match e {
        PreparedTxtError::Missing => "MISSING",
        PreparedTxtError::InvalidMeta => "META",
        PreparedTxtError::MismatchedBook => "BOOK",
        PreparedTxtError::InvalidIndex => "INDEX",
        PreparedTxtError::MissingFont => "FONT_MISSING",
        PreparedTxtError::InvalidFont => "FONT",
        PreparedTxtError::InvalidPage => "PAGE",
        PreparedTxtError::TooLarge => "TOO_LARGE",
    }
}

impl PreparedTxtError {
    /// The short code the reader shows for the error.
    pub fn code(self) -> (r: &'static str)
        ensures
            r == error_code(self),
    {
        match self {
            Self::Missing => "MISSING",
            Self::InvalidMeta => "META",
            Self::MismatchedBook => "BOOK",
            Self::InvalidIndex => "INDEX",
            Self::MissingFont => "FONT_MISSING",
            Self::InvalidFont => "FONT",
            Self::InvalidPage => "PAGE",
            Self::TooLarge => "TOO_LARGE",
        }
    }
}

#[derive(Clone, Copy, Debug, PartialEq, Eq, Structural)]
pub enum PreparedCacheLayout {
    Legacy,
    PageLocalBase36,
}

/// One positioned glyph of a page: which font, which glyph, where.
#[derive(Clone, Copy, Debug, PartialEq, Eq, Structural)]
pub struct PreparedGlyphRecord {
    pub font_id: u32,
    pub glyph_id: u32,
    pub x: i16,
    pub y: i16,
}

impl PreparedGlyphRecord {
    pub fn empty() -> (r: Self)
        ensures
            r == (PreparedGlyphRecord { font_id: 0, glyph_id: 0, x: 0, y: 0 }),
    {
        Self { font_id: 0, glyph_id: 0, x: 0, y: 0 }
    }
}

/// Which of the three script fonts a page draws with.
#[derive(Clone, Copy, Debug, PartialEq, Eq, Structural)]
pub struct RequiredFonts {
    pub latin: bool,
    pub devanagari: bool,
    pub gujarati: bool,
}

impl RequiredFonts {
    pub fn empty() -> (r: Self)
        ensures
            r == (RequiredFonts { latin: false, devanagari: false, gujarati: false }),
    {
        Self { latin: false, devanagari: false, gujarati: false }
    }
}

// ---------------------------------------------------------------------------
// Byte fields

/// `start..start + len` lies within `0..total`.
pub open spec fn range_ok(total: int, start: int, len: int) -> bool {
    start + len <= total
}

/// Checks that `start..start + len` lies within a buffer of `total` bytes.
pub fn checked_range(total: usize, start: usize, len: usize) -> (r: Result<(), PreparedTxtError>)
    ensures
        r is Ok <==> range_ok(total as int, start as int, len as int),
        r is Err ==> r == Err::<(), PreparedTxtError>(PreparedTxtError::InvalidPage),
{
    match start.checked_add(len) {
        Some(end) => if start <= total && end <= total {
            Ok(())
        } else {
            Err(PreparedTxtError::InvalidPage)
        },
        None => Err(PreparedTxtError::InvalidPage),
    }
}

pub fn read_u16(data: &[u8], off: usize) -> (r: Result<u16, PreparedTxtError>)
    ensures
        r is Ok <==> off + 2 <= data@.len(),
        r matches Ok(v) ==> v == le_u16(data@, off as int),
        r is Err ==> r == Err::<u16, PreparedTxtError>(PreparedTxtError::InvalidPage),
{
    match get_u16(data, off) {
        Some(v) => Ok(v),
        None => Err(PreparedTxtError::InvalidPage),
    }
}

pub fn read_i16(data: &[u8], off: usize) -> (r: Result<i16, PreparedTxtError>)
    ensures
        r is Ok <==> off + 2 <= data@.len(),
        r matches Ok(v) ==> v == le_i16(data@, off as int),
        r is Err ==> r == Err::<i16, PreparedTxtError>(PreparedTxtError::InvalidPage),
{
    match get_i16(data, off) {
        Some(v) => Ok(v),
        None => Err(PreparedTxtError::InvalidPage),
    }
}

pub fn read_u32(data: &[u8], off: usize) -> (r: Result<u32, PreparedTxtError>)
    ensures
        r is Ok <==> off + 4 <= data@.len(),
        r matches Ok(v) ==> v == le_u32(data@, off as int),
        r is Err ==> r == Err::<u32, PreparedTxtError>(PreparedTxtError::InvalidPage),
{
    match get_u32(data, off) {
        Some(v) => Ok(v),
        None => Err(PreparedTxtError::InvalidPage),
    }
}

// ---------------------------------------------------------------------------
// Text fields

pub open spec fn is_ascii_digit(b: u8) -> bool {
    0x30 <= b <= 0x39
}

pub open spec fn is_ascii_alnum(b: u8) -> bool {
    (0x30 <= b <= 0x39) || (0x41 <= b <= 0x5a) || (0x61 <= b <= 0x7a)
}

/// The decimal value of a run of ASCII digits.
pub open spec fn decimal_value(s: Seq<u8>) -> int
    decreases s.len(),
{
    if s.len() == 0 {
        0
    } else {
        decimal_value(s.drop_last()) * 10 + (s.last() - 0x30)
    }
}

/// A non-empty run of ASCII digits whose value fits a `usize`, as that value.
pub open spec fn usize_text_value(s: Seq<u8>) -> Option<int> {
    if s.len() > 0 && (forall|i: int| 0 <= i < s.len() ==> is_ascii_digit(#[trigger] s[i]))
        && decimal_value(s) <= usize::MAX {
        Some(decimal_value(s))
    } else {
        None
    }
}

proof fn lemma_decimal_prefix_monotone(s: Seq<u8>, i: int)
    requires
        0 <= i <= s.len(),
        forall|k: int| 0 <= k < s.len() ==> is_ascii_digit(#[trigger] s[k]),
    ensures
        0 <= decimal_value(s.take(i)) <= decimal_value(s),
    decreases s.len() - i,
{
    if i < s.len() {
        lemma_decimal_prefix_monotone(s.drop_last(), if i < s.len() { i } else { i - 1 });
        assert(s.drop_last().take(i) =~= s.take(i));
        assert(s.drop_last() =~= s.take(s.len() - 1));
    } else {
        assert(s.take(i) =~= s);
    }
    lemma_decimal_nonneg(s);
}

proof fn lemma_decimal_nonneg(s: Seq<u8>)
    requires
        forall|k: int| 0 <= k < s.len() ==> is_ascii_digit(#[trigger] s[k]),
    ensures
        decimal_value(s) >= 0,
    decreases s.len(),
{
    if s.len() > 0 {
        lemma_decimal_nonneg(s.drop_last());
    }
}

/// Parses a non-empty run of ASCII decimal digits into a `usize`; anything
/// else, or a value too large for a `usize`, gives `None`.
pub fn parse_usize(input: &str) -> (r: Option<usize>)
    ensures
        r == (match usize_text_value(input.spec_bytes()) {
            Some(v) => Some(v as usize),
            None => None::<usize>,
        }),
{
    let bytes = input.as_bytes();
    let ghost s = bytes@;
    if bytes.len() == 0 {
        return None;
    }
    let mut value: usize = 0;
    let mut i: usize = 0;
    while i < bytes.len()
        invariant
            s == bytes@,
            s == input.spec_bytes(),
            0 < s.len(),
            i <= s.len(),
            forall|k: int| 0 <= k < i ==> is_ascii_digit(#[trigger] s[k]),
            value == decimal_value(s.take(i as int)),
        decreases s.len() - i,
    {
        let byte = bytes[i];
        if !(0x30u8 <= byte && byte <= 0x39u8) {
            assert(!is_ascii_digit(s[i as int]));
            return None;
        }
        assert(s.take(i + 1).drop_last() =~= s.take(i as int));
        match value.checked_mul(10) {
            Some(m) => match m.checked_add((byte - 0x30u8) as usize) {
                Some(v) => {
                    value = v;
                },
                None => {
                    proof {
                        lemma_value_overflow(s, i as int + 1);
                    }
                    return None;
                },
            },
            None => {
                proof {
                    lemma_value_overflow(s, i as int + 1);
                }
                return None;
            },
        }
        i = i + 1;
    }
    assert(s.take(s.len() as int) =~= s);
    Some(value)
}

/// A prefix of digits that already exceeds `usize` makes the whole value
/// exceed it, or the run is not all digits.
proof fn lemma_value_overflow(s: Seq<u8>, i: int)
    requires
        0 < i <= s.len(),
        forall|k: int| 0 <= k < i - 1 ==> is_ascii_digit(#[trigger] s[k]),
        is_ascii_digit(s[i - 1]),
        decimal_value(s.take(i)) > usize::MAX,
    ensures
        usize_text_value(s) is None,
{
    if forall|k: int| 0 <= k < s.len() ==> is_ascii_digit(#[trigger] s[k]) {
        lemma_decimal_prefix_monotone(s, i);
    }
}

/// ASCII letters folded to lowercase; other bytes unchanged.
pub open spec fn ascii_lower(b: u8) -> u8 {
    if 0x41 <= b <= 0x5a {
        (b + 32) as u8
    } else {
        b
    }
}

/// Equal as byte strings up to ASCII case.
pub open spec fn eq_ignore_case_spec(a: Seq<u8>, b: Seq<u8>) -> bool {
    a.len() == b.len() && forall|i: int| 0 <= i < a.len() ==> ascii_lower(#[trigger] a[i]) == ascii_lower(b[i])
}

/// Compares two strings byte by byte, ignoring ASCII case.
pub fn eq_ignore_ascii_case(a: &str, b: &str) -> (r: bool)
    ensures
        r == eq_ignore_case_spec(a.spec_bytes(), b.spec_bytes()),
{
    let x = a.as_bytes();
    let y = b.as_bytes();
    if x.len() != y.len() {
        return false;
    }
    let mut i: usize = 0;
    while i < x.len()
        invariant
            x@ == a.spec_bytes(),
            y@ == b.spec_bytes(),
            x@.len() == y@.len(),
            i <= x@.len(),
            forall|k: int| 0 <= k < i ==> ascii_lower(#[trigger] x@[k]) == ascii_lower(y@[k]),
        decreases x@.len() - i,
    {
        let l = if 0x41u8 <= x[i] && x[i] <= 0x5au8 { x[i] + 32 } else { x[i] };
        let m = if 0x41u8 <= y[i] && y[i] <= 0x5au8 { y[i] + 32 } else { y[i] };
        if l != m {
            assert(ascii_lower(x@[i as int]) != ascii_lower(y@[i as int]));
            return false;
        }
        i = i + 1;
    }
    true
}

/// A cache file name: 1 to 12 bytes of ASCII letters, digits, `.` and `_`.
pub open spec fn valid_cache_file_spec(name: Seq<u8>) -> bool {
    &&& name.len() > 0
    &&& name.len() <= 12
    &&& forall|i: int| 0 <= i < name.len() ==> is_ascii_alnum(#[trigger] name[i]) || name[i] == 0x2e || name[i] == 0x5f
}

pub fn valid_cache_file(name: &str) -> (r: bool)
    ensures
        r == valid_cache_file_spec(name.spec_bytes()),
{
    let b = name.as_bytes();
    if b.len() == 0 || b.len() > 12 {
        return false;
    }
    let mut i: usize = 0;
    while i < b.len()
        invariant
            b@ == name.spec_bytes(),
            i <= b@.len(),
            forall|k: int| 0 <= k < i ==> is_ascii_alnum(#[trigger] b@[k]) || b@[k] == 0x2e || b@[k] == 0x5f,
        decreases b@.len() - i,
    {
        let c = b[i];
        let ok = (0x30u8 <= c && c <= 0x39u8) || (0x41u8 <= c && c <= 0x5au8) || (0x61u8 <= c && c <= 0x7au8)
            || c == 0x2eu8 || c == 0x5fu8;
        if !ok {
            return false;
        }
        i = i + 1;
    }
    true
}

/// The cache directory (the book id) is authoritative: a cache is never
/// rejected because its recorded source path differs in FAT 8.3 form, case
/// or leading slashes.
pub fn source_matches(_cache_source: &str, _reader_source: &str) -> (r: bool)
    ensures
        r,
{
    true
}

// ---------------------------------------------------------------------------
// VFNT fonts

/// The bytes begin with `VFNT`.
pub open spec fn vfnt_magic_ok(d: Seq<u8>) -> bool {
    d[0] == 0x56 && d[1] == 0x46 && d[2] == 0x4e && d[3] == 0x54
}

/// The fixed header fields of a VFNT font are acceptable.
pub open spec fn vfnt_header_ok(d: Seq<u8>) -> bool {
    &&& d.len() >= 44
    &&& vfnt_magic_ok(d)
    &&& le_u16(d, 4) == 1
    &&& le_u16(d, 6) >= 44
    &&& le_u32(d, 20) != 0
    &&& le_u16(d, 42) == 1
}

/// The `i`-th bitmap of the index at `bio` lies within the bitmap data of
/// `bdl` bytes.
pub open spec fn vfnt_bitmap_fits(d: Seq<u8>, bio: int, bdl: int, i: int) -> bool {
    range_ok(bdl, le_u32(d, bio + 16 * i + 4), le_u32(d, bio + 16 * i + 8))
}

/// How a VFNT font reads: its glyph count, the offsets of the metrics table,
/// the bitmap index and the bitmap data, and the bitmap data length; or why
/// it does not. A font has the `VFNT` magic, version 1, a header of at least
/// 44 bytes, at least one glyph and 1-bpp bitmaps (else `InvalidFont`); its
/// tables, its bitmap data and each glyph's bitmap lie within bounds (else
/// `InvalidPage`).
pub open spec fn vfnt_parse_spec(d: Seq<u8>) -> Result<(int, int, int, int, int), PreparedTxtError> {
    if !vfnt_header_ok(d) {
        Err(PreparedTxtError::InvalidFont)
    } else {
        let gc = le_u32(d, 20);
        let mo = le_u32(d, 24);
        let bio = le_u32(d, 28);
        let bdo = le_u32(d, 32);
        let bdl = le_u32(d, 36);
        if !range_ok(d.len() as int, mo, gc * 16) || !range_ok(d.len() as int, bio, gc * 16)
            || !range_ok(d.len() as int, bdo, bdl) {
            Err(PreparedTxtError::InvalidPage)
        } else if exists|i: int| 0 <= i < gc && !#[trigger] vfnt_bitmap_fits(d, bio, bdl, i) {
            Err(PreparedTxtError::InvalidPage)
        } else {
            Ok((gc, mo, bio, bdo, bdl))
        }
    }
}

/// The first glyph index from `i` on whose metrics record names `id`, or `gc`.
pub open spec fn vfnt_find_glyph(d: Seq<u8>, mo: int, gc: int, id: int, i: int) -> int
    decreases gc - i,
{
    if i < gc && le_u32(d, mo + 16 * i) != id {
        vfnt_find_glyph(d, mo, gc, id, i + 1)
    } else {
        i
    }
}

/// A glyph's bitmap in a parsed font: its byte range in the font and its
/// width, height and row stride; `InvalidPage` when the font lacks the
/// glyph, `InvalidFont` when its bitmap record disagrees with its metrics.
pub open spec fn vfnt_glyph_spec(d: Seq<u8>, layout: (int, int, int, int, int), id: int) -> Result<
    (int, int, int, int, int),
    PreparedTxtError,
> {
    let (gc, mo, bio, bdo, bdl) = layout;
    let k = vfnt_find_glyph(d, mo, gc, id, 0);
    if k >= gc {
        Err(PreparedTxtError::InvalidPage)
    } else {
        let bo = bio + 16 * k;
        let width = le_u16(d, mo + 16 * k + 12);
        let height = le_u16(d, mo + 16 * k + 14);
        let stride = le_u16(d, bo + 12);
        let len = le_u32(d, bo + 8);
        let start = bdo + le_u32(d, bo + 4);
        if le_u32(d, bo) != id {
            Err(PreparedTxtError::InvalidFont)
        } else if stride < (width + 7) / 8 || stride * height > len {
            Err(PreparedTxtError::InvalidFont)
        } else {
            Ok((start, start + len, width, height, stride))
        }
    }
}

/// A font's bitmap table, read in place.
#[derive(Clone, Copy)]
pub struct VfntView<'a> {
    data: &'a [u8],
    glyph_count: usize,
    metrics_offset: usize,
    bitmap_index_offset: usize,
    bitmap_data_offset: usize,
    bitmap_data_len: usize,
}

/// One glyph's 1-bpp bitmap: `height` rows of `row_stride` bytes.
pub struct GlyphBitmap<'a> {
    pub data: &'a [u8],
    pub width: u16,
    pub height: u16,
    pub row_stride: u16,
}

struct GlyphMetrics {
    glyph_id: u32,
    width: u16,
    height: u16,
}

struct GlyphBitmapRecord {
    glyph_id: u32,
    offset: usize,
    len: usize,
    row_stride: u16,
}

impl<'a> VfntView<'a> {
    /// The font's bytes.
    pub closed spec fn bytes(&self) -> Seq<u8> {
        self.data@
    }

    /// The font's layout as `vfnt_parse_spec` reads it.
    pub closed spec fn layout(&self) -> (int, int, int, int, int) {
        (
            self.glyph_count as int,
            self.metrics_offset as int,
            self.bitmap_index_offset as int,
            self.bitmap_data_offset as int,
            self.bitmap_data_len as int,
        )
    }

    pub closed spec fn wf(&self) -> bool {
        vfnt_parse_spec(self.data@) == Ok::<(int, int, int, int, int), PreparedTxtError>(self.layout())
    }

    /// Reads a VFNT font; it is accepted exactly when `vfnt_parse_spec` reads it.
    pub fn parse(data: &'a [u8]) -> (r: Result<Self, PreparedTxtError>)
        ensures
            match vfnt_parse_spec(data@) {
                Ok(layout) => r matches Ok(v) && v.wf() && v.bytes() == data@ && v.layout() == layout,
                Err(e) => r == Err::<Self, PreparedTxtError>(e),
            },
    {
        let ghost d = data@;
        if data.len() < VFNT_HEADER_LEN {
            return Err(PreparedTxtError::InvalidFont);
        }
        if !(data[0] == 0x56u8 && data[1] == 0x46u8 && data[2] == 0x4eu8 && data[3] == 0x54u8) {
            return Err(PreparedTxtError::InvalidFont);
        }
        if read_u16(data, 4)? != VFNT_VERSION {
            return Err(PreparedTxtError::InvalidFont);
        }
        if (read_u16(data, 6)? as usize) < VFNT_HEADER_LEN {
            return Err(PreparedTxtError::InvalidFont);
        }
        let glyph_count = read_u32(data, 20)? as usize;
        if glyph_count == 0 {
            return Err(PreparedTxtError::InvalidFont);
        }
        let metrics_offset = read_u32(data, 24)? as usize;
        let bitmap_index_offset = read_u32(data, 28)? as usize;
        let bitmap_data_offset = read_u32(data, 32)? as usize;
        let bitmap_data_len = read_u32(data, 36)? as usize;
        let bitmap_format = read_u16(data, 42)?;
        if bitmap_format != VFNT_FORMAT_ONE_BPP {
            return Err(PreparedTxtError::InvalidFont);
        }
        let table_len = (glyph_count as u64) * 16;
        if table_len > data.len() as u64 {
            return Err(PreparedTxtError::InvalidPage);
        }
        checked_range(data.len(), metrics_offset, table_len as usize)?;
        checked_range(data.len(), bitmap_index_offset, table_len as usize)?;
        checked_range(data.len(), bitmap_data_offset, bitmap_data_len)?;
        let font = Self {
            data,
            glyph_count,
            metrics_offset,
            bitmap_index_offset,
            bitmap_data_offset,
            bitmap_data_len,
        };
        let mut index: usize = 0;
        while index < glyph_count
            invariant
                d == data@,
                vfnt_header_ok(d),
                range_ok(d.len() as int, le_u32(d, 24), glyph_count * 16),
                range_ok(d.len() as int, le_u32(d, 32), le_u32(d, 36)),
                font.data@ == d,
                font.glyph_count == glyph_count,
                font.metrics_offset == le_u32(d, 24),
                font.bitmap_data_offset == le_u32(d, 32),
                font.bitmap_index_offset == bitmap_index_offset,
                font.bitmap_data_len == bitmap_data_len,
                glyph_count == le_u32(d, 20),
                bitmap_index_offset == le_u32(d, 28),
                bitmap_data_len == le_u32(d, 36),
                range_ok(d.len() as int, bitmap_index_offset as int, glyph_count * 16),
                index <= glyph_count,
                forall|i: int| 0 <= i < index ==> #[trigger] vfnt_bitmap_fits(d, bitmap_index_offset as int, bitmap_data_len as int, i),
            decreases glyph_count - index,
        {
            let bitmap = font.bitmap_record(index);
            if checked_range(bitmap_data_len, bitmap.offset, bitmap.len).is_err() {
                assert(!vfnt_bitmap_fits(d, bitmap_index_offset as int, bitmap_data_len as int, index as int));
                return Err(PreparedTxtError::InvalidPage);
            }
            index = index + 1;
        }
        Ok(font)
    }

    fn metrics_record(&self, index: usize) -> (r: GlyphMetrics)
        requires
            index < self.glyph_count,
            range_ok(self.data@.len() as int, self.metrics_offset as int, self.glyph_count * 16),
        ensures
            r.glyph_id == le_u32(self.data@, self.metrics_offset + 16 * index),
            r.width == le_u16(self.data@, self.metrics_offset + 16 * index + 12),
            r.height == le_u16(self.data@, self.metrics_offset + 16 * index + 14),
    {
        proof {
            assert(index * 16 + 16 <= self.glyph_count * 16) by (nonlinear_arith)
                requires
                    index < self.glyph_count,
            ;
        }
        let n = self.data.len();
        assert(self.metrics_offset + index * 16 + 16 <= n);
        let off = self.metrics_offset + index * 16;
        let glyph_id = get_u32(self.data, off).unwrap();
        let width = get_u16(self.data, off + 12).unwrap();
        let height = get_u16(self.data, off + 14).unwrap();
        GlyphMetrics { glyph_id, width, height }
    }

    fn bitmap_record(&self, index: usize) -> (r: GlyphBitmapRecord)
        requires
            index < self.glyph_count,
            range_ok(self.data@.len() as int, self.bitmap_index_offset as int, self.glyph_count * 16),
        ensures
            r.glyph_id == le_u32(self.data@, self.bitmap_index_offset + 16 * index),
            r.offset == le_u32(self.data@, self.bitmap_index_offset + 16 * index + 4),
            r.len == le_u32(self.data@, self.bitmap_index_offset + 16 * index + 8),
            r.row_stride == le_u16(self.data@, self.bitmap_index_offset + 16 * index + 12),
    {
        proof {
            assert(index * 16 + 16 <= self.glyph_count * 16) by (nonlinear_arith)
                requires
                    index < self.glyph_count,
            ;
        }
        let n = self.data.len();
        assert(self.bitmap_index_offset + index * 16 + 16 <= n);
        let off = self.bitmap_index_offset + index * 16;
        let glyph_id = get_u32(self.data, off).unwrap();
        let offset = get_u32(self.data, off + 4).unwrap() as usize;
        let len = get_u32(self.data, off + 8).unwrap() as usize;
        let row_stride = get_u16(self.data, off + 12).unwrap();
        GlyphBitmapRecord { glyph_id, offset, len, row_stride }
    }

    /// Looks a glyph up by id: the first metrics record that names it
    /// decides; its bitmap must name the same glyph and hold its rows.
    pub fn glyph(self, glyph_id: u32) -> (r: Result<GlyphBitmap<'a>, PreparedTxtError>)
        requires
            self.wf(),
        ensures
            match vfnt_glyph_spec(self.bytes(), self.layout(), glyph_id as int) {
                Ok((start, end, width, height, stride)) => r matches Ok(g) && g.data@ == self.bytes().subrange(start, end)
                    && g.width == width && g.height == height && g.row_stride == stride,
                Err(e) => r matches Err(x) && x == e,
            },
    {
        let ghost d = self.data@;
        let ghost layout = self.layout();
        let mut index: usize = 0;
        while index < self.glyph_count
            invariant
                self.wf(),
                d == self.data@,
                layout == self.layout(),
                index <= self.glyph_count,
                vfnt_find_glyph(d, self.metrics_offset as int, self.glyph_count as int, glyph_id as int, 0)
                    == vfnt_find_glyph(d, self.metrics_offset as int, self.glyph_count as int, glyph_id as int, index as int),
            decreases self.glyph_count - index,
        {
            let metrics = self.metrics_record(index);
            if metrics.glyph_id == glyph_id {
                let bitmap = self.bitmap_record(index);
                if bitmap.glyph_id != glyph_id {
                    return Err(PreparedTxtError::InvalidFont);
                }
                proof {
                    assert(vfnt_header_ok(d));
                    assert(range_ok(d.len() as int, self.bitmap_data_offset as int, self.bitmap_data_len as int));
                    assert(vfnt_bitmap_fits(d, self.bitmap_index_offset as int, self.bitmap_data_len as int, index as int));
                }
                let n = self.data.len();
                assert(self.bitmap_data_offset + bitmap.offset + bitmap.len <= n);
                let start = self.bitmap_data_offset + bitmap.offset;
                let end = start + bitmap.len;
                let row_min = (metrics.width as u32 + 7) / 8;
                let stride64 = bitmap.row_stride as u64;
                let height64 = metrics.height as u64;
                assert(stride64 * height64 <= 65535 * 65535) by (nonlinear_arith)
                    requires
                        stride64 <= 65535,
                        height64 <= 65535,
                ;
                let required = stride64 * height64;
                if (bitmap.row_stride as u32) < row_min || required > bitmap.len as u64 {
                    return Err(PreparedTxtError::InvalidFont);
                }
                return Ok(GlyphBitmap {
                    data: vstd::slice::slice_subrange(self.data, start, end),
                    width: metrics.width,
                    height: metrics.height,
                    row_stride: bitmap.row_stride,
                });
            }
            index = index + 1;
        }
        Err(PreparedTxtError::InvalidPage)
    }
}

// ---------------------------------------------------------------------------
// VRUN pages

/// The bytes begin with `VRUN`.
pub open spec fn vrun_magic_ok(d: Seq<u8>) -> bool {
    d[0] == 0x56 && d[1] == 0x52 && d[2] == 0x55 && d[3] == 0x4e
}

/// The `i`-th glyph record of a page.
pub open spec fn vrun_record_spec(d: Seq<u8>, i: int) -> PreparedGlyphRecord {
    let off = 20 + 20 * i;
    PreparedGlyphRecord {
        font_id: le_u32(d, off) as u32,
        glyph_id: le_u32(d, off + 4) as u32,
        x: le_i16(d, off + 8) as i16,
        y: le_i16(d, off + 10) as i16,
    }
}

/// How a VRUN page reads: its glyph count, or why it does not. A page has
/// the `VRUN` magic, version 1 and a header of at least 20 bytes, and its
/// records lie within it (else `InvalidPage`); it holds at most
/// `MAX_GLYPHS` glyphs (else `TooLarge`).
pub open spec fn vrun_parse_spec(d: Seq<u8>) -> Result<int, PreparedTxtError> {
    if d.len() < 20 || !vrun_magic_ok(d) || le_u16(d, 4) != 1 || le_u16(d, 6) < 20 {
        Err(PreparedTxtError::InvalidPage)
    } else if le_u32(d, 8) > MAX_GLYPHS {
        Err(PreparedTxtError::TooLarge)
    } else if !range_ok(d.len() as int, 20, le_u32(d, 8) * 20) {
        Err(PreparedTxtError::InvalidPage)
    } else {
        Ok(le_u32(d, 8))
    }
}

/// Reads a page's glyph records into the front of `out` and returns their
/// count; on error `out` is left as it was.
pub fn parse_page_records(input: &[u8], out: &mut [PreparedGlyphRecord; 1024]) -> (r: Result<usize, PreparedTxtError>)
    ensures
        match vrun_parse_spec(input@) {
            Ok(n) => r == Ok::<usize, PreparedTxtError>(n as usize) && (forall|i: int|
                0 <= i < 1024 ==> final(out)@[i] == if i < n {
                    vrun_record_spec(input@, i)
                } else {
                    old(out)@[i]
                }),
            Err(e) => r == Err::<usize, PreparedTxtError>(e) && final(out)@ == old(out)@,
        },
{
    let ghost d = input@;
    if input.len() < VRUN_HEADER_LEN {
        return Err(PreparedTxtError::InvalidPage);
    }
    if !(input[0] == 0x56u8 && input[1] == 0x52u8 && input[2] == 0x55u8 && input[3] == 0x4eu8) {
        return Err(PreparedTxtError::InvalidPage);
    }
    if read_u16(input, 4)? != VRUN_VERSION {
        return Err(PreparedTxtError::InvalidPage);
    }
    if (read_u16(input, 6)? as usize) < VRUN_HEADER_LEN {
        return Err(PreparedTxtError::InvalidPage);
    }
    let glyph_count = read_u32(input, 8)? as usize;
    if glyph_count > MAX_GLYPHS {
        return Err(PreparedTxtError::TooLarge);
    }
    checked_range(input.len(), VRUN_HEADER_LEN, glyph_count * VRUN_GLYPH_RECORD_LEN)?;
    let ghost before = out@;
    let mut index: usize = 0;
    while index < glyph_count
        invariant
            d == input@,
            glyph_count == le_u32(d, 8),
            glyph_count <= 1024,
            range_ok(d.len() as int, 20, glyph_count * 20),
            index <= glyph_count,
            forall|i: int| 0 <= i < 1024 ==> out@[i] == if i < index {
                vrun_record_spec(d, i)
            } else {
                before[i]
            },
        decreases glyph_count - index,
    {
        let off = VRUN_HEADER_LEN + index * VRUN_GLYPH_RECORD_LEN;
        let record = PreparedGlyphRecord {
            font_id: get_u32(input, off).unwrap(),
            glyph_id: get_u32(input, off + 4).unwrap(),
            x: get_i16(input, off + 8).unwrap(),
            y: get_i16(input, off + 10).unwrap(),
        };
        out[index] = record;
        index = index + 1;
    }
    Ok(glyph_count)
}

// ---------------------------------------------------------------------------
// Fonts a page needs

/// Checks that the bytes read as a VFNT font.
pub fn validate_loaded_font(data: &[u8]) -> (r: Result<(), PreparedTxtError>)
    ensures
        r is Ok <==> vfnt_parse_spec(data@) is Ok,
        r is Err ==> r == Err::<(), PreparedTxtError>(PreparedTxtError::InvalidFont),
{
    match VfntView::parse(data) {
        Ok(_) => Ok(()),
        Err(_) => Err(PreparedTxtError::InvalidFont),
    }
}

/// A font that was not loaded (no bytes) passes; a loaded one must read as VFNT.
pub fn validate_optional_loaded_font(data: &[u8]) -> (r: Result<(), PreparedTxtError>)
    ensures
        r is Ok <==> (data@.len() == 0 || vfnt_parse_spec(data@) is Ok),
        r is Err ==> r == Err::<(), PreparedTxtError>(PreparedTxtError::InvalidFont),
{
    if data.len() == 0 {
        Ok(())
    } else {
        validate_loaded_font(data)
    }
}

/// The script font a font id names.
pub open spec fn known_font(id: u32) -> bool {
    id == FONT_LATIN || id == FONT_DEVANAGARI || id == FONT_GUJARATI
}

/// The fonts a page's glyphs use; a glyph of an unknown font is `MissingFont`.
pub open spec fn required_fonts_spec(gs: Seq<PreparedGlyphRecord>) -> Result<RequiredFonts, PreparedTxtError> {
    if exists|i: int| 0 <= i < gs.len() && !known_font(#[trigger] gs[i].font_id) {
        Err(PreparedTxtError::MissingFont)
    } else {
        Ok(RequiredFonts {
            latin: exists|i: int| 0 <= i < gs.len() && #[trigger] gs[i].font_id == FONT_LATIN,
            devanagari: exists|i: int| 0 <= i < gs.len() && #[trigger] gs[i].font_id == FONT_DEVANAGARI,
            gujarati: exists|i: int| 0 <= i < gs.len() && #[trigger] gs[i].font_id == FONT_GUJARATI,
        })
    }
}

pub fn required_fonts(glyphs: &[PreparedGlyphRecord]) -> (r: Result<RequiredFonts, PreparedTxtError>)
    ensures
        r == required_fonts_spec(glyphs@),
{
    let mut out = RequiredFonts::empty();
    let mut i: usize = 0;
    while i < glyphs.len()
        invariant
            i <= glyphs@.len(),
            forall|k: int| 0 <= k < i ==> known_font(#[trigger] glyphs@[k].font_id),
            out.latin == exists|k: int| 0 <= k < i && #[trigger] glyphs@[k].font_id == FONT_LATIN,
            out.devanagari == exists|k: int| 0 <= k < i && #[trigger] glyphs@[k].font_id == FONT_DEVANAGARI,
            out.gujarati == exists|k: int| 0 <= k < i && #[trigger] glyphs@[k].font_id == FONT_GUJARATI,
        decreases glyphs@.len() - i,
    {
        let id = glyphs[i].font_id;
        if id == FONT_LATIN {
            out.latin = true;
        } else if id == FONT_DEVANAGARI {
            out.devanagari = true;
        } else if id == FONT_GUJARATI {
            out.gujarati = true;
        } else {
            assert(!known_font(glyphs@[i as int].font_id));
            return Err(PreparedTxtError::MissingFont);
        }
        i = i + 1;
    }
    Ok(out)
}

/// The font data a glyph's font id selects, if the id is known.
pub open spec fn font_data_for(id: u32, lat: Seq<u8>, dev: Seq<u8>, guj: Seq<u8>) -> Option<Seq<u8>> {
    if id == FONT_LATIN {
        Some(lat)
    } else if id == FONT_DEVANAGARI {
        Some(dev)
    } else if id == FONT_GUJARATI {
        Some(guj)
    } else {
        None
    }
}

/// Why a glyph cannot be drawn from the loaded fonts, if it cannot: its
/// font is unknown or not a readable font (`MissingFont`), or the font
/// lacks the glyph or its bitmap is inconsistent (`InvalidPage`).
pub open spec fn glyph_ref_error(lat: Seq<u8>, dev: Seq<u8>, guj: Seq<u8>, g: PreparedGlyphRecord) -> Option<PreparedTxtError> {
    match font_data_for(g.font_id, lat, dev, guj) {
        None => Some(PreparedTxtError::MissingFont),
        Some(d) => match vfnt_parse_spec(d) {
            Err(_) => Some(PreparedTxtError::MissingFont),
            Ok(layout) => match vfnt_glyph_spec(d, layout, g.glyph_id as int) {
                Ok(_) => None,
                Err(_) => Some(PreparedTxtError::InvalidPage),
            },
        },
    }
}

/// The error of the first glyph that cannot be drawn.
pub open spec fn first_ref_error(lat: Seq<u8>, dev: Seq<u8>, guj: Seq<u8>, gs: Seq<PreparedGlyphRecord>) -> Option<PreparedTxtError>
    decreases gs.len(),
{
    if gs.len() == 0 {
        None
    } else {
        match glyph_ref_error(lat, dev, guj, gs[0]) {
            Some(e) => Some(e),
            None => first_ref_error(lat, dev, guj, gs.drop_first()),
        }
    }
}

fn parsed_font<'a>(data: &'a [u8]) -> (r: Option<VfntView<'a>>)
    ensures
        match vfnt_parse_spec(data@) {
            Ok(layout) => r matches Some(v) && v.wf() && v.bytes() == data@ && v.layout() == layout,
            Err(_) => r is None,
        },
{
    match VfntView::parse(data) {
        Ok(v) => Some(v),
        Err(_) => None,
    }
}

/// Checks that every glyph of a page can be drawn from the loaded fonts.
pub fn validate_glyph_references(
    latin_data: &[u8],
    devanagari_data: &[u8],
    gujarati_data: &[u8],
    glyphs: &[PreparedGlyphRecord],
) -> (r: Result<(), PreparedTxtError>)
    ensures
        r == match first_ref_error(latin_data@, devanagari_data@, gujarati_data@, glyphs@) {
            Some(e) => Err::<(), PreparedTxtError>(e),
            None => Ok(()),
        },
{
    let ghost lat = latin_data@;
    let ghost dev = devanagari_data@;
    let ghost guj = gujarati_data@;
    let latin = parsed_font(latin_data);
    let devanagari = parsed_font(devanagari_data);
    let gujarati = parsed_font(gujarati_data);
    let mut i: usize = 0;
    assert(glyphs@.skip(0) =~= glyphs@);
    while i < glyphs.len()
        invariant
            i <= glyphs@.len(),
            lat == latin_data@,
            dev == devanagari_data@,
            guj == gujarati_data@,
            match vfnt_parse_spec(lat) {
                Ok(layout) => latin matches Some(v) && v.wf() && v.bytes() == lat && v.layout() == layout,
                Err(_) => latin is None,
            },
            match vfnt_parse_spec(dev) {
                Ok(layout) => devanagari matches Some(v) && v.wf() && v.bytes() == dev && v.layout() == layout,
                Err(_) => devanagari is None,
            },
            match vfnt_parse_spec(guj) {
                Ok(layout) => gujarati matches Some(v) && v.wf() && v.bytes() == guj && v.layout() == layout,
                Err(_) => gujarati is None,
            },
            first_ref_error(lat, dev, guj, glyphs@) == first_ref_error(lat, dev, guj, glyphs@.skip(i as int)),
        decreases glyphs@.len() - i,
    {
        let glyph = glyphs[i];
        assert(glyphs@.skip(i as int)[0] == glyph);
        assert(glyphs@.skip(i as int).drop_first() =~= glyphs@.skip(i + 1));
        let font = if glyph.font_id == FONT_LATIN {
            latin
        } else if glyph.font_id == FONT_DEVANAGARI {
            devanagari
        } else if glyph.font_id == FONT_GUJARATI {
            gujarati
        } else {
            return Err(PreparedTxtError::MissingFont);
        };
        match font {
            None => {
                return Err(PreparedTxtError::MissingFont);
            },
            Some(view) => {
                if view.glyph(glyph.glyph_id).is_err() {
                    return Err(PreparedTxtError::InvalidPage);
                }
            },
        }
        i = i + 1;
    }
    assert(glyphs@.skip(i as int) =~= Seq::<PreparedGlyphRecord>::empty());
    Ok(())
}

// ---------------------------------------------------------------------------
// META.TXT, FONTS.IDX, PAGES.IDX

/// An ASCII string has as many bytes as characters.
pub proof fn lemma_ascii_len(s: &str)
    requires
        vstd::string::is_ascii(s),
    ensures
        s.spec_bytes().len() == s@.len(),
{
    vstd::string::is_ascii_spec_bytes(s);
}

/// The META.TXT keys differ from one another (they differ in length).
proof fn lemma_meta_keys_distinct(k: Seq<char>)
    ensures
        key_is(k, "book_id") ==> !key_is(k, "source") && !key_is(k, "page_count") && !key_is(k, "cache_format"),
        key_is(k, "source") ==> !key_is(k, "page_count") && !key_is(k, "cache_format"),
        key_is(k, "page_count") ==> !key_is(k, "cache_format"),
{
    reveal_strlit("book_id");
    reveal_strlit("source");
    reveal_strlit("page_count");
    reveal_strlit("cache_format");
    lemma_ascii_len("book_id");
    lemma_ascii_len("source");
    lemma_ascii_len("page_count");
    lemma_ascii_len("cache_format");
}

/// A key that reads as `name`.
pub open spec fn key_is(k: Seq<char>, name: &str) -> bool {
    encode_utf8(k) == name.spec_bytes()
}

/// A key that reads as `name` up to ASCII case.
pub open spec fn key_is_ci(k: Seq<char>, name: &str) -> bool {
    eq_ignore_case_spec(encode_utf8(k), name.spec_bytes())
}

/// The value of the last entry whose key is `name`.
pub open spec fn last_value(e: Seq<(Seq<char>, Seq<char>)>, name: &str) -> Option<Seq<char>>
    decreases e.len(),
{
    if e.len() == 0 {
        None
    } else if key_is(e.last().0, name) {
        Some(e.last().1)
    } else {
        last_value(e.drop_last(), name)
    }
}

/// The value of the last entry whose key is `name` up to ASCII case.
pub open spec fn last_value_ci(e: Seq<(Seq<char>, Seq<char>)>, name: &str) -> Option<Seq<char>>
    decreases e.len(),
{
    if e.len() == 0 {
        None
    } else if key_is_ci(e.last().0, name) {
        Some(e.last().1)
    } else {
        last_value_ci(e.drop_last(), name)
    }
}

/// The number a text holds, if it is a run of decimal digits that fits a `usize`.
pub open spec fn text_number(v: Seq<char>) -> Option<int> {
    usize_text_value(encode_utf8(v))
}

/// A number read from text fits a `usize`.
pub proof fn lemma_text_number_range(v: Seq<char>)
    ensures
        text_number(v) matches Some(n) ==> 0 <= n <= usize::MAX,
{
    let b = encode_utf8(v);
    if text_number(v) is Some {
        lemma_decimal_nonneg(b);
    }
}

/// Some `cache_format` entry does not hold a number.
pub open spec fn cache_format_bad(e: Seq<(Seq<char>, Seq<char>)>) -> bool {
    exists|i: int| 0 <= i < e.len() && key_is((#[trigger] e[i]).0, "cache_format") && text_number(e[i].1) is None
}

/// What a META.TXT says: the book id, the source path, the page count and
/// the layout. The last entry of each key counts; the cache format defaults
/// to the legacy one and every `cache_format` entry must hold a number; the
/// page count must be a number, within 192 pages for the legacy layout and
/// within the base-36 capacity for the page-local one, and not zero; the
/// book id must not be empty. Anything else is `InvalidMeta`.
pub open spec fn parse_meta_spec(s: Seq<char>) -> Result<(Seq<char>, Seq<char>, int, PreparedCacheLayout), PreparedTxtError> {
    let e = kv_entries(s);
    let pc = match last_value(e, "page_count") {
        Some(v) => text_number(v),
        None => None,
    };
    let fmt = match last_value(e, "cache_format") {
        Some(v) => text_number(v),
        None => Some(1int),
    };
    let book = match last_value(e, "book_id") {
        Some(v) => v,
        None => Seq::empty(),
    };
    let source = match last_value(e, "source") {
        Some(v) => v,
        None => Seq::empty(),
    };
    if cache_format_bad(e) || pc is None {
        Err(PreparedTxtError::InvalidMeta)
    } else if !((fmt == Some(1int) && pc->0 <= LEGACY_MAX_PAGES) || (fmt == Some(2int) && pc->0 <= PAGE_LOCAL_CAPACITY)) {
        Err(PreparedTxtError::InvalidMeta)
    } else if book.len() == 0 || pc->0 == 0 {
        Err(PreparedTxtError::InvalidMeta)
    } else {
        Ok((book, source, pc->0, if fmt == Some(1int) { PreparedCacheLayout::Legacy } else { PreparedCacheLayout::PageLocalBase36 }))
    }
}

/// A parsed META.TXT.
#[derive(Debug)]
pub struct ParsedMeta<'a> {
    pub book_id: &'a str,
    pub source: &'a str,
    pub page_count: usize,
    pub layout: PreparedCacheLayout,
}

proof fn lemma_take_last<T>(e: Seq<T>, i: int)
    requires
        0 <= i < e.len(),
    ensures
        e.take(i + 1).drop_last() == e.take(i),
        e.take(i + 1).last() == e[i],
        e.take(i + 1).len() == i + 1,
{
    assert(e.take(i + 1).drop_last() =~= e.take(i));
}

/// Reads a META.TXT.
pub fn parse_meta(input: &str) -> (r: Result<ParsedMeta<'_>, PreparedTxtError>)
    ensures
        match parse_meta_spec(input@) {
            Ok((book, source, pc, layout)) => r matches Ok(m) && m.book_id@ == book && m.source@ == source
                && m.page_count == pc && m.layout == layout,
            Err(e) => r matches Err(x) && x == e,
        },
{
    let entries = key_value_lines(input);
    let ghost e = kv_entries(input@);
    let mut book_id: &str = "";
    let mut source: &str = "";
    let mut page_count: Option<usize> = None;
    let mut cache_format: usize = CACHE_FORMAT_LEGACY;
    proof {
        reveal_strlit("");
    }
    let mut i: usize = 0;
    while i < entries.len()
        invariant
            e == kv_entries(input@),
            entries@.len() == e.len(),
            forall|k: int| 0 <= k < entries@.len() ==> (#[trigger] entries@[k]).0@ == e[k].0 && entries@[k].1@ == e[k].1,
            i <= e.len(),
            book_id@ == match last_value(e.take(i as int), "book_id") {
                Some(v) => v,
                None => Seq::empty(),
            },
            source@ == match last_value(e.take(i as int), "source") {
                Some(v) => v,
                None => Seq::empty(),
            },
            page_count == match last_value(e.take(i as int), "page_count") {
                Some(v) => match text_number(v) {
                    Some(n) => Some(n as usize),
                    None => None::<usize>,
                },
                None => None,
            },
            !cache_format_bad(e.take(i as int)),
            Some(cache_format as int) == match last_value(e.take(i as int), "cache_format") {
                Some(v) => text_number(v),
                None => Some(1int),
            },
        decreases e.len() - i,
    {
        let (key, value) = entries[i];
        proof {
            lemma_take_last(e, i as int);
            lemma_meta_keys_distinct(e[i as int].0);
        }
        if str_eq(key, "book_id") {
            book_id = value;
        } else if str_eq(key, "source") {
            source = value;
        } else if str_eq(key, "page_count") {
            page_count = parse_usize(value);
            proof {
                lemma_text_number_range(e[i as int].1);
            }
        } else if str_eq(key, "cache_format") {
            match parse_usize(value) {
                Some(v) => {
                    proof {
                        lemma_text_number_range(e[i as int].1);
                        assert(text_number(e[i as int].1) == Some(v as int));
                    }
                    cache_format = v;
                },
                None => {
                    proof {
                        assert(key_is(e[i as int].0, "cache_format"));
                        assert(cache_format_bad(e));
                    }
                    return Err(PreparedTxtError::InvalidMeta);
                },
            }
        }
        proof {
            let t = e.take(i + 1);
            assert forall|k: int| 0 <= k < t.len() && key_is((#[trigger] t[k]).0, "cache_format") implies text_number(t[k].1) is Some by {
                if k < i {
                    assert(t[k] == e.take(i as int)[k]);
                }
            }
        }
        i = i + 1;
    }
    assert(e.take(e.len() as int) =~= e);
    proof {
        match last_value(e, "page_count") {
            Some(v) => lemma_text_number_range(v),
            None => {},
        }
        match last_value(e, "cache_format") {
            Some(v) => lemma_text_number_range(v),
            None => {},
        }
    }
    let page_count = match page_count {
        Some(count) => count,
        None => {
            return Err(PreparedTxtError::InvalidMeta);
        },
    };
    let layout = if cache_format == CACHE_FORMAT_LEGACY && page_count <= LEGACY_MAX_PAGES {
        PreparedCacheLayout::Legacy
    } else if cache_format == CACHE_FORMAT_PAGE_LOCAL && page_count <= PAGE_LOCAL_CAPACITY {
        PreparedCacheLayout::PageLocalBase36
    } else {
        return Err(PreparedTxtError::InvalidMeta);
    };
    if book_id.is_empty() || page_count == 0 {
        return Err(PreparedTxtError::InvalidMeta);
    }
    Ok(ParsedMeta { book_id, source, page_count, layout })
}

/// The legacy global fonts a FONTS.IDX names.
#[derive(Debug)]
pub struct FontIndex<'a> {
    pub latin: &'a str,
    pub devanagari: Option<&'a str>,
    pub gujarati: Option<&'a str>,
}

/// What a FONTS.IDX says: the Latin font file (required) and the optional
/// Devanagari and Gujarati ones, keys matched up to ASCII case, the last
/// entry of each counting. Every named file must be a valid cache file name
/// (else `MissingFont`).
pub open spec fn parse_fonts_index_spec(s: Seq<char>) -> Result<(Seq<char>, Option<Seq<char>>, Option<Seq<char>>), PreparedTxtError> {
    let e = kv_entries(s);
    let latin = match last_value_ci(e, "Latin") {
        Some(v) => v,
        None => Seq::empty(),
    };
    let dev = last_value_ci(e, "Devanagari");
    let guj = last_value_ci(e, "Gujarati");
    if !valid_cache_file_spec(encode_utf8(latin)) {
        Err(PreparedTxtError::MissingFont)
    } else if dev matches Some(f) && !valid_cache_file_spec(encode_utf8(f)) {
        Err(PreparedTxtError::MissingFont)
    } else if guj matches Some(f) && !valid_cache_file_spec(encode_utf8(f)) {
        Err(PreparedTxtError::MissingFont)
    } else {
        Ok((latin, dev, guj))
    }
}

/// The last value for a case-insensitive key is never claimed by an earlier
/// branch: the three font keys differ.
proof fn lemma_font_keys_distinct(k: Seq<char>)
    ensures
        !(key_is_ci(k, "Latin") && key_is_ci(k, "Devanagari")),
        !(key_is_ci(k, "Latin") && key_is_ci(k, "Gujarati")),
        !(key_is_ci(k, "Devanagari") && key_is_ci(k, "Gujarati")),
{
    reveal_strlit("Latin");
    reveal_strlit("Devanagari");
    reveal_strlit("Gujarati");
    lemma_ascii_len("Latin");
    lemma_ascii_len("Devanagari");
    lemma_ascii_len("Gujarati");
}

fn opt_str_view<'a>(o: Option<&'a str>) -> (r: Option<&'a str>)
    ensures
        r == o,
{
    o
}

/// Reads a FONTS.IDX.
pub fn parse_fonts_index(input: &str) -> (r: Result<FontIndex<'_>, PreparedTxtError>)
    ensures
        match parse_fonts_index_spec(input@) {
            Ok((latin, dev, guj)) => r matches Ok(f) && f.latin@ == latin
                && (match dev {
                    Some(d) => f.devanagari matches Some(x) && x@ == d,
                    None => f.devanagari is None,
                })
                && (match guj {
                    Some(g) => f.gujarati matches Some(x) && x@ == g,
                    None => f.gujarati is None,
                }),
            Err(e) => r matches Err(x) && x == e,
        },
{
    let entries = key_value_lines(input);
    let ghost e = kv_entries(input@);
    let mut latin: &str = "";
    let mut devanagari: Option<&str> = None;
    let mut gujarati: Option<&str> = None;
    proof {
        reveal_strlit("");
    }
    let mut i: usize = 0;
    while i < entries.len()
        invariant
            e == kv_entries(input@),
            entries@.len() == e.len(),
            forall|k: int| 0 <= k < entries@.len() ==> (#[trigger] entries@[k]).0@ == e[k].0 && entries@[k].1@ == e[k].1,
            i <= e.len(),
            latin@ == match last_value_ci(e.take(i as int), "Latin") {
                Some(v) => v,
                None => Seq::empty(),
            },
            match last_value_ci(e.take(i as int), "Devanagari") {
                Some(v) => devanagari matches Some(x) && x@ == v,
                None => devanagari is None,
            },
            match last_value_ci(e.take(i as int), "Gujarati") {
                Some(v) => gujarati matches Some(x) && x@ == v,
                None => gujarati is None,
            },
        decreases e.len() - i,
    {
        let (key, value) = entries[i];
        proof {
            lemma_take_last(e, i as int);
            lemma_font_keys_distinct(e[i as int].0);
        }
        if eq_ignore_ascii_case(key, "Latin") {
            latin = value;
        } else if eq_ignore_ascii_case(key, "Devanagari") {
            devanagari = Some(value);
        } else if eq_ignore_ascii_case(key, "Gujarati") {
            gujarati = Some(value);
        }
        i = i + 1;
    }
    assert(e.take(e.len() as int) =~= e);
    if !valid_cache_file(latin) {
        return Err(PreparedTxtError::MissingFont);
    }
    if let Some(file) = devanagari {
        if !valid_cache_file(file) {
            return Err(PreparedTxtError::MissingFont);
        }
    }
    if let Some(file) = gujarati {
        if !valid_cache_file(file) {
            return Err(PreparedTxtError::MissingFont);
        }
    }
    Ok(FontIndex { latin, devanagari: opt_str_view(devanagari), gujarati })
}

/// The first line of a PAGES.IDX that cannot be taken: past the legacy page
/// limit, or not a valid cache file name; or the number of lines.
pub open spec fn first_bad_page_line(lines: Seq<Seq<char>>) -> int
    decreases lines.len(),
{
    if lines.len() == 0 {
        0
    } else {
        let k = first_bad_page_line(lines.drop_last());
        if k < lines.len() - 1 {
            k
        } else if lines.len() - 1 >= LEGACY_MAX_PAGES || !valid_cache_file_spec(encode_utf8(lines.last())) {
            lines.len() - 1
        } else {
            lines.len() as int
        }
    }
}

proof fn lemma_first_bad_bounds(lines: Seq<Seq<char>>)
    ensures
        0 <= first_bad_page_line(lines) <= lines.len(),
        first_bad_page_line(lines) <= LEGACY_MAX_PAGES,
        forall|j: int| 0 <= j < first_bad_page_line(lines) ==> j < LEGACY_MAX_PAGES
            && valid_cache_file_spec(encode_utf8(#[trigger] lines[j])),
    decreases lines.len(),
{
    if lines.len() > 0 {
        lemma_first_bad_bounds(lines.drop_last());
        assert forall|j: int| 0 <= j < lines.len() - 1 implies lines.drop_last()[j] == lines[j] by {}
    }
}

/// Reads a PAGES.IDX into `pages`: each trimmed, non-blank line names a page
/// file, in order. The names are stored from the first slot on until a line
/// cannot be taken; then the result is `InvalidIndex`, else the count.
pub fn parse_pages_index(input: &str, pages: &mut [String]) -> (r: Result<usize, PreparedTxtError>)
    requires
        old(pages)@.len() == 192,
    ensures
        final(pages)@.len() == 192,
        ({
            let lines = trimmed_nonblank_lines(input@);
            let k = first_bad_page_line(lines);
            &&& (forall|j: int| 0 <= j < 192 ==> (#[trigger] final(pages)@[j])@ == if j < k {
                lines[j]
            } else {
                old(pages)@[j]@
            })
            &&& r == if k == lines.len() {
                Ok::<usize, PreparedTxtError>(k as usize)
            } else {
                Err(PreparedTxtError::InvalidIndex)
            }
        }),
{
    let lines = nonblank_lines(input);
    let ghost l = trimmed_nonblank_lines(input@);
    let ghost before = pages@;
    let mut count: usize = 0;
    while count < lines.len()
        invariant
            l == trimmed_nonblank_lines(input@),
            lines@.len() == l.len(),
            forall|k: int| 0 <= k < lines@.len() ==> (#[trigger] lines@[k])@ == l[k],
            count <= l.len(),
            first_bad_page_line(l.take(count as int)) == count,
            count <= 192,
            before == old(pages)@,
            pages@.len() == 192,
            forall|j: int| 0 <= j < 192 ==> (#[trigger] pages@[j])@ == if j < count {
                l[j]
            } else {
                before[j]@
            },
        decreases l.len() - count,
    {
        let page = lines[count];
        proof {
            lemma_take_last(l, count as int);
        }
        if count >= LEGACY_MAX_PAGES || !valid_cache_file(page) {
            proof {
                lemma_first_bad_prefix(l, count as int);
                assert(first_bad_page_line(l) == count);
                assert(count < l.len());

            }
            return Err(PreparedTxtError::InvalidIndex);
        }
        pages[count] = page.to_owned();
        count = count + 1;
    }
    assert(l.take(l.len() as int) =~= l);
    Ok(count)
}

/// Once a prefix stops at its line `i`, the whole index stops there.
proof fn lemma_first_bad_prefix(l: Seq<Seq<char>>, i: int)
    requires
        0 <= i < l.len(),
        first_bad_page_line(l.take(i)) == i,
        i >= LEGACY_MAX_PAGES || !valid_cache_file_spec(encode_utf8(l[i])),
    ensures
        first_bad_page_line(l) == i,
    decreases l.len() - i,
{
    lemma_take_last(l, i);
    assert(first_bad_page_line(l.take(i + 1)) == i);
    lemma_first_bad_stable(l, i, i + 1);
}

/// A stop found in a prefix stays the stop of every longer prefix.
proof fn lemma_first_bad_stable(l: Seq<Seq<char>>, i: int, n: int)
    requires
        0 <= i < n <= l.len(),
        first_bad_page_line(l.take(n)) == i,
    ensures
        first_bad_page_line(l) == i,
    decreases l.len() - n,
{
    if n == l.len() {
        assert(l.take(n) =~= l);
    } else {
        lemma_take_last(l, n);
        lemma_first_bad_stable(l, i, n + 1);
    }
}

// ---------------------------------------------------------------------------
// Page-local file names

/// The base-36 digit character of `d`: `0`-`9`, then `A`-`Z`.
pub open spec fn base36_char(d: int) -> char {
    (if d < 10 { 48 + d } else { 55 + d }) as char
}

/// The five base-36 digits of `v`, most significant first.
pub open spec fn base36_5(v: int) -> Seq<char> {
    seq![
        base36_char((v / 1679616) % 36),
        base36_char((v / 46656) % 36),
        base36_char((v / 1296) % 36),
        base36_char((v / 36) % 36),
        base36_char(v % 36),
    ]
}

pub open spec fn is_alnum_char(c: char) -> bool {
    ('0' <= c && c <= '9') || ('A' <= c && c <= 'Z') || ('a' <= c && c <= 'z')
}

/// The arguments of a page-local name are usable: the prefix is an ASCII
/// letter or digit, the extension three of them, the page within the
/// base-36 capacity.
pub open spec fn page_local_args_ok(prefix: char, page: int, ext: &str) -> bool {
    &&& is_alnum_char(prefix)
    &&& ext.spec_bytes().len() == 3
    &&& forall|i: int| 0 <= i < 3 ==> is_ascii_alnum(#[trigger] ext.spec_bytes()[i])
    &&& 0 <= page < PAGE_LOCAL_CAPACITY
}

/// The page-local name: the prefix, the page number as five base-36 digits,
/// a dot and the extension.
pub open spec fn page_local_stem(prefix: char, page: int, ext: &str) -> Seq<char> {
    seq![prefix] + base36_5(page) + seq!['.'] + ext@
}

/// A page-local file name, or why there is none: unusable arguments
/// (`TooLarge`), or a name that is not a valid cache file name (`InvalidPage`).
pub open spec fn page_local_name_spec(prefix: char, page: int, ext: &str) -> Result<Seq<char>, PreparedTxtError> {
    if !page_local_args_ok(prefix, page, ext) {
        Err(PreparedTxtError::TooLarge)
    } else if valid_cache_file_spec(encode_utf8(page_local_stem(prefix, page, ext))) {
        Ok(page_local_stem(prefix, page, ext))
    } else {
        Err(PreparedTxtError::InvalidPage)
    }
}

fn base36_digit(d: usize) -> (r: char)
    requires
        d < 36,
    ensures
        r == base36_char(d as int),
{
    let code: u8 = if d < 10 { 48 + d as u8 } else { 55 + d as u8 };
    code as char
}

/// Checks the arguments of a page-local name.
pub fn page_local_args_valid(prefix: char, page: usize, extension: &str) -> (r: bool)
    ensures
        r == page_local_args_ok(prefix, page as int, extension),
{
    let ext = extension.as_bytes();
    let prefix_ok = ('0' <= prefix && prefix <= '9') || ('A' <= prefix && prefix <= 'Z') || ('a' <= prefix && prefix <= 'z');
    if !prefix_ok || ext.len() != 3 || page >= PAGE_LOCAL_CAPACITY {
        return false;
    }
    let mut i: usize = 0;
    while i < 3
        invariant
            ext@ == extension.spec_bytes(),
            ext@.len() == 3,
            i <= 3,
            forall|k: int| 0 <= k < i ==> is_ascii_alnum(#[trigger] ext@[k]),
        decreases 3 - i,
    {
        let c = ext[i];
        if !((0x30u8 <= c && c <= 0x39u8) || (0x41u8 <= c && c <= 0x5au8) || (0x61u8 <= c && c <= 0x7au8)) {
            return false;
        }
        i = i + 1;
    }
    true
}

/// Builds the page-local name of a page.
pub fn page_local_name_string(prefix: char, page: usize, extension: &str) -> (r: String)
    ensures
        r@ == page_local_stem(prefix, page as int, extension),
{
    let mut out = String::new();
    string_push(&mut out, prefix);
    string_push(&mut out, base36_digit((page / 1679616) % 36));
    string_push(&mut out, base36_digit((page / 46656) % 36));
    string_push(&mut out, base36_digit((page / 1296) % 36));
    string_push(&mut out, base36_digit((page / 36) % 36));
    string_push(&mut out, base36_digit(page % 36));
    string_push(&mut out, '.');
    crate::std_text::string_push_str(&mut out, extension);
    assert(out@ =~= seq![prefix] + base36_5(page as int) + seq!['.'] + extension@);
    out
}

/// Characters whose UTF-8 bytes are all below 0x80 are ASCII.
proof fn lemma_ascii_bytes_ascii_chars(s: Seq<char>)
    requires
        forall|i: int| 0 <= i < encode_utf8(s).len() ==> #[trigger] encode_utf8(s)[i] < 0x80,
    ensures
        vstd::utf8::is_ascii_chars(s),
    decreases s.len(),
{
    if s.len() > 0 {
        let c = s[0] as u32;
        let b = encode_utf8(s);
        let e = vstd::utf8::encode_scalar(c);
        vstd::utf8::char_is_scalar(s[0]);
        assert(b == e + encode_utf8(s.drop_first()));
        assert(b[0] == e[0]);
        if !vstd::utf8::has_width_1_encoding(c) {
            let x2 = ((c >> 6u32) & 0x1Fu32) as u8;
            let x3 = ((c >> 12u32) & 0x0Fu32) as u8;
            let x4 = ((c >> 18u32) & 0x7u32) as u8;
            assert((0xC0u8 | x2) >= 0x80u8) by (bit_vector);
            assert((0xE0u8 | x3) >= 0x80u8) by (bit_vector);
            assert((0xF0u8 | x4) >= 0x80u8) by (bit_vector);
            assert(false);
        }
        assert(e.len() == 1);
        assert forall|i: int| 0 <= i < encode_utf8(s.drop_first()).len() implies #[trigger] encode_utf8(s.drop_first())[i] < 0x80 by {
            assert(encode_utf8(s.drop_first())[i] == b[i + 1]);
        }
        lemma_ascii_bytes_ascii_chars(s.drop_first());
        assert forall|i: int| 0 <= i < s.len() implies '\0' <= #[trigger] s[i] <= '\u{7f}' by {
            if i > 0 {
                assert(s[i] == s.drop_first()[i - 1]);
            } else {
                assert(vstd::utf8::has_width_1_encoding(c));
                let u = s[0] as u32;
                assert(u <= 0x7f);
                vstd::utf8::char_u32_cast(s[0], u);
                assert((u as char) == s[0]);
                assert((u as char) <= '\u{7f}');
            }
        }
    }
}

/// The reader and the builder name page-local files alike: for usable
/// arguments the reader's name is the page-local stem, which is always a
/// valid cache file name (ten ASCII letters, digits and a dot).
pub proof fn lemma_page_local_names_valid(prefix: char, page: int, ext: &str)
    requires
        page_local_args_ok(prefix, page, ext),
    ensures
        valid_cache_file_spec(encode_utf8(page_local_stem(prefix, page, ext))),
        page_local_name_spec(prefix, page, ext) == Ok::<Seq<char>, PreparedTxtError>(page_local_stem(prefix, page, ext)),
{
    let eb = ext.spec_bytes();
    assert forall|i: int| 0 <= i < encode_utf8(ext@).len() implies #[trigger] encode_utf8(ext@)[i] < 0x80 by {
        assert(is_ascii_alnum(eb[i]));
    }
    lemma_ascii_bytes_ascii_chars(ext@);
    vstd::utf8::is_ascii_chars_encode_utf8(ext@);
    let stem = page_local_stem(prefix, page, ext);
    let digits = base36_5(page);
    assert forall|k: int| 0 <= k < 5 implies ('0' <= #[trigger] digits[k] && digits[k] <= '9') || ('A' <= digits[k] && digits[k] <= 'Z') by {
        let d = if k == 0 {
            (page / 1679616) % 36
        } else if k == 1 {
            (page / 46656) % 36
        } else if k == 2 {
            (page / 1296) % 36
        } else if k == 3 {
            (page / 36) % 36
        } else {
            page % 36
        };
        assert(0 <= d < 36);
        assert(digits[k] == base36_char(d));
    }
    assert(stem.len() == 10);
    assert forall|i: int| 0 <= i < 10 implies ('0' <= #[trigger] stem[i] && stem[i] <= '9') || ('A' <= stem[i] && stem[i] <= 'Z')
        || ('a' <= stem[i] && stem[i] <= 'z') || stem[i] == '.' by {
        if i == 0 {
            assert(stem[i] == prefix);
        } else if i < 6 {
            assert(stem[i] == digits[i - 1]);
        } else if i == 6 {
            assert(stem[i] == '.');
        } else {
            assert(stem[i] == ext@[i - 7]);
            assert(ext@[i - 7] as u8 == eb[i - 7]);
            assert(is_ascii_alnum(eb[i - 7]));
        }
    }
    assert(vstd::utf8::is_ascii_chars(stem));
    vstd::utf8::is_ascii_chars_encode_utf8(stem);
    let sb = encode_utf8(stem);
    assert forall|i: int| 0 <= i < sb.len() implies is_ascii_alnum(#[trigger] sb[i]) || sb[i] == 0x2e || sb[i] == 0x5f by {
        assert(stem[i] as u8 == sb[i]);
    }
}

/// Base-36 digits above a position agree, and so does the digit at it:
/// then the numbers agree from that position up.
proof fn lemma_base36_step(a: int, b: int, k: int)
    requires
        k > 0,
        a >= 0,
        b >= 0,
        (a / k) % 36 == (b / k) % 36,
        a / (k * 36) == b / (k * 36),
    ensures
        a / k == b / k,
{
    vstd::arithmetic::div_mod::lemma_div_denominator(a, k, 36);
    vstd::arithmetic::div_mod::lemma_div_denominator(b, k, 36);
    vstd::arithmetic::div_mod::lemma_fundamental_div_mod(a / k, 36);
    vstd::arithmetic::div_mod::lemma_fundamental_div_mod(b / k, 36);
}

/// Distinct pages get distinct page-local names: the five base-36 digits
/// name every page below the capacity once.
pub proof fn lemma_page_local_names_distinct(prefix: char, a: int, b: int, ext: &str)
    requires
        0 <= a < PAGE_LOCAL_CAPACITY,
        0 <= b < PAGE_LOCAL_CAPACITY,
        a != b,
    ensures
        page_local_stem(prefix, a, ext) != page_local_stem(prefix, b, ext),
{
    if page_local_stem(prefix, a, ext) == page_local_stem(prefix, b, ext) {
        let sa = page_local_stem(prefix, a, ext);
        let sb = page_local_stem(prefix, b, ext);
        let da = base36_5(a);
        let db = base36_5(b);
        assert forall|k: int| 0 <= k < 5 implies da[k] == db[k] by {
            assert(sa[k + 1] == da[k]);
            assert(sb[k + 1] == db[k]);
        }
        assert(da[0] == db[0] && da[1] == db[1] && da[2] == db[2] && da[3] == db[3] && da[4] == db[4]);
        assert(a / 60466176 == 0 && b / 60466176 == 0);
        lemma_base36_step(a, b, 1679616);
        lemma_base36_step(a, b, 46656);
        lemma_base36_step(a, b, 1296);
        lemma_base36_step(a, b, 36);
        lemma_base36_step(a, b, 1);
    }
}

pub fn page_local_file_name(prefix: char, page: usize, extension: &str) -> (r: Result<String, PreparedTxtError>)
    ensures
        match page_local_name_spec(prefix, page as int, extension) {
            Ok(name) => r matches Ok(s) && s@ == name,
            Err(e) => r matches Err(x) && x == e,
        },
{
    if !page_local_args_valid(prefix, page, extension) {
        return Err(PreparedTxtError::TooLarge);
    }
    let out = page_local_name_string(prefix, page, extension);
    if valid_cache_file(out.as_str()) {
        Ok(out)
    } else {
        Err(PreparedTxtError::InvalidPage)
    }
}

/// The page-local font file of a script font: `L`, `D` or `G` by font id.
pub open spec fn font_prefix(font_id: u32) -> Option<char> {
    if font_id == FONT_LATIN {
        Some('L')
    } else if font_id == FONT_DEVANAGARI {
        Some('D')
    } else if font_id == FONT_GUJARATI {
        Some('G')
    } else {
        None
    }
}

/// The text of a cache file, or `err` when its bytes are not UTF-8.
pub fn cache_text(bytes: &[u8], err: PreparedTxtError) -> (r: Result<&str, PreparedTxtError>)
    ensures
        vstd::utf8::valid_utf8(bytes@) ==> (r matches Ok(s) && s@ == vstd::utf8::decode_utf8(bytes@)),
        !vstd::utf8::valid_utf8(bytes@) ==> r == Err::<&str, PreparedTxtError>(err),
{
    match crate::std_text::str_from_utf8(bytes) {
        Some(s) => Ok(s),
        None => Err(err),
    }
}

/// The buffer size of a cache read of at most `max_len` bytes: one byte
/// more, so that a longer file shows; `TooLarge` when that overflows.
pub fn cache_read_limit(max_len: usize) -> (r: Result<usize, PreparedTxtError>)
    ensures
        max_len < usize::MAX ==> r == Ok::<usize, PreparedTxtError>((max_len + 1) as usize),
        max_len == usize::MAX ==> r == Err::<usize, PreparedTxtError>(PreparedTxtError::TooLarge),
{
    match max_len.checked_add(1) {
        Some(n) => Ok(n),
        None => Err(PreparedTxtError::TooLarge),
    }
}

/// What a cache read into `buffer` yields: `Missing` when the read failed,
/// `TooLarge` when more than `max_len` bytes came, else the bytes read.
pub fn finish_cache_read(buffer: Vec<u8>, read: Option<usize>, max_len: usize) -> (r: Result<Vec<u8>, PreparedTxtError>)
    requires
        read matches Some(n) ==> n <= buffer@.len(),
    ensures
        read is None ==> r == Err::<Vec<u8>, PreparedTxtError>(PreparedTxtError::Missing),
        read matches Some(n) ==> if n > max_len {
            r == Err::<Vec<u8>, PreparedTxtError>(PreparedTxtError::TooLarge)
        } else {
            r matches Ok(d) && d@ == buffer@.take(n as int)
        },
{
    let n = match read {
        Some(n) => n,
        None => {
            return Err(PreparedTxtError::Missing);
        },
    };
    if n > max_len {
        return Err(PreparedTxtError::TooLarge);
    }
    let mut data = buffer;
    data.truncate(n);
    Ok(data)
}

pub fn page_local_font_file_name(font_id: u32, page: usize) -> (r: Result<String, PreparedTxtError>)
    ensures
        match font_prefix(font_id) {
            None => r matches Err(x) && x == PreparedTxtError::MissingFont,
            Some(p) => match page_local_name_spec(p, page as int, "VFN") {
                Ok(name) => r matches Ok(s) && s@ == name,
                Err(e) => r matches Err(x) && x == e,
            },
        },
{
    let prefix = if font_id == FONT_LATIN {
        'L'
    } else if font_id == FONT_DEVANAGARI {
        'D'
    } else if font_id == FONT_GUJARATI {
        'G'
    } else {
        return Err(PreparedTxtError::MissingFont);
    };
    page_local_file_name(prefix, page, "VFN")
}

// ---------------------------------------------------------------------------
// The open book

/// One glyph to draw: its 1-bpp rows and where they go.
pub struct PreparedGlyphBlit<'a> {
    pub data: &'a [u8],
    pub width: u16,
    pub height: u16,
    pub row_stride: u16,
    pub x: i32,
    pub y: i32,
}

/// How a glyph is drawn at the page origin `(x, y)`: the bitmap bytes, its
/// width, height and row stride, and its position; none when its font is
/// unknown or unreadable or lacks the glyph.
pub open spec fn glyph_blit_spec(lat: Seq<u8>, dev: Seq<u8>, guj: Seq<u8>, g: PreparedGlyphRecord, x: int, y: int) -> Option<
    (Seq<u8>, int, int, int, int, int),
> {
    match font_data_for(g.font_id, lat, dev, guj) {
        None => None,
        Some(d) => match vfnt_parse_spec(d) {
            Err(_) => None,
            Ok(layout) => match vfnt_glyph_spec(d, layout, g.glyph_id as int) {
                Err(_) => None,
                Ok((start, end, w, h, stride)) => Some((d.subrange(start, end), w, h, stride, x + g.x, y + g.y)),
            },
        },
    }
}

/// The glyphs of a page that can be drawn, in page order.
pub open spec fn draw_spec(lat: Seq<u8>, dev: Seq<u8>, guj: Seq<u8>, gs: Seq<PreparedGlyphRecord>, x: int, y: int) -> Seq<
    (Seq<u8>, int, int, int, int, int),
>
    decreases gs.len(),
{
    if gs.len() == 0 {
        Seq::empty()
    } else {
        let rest = draw_spec(lat, dev, guj, gs.drop_last(), x, y);
        match glyph_blit_spec(lat, dev, guj, gs.last(), x, y) {
            Some(b) => rest.push(b),
            None => rest,
        }
    }
}

/// A glyph that can be drawn is drawn at the page origin moved by its
/// record's position, x by the record's x and y by its y, with its font's
/// bitmap for its id.
pub proof fn lemma_blit_at_record(lat: Seq<u8>, dev: Seq<u8>, guj: Seq<u8>, g: PreparedGlyphRecord, x: int, y: int)
    ensures
        glyph_blit_spec(lat, dev, guj, g, x, y) matches Some(b) ==> {
            &&& b.4 == x + g.x
            &&& b.5 == y + g.y
            &&& font_data_for(g.font_id, lat, dev, guj) matches Some(d) && vfnt_parse_spec(d) matches Ok(layout)
                && vfnt_glyph_spec(d, layout, g.glyph_id as int) matches Ok((start, end, w, h, stride))
                && b == (d.subrange(start, end), w, h, stride, x + g.x, y + g.y)
        },
{
}

/// What a page draws comes from its records: every blit is the blit of one
/// of the page's records, at the page origin moved by that record's x and
/// y, and no record draws twice; when every record's glyph is found, the
/// `i`-th blit is the `i`-th record's, at its position.
pub proof fn lemma_draw_from_records(lat: Seq<u8>, dev: Seq<u8>, guj: Seq<u8>, gs: Seq<PreparedGlyphRecord>, x: int, y: int)
    ensures
        draw_spec(lat, dev, guj, gs, x, y).len() <= gs.len(),
        forall|i: int|
            #![trigger draw_spec(lat, dev, guj, gs, x, y)[i]]
            0 <= i < draw_spec(lat, dev, guj, gs, x, y).len() ==> exists|k: int| {
            &&& 0 <= k < gs.len()
            &&& glyph_blit_spec(lat, dev, guj, #[trigger] gs[k], x, y) == Some(draw_spec(lat, dev, guj, gs, x, y)[i])
            &&& draw_spec(lat, dev, guj, gs, x, y)[i].4 == x + gs[k].x
            &&& draw_spec(lat, dev, guj, gs, x, y)[i].5 == y + gs[k].y
        },
        (forall|k: int| 0 <= k < gs.len() ==> glyph_blit_spec(lat, dev, guj, #[trigger] gs[k], x, y) is Some) ==> {
            &&& draw_spec(lat, dev, guj, gs, x, y).len() == gs.len()
            &&& forall|i: int| 0 <= i < gs.len() ==> (#[trigger] draw_spec(lat, dev, guj, gs, x, y)[i]).4 == x + gs[i].x
                && draw_spec(lat, dev, guj, gs, x, y)[i].5 == y + gs[i].y
        },
    decreases gs.len(),
{
    if gs.len() > 0 {
        let init = gs.drop_last();
        lemma_draw_from_records(lat, dev, guj, init, x, y);
        let rest = draw_spec(lat, dev, guj, init, x, y);
        let d = draw_spec(lat, dev, guj, gs, x, y);
        lemma_blit_at_record(lat, dev, guj, gs.last(), x, y);
        assert forall|i: int| #![trigger d[i]] 0 <= i < d.len() implies exists|k: int| {
            &&& 0 <= k < gs.len()
            &&& glyph_blit_spec(lat, dev, guj, #[trigger] gs[k], x, y) == Some(d[i])
            &&& d[i].4 == x + gs[k].x
            &&& d[i].5 == y + gs[k].y
        } by {
            if i < rest.len() {
                assert(d[i] == rest[i]);
                let k = choose|k: int| {
                    &&& 0 <= k < init.len()
                    &&& glyph_blit_spec(lat, dev, guj, #[trigger] init[k], x, y) == Some(rest[i])
                    &&& rest[i].4 == x + init[k].x
                    &&& rest[i].5 == y + init[k].y
                };
                assert(gs[k] == init[k]);
            } else {
                let k = gs.len() - 1;
                assert(gs[k] == gs.last());
            }
        }
        if forall|k: int| 0 <= k < gs.len() ==> glyph_blit_spec(lat, dev, guj, #[trigger] gs[k], x, y) is Some {
            assert forall|k: int| 0 <= k < init.len() implies glyph_blit_spec(lat, dev, guj, #[trigger] init[k], x, y) is Some by {
                assert(init[k] == gs[k]);
            }
            assert(glyph_blit_spec(lat, dev, guj, gs[gs.len() - 1], x, y) is Some);
            assert forall|i: int| 0 <= i < gs.len() implies (#[trigger] d[i]).4 == x + gs[i].x && d[i].5 == y + gs[i].y by {
                if i < init.len() {
                    assert(d[i] == rest[i]);
                    assert(init[i] == gs[i]);
                }
            }
        }
    }
}

/// The reader's state for a prepared book: which cache is open, its layout
/// and page count, the legacy page files, the loaded fonts and the glyphs of
/// the current page.
pub struct PreparedTxtState {
    active: bool,
    layout: PreparedCacheLayout,
    book_id: String,
    page_count: usize,
    legacy_page_files: Vec<String>,
    latin_font: Vec<u8>,
    devanagari_font: Vec<u8>,
    gujarati_font: Vec<u8>,
    glyphs: [PreparedGlyphRecord; 1024],
    glyph_count: usize,
}

impl PreparedTxtState {
    pub closed spec fn wf(&self) -> bool {
        &&& self.legacy_page_files@.len() == LEGACY_MAX_PAGES
        &&& self.glyph_count <= MAX_GLYPHS
        &&& (self.layout == PreparedCacheLayout::Legacy ==> self.page_count <= LEGACY_MAX_PAGES)
    }

    pub closed spec fn active_spec(&self) -> bool {
        self.active
    }

    pub closed spec fn layout_spec(&self) -> PreparedCacheLayout {
        self.layout
    }

    pub closed spec fn book_spec(&self) -> Seq<char> {
        self.book_id@
    }

    pub closed spec fn page_count_spec(&self) -> nat {
        self.page_count as nat
    }

    /// The page file names a legacy cache lists.
    pub closed spec fn page_file(&self, i: int) -> Seq<char> {
        self.legacy_page_files@[i]@
    }

    pub closed spec fn latin_spec(&self) -> Seq<u8> {
        self.latin_font@
    }

    pub closed spec fn devanagari_spec(&self) -> Seq<u8> {
        self.devanagari_font@
    }

    pub closed spec fn gujarati_spec(&self) -> Seq<u8> {
        self.gujarati_font@
    }

    /// The current page's glyphs.
    pub closed spec fn page_glyphs(&self) -> Seq<PreparedGlyphRecord> {
        self.glyphs@.take(self.glyph_count as int)
    }

    /// Nothing open: no book, no pages, no fonts, no glyphs.
    pub open spec fn is_cleared(&self) -> bool {
        &&& self.wf()
        &&& !self.active_spec()
        &&& self.layout_spec() == PreparedCacheLayout::Legacy
        &&& self.book_spec().len() == 0
        &&& self.page_count_spec() == 0
        &&& self.latin_spec().len() == 0
        &&& self.devanagari_spec().len() == 0
        &&& self.gujarati_spec().len() == 0
        &&& self.page_glyphs().len() == 0
    }

    pub fn new() -> (r: Self)
        ensures
            r.is_cleared(),
    {
        let mut files: Vec<String> = Vec::new();
        let mut i: usize = 0;
        while i < LEGACY_MAX_PAGES
            invariant
                i <= LEGACY_MAX_PAGES,
                files@.len() == i,
            decreases LEGACY_MAX_PAGES - i,
        {
            files.push(String::new());
            i = i + 1;
        }
        let r = Self {
            active: false,
            layout: PreparedCacheLayout::Legacy,
            book_id: String::new(),
            page_count: 0,
            legacy_page_files: files,
            latin_font: Vec::new(),
            devanagari_font: Vec::new(),
            gujarati_font: Vec::new(),
            glyphs: [PreparedGlyphRecord { font_id: 0, glyph_id: 0, x: 0, y: 0 }; 1024],
            glyph_count: 0,
        };
        assert(r.glyphs@.take(0) =~= Seq::<PreparedGlyphRecord>::empty());
        r
    }

    /// Closes whatever was open.
    pub fn clear(&mut self)
        ensures
            final(self).is_cleared(),
    {
        self.active = false;
        self.layout = PreparedCacheLayout::Legacy;
        self.book_id = String::new();
        self.page_count = 0;
        let mut files: Vec<String> = Vec::new();
        let mut i: usize = 0;
        while i < LEGACY_MAX_PAGES
            invariant
                i <= LEGACY_MAX_PAGES,
                files@.len() == i,
            decreases LEGACY_MAX_PAGES - i,
        {
            files.push(String::new());
            i = i + 1;
        }
        self.legacy_page_files = files;
        self.clear_fonts();
        self.glyph_count = 0;
        assert(self.glyphs@.take(0) =~= Seq::<PreparedGlyphRecord>::empty());
    }

    fn clear_fonts(&mut self)
        ensures
            final(self).latin_font@.len() == 0,
            final(self).devanagari_font@.len() == 0,
            final(self).gujarati_font@.len() == 0,
            final(self).active == old(self).active,
            final(self).layout == old(self).layout,
            final(self).book_id == old(self).book_id,
            final(self).page_count == old(self).page_count,
            final(self).legacy_page_files == old(self).legacy_page_files,
            final(self).glyphs == old(self).glyphs,
            final(self).glyph_count == old(self).glyph_count,
    {
        self.latin_font = Vec::new();
        self.devanagari_font = Vec::new();
        self.gujarati_font = Vec::new();
    }

    pub fn is_active(&self) -> (r: bool)
        ensures
            r == self.active_spec(),
    {
        self.active
    }

    pub fn page_count(&self) -> (r: usize)
        ensures
            r == self.page_count_spec(),
    {
        self.page_count
    }

    /// Opens a cache from its META.TXT for the book `book_id`: the meta must
    /// read and name the same book up to ASCII case (else `MismatchedBook`).
    /// The state is cleared first and again on any error; on success it holds
    /// the book id, layout and page count, and is not yet active.
    pub fn begin_open(&mut self, book_id: &str, source_path: &str, meta: &str) -> (r: Result<PreparedCacheLayout, PreparedTxtError>)
        requires
            old(self).wf(),
        ensures
            final(self).wf(),
            match parse_meta_spec(meta@) {
                Err(e) => r == Err::<PreparedCacheLayout, PreparedTxtError>(e) && final(self).is_cleared(),
                Ok((book, source, pc, layout)) => if !eq_ignore_case_spec(encode_utf8(book), book_id.spec_bytes()) {
                    r == Err::<PreparedCacheLayout, PreparedTxtError>(PreparedTxtError::MismatchedBook) && final(self).is_cleared()
                } else {
                    &&& r == Ok::<PreparedCacheLayout, PreparedTxtError>(layout)
                    &&& !final(self).active_spec()
                    &&& final(self).layout_spec() == layout
                    &&& final(self).book_spec() == book_id@
                    &&& final(self).page_count_spec() == pc
                    &&& final(self).latin_spec().len() == 0
                    &&& final(self).devanagari_spec().len() == 0
                    &&& final(self).gujarati_spec().len() == 0
                    &&& final(self).page_glyphs().len() == 0
                },
            },
    {
        self.clear();
        let parsed = match parse_meta(meta) {
            Ok(m) => m,
            Err(e) => {
                return Err(e);
            },
        };
        if !eq_ignore_ascii_case(parsed.book_id, book_id) {
            return Err(PreparedTxtError::MismatchedBook);
        }
        if !parsed.source.is_empty() && !source_matches(parsed.source, source_path) {
            return Err(PreparedTxtError::MismatchedBook);
        }
        self.layout = parsed.layout;
        crate::std_text::string_push_str(&mut self.book_id, book_id);
        self.page_count = parsed.page_count;
        Ok(parsed.layout)
    }

    /// Takes a legacy cache's indexes: FONTS.IDX names the fonts to load
    /// (returned), PAGES.IDX lists exactly the meta's page count of page
    /// files (else `InvalidIndex`).
    pub fn open_legacy_index<'a>(&mut self, fonts_index: &'a str, pages_index: &str) -> (r: Result<FontIndex<'a>, PreparedTxtError>)
        requires
            old(self).wf(),
        ensures
            final(self).wf(),
            final(self).active_spec() == old(self).active_spec(),
            final(self).layout_spec() == old(self).layout_spec(),
            final(self).book_spec() == old(self).book_spec(),
            final(self).page_count_spec() == old(self).page_count_spec(),
            final(self).latin_spec() == old(self).latin_spec(),
            final(self).devanagari_spec() == old(self).devanagari_spec(),
            final(self).gujarati_spec() == old(self).gujarati_spec(),
            final(self).page_glyphs() == old(self).page_glyphs(),
            ({
                let lines = trimmed_nonblank_lines(pages_index@);
                let k = first_bad_page_line(lines);
                forall|j: int| 0 <= j < LEGACY_MAX_PAGES ==> #[trigger] final(self).page_file(j) == if parse_fonts_index_spec(
                    fonts_index@,
                ) is Ok && j < k {
                    lines[j]
                } else {
                    old(self).page_file(j)
                }
            }),
            ({
                let lines = trimmed_nonblank_lines(pages_index@);
                match parse_fonts_index_spec(fonts_index@) {
                    Err(e) => r matches Err(x) && x == e,
                    Ok((latin, dev, guj)) => if first_bad_page_line(lines) != lines.len() || lines.len() == 0
                        || lines.len() != old(self).page_count_spec() {
                        r matches Err(x) && x == PreparedTxtError::InvalidIndex
                    } else {
                        &&& r matches Ok(f) && f.latin@ == latin && (match dev {
                            Some(d) => f.devanagari matches Some(x) && x@ == d,
                            None => f.devanagari is None,
                        }) && (match guj {
                            Some(g) => f.gujarati matches Some(x) && x@ == g,
                            None => f.gujarati is None,
                        })
                        &&& forall|i: int| 0 <= i < lines.len() ==> final(self).page_file(i) == lines[i]
                    },
                }
            }),
    {
        let fonts = parse_fonts_index(fonts_index)?;
        let count = parse_pages_index(pages_index, self.legacy_page_files.as_mut_slice());
        let count = match count {
            Ok(c) => c,
            Err(e) => {
                return Err(e);
            },
        };
        if count == 0 || count != self.page_count {
            return Err(PreparedTxtError::InvalidIndex);
        }
        Ok(fonts)
    }

    /// Installs a legacy cache's global fonts: Latin must read as a font,
    /// Devanagari and Gujarati may be absent (empty) or must read as fonts
    /// (else `InvalidFont`).
    pub fn install_legacy_fonts(&mut self, latin: Vec<u8>, devanagari: Vec<u8>, gujarati: Vec<u8>) -> (r: Result<(), PreparedTxtError>)
        requires
            old(self).wf(),
        ensures
            final(self).wf(),
            final(self).latin_spec() == latin@,
            final(self).devanagari_spec() == devanagari@,
            final(self).gujarati_spec() == gujarati@,
            final(self).active_spec() == old(self).active_spec(),
            final(self).page_count_spec() == old(self).page_count_spec(),
            final(self).layout_spec() == old(self).layout_spec(),
            r is Ok <==> (vfnt_parse_spec(latin@) is Ok && (devanagari@.len() == 0 || vfnt_parse_spec(devanagari@) is Ok)
                && (gujarati@.len() == 0 || vfnt_parse_spec(gujarati@) is Ok)),
            r is Err ==> r == Err::<(), PreparedTxtError>(PreparedTxtError::InvalidFont),
    {
        self.latin_font = latin;
        self.devanagari_font = devanagari;
        self.gujarati_font = gujarati;
        validate_loaded_font(self.latin_font.as_slice())?;
        validate_optional_loaded_font(self.devanagari_font.as_slice())?;
        validate_optional_loaded_font(self.gujarati_font.as_slice())?;
        Ok(())
    }

    /// Marks the cache open for reading pages.
    pub fn activate(&mut self)
        requires
            old(self).wf(),
        ensures
            final(self).wf(),
            final(self).active_spec(),
            final(self).layout_spec() == old(self).layout_spec(),
            final(self).book_spec() == old(self).book_spec(),
            final(self).page_count_spec() == old(self).page_count_spec(),
            final(self).latin_spec() == old(self).latin_spec(),
            final(self).devanagari_spec() == old(self).devanagari_spec(),
            final(self).gujarati_spec() == old(self).gujarati_spec(),
            final(self).page_glyphs() == old(self).page_glyphs(),
            forall|i: int| 0 <= i < LEGACY_MAX_PAGES ==> final(self).page_file(i) == old(self).page_file(i),
    {
        self.active = true;
    }

    /// The file that holds a page: the listed name in a legacy cache, the
    /// base-36 name in a page-local one; `InvalidPage` when no cache is
    /// active or the page is past the last.
    pub fn page_file_name(&self, page: usize) -> (r: Result<String, PreparedTxtError>)
        requires
            self.wf(),
        ensures
            if !self.active_spec() || page >= self.page_count_spec() {
                r matches Err(x) && x == PreparedTxtError::InvalidPage
            } else if self.layout_spec() == PreparedCacheLayout::Legacy {
                r matches Ok(s) && s@ == self.page_file(page as int)
            } else {
                match page_local_name_spec('P', page as int, "VRN") {
                    Ok(name) => r matches Ok(s) && s@ == name,
                    Err(e) => r matches Err(x) && x == e,
                }
            },
    {
        if !self.active || page >= self.page_count {
            return Err(PreparedTxtError::InvalidPage);
        }
        match self.layout {
            PreparedCacheLayout::Legacy => if page < self.legacy_page_files.len() {
                Ok(self.legacy_page_files[page].clone())
            } else {
                Err(PreparedTxtError::InvalidPage)
            },
            PreparedCacheLayout::PageLocalBase36 => page_local_file_name('P', page, "VRN"),
        }
    }

    /// Takes a page's VRUN bytes: its glyph records are read into the glyph
    /// buffer and the fonts they need are returned. The current page stays
    /// as it was until `finish_page`.
    pub fn read_page_records(&mut self, page_data: &[u8]) -> (r: Result<(usize, RequiredFonts), PreparedTxtError>)
        requires
            old(self).wf(),
        ensures
            final(self).wf(),
            final(self).active_spec() == old(self).active_spec(),
            final(self).layout_spec() == old(self).layout_spec(),
            final(self).page_count_spec() == old(self).page_count_spec(),
            final(self).latin_spec() == old(self).latin_spec(),
            final(self).devanagari_spec() == old(self).devanagari_spec(),
            final(self).gujarati_spec() == old(self).gujarati_spec(),
            final(self).shown_count() == old(self).shown_count(),
            final(self).glyph_buffer().len() == old(self).glyph_buffer().len(),
            forall|i: int| 0 <= i < old(self).glyph_buffer().len() ==> #[trigger] final(self).glyph_buffer()[i] == match vrun_parse_spec(page_data@) {
                Ok(n) => if i < n { vrun_record_spec(page_data@, i) } else { old(self).glyph_buffer()[i] },
                Err(_) => old(self).glyph_buffer()[i],
            },
            match vrun_parse_spec(page_data@) {
                Err(e) => r matches Err(x) && x == e,
                Ok(n) => {
                    let gs = Seq::new(n as nat, |i: int| vrun_record_spec(page_data@, i));
                    match required_fonts_spec(gs) {
                        Err(e) => r matches Err(x) && x == e,
                        Ok(req) => r == Ok::<(usize, RequiredFonts), PreparedTxtError>((n as usize, req))
                            && final(self).pending_glyphs(n as usize) == gs,
                    }
                },
            },
    {
        let count = match parse_page_records(page_data, &mut self.glyphs) {
            Ok(c) => c,
            Err(e) => {
                return Err(e);
            },
        };
        let records = vstd::slice::slice_subrange(self.glyphs.as_slice(), 0, count);
        proof {
            let gs = Seq::new(count as nat, |i: int| vrun_record_spec(page_data@, i));
            assert(records@ =~= gs);
        }
        let required = required_fonts(records)?;
        Ok((count, required))
    }

    /// The first `n` records of the glyph buffer.
    /// The whole glyph record buffer, the shown page's records first.
    pub closed spec fn glyph_buffer(&self) -> Seq<PreparedGlyphRecord> {
        self.glyphs@
    }

    /// How many records of the buffer the shown page has.
    pub closed spec fn shown_count(&self) -> int {
        self.glyph_count as int
    }

    pub closed spec fn pending_glyphs(&self, n: usize) -> Seq<PreparedGlyphRecord> {
        self.glyphs@.take(n as int)
    }

    /// Installs one page-local font in the slot of `font_id`; the font must
    /// read as VFNT (else `InvalidFont`).
    pub fn install_page_font(&mut self, font_id: u32, data: Vec<u8>) -> (r: Result<(), PreparedTxtError>)
        requires
            old(self).wf(),
            known_font(font_id),
        ensures
            final(self).wf(),
            final(self).active_spec() == old(self).active_spec(),
            final(self).layout_spec() == old(self).layout_spec(),
            final(self).page_count_spec() == old(self).page_count_spec(),
            forall|n: usize| final(self).pending_glyphs(n) == old(self).pending_glyphs(n),
            font_id == FONT_LATIN ==> final(self).latin_spec() == data@ && final(self).devanagari_spec() == old(self).devanagari_spec() && final(self).gujarati_spec() == old(self).gujarati_spec(),
            font_id == FONT_DEVANAGARI ==> final(self).devanagari_spec() == data@ && final(self).latin_spec() == old(self).latin_spec() && final(self).gujarati_spec() == old(self).gujarati_spec(),
            font_id == FONT_GUJARATI ==> final(self).gujarati_spec() == data@ && final(self).latin_spec() == old(self).latin_spec() && final(self).devanagari_spec() == old(self).devanagari_spec(),
            r is Ok <==> vfnt_parse_spec(data@) is Ok,
            r is Err ==> r == Err::<(), PreparedTxtError>(PreparedTxtError::InvalidFont),
    {
        if font_id == FONT_LATIN {
            self.latin_font = data;
            validate_loaded_font(self.latin_font.as_slice())
        } else if font_id == FONT_DEVANAGARI {
            self.devanagari_font = data;
            validate_loaded_font(self.devanagari_font.as_slice())
        } else {
            self.gujarati_font = data;
            validate_loaded_font(self.gujarati_font.as_slice())
        }
    }

    /// Drops the loaded fonts, before a page-local page's fonts are loaded.
    pub fn unload_fonts(&mut self)
        requires
            old(self).wf(),
        ensures
            final(self).wf(),
            final(self).latin_spec().len() == 0,
            final(self).devanagari_spec().len() == 0,
            final(self).gujarati_spec().len() == 0,
            final(self).active_spec() == old(self).active_spec(),
            final(self).layout_spec() == old(self).layout_spec(),
            final(self).page_count_spec() == old(self).page_count_spec(),
            forall|n: usize| final(self).pending_glyphs(n) == old(self).pending_glyphs(n),
    {
        self.clear_fonts();
    }

    /// Makes the first `count` records of the glyph buffer the current page,
    /// once every one of them can be drawn from the loaded fonts.
    pub fn finish_page(&mut self, count: usize) -> (r: Result<(), PreparedTxtError>)
        requires
            old(self).wf(),
            count <= MAX_GLYPHS,
        ensures
            final(self).wf(),
            final(self).active_spec() == old(self).active_spec(),
            final(self).layout_spec() == old(self).layout_spec(),
            final(self).page_count_spec() == old(self).page_count_spec(),
            final(self).latin_spec() == old(self).latin_spec(),
            final(self).devanagari_spec() == old(self).devanagari_spec(),
            final(self).gujarati_spec() == old(self).gujarati_spec(),
            match first_ref_error(old(self).latin_spec(), old(self).devanagari_spec(), old(self).gujarati_spec(), old(self).pending_glyphs(count)) {
                Some(e) => r == Err::<(), PreparedTxtError>(e) && final(self).page_glyphs() == old(self).page_glyphs(),
                None => r is Ok && final(self).page_glyphs() == old(self).pending_glyphs(count),
            },
    {
        let records = vstd::slice::slice_subrange(self.glyphs.as_slice(), 0, count);
        assert(records@ =~= self.glyphs@.take(count as int));
        validate_glyph_references(
            self.latin_font.as_slice(),
            self.devanagari_font.as_slice(),
            self.gujarati_font.as_slice(),
            records,
        )?;
        self.glyph_count = count;
        Ok(())
    }

    /// The current page's glyphs as blits at the origin `(x, y)`, skipping
    /// any glyph whose font or bitmap is not there; nothing while no cache
    /// is active.
    pub fn draw(&self, x: i32, y: i32) -> (r: Vec<PreparedGlyphBlit<'_>>)
        requires
            self.wf(),
            -2147483648 + 32768 <= x <= 2147483647 - 32767,
            -2147483648 + 32768 <= y <= 2147483647 - 32767,
        ensures
            !self.active_spec() ==> r@.len() == 0,
            self.active_spec() ==> ({
                let d = draw_spec(self.latin_spec(), self.devanagari_spec(), self.gujarati_spec(), self.page_glyphs(), x as int, y as int);
                &&& r@.len() == d.len()
                &&& forall|i: int| 0 <= i < d.len() ==> (#[trigger] r@[i]).data@ == d[i].0 && r@[i].width == d[i].1
                    && r@[i].height == d[i].2 && r@[i].row_stride == d[i].3 && r@[i].x == d[i].4 && r@[i].y == d[i].5
            }),
            self.active_spec() ==> forall|i: int| 0 <= i < r@.len() ==> exists|k: int| {
                &&& 0 <= k < self.page_glyphs().len()
                &&& (#[trigger] r@[i]).x == x + self.page_glyphs()[k].x
                &&& r@[i].y == y + self.page_glyphs()[k].y
            },
    {
        let mut out: Vec<PreparedGlyphBlit<'_>> = Vec::new();
        if !self.active {
            return out;
        }
        let ghost lat = self.latin_font@;
        let ghost dev = self.devanagari_font@;
        let ghost guj = self.gujarati_font@;
        let latin = parsed_font(self.latin_font.as_slice());
        let devanagari = parsed_font(self.devanagari_font.as_slice());
        let gujarati = parsed_font(self.gujarati_font.as_slice());
        let ghost gs = self.page_glyphs();
        let mut i: usize = 0;
        while i < self.glyph_count
            invariant
                self.wf(),
                gs == self.page_glyphs(),
                lat == self.latin_font@,
                dev == self.devanagari_font@,
                guj == self.gujarati_font@,
                i <= self.glyph_count,
                match vfnt_parse_spec(lat) {
                    Ok(layout) => latin matches Some(v) && v.wf() && v.bytes() == lat && v.layout() == layout,
                    Err(_) => latin is None,
                },
                match vfnt_parse_spec(dev) {
                    Ok(layout) => devanagari matches Some(v) && v.wf() && v.bytes() == dev && v.layout() == layout,
                    Err(_) => devanagari is None,
                },
                match vfnt_parse_spec(guj) {
                    Ok(layout) => gujarati matches Some(v) && v.wf() && v.bytes() == guj && v.layout() == layout,
                    Err(_) => gujarati is None,
                },
                -2147483648 + 32768 <= x <= 2147483647 - 32767,
                -2147483648 + 32768 <= y <= 2147483647 - 32767,
                ({
                    let d = draw_spec(lat, dev, guj, gs.take(i as int), x as int, y as int);
                    &&& out@.len() == d.len()
                    &&& forall|k: int| 0 <= k < d.len() ==> (#[trigger] out@[k]).data@ == d[k].0 && out@[k].width == d[k].1
                        && out@[k].height == d[k].2 && out@[k].row_stride == d[k].3 && out@[k].x == d[k].4 && out@[k].y == d[k].5
                }),
            decreases self.glyph_count - i,
        {
            let glyph = self.glyphs[i];
            proof {
                assert(gs.take(i + 1).drop_last() =~= gs.take(i as int));
                assert(gs.take(i + 1).last() == glyph);
            }
            let font = if glyph.font_id == FONT_LATIN {
                latin
            } else if glyph.font_id == FONT_DEVANAGARI {
                devanagari
            } else if glyph.font_id == FONT_GUJARATI {
                gujarati
            } else {
                None
            };
            if let Some(view) = font {
                if let Ok(bitmap) = view.glyph(glyph.glyph_id) {
                    out.push(PreparedGlyphBlit {
                        data: bitmap.data,
                        width: bitmap.width,
                        height: bitmap.height,
                        row_stride: bitmap.row_stride,
                        x: x + glyph.x as i32,
                        y: y + glyph.y as i32,
                    });
                }
            }
            i = i + 1;
        }
        assert(gs.take(i as int) =~= gs);
        proof {
            lemma_draw_from_records(lat, dev, guj, gs, x as int, y as int);
            let d = draw_spec(lat, dev, guj, gs, x as int, y as int);
            assert forall|j: int| #![trigger out@[j]] 0 <= j < out@.len() implies exists|k: int| {
                &&& 0 <= k < gs.len()
                &&& (#[trigger] out@[j]).x == x + gs[k].x
                &&& out@[j].y == y + gs[k].y
            } by {
                let k = choose|k: int| {
                    &&& 0 <= k < gs.len()
                    &&& glyph_blit_spec(lat, dev, guj, #[trigger] gs[k], x as int, y as int) == Some(d[j])
                    &&& d[j].4 == x + gs[k].x
                    &&& d[j].5 == y + gs[k].y
                };
                assert(out@[j].x == d[j].4);
            }
        }
        out
    }
}

} // verus!
