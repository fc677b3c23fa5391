//! The fonts the builder writes are the fonts the reader reads: a VFNT font
//! built from rasterized glyphs passes the reader's checks, and looking a
//! glyph up in it gives back that glyph's bitmap and size.
use vstd::prelude::*;
use crate::le_bytes::{i16_bytes, le_u16, le_u32, lemma_le_roundtrip, u16_bytes, u32_bytes};
use crate::prepared_cache::{vfnt_find_glyph, vfnt_glyph_spec, vfnt_parse_spec, PreparedTxtError};
use crate::prepared_gen::{
    bitmap_record_bytes, metrics_record_bytes, vfnt_bytes, vfnt_descent, vfnt_header, vfnt_line_height,
    vfnt_tables, GlyphAsset,
};

verus! {

/// Where the `k`-th glyph's bitmap starts in the bitmap data: after the
/// bitmaps of the glyphs before it.
pub open spec fn bitmap_offset(q: Seq<GlyphAsset>, k: int) -> int {
    vfnt_tables(q.take(k)).2.len() as int
}

/// The bitmap data of a font built from `q`: all the bitmaps, in order.
pub open spec fn bitmap_data_len(q: Seq<GlyphAsset>) -> int {
    vfnt_tables(q).2.len() as int
}

/// A glyph's bitmap is as the reader wants it: each row holds the width's
/// bits, and the rows fit in the bitmap.
pub open spec fn asset_rows_fit(g: GlyphAsset) -> bool {
    &&& g.row_stride >= (g.width + 7) / 8
    &&& g.row_stride * g.height <= g.bitmap@.len()
}

/// The `k`-th glyph is the first with its id.
pub open spec fn first_with_id(q: Seq<GlyphAsset>, k: int) -> bool {
    forall|j: int| 0 <= j < k ==> (#[trigger] q[j]).glyph_id != q[k].glyph_id
}

/// The tables of glyphs written in order: 16-byte metrics and index
/// records, the `k`-th of each at `16 * k`, and each bitmap at its offset.
pub(crate) proof fn lemma_vfnt_tables(q: Seq<GlyphAsset>)
    ensures
        vfnt_tables(q).0.len() == 16 * q.len(),
        vfnt_tables(q).1.len() == 16 * q.len(),
        forall|k: int| 0 <= k < q.len() ==> vfnt_tables(q).0.subrange(16 * k, 16 * k + 16) == metrics_record_bytes(#[trigger] q[k]),
        forall|k: int| 0 <= k < q.len() ==> vfnt_tables(q).1.subrange(16 * k, 16 * k + 16) == bitmap_record_bytes(
            #[trigger] q[k],
            bitmap_offset(q, k),
        ),
        forall|k: int| 0 <= k < q.len() ==> bitmap_offset(q, k) + (#[trigger] q[k]).bitmap@.len() <= vfnt_tables(q).2.len(),
        forall|k: int| 0 <= k < q.len() ==> vfnt_tables(q).2.subrange(
            bitmap_offset(q, k),
            bitmap_offset(q, k) + (#[trigger] q[k]).bitmap@.len(),
        ) == q[k].bitmap@,
    decreases q.len(),
{
    if q.len() > 0 {
        let init = q.drop_last();
        lemma_vfnt_tables(init);
        let (m0, ix0, d0) = vfnt_tables(init);
        let (m, ix, d) = vfnt_tables(q);
        let g = q.last();
        let n = q.len() - 1;
        assert(q.take(n) =~= init);
        assert forall|k: int| 0 <= k < q.len() implies m.subrange(16 * k, 16 * k + 16) == metrics_record_bytes(#[trigger] q[k])
            && ix.subrange(16 * k, 16 * k + 16) == bitmap_record_bytes(q[k], bitmap_offset(q, k))
            && bitmap_offset(q, k) + q[k].bitmap@.len() <= d.len()
            && d.subrange(bitmap_offset(q, k), bitmap_offset(q, k) + q[k].bitmap@.len()) == q[k].bitmap@ by {
            if k < n {
                assert(init[k] == q[k]);
                assert(q.take(k) =~= init.take(k));
                assert(m.subrange(16 * k, 16 * k + 16) =~= m0.subrange(16 * k, 16 * k + 16));
                assert(ix.subrange(16 * k, 16 * k + 16) =~= ix0.subrange(16 * k, 16 * k + 16));
                assert(d.subrange(bitmap_offset(q, k), bitmap_offset(q, k) + q[k].bitmap@.len()) =~= d0.subrange(
                    bitmap_offset(q, k),
                    bitmap_offset(q, k) + q[k].bitmap@.len(),
                ));
            } else {
                assert(m.subrange(16 * k, 16 * k + 16) =~= metrics_record_bytes(g));
                assert(ix.subrange(16 * k, 16 * k + 16) =~= bitmap_record_bytes(g, d0.len() as int));
                assert(d.subrange(bitmap_offset(q, k), bitmap_offset(q, k) + q[k].bitmap@.len()) =~= g.bitmap@);
            }
        }
    }
}

/// The header of a built font reads back as written.
#[verifier::rlimit(40)]
pub(crate) proof fn lemma_vfnt_header_fields(script: u16, pixel_size: u16, ceil_u16: u16, ascent: i16, q: Seq<GlyphAsset>)
    requires
        q.len() >= 1,
        44 + 32 * q.len() + bitmap_data_len(q) <= u32::MAX,
    ensures
        ({
            let b = vfnt_bytes(script, pixel_size, ceil_u16, ascent, q);
            let n = q.len() as int;
            &&& b.len() == 44 + 32 * n + bitmap_data_len(q)
            &&& b[0] == 0x56 && b[1] == 0x46 && b[2] == 0x4e && b[3] == 0x54
            &&& le_u16(b, 4) == 1
            &&& le_u16(b, 6) == 44
            &&& le_u32(b, 20) == n
            &&& le_u32(b, 24) == 44
            &&& le_u32(b, 28) == 44 + 16 * n
            &&& le_u32(b, 32) == 44 + 32 * n
            &&& le_u32(b, 36) == bitmap_data_len(q)
            &&& le_u16(b, 42) == 1
        }),
{
    lemma_vfnt_tables(q);
    let b = vfnt_bytes(script, pixel_size, ceil_u16, ascent, q);
    let n = q.len() as int;
    let dl = bitmap_data_len(q);
    let h = vfnt_header(script, pixel_size, ceil_u16, ascent, n, dl);
    assert(h.len() == 44);
    assert(b.subrange(0, 44) =~= h);
    assert(b.subrange(4, 6) =~= u16_bytes(1));
    assert(b.subrange(6, 8) =~= u16_bytes(44));
    assert(b.subrange(20, 24) =~= u32_bytes((n as u32) as int));
    assert(b.subrange(24, 28) =~= u32_bytes(44));
    assert(b.subrange(28, 32) =~= u32_bytes(((44 + 16 * n) as u32) as int));
    assert(b.subrange(32, 36) =~= u32_bytes(((44 + 32 * n) as u32) as int));
    assert(b.subrange(36, 40) =~= u32_bytes((dl as u32) as int));
    assert(b.subrange(42, 44) =~= u16_bytes(1));
    lemma_le_roundtrip(b, 4, 1, 16);
    lemma_le_roundtrip(b, 6, 44, 16);
    lemma_le_roundtrip(b, 20, n, 32);
    lemma_le_roundtrip(b, 24, 44, 32);
    lemma_le_roundtrip(b, 28, 44 + 16 * n, 32);
    lemma_le_roundtrip(b, 32, 44 + 32 * n, 32);
    lemma_le_roundtrip(b, 36, dl, 32);
    lemma_le_roundtrip(b, 42, 1, 16);
}

/// The fields of a glyph's metrics record, read where it was written.
proof fn lemma_metrics_fields(b: Seq<u8>, mo: int, g: GlyphAsset)
    requires
        0 <= mo,
        mo + 16 <= b.len(),
        b.subrange(mo, mo + 16) == metrics_record_bytes(g),
    ensures
        le_u32(b, mo) == g.glyph_id,
        le_u16(b, mo + 12) == g.width,
        le_u16(b, mo + 14) == g.height,
{
    let r = metrics_record_bytes(g);
    assert(b.subrange(mo, mo + 4) =~= u32_bytes(g.glyph_id as int)) by {
        assert forall|i: int| 0 <= i < 4 implies #[trigger] b.subrange(mo, mo + 4)[i] == r[i] by {
            assert(b.subrange(mo, mo + 16)[i] == b[mo + i]);
        }
    }
    assert(b.subrange(mo + 12, mo + 14) =~= u16_bytes(g.width as int)) by {
        assert forall|i: int| 0 <= i < 2 implies #[trigger] b.subrange(mo + 12, mo + 14)[i] == r[12 + i] by {
            assert(b.subrange(mo, mo + 16)[12 + i] == b[mo + 12 + i]);
        }
    }
    assert(b.subrange(mo + 14, mo + 16) =~= u16_bytes(g.height as int)) by {
        assert forall|i: int| 0 <= i < 2 implies #[trigger] b.subrange(mo + 14, mo + 16)[i] == r[14 + i] by {
            assert(b.subrange(mo, mo + 16)[14 + i] == b[mo + 14 + i]);
        }
    }
    lemma_le_roundtrip(b, mo, g.glyph_id as int, 32);
    lemma_le_roundtrip(b, mo + 12, g.width as int, 16);
    lemma_le_roundtrip(b, mo + 14, g.height as int, 16);
}

/// The fields of a glyph's bitmap index record, read where it was written.
proof fn lemma_bitmap_fields(b: Seq<u8>, bo: int, g: GlyphAsset, off: int)
    requires
        0 <= bo,
        bo + 16 <= b.len(),
        0 <= off < 4294967296,
        g.bitmap@.len() < 4294967296,
        b.subrange(bo, bo + 16) == bitmap_record_bytes(g, off),
    ensures
        le_u32(b, bo) == g.glyph_id,
        le_u32(b, bo + 4) == off,
        le_u32(b, bo + 8) == g.bitmap@.len(),
        le_u16(b, bo + 12) == g.row_stride,
{
    let r = bitmap_record_bytes(g, off);
    let len = g.bitmap@.len() as int;
    assert(b.subrange(bo, bo + 4) =~= u32_bytes(g.glyph_id as int)) by {
        assert forall|i: int| 0 <= i < 4 implies #[trigger] b.subrange(bo, bo + 4)[i] == r[i] by {
            assert(b.subrange(bo, bo + 16)[i] == b[bo + i]);
        }
    }
    assert(b.subrange(bo + 4, bo + 8) =~= u32_bytes(off)) by {
        assert forall|i: int| 0 <= i < 4 implies #[trigger] b.subrange(bo + 4, bo + 8)[i] == r[4 + i] by {
            assert(b.subrange(bo, bo + 16)[4 + i] == b[bo + 4 + i]);
        }
    }
    assert(b.subrange(bo + 8, bo + 12) =~= u32_bytes(len)) by {
        assert forall|i: int| 0 <= i < 4 implies #[trigger] b.subrange(bo + 8, bo + 12)[i] == r[8 + i] by {
            assert(b.subrange(bo, bo + 16)[8 + i] == b[bo + 8 + i]);
        }
    }
    assert(b.subrange(bo + 12, bo + 14) =~= u16_bytes(g.row_stride as int)) by {
        assert forall|i: int| 0 <= i < 2 implies #[trigger] b.subrange(bo + 12, bo + 14)[i] == r[12 + i] by {
            assert(b.subrange(bo, bo + 16)[12 + i] == b[bo + 12 + i]);
        }
    }
    lemma_le_roundtrip(b, bo, g.glyph_id as int, 32);
    lemma_le_roundtrip(b, bo + 4, off, 32);
    lemma_le_roundtrip(b, bo + 8, len, 32);
    lemma_le_roundtrip(b, bo + 12, g.row_stride as int, 16);
}

/// The `k`-th metrics and index records of a built font read back as
/// written, and its bitmap lies where the index says.
pub(crate) proof fn lemma_vfnt_records(script: u16, pixel_size: u16, ceil_u16: u16, ascent: i16, q: Seq<GlyphAsset>, k: int)
    requires
        0 <= k < q.len(),
        44 + 32 * q.len() + bitmap_data_len(q) <= u32::MAX,
    ensures
        ({
            let b = vfnt_bytes(script, pixel_size, ceil_u16, ascent, q);
            let n = q.len() as int;
            let mo = 44 + 16 * k;
            let bo = 44 + 16 * n + 16 * k;
            let bd = 44 + 32 * n;
            &&& le_u32(b, mo) == q[k].glyph_id
            &&& le_u16(b, mo + 12) == q[k].width
            &&& le_u16(b, mo + 14) == q[k].height
            &&& le_u32(b, bo) == q[k].glyph_id
            &&& le_u32(b, bo + 4) == bitmap_offset(q, k)
            &&& le_u32(b, bo + 8) == q[k].bitmap@.len()
            &&& le_u16(b, bo + 12) == q[k].row_stride
            &&& bitmap_offset(q, k) + q[k].bitmap@.len() <= bitmap_data_len(q)
            &&& b.subrange(bd + bitmap_offset(q, k), bd + bitmap_offset(q, k) + q[k].bitmap@.len()) == q[k].bitmap@
        }),
{
    let b = vfnt_bytes(script, pixel_size, ceil_u16, ascent, q);
    let n = q.len() as int;
    let (m, ix, d) = vfnt_tables(q);
    let g = q[k];
    let off = bitmap_offset(q, k);
    let len = g.bitmap@.len() as int;
    let h = vfnt_header(script, pixel_size, ceil_u16, ascent, n, d.len() as int);
    let mo = 44 + 16 * k;
    let bo = 44 + 16 * n + 16 * k;
    let bd = 44 + 32 * n;
    assert(m.len() == 16 * n && ix.len() == 16 * n && m.subrange(16 * k, 16 * k + 16) == metrics_record_bytes(g)
        && ix.subrange(16 * k, 16 * k + 16) == bitmap_record_bytes(g, off) && off + len <= d.len()
        && d.subrange(off, off + len) == g.bitmap@) by {
        lemma_vfnt_tables(q);
    }
    assert(b =~= h + m + ix + d);
    assert(b.subrange(mo, mo + 16) =~= m.subrange(16 * k, 16 * k + 16));
    assert(b.subrange(bo, bo + 16) =~= ix.subrange(16 * k, 16 * k + 16));
    assert(b.subrange(bd + off, bd + off + len) =~= d.subrange(off, off + len));
    lemma_metrics_fields(b, mo, g);
    lemma_bitmap_fields(b, bo, g, off);
}

/// The reader's search for a glyph id stops at the first glyph with it.
proof fn lemma_find_first(b: Seq<u8>, q: Seq<GlyphAsset>, id: int, i: int, k: int)
    requires
        0 <= i <= k < q.len(),
        q[k].glyph_id == id,
        first_with_id(q, k),
        forall|j: int| 0 <= j < q.len() ==> le_u32(b, 44 + 16 * j) == (#[trigger] q[j]).glyph_id,
    ensures
        vfnt_find_glyph(b, 44, q.len() as int, id, i) == k,
    decreases k - i,
{
    if i < k {
        assert(q[i].glyph_id != id);
        assert(le_u32(b, 44 + 16 * i) == q[i].glyph_id);
        lemma_find_first(b, q, id, i + 1, k);
    } else {
        assert(le_u32(b, 44 + 16 * k) == q[k].glyph_id);
    }
}

/// A built font passes the reader's checks, with its tables where they
/// were written.
proof fn lemma_vfnt_parses(script: u16, pixel_size: u16, ceil_u16: u16, ascent: i16, q: Seq<GlyphAsset>)
    requires
        q.len() >= 1,
        44 + 32 * q.len() + bitmap_data_len(q) <= u32::MAX,
    ensures
        ({
            let n = q.len() as int;
            vfnt_parse_spec(vfnt_bytes(script, pixel_size, ceil_u16, ascent, q)) == Ok::<(int, int, int, int, int), PreparedTxtError>(
                (n, 44int, 44 + 16 * n, 44 + 32 * n, bitmap_data_len(q)),
            )
        }),
{
    let b = vfnt_bytes(script, pixel_size, ceil_u16, ascent, q);
    let n = q.len() as int;
    let dl = bitmap_data_len(q);
    lemma_vfnt_header_fields(script, pixel_size, ceil_u16, ascent, q);
    assert forall|j: int| 0 <= j < n implies #[trigger] crate::prepared_cache::vfnt_bitmap_fits(b, 44 + 16 * n, dl, j) by {
        lemma_vfnt_records(script, pixel_size, ceil_u16, ascent, q, j);
    }
}

/// Looking up the id of the first glyph with it finds that glyph.
proof fn lemma_vfnt_glyph(script: u16, pixel_size: u16, ceil_u16: u16, ascent: i16, q: Seq<GlyphAsset>, k: int)
    requires
        0 <= k < q.len(),
        44 + 32 * q.len() + bitmap_data_len(q) <= u32::MAX,
        first_with_id(q, k),
        asset_rows_fit(q[k]),
    ensures
        ({
            let b = vfnt_bytes(script, pixel_size, ceil_u16, ascent, q);
            let n = q.len() as int;
            let layout = (n, 44int, 44 + 16 * n, 44 + 32 * n, bitmap_data_len(q));
            let start = 44 + 32 * n + bitmap_offset(q, k);
            let end = start + q[k].bitmap@.len();
            &&& vfnt_glyph_spec(b, layout, q[k].glyph_id as int) == Ok::<(int, int, int, int, int), PreparedTxtError>(
                (start, end, q[k].width as int, q[k].height as int, q[k].row_stride as int),
            )
            &&& b.subrange(start, end) == q[k].bitmap@
        }),
{
    let b = vfnt_bytes(script, pixel_size, ceil_u16, ascent, q);
    assert forall|j: int| 0 <= j < q.len() implies le_u32(b, 44 + 16 * j) == (#[trigger] q[j]).glyph_id by {
        lemma_vfnt_records(script, pixel_size, ceil_u16, ascent, q, j);
    }
    lemma_find_first(b, q, q[k].glyph_id as int, 0, k);
    lemma_vfnt_records(script, pixel_size, ceil_u16, ascent, q, k);
}

/// A font the builder writes reads back in the reader: for glyphs in the
/// order written, at least one of them, and a font small enough for the
/// header's 32-bit offsets, the reader accepts the font with that many
/// glyphs and its tables where they were written; and looking up the id of
/// a glyph (the first with that id) whose rows fit its bitmap finds that
/// glyph's bitmap bytes, width, height and row stride.
pub proof fn lemma_vfnt_roundtrip(script: u16, pixel_size: u16, ceil_u16: u16, ascent: i16, q: Seq<GlyphAsset>)
    requires
        q.len() >= 1,
        44 + 32 * q.len() + bitmap_data_len(q) <= u32::MAX,
    ensures
        ({
            let b = vfnt_bytes(script, pixel_size, ceil_u16, ascent, q);
            let n = q.len() as int;
            let layout = (n, 44int, 44 + 16 * n, 44 + 32 * n, bitmap_data_len(q));
            &&& vfnt_parse_spec(b) == Ok::<(int, int, int, int, int), PreparedTxtError>(layout)
            &&& forall|k: int|
                0 <= k < n && first_with_id(q, k) && asset_rows_fit(#[trigger] q[k]) ==> {
                    let start = 44 + 32 * n + bitmap_offset(q, k);
                    let end = start + q[k].bitmap@.len();
                    &&& vfnt_glyph_spec(b, layout, q[k].glyph_id as int) == Ok::<(int, int, int, int, int), PreparedTxtError>(
                        (start, end, q[k].width as int, q[k].height as int, q[k].row_stride as int),
                    )
                    &&& b.subrange(start, end) == q[k].bitmap@
                }
        }),
{
    lemma_vfnt_parses(script, pixel_size, ceil_u16, ascent, q);
    assert forall|k: int| 0 <= k < q.len() && first_with_id(q, k) && asset_rows_fit(#[trigger] q[k]) implies {
        let b = vfnt_bytes(script, pixel_size, ceil_u16, ascent, q);
        let n = q.len() as int;
        let layout = (n, 44int, 44 + 16 * n, 44 + 32 * n, bitmap_data_len(q));
        let start = 44 + 32 * n + bitmap_offset(q, k);
        let end = start + q[k].bitmap@.len();
        &&& vfnt_glyph_spec(b, layout, q[k].glyph_id as int) == Ok::<(int, int, int, int, int), PreparedTxtError>(
            (start, end, q[k].width as int, q[k].height as int, q[k].row_stride as int),
        )
        &&& b.subrange(start, end) == q[k].bitmap@
    } by {
        lemma_vfnt_glyph(script, pixel_size, ceil_u16, ascent, q, k);
    }
}

} // verus!
