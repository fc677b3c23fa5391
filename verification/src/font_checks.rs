//! The builder's own checks accept the fonts it writes: a VFNT font built
//! from rasterized glyphs passes `validate_vfnt`, lists exactly the glyphs'
//! ids, and ends with their bitmaps in the order written.
use vstd::prelude::*;
use vstd::set_lib::{lemma_int_range, lemma_subset_equality, set_int_range};
use crate::le_bytes::le_u32;
use crate::font_roundtrip::{bitmap_data_len, lemma_vfnt_header_fields, lemma_vfnt_records, lemma_vfnt_tables};
use crate::prepared_gen::{
    asset_before, asset_ids, is_stable_order, metric_id_at, ordered_assets, validate_vfnt_spec,
    vfnt_bitmaps_check, vfnt_bytes, vfnt_header, vfnt_listed_ids, vfnt_tables, GlyphAsset, PreparedGenError,
};

verus! {

/// The glyph ids of `q`.
pub open spec fn asset_id_set(q: Seq<GlyphAsset>) -> Set<u32> {
    Set::new(|x: u32| exists|k: int| 0 <= k < q.len() && (#[trigger] q[k]).glyph_id == x)
}

/// The bitmaps of `q`, one after another, in order.
pub open spec fn bitmaps_joined(q: Seq<GlyphAsset>) -> Seq<u8>
    decreases q.len(),
{
    if q.len() == 0 {
        Seq::empty()
    } else {
        bitmaps_joined(q.drop_last()) + q.last().bitmap@
    }
}

proof fn lemma_bitmaps_joined(q: Seq<GlyphAsset>)
    ensures
        vfnt_tables(q).2 == bitmaps_joined(q),
    decreases q.len(),
{
    if q.len() > 0 {
        lemma_bitmaps_joined(q.drop_last());
    }
}

proof fn lemma_bitmaps_in_range(script: u16, pixel_size: u16, ceil_u16: u16, ascent: i16, q: Seq<GlyphAsset>, i: int)
    requires
        0 <= i <= q.len(),
        44 + 32 * q.len() + bitmap_data_len(q) <= u32::MAX,
    ensures
        vfnt_bitmaps_check(
            vfnt_bytes(script, pixel_size, ceil_u16, ascent, q),
            44 + 16 * (q.len() as int),
            bitmap_data_len(q),
            i,
            q.len() as int,
        ) == Ok::<(), PreparedGenError>(()),
    decreases q.len() - i,
{
    if i < q.len() {
        lemma_vfnt_records(script, pixel_size, ceil_u16, ascent, q, i);
        lemma_bitmaps_in_range(script, pixel_size, ceil_u16, ascent, q, i + 1);
    }
}

/// The builder's own checks accept the fonts it writes: for glyphs in the
/// order written, at least one of them, and a font small enough for the
/// header's 32-bit offsets, the font passes `validate_vfnt`, its metrics
/// table lists exactly the glyphs' ids, and it is the 44-byte header and
/// two 16-byte records per glyph followed by the bitmaps in order.
pub proof fn lemma_vfnt_passes_builder_checks(script: u16, pixel_size: u16, ceil_u16: u16, ascent: i16, q: Seq<GlyphAsset>)
    requires
        q.len() >= 1,
        44 + 32 * q.len() + bitmaps_joined(q).len() <= u32::MAX,
    ensures
        ({
            let b = vfnt_bytes(script, pixel_size, ceil_u16, ascent, q);
            let n = q.len() as int;
            &&& validate_vfnt_spec(b) == Ok::<(), PreparedGenError>(())
            &&& vfnt_listed_ids(b) == asset_id_set(q)
            &&& b.len() == 44 + 32 * n + bitmaps_joined(q).len()
            &&& b.subrange(44 + 32 * n, b.len() as int) == bitmaps_joined(q)
        }),
{
    let b = vfnt_bytes(script, pixel_size, ceil_u16, ascent, q);
    let n = q.len() as int;
    lemma_bitmaps_joined(q);
    lemma_vfnt_header_fields(script, pixel_size, ceil_u16, ascent, q);
    lemma_bitmaps_in_range(script, pixel_size, ceil_u16, ascent, q, 0);
    assert(crate::prepared_cache::vfnt_magic_ok(b));
    let (m, ix, d) = vfnt_tables(q);
    lemma_vfnt_tables(q);
    assert(b =~= vfnt_header(script, pixel_size, ceil_u16, ascent, n, d.len() as int) + m + ix + d);
    assert(b.subrange(44 + 32 * n, b.len() as int) =~= d);
    assert forall|x: u32| vfnt_listed_ids(b).contains(x) implies asset_id_set(q).contains(x) by {
        let i = choose|i: int| 0 <= i < le_u32(b, 20) && #[trigger] metric_id_at(b, le_u32(b, 24), i) == x;
        lemma_vfnt_records(script, pixel_size, ceil_u16, ascent, q, i);
        assert(q[i].glyph_id == x);
    }
    assert forall|x: u32| asset_id_set(q).contains(x) implies vfnt_listed_ids(b).contains(x) by {
        let k = choose|k: int| 0 <= k < q.len() && (#[trigger] q[k]).glyph_id == x;
        lemma_vfnt_records(script, pixel_size, ceil_u16, ascent, q, k);
        assert(metric_id_at(b, le_u32(b, 24), k) == x);
    }
    assert(vfnt_listed_ids(b) =~= asset_id_set(q));
}

/// The order the builder writes glyphs in keeps exactly their ids, in
/// ascending order.
pub proof fn lemma_stable_order_keeps_ids(gs: Seq<GlyphAsset>, p: Seq<usize>)
    requires
        is_stable_order(asset_ids(gs), p),
    ensures
        asset_id_set(ordered_assets(gs, p)) == asset_id_set(gs),
        forall|a: int, b: int| 0 <= a < b < p.len() ==> (#[trigger] ordered_assets(gs, p)[a]).glyph_id
            <= (#[trigger] ordered_assets(gs, p)[b]).glyph_id,
{
    let q = ordered_assets(gs, p);
    let ids = asset_ids(gs);
    let n = gs.len() as int;
    let pi = p.map_values(|k: usize| k as int);
    assert forall|a: int, b: int| 0 <= a < b < p.len() implies (#[trigger] q[a]).glyph_id <= (#[trigger] q[b]).glyph_id by {
        assert(asset_before(ids, p[a] as int, p[b] as int));
    }
    assert(pi.no_duplicates()) by {
        assert forall|a: int, b: int| 0 <= a < pi.len() && 0 <= b < pi.len() && a != b implies pi[a] != pi[b] by {
            if a < b {
                assert(asset_before(ids, p[a] as int, p[b] as int));
            } else {
                assert(asset_before(ids, p[b] as int, p[a] as int));
            }
        }
    }
    pi.unique_seq_to_set();
    lemma_int_range(0, n);
    assert(pi.to_set().subset_of(set_int_range(0, n))) by {
        assert forall|j: int| pi.to_set().contains(j) implies set_int_range(0, n).contains(j) by {
            let k = choose|k: int| 0 <= k < pi.len() && pi[k] == j;
            assert(p[k] < ids.len());
        }
    }
    vstd::seq_lib::seq_to_set_is_finite(pi);
    lemma_subset_equality(pi.to_set(), set_int_range(0, n));
    assert forall|x: u32| asset_id_set(gs).contains(x) implies asset_id_set(q).contains(x) by {
        let j = choose|j: int| 0 <= j < gs.len() && (#[trigger] gs[j]).glyph_id == x;
        assert(set_int_range(0, n).contains(j));
        assert(pi.to_set().contains(j));
        let k = choose|k: int| 0 <= k < pi.len() && pi[k] == j;
        assert(q[k] == gs[j]);
    }
    assert forall|x: u32| asset_id_set(q).contains(x) implies asset_id_set(gs).contains(x) by {
        let k = choose|k: int| 0 <= k < q.len() && (#[trigger] q[k]).glyph_id == x;
        assert(p[k] < ids.len());
        assert(gs[p[k] as int].glyph_id == x);
    }
    assert(asset_id_set(ordered_assets(gs, p)) =~= asset_id_set(gs));
}

} // verus!
