use rustmix_x4::prepared_cache::{
    parse_page_records, PreparedGlyphRecord, VfntView, FONT_DEVANAGARI, FONT_GUJARATI,
    FONT_LATIN, MAX_FONT_BYTES, VRUN_HEADER_LEN, VRUN_MAGIC,
};
use rustmix_x4::prepared_gen::{
    book_folder_for_key, book_folder_for_path, build_vfnt, build_vrun, page_local_file_name, read_u32,
    script_for_char, split_script_runs, validate_vfnt, vfnt_glyph_ids, GlyphAsset,
    GlyphResource, PageBudget, PositionedGlyph, PreparedPage, ScriptKind, MAX_PAGE_GLYPHS,
    SCRIPT_LATIN, VRUN_RECORD_LEN,
};

#[test]
fn computes_existing_reader_book_id_policy() {
    assert_eq!(book_folder_for_path("MIXED.TXT"), "5E3BBD2E");
    assert_eq!(
        book_folder_for_path("Books\\MIXED.TXT"),
        book_folder_for_path("books/mixed.txt")
    );
}

#[test]
fn splits_latin_and_devanagari_runs() {
    let runs = split_script_runs("Om ॐ नमः");
    assert_eq!(runs[0].script, ScriptKind::Latin);
    assert_eq!(runs[1].script, ScriptKind::Devanagari);
}

#[test]
fn splits_devanagari_and_gujarati_runs() {
    let runs = split_script_runs("नमः ગુજરાતી");
    assert!(runs.iter().any(|run| run.script == ScriptKind::Devanagari));
    assert!(runs.iter().any(|run| run.script == ScriptKind::Gujarati));
}

#[test]
fn classifies_vedic_marks_as_devanagari() {
    assert_eq!(script_for_char('\u{1CD0}'), ScriptKind::Devanagari);
    assert_eq!(script_for_char('\u{A8E0}'), ScriptKind::Devanagari);
}

#[test]
fn main_generates_page_local_fat_83_names() {
    assert_eq!(page_local_file_name('P', 0, "VRN").unwrap(), "P00000.VRN");
    assert_eq!(page_local_file_name('D', 35, "VFN").unwrap(), "D0000Z.VFN");
    assert_eq!(page_local_file_name('G', 36, "VFN").unwrap(), "G00010.VFN");
}

#[test]
fn generated_vfnt_contains_non_empty_bitmap() {
    let glyph = GlyphAsset {
        glyph_id: 42,
        advance_x: 5,
        bearing_x: 0,
        bearing_y: 0,
        width: 3,
        height: 2,
        row_stride: 1,
        bitmap: vec![0b1110_0000, 0b1010_0000],
    };
    // An 18 px font: size 18, rounded up 18, ascent 18.
    let data = build_vfnt(SCRIPT_LATIN, 18, 18, 18, &[glyph]).unwrap();
    validate_vfnt(&data).unwrap();
    assert!(vfnt_glyph_ids(&data).unwrap().contains(&42));
    assert!(data.ends_with(&[0b1110_0000, 0b1010_0000]));
}

#[test]
fn page_budget_splits_before_firmware_glyph_limit() {
    let resource = GlyphResource {
        font_id: FONT_LATIN,
        glyph_id: 1,
        bitmap_bytes: 1,
    };
    let mut budget = PageBudget::default();
    for _ in 0..MAX_PAGE_GLYPHS {
        assert!(budget.add(&[resource]).unwrap());
    }
    assert!(!budget.add(&[resource]).unwrap());
    assert_eq!(budget.glyph_count, MAX_PAGE_GLYPHS);
}

#[test]
fn page_budget_counts_repeated_bitmap_once() {
    let resource = GlyphResource {
        font_id: FONT_DEVANAGARI,
        glyph_id: 42,
        bitmap_bytes: 9,
    };
    let mut budget = PageBudget::default();
    assert!(budget.add(&[resource]).unwrap());
    let font_bytes = budget.font_bytes[1];
    assert!(budget.add(&[resource]).unwrap());
    assert_eq!(budget.font_bytes[1], font_bytes);
    assert_eq!(budget.glyph_count, 2);
}

#[test]
fn page_budget_rejects_page_local_font_overflow() {
    let resource = GlyphResource {
        font_id: FONT_GUJARATI,
        glyph_id: 7,
        bitmap_bytes: MAX_FONT_BYTES,
    };
    let mut budget = PageBudget::default();
    assert!(!budget.add(&[resource]).unwrap());
    assert_eq!(budget.glyph_count, 0);
}

#[test]
fn generated_vrun_references_multiple_positioned_glyphs() {
    let page = PreparedPage {
        glyphs: vec![
            PositionedGlyph {
                font_id: FONT_LATIN,
                glyph_id: 1,
                x: 0,
                y: 0,
                advance_x: 6,
                advance_y: 0,
                cluster: 0,
            },
            PositionedGlyph {
                font_id: FONT_DEVANAGARI,
                glyph_id: 2,
                x: 8,
                y: 1,
                advance_x: 10,
                advance_y: 0,
                cluster: 1,
            },
        ],
    };
    let data = build_vrun(&page, 464, 730).unwrap();
    assert_eq!(&data[0..4], &VRUN_MAGIC);
    assert_eq!(read_u32(&data, 8).unwrap(), 2);
    assert_eq!(data.len(), VRUN_HEADER_LEN + 2 * VRUN_RECORD_LEN);
}

#[test]
fn generated_vrun_reads_back_in_the_reader() {
    let page = PreparedPage {
        glyphs: vec![
            PositionedGlyph { font_id: FONT_LATIN, glyph_id: 65, x: -3, y: 700, advance_x: 6, advance_y: 0, cluster: 0 },
            PositionedGlyph { font_id: FONT_GUJARATI, glyph_id: 300, x: 12, y: -8, advance_x: 10, advance_y: 0, cluster: 4 },
        ],
    };
    let data = build_vrun(&page, 464, 730).unwrap();
    let mut out = [PreparedGlyphRecord::empty(); 1024];
    assert_eq!(parse_page_records(&data, &mut out), Ok(2));
    assert_eq!(out[0], PreparedGlyphRecord { font_id: FONT_LATIN, glyph_id: 65, x: -3, y: 700 });
    assert_eq!(out[1], PreparedGlyphRecord { font_id: FONT_GUJARATI, glyph_id: 300, x: 12, y: -8 });
}

#[test]
fn generated_vfnt_serves_each_glyph_in_the_reader() {
    let a = GlyphAsset { glyph_id: 9, advance_x: 4, bearing_x: 0, bearing_y: 0, width: 9, height: 2, row_stride: 2, bitmap: vec![1, 2, 3, 4] };
    let b = GlyphAsset { glyph_id: 3, advance_x: 4, bearing_x: 0, bearing_y: 0, width: 8, height: 1, row_stride: 1, bitmap: vec![0xff] };
    let data = build_vfnt(SCRIPT_LATIN, 18, 18, 18, &[a, b]).unwrap();
    let font = VfntView::parse(&data).unwrap();
    let g9 = font.glyph(9).unwrap();
    assert_eq!(g9.data, &[1, 2, 3, 4]);
    assert_eq!((g9.width, g9.height, g9.row_stride), (9, 2, 2));
    let g3 = font.glyph(3).unwrap();
    assert_eq!(g3.data, &[0xff]);
    assert!(font.glyph(4).is_err());
}

#[test]
fn book_folder_for_key_hashes_the_normalized_key() {
    assert_eq!(book_folder_for_key("mixed.txt"), "5E3BBD2E");
    assert_eq!(book_folder_for_key("mixed.txt"), book_folder_for_path("MIXED.TXT"));
    assert_ne!(book_folder_for_key("MIXED.TXT"), book_folder_for_key("mixed.txt"));
    // FNV-1a of the empty string is its offset basis.
    assert_eq!(book_folder_for_key(""), "811C9DC5");
}

#[test]
fn page_budget_accounts_each_new_glyph_once_per_font() {
    let latin = GlyphResource { font_id: FONT_LATIN, glyph_id: 5, bitmap_bytes: 10 };
    let deva = GlyphResource { font_id: FONT_DEVANAGARI, glyph_id: 7, bitmap_bytes: 3 };
    let budget = PageBudget::default();
    let projected = budget.projected(&[latin, latin, deva]).unwrap().unwrap();
    assert_eq!(projected.glyph_count, 3);
    assert_eq!(projected.font_bytes, [44 + 32 + 10, 44 + 32 + 3, 0]);
    assert_eq!(projected.glyph_ids.len(), 2);
    assert!(projected.glyph_ids.contains(&(FONT_LATIN, 5)));
    assert!(projected.glyph_ids.contains(&(FONT_DEVANAGARI, 7)));
    // The budget it came from is unchanged.
    assert_eq!(budget.glyph_count, 0);
    assert_eq!(budget.font_bytes, [0, 0, 0]);
    // A second new Latin glyph adds only its records and bitmap.
    let more = projected
        .projected(&[GlyphResource { font_id: FONT_LATIN, glyph_id: 6, bitmap_bytes: 4 }])
        .unwrap()
        .unwrap();
    assert_eq!(more.font_bytes[0], 44 + 32 + 10 + 32 + 4);
}

#[test]
fn page_budget_rejects_unknown_font_slot() {
    let budget = PageBudget::default();
    let unknown = GlyphResource { font_id: 9, glyph_id: 1, bitmap_bytes: 1 };
    assert!(budget.projected(&[unknown]).is_err());
}

#[test]
fn built_vfnt_passes_builder_checks_with_exactly_its_ids() {
    let glyph = |id: u32, bitmap: Vec<u8>| GlyphAsset {
        glyph_id: id,
        advance_x: 4,
        bearing_x: 0,
        bearing_y: 0,
        width: 8,
        height: bitmap.len() as u16,
        row_stride: 1,
        bitmap,
    };
    let glyphs = [glyph(9, vec![1, 2, 3]), glyph(4, vec![7]), glyph(9, vec![5, 6])];
    let data = build_vfnt(SCRIPT_LATIN, 16, 16, 12, &glyphs).unwrap();
    assert!(validate_vfnt(&data).is_ok());
    let mut ids = vfnt_glyph_ids(&data).unwrap();
    ids.sort();
    assert_eq!(ids, vec![4, 9]);
    assert_eq!(data.len(), 44 + 32 * 3 + 6);
    // Bitmaps in ascending id order, equal ids in their given order.
    assert!(data.ends_with(&[7, 1, 2, 3, 5, 6]));
}
