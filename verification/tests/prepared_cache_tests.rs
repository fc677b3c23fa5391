use rustmix_x4::prepared_cache::{
    eq_ignore_ascii_case, page_local_file_name, page_local_font_file_name, parse_fonts_index,
    parse_meta, parse_page_records, parse_pages_index, required_fonts, PreparedCacheLayout,
    PreparedGlyphRecord, PreparedTxtError, PreparedTxtState, VfntView, FONT_DEVANAGARI,
    FONT_GUJARATI, FONT_LATIN, MAX_GLYPHS, LEGACY_MAX_PAGES, VRUN_HEADER_LEN, VRUN_MAGIC, VRUN_VERSION,
};

#[test]
fn detects_existing_prepared_cache_by_book_id() {
    let meta = "book_id=ABCDEF12\nsource=/Books/MIXED.TXT\npage_count=1\n";
    let parsed = parse_meta(meta).unwrap();
    assert_eq!(parsed.book_id, "ABCDEF12");
    assert_eq!(parsed.page_count, 1);
    assert_eq!(parsed.layout, PreparedCacheLayout::Legacy);
}

#[test]
fn parses_page_local_cache_with_real_book_page_count() {
    let meta = "book_id=ABCDEF12\nsource=/Books/GARUD.EPU\ncache_format=2\npage_count=4096\n";
    let parsed = parse_meta(meta).unwrap();
    assert_eq!(parsed.page_count, 4096);
    assert_eq!(parsed.layout, PreparedCacheLayout::PageLocalBase36);
}

#[test]
fn rejects_oversized_legacy_page_index() {
    let meta = "book_id=ABCDEF12\npage_count=193\n";
    assert_eq!(parse_meta(meta).unwrap_err(), PreparedTxtError::InvalidMeta);
}

#[test]
fn missing_prepared_cache_falls_back_to_reader() {
    let state = PreparedTxtState::new();
    assert!(!state.is_active());
}

#[test]
fn rejects_cache_with_mismatched_book_id() {
    let parsed = parse_meta("book_id=ABCDEF12\npage_count=1\n").unwrap();
    assert!(!eq_ignore_ascii_case(parsed.book_id, "00000000"));
}

#[test]
fn parses_legacy_pages_index() {
    let mut pages: [String; LEGACY_MAX_PAGES] = core::array::from_fn(|_| String::new());
    let count = parse_pages_index("P000.VRN\nP001.VRN\n", &mut pages).unwrap();
    assert_eq!(count, 2);
    assert_eq!(pages[0], "P000.VRN");
    assert_eq!(pages[1], "P001.VRN");
}

#[test]
fn prepared_txt_generates_page_local_fat_83_names() {
    assert_eq!(page_local_file_name('P', 0, "VRN").unwrap(), "P00000.VRN");
    assert_eq!(page_local_file_name('P', 35, "VRN").unwrap(), "P0000Z.VRN");
    assert_eq!(page_local_file_name('P', 36, "VRN").unwrap(), "P00010.VRN");
    assert_eq!(
        page_local_font_file_name(FONT_DEVANAGARI, 1).unwrap(),
        "D00001.VFN"
    );
    assert_eq!(
        page_local_font_file_name(FONT_GUJARATI, 1).unwrap(),
        "G00001.VFN"
    );
}

#[test]
fn parses_legacy_fonts_index_with_optional_script_fonts() {
    let fonts =
        parse_fonts_index("Latin=LAT18.VFN\nDevanagari=DEV22.VFN\nGujarati=GUJ22.VFN\n")
            .unwrap();
    assert_eq!(fonts.latin, "LAT18.VFN");
    assert_eq!(fonts.devanagari, Some("DEV22.VFN"));
    assert_eq!(fonts.gujarati, Some("GUJ22.VFN"));
}

#[test]
fn accepts_latin_only_legacy_fonts_index() {
    let fonts = parse_fonts_index("Latin=LAT18.VFN\n").unwrap();
    assert_eq!(fonts.latin, "LAT18.VFN");
    assert_eq!(fonts.devanagari, None);
    assert_eq!(fonts.gujarati, None);
}

#[test]
fn rejects_missing_latin_font_asset() {
    assert_eq!(
        parse_fonts_index("Devanagari=DEV22.VFN\n").unwrap_err(),
        PreparedTxtError::MissingFont
    );
}

#[test]
fn detects_fonts_required_by_gujarati_page() {
    let glyphs = [
        PreparedGlyphRecord {
            font_id: FONT_LATIN,
            glyph_id: 65,
            x: 0,
            y: 0,
        },
        PreparedGlyphRecord {
            font_id: FONT_GUJARATI,
            glyph_id: 42,
            x: 12,
            y: 8,
        },
    ];
    let required = required_fonts(&glyphs).unwrap();
    assert!(required.latin);
    assert!(!required.devanagari);
    assert!(required.gujarati);
}

#[test]
fn rejects_invalid_vfnt_asset() {
    assert!(VfntView::parse(b"not a font").is_err());
}

#[test]
fn parses_prepared_page_with_multiple_glyphs() {
    let page = test_page(&[
        PreparedGlyphRecord {
            font_id: FONT_LATIN,
            glyph_id: 65,
            x: 0,
            y: 0,
        },
        PreparedGlyphRecord {
            font_id: FONT_DEVANAGARI,
            glyph_id: 42,
            x: 12,
            y: 8,
        },
    ]);
    let mut out = [PreparedGlyphRecord::empty(); MAX_GLYPHS];
    let count = parse_page_records(&page, &mut out).unwrap();
    assert_eq!(count, 2);
    assert_eq!(out[1].font_id, FONT_DEVANAGARI);
    assert_eq!(out[1].x, 12);
}

#[test]
fn prepared_page_rejects_bad_magic() {
    let mut page = test_page(&[]);
    page[0] = b'B';
    let mut out = [PreparedGlyphRecord::empty(); MAX_GLYPHS];
    assert!(parse_page_records(&page, &mut out).is_err());
}

#[test]
fn prepared_page_rejects_truncated_glyph_records() {
    let mut page = test_page(&[PreparedGlyphRecord {
        font_id: FONT_LATIN,
        glyph_id: 65,
        x: 0,
        y: 0,
    }]);
    page.pop();
    let mut out = [PreparedGlyphRecord::empty(); MAX_GLYPHS];
    assert!(parse_page_records(&page, &mut out).is_err());
}

fn test_page(records: &[PreparedGlyphRecord]) -> Vec<u8> {
    let mut out = Vec::new();
    out.extend_from_slice(&VRUN_MAGIC);
    out.extend_from_slice(&VRUN_VERSION.to_le_bytes());
    out.extend_from_slice(&(VRUN_HEADER_LEN as u16).to_le_bytes());
    out.extend_from_slice(&(records.len() as u32).to_le_bytes());
    out.extend_from_slice(&480u16.to_le_bytes());
    out.extend_from_slice(&800u16.to_le_bytes());
    out.extend_from_slice(&0u32.to_le_bytes());
    for record in records {
        out.extend_from_slice(&record.font_id.to_le_bytes());
        out.extend_from_slice(&record.glyph_id.to_le_bytes());
        out.extend_from_slice(&record.x.to_le_bytes());
        out.extend_from_slice(&record.y.to_le_bytes());
        out.extend_from_slice(&8i16.to_le_bytes());
        out.extend_from_slice(&0i16.to_le_bytes());
        out.extend_from_slice(&0u32.to_le_bytes());
    }
    out
}
