use rustmix_x4::prepared_cache::{
    cache_read_limit, finish_cache_read, PreparedTxtError, VfntView, FONT_DEVANAGARI, FONT_GUJARATI,
    FONT_LATIN,
};
use rustmix_x4::prepared_gen::{
    GlyphAsset, PositionedGlyph, PreparedGenError, PreparedPage, MAX_PAGE_GLYPHS, SCRIPT_DEVANAGARI,
};
use rustmix_x4::prepared_output::{
    finish_pages, meta_text, page_file, page_font_file, push_decimal, CacheStats,
};

fn glyph(id: u32) -> PositionedGlyph {
    PositionedGlyph { font_id: FONT_LATIN, glyph_id: id, x: 1, y: 2, advance_x: 3, advance_y: 0, cluster: 0 }
}

fn page(n: usize) -> PreparedPage {
    PreparedPage { glyphs: (0..n as u32).map(glyph).collect() }
}

#[test]
fn finishing_pages_drops_trailing_empty_pages() {
    let mut pages = vec![page(2), page(0), page(1), page(0), page(0)];
    assert_eq!(finish_pages(&mut pages), Ok(()));
    assert_eq!(pages.len(), 3);
    assert_eq!(pages[2].glyphs.len(), 1);
}

#[test]
fn finishing_pages_keeps_the_first_page() {
    let mut pages = vec![page(0), page(0)];
    assert_eq!(finish_pages(&mut pages), Err(PreparedGenError::NoGlyphs));
    assert_eq!(pages.len(), 1);
}

#[test]
fn finishing_no_pages_reports_no_glyphs() {
    let mut pages: Vec<PreparedPage> = Vec::new();
    assert_eq!(finish_pages(&mut pages), Err(PreparedGenError::NoGlyphs));
}

#[test]
fn page_file_names_and_sizes_the_page() {
    let (name, bytes) = page_file(&page(3), 37, 480, 800).unwrap();
    assert_eq!(name, "P00011.VRN");
    assert_eq!(bytes.len(), 20 + 3 * 20);
    assert_eq!(&bytes[0..4], b"VRUN");
}

#[test]
fn page_file_refuses_too_many_glyphs() {
    assert_eq!(
        page_file(&page(MAX_PAGE_GLYPHS + 1), 4, 480, 800).unwrap_err(),
        PreparedGenError::PageGlyphLimit(4, MAX_PAGE_GLYPHS + 1)
    );
}

#[test]
fn page_file_refuses_page_past_name_range() {
    assert_eq!(
        page_file(&page(1), 60_466_176, 480, 800).unwrap_err(),
        PreparedGenError::InvalidPageLocalName
    );
}

fn asset(id: u32, bitmap: Vec<u8>) -> GlyphAsset {
    GlyphAsset { glyph_id: id, advance_x: 7, bearing_x: 1, bearing_y: -2, width: 8, height: bitmap.len() as u16, row_stride: 1, bitmap }
}

#[test]
fn page_font_file_reads_back_in_the_reader() {
    let assets = vec![asset(12, vec![0xaa, 0x55]), asset(5, vec![0xff])];
    let (name, bytes) = page_font_file(3, 'D', SCRIPT_DEVANAGARI, 20, 20, 20, &assets).unwrap();
    assert_eq!(name, "D00003.VFN");
    let font = VfntView::parse(&bytes).unwrap();
    let g12 = font.glyph(12).unwrap();
    assert_eq!(g12.data, &[0xaa, 0x55]);
    assert_eq!((g12.width, g12.height, g12.row_stride), (8, 2, 1));
    assert_eq!(font.glyph(5).unwrap().data, &[0xff]);
}

#[test]
fn page_font_file_needs_a_glyph() {
    assert_eq!(
        page_font_file(0, 'L', 1, 18, 18, 18, &[]).unwrap_err(),
        PreparedGenError::NoUsedGlyphs
    );
}

#[test]
fn page_font_file_refuses_font_over_reader_limit() {
    let assets = vec![asset(1, vec![0u8; 24 * 1024])];
    assert_eq!(
        page_font_file(2, 'L', 1, 18, 18, 18, &assets).unwrap_err(),
        PreparedGenError::FontByteLimit(2, 44 + 32 + 24 * 1024)
    );
}

#[test]
fn meta_text_lists_the_cache_fields() {
    let text = meta_text("5E3BBD2E", "//Books/A\nB.TXT", "Title\r1", 1234);
    assert_eq!(
        text,
        "book_id=5E3BBD2E\nsource=/Books/A B.TXT\ntitle=Title 1\ncache_format=2\npage_count=1234\npage_name_scheme=base36-local-v1\n"
    );
}

#[test]
fn decimal_digits_of_zero_and_large_counts() {
    let mut s = String::from("n=");
    push_decimal(&mut s, 0);
    assert_eq!(s, "n=0");
    let mut t = String::new();
    push_decimal(&mut t, 60_466_175);
    assert_eq!(t, "60466175");
}

#[test]
fn cache_stats_track_maxima_and_script_pages() {
    let mut stats = CacheStats::new();
    stats.note_page(100);
    stats.note_page(60);
    stats.note_font(FONT_LATIN, 500);
    stats.note_font(FONT_DEVANAGARI, 900);
    stats.note_font(FONT_GUJARATI, 300);
    stats.note_font(FONT_LATIN, 200);
    assert_eq!(stats.max_page_bytes, 100);
    assert_eq!(stats.max_font_bytes, 900);
    assert_eq!((stats.latin_pages, stats.devanagari_pages, stats.gujarati_pages), (2, 1, 1));
}

#[test]
fn cache_reads_are_limited_to_their_maximum() {
    assert_eq!(cache_read_limit(10), Ok(11));
    assert_eq!(cache_read_limit(usize::MAX), Err(PreparedTxtError::TooLarge));
    assert_eq!(finish_cache_read(vec![1, 2, 3, 0], Some(3), 3), Ok(vec![1, 2, 3]));
    assert_eq!(finish_cache_read(vec![1, 2, 3, 4], Some(4), 3), Err(PreparedTxtError::TooLarge));
    assert_eq!(finish_cache_read(vec![0; 4], None, 3), Err(PreparedTxtError::Missing));
}

#[test]
fn cache_text_reads_utf8_and_refuses_other_bytes() {
    assert_eq!(rustmix_x4::prepared_cache::cache_text("नमः".as_bytes(), PreparedTxtError::InvalidMeta), Ok("नमः"));
    assert_eq!(
        rustmix_x4::prepared_cache::cache_text(&[0x41, 0xff], PreparedTxtError::InvalidIndex),
        Err(PreparedTxtError::InvalidIndex)
    );
}

#[test]
fn normalized_path_keys_are_lowercase_with_forward_slashes() {
    assert_eq!(rustmix_x4::prepared_gen::normalized_path_key("Books\\MIXED.TXT"), "books/mixed.txt");
}

#[test]
fn meta_lines_are_trimmed_before_parsing() {
    let parsed = rustmix_x4::prepared_cache::parse_meta("  book_id =  ABCDEF12 \n page_count = 3  \n").unwrap();
    assert_eq!(parsed.book_id, "ABCDEF12");
    assert_eq!(parsed.page_count, 3);
}

#[test]
fn written_meta_reads_back_in_the_reader() {
    let book_id = rustmix_x4::prepared_gen::book_folder_for_path("/Books/Mixed.txt");
    let text = meta_text(&book_id, "/Books/Mixed.txt", "A title = with equals\n", 321);
    let parsed = rustmix_x4::prepared_cache::parse_meta(&text).unwrap();
    assert_eq!(parsed.book_id, book_id);
    assert_eq!(parsed.page_count, 321);
    assert_eq!(parsed.layout, rustmix_x4::prepared_cache::PreparedCacheLayout::PageLocalBase36);
    assert_eq!(parsed.source, "/Books/Mixed.txt");
}

#[test]
fn distinct_pages_get_distinct_names() {
    let a = rustmix_x4::prepared_gen::page_local_file_name('P', 35, "VRN").unwrap();
    let b = rustmix_x4::prepared_gen::page_local_file_name('P', 36, "VRN").unwrap();
    assert_ne!(a, b);
    assert_eq!(
        rustmix_x4::prepared_cache::page_local_file_name('P', 60_466_175, "VRN").unwrap(),
        rustmix_x4::prepared_gen::page_local_file_name('P', 60_466_175, "VRN").unwrap()
    );
}
