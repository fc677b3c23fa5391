use rustmix_x4::prepared_cache::FONT_LATIN;
use rustmix_x4::prepared_gen::{
    GlyphResource, LayoutConfig, MeasuredGlyph, PreparedGenError, RasterMetrics, ShapedGlyph,
    TextLayout, MAX_PAGE_GLYPHS,
};

fn config() -> LayoutConfig {
    LayoutConfig { page_width: 100, page_height: 80, margin_x: 0, margin_y: 4, line_height: 20 }
}

fn measured(glyph_id: u32, cluster: u32, advance: i16) -> MeasuredGlyph {
    MeasuredGlyph {
        shaped: ShapedGlyph {
            font_id: FONT_LATIN,
            glyph_id,
            x_offset: 0,
            y_offset: 0,
            advance_x: advance,
            advance_y: 0,
            cluster,
        },
        metrics: RasterMetrics { xmin: 1, ymin: -2, width: 10, height: 12 },
        resource: GlyphResource { font_id: FONT_LATIN, glyph_id, bitmap_bytes: 24 },
    }
}

#[test]
fn layout_places_glyphs_and_wraps_lines() {
    let mut layout = TextLayout::new(config());
    let run: Vec<MeasuredGlyph> = (0..5).map(|i| measured(10 + i, i, 30)).collect();
    layout.add_run(&run).unwrap();
    let result = layout.finish();
    assert_eq!(result.pages.len(), 1);
    let glyphs = &result.pages[0].glyphs;
    assert_eq!(glyphs.len(), 5);
    // First line: baseline 24, the box 12 high sitting 2 below the baseline.
    assert_eq!((glyphs[0].x, glyphs[0].y), (1, 14));
    assert_eq!((glyphs[2].x, glyphs[2].y), (61, 14));
    // The fourth cluster would pass the right edge at 90 + 30: next line,
    // baseline 44.
    assert_eq!((glyphs[3].x, glyphs[3].y), (1, 34));
    assert_eq!((glyphs[4].x, glyphs[4].y), (31, 34));
    assert_eq!(glyphs[4].glyph_id, 14);
}

#[test]
fn layout_keeps_a_cluster_on_one_line() {
    let mut layout = TextLayout::new(config());
    let run = vec![measured(1, 0, 60), measured(2, 7, 30), measured(3, 7, 30)];
    layout.add_run(&run).unwrap();
    let result = layout.finish();
    let glyphs = &result.pages[0].glyphs;
    // The two-glyph cluster is 60 wide and starts at 60: it moves down whole.
    assert_eq!((glyphs[1].x, glyphs[1].y), (1, 34));
    assert_eq!((glyphs[2].x, glyphs[2].y), (31, 34));
}

#[test]
fn layout_starts_a_page_past_the_bottom() {
    let mut layout = TextLayout::new(config());
    layout.add_run(&[measured(1, 0, 10)]).unwrap();
    layout.end_line();
    layout.add_run(&[measured(2, 0, 10)]).unwrap();
    layout.end_line();
    let result = layout.finish();
    // The second line ends at baseline 44; a third at 64 would pass 80 - 20.
    assert_eq!(result.pages.len(), 2);
    assert_eq!(result.pages[0].glyphs.len(), 2);
    assert_eq!(result.pages[1].glyphs.len(), 0);
    assert_eq!(result.resource_split_pages, 0);
}

#[test]
fn layout_breaks_pages_at_the_glyph_budget() {
    let mut layout = TextLayout::new(config());
    let run: Vec<MeasuredGlyph> = (0..(MAX_PAGE_GLYPHS as u32 + 1)).map(|i| measured(5, i, 0)).collect();
    layout.add_run(&run).unwrap();
    let result = layout.finish();
    assert_eq!(result.pages.len(), 2);
    assert_eq!(result.pages[0].glyphs.len(), MAX_PAGE_GLYPHS);
    assert_eq!(result.pages[1].glyphs.len(), 1);
    assert_eq!(result.resource_split_pages, 1);
}

#[test]
fn layout_refuses_a_cluster_larger_than_a_page() {
    let mut layout = TextLayout::new(config());
    let run: Vec<MeasuredGlyph> = (0..(MAX_PAGE_GLYPHS as u32 + 1)).map(|i| measured(i, 9, 0)).collect();
    assert_eq!(layout.add_run(&run), Err(PreparedGenError::ClusterTooLarge(9)));
}

#[test]
fn layout_refuses_an_unknown_font() {
    let mut layout = TextLayout::new(config());
    let mut glyph = measured(1, 0, 10);
    glyph.resource.font_id = 9;
    assert_eq!(layout.add_run(&[glyph]), Err(PreparedGenError::UnknownFontSlot(9)));
}
