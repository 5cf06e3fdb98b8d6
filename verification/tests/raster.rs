use glyph_preview::error::PreviewError;
use glyph_preview::raster::clip_coverage;
use glyph_preview::size::RenderSize;

#[test]
fn render_size_keeps_its_fields() {
    let size = RenderSize::new(3, 7);
    assert_eq!(size.width, 3);
    assert_eq!(size.height, 7);
}

#[test]
fn small_glyph_sits_in_the_corner_of_the_grid() {
    let buffer = [1u8, 2, 3, 4, 5, 6];
    let rendered = clip_coverage(&buffer, 3, 2, 3, RenderSize::new(4, 3)).unwrap();
    assert_eq!(rendered.glyph_size.width, 3);
    assert_eq!(rendered.glyph_size.height, 2);
    assert_eq!(rendered.bitmap, vec![vec![1, 2, 3, 0], vec![4, 5, 6, 0], vec![0, 0, 0, 0]]);
}

#[test]
fn glyph_of_the_requested_size_fills_the_grid() {
    let buffer = [9u8, 8, 7, 6];
    let rendered = clip_coverage(&buffer, 2, 2, 2, RenderSize::new(2, 2)).unwrap();
    assert_eq!(rendered.glyph_size.width, 2);
    assert_eq!(rendered.glyph_size.height, 2);
    assert_eq!(rendered.bitmap, vec![vec![9, 8], vec![7, 6]]);
}

#[test]
fn wide_and_tall_glyph_is_clipped_on_both_axes() {
    let buffer = [1u8, 2, 3, 4, 5, 6, 7, 8, 9, 10, 11, 12];
    let rendered = clip_coverage(&buffer, 4, 3, 4, RenderSize::new(2, 2)).unwrap();
    assert_eq!(rendered.glyph_size.width, 2);
    assert_eq!(rendered.glyph_size.height, 2);
    assert_eq!(rendered.bitmap, vec![vec![1, 2], vec![5, 6]]);
}

#[test]
fn glyph_extent_never_exceeds_the_request() {
    let buffer = vec![255u8; 30];
    for width in 0..6usize {
        for height in 0..6usize {
            let rendered = clip_coverage(&buffer, 5, 6, 5, RenderSize::new(width, height)).unwrap();
            assert!(rendered.glyph_size.width <= width);
            assert!(rendered.glyph_size.height <= height);
            assert_eq!(rendered.bitmap.len(), height);
            assert!(rendered.bitmap.iter().all(|row| row.len() == width));
        }
    }
}

#[test]
fn empty_bitmap_gives_an_empty_glyph() {
    let rendered = clip_coverage(&[], 0, 0, 0, RenderSize::new(2, 1)).unwrap();
    assert_eq!(rendered.glyph_size.width, 0);
    assert_eq!(rendered.glyph_size.height, 0);
    assert_eq!(rendered.bitmap, vec![vec![0, 0]]);
}

#[test]
fn zero_request_gives_an_empty_grid() {
    let rendered = clip_coverage(&[5u8], 1, 1, 1, RenderSize::new(0, 0)).unwrap();
    assert_eq!(rendered.glyph_size.width, 0);
    assert_eq!(rendered.glyph_size.height, 0);
    assert!(rendered.bitmap.is_empty());
}

#[test]
fn longer_buffer_is_read_by_the_pitch() {
    let buffer = [1u8, 2, 3, 4, 0, 0];
    let rendered = clip_coverage(&buffer, 2, 2, 2, RenderSize::new(3, 3)).unwrap();
    assert_eq!(rendered.bitmap, vec![vec![1, 2, 0], vec![3, 4, 0], vec![0, 0, 0]]);
}

#[test]
fn padded_rows_are_found_by_the_pitch() {
    let buffer = [1u8, 2, 3, 99, 4, 5, 6, 99];
    let rendered = clip_coverage(&buffer, 3, 2, 4, RenderSize::new(3, 2)).unwrap();
    assert_eq!(rendered.glyph_size.width, 3);
    assert_eq!(rendered.glyph_size.height, 2);
    assert_eq!(rendered.bitmap, vec![vec![1, 2, 3], vec![4, 5, 6]]);
}

#[test]
fn clipped_padded_rows_are_found_by_the_pitch() {
    let buffer = [1u8, 2, 3, 99, 4, 5, 6, 99, 7, 8, 9, 99];
    let rendered = clip_coverage(&buffer, 3, 3, 4, RenderSize::new(2, 2)).unwrap();
    assert_eq!(rendered.glyph_size.width, 2);
    assert_eq!(rendered.glyph_size.height, 2);
    assert_eq!(rendered.bitmap, vec![vec![1, 2], vec![4, 5]]);
}

#[test]
fn pitch_below_the_width_is_refused() {
    let buffer = [1u8, 2, 3, 4, 5, 6, 7, 8];
    assert_eq!(
        clip_coverage(&buffer, 4, 2, 1, RenderSize::new(4, 4)).err(),
        Some(PreviewError::GlyphRenderError)
    );
}

#[test]
fn bottom_up_bitmap_is_refused() {
    let buffer = [1u8, 2, 3, 4];
    assert_eq!(
        clip_coverage(&buffer, 2, 2, -2, RenderSize::new(4, 4)).err(),
        Some(PreviewError::GlyphRenderError)
    );
}

#[test]
fn short_buffer_is_refused() {
    let buffer = [1u8, 2, 3];
    let result = clip_coverage(&buffer, 2, 2, 2, RenderSize::new(4, 4));
    assert_eq!(result.err(), Some(PreviewError::GlyphRenderError));
}

#[test]
fn negative_extent_is_refused() {
    let buffer = [1u8, 2, 3, 4];
    assert_eq!(
        clip_coverage(&buffer, -1, 2, 2, RenderSize::new(4, 4)).err(),
        Some(PreviewError::GlyphRenderError)
    );
    assert_eq!(
        clip_coverage(&buffer, 2, -2, 2, RenderSize::new(4, 4)).err(),
        Some(PreviewError::GlyphRenderError)
    );
}
