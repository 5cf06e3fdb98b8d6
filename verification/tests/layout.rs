use glyph_preview::canvas::{
    canvas_pixel_size, centering_padding, render_pixel_size, BRAILLE_PATTERN_DOTS_PER_CELL_HORIZONTAL,
    BRAILLE_PATTERN_DOTS_PER_CELL_VERTICAL, RENDER_PADDING_IN_CELLS,
};
use glyph_preview::size::RenderSize;

#[test]
fn cells_have_two_by_four_dots_and_four_cells_of_padding() {
    assert_eq!(BRAILLE_PATTERN_DOTS_PER_CELL_HORIZONTAL, 2);
    assert_eq!(BRAILLE_PATTERN_DOTS_PER_CELL_VERTICAL, 4);
    assert_eq!(RENDER_PADDING_IN_CELLS, 4);
}

#[test]
fn pixel_box_takes_the_padding_off_and_counts_dots() {
    let canvas = canvas_pixel_size(24, 14).unwrap();
    assert_eq!(canvas.width, 40);
    assert_eq!(canvas.height, 40);
    let canvas = canvas_pixel_size(10, 6).unwrap();
    assert_eq!(canvas.width, 12);
    assert_eq!(canvas.height, 8);
}

#[test]
fn canvas_of_just_the_padding_has_an_empty_box() {
    let canvas = canvas_pixel_size(4, 4).unwrap();
    assert_eq!(canvas.width, 0);
    assert_eq!(canvas.height, 0);
}

#[test]
fn canvas_smaller_than_the_padding_has_no_box() {
    assert!(canvas_pixel_size(3, 10).is_none());
    assert!(canvas_pixel_size(10, 3).is_none());
    assert!(canvas_pixel_size(0, 0).is_none());
}

#[test]
fn largest_canvas_does_not_overflow() {
    let canvas = canvas_pixel_size(u16::MAX, u16::MAX).unwrap();
    assert_eq!(canvas.width, 131062);
    assert_eq!(canvas.height, 262124);
}

#[test]
fn render_target_is_the_square_of_the_smaller_side() {
    let square = render_pixel_size(RenderSize::new(40, 20));
    assert_eq!((square.width, square.height), (20, 20));
    let square = render_pixel_size(RenderSize::new(12, 36));
    assert_eq!((square.width, square.height), (12, 12));
    let square = render_pixel_size(RenderSize::new(8, 8));
    assert_eq!((square.width, square.height), (8, 8));
}

#[test]
fn placeholder_is_centred_in_the_box() {
    let padding = centering_padding(RenderSize::new(40, 40), RenderSize::new(20, 20));
    assert_eq!(padding, (10, 10));
}

#[test]
fn odd_leftover_is_rounded_down() {
    let padding = centering_padding(RenderSize::new(41, 20), RenderSize::new(20, 15));
    assert_eq!(padding, (10, 2));
}

#[test]
fn full_size_content_has_no_padding() {
    let padding = centering_padding(RenderSize::new(20, 20), RenderSize::new(20, 20));
    assert_eq!(padding, (0, 0));
}
