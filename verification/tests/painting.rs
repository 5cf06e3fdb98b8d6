use glyph_preview::canvas::{CharacterPreviewShape, ToufuShape};
use glyph_preview::error::PreviewError;
use glyph_preview::preview_canvas::{paint_preview, CharacterPreviewCanvas};
use glyph_preview::raster::RenderedCharacter;
use glyph_preview::size::RenderSize;
use tui::buffer::Buffer;
use tui::layout::Rect;
use tui::widgets::canvas::{Canvas, Painter, Shape};
use tui::widgets::Widget;

const FULL: &str = "\u{28ff}";
const BLANK: &str = " ";

struct Toufu(ToufuShape);

impl Shape for Toufu {
    fn draw(&self, painter: &mut Painter) {
        self.0.draw(painter)
    }
}

struct Glyph {
    rendered: RenderedCharacter,
    x_padding: usize,
    y_padding: usize,
}

impl Shape for Glyph {
    fn draw(&self, painter: &mut Painter) {
        let shape = CharacterPreviewShape {
            rendered_character: &self.rendered,
            x_padding: self.x_padding,
            y_padding: self.y_padding,
        };
        shape.draw(painter)
    }
}

struct Outcome {
    canvas: RenderSize,
    outcome: Result<RenderedCharacter, PreviewError>,
}

impl Shape for Outcome {
    fn draw(&self, painter: &mut Painter) {
        paint_preview(painter, self.canvas, &self.outcome)
    }
}

struct Preview {
    canvas: CharacterPreviewCanvas,
    cells_wide: u16,
    cells_tall: u16,
}

impl Shape for Preview {
    fn draw(&self, painter: &mut Painter) {
        self.canvas.draw_character_preview(painter, self.cells_wide, self.cells_tall)
    }
}

fn render<S: Shape>(shape: &S, cells_wide: u16, cells_tall: u16) -> Buffer {
    let area = Rect::new(0, 0, cells_wide, cells_tall);
    let mut buffer = Buffer::empty(area);
    Canvas::default().paint(|ctx| ctx.draw(shape)).render(area, &mut buffer);
    buffer
}

fn symbols(buffer: &Buffer, cells_wide: u16, cells_tall: u16) -> Vec<Vec<String>> {
    (0..cells_tall)
        .map(|y| (0..cells_wide).map(|x| buffer.get(x, y).symbol.clone()).collect())
        .collect()
}

fn expect_filled(buffer: &Buffer, cells_wide: u16, cells_tall: u16, x0: u16, x1: u16, y0: u16, y1: u16) {
    for y in 0..cells_tall {
        for x in 0..cells_wide {
            let inside = x0 <= x && x < x1 && y0 <= y && y < y1;
            let expected = if inside { FULL } else { BLANK };
            assert_eq!(buffer.get(x, y).symbol, expected, "cell ({}, {})", x, y);
        }
    }
}

#[test]
fn placeholder_fills_its_square() {
    let shape = Toufu(ToufuShape { size: RenderSize::new(4, 4), x_padding: 2, y_padding: 4 });
    let buffer = render(&shape, 4, 3);
    expect_filled(&buffer, 4, 3, 1, 3, 1, 2);
}

#[test]
fn placeholder_of_no_extent_sets_nothing() {
    let shape = Toufu(ToufuShape { size: RenderSize::new(0, 0), x_padding: 1, y_padding: 1 });
    let buffer = render(&shape, 3, 3);
    expect_filled(&buffer, 3, 3, 0, 0, 0, 0);
}

#[test]
fn placeholder_sets_single_dots() {
    let shape = Toufu(ToufuShape { size: RenderSize::new(1, 1), x_padding: 3, y_padding: 5 });
    let buffer = render(&shape, 2, 2);
    assert_eq!(
        symbols(&buffer, 2, 2),
        vec![
            vec![BLANK.to_string(), BLANK.to_string()],
            vec![BLANK.to_string(), "\u{2810}".to_string()],
        ]
    );
}

#[test]
fn glyph_sets_one_dot_per_covered_pixel() {
    let shape = Glyph {
        rendered: RenderedCharacter {
            bitmap: vec![vec![0, 255], vec![7, 0]],
            glyph_size: RenderSize::new(2, 2),
        },
        x_padding: 0,
        y_padding: 0,
    };
    let buffer = render(&shape, 2, 1);
    assert_eq!(symbols(&buffer, 2, 1), vec![vec!["\u{280a}".to_string(), BLANK.to_string()]]);
}

#[test]
fn glyph_is_moved_by_its_padding() {
    let shape = Glyph {
        rendered: RenderedCharacter {
            bitmap: vec![vec![0, 255], vec![7, 0]],
            glyph_size: RenderSize::new(2, 2),
        },
        x_padding: 2,
        y_padding: 4,
    };
    let buffer = render(&shape, 2, 2);
    assert_eq!(
        symbols(&buffer, 2, 2),
        vec![
            vec![BLANK.to_string(), BLANK.to_string()],
            vec![BLANK.to_string(), "\u{280a}".to_string()],
        ]
    );
}

#[test]
fn transparent_glyph_sets_nothing() {
    let shape = Glyph {
        rendered: RenderedCharacter {
            bitmap: vec![vec![0; 4]; 4],
            glyph_size: RenderSize::new(4, 4),
        },
        x_padding: 0,
        y_padding: 0,
    };
    let buffer = render(&shape, 2, 1);
    expect_filled(&buffer, 2, 1, 0, 0, 0, 0);
}

#[test]
fn failed_render_draws_the_centred_placeholder() {
    let shape = Outcome {
        canvas: RenderSize::new(40, 20),
        outcome: Err(PreviewError::GlyphRenderError),
    };
    let buffer = render(&shape, 24, 9);
    expect_filled(&buffer, 24, 9, 5, 15, 0, 5);
}

#[test]
fn rendered_glyph_is_centred_by_its_own_extent() {
    let mut bitmap = vec![vec![0u8; 8]; 8];
    for row in bitmap.iter_mut().take(4) {
        for pixel in row.iter_mut().take(4) {
            *pixel = 200;
        }
    }
    let shape = Outcome {
        canvas: RenderSize::new(8, 12),
        outcome: Ok(RenderedCharacter { bitmap, glyph_size: RenderSize::new(4, 4) }),
    };
    let buffer = render(&shape, 8, 7);
    expect_filled(&buffer, 8, 7, 1, 3, 1, 2);
}

#[test]
fn canvas_without_session_draws_the_placeholder() {
    let shape = Preview {
        canvas: CharacterPreviewCanvas::new('x', Vec::new(), None),
        cells_wide: 14,
        cells_tall: 9,
    };
    let buffer = render(&shape, 14, 9);
    expect_filled(&buffer, 14, 9, 0, 10, 0, 5);
}

#[test]
fn wide_canvas_without_session_centres_the_placeholder() {
    let shape = Preview {
        canvas: CharacterPreviewCanvas::new('x', Vec::new(), None),
        cells_wide: 24,
        cells_tall: 9,
    };
    let buffer = render(&shape, 24, 9);
    expect_filled(&buffer, 24, 9, 5, 15, 0, 5);
}

#[test]
fn canvas_smaller_than_the_padding_stays_empty() {
    let shape = Preview {
        canvas: CharacterPreviewCanvas::new('x', Vec::new(), None),
        cells_wide: 3,
        cells_tall: 9,
    };
    let buffer = render(&shape, 3, 9);
    expect_filled(&buffer, 3, 9, 0, 0, 0, 0);
}

#[test]
fn canvas_over_an_installed_font_draws_some_glyph() {
    let font = "/usr/share/fonts/truetype/dejavu/DejaVuSans.ttf".to_string();
    let canvas = CharacterPreviewCanvas::new('A', vec![font], None);
    if !canvas.font_selection().available {
        return;
    }
    let shape = Preview { canvas, cells_wide: 14, cells_tall: 9 };
    let buffer = render(&shape, 14, 9);
    let drawn = symbols(&buffer, 14, 9);
    assert!(drawn.iter().flatten().any(|symbol| symbol != BLANK));
    assert!(drawn.iter().skip(5).flatten().all(|symbol| symbol == BLANK));
    assert!(drawn.iter().all(|row| row.iter().skip(10).all(|symbol| symbol == BLANK)));
}
