//! Layout of a preview on a canvas of terminal cells that are addressed dot
//! by dot: the pixel box of the canvas, the square that the glyph is
//! rendered into, the padding that centres it, and the dots to set.

use vstd::prelude::*;
use crate::canvas_painter::{dot_is_addressable, grid_columns, grid_rows, paint, painted_dots};
use crate::raster::RenderedCharacter;
use crate::size::RenderSize;

verus! {

/// Dots in one cell, side by side.
pub const BRAILLE_PATTERN_DOTS_PER_CELL_HORIZONTAL: u16 = 2;

/// Dots in one cell, one above the other.
pub const BRAILLE_PATTERN_DOTS_PER_CELL_VERTICAL: u16 = 4;

/// Cells kept free on each axis for the frame and the text below.
pub const RENDER_PADDING_IN_CELLS: u16 = 4;

/// Whether a canvas of `cells_wide` by `cells_tall` cells is smaller than
/// the padding on either axis, and so has no pixel box.
pub open spec fn lacks_room(cells_wide: u16, cells_tall: u16) -> bool {
    cells_wide < RENDER_PADDING_IN_CELLS || cells_tall < RENDER_PADDING_IN_CELLS
}

/// The pixel box of a canvas of `cells_wide` by `cells_tall` cells that has
/// room for one.
pub open spec fn canvas_box(cells_wide: u16, cells_tall: u16) -> RenderSize {
    RenderSize {
        width: ((cells_wide - RENDER_PADDING_IN_CELLS) * BRAILLE_PATTERN_DOTS_PER_CELL_HORIZONTAL) as usize,
        height: ((cells_tall - RENDER_PADDING_IN_CELLS) * BRAILLE_PATTERN_DOTS_PER_CELL_VERTICAL) as usize,
    }
}

/// The largest square that fits in `canvas`.
pub open spec fn render_square(canvas: RenderSize) -> RenderSize {
    if canvas.width <= canvas.height {
        RenderSize { width: canvas.width, height: canvas.width }
    } else {
        RenderSize { width: canvas.height, height: canvas.height }
    }
}

/// The dots of a filled box of extent `size` whose corner is moved right by
/// `x_padding` and down by `y_padding`.
pub open spec fn placeholder_dots(size: RenderSize, x_padding: int, y_padding: int) -> Set<(int, int)> {
    Set::new(
        |d: (int, int)|
            x_padding <= d.0 < x_padding + size.width && y_padding <= d.1 < y_padding + size.height,
    )
}

/// The pixel box of a canvas of `cells_wide` by `cells_tall` cells, once the
/// padding cells are taken off; none where the canvas is smaller than the
/// padding.
pub fn canvas_pixel_size(cells_wide: u16, cells_tall: u16) -> (canvas: Option<RenderSize>)
    ensures
        lacks_room(cells_wide, cells_tall) ==> canvas.is_none(),
        !lacks_room(cells_wide, cells_tall) ==> canvas == Some(canvas_box(cells_wide, cells_tall)),
{
    if cells_wide < RENDER_PADDING_IN_CELLS || cells_tall < RENDER_PADDING_IN_CELLS {
        return None;
    }
    let free_wide: u32 = (cells_wide - RENDER_PADDING_IN_CELLS) as u32;
    let free_tall: u32 = (cells_tall - RENDER_PADDING_IN_CELLS) as u32;
    let dots_wide: u32 = BRAILLE_PATTERN_DOTS_PER_CELL_HORIZONTAL as u32;
    let dots_tall: u32 = BRAILLE_PATTERN_DOTS_PER_CELL_VERTICAL as u32;
    assert(free_wide * dots_wide == free_wide * 2 && free_tall * dots_tall == free_tall * 4);
    let width: u32 = free_wide * dots_wide;
    let height: u32 = free_tall * dots_tall;
    Some(RenderSize::new(width as usize, height as usize))
}

/// The square that a glyph is rendered into: its side is the smaller side of
/// the canvas.
pub fn render_pixel_size(canvas: RenderSize) -> (square: RenderSize)
    ensures
        square == render_square(canvas),
        square.fits_in(canvas),
{
    let side: usize = if canvas.width <= canvas.height {
        canvas.width
    } else {
        canvas.height
    };
    RenderSize::new(side, side)
}

/// The padding left of and above `inner` that centres it in `outer`: half of
/// what is left over on each axis, rounded down.
pub fn centering_padding(outer: RenderSize, inner: RenderSize) -> (padding: (usize, usize))
    requires
        inner.fits_in(outer),
    ensures
        padding.0 == (outer.width - inner.width) / 2,
        padding.1 == (outer.height - inner.height) / 2,
        padding.0 + inner.width <= outer.width,
        padding.1 + inner.height <= outer.height,
{
    ((outer.width - inner.width) / 2, (outer.height - inner.height) / 2)
}

/// The filled square drawn where no glyph can be shown.
pub struct ToufuShape {
    pub size: RenderSize,
    pub x_padding: usize,
    pub y_padding: usize,
}

impl ToufuShape {
    /// The far corner of the square is a dot that the canvas can address.
    pub open spec fn wf(&self) -> bool {
        dot_is_addressable(self.x_padding + self.size.width, self.y_padding + self.size.height)
    }

    /// The dots of the square.
    pub open spec fn dots(&self) -> Set<(int, int)> {
        placeholder_dots(self.size, self.x_padding as int, self.y_padding as int)
    }

    /// The square lies within the grid of `painter`.
    pub open spec fn fits(&self, painter: tui::widgets::canvas::Painter) -> bool {
        self.x_padding + self.size.width <= grid_columns(painter) && self.y_padding
            + self.size.height <= grid_rows(painter)
    }

    /// The dots set once the columns before `x` are done and the rows before
    /// `y` of column `x`.
    pub open spec fn dots_before(&self, x: int, y: int) -> Set<(int, int)> {
        Set::new(
            |d: (int, int)|
                self.dots().contains(d) && (d.0 < self.x_padding + x || (d.0 == self.x_padding + x
                    && d.1 < self.y_padding + y)),
        )
    }

    /// Sets every dot of the square on the canvas.
    pub fn draw(&self, painter: &mut tui::widgets::canvas::Painter)
        requires
            self.wf(),
        ensures
            grid_columns(*final(painter)) == grid_columns(*old(painter)),
            grid_rows(*final(painter)) == grid_rows(*old(painter)),
            self.fits(*old(painter)) ==> painted_dots(*final(painter)) == painted_dots(
                *old(painter),
            ).union(self.dots()),
    {
        let ghost before = painted_dots(*painter);
        let ghost columns = grid_columns(*painter);
        let ghost rows = grid_rows(*painter);
        let ghost fits = self.fits(*painter);
        let mut x: usize = 0;
        assert(before.union(self.dots_before(0, 0)) =~= before);
        while x < self.size.width
            invariant
                self.wf(),
                x <= self.size.width,
                grid_columns(*painter) == columns,
                grid_rows(*painter) == rows,
                fits == (self.x_padding + self.size.width <= columns && self.y_padding
                    + self.size.height <= rows),
                fits ==> painted_dots(*painter) == before.union(self.dots_before(x as int, 0)),
            decreases self.size.width - x,
        {
            let mut y: usize = 0;
            while y < self.size.height
                invariant
                    self.wf(),
                    x < self.size.width,
                    y <= self.size.height,
                    grid_columns(*painter) == columns,
                    grid_rows(*painter) == rows,
                    fits == (self.x_padding + self.size.width <= columns && self.y_padding
                        + self.size.height <= rows),
                    fits ==> painted_dots(*painter) == before.union(
                        self.dots_before(x as int, y as int),
                    ),
                decreases self.size.height - y,
            {
                assert(dot_is_addressable(x + self.x_padding, y + self.y_padding)) by (nonlinear_arith)
                    requires
                        dot_is_addressable(
                            self.x_padding + self.size.width,
                            self.y_padding + self.size.height,
                        ),
                        0 <= x < self.size.width,
                        0 <= y < self.size.height,
                ;
                paint(painter, x + self.x_padding, y + self.y_padding);
                assert(self.dots_before(x as int, y + 1) =~= self.dots_before(
                    x as int,
                    y as int,
                ).insert((x + self.x_padding, y + self.y_padding)));
                y += 1;
            }
            assert(self.dots_before(x + 1, 0) =~= self.dots_before(
                x as int,
                self.size.height as int,
            ));
            x += 1;
        }
        assert(self.dots_before(self.size.width as int, 0) =~= self.dots());
    }
}

/// A rendered glyph, to be drawn with its corner moved right by `x_padding`
/// and down by `y_padding`.
pub struct CharacterPreviewShape<'a> {
    pub rendered_character: &'a RenderedCharacter,
    pub x_padding: usize,
    pub y_padding: usize,
}

impl<'a> CharacterPreviewShape<'a> {
    /// Whether the grid has a pixel at column `x` of row `y` that is not
    /// fully transparent.
    pub open spec fn covers(&self, x: int, y: int) -> bool {
        &&& 0 <= y < self.rendered_character.bitmap@.len()
        &&& 0 <= x < self.rendered_character.bitmap@[y]@.len()
        &&& self.rendered_character.bitmap@[y]@[x] != 0
    }

    /// Every covered pixel lands on a dot that the canvas can address.
    pub open spec fn wf(&self) -> bool {
        forall|x: int, y: int| #[trigger]
            self.covers(x, y) ==> dot_is_addressable(x + self.x_padding, y + self.y_padding)
    }

    /// The dots of the glyph: one for each covered pixel, moved by the
    /// padding.
    pub open spec fn dots(&self) -> Set<(int, int)> {
        Set::new(|d: (int, int)| self.covers(d.0 - self.x_padding, d.1 - self.y_padding))
    }

    /// Every dot of the glyph lies within the grid of `painter`.
    pub open spec fn fits(&self, painter: tui::widgets::canvas::Painter) -> bool {
        forall|x: int, y: int| #[trigger]
            self.covers(x, y) ==> x + self.x_padding < grid_columns(painter) && y + self.y_padding
                < grid_rows(painter)
    }

    /// The dots set once the rows before `y` are done and the columns before
    /// `x` of row `y`.
    pub open spec fn dots_before(&self, x: int, y: int) -> Set<(int, int)> {
        Set::new(
            |d: (int, int)|
                self.covers(d.0 - self.x_padding, d.1 - self.y_padding) && (d.1 - self.y_padding < y
                    || (d.1 - self.y_padding == y && d.0 - self.x_padding < x)),
        )
    }

    /// Sets one dot on the canvas for each pixel that is not fully
    /// transparent.
    pub fn draw(&self, painter: &mut tui::widgets::canvas::Painter)
        requires
            self.wf(),
        ensures
            grid_columns(*final(painter)) == grid_columns(*old(painter)),
            grid_rows(*final(painter)) == grid_rows(*old(painter)),
            self.fits(*old(painter)) ==> painted_dots(*final(painter)) == painted_dots(
                *old(painter),
            ).union(self.dots()),
    {
        let ghost before = painted_dots(*painter);
        let ghost columns = grid_columns(*painter);
        let ghost rows = grid_rows(*painter);
        let ghost fits = self.fits(*painter);
        let mut y: usize = 0;
        assert(before.union(self.dots_before(0, 0)) =~= before);
        while y < self.rendered_character.bitmap.len()
            invariant
                self.wf(),
                y <= self.rendered_character.bitmap@.len(),
                grid_columns(*painter) == columns,
                grid_rows(*painter) == rows,
                fits ==> (forall|px: int, py: int| #[trigger]
                    self.covers(px, py) ==> px + self.x_padding < columns && py + self.y_padding
                        < rows),
                fits ==> painted_dots(*painter) == before.union(self.dots_before(0, y as int)),
            decreases self.rendered_character.bitmap@.len() - y,
        {
            let row = &self.rendered_character.bitmap[y];
            let mut x: usize = 0;
            while x < row.len()
                invariant
                    self.wf(),
                    y < self.rendered_character.bitmap@.len(),
                    row@ == self.rendered_character.bitmap@[y as int]@,
                    x <= row@.len(),
                    grid_columns(*painter) == columns,
                    grid_rows(*painter) == rows,
                    fits ==> (forall|px: int, py: int| #[trigger]
                        self.covers(px, py) ==> px + self.x_padding < columns && py + self.y_padding
                            < rows),
                    fits ==> painted_dots(*painter) == before.union(
                        self.dots_before(x as int, y as int),
                    ),
                decreases row@.len() - x,
            {
                if row[x] != 0u8 {
                    assert(self.covers(x as int, y as int));
                    assert(y + self.y_padding <= (y + self.y_padding) * 0xffff) by (nonlinear_arith)
                        requires
                            0 <= y + self.y_padding,
                    ;
                    paint(painter, x + self.x_padding, y + self.y_padding);
                    assert(self.dots_before(x + 1, y as int) =~= self.dots_before(
                        x as int,
                        y as int,
                    ).insert((x + self.x_padding, y + self.y_padding)));
                } else {
                    assert(self.dots_before(x + 1, y as int) =~= self.dots_before(
                        x as int,
                        y as int,
                    ));
                }
                x += 1;
            }
            assert(self.dots_before(0, y + 1) =~= self.dots_before(row@.len() as int, y as int));
            y += 1;
        }
        assert(self.dots_before(0, self.rendered_character.bitmap@.len() as int) =~= self.dots());
    }
}

} // verus!
