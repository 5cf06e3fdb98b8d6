//! The pixel grid of one rendered character, and the clipping copy that
//! fills it from a font backend's coverage buffer.

use vstd::prelude::*;
use crate::error::PreviewError;
use crate::size::RenderSize;

verus! {

/// A grid of coverage bytes, row by row, and the extent of the glyph in it.
#[derive(Debug)]
pub struct RenderedCharacter {
    pub bitmap: Vec<Vec<u8>>,
    pub glyph_size: RenderSize,
}

impl RenderedCharacter {
    /// The grid has `size.height` rows of `size.width` bytes each.
    pub open spec fn has_size(&self, size: RenderSize) -> bool {
        &&& self.bitmap@.len() == size.height
        &&& forall|y: int| 0 <= y < self.bitmap@.len() ==> (#[trigger] self.bitmap@[y])@.len() == size.width
    }

    /// The coverage at column `x` of row `y`.
    pub open spec fn pixel(&self, x: int, y: int) -> u8 {
        self.bitmap@[y]@[x]
    }

    /// The grid was allocated for `size`, the glyph lies within it, and
    /// every pixel outside the glyph's extent is transparent.
    pub open spec fn wf_for(&self, size: RenderSize) -> bool {
        &&& self.has_size(size)
        &&& self.glyph_size.fits_in(size)
        &&& forall|x: int, y: int|
            0 <= x < size.width && 0 <= y < size.height && !(x < self.glyph_size.width && y
                < self.glyph_size.height) ==> #[trigger] self.pixel(x, y) == 0
    }
}

/// The smaller of a requested extent and what the backend produced, on one
/// axis.
pub open spec fn clipped_extent(requested: usize, produced: int) -> usize {
    if produced < requested {
        produced as usize
    } else {
        requested
    }
}

/// Whether a coverage buffer can be read top down as `rows` rows of `width`
/// pixels, one byte each, that lie `pitch` bytes apart.
pub open spec fn coverage_is_readable(buffer: Seq<u8>, width: int, rows: int, pitch: int) -> bool {
    0 <= width <= pitch && 0 <= rows && pitch * rows <= buffer.len()
}

/// The extent of the glyph once a `width` by `rows` bitmap has been clipped
/// to `size`.
pub open spec fn clipped_size(width: int, rows: int, size: RenderSize) -> RenderSize {
    RenderSize { width: clipped_extent(size.width, width), height: clipped_extent(size.height, rows) }
}

/// The byte that the clipped copy holds at column `x` of row `y`: the
/// buffer's byte for that pixel inside the glyph's extent, zero outside.
pub open spec fn clipped_pixel(buffer: Seq<u8>, pitch: int, glyph: RenderSize, x: int, y: int) -> u8 {
    if x < glyph.width && y < glyph.height {
        buffer[y * pitch + x]
    } else {
        0
    }
}

impl RenderedCharacter {
    /// This grid is the copy, clipped to `size`, of the bitmap that `buffer`
    /// holds as `rows` rows of `width` pixels, `pitch` bytes apart.
    pub open spec fn is_clip_of(
        &self,
        buffer: Seq<u8>,
        width: int,
        rows: int,
        pitch: int,
        size: RenderSize,
    ) -> bool {
        &&& self.wf_for(size)
        &&& self.glyph_size == clipped_size(width, rows, size)
        &&& forall|x: int, y: int|
            0 <= x < size.width && 0 <= y < size.height ==> #[trigger] self.pixel(x, y)
                == clipped_pixel(buffer, pitch, self.glyph_size, x, y)
    }
}

proof fn lemma_pixel_index_in_buffer(len: int, pitch: int, rows: int, x: int, y: int)
    requires
        0 <= x < pitch,
        0 <= y < rows,
        pitch * rows <= len,
    ensures
        0 <= y * pitch <= y * pitch + x < len,
{
    assert(y * pitch + x < pitch * rows) by (nonlinear_arith)
        requires
            0 <= x < pitch,
            0 <= y < rows,
    ;
    assert(0 <= y * pitch) by (nonlinear_arith)
        requires
            0 <= y,
            0 <= pitch,
    ;
}

fn min_extent(requested: usize, produced: i32) -> (extent: usize)
    requires
        produced >= 0,
    ensures
        extent == clipped_extent(requested, produced as int),
        extent <= requested,
        extent <= produced,
{
    let produced_len: usize = produced as usize;
    if produced_len < requested {
        produced_len
    } else {
        requested
    }
}

/// Copies a coverage buffer of `rows` rows of `width` bytes, `pitch` bytes
/// apart, into a new grid of extent `size`, keeping what lies within both. A
/// buffer that cannot be read as such a bitmap is refused.
pub fn clip_coverage(buffer: &[u8], width: i32, rows: i32, pitch: i32, size: RenderSize) -> (result:
    Result<RenderedCharacter, PreviewError>)
    ensures
        !coverage_is_readable(buffer@, width as int, rows as int, pitch as int) ==> result == Err::<
            RenderedCharacter,
            PreviewError,
        >(PreviewError::GlyphRenderError),
        coverage_is_readable(buffer@, width as int, rows as int, pitch as int) ==> result.is_ok()
            && result.unwrap().is_clip_of(buffer@, width as int, rows as int, pitch as int, size),
{
    if width < 0 || rows < 0 || pitch < width {
        return Err(PreviewError::GlyphRenderError);
    }
    assert(pitch * rows <= 0x7fff_ffff * 0x7fff_ffff) by (nonlinear_arith)
        requires
            0 <= pitch <= 0x7fff_ffff,
            0 <= rows <= 0x7fff_ffff,
    ;
    let needed: u64 = (pitch as u64) * (rows as u64);
    if needed > buffer.len() as u64 {
        return Err(PreviewError::GlyphRenderError);
    }
    let stride: usize = pitch as usize;
    let x_max = min_extent(size.width, width);
    let y_max = min_extent(size.height, rows);
    let glyph_size = RenderSize::new(x_max, y_max);
    let mut bitmap: Vec<Vec<u8>> = Vec::new();
    let mut y: usize = 0;
    while y < size.height
        invariant
            y <= size.height,
            stride == pitch,
            buffer@.len() <= usize::MAX,
            coverage_is_readable(buffer@, width as int, rows as int, pitch as int),
            x_max <= width,
            y_max <= rows,
            glyph_size.width == x_max,
            glyph_size.height == y_max,
            bitmap@.len() == y,
            forall|r: int| 0 <= r < y ==> (#[trigger] bitmap@[r])@.len() == size.width,
            forall|c: int, r: int|
                0 <= c < size.width && 0 <= r < y ==> #[trigger] bitmap@[r]@[c] == clipped_pixel(
                    buffer@,
                    pitch as int,
                    glyph_size,
                    c,
                    r,
                ),
        decreases size.height - y,
    {
        let mut row: Vec<u8> = Vec::new();
        let mut x: usize = 0;
        while x < size.width
            invariant
                x <= size.width,
                y < size.height,
                stride == pitch,
                buffer@.len() <= usize::MAX,
                coverage_is_readable(buffer@, width as int, rows as int, pitch as int),
                x_max <= width,
                y_max <= rows,
                glyph_size.width == x_max,
                glyph_size.height == y_max,
                row@.len() == x,
                forall|c: int|
                    0 <= c < x ==> #[trigger] row@[c] == clipped_pixel(
                        buffer@,
                        pitch as int,
                        glyph_size,
                        c,
                        y as int,
                    ),
            decreases size.width - x,
        {
            let mut value: u8 = 0;
            if x < x_max && y < y_max {
                proof {
                    lemma_pixel_index_in_buffer(
                        buffer@.len() as int,
                        pitch as int,
                        rows as int,
                        x as int,
                        y as int,
                    );
                }
                value = buffer[y * stride + x];
            }
            row.push(value);
            x += 1;
        }
        bitmap.push(row);
        y += 1;
    }
    let rendered = RenderedCharacter { bitmap, glyph_size };
    proof {
        assert forall|c: int, r: int|
            0 <= c < size.width && 0 <= r < size.height implies #[trigger] rendered.pixel(c, r)
            == clipped_pixel(buffer@, pitch as int, rendered.glyph_size, c, r) by {
            assert(rendered.bitmap@[r]@[c] == clipped_pixel(buffer@, pitch as int, glyph_size, c, r));
        }
    }
    Ok(rendered)
}

} // verus!
