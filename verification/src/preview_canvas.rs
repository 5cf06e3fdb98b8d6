//! The preview as the terminal shows it: the glyph or its placeholder on the
//! canvas, and the row that names the font and offers the neighbours.

use vstd::prelude::*;
use vstd::string::*;
use crate::canvas::{
    canvas_box, canvas_pixel_size, centering_padding, lacks_room, placeholder_dots,
    render_pixel_size, render_square, CharacterPreviewShape, ToufuShape,
};
use crate::canvas_painter::{
    dot_is_addressable, grid_columns, grid_rows, painted_dots, MAX_GRID_WIDTH,
};
use crate::character_preview::{initial_cursor, CharacterPreview};
use crate::error::PreviewError;
use crate::raster::RenderedCharacter;
use crate::size::RenderSize;
use crate::stateful_vec::{cursor_after_next, cursor_after_previous};

verus! {

/// What the row below the canvas shows.
pub struct FontSelection {
    /// Whether there is a font to name.
    pub available: bool,
    /// Whether the hint for the previous font is shown.
    pub show_previous: bool,
    /// The text in the middle.
    pub label: String,
    /// Whether the hint for the next font is shown.
    pub show_next: bool,
}

/// The dots that a preview sets on a canvas whose pixel box is `canvas`: the
/// glyph centred by its own extent, or, where there is none, the filled
/// render square, centred as well.
pub open spec fn preview_dots(canvas: RenderSize, outcome: Result<RenderedCharacter, PreviewError>) -> Set<
    (int, int),
> {
    match outcome {
        Ok(rendered) => (CharacterPreviewShape {
            rendered_character: &rendered,
            x_padding: ((canvas.width - rendered.glyph_size.width) / 2) as usize,
            y_padding: ((canvas.height - rendered.glyph_size.height) / 2) as usize,
        }).dots(),
        Err(_) => placeholder_dots(
            render_square(canvas),
            (canvas.width - render_square(canvas).width) / 2,
            (canvas.height - render_square(canvas).height) / 2,
        ),
    }
}

/// What a preview sets lies within the pixel box of the canvas.
pub proof fn lemma_preview_dots_within_canvas(
    canvas: RenderSize,
    outcome: Result<RenderedCharacter, PreviewError>,
)
    requires
        outcome matches Ok(rendered) ==> rendered.wf_for(render_square(canvas)),
    ensures
        forall|d: (int, int)| #[trigger]
            preview_dots(canvas, outcome).contains(d) ==> 0 <= d.0 < canvas.width && 0 <= d.1
                < canvas.height,
{
    assert forall|d: (int, int)| #[trigger] preview_dots(canvas, outcome).contains(d) implies 0
        <= d.0 < canvas.width && 0 <= d.1 < canvas.height by {
        match outcome {
            Ok(rendered) => {
                let x_padding = ((canvas.width - rendered.glyph_size.width) / 2) as usize;
                let y_padding = ((canvas.height - rendered.glyph_size.height) / 2) as usize;
                assert(rendered.pixel(d.0 - x_padding, d.1 - y_padding) != 0);
            },
            Err(_) => {},
        }
    }
}

/// Whether every dot of the pixel box `canvas` can be addressed and lies in
/// the grid of `painter`.
pub open spec fn canvas_fits(canvas: RenderSize, painter: tui::widgets::canvas::Painter) -> bool {
    &&& dot_is_addressable(canvas.width as int, canvas.height as int)
    &&& canvas.width <= grid_columns(painter)
    &&& canvas.height <= grid_rows(painter)
}

/// On a machine with words of 64 bits, a painter whose grid is that of the
/// canvas's own cells, two dots wide and four dots tall each, holds the pixel
/// box of the canvas, and every dot of the box can be addressed.
pub proof fn lemma_canvas_box_fits_its_cells(
    painter: tui::widgets::canvas::Painter,
    cells_wide: u16,
    cells_tall: u16,
)
    requires
        !lacks_room(cells_wide, cells_tall),
        grid_columns(painter) == cells_wide * 2,
        grid_rows(painter) == cells_tall * 4,
        usize::MAX >= 0xffff_ffff_ffff_ffff,
    ensures
        canvas_fits(canvas_box(cells_wide, cells_tall), painter),
{
}

/// Draws what came of rendering into the render square of `canvas`: the
/// glyph, or the placeholder where rendering failed. A pixel box whose dots
/// cannot be addressed is left undrawn.
pub fn paint_preview(
    painter: &mut tui::widgets::canvas::Painter,
    canvas: RenderSize,
    outcome: &Result<RenderedCharacter, PreviewError>,
)
    requires
        outcome matches Ok(rendered) ==> rendered.wf_for(render_square(canvas)),
    ensures
        grid_columns(*final(painter)) == grid_columns(*old(painter)),
        grid_rows(*final(painter)) == grid_rows(*old(painter)),
        !dot_is_addressable(canvas.width as int, canvas.height as int) ==> painted_dots(
            *final(painter),
        ) == painted_dots(*old(painter)),
        canvas_fits(canvas, *old(painter)) ==> painted_dots(*final(painter)) == painted_dots(
            *old(painter),
        ).union(preview_dots(canvas, *outcome)),
{
    if canvas.width > usize::MAX - canvas.height || canvas.height > (usize::MAX - canvas.width)
        / MAX_GRID_WIDTH {
        assert(!dot_is_addressable(canvas.width as int, canvas.height as int)) by (nonlinear_arith)
            requires
                canvas.width > usize::MAX - canvas.height || canvas.height > (usize::MAX
                    - canvas.width) / 0xffff,
                canvas.height >= 0,
                canvas.width >= 0,
        ;
        return ;
    }
    assert(dot_is_addressable(canvas.width as int, canvas.height as int)) by (nonlinear_arith)
        requires
            canvas.height <= (usize::MAX - canvas.width) / 0xffff,
            canvas.width <= usize::MAX,
    ;
    let render_size = render_pixel_size(canvas);
    match outcome {
        Ok(rendered_character) => {
            let padding = centering_padding(canvas, rendered_character.glyph_size);
            let shape = CharacterPreviewShape {
                rendered_character,
                x_padding: padding.0,
                y_padding: padding.1,
            };
            assert forall|x: int, y: int| #[trigger] shape.covers(x, y) implies x + shape.x_padding
                < canvas.width && y + shape.y_padding < canvas.height && dot_is_addressable(
                x + shape.x_padding,
                y + shape.y_padding,
            ) by {
                assert(rendered_character.pixel(x, y) != 0);
                assert((y + shape.y_padding) * 0xffff <= canvas.height * 0xffff) by (nonlinear_arith)
                    requires
                        y + shape.y_padding < canvas.height,
                ;
            }
            shape.draw(painter);
        },
        Err(_) => {
            let padding = centering_padding(canvas, render_size);
            let shape = ToufuShape { size: render_size, x_padding: padding.0, y_padding: padding.1 };
            assert(dot_is_addressable(
                shape.x_padding + shape.size.width,
                shape.y_padding + shape.size.height,
            )) by (nonlinear_arith)
                requires
                    shape.x_padding + shape.size.width <= canvas.width,
                    shape.y_padding + shape.size.height <= canvas.height,
                    dot_is_addressable(canvas.width as int, canvas.height as int),
            ;
            shape.draw(painter);
        },
    }
}

/// The preview of one character as a widget holds it: the session, or why
/// there is none.
pub struct CharacterPreviewCanvas {
    character_preview: Result<CharacterPreview, PreviewError>,
}

impl CharacterPreviewCanvas {
    /// The session, or why there is none.
    pub closed spec fn preview(&self) -> Result<CharacterPreview, PreviewError> {
        self.character_preview
    }

    /// The session, where there is one, is well formed.
    pub open spec fn wf(&self) -> bool {
        self.preview() matches Ok(session) ==> session.wf()
    }

    /// A canvas for `chr` over `font_paths`, the fonts known to draw it. It
    /// holds the session where one could be built and the reason where not.
    pub fn new(chr: char, font_paths: Vec<String>, preferred_font_path: Option<&String>) -> (canvas:
        Self)
        ensures
            canvas.wf(),
            font_paths@.len() == 0 ==> canvas.preview() == Err::<CharacterPreview, PreviewError>(
                PreviewError::GlyphNotFound { chr },
            ),
            font_paths@.len() > 0 ==> match canvas.preview() {
                Ok(session) => {
                    &&& session.in_sync()
                    &&& session.character() == chr
                    &&& session.navigator().items() == font_paths@
                    &&& session.navigator().cursor() == initial_cursor(
                        font_paths@,
                        preferred_font_path,
                    )
                },
                Err(e) => e == PreviewError::FontLoadError,
            },
    {
        CharacterPreviewCanvas {
            character_preview: CharacterPreview::new(chr, font_paths, preferred_font_path),
        }
    }

    /// Steps to the previous font. A font that fails to load is passed over
    /// in silence: the cursor stays on it and the glyph shown stays that of
    /// the font loaded before.
    pub fn previous_preview_font(&mut self)
        requires
            old(self).wf(),
        ensures
            final(self).wf(),
            match old(self).preview() {
                Ok(before) => final(self).preview() matches Ok(after) && {
                    &&& after.character() == before.character()
                    &&& after.navigator().items() == before.navigator().items()
                    &&& after.navigator().cursor() == cursor_after_previous(
                        before.navigator().cursor(),
                    )
                    &&& (after.in_sync() || (after.loaded_path() == before.loaded_path()
                        && after.loaded_face() == before.loaded_face()))
                },
                Err(e) => final(self).preview() == old(self).preview(),
            },
    {
        match &mut self.character_preview {
            Ok(character_preview) => {
                let _ = character_preview.select_previous_font();
            },
            Err(_) => {},
        }
    }

    /// Steps to the next font. A font that fails to load is passed over in
    /// silence: the cursor stays on it and the glyph shown stays that of the
    /// font loaded before.
    pub fn next_preview_font(&mut self)
        requires
            old(self).wf(),
        ensures
            final(self).wf(),
            match old(self).preview() {
                Ok(before) => final(self).preview() matches Ok(after) && {
                    &&& after.character() == before.character()
                    &&& after.navigator().items() == before.navigator().items()
                    &&& after.navigator().cursor() == cursor_after_next(
                        before.navigator().items().len(),
                        before.navigator().cursor(),
                    )
                    &&& (after.in_sync() || (after.loaded_path() == before.loaded_path()
                        && after.loaded_face() == before.loaded_face()))
                },
                Err(e) => final(self).preview() == old(self).preview(),
            },
    {
        match &mut self.character_preview {
            Ok(character_preview) => {
                let _ = character_preview.select_next_font();
            },
            Err(_) => {},
        }
    }

    /// What the row below the canvas shows: the font's display name between
    /// the hints for the neighbours that exist, or, without a session, the
    /// notice that there is no preview.
    pub fn font_selection(&self) -> (row: FontSelection)
        requires
            self.wf(),
        ensures
            match self.preview() {
                Ok(session) => {
                    &&& row.available
                    &&& row.show_previous == (session.navigator().cursor() != Some(0usize))
                    &&& row.show_next == (session.navigator().cursor().unwrap() + 1
                        != session.navigator().items().len())
                    &&& row.label@ == session.display_name()
                },
                Err(_) => !row.available && !row.show_previous && !row.show_next && row.label@
                    == "Preview Not Available"@,
            },
    {
        match &self.character_preview {
            Ok(character_preview) => FontSelection {
                available: true,
                show_previous: character_preview.has_previous_font(),
                label: character_preview.get_current_font_display_name(),
                show_next: character_preview.has_next_font(),
            },
            Err(_) => FontSelection {
                available: false,
                show_previous: false,
                label: String::from_str("Preview Not Available"),
                show_next: false,
            },
        }
    }

    /// Draws the preview on a canvas of `cells_wide` by `cells_tall` cells:
    /// the glyph of the loaded font, rendered into the largest square that
    /// the pixel box allows and centred, or the placeholder where there is
    /// no session or the font cannot render the character. A canvas smaller
    /// than the padding is left empty.
    pub fn draw_character_preview(
        &self,
        painter: &mut tui::widgets::canvas::Painter,
        cells_wide: u16,
        cells_tall: u16,
    )
        requires
            self.wf(),
        ensures
            grid_columns(*final(painter)) == grid_columns(*old(painter)),
            grid_rows(*final(painter)) == grid_rows(*old(painter)),
            lacks_room(cells_wide, cells_tall) ==> painted_dots(*final(painter))
                == painted_dots(*old(painter)),
            !lacks_room(cells_wide, cells_tall) && self.preview().is_err() && canvas_fits(
                canvas_box(cells_wide, cells_tall),
                *old(painter),
            ) ==> painted_dots(*final(painter)) == painted_dots(*old(painter)).union(
                placeholder_dots(
                    render_square(canvas_box(cells_wide, cells_tall)),
                    (canvas_box(cells_wide, cells_tall).width - render_square(
                        canvas_box(cells_wide, cells_tall),
                    ).width) / 2,
                    (canvas_box(cells_wide, cells_tall).height - render_square(
                        canvas_box(cells_wide, cells_tall),
                    ).height) / 2,
                ),
            ),
            !lacks_room(cells_wide, cells_tall) && canvas_fits(
                canvas_box(cells_wide, cells_tall),
                *old(painter),
            ) ==> exists|outcome: Result<RenderedCharacter, PreviewError>|
                {
                    &&& outcome matches Ok(rendered) ==> self.preview().is_ok() && rendered.wf_for(
                        render_square(canvas_box(cells_wide, cells_tall)),
                    )
                    &&& painted_dots(*final(painter)) == painted_dots(*old(painter)).union(
                        #[trigger] preview_dots(canvas_box(cells_wide, cells_tall), outcome),
                    )
                },
    {
        let canvas = match canvas_pixel_size(cells_wide, cells_tall) {
            Some(canvas) => canvas,
            None => { return ; },
        };
        let render_size = render_pixel_size(canvas);
        let outcome = match &self.character_preview {
            Ok(character_preview) => character_preview.render(render_size),
            Err(e) => Err(*e),
        };
        paint_preview(painter, canvas, &outcome);
    }
}

} // verus!
