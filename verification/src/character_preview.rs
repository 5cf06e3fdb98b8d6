//! The preview of one character: a cursor over the fonts that can draw it,
//! and the font under the cursor, loaded and ready to rasterise.

use vstd::prelude::*;
use vstd::string::*;
use crate::error::PreviewError;
use crate::font_backend::{
    bitmap_buffer, bitmap_bytes, bitmap_pitch, bitmap_pitch_of, bitmap_rows, bitmap_rows_of,
    bitmap_width, bitmap_width_of, face_family, face_style, family_name, glyph_bitmap,
    init_library, load_rendered_char, open_face, set_pixel_sizes, style_name,
};
use crate::raster::{clip_coverage, coverage_is_readable, RenderedCharacter};
use crate::size::RenderSize;
use crate::stateful_vec::{
    cursor_after_next, cursor_after_previous, cursor_after_search, has_match,
    lemma_search_finds_target, StatefulVec,
};

verus! {

/// The widest and tallest extent that the font backend can be asked for.
pub const MAX_PIXEL_EXTENT: usize = 0xffff_ffff;

/// The largest bitmap, in bytes, that the font backend can hand over.
pub const MAX_BITMAP_BYTES: u64 = 0x7fff_ffff;

/// The cursor that a new preview starts with: on the preferred path where
/// the candidates hold it, on the first candidate otherwise.
pub open spec fn initial_cursor(candidates: Seq<String>, preferred: Option<&String>) -> Option<
    usize,
> {
    match preferred {
        Some(path) => cursor_after_search(candidates, Some(0usize), path@),
        None => Some(0usize),
    }
}

/// The name shown for a font: family and style, joined by a dash, with a
/// fixed text in place of each that the font does not give.
pub open spec fn display_name_of(family: Option<String>, style: Option<String>) -> Seq<char> {
    let family_part = match family {
        Some(name) => name@,
        None => "Unknown Family"@,
    };
    let style_part = match style {
        Some(name) => name@,
        None => "Unknown Style"@,
    };
    family_part + " - "@ + style_part
}

/// A preview starts on the preferred font where the candidates hold it, and
/// on the first candidate otherwise.
pub proof fn lemma_initial_cursor_prefers(candidates: Seq<String>, preferred: Option<&String>)
    requires
        0 < candidates.len() <= usize::MAX,
    ensures
        initial_cursor(candidates, preferred) matches Some(i) && i < candidates.len() && (
        match preferred {
            Some(path) if has_match(candidates, path@) => candidates[i as int]@ == path@,
            _ => i == 0,
        }),
{
    if let Some(path) = preferred {
        lemma_search_finds_target(candidates, Some(0usize), path@);
    }
}

/// Builds the cursor over the candidate fonts of `chr`. A character without
/// candidates has no preview.
pub fn select_initial_font(
    chr: char,
    font_paths: Vec<String>,
    preferred_font_path: Option<&String>,
) -> (result: Result<StatefulVec<String>, PreviewError>)
    ensures
        font_paths@.len() == 0 ==> result == Err::<StatefulVec<String>, PreviewError>(
            PreviewError::GlyphNotFound { chr },
        ),
        font_paths@.len() > 0 ==> result.is_ok() && ({
            let nav = result.unwrap();
            &&& nav.wf()
            &&& nav.items() == font_paths@
            &&& nav.cursor().is_some()
            &&& nav.cursor() == initial_cursor(font_paths@, preferred_font_path)
        }),
{
    if font_paths.len() == 0 {
        return Err(PreviewError::GlyphNotFound { chr });
    }
    let mut nav = StatefulVec::new(font_paths, Some(0));
    if let Some(font_path) = preferred_font_path {
        nav.select_if_found(font_path);
    }
    Ok(nav)
}

/// Joins what a font reports of its family and style into one display name.
pub fn format_display_name(family: Option<String>, style: Option<String>) -> (name: String)
    ensures
        name@ == display_name_of(family, style),
{
    let mut name = match family {
        Some(family_name) => family_name,
        None => String::from_str("Unknown Family"),
    };
    name.append(" - ");
    match style {
        Some(style_name) => name.append(style_name.as_str()),
        None => name.append("Unknown Style"),
    }
    name
}

/// One character, the fonts that can draw it, and the font that is loaded.
pub struct CharacterPreview {
    pub chr: char,
    paths_for_matching_fonts: StatefulVec<String>,
    library: freetype::Library,
    current_font: freetype::Face,
    loaded_from: Ghost<Seq<char>>,
}

impl CharacterPreview {
    /// The character that is previewed.
    pub closed spec fn character(&self) -> char {
        self.chr
    }

    /// The cursor over the candidate font paths.
    pub closed spec fn navigator(&self) -> StatefulVec<String> {
        self.paths_for_matching_fonts
    }

    /// The face now loaded.
    pub closed spec fn loaded_face(&self) -> freetype::Face {
        self.current_font
    }

    /// The name that the row below the canvas shows for the loaded face.
    pub open spec fn display_name(&self) -> Seq<char> {
        display_name_of(face_family(self.loaded_face()), face_style(self.loaded_face()))
    }

    /// The path that was handed to the backend for the face now loaded.
    pub closed spec fn loaded_path(&self) -> Seq<char> {
        self.loaded_from@
    }

    /// The candidate list is not empty and the cursor is on one of them.
    pub open spec fn wf(&self) -> bool {
        self.navigator().wf() && self.navigator().cursor().is_some()
    }

    /// The path under the cursor.
    pub open spec fn current_path(&self) -> Seq<char> {
        self.navigator().items()[self.navigator().cursor().unwrap() as int]@
    }

    /// The loaded face is that of the path under the cursor.
    pub open spec fn in_sync(&self) -> bool {
        self.loaded_path() == self.current_path()
    }

    /// What a successful step back makes of `before`: the same character
    /// and candidates, the cursor one back, and the face of the path under
    /// it; at the first font, the face that was loaded.
    pub open spec fn stepped_back_from(&self, before: CharacterPreview) -> bool {
        &&& self.character() == before.character()
        &&& self.navigator().items() == before.navigator().items()
        &&& self.navigator().cursor() == cursor_after_previous(before.navigator().cursor())
        &&& if self.navigator().cursor() == before.navigator().cursor() {
            self.loaded_path() == before.loaded_path() && self.loaded_face() == before.loaded_face()
        } else {
            self.in_sync()
        }
    }

    /// What a successful step forward makes of `before`: the same character
    /// and candidates, the cursor one on, and the face of the path under it;
    /// at the last font, the face that was loaded.
    pub open spec fn stepped_forward_from(&self, before: CharacterPreview) -> bool {
        &&& self.character() == before.character()
        &&& self.navigator().items() == before.navigator().items()
        &&& self.navigator().cursor() == cursor_after_next(
            before.navigator().items().len(),
            before.navigator().cursor(),
        )
        &&& if self.navigator().cursor() == before.navigator().cursor() {
            self.loaded_path() == before.loaded_path() && self.loaded_face() == before.loaded_face()
        } else {
            self.in_sync()
        }
    }

    /// A preview of `chr` over `font_paths`, the fonts known to draw it in
    /// the matcher's order, starting at `preferred_font_path` where the list
    /// holds it and at the first font otherwise. The first sub-font of the
    /// selected file is loaded.
    pub fn new(chr: char, font_paths: Vec<String>, preferred_font_path: Option<&String>) -> (result:
        Result<CharacterPreview, PreviewError>)
        ensures
            font_paths@.len() == 0 ==> (result matches Err(e) && e == (PreviewError::GlyphNotFound {
                chr,
            })),
            font_paths@.len() > 0 ==> match result {
                Ok(preview) => {
                    &&& preview.wf()
                    &&& preview.in_sync()
                    &&& preview.character() == chr
                    &&& preview.navigator().items() == font_paths@
                    &&& preview.navigator().cursor() == initial_cursor(
                        font_paths@,
                        preferred_font_path,
                    )
                },
                Err(e) => e == PreviewError::FontLoadError,
            },
    {
        let paths_for_matching_fonts = match select_initial_font(chr, font_paths, preferred_font_path) {
            Ok(nav) => nav,
            Err(e) => { return Err(e); },
        };
        let library = match init_library() {
            Ok(library) => library,
            Err(_) => { return Err(PreviewError::FontLoadError); },
        };
        let loaded = match paths_for_matching_fonts.current_item() {
            Some(path) => (open_face(&library, path.as_str(), 0), Ghost(path@)),
            None => { return Err(PreviewError::GlyphNotFound { chr }); },
        };
        match loaded.0 {
            Ok(current_font) => Ok(
                CharacterPreview {
                    chr,
                    paths_for_matching_fonts,
                    library,
                    current_font,
                    loaded_from: loaded.1,
                },
            ),
            Err(_) => Err(PreviewError::FontLoadError),
        }
    }

    /// The character that is previewed.
    pub fn chr(&self) -> (c: char)
        ensures
            c == self.character(),
    {
        self.chr
    }

    /// The path of the font under the cursor.
    pub fn get_current_font_path(&self) -> (path: Option<String>)
        requires
            self.wf(),
        ensures
            path.is_some(),
            path.unwrap()@ == self.current_path(),
    {
        match self.paths_for_matching_fonts.current_item() {
            Some(current_font_path) => Some(current_font_path.clone()),
            None => None,
        }
    }

    /// Whether a font stands before the current one.
    pub fn has_previous_font(&self) -> (yes: bool)
        ensures
            yes == (self.navigator().cursor().is_some() && self.navigator().cursor() != Some(0usize)),
    {
        self.paths_for_matching_fonts.has_previous()
    }

    /// Whether a font stands after the current one.
    pub fn has_next_font(&self) -> (yes: bool)
        ensures
            yes == (self.navigator().cursor().is_some() && self.navigator().cursor().unwrap() + 1
                < self.navigator().items().len()),
    {
        self.paths_for_matching_fonts.has_next()
    }

    /// Loads the font under the cursor in place of the one held. Where the
    /// backend refuses the file, the face held before stays.
    fn reload(&mut self) -> (result: Result<(), PreviewError>)
        requires
            old(self).wf(),
        ensures
            final(self).character() == old(self).character(),
            final(self).navigator() == old(self).navigator(),
            match result {
                Ok(_) => final(self).in_sync(),
                Err(e) => e == PreviewError::FontLoadError && final(self).loaded_path() == old(
                    self).loaded_path() && final(self).loaded_face() == old(self).loaded_face(),
            },
    {
        let loaded = match self.paths_for_matching_fonts.current_item() {
            Some(path) => (open_face(&self.library, path.as_str(), 0), Ghost(path@)),
            None => { return Err(PreviewError::FontLoadError); },
        };
        match loaded.0 {
            Ok(face) => {
                self.current_font = face;
                self.loaded_from = loaded.1;
                Ok(())
            },
            Err(_) => Err(PreviewError::FontLoadError),
        }
    }

    /// Steps to the font before the current one and loads it. At the first
    /// font nothing happens. Where the font stepped to cannot be loaded, the
    /// cursor stays on it and the face held before stays loaded.
    pub fn select_previous_font(&mut self) -> (result: Result<(), PreviewError>)
        requires
            old(self).wf(),
        ensures
            final(self).wf(),
            final(self).character() == old(self).character(),
            final(self).navigator().items() == old(self).navigator().items(),
            final(self).navigator().cursor() == cursor_after_previous(
                old(self).navigator().cursor(),
            ),
            old(self).navigator().cursor() == Some(0usize) ==> result.is_ok(),
            result.is_ok() ==> final(self).stepped_back_from(*old(self)),
            result matches Err(e) ==> e == PreviewError::FontLoadError && final(self).loaded_path()
                == old(self).loaded_path() && final(self).loaded_face() == old(self).loaded_face(),
    {
        if !self.paths_for_matching_fonts.has_previous() {
            return Ok(());
        }
        self.paths_for_matching_fonts.select_previous();
        self.reload()
    }

    /// Steps to the font after the current one and loads it. At the last
    /// font nothing happens. Where the font stepped to cannot be loaded, the
    /// cursor stays on it and the face held before stays loaded.
    pub fn select_next_font(&mut self) -> (result: Result<(), PreviewError>)
        requires
            old(self).wf(),
        ensures
            final(self).wf(),
            final(self).character() == old(self).character(),
            final(self).navigator().items() == old(self).navigator().items(),
            final(self).navigator().cursor() == cursor_after_next(
                old(self).navigator().items().len(),
                old(self).navigator().cursor(),
            ),
            old(self).navigator().cursor().unwrap() + 1 == old(self).navigator().items().len()
                ==> result.is_ok(),
            result.is_ok() ==> final(self).stepped_forward_from(*old(self)),
            result matches Err(e) ==> e == PreviewError::FontLoadError && final(self).loaded_path()
                == old(self).loaded_path() && final(self).loaded_face() == old(self).loaded_face(),
    {
        if !self.paths_for_matching_fonts.has_next() {
            return Ok(());
        }
        self.paths_for_matching_fonts.select_next();
        self.reload()
    }

    /// The display name of the loaded font: what the loaded face reports of
    /// its family and its style, joined by `format_display_name`.
    pub fn get_current_font_display_name(&self) -> (name: String)
        ensures
            name@ == self.display_name(),
    {
        let family = family_name(&self.current_font);
        let style = style_name(&self.current_font);
        format_display_name(family, style)
    }

    /// Rasterises the character with the loaded font into a new grid of
    /// extent `size`. The grid is the clipped copy of a bitmap that the
    /// backend handed over: inside the glyph's extent each byte is the
    /// bitmap's byte for that pixel, found by the bitmap's row pitch. A
    /// bitmap that is stored bottom up, that is narrower in bytes than in
    /// pixels, or that is too large for the backend to hand over, is refused.
    pub fn render(&self, size: RenderSize) -> (result: Result<RenderedCharacter, PreviewError>)
        ensures
            match result {
                Ok(rendered) => {
                    &&& rendered.wf_for(size)
                    &&& size.width <= MAX_PIXEL_EXTENT
                    &&& size.height <= MAX_PIXEL_EXTENT
                    &&& exists|bitmap: freetype::Bitmap|
                        {
                            &&& coverage_is_readable(
                                #[trigger] bitmap_bytes(bitmap),
                                bitmap_width_of(bitmap),
                                bitmap_rows_of(bitmap),
                                bitmap_pitch_of(bitmap),
                            )
                            &&& rendered.is_clip_of(
                                bitmap_bytes(bitmap),
                                bitmap_width_of(bitmap),
                                bitmap_rows_of(bitmap),
                                bitmap_pitch_of(bitmap),
                                size,
                            )
                        }
                },
                Err(e) => e == PreviewError::GlyphRenderError,
            },
    {
        if size.width > MAX_PIXEL_EXTENT || size.height > MAX_PIXEL_EXTENT {
            return Err(PreviewError::GlyphRenderError);
        }
        if set_pixel_sizes(&self.current_font, size.width as u32, size.height as u32).is_err() {
            return Err(PreviewError::GlyphRenderError);
        }
        let code: u32 = self.chr as u32;
        if load_rendered_char(&self.current_font, code as usize).is_err() {
            return Err(PreviewError::GlyphRenderError);
        }
        let bitmap = glyph_bitmap(&self.current_font);
        let width = bitmap_width(&bitmap);
        let rows = bitmap_rows(&bitmap);
        let pitch = bitmap_pitch(&bitmap);
        if rows < 0 || pitch < 0 {
            return Err(PreviewError::GlyphRenderError);
        }
        assert(pitch * rows <= 0x7fff_ffff * 0x7fff_ffff) by (nonlinear_arith)
            requires
                0 <= pitch <= 0x7fff_ffff,
                0 <= rows <= 0x7fff_ffff,
        ;
        let span: u64 = (pitch as u64) * (rows as u64);
        if span > MAX_BITMAP_BYTES {
            return Err(PreviewError::GlyphRenderError);
        }
        let buffer = bitmap_buffer(&bitmap);
        clip_coverage(buffer.as_slice(), width, rows, pitch, size)
    }
}

/// A successful step back from any font but the first, followed by a
/// successful step forward, returns to the font it started from: the cursor
/// is where it was, and the face is again loaded from the same path.
pub proof fn lemma_back_and_forth_restores_font(
    start: CharacterPreview,
    middle: CharacterPreview,
    end: CharacterPreview,
)
    requires
        start.wf(),
        start.in_sync(),
        start.navigator().cursor() != Some(0usize),
        middle.stepped_back_from(start),
        end.stepped_forward_from(middle),
    ensures
        end.navigator().cursor() == start.navigator().cursor(),
        end.loaded_path() == start.loaded_path(),
        end.in_sync(),
{
}

} // verus!
