//! The ways in which a preview can fail.

use vstd::prelude::*;

verus! {

/// Why a preview could not be built, switched or drawn.
#[derive(Debug, Clone, Copy, PartialEq, Eq, Structural)]
pub enum PreviewError {
    /// No font is known to hold a glyph for the character.
    GlyphNotFound { chr: char },
    /// The font file at the selected path could not be opened as a font.
    FontLoadError,
    /// The font could not rasterise the character at the requested size.
    GlyphRenderError,
}

} // verus!
