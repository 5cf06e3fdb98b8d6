//! The calls into the FreeType binding. Nothing here is proved: each
//! contract is taken on trust from the binding's source.

use vstd::prelude::*;

verus! {

/// `freetype::Library`: one session of the font backend.
#[verifier::external_type_specification]
#[verifier::external_body]
pub struct ExLibrary(freetype::Library);

/// `freetype::Face`: one font opened in a session.
#[verifier::external_type_specification]
#[verifier::external_body]
#[verifier::reject_recursive_types(BYTES)]
pub struct ExFace<BYTES>(freetype::Face<BYTES>);

/// `freetype::Bitmap`: a handle on the bitmap in a face's glyph slot.
#[verifier::external_type_specification]
#[verifier::external_body]
pub struct ExBitmap(freetype::Bitmap);

/// `freetype::Error`: what the backend reports when a call fails.
#[verifier::external_type_specification]
#[verifier::external_body]
pub struct ExBackendError(freetype::Error);

/// `freetype::Library::init`: a new backend session, or the backend's error.
/// Nothing is claimed of which of the two comes back.
#[verifier::external_body]
pub(crate) fn init_library() -> (session: core::result::Result<freetype::Library, freetype::Error>) {
    freetype::Library::init()
}

/// `freetype::Library::new_face`: opens sub-font `face_index` of the file at
/// `path`. The outcome depends on what the file holds, so nothing is claimed
/// of it.
#[verifier::external_body]
pub(crate) fn open_face(library: &freetype::Library, path: &str, face_index: isize) -> (face:
    core::result::Result<freetype::Face, freetype::Error>) {
    library.new_face(path, face_index)
}

/// `freetype::Face::set_pixel_sizes`: asks the face for glyphs of the given
/// pixel extent. Nothing is claimed of whether the face accepts it.
#[verifier::external_body]
pub(crate) fn set_pixel_sizes(face: &freetype::Face, pixel_width: u32, pixel_height: u32) -> (done:
    core::result::Result<(), freetype::Error>) {
    face.set_pixel_sizes(pixel_width, pixel_height)
}

/// `freetype::Face::load_char` with the flag that asks for a rendered
/// bitmap. Nothing is claimed of whether the face holds the character.
#[verifier::external_body]
pub(crate) fn load_rendered_char(face: &freetype::Face, char_code: usize) -> (done:
    core::result::Result<(), freetype::Error>) {
    face.load_char(char_code, freetype::face::LoadFlag::RENDER)
}

/// `freetype::GlyphSlot::bitmap` on the face's glyph slot: a handle on the
/// bitmap of the glyph loaded last.
#[verifier::external_body]
pub(crate) fn glyph_bitmap(face: &freetype::Face) -> (bitmap: freetype::Bitmap) {
    face.glyph().bitmap()
}

/// The number of pixels in a row of the bitmap behind the handle, read
/// before the face loads another glyph.
pub uninterp spec fn bitmap_width_of(bitmap: freetype::Bitmap) -> int;

/// The number of rows of the bitmap behind the handle, read before the face
/// loads another glyph.
pub uninterp spec fn bitmap_rows_of(bitmap: freetype::Bitmap) -> int;

/// The offset in bytes from one row of the bitmap behind the handle to the
/// row below it, read before the face loads another glyph.
pub uninterp spec fn bitmap_pitch_of(bitmap: freetype::Bitmap) -> int;

/// The bytes of the bitmap behind the handle, read before the face loads
/// another glyph.
pub uninterp spec fn bitmap_bytes(bitmap: freetype::Bitmap) -> Seq<u8>;

/// The family that a loaded face reports, if it reports one in valid UTF-8.
pub uninterp spec fn face_family(face: freetype::Face) -> Option<String>;

/// The style that a loaded face reports, if it reports one in valid UTF-8.
pub uninterp spec fn face_style(face: freetype::Face) -> Option<String>;

/// The number of bytes in `rows` rows that lie `pitch` bytes apart, in
/// either direction.
pub open spec fn bitmap_span(pitch: int, rows: int) -> int {
    if pitch < 0 {
        -pitch * rows
    } else {
        pitch * rows
    }
}

/// `freetype::Bitmap::width`: the number of pixels in a row, as the backend
/// reports it.
#[verifier::external_body]
pub(crate) fn bitmap_width(bitmap: &freetype::Bitmap) -> (width: i32)
    ensures
        width == bitmap_width_of(*bitmap),
{
    bitmap.width()
}

/// `freetype::Bitmap::rows`: the number of rows, as the backend reports it.
#[verifier::external_body]
pub(crate) fn bitmap_rows(bitmap: &freetype::Bitmap) -> (rows: i32)
    ensures
        rows == bitmap_rows_of(*bitmap),
{
    bitmap.rows()
}

/// `freetype::Bitmap::pitch`: the offset from one row to the next, as the
/// backend reports it; negative where the rows are stored bottom up.
#[verifier::external_body]
pub(crate) fn bitmap_pitch(bitmap: &freetype::Bitmap) -> (pitch: i32)
    ensures
        pitch == bitmap_pitch_of(*bitmap),
{
    bitmap.pitch()
}

/// `freetype::Bitmap::buffer`: a copy of the bitmap's bytes. The binding
/// takes the absolute pitch times the row count, in 32 bits, as the length;
/// the demand keeps that product in range, and the copy has that length.
#[verifier::external_body]
pub(crate) fn bitmap_buffer(bitmap: &freetype::Bitmap) -> (buffer: Vec<u8>)
    requires
        bitmap_pitch_of(*bitmap) > i32::MIN,
        0 <= bitmap_span(bitmap_pitch_of(*bitmap), bitmap_rows_of(*bitmap)) <= i32::MAX,
    ensures
        buffer@ == bitmap_bytes(*bitmap),
        buffer@.len() == bitmap_span(bitmap_pitch_of(*bitmap), bitmap_rows_of(*bitmap)),
{
    bitmap.buffer().to_vec()
}

/// `freetype::Face::family_name`: the family that the face reports, if it
/// reports one in valid UTF-8. The binding reads it from the loaded face and
/// from nothing else.
#[verifier::external_body]
pub(crate) fn family_name(face: &freetype::Face) -> (name: Option<String>)
    ensures
        name == face_family(*face),
{
    face.family_name()
}

/// `freetype::Face::style_name`: the style that the face reports, if it
/// reports one in valid UTF-8. The binding reads it from the loaded face and
/// from nothing else.
#[verifier::external_body]
pub(crate) fn style_name(face: &freetype::Face) -> (name: Option<String>)
    ensures
        name == face_style(*face),
{
    face.style_name()
}

} // verus!
