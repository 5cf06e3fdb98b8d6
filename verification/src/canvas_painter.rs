//! The call into the terminal toolkit's canvas. Nothing here is proved: the
//! contract is taken on trust from the toolkit's source.

use vstd::prelude::*;

verus! {

/// `tui::widgets::canvas::Painter`: the handle through which a shape sets
/// dots on a canvas.
#[verifier::external_type_specification]
#[verifier::external_body]
pub struct ExPainter<'a, 'b>(tui::widgets::canvas::Painter<'a, 'b>);

/// The dots that are set in the grid that the painter paints on, each as its
/// column and its row.
pub uninterp spec fn painted_dots(painter: tui::widgets::canvas::Painter) -> Set<(int, int)>;

/// The number of dot columns in a row of the painter's grid.
pub uninterp spec fn grid_columns(painter: tui::widgets::canvas::Painter) -> int;

/// The number of dot rows for which the painter's grid holds cells.
pub uninterp spec fn grid_rows(painter: tui::widgets::canvas::Painter) -> int;

/// The widest grid that the toolkit can hold, in cells.
pub const MAX_GRID_WIDTH: usize = 0xffff;

/// Whether the toolkit can compute the cell of dot (`x`, `y`) in a machine
/// word, whatever the width of its grid.
pub open spec fn dot_is_addressable(x: int, y: int) -> bool {
    y * MAX_GRID_WIDTH + x <= usize::MAX
}

/// `tui::widgets::canvas::Painter::paint` in the terminal's own colour. The
/// grid keeps its extent. A dot inside the grid is set and no other dot
/// changes; of a dot outside the grid nothing is claimed, since the toolkit
/// may then set a dot of another row. The toolkit finds the cell of a dot as
/// a multiple of its row plus its column; the demand keeps that sum in a
/// machine word.
#[verifier::external_body]
pub(crate) fn paint(painter: &mut tui::widgets::canvas::Painter, x: usize, y: usize)
    requires
        dot_is_addressable(x as int, y as int),
    ensures
        grid_columns(*final(painter)) == grid_columns(*old(painter)),
        grid_rows(*final(painter)) == grid_rows(*old(painter)),
        x < grid_columns(*old(painter)) && y < grid_rows(*old(painter)) ==> painted_dots(
            *final(painter),
        ) == painted_dots(*old(painter)).insert((x as int, y as int)),
{
    painter.paint(x, y, tui::style::Color::Reset)
}

} // verus!
