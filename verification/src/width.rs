//! The rule that turns what a terminal reports into a line width.

use vstd::prelude::*;

verus! {

/// Default number of columns in a line.
///
/// This is the width of a stream that does not refer to a terminal, or whose
/// terminal reports no usable width.
pub const DEFAULT_LINE_WIDTH: u16 = 80;

/// The line width that follows from the answer `query` of a terminal to the
/// question of its size, given as columns and rows: the columns where the
/// terminal reports any, and [`DEFAULT_LINE_WIDTH`] where it reports zero
/// columns or nothing at all.
pub open spec fn chosen_width(query: Option<(u16, u16)>) -> u16 {
    match query {
        Some((columns, _)) => if columns > 0 {
            columns
        } else {
            DEFAULT_LINE_WIDTH
        },
        None => DEFAULT_LINE_WIDTH,
    }
}

/// Returns the line width that follows from the answer `query` of a terminal.
///
/// The rows play no part, and the result is never zero.
pub fn choose_width(query: Option<(u16, u16)>) -> (width: u16)
    ensures
        width == chosen_width(query),
        width >= 1,
{
    match query {
        Some((columns, _)) => {
            if columns != 0 {
                columns
            } else {
                DEFAULT_LINE_WIDTH
            }
        },
        None => DEFAULT_LINE_WIDTH,
    }
}

} // verus!
