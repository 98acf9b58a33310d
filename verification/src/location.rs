//! The caret as a place in the text.

use vstd::prelude::*;
use vstd::std_specs::convert::FromSpecImpl;
use crate::terminal::Position;

verus! {

/// A place in the text: `y` counts lines and `x` counts grapheme clusters
/// within the line. Neither is a screen coordinate.
#[derive(Copy, Clone, Debug, PartialEq, Eq, Structural)]
pub struct Location {
    pub x: usize,
    pub y: usize,
}

impl Default for Location {
    /// The start of the first line.
    fn default() -> (location: Location)
        ensures
            location == (Location { x: 0, y: 0 }),
    {
        Location { x: 0, y: 0 }
    }
}

impl From<Location> for Position {
    /// Reads the two counts of a location as column and row, one for one.
    fn from(loc: Location) -> (position: Position)
        ensures
            position == (Position { col: loc.x, row: loc.y }),
    {
        Position { col: loc.x, row: loc.y }
    }
}

impl FromSpecImpl<Location> for Position {
    open spec fn obeys_from_spec() -> bool {
        true
    }

    open spec fn from_spec(loc: Location) -> Position {
        Position { col: loc.x, row: loc.y }
    }
}

} // verus!
