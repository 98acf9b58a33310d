//! The redraw protocol shared by every region of the screen.
//!
//! A component owns a band of rows. It keeps a flag that says whether the
//! band must be painted again, and paints only when asked to and only if the
//! flag is set. Painting produces rows of text; putting them on the
//! terminal is left to the caller.

use vstd::prelude::*;
use crate::terminal::Size;

verus! {

/// One row of the screen and the text to show in it.
pub struct ScreenRow {
    pub row: usize,
    pub text: String,
    /// Whether the row is shown with foreground and background exchanged.
    pub inverted: bool,
}

/// What a painted row holds.
pub struct ScreenRowView {
    pub row: usize,
    pub text: Seq<char>,
    pub inverted: bool,
}

impl View for ScreenRow {
    type V = ScreenRowView;

    open spec fn view(&self) -> ScreenRowView {
        ScreenRowView { row: self.row, text: self.text@, inverted: self.inverted }
    }
}

/// What a vector of painted rows holds.
pub open spec fn row_views(rows: Seq<ScreenRow>) -> Seq<ScreenRowView> {
    rows.map_values(|row: ScreenRow| row@)
}

/// A region of the screen that can be sized, marked for repainting and
/// painted.
pub trait UIComponent: View + Sized {
    /// Whether a component in this state must be painted again.
    spec fn flagged(state: Self::V) -> bool;

    /// The state with the repaint flag set to `redraw` and all else kept.
    spec fn with_flag(state: Self::V, redraw: bool) -> Self::V;

    /// The state after the component was given `size`.
    spec fn with_size(state: Self::V, size: Size) -> Self::V;

    /// The rows that a component in this state paints from `start_row` down.
    spec fn picture(state: Self::V, start_row: usize) -> Seq<ScreenRowView>;

    /// Sets or clears the repaint flag.
    fn mark_redraw(&mut self, redraw: bool)
        ensures
            final(self)@ == Self::with_flag(old(self)@, redraw),
            Self::flagged(final(self)@) == redraw,
    ;

    /// Whether the component must be painted again.
    fn needs_redraw(&self) -> (redraw: bool)
        ensures
            redraw == Self::flagged(self@),
    ;

    /// Gives the component its size.
    fn set_size(&mut self, size: Size)
        ensures
            final(self)@ == Self::with_size(old(self)@, size),
    ;

    /// Paints the component from `start_row` down, whatever its flag says.
    fn draw(&self, start_row: usize) -> (rows: Vec<ScreenRow>)
        ensures
            row_views(rows@) == Self::picture(self@, start_row),
            rows@.len() == Self::picture(self@, start_row).len(),
    ;

    /// Gives the component its size and marks it for repainting.
    fn resize(&mut self, size: Size)
        ensures
            final(self)@ == Self::with_flag(Self::with_size(old(self)@, size), true),
            Self::flagged(final(self)@),
    {
        self.set_size(size);
        self.mark_redraw(true);
    }

    /// Paints the component if it is marked for repainting, and clears the
    /// mark. An unmarked component paints nothing and stays as it is.
    fn render(&mut self, start_row: usize) -> (rows: Vec<ScreenRow>)
        ensures
            Self::flagged(old(self)@) ==> row_views(rows@) == Self::picture(
                old(self)@,
                start_row,
            ) && rows@.len() == Self::picture(old(self)@, start_row).len() && final(self)@
                == Self::with_flag(old(self)@, false),
            !Self::flagged(old(self)@) ==> rows@.len() == 0 && final(self)@ == old(self)@,
            !Self::flagged(final(self)@),
    {
        if self.needs_redraw() {
            let rows = self.draw(start_row);
            self.mark_redraw(false);
            rows
        } else {
            Vec::new()
        }
    }
}

} // verus!
