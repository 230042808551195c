//! The status bar while the goto prompt is open: the label of the prompt and
//! the column at which the terminal cursor is put behind the text typed.

use crate::session::State;
use ratatui::text::{Line, Span};
use vstd::prelude::*;

verus! {

/// The number of terminal columns that a line made of `label` followed by
/// `text` takes.
pub uninterp spec fn line_width(label: Seq<char>, text: Seq<char>) -> usize;

/// The label of the goto prompt.
pub open spec fn prompt_label() -> Seq<char> {
    "Go to index: "@
}

/// The label that stands before the text typed at the goto prompt.
pub fn goto_label() -> (label: &'static str)
    ensures
        label@ == prompt_label(),
{
    "Go to index: "
}

/// Measures a line of two spans with `ratatui::text::Line::width`, which
/// adds up the Unicode widths of the spans' contents. The result is a
/// function of the two texts; it is given the name [`line_width`] and not
/// spelled out.
#[verifier::external_body]
fn measure_line(label: &str, text: &Vec<char>) -> (width: usize)
    ensures
        width == line_width(label@, text@),
{
    let text: String = text.iter().collect();
    Line::from_iter([Span::raw(label), Span::raw(text)]).width()
}

/// The column for the cursor behind a line of `width` columns that starts
/// at the left edge of an area: `width` columns from that edge, but not
/// beyond the right edge of the area nor beyond the last column there is.
pub open spec fn column_after(area_x: u16, area_width: u16, width: usize) -> int {
    let right = if area_x + area_width <= u16::MAX {
        area_x + area_width
    } else {
        u16::MAX as int
    };
    if area_x + width <= right {
        area_x + width
    } else {
        right
    }
}

/// The column at which the cursor stands behind a line of `width` columns
/// in an area that starts at column `area_x` and is `area_width` columns
/// wide.
pub fn cursor_column(area_x: u16, area_width: u16, width: usize) -> (column: u16)
    ensures
        column == column_after(area_x, area_width, width),
{
    let right: u16 = if area_width <= u16::MAX - area_x {
        area_x + area_width
    } else {
        u16::MAX
    };
    if width <= (right - area_x) as usize {
        area_x + width as u16
    } else {
        right
    }
}

impl State {
    /// The column at which the cursor stands behind the goto prompt, shown
    /// in an area that starts at column `area_x` and is `area_width`
    /// columns wide.
    pub fn goto_cursor_column(&self, area_x: u16, area_width: u16) -> (column: u16)
        ensures
            column == column_after(
                area_x,
                area_width,
                line_width(prompt_label(), self@.goto_contents),
            ),
    {
        cursor_column(area_x, area_width, measure_line(goto_label(), self.goto_contents()))
    }
}

} // verus!
