//! Placement of items in a CSS-style grid: which lines an item spans, how it
//! aligns in its area, and named areas.
use vstd::prelude::*;

verus! {

/// Where a grid item goes: start and end lines of rows and columns
/// (1-based, ends exclusive), or a named area.
#[derive(Debug, Clone, PartialEq)]
pub struct GridPlacement {
    /// First row line.
    pub row_start: u32,
    /// Row line after the last row.
    pub row_end: u32,
    /// First column line.
    pub col_start: u32,
    /// Column line after the last column.
    pub col_end: u32,
    /// A named area, for the `grid-area` shorthand.
    pub area_name: Option<String>,
}

/// `end - start`, 0 when `end` comes first, and at least 1.
pub open spec fn spec_span(start: u32, end: u32) -> u32 {
    if end > start { (end - start) as u32 } else { 1 }
}

impl GridPlacement {
    /// The single cell at a row and column (1-based).
    pub fn cell(row: u32, col: u32) -> (p: GridPlacement)
        requires
            row < u32::MAX,
            col < u32::MAX,
        ensures
            p.row_start == row,
            p.row_end == row + 1,
            p.col_start == col,
            p.col_end == col + 1,
            p.area_name is None,
    {
        GridPlacement { row_start: row, row_end: row + 1, col_start: col, col_end: col + 1, area_name: None }
    }

    /// The area between the given lines.
    pub fn area(row_start: u32, row_end: u32, col_start: u32, col_end: u32) -> (p: GridPlacement)
        ensures
            p.row_start == row_start,
            p.row_end == row_end,
            p.col_start == col_start,
            p.col_end == col_end,
            p.area_name is None,
    {
        GridPlacement { row_start, row_end, col_start, col_end, area_name: None }
    }

    /// A named area; the lines are all 0.
    pub fn named(name: &str) -> (p: GridPlacement)
        ensures
            p.row_start == 0,
            p.row_end == 0,
            p.col_start == 0,
            p.col_end == 0,
            p.area_name matches Some(n) && n@ == name@,
    {
        GridPlacement { row_start: 0, row_end: 0, col_start: 0, col_end: 0, area_name: Some(name.to_owned()) }
    }

    /// How many rows it spans (at least 1).
    pub fn row_span(&self) -> (n: u32)
        ensures n == spec_span(self.row_start, self.row_end),
    {
        if self.row_end > self.row_start { self.row_end - self.row_start } else { 1 }
    }

    /// How many columns it spans (at least 1).
    pub fn col_span(&self) -> (n: u32)
        ensures n == spec_span(self.col_start, self.col_end),
    {
        if self.col_end > self.col_start { self.col_end - self.col_start } else { 1 }
    }
}

/// How an item aligns in its grid area.
#[derive(Debug, Clone, Copy, PartialEq, Eq, Structural)]
pub enum GridAlignment {
    /// At the start.
    Start,
    /// At the end.
    End,
    /// Centred.
    Center,
    /// Stretched to fill.
    Stretch,
}

impl Default for GridAlignment {
    /// Stretched.
    fn default() -> (a: GridAlignment)
        ensures a == GridAlignment::Stretch,
    {
        GridAlignment::Stretch
    }
}

/// A named area and the lines it spans (1-based, ends exclusive).
#[derive(Debug, Clone)]
pub struct NamedArea {
    /// The area's name.
    pub name: String,
    /// First row line.
    pub row_start: u32,
    /// Row line after the last row.
    pub row_end: u32,
    /// First column line.
    pub col_start: u32,
    /// Column line after the last column.
    pub col_end: u32,
}

} // verus!
