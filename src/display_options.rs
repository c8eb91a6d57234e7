use vstd::prelude::*;

verus! {

/// The column width used when nothing else is asked for.
pub const DEFAULT_COLUMN_WIDTH: usize = 100;

/// Options for laying out values in a table.
#[derive(Clone, Copy, Debug, PartialEq, Eq, Structural)]
pub struct DisplayOptions {
    /// Width of a table column, in characters.
    pub column_width: usize,
}

impl DisplayOptions {
    /// The default options.
    pub fn new() -> (r: Self)
        ensures
            r.column_width == DEFAULT_COLUMN_WIDTH,
    {
        Self::default()
    }
}

impl Default for DisplayOptions {
    fn default() -> (r: Self)
        ensures
            r.column_width == DEFAULT_COLUMN_WIDTH,
    {
        DisplayOptions { column_width: DEFAULT_COLUMN_WIDTH }
    }
}

} // verus!
