use vstd::prelude::*;

use crate::display_options::{DisplayOptions, DEFAULT_COLUMN_WIDTH};

verus! {

/// Options for showing a sample of the rows of a table.
#[derive(Clone, Copy, Debug, PartialEq, Eq, Structural)]
pub struct SampleOptions {
    /// Number of rows in the sample.
    pub sample_size: usize,
    /// Whether the rows are picked at random rather than from the top.
    pub shuffle: bool,
    /// How the sampled values are laid out.
    pub display_options: DisplayOptions,
}

/// The default sample: every row, from the top, with default layout.
pub open spec fn is_default_sample(sample_size: usize, shuffle: bool, display: DisplayOptions) -> bool {
    sample_size == usize::MAX && !shuffle && display.column_width == DEFAULT_COLUMN_WIDTH
}

impl SampleOptions {
    /// The default options.
    pub fn new() -> (r: Self)
        ensures
            is_default_sample(r.sample_size, r.shuffle, r.display_options),
    {
        Self::default()
    }

    /// A builder that starts from the default options.
    pub fn builder() -> (r: SampleOptionsBuilder)
        ensures
            is_default_sample(r.sample_size, r.shuffle, r.display_options),
    {
        SampleOptionsBuilder::default()
    }
}

impl Default for SampleOptions {
    fn default() -> (r: Self)
        ensures
            is_default_sample(r.sample_size, r.shuffle, r.display_options),
    {
        SampleOptions { sample_size: usize::MAX, shuffle: false, display_options: DisplayOptions::new() }
    }
}

/// Builds `SampleOptions` one setting at a time.
#[derive(Clone, Copy, Debug, PartialEq, Eq, Structural)]
pub struct SampleOptionsBuilder {
    /// Number of rows in the sample.
    pub sample_size: usize,
    /// Whether the rows are picked at random rather than from the top.
    pub shuffle: bool,
    /// How the sampled values are laid out.
    pub display_options: DisplayOptions,
}

impl SampleOptionsBuilder {
    /// A builder that starts from the default options.
    pub fn new() -> (r: Self)
        ensures
            is_default_sample(r.sample_size, r.shuffle, r.display_options),
    {
        Self::default()
    }

    /// Sets the number of rows in the sample.
    pub fn sample_size(self, sample_size: usize) -> (r: Self)
        ensures
            r == (SampleOptionsBuilder { sample_size, ..self }),
    {
        SampleOptionsBuilder { sample_size, ..self }
    }

    /// Sets whether the rows are picked at random.
    pub fn shuffle(self, shuffle: bool) -> (r: Self)
        ensures
            r == (SampleOptionsBuilder { shuffle, ..self }),
    {
        SampleOptionsBuilder { shuffle, ..self }
    }

    /// The options set so far.
    pub fn build(self) -> (r: SampleOptions)
        ensures
            r.sample_size == self.sample_size,
            r.shuffle == self.shuffle,
            r.display_options == self.display_options,
    {
        SampleOptions {
            sample_size: self.sample_size,
            shuffle: self.shuffle,
            display_options: self.display_options,
        }
    }
}

impl Default for SampleOptionsBuilder {
    fn default() -> (r: Self)
        ensures
            is_default_sample(r.sample_size, r.shuffle, r.display_options),
    {
        SampleOptionsBuilder {
            sample_size: usize::MAX,
            shuffle: false,
            display_options: DisplayOptions::default(),
        }
    }
}

} // verus!
