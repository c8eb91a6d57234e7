//! Structural core of a least-squares polynomial regression engine: row
//! splitting by a ratio, polynomial design matrices, the shape and size checks
//! that decide whether a fit or an evaluation can go ahead, and the textual
//! layout of fitted coefficients. The numeric work on floating-point values is
//! done by callers on the matrices this crate prepares.

pub mod ratio;
pub mod error;
pub mod matrix;
pub mod design;
pub mod model;
pub mod report;
pub mod display_options;
pub mod sample_options;
