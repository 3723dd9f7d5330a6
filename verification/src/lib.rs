//! Detection of embedded SQL literals at tracked call sites, extraction of
//! their payload spans, projection of linter findings back onto source
//! coordinates, and emission of diagnostics.

pub mod bridge;
pub mod directive;
pub mod emit;
pub mod extract;
pub mod literal;
pub mod outcome;
pub mod pipeline;
pub mod project;
pub mod registry;
