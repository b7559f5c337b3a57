//! What the terminal shows: sizes, labels and paths of the findings.
pub mod preview;
pub mod confirm;
pub mod summary;
