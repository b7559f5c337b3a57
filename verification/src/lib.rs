//! Verified core of a developer-workspace cleanup tool.
use vstd::prelude::*;

pub mod text;
pub mod path;
pub mod order;
pub mod sort;
pub mod domain;
pub mod types;
pub mod ui;
pub mod quick;
pub mod cli;
pub mod flow;

verus! {
} // verus!
