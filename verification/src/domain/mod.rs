//! The cleanup domain: tiers, protection rules, artifact patterns and the
//! decisions of the scan-and-clean pipeline.
pub mod traits;
pub mod os;
pub mod registry;
pub mod patterns;
pub mod config;
pub mod size;
pub mod reduce;
pub mod safety;
pub mod impls;
pub mod default_tier;
pub mod delete;
pub mod docker;
