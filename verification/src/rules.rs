//! The rules, grouped by what they look at.
pub mod base;
pub mod dedupe;
pub mod lifecycle;
pub mod passing;
pub mod performance;
pub mod places;
pub mod portability;
pub mod purpose;
pub mod registered;
pub mod registry;
pub mod registry_laws;
pub mod rendering;
pub mod scopes;
pub mod silence;
pub mod stamps;
pub mod supplied;
