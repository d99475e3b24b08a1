//! A local, content-addressed cache repository with a resource addressing
//! layer.
//!
//! The library models the lifecycle of a deduplicated cache store rooted at
//! one filesystem location: a location is *opened* when it already holds a
//! valid repository, *initialized* with fixed default settings when it holds
//! nothing, and left untouched when it holds a damaged store. The resolver
//! in [`resolver`] carries out that policy; [`address`] parses inbound
//! request paths into resource addresses for the serving layer.

pub mod address;
pub mod cache;
pub mod error;
pub mod paths;
pub mod resolver;
pub mod settings;

pub use cache::Cache;
pub use error::Error;
pub use resolver::prepare_cache;
