//! A pluggable resource-provider registry.
//!
//! A host service enables a subset of compiled-in repository plugins via
//! configuration, constructs them into a registry, and routes incoming
//! `(plugin_name, resource, query_string)` requests to the matching plugin
//! instance, returning raw bytes or a typed failure.

pub mod config;
pub mod errors;
pub mod plugin;
pub mod plugins;
pub mod registry;
