//! Unified data access to different storage services.
//!
//! A scheme and a loosely typed configuration table are turned into a
//! storage operator; a registry holds the operators of an application under
//! logical names, with an in-memory accessor that is always present.

pub mod config;
pub mod plan;
pub mod service;
pub mod registry;
