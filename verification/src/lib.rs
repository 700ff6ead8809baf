//! Manifest-driven artifact deployment: the typed manifest and its validation,
//! the store that holds the live manifest, the debounced reload of that
//! manifest, and the step-by-step deployment of one artifact.

pub mod backup;
pub mod cli;
pub mod config;
pub mod decode;
pub mod deploy;
pub mod encode;
pub mod engine;
pub mod error;
pub mod hook;
pub mod json;
pub mod locks;
pub mod manifest;
pub mod order;
pub mod paths;
pub mod plan;
pub mod service;
pub mod store;
pub mod text;
pub mod watch;
