//! Speech-synthesis engines: the data they exchange, their HTTP API and the registry
//! that lists them.
pub mod api;
pub mod generic;
pub mod registry;
pub mod types;
pub mod voicevox;
