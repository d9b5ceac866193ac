//! Bootstrap logic for a launcher that runs a bundled Python runtime: path
//! algebra, configuration resolution, payload decoding and the cache
//! resolution state machine.

pub mod config;
pub mod paths;
pub mod payload;
pub mod resolver;
pub mod runs;
