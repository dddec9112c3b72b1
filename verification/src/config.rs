//! The user-supplied configuration, as the core consumes it: already loaded
//! and validated. Reading and parsing the configuration file is the caller's
//! concern; the core only ever sees a finished `Config` value.

use vstd::prelude::*;

verus! {

/// The whole configuration.
#[derive(Debug, Clone)]
pub struct Config {
    pub matrix: MatrixConfig,
}

/// Configuration of the connection to the homeserver.
#[derive(Debug, Clone)]
pub struct MatrixConfig {
    /// The initial display name when first logging in to a homeserver.
    pub initial_display_name: Option<String>,
    /// The root matrix space.
    pub space: MatrixSpace,
}

/// The root matrix space the bot guarantees membership in.
#[derive(Debug, Clone)]
pub struct MatrixSpace {
    /// The room ID of the space.
    pub room_id: String,
}

} // verus!
