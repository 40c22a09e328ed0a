use vstd::prelude::*;

pub mod api;
pub mod cli_args;
pub mod de;
pub mod error;
pub mod hub;
pub mod laws;
pub mod model;
pub mod ser;
pub mod text;
pub mod wire;

verus! {

/// TCP port on which a Videohub device listens.
pub const DEFAULT_DEVICE_PORT: u16 = 9990;

} // verus!
