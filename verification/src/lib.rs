//! Authentication token lifecycle for a desktop storefront client.
//!
//! The crate keeps a user's access and refresh credentials encrypted at
//! rest, caches them in memory, derives authorization headers from them and
//! decides when a rejected request is worth one more token refresh.  Disk and
//! network are left to the caller: every function here works on plain values.

pub mod client;
pub mod error;
pub mod gateway;
pub mod model;
pub mod profile;
pub mod text;
pub mod token;
pub mod utils;
pub mod vault;
