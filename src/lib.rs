//! Typed queries on the authorization status of privacy-gated capabilities.
//!
//! The library names each capability by a stable identifier, frames the
//! request handed to the platform's status source, and turns the status text
//! that comes back into a closed vocabulary. Unrecognized text is always read
//! as "not determined", so permission is never over-claimed.
pub mod permission;
pub mod status;
pub mod query;

pub use permission::Permission;
pub use status::PermissionStatus;
pub use query::{encode_identifier, has_permission, status_request, PermissionError};
