//! The profile types, under the name of the endpoint that returns them.
pub use crate::models::user::{Profile, ProfileResponse};
