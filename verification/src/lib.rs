//! Verified core of a reading-progress service: an identity store with
//! session-claim resolution, a strict validator that turns an untyped JSON
//! body into a typed progress update, and the request handler that combines
//! the two into an HTTP-style response.

pub mod identity;
pub mod payload;
pub mod handler;
