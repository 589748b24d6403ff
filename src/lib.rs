//! Typed client library for the Vintage Story mod database web API.
//!
//! The verified part holds the records the service returns, the rules that
//! turn raw responses into them, the client-side searches, the release and
//! game-version resolution, the in-memory cache slots and the request paths.
//! Network access and JSON decoding sit outside it and hand plain values in.

pub mod cache;
pub mod error;
pub mod models;
pub mod random;
pub mod request;
pub mod search;
pub mod versions;
