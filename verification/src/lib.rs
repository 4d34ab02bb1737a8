//! Verified core of scpy.app: an end-to-end encrypted live clipboard.
//!
//! The library holds the client-side cryptography (password-wrapped room
//! keys and authenticated clipboard envelopes), the wire types, the
//! expiring in-memory room store, the server's request decisions and the
//! browser-side room session.
#![allow(unused_imports)]

pub mod primitives;
pub mod crypto;
pub mod protocol;
pub mod store;
pub mod api;
pub mod client;
