//! A pairing-and-messaging relay: short alphanumeric tokens are issued to
//! clients and later authorize the messages they submit. Both the issued
//! tokens and the accepted messages are kept as whole JSON documents that are
//! read fully, extended, and rewritten fully.
//!
//! The library decides; the caller performs the storage and network work and
//! hands the outcomes back.

pub mod codec;
pub mod laws;
pub mod service;
pub mod store;
pub mod token;

pub use token::{generate_token, TOKEN_LEN};
