//! A content-addressed image store: names are validated and hashed into keys,
//! and blobs are served through a size-bounded cache kept consistent with
//! durable storage.

pub mod config;
pub mod key;
pub mod store;
pub mod upload;
