//! A blob store whose objects live as versioned secrets in a Vault key/value
//! (v2) secret engine, with a registry that routes each linked tenant to its
//! own backend connection.
pub mod wasmcloud_interface_blobstore;
pub mod error;
pub mod config;
pub mod client;
pub mod registry;
pub mod adapter;
pub mod laws;
pub mod dispatch;
