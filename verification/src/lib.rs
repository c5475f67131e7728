//! Verified core of a desktop OAuth 2.0 authorization-code login flow:
//! building the provider authorization URL with a fresh nonce, validating
//! the provider's loopback redirect, classifying the code-for-token
//! exchange, persisting the credential with expiry-aware reuse, and the
//! one-shot rendezvous between the listener and the waiting consumer.

pub mod albums;
pub mod authorize;
pub mod coordinator;
pub mod exchange;
pub mod query_builder;
pub mod recently_played;
pub mod recommendations;
pub mod session;
pub mod settings;
pub mod store;
pub mod templates;
pub mod text;
pub mod top_tracks;
pub mod urlenc;
