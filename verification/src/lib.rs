//! Admin adapter for NATS and JetStream.
pub mod admin;
pub mod codec;
pub mod config;
pub mod connection;
pub mod endpoint;
pub mod jetstream;
pub mod json;
pub mod laws;
pub mod replies;
pub mod send;
pub mod subject;
pub mod text;
pub mod types;
pub mod wire;
