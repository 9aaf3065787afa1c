//! Event-sourced cache population for a chat-platform gateway feed.
//!
//! The crate holds the decisions of two cooperating processes: the session
//! driver, which keeps one gateway connection alive, and the cache ingestor,
//! which turns dispatched events into entity-store writes. Every decision is
//! stated over a mathematical model of JSON documents and proved against it;
//! what `serde_json` does to a document is stated in [`json`] and believed.

pub mod json;
pub mod denormalize;
pub mod guarantees;
pub mod store;
pub mod frame;
pub mod gateway;
pub mod identity;
