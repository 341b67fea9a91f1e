//! Venue ingestion core: symbol canonicalization, tradable-universe
//! resolution, stream-topic construction, wire-frame normalization, and a
//! lossy fan-out event bus.

pub mod adapter;
pub mod bus;
pub mod clock;
pub mod config;
pub mod error;
pub mod event;
pub mod json;
pub mod resolver;
pub mod symbol;
pub mod text;
pub mod topics;

pub use symbol::canonical_symbol;
