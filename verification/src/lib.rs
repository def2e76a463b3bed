//! A library for capturing link-layer frames and decoding them into a
//! layered, display-ready representation.
//!
//! The decoding pipeline classifies one raw frame across up to four layers
//! (link, network, transport, application), degrading gracefully on malformed
//! or unknown sub-protocols. Decoded records are kept in an append-only,
//! monotonically-indexed store that a polling consumer drains.

pub mod app;
pub mod dump;
pub mod parser;
pub mod text;
pub mod ui;
