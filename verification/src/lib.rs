//! Protocol client for OWON SPE bench power supplies: command framing,
//! reply decoding and the request/reply engine, free of any transport.

pub mod client;
pub mod engine;
pub mod error;
pub mod fields;
pub mod laws;
pub mod number;
pub mod operations;
mod text;

pub use crate::engine::{Action, Event, Phase, SPE};
pub use crate::error::Error;
pub use crate::number::Number;
