//! Consistency check between a definition announced on a stream queue and the
//! definition rebuilt from a versioned file source.

pub mod consumer;
pub mod definition;
pub mod error;
pub mod input_state;
pub mod pipeline;
pub mod reader;
pub mod text;
