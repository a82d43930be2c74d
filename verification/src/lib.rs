//! The message schema of a chat protocol and its JSON codec.

pub mod content;
pub mod document;
pub mod error;
pub mod message;
pub mod tags;
pub mod timestamp;
pub mod wire;
