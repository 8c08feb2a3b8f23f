//! Errors, and values from the chat platform.

pub mod error;
pub mod type_conversion;
