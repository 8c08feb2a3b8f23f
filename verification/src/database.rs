//! The records kept between conversations.

pub mod models;
