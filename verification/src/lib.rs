//! A calculator for lines of the form `<number> <sign> <number>`.
//!
//! The library holds what such a calculator decides: how a line falls into
//! tokens, when it is a request and which, what is answered to a line that
//! is none, and when a session ends. It reads no stream and computes with no
//! floating-point number: its caller does both and tells it what came out.

pub mod command;
pub mod error;
pub mod expression;
pub mod laws;
pub mod reader;
pub mod text;
