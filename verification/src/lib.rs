//! A safe, verified facade around a native regular-expression engine,
//! together with a small collection of verified utility modules: a toy
//! growable vector, a minimal arithmetic tokenizer, and sortedness helpers.

pub mod engine;
pub mod echo;
pub mod error;
pub mod lexer;
pub mod ownership;
pub mod pattern;
pub mod server;
pub mod toyvec;
pub mod utils;
