//! Chat with a model: what is asked and how the reply is read.

pub mod client;
pub mod laws;
pub mod types;
