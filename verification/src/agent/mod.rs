//! The agent: how it is started and what it says.

pub mod acp;
pub mod goose;
pub mod laws;
