//! maplet: the logic of a terminal client for private, enclave-backed AI chat
//! and agent sessions.
//!
//! The modules hold the rules that the program goes by: slash commands, the event
//! reducer behind the full-screen interface, what each frame shows, the
//! line-oriented runner, session records, theming and the mapping of agent
//! protocol messages. Reading and writing are left to the program around it.

pub mod text;
pub mod text_laws;
pub mod paths;
pub mod config;
pub mod config_laws;
pub mod chat;
pub mod event;
pub mod session;
pub mod session_laws;
pub mod theme;
pub mod theme_laws;
pub mod commands;
pub mod commands_laws;
pub mod editor;
pub mod editor_laws;
pub mod ui;
pub mod app;
pub mod cli;
pub mod proxy;
pub mod breadcrumb;
pub mod agent;
pub mod driver;
pub mod driver_laws;
