//! Bridge between an MQTT broker and local shell commands: topic naming,
//! Home Assistant discovery documents, startup registration and dispatch.
pub mod action;
pub mod command;
pub mod config;
pub mod discovery;
pub mod dispatch;
pub mod registrar;
pub mod text;
