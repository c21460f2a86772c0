//! Verified core of the ZBR scripting runtime for Discord bots.
pub mod ast;
pub mod text;
pub mod decimal;
pub mod error_messages;
pub mod context;
pub mod executor;
pub mod bot;
pub mod json;
pub mod functions;
pub mod args;
pub mod db;
