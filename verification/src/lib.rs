pub mod builtins;
pub mod config;
pub mod messages;
pub mod runner;
pub mod script;
pub mod session;
pub mod text;
pub mod tools;
pub mod utils;
