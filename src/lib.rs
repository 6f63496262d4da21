pub mod args;
pub mod cli;
pub mod commands;
pub mod config;
pub mod options;
pub mod store;
pub mod text;
