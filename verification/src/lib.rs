//! Verified core of `emqxctl`, a command-line client for the EMQX management REST API.
pub mod text;
pub mod json;
pub mod sorted;
pub mod error;
pub mod clock;
pub mod config;
pub mod client;
pub mod output;
pub mod columns;
pub mod cli;
pub mod plan;
pub mod input;
pub mod commands;
pub mod laws;
