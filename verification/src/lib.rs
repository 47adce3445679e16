//! Lyra: the verified core of a small ticketing and agent-coordination server.

pub mod text;
pub mod encoding;
pub mod crypto;
pub mod error;
pub mod env;
pub mod jwt;
pub mod auth;
pub mod tickets;
pub mod permissions;
pub mod mcp;
pub mod migrate;
pub mod opencode;
pub mod seed;
pub mod request_log;
pub mod projects;
pub mod deploy;
pub mod client;
pub mod pages;
