//! A banking library behind an MCP server: the requests that each banking
//! backend (Plaid, Mono, Open Banking) is sent, how its answers read as one
//! set of records, and the server's own decisions.
pub mod json;
pub mod text;
pub mod types;
pub mod request;
pub mod plaid;
pub mod mono;
pub mod open_banking;
pub mod server;
pub mod config;
pub mod laws;
pub mod readings;
