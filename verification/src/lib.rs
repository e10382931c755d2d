//! A gateway for MCP servers, and the logic of its two companions: a benchmark
//! that compares the gateway with direct connections, and a probe that sees
//! whether servers answer.
//!
//! The functions here decide and compute. Sockets, files, clocks and the shared
//! state are the application's, which carries out what they say. The module
//! `laws` states what holds of the functions together.

pub mod arguments;
pub mod benchmark;
pub mod config;
pub mod gateway;
pub mod headers;
pub mod laws;
pub mod probe;
pub mod sessions;
pub mod text;
