//! Core logic of the Mobius terminal agent: command-line validation, tool-call
//! parsing, conversation bookkeeping and the decision steps of the daemon.
pub mod text;
pub mod engine;
pub mod tools;
pub mod arguments;
pub mod cli;
pub mod client_cli;
pub mod ipc;
pub mod session;
pub mod inferences;
pub mod agent;
pub mod stream;
pub mod daemon;
pub mod browser;
pub mod client;
pub mod queries;
pub mod web;
pub mod laws;
