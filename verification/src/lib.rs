//! A verified core for a FISCO BCOS JSON-RPC client.
//!
//! The core builds every request a client sends to a node (`service`, `rpc`),
//! reads the node's replies (`helpers`, `json`), and decides, step by step,
//! how a contract deployment waits for its receipt (`deploy`). Sending the
//! requests, signing transactions and encoding contract ABIs are left to the
//! caller.

pub mod json;
pub mod helpers;
pub mod encoding;
pub mod config;
pub mod error;
pub mod rpc;
pub mod service;
pub mod deploy;
