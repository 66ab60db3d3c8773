//! Scoring of cross-chain bridging routes and guardrail-bounded loan sizing.

pub mod address;
pub mod amount;
pub mod commander;
pub mod config;
pub mod decimal;
pub mod enum_matrix;
pub mod http_server;
pub mod omniarb;
pub mod text;
