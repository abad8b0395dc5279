//! Decision core of an installer that provisions a Move device over the local network.
//!
//! Every function here is a pure decision: it turns plain values into the next
//! request to make, or turns the outcome of a request into the result the caller
//! sees. The surrounding program performs the requests.

pub mod auth;
pub mod cookie_storage;
pub mod device;
pub mod diagnostics;
pub mod error;
pub mod http;
pub mod install;
pub mod process;
pub mod release;
pub mod ssh;
pub mod text;
