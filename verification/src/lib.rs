//! Trust-minimized access to an execution-layer JSON-RPC surface.
//!
//! The library holds the rules of the client: how a deployment's trust mode is
//! chosen and read, how a raw answer is held against a proof before it is
//! handed back, how filters are registered and polled, which methods the
//! server offers under which names, how every failure becomes one wire
//! error, and which settings a command line contributes to the layered
//! configuration. Each rule is an executable function whose contract Verus
//! proves.

pub mod config;
pub mod error;
pub mod execution_mode;
pub mod filter;
pub mod method;
pub mod node;
pub mod rpc;

