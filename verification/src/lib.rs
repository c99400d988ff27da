//! Remote approval of coding-agent tool calls.
//!
//! An agent's hook asks a server whether a tool call may run; an operator
//! answers. The library holds the decisions of all three parties (the hook,
//! the gateway that serves several providers, and the server) as functions on
//! plain values, each with a contract. Sockets, files, clocks and terminals
//! are driven by the program around it.

pub mod clock;
pub mod gateway;
pub mod hook;
pub mod ids;
pub mod json;
pub mod paths;
pub mod protocol;
pub mod server;
pub mod text;
