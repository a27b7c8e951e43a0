//! Verified core of cssh: the message framing between the remote client and
//! the host agent, the agent's command planning and authentication rules, and
//! the command-line and connection-file parsers of the client tools.

pub mod args;
pub mod command;
pub mod connection;
pub mod deployment;
pub mod error;
pub mod executor;
pub mod platform;
pub mod protocol;
pub mod remote_setup;
pub mod server;
pub mod session;
pub mod text;
