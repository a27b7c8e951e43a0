use vstd::prelude::*;

verus! {

/// `std::io::Error`, carried through unread.
#[verifier::external_type_specification]
#[verifier::external_body]
pub struct ExIoError(std::io::Error);

/// `serde_json::Error`, carried through unread.
#[verifier::external_type_specification]
#[verifier::external_body]
pub struct ExJsonError(serde_json::Error);

/// The errors of the cssh components.
#[derive(Debug)]
pub enum CsshError {
    /// An I/O operation failed.
    Io(std::io::Error),
    /// A message could not be turned into JSON or back.
    Serialize(serde_json::Error),
    /// A frame announced a payload longer than the protocol allows.
    InvalidMessageLength(u32),
    /// The peer sent too little data, or the connection broke.
    Connection(String),
    /// A command could not be started.
    Execution(String),
    /// The request carried a token other than the expected one.
    AuthenticationFailed,
}

} // verus!
