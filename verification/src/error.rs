//! The library's error type: a tagged union over transport-level failures
//! and program-level failures met while building instructions.

use vstd::prelude::*;

verus! {

/// An operation failed either in the transport layer (network, node
/// rejection, timeout, signing) or while building a program instruction.
/// Each variant carries a description of the underlying failure.
pub enum ClientError {
    /// A failure of the node client: transport, rejection, confirmation.
    Client(String),
    /// A failure raised while building a program instruction.
    Program(String),
}

/// The result of an operation that may fail with a `ClientError`.
pub type ClientResult<T> = Result<T, ClientError>;

impl ClientError {
    /// The description carried by the error, whichever kind it is.
    pub open spec fn spec_message(&self) -> Seq<char> {
        match self {
            ClientError::Client(m) => m@,
            ClientError::Program(m) => m@,
        }
    }

    /// Read access to the error's description.
    pub fn message(&self) -> (r: &String)
        ensures
            r@ == self.spec_message(),
    {
        match self {
            ClientError::Client(m) => m,
            ClientError::Program(m) => m,
        }
    }
}

} // verus!
