//! The error taxonomy of the transport stack.

use vstd::prelude::*;

verus! {

/// Errors surfaced by the transport stack.
///
/// `Bind` is fatal at startup: the backend could not acquire its local
/// endpoint. `Unsupported` marks a configuration this library cannot
/// construct by itself (a socket-backed endpoint is bound and driven
/// by the embedding application). `Os` is a transient send/receive
/// failure the caller may retry. `NotConnected` rejects traffic for a
/// peer whose connection has been declared lost.
#[derive(Clone, Copy, PartialEq, Eq, Structural, Debug)]
pub enum IoError {
    Bind,
    Unsupported,
    Os,
    NotConnected,
}

impl IoError {
    /// A short description of the error.
    pub fn describe(&self) -> &'static str {
        match self {
            IoError::Bind => "could not bind the local endpoint",
            IoError::Unsupported => "configuration not constructible here",
            IoError::Os => "transient transport failure",
            IoError::NotConnected => "peer is disconnected",
        }
    }
}

} // verus!
