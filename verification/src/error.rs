//! What can go wrong between a request and the wire.

use vstd::prelude::*;
use vstd::string::StringExecFns;

verus! {

/// A failure of the multicast endpoint. Either kind ends the invocation:
/// nothing is tried again.
#[derive(Debug, PartialEq, Eq)]
pub enum Error {
    /// The socket could not be set up: it could not be created, bound to the
    /// interface, bound to the group address, or joined to the group.
    VainaSocket {
        /// The operating system's description of the failure.
        source: String,
    },
    /// The datagram could not be transmitted.
    FailedSend {
        /// The operating system's description of the failure.
        source: String,
    },
}

impl Error {
    /// The text shown to the operator for this error.
    pub open spec fn spec_message(&self) -> Seq<char> {
        match *self {
            Error::VainaSocket { source } => "Could not create socket for VAINA: "@ + source@,
            Error::FailedSend { source } => "Could not send data to VAINA: "@ + source@,
        }
    }

    /// The text to show to the operator: what failed, then the operating
    /// system's description.
    pub fn message(&self) -> (text: String)
        ensures
            text@ == self.spec_message(),
    {
        match self {
            Error::VainaSocket { source } => {
                String::from_str("Could not create socket for VAINA: ").concat(source.as_str())
            },
            Error::FailedSend { source } => {
                String::from_str("Could not send data to VAINA: ").concat(source.as_str())
            },
        }
    }
}

} // verus!
