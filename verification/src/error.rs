use vstd::prelude::*;
use vstd::string::StringExecFns;

verus! {

/// The single failure kind of the bridge: a human-readable message.
#[derive(Debug)]
pub enum ClientError {
    Generic { msg: String },
}

impl ClientError {
    /// The text carried by the error.
    pub open spec fn msg_view(self) -> Seq<char> {
        match self {
            ClientError::Generic { msg } => msg@,
        }
    }

    /// An error carrying `msg`.
    pub fn generic(msg: &str) -> (e: ClientError)
        ensures
            e.msg_view() == msg@,
    {
        ClientError::Generic { msg: String::from_str(msg) }
    }

    /// The rendering shown to callers: the fixed prefix followed by the message.
    pub fn message(&self) -> (s: String)
        ensures
            s@ == "client error: "@ + self.msg_view(),
    {
        match self {
            ClientError::Generic { msg } => String::from_str("client error: ").concat(msg.as_str()),
        }
    }
}

} // verus!
