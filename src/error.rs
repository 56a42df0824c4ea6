use vstd::prelude::*;

verus! {

/// Every reason a request can be turned down. The parser only ever reports the
/// four `Command*` kinds; the others belong to the layer that carries out a
/// command against the server.
#[derive(Clone, Copy, Debug, PartialEq, Eq, Structural)]
pub enum ErrorKind {
    CommandUnknown,
    CommandMissingArgs,
    CommandTooManyArgs,
    CommandInvalidArgs,
    ConnectFailed,
    RoomDoesntExist,
    RoomAlreadyExists,
    UsernameAlreadyUsed,
}

impl ErrorKind {
    /// The kinds that the command parser itself can produce.
    pub open spec fn is_parse_error(self) -> bool {
        match self {
            ErrorKind::CommandUnknown
            | ErrorKind::CommandMissingArgs
            | ErrorKind::CommandTooManyArgs
            | ErrorKind::CommandInvalidArgs => true,
            _ => false,
        }
    }
}

/// A rejection: its kind and a message for the user.
#[derive(Clone, Debug, PartialEq, Eq)]
pub struct ChatError {
    pub kind: ErrorKind,
    pub msg: String,
}

impl ChatError {
    pub fn new(kind: ErrorKind, msg: String) -> (r: ChatError)
        ensures
            r.kind == kind,
            r.msg@ == msg@,
    {
        ChatError { kind, msg }
    }
}

} // verus!
