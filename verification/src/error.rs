//! What can go wrong in a session.

use vstd::prelude::*;

verus! {

/// The class of an error.
#[derive(Debug, Clone, Copy, PartialEq, Eq, Structural)]
pub enum ErrorKind {
    /// A message has a form that it must not have.
    InvalidData,
    /// The kernel and the library found no common version.
    ConnectionRefused,
    /// Anything else.
    Other,
}

/// An error of the session protocol.
#[derive(Debug, Clone, Copy, PartialEq, Eq, Structural)]
pub enum SessionError {
    /// A message of the handshake is shorter than a request header.
    RequestTooShort,
    /// A request is shorter than a request header.
    DequeuedTooShort,
    /// The argument of an INIT request cannot be read.
    UndecodableInit,
    /// The handshake came to no end.
    InitAborted,
    /// The kernel took only a part of a message.
    WriteTooShort,
}

impl SessionError {
    /// The class of each error.
    pub open spec fn spec_kind(self) -> ErrorKind {
        match self {
            SessionError::RequestTooShort | SessionError::DequeuedTooShort => ErrorKind::InvalidData,
            SessionError::InitAborted => ErrorKind::ConnectionRefused,
            SessionError::UndecodableInit | SessionError::WriteTooShort => ErrorKind::Other,
        }
    }

    /// The text of each error.
    pub open spec fn spec_message(self) -> Seq<char> {
        match self {
            SessionError::RequestTooShort => "request message is too short"@,
            SessionError::DequeuedTooShort => "dequeued request message is too short"@,
            SessionError::UndecodableInit => "failed to decode fuse_init_in"@,
            SessionError::InitAborted => "session initialization is aborted"@,
            SessionError::WriteTooShort => "written data is too short"@,
        }
    }

    /// The class of the error.
    pub fn kind(&self) -> (kind: ErrorKind)
        ensures
            kind == self.spec_kind(),
    {
        match self {
            SessionError::RequestTooShort | SessionError::DequeuedTooShort => ErrorKind::InvalidData,
            SessionError::InitAborted => ErrorKind::ConnectionRefused,
            SessionError::UndecodableInit | SessionError::WriteTooShort => ErrorKind::Other,
        }
    }

    /// The text of the error.
    pub fn message(&self) -> (message: &'static str)
        ensures
            message@ == self.spec_message(),
    {
        match self {
            SessionError::RequestTooShort => "request message is too short",
            SessionError::DequeuedTooShort => "dequeued request message is too short",
            SessionError::UndecodableInit => "failed to decode fuse_init_in",
            SessionError::InitAborted => "session initialization is aborted",
            SessionError::WriteTooShort => "written data is too short",
        }
    }
}

/// Messages that are too short are invalid data, a handshake that came to no end is a refused
/// connection, and all else is of no particular class.
pub proof fn law_error_kinds(error: SessionError)
    ensures
        error.spec_kind() is InvalidData <==> error is RequestTooShort || error
            is DequeuedTooShort,
        error.spec_kind() is ConnectionRefused <==> error is InitAborted,
        error.spec_kind() is Other <==> error is UndecodableInit || error is WriteTooShort,
{
}

/// What each error says.
pub proof fn law_error_messages()
    ensures
        SessionError::RequestTooShort.spec_message() == "request message is too short"@,
        SessionError::DequeuedTooShort.spec_message() == "dequeued request message is too short"@,
        SessionError::UndecodableInit.spec_message() == "failed to decode fuse_init_in"@,
        SessionError::InitAborted.spec_message() == "session initialization is aborted"@,
        SessionError::WriteTooShort.spec_message() == "written data is too short"@,
{
}

} // verus!
