//! The error taxonomy of the client, and how the faults that a shell
//! observes are classified into it.

use vstd::prelude::*;

verus! {

/// Every way a command can end in failure.
#[derive(Clone, Copy, Debug, PartialEq, Eq, Structural)]
pub enum ErrorKind {
    /// A directory or file could not be created or read.
    FileSystemError,
    /// Local configuration, or a reply, is not well-formed TOML or JSON,
    /// or the configuration lacks what the schema asks for.
    ParseError,
    /// The remote service or the chain node could not be reached.
    NetworkError,
    /// A reply is well-formed but does not have the expected shape.
    DecodeError,
    /// The on-chain object is absent or of an unexpected type.
    ChainError,
    /// Something that had to hold did not: on-chain and registry content
    /// differ, or a transaction answer lacks the created object.
    AssertionFailure,
}

/// What a shell saw when a read or a request did not yield a value.
#[derive(Clone, Copy, Debug, PartialEq, Eq, Structural)]
pub enum Fault {
    /// The file or endpoint could not be reached at all.
    Unavailable,
    /// Bytes arrived but are not well-formed in their format.
    Malformed,
    /// A well-formed document arrived that does not fit the schema.
    Mismatched,
}

/// What a shell saw when the chain node did not yield the object.
#[derive(Clone, Copy, Debug, PartialEq, Eq, Structural)]
pub enum ChainFault {
    /// The node could not be reached.
    Unreachable,
    /// No object lives under the identifier.
    Absent,
    /// An object lives there, but not one that records a function.
    WrongType,
}

/// Classification of a fault on a local file holding structured content.
pub open spec fn local_error_of(fault: Fault) -> ErrorKind {
    match fault {
        Fault::Unavailable => ErrorKind::FileSystemError,
        Fault::Malformed => ErrorKind::ParseError,
        Fault::Mismatched => ErrorKind::ParseError,
    }
}

/// Classification of a fault on a request to the remote service.
pub open spec fn remote_error_of(fault: Fault) -> ErrorKind {
    match fault {
        Fault::Unavailable => ErrorKind::NetworkError,
        Fault::Malformed => ErrorKind::ParseError,
        Fault::Mismatched => ErrorKind::DecodeError,
    }
}

/// Classification of a fault on a read from the chain.
pub open spec fn chain_error_of(fault: ChainFault) -> ErrorKind {
    match fault {
        ChainFault::Unreachable => ErrorKind::NetworkError,
        ChainFault::Absent => ErrorKind::ChainError,
        ChainFault::WrongType => ErrorKind::ChainError,
    }
}

/// Classifies a fault on a local file holding structured content: a file
/// that cannot be read is a file-system error, anything wrong with what it
/// holds is a parse error.
pub fn local_error(fault: Fault) -> (kind: ErrorKind)
    ensures
        kind == local_error_of(fault),
{
    match fault {
        Fault::Unavailable => ErrorKind::FileSystemError,
        Fault::Malformed => ErrorKind::ParseError,
        Fault::Mismatched => ErrorKind::ParseError,
    }
}

/// Classifies a fault on a request to the remote service: transport
/// failures are network errors, a body that is not JSON is a parse error,
/// and JSON of the wrong shape is a decode error.
pub fn remote_error(fault: Fault) -> (kind: ErrorKind)
    ensures
        kind == remote_error_of(fault),
{
    match fault {
        Fault::Unavailable => ErrorKind::NetworkError,
        Fault::Malformed => ErrorKind::ParseError,
        Fault::Mismatched => ErrorKind::DecodeError,
    }
}

/// Classifies a fault on a read from the chain: an unreachable node is a
/// network error, a missing or foreign object is a chain error.
pub fn chain_error(fault: ChainFault) -> (kind: ErrorKind)
    ensures
        kind == chain_error_of(fault),
{
    match fault {
        ChainFault::Unreachable => ErrorKind::NetworkError,
        ChainFault::Absent => ErrorKind::ChainError,
        ChainFault::WrongType => ErrorKind::ChainError,
    }
}

impl ErrorKind {
    /// The name of the error kind, for messages.
    pub fn name(&self) -> (text: String)
        ensures
            text@ == match *self {
                ErrorKind::FileSystemError => "FileSystemError"@,
                ErrorKind::ParseError => "ParseError"@,
                ErrorKind::NetworkError => "NetworkError"@,
                ErrorKind::DecodeError => "DecodeError"@,
                ErrorKind::ChainError => "ChainError"@,
                ErrorKind::AssertionFailure => "AssertionFailure"@,
            },
    {
        match self {
            ErrorKind::FileSystemError => "FileSystemError".to_owned(),
            ErrorKind::ParseError => "ParseError".to_owned(),
            ErrorKind::NetworkError => "NetworkError".to_owned(),
            ErrorKind::DecodeError => "DecodeError".to_owned(),
            ErrorKind::ChainError => "ChainError".to_owned(),
            ErrorKind::AssertionFailure => "AssertionFailure".to_owned(),
        }
    }
}

} // verus!
