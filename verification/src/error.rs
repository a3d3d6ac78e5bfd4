//! The typed errors that message validation can produce. Every error carries
//! the transaction id of the message it arose from.

use vstd::prelude::*;

verus! {

/// What went wrong while validating a message.
#[derive(Debug, Clone, PartialEq, Eq)]
pub enum DhtErrorKind {
    /// A required dictionary key was absent.
    MissingKey { key: Vec<u8> },
    /// The key was present but bound to a value of another bencode shape.
    WrongType { key: Vec<u8> },
    /// A node id or content hash did not have the required length.
    InvalidIdentifierLength { expected: usize, actual: usize },
    /// The "nodes" byte string was not a whole number of contact records.
    InvalidNodesEncoding,
    /// An entry of the "values" list was not a byte string of the record
    /// length; `index` is the first offending position.
    InvalidValueEncoding { index: usize },
    /// The response carried neither a "nodes" nor a "values" key.
    InvalidResponse,
}

/// A validation failure, with the transaction id it belongs to.
#[derive(Debug, Clone, PartialEq, Eq)]
pub struct DhtError {
    pub kind: DhtErrorKind,
    pub trans_id: Vec<u8>,
}

/// The mathematical shape of a [`DhtErrorKind`].
pub ghost enum ErrorKindModel {
    MissingKey { key: Seq<u8> },
    WrongType { key: Seq<u8> },
    InvalidIdentifierLength { expected: int, actual: int },
    InvalidNodesEncoding,
    InvalidValueEncoding { index: int },
    InvalidResponse,
}

/// The mathematical shape of a [`DhtError`].
pub ghost struct ErrorModel {
    pub kind: ErrorKindModel,
    pub trans_id: Seq<u8>,
}

impl View for DhtErrorKind {
    type V = ErrorKindModel;

    open spec fn view(&self) -> ErrorKindModel {
        match self {
            DhtErrorKind::MissingKey { key } => ErrorKindModel::MissingKey { key: key@ },
            DhtErrorKind::WrongType { key } => ErrorKindModel::WrongType { key: key@ },
            DhtErrorKind::InvalidIdentifierLength { expected, actual } => {
                ErrorKindModel::InvalidIdentifierLength {
                    expected: *expected as int,
                    actual: *actual as int,
                }
            },
            DhtErrorKind::InvalidNodesEncoding => ErrorKindModel::InvalidNodesEncoding,
            DhtErrorKind::InvalidValueEncoding { index } => {
                ErrorKindModel::InvalidValueEncoding { index: *index as int }
            },
            DhtErrorKind::InvalidResponse => ErrorKindModel::InvalidResponse,
        }
    }
}

impl View for DhtError {
    type V = ErrorModel;

    open spec fn view(&self) -> ErrorModel {
        ErrorModel { kind: self.kind@, trans_id: self.trans_id@ }
    }
}

} // verus!
