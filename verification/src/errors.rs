//! The error taxonomy shared by every component of the engine.

use vstd::prelude::*;

verus! {

/// Everything that can go wrong inside the engine, kept apart from the
/// transport's own failures so that callers can tell a user cancellation
/// from a genuine error.
#[derive(Debug)]
pub enum TransferError {
    /// A source path vanished between the request and the packing step.
    SourceMissing,
    /// A send was requested with an empty list of sources.
    NoSourcesProvided,
    /// A local failure while the archive was being written.
    ArchiveWriteFailed,
    /// A local failure while an archive was being read back apart.
    ExtractionFailed,
    /// The transport reported a failure; the message is passed through verbatim.
    TransportFailure { message: String },
    /// An insertion hit an id that is already live in the same table.
    DuplicateId,
    /// A lookup, removal or cancellation named an id with no live entry.
    NotFound,
    /// The user asked for the operation to stop.
    UserCancelled,
}

/// The human-readable message each error carries to the caller; a
/// transport failure's message is passed through verbatim.
pub open spec fn describe_spec(e: TransferError) -> Seq<char> {
    match e {
        TransferError::SourceMissing => "File or folder does not exist"@,
        TransferError::NoSourcesProvided => "No files provided"@,
        TransferError::ArchiveWriteFailed => "Failed to create archive"@,
        TransferError::ExtractionFailed => "Failed to extract archive"@,
        TransferError::TransportFailure { message } => message@,
        TransferError::DuplicateId => "An operation with this id is already active"@,
        TransferError::NotFound => "No active entry found for this ID"@,
        TransferError::UserCancelled => "Transfer cancelled by user"@,
    }
}

impl TransferError {
    /// The message shown for this error.
    pub fn describe(&self) -> (text: String)
        ensures
            text@ == describe_spec(*self),
    {
        match self {
            TransferError::SourceMissing => "File or folder does not exist".to_owned(),
            TransferError::NoSourcesProvided => "No files provided".to_owned(),
            TransferError::ArchiveWriteFailed => "Failed to create archive".to_owned(),
            TransferError::ExtractionFailed => "Failed to extract archive".to_owned(),
            TransferError::TransportFailure { message } => message.clone(),
            TransferError::DuplicateId => "An operation with this id is already active".to_owned(),
            TransferError::NotFound => "No active entry found for this ID".to_owned(),
            TransferError::UserCancelled => "Transfer cancelled by user".to_owned(),
        }
    }
}

} // verus!
