//! The ways in which publishing or reconstructing an attachment can fail.

use vstd::prelude::*;

verus! {

/// The record that a store request was about: the manifest, or the chunk at
/// the given position of the file.
#[derive(Clone, Copy, Debug, PartialEq, Eq, Structural)]
pub enum StoreRecord {
    Manifest,
    Chunk(usize),
}

/// Why an attachment could not be published or reconstructed.
#[derive(Clone, Copy, Debug, PartialEq, Eq, Structural)]
pub enum AttachmentError {
    /// The file holds no byte, so no chunk can be made of it.
    EmptyFile,
    /// The file is larger than the configured maximum.
    FileTooLarge,
    /// The source path names something other than an ordinary file.
    NotARegularFile,
    /// The store failed to write the given record.
    StoreWriteFailed(StoreRecord),
    /// The store failed to read the given record.
    StoreReadFailed(StoreRecord),
    /// The store holds no record under the handle of the given record.
    NotFound(StoreRecord),
    /// The text stored for the chunk at this position is no valid encoding.
    MalformedChunk(usize),
    /// The reassembled file has another length than the manifest records.
    SizeMismatch,
    /// The reassembled file has another hash than the manifest records.
    HashMismatch,
}

impl AttachmentError {
    /// A short description for the user.
    pub fn message(&self) -> (text: String)
        ensures
            text@ == self.spec_message()@,
    {
        match self {
            AttachmentError::EmptyFile => "Attachment is empty!".to_owned(),
            AttachmentError::FileTooLarge => "Attachment too big!".to_owned(),
            AttachmentError::NotARegularFile => "Attachment is not a file!".to_owned(),
            AttachmentError::StoreWriteFailed(_) => "Writing to the store failed".to_owned(),
            AttachmentError::StoreReadFailed(_) => "Reading from the store failed".to_owned(),
            AttachmentError::NotFound(_) => "Record not found in the store".to_owned(),
            AttachmentError::MalformedChunk(_) => "Stored chunk is not valid base64".to_owned(),
            AttachmentError::SizeMismatch => "Attachment size differs from its manifest".to_owned(),
            AttachmentError::HashMismatch => "Attachment hash differs from its manifest".to_owned(),
        }
    }

    /// The text that `message` returns.
    pub open spec fn spec_message(&self) -> &'static str {
        match self {
            AttachmentError::EmptyFile => "Attachment is empty!",
            AttachmentError::FileTooLarge => "Attachment too big!",
            AttachmentError::NotARegularFile => "Attachment is not a file!",
            AttachmentError::StoreWriteFailed(_) => "Writing to the store failed",
            AttachmentError::StoreReadFailed(_) => "Reading from the store failed",
            AttachmentError::NotFound(_) => "Record not found in the store",
            AttachmentError::MalformedChunk(_) => "Stored chunk is not valid base64",
            AttachmentError::SizeMismatch => "Attachment size differs from its manifest",
            AttachmentError::HashMismatch => "Attachment hash differs from its manifest",
        }
    }
}

} // verus!
