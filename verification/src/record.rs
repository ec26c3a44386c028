//! The records that the store holds for an attachment, and the description
//! of the file that goes into its manifest.

use vstd::prelude::*;
use crate::chunker::chunk_bytes;
use crate::digest::content_hash;
use crate::encoding::base64url_nopad;

verus! {

/// How a file is named: the last segment of its path and its extension.
#[derive(Clone, Debug, PartialEq, Eq)]
pub struct FileInfo {
    pub filename: String,
    pub file_extension: String,
}

/// A file description as a mathematical value.
pub struct FileInfoView {
    pub filename: Seq<char>,
    pub file_extension: Seq<char>,
}

impl View for FileInfo {
    type V = FileInfoView;

    open spec fn view(&self) -> FileInfoView {
        FileInfoView { filename: self.filename@, file_extension: self.file_extension@ }
    }
}

/// The name recorded for a file whose path has no final segment.
pub open spec fn missing_filename() -> &'static str {
    "__no_filename_found_"
}

impl FileInfo {
    /// Describes a file by the final segment of its path, if it has one, and
    /// its extension. Without a final segment the name is the fixed text
    /// `missing_filename()`.
    pub fn new(file_name: Option<String>, file_extension: String) -> (info: FileInfo)
        ensures
            info@.file_extension == file_extension@,
            info@.filename == match file_name {
                Some(name) => name@,
                None => missing_filename()@,
            },
    {
        let filename = match file_name {
            Some(name) => name,
            None => "__no_filename_found_".to_owned(),
        };
        FileInfo { filename, file_extension }
    }
}

/// One chunk as the store takes it: the hash of the chunk bytes, the
/// position of the chunk in the file, and the bytes as base64 text.
#[derive(Clone, Debug, PartialEq, Eq)]
pub struct ChunkRecord {
    pub content_hash: String,
    pub index: usize,
    pub encoded_bytes: String,
}

/// A chunk record as a mathematical value.
pub struct ChunkRecordView {
    pub content_hash: Seq<char>,
    pub index: nat,
    pub encoded_bytes: Seq<char>,
}

impl View for ChunkRecord {
    type V = ChunkRecordView;

    open spec fn view(&self) -> ChunkRecordView {
        ChunkRecordView {
            content_hash: self.content_hash@,
            index: self.index as nat,
            encoded_bytes: self.encoded_bytes@,
        }
    }
}

/// The record of chunk `i` of `file`.
pub open spec fn chunk_record(file: Seq<u8>, max: nat, i: nat) -> ChunkRecordView {
    ChunkRecordView {
        content_hash: content_hash(chunk_bytes(file, max, i)),
        index: i,
        encoded_bytes: base64url_nopad(chunk_bytes(file, max, i)),
    }
}

/// How to rebuild a file: its hash, name, extension and size, and the
/// handles of its chunks in file order. The position in `chunk_handles` is
/// all that orders the chunks.
#[derive(Clone, Debug, PartialEq, Eq)]
pub struct Manifest<H> {
    pub whole_file_hash: String,
    pub filename: String,
    pub file_extension: String,
    pub original_size: usize,
    pub chunk_handles: Vec<H>,
}

/// A manifest as a mathematical value.
pub struct ManifestView<H> {
    pub whole_file_hash: Seq<char>,
    pub filename: Seq<char>,
    pub file_extension: Seq<char>,
    pub original_size: nat,
    pub chunk_handles: Seq<H>,
}

impl<H> View for Manifest<H> {
    type V = ManifestView<H>;

    open spec fn view(&self) -> ManifestView<H> {
        ManifestView {
            whole_file_hash: self.whole_file_hash@,
            filename: self.filename@,
            file_extension: self.file_extension@,
            original_size: self.original_size as nat,
            chunk_handles: self.chunk_handles@,
        }
    }
}

/// The manifest of `file` once its chunks are stored under `handles`.
pub open spec fn manifest_of<H>(file: Seq<u8>, info: FileInfoView, handles: Seq<H>) -> ManifestView<
    H,
> {
    ManifestView {
        whole_file_hash: content_hash(file),
        filename: info.filename,
        file_extension: info.file_extension,
        original_size: file.len(),
        chunk_handles: handles,
    }
}

} // verus!
