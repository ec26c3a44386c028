//! Rebuilding a file from its manifest: every chunk is fetched in manifest
//! order, decoded and appended, and the whole is handed over to be written
//! under the name that the manifest records.
//!
//! The store is outside this library. The reconstructor says what to fetch
//! next; the caller performs the read and hands back what the store
//! answered.

use vstd::prelude::*;
use crate::chunker::concat;
use crate::chunker::lemma_concat_first;
use crate::digest::content_hash;
use crate::digest::content_hash_text;
use crate::encoding::base64url_nopad;
use crate::encoding::chunk_text_decoded;
use crate::encoding::decodable;
use crate::encoding::decode_chunk;
use crate::error::AttachmentError;
use crate::error::StoreRecord;
use crate::record::Manifest;
use crate::record::ManifestView;

verus! {

/// What the store answered to a read: the record, that there is none under
/// the handle, or that the read failed.
#[derive(Debug)]
pub enum ReadOutcome<T> {
    Found(T),
    Missing,
    Failed,
}

/// Whether the rebuilt file is held against what the manifest says of it.
#[derive(Clone, Copy, Debug, PartialEq, Eq, Structural)]
pub enum IntegrityPolicy {
    /// The chunks are taken as the store returns them.
    TrustStore,
    /// The length and the hash of the rebuilt file must be those that the
    /// manifest records.
    Verify,
}

/// The rebuilt file: the name to write it under, and its bytes.
#[derive(Clone, Debug, PartialEq, Eq)]
pub struct OutputFile {
    pub filename: String,
    pub data: Vec<u8>,
}

/// A rebuilt file as a mathematical value.
pub struct OutputFileView {
    pub filename: Seq<char>,
    pub data: Seq<u8>,
}

impl View for OutputFile {
    type V = OutputFileView;

    open spec fn view(&self) -> OutputFileView {
        OutputFileView { filename: self.filename@, data: self.data@ }
    }
}

/// A reconstruction under way.
#[derive(Debug)]
pub struct Reconstructor<H> {
    filename: String,
    whole_file_hash: String,
    original_size: usize,
    policy: IntegrityPolicy,
    remaining: Vec<H>,
    fetched: usize,
    data: Vec<u8>,
}

/// A reconstruction under way as a mathematical value. `fetched` chunks
/// have been appended to `data`; the store has been asked for the chunk
/// after them, and `remaining` holds the handles of those that follow it.
pub struct ReconstructorView<H> {
    pub filename: Seq<char>,
    pub whole_file_hash: Seq<char>,
    pub original_size: nat,
    pub policy: IntegrityPolicy,
    pub remaining: Seq<H>,
    pub fetched: nat,
    pub data: Seq<u8>,
}

/// What the reconstructor wants done next. The first carries the
/// reconstruction to resume with the store's answer; the other two end it.
#[derive(Debug)]
pub enum ReconstructStep<H> {
    /// Fetch the chunk stored under this handle.
    ReadChunk(Reconstructor<H>, H),
    /// All chunks are in: write this file.
    WriteFile(OutputFile),
    /// The reconstruction was given up; nothing is to be written.
    Failed(AttachmentError),
}

/// A step of a reconstruction as a mathematical value.
pub enum ReconstructStepView<H> {
    ReadChunk(ReconstructorView<H>, H),
    WriteFile(OutputFileView),
    Failed(AttachmentError),
}

impl<H> View for ReconstructStep<H> {
    type V = ReconstructStepView<H>;

    open spec fn view(&self) -> ReconstructStepView<H> {
        match self {
            ReconstructStep::ReadChunk(reconstructor, handle) => ReconstructStepView::ReadChunk(
                reconstructor@,
                *handle,
            ),
            ReconstructStep::WriteFile(file) => ReconstructStepView::WriteFile(file@),
            ReconstructStep::Failed(error) => ReconstructStepView::Failed(*error),
        }
    }
}

/// The store's answer to the read of a manifest, as a mathematical value.
pub open spec fn manifest_reply_view<H>(reply: ReadOutcome<Manifest<H>>) -> ReadOutcome<
    ManifestView<H>,
> {
    match reply {
        ReadOutcome::Found(manifest) => ReadOutcome::Found(manifest@),
        ReadOutcome::Missing => ReadOutcome::Missing,
        ReadOutcome::Failed => ReadOutcome::Failed,
    }
}

/// The store's answer to the read of a chunk, as a mathematical value.
pub open spec fn text_reply_view(reply: ReadOutcome<String>) -> ReadOutcome<Seq<char>> {
    match reply {
        ReadOutcome::Found(text) => ReadOutcome::Found(text@),
        ReadOutcome::Missing => ReadOutcome::Missing,
        ReadOutcome::Failed => ReadOutcome::Failed,
    }
}

/// The store's answer to the read of a chunk after decoding, as a
/// mathematical value.
pub open spec fn bytes_reply_view(reply: ReadOutcome<Option<Vec<u8>>>) -> ReadOutcome<
    Option<Seq<u8>>,
> {
    match reply {
        ReadOutcome::Found(Some(bytes)) => ReadOutcome::Found(Some(bytes@)),
        ReadOutcome::Found(None) => ReadOutcome::Found(None),
        ReadOutcome::Missing => ReadOutcome::Missing,
        ReadOutcome::Failed => ReadOutcome::Failed,
    }
}

/// The answer to the read of a chunk with its text decoded.
pub open spec fn decoded_reply(reply: ReadOutcome<Seq<char>>) -> ReadOutcome<Option<Seq<u8>>> {
    match reply {
        ReadOutcome::Found(text) => ReadOutcome::Found(chunk_text_decoded(text)),
        ReadOutcome::Missing => ReadOutcome::Missing,
        ReadOutcome::Failed => ReadOutcome::Failed,
    }
}

/// What is wrong with a rebuilt file of `size` bytes and with the hash
/// `hash`, where the manifest records `original_size` and
/// `whole_file_hash`. Under `IntegrityPolicy::TrustStore` nothing is; under
/// `IntegrityPolicy::Verify` the size is held against the manifest, then
/// the hash.
pub open spec fn integrity_failure(
    policy: IntegrityPolicy,
    original_size: nat,
    whole_file_hash: Seq<char>,
    size: nat,
    hash: Seq<char>,
) -> Option<AttachmentError> {
    if policy == IntegrityPolicy::TrustStore {
        None
    } else if size != original_size {
        Some(AttachmentError::SizeMismatch)
    } else if hash != whole_file_hash {
        Some(AttachmentError::HashMismatch)
    } else {
        None
    }
}

/// The end of a reconstruction whose chunks are all in: the file is handed
/// over unless the integrity policy finds fault with it.
pub open spec fn reconstruct_finish<H>(r: ReconstructorView<H>) -> ReconstructStepView<H> {
    match integrity_failure(
        r.policy,
        r.original_size,
        r.whole_file_hash,
        r.data.len(),
        content_hash(r.data),
    ) {
        Some(error) => ReconstructStepView::Failed(error),
        None => ReconstructStepView::WriteFile(
            OutputFileView { filename: r.filename, data: r.data },
        ),
    }
}

/// Holds the size and the hash of a rebuilt file against what the manifest
/// records, as the policy asks.
pub fn check_integrity(
    policy: IntegrityPolicy,
    original_size: usize,
    whole_file_hash: &String,
    size: usize,
    hash: &String,
) -> (r: Option<AttachmentError>)
    ensures
        r == integrity_failure(
            policy,
            original_size as nat,
            whole_file_hash@,
            size as nat,
            hash@,
        ),
{
    match policy {
        IntegrityPolicy::TrustStore => None,
        IntegrityPolicy::Verify => {
            if size != original_size {
                Some(AttachmentError::SizeMismatch)
            } else if *hash != *whole_file_hash {
                Some(AttachmentError::HashMismatch)
            } else {
                None
            }
        },
    }
}

/// The step of a reconstruction that has no read pending: the read of the
/// first of the remaining handles, or the end.
pub open spec fn reconstruct_advance<H>(r: ReconstructorView<H>) -> ReconstructStepView<H> {
    if r.remaining.len() == 0 {
        reconstruct_finish(r)
    } else {
        ReconstructStepView::ReadChunk(
            ReconstructorView { remaining: r.remaining.drop_first(), ..r },
            r.remaining[0],
        )
    }
}

/// The reconstruction that a manifest describes, before any chunk is
/// fetched.
pub open spec fn reconstruction_of<H>(
    manifest: ManifestView<H>,
    policy: IntegrityPolicy,
) -> ReconstructorView<H> {
    ReconstructorView {
        filename: manifest.filename,
        whole_file_hash: manifest.whole_file_hash,
        original_size: manifest.original_size,
        policy,
        remaining: manifest.chunk_handles,
        fetched: 0,
        data: Seq::empty(),
    }
}

/// The first step of a reconstruction, from the store's answer to the read
/// of the manifest.
pub open spec fn reconstruct_start<H>(
    reply: ReadOutcome<ManifestView<H>>,
    policy: IntegrityPolicy,
) -> ReconstructStepView<H> {
    match reply {
        ReadOutcome::Missing => ReconstructStepView::Failed(
            AttachmentError::NotFound(StoreRecord::Manifest),
        ),
        ReadOutcome::Failed => ReconstructStepView::Failed(
            AttachmentError::StoreReadFailed(StoreRecord::Manifest),
        ),
        ReadOutcome::Found(manifest) => reconstruct_advance(reconstruction_of(manifest, policy)),
    }
}

/// The step that follows the store's answer to the pending read, given what
/// decoding makes of the chunk's text. A chunk that is missing, cannot be
/// read or cannot be decoded ends the reconstruction. The bytes of any other
/// are appended to those before them.
pub open spec fn reconstruct_resume_decoded<H>(
    r: ReconstructorView<H>,
    reply: ReadOutcome<Option<Seq<u8>>>,
) -> ReconstructStepView<H> {
    match reply {
        ReadOutcome::Missing => ReconstructStepView::Failed(
            AttachmentError::NotFound(StoreRecord::Chunk(r.fetched as usize)),
        ),
        ReadOutcome::Failed => ReconstructStepView::Failed(
            AttachmentError::StoreReadFailed(StoreRecord::Chunk(r.fetched as usize)),
        ),
        ReadOutcome::Found(None) => ReconstructStepView::Failed(
            AttachmentError::MalformedChunk(r.fetched as usize),
        ),
        ReadOutcome::Found(Some(bytes)) => reconstruct_advance(
            ReconstructorView { data: r.data + bytes, fetched: r.fetched + 1, ..r },
        ),
    }
}

/// The step that follows the store's answer to the pending read.
pub open spec fn reconstruct_resume<H>(
    r: ReconstructorView<H>,
    reply: ReadOutcome<Seq<char>>,
) -> ReconstructStepView<H> {
    reconstruct_resume_decoded(r, decoded_reply(reply))
}

/// The step that a reconstruction has reached from `step` once the store
/// has given `replies`, in turn and with the chunk texts decoded, to the
/// reads it was asked for. Replies that come after the reconstruction has
/// ended change nothing.
pub open spec fn reconstruct_run<H>(
    step: ReconstructStepView<H>,
    replies: Seq<ReadOutcome<Option<Seq<u8>>>>,
) -> ReconstructStepView<H>
    decreases replies.len(),
{
    if replies.len() == 0 {
        step
    } else {
        match step {
            ReconstructStepView::ReadChunk(r, _) => reconstruct_run(
                reconstruct_resume_decoded(r, replies[0]),
                replies.drop_first(),
            ),
            _ => step,
        }
    }
}

/// The replies of a store that holds every chunk, where the texts decode
/// to `parts`, in turn.
pub open spec fn all_found(parts: Seq<Seq<u8>>) -> Seq<ReadOutcome<Option<Seq<u8>>>> {
    Seq::new(parts.len(), |i: int| ReadOutcome::Found(Some(parts[i])))
}

/// Whether the reply brings the bytes of a chunk.
pub open spec fn brings_bytes(reply: ReadOutcome<Option<Seq<u8>>>) -> bool {
    reply matches ReadOutcome::Found(Some(_))
}

/// A reconstruction that waits for a chunk, with a store that answers
/// every read that is left by the bytes in `parts`, ends as one does that
/// has appended all of `parts` in order.
pub proof fn lemma_found_chunks_are_appended<H>(
    r: ReconstructorView<H>,
    handle: H,
    parts: Seq<Seq<u8>>,
)
    requires
        parts.len() == r.remaining.len() + 1,
    ensures
        reconstruct_run(ReconstructStepView::ReadChunk(r, handle), all_found(parts))
            == reconstruct_finish(ReconstructorView { data: r.data + concat(parts), ..r }),
    decreases parts.len(),
{
    let replies = all_found(parts);
    let grown = ReconstructorView { data: r.data + parts[0], fetched: r.fetched + 1, ..r };
    let next = reconstruct_resume_decoded(r, replies[0]);
    assert(replies[0] == ReadOutcome::Found(Some(parts[0])));
    assert(next == reconstruct_advance(grown));
    assert(replies.drop_first() == all_found(parts.drop_first()));
    assert(reconstruct_run(ReconstructStepView::ReadChunk(r, handle), replies) == reconstruct_run(
        next,
        replies.drop_first(),
    ));
    lemma_concat_first(parts);
    assert(r.data + (parts[0] + concat(parts.drop_first())) == (r.data + parts[0]) + concat(
        parts.drop_first(),
    ));
    if parts.len() == 1 {
        assert(parts.drop_first().len() == 0);
        assert(concat(parts.drop_first()) == Seq::<u8>::empty());
        assert(r.data + parts[0] + Seq::<u8>::empty() == r.data + parts[0]);
        assert(reconstruct_run(next, replies.drop_first()) == next);
    } else {
        let waiting = ReconstructorView { remaining: r.remaining.drop_first(), ..grown };
        assert(next == ReconstructStepView::ReadChunk(waiting, r.remaining[0]));
        lemma_found_chunks_are_appended(waiting, r.remaining[0], parts.drop_first());
    }
}

/// A reconstruction that waits for a chunk and then gets an answer that
/// brings no bytes never hands over a file to be written.
proof fn lemma_bad_reply_blocks_file<H>(
    r: ReconstructorView<H>,
    handle: H,
    replies: Seq<ReadOutcome<Option<Seq<u8>>>>,
    k: int,
    j: int,
)
    requires
        0 <= k < replies.len(),
        k <= r.remaining.len(),
        !brings_bytes(replies[k]),
        0 <= j <= replies.len(),
    ensures
        !(reconstruct_run(ReconstructStepView::ReadChunk(r, handle), replies.take(j))
            is WriteFile),
    decreases j,
{
    let prefix = replies.take(j);
    if j > 0 {
        let next = reconstruct_resume_decoded(r, replies[0]);
        assert(prefix[0] == replies[0]);
        assert(prefix.drop_first() == replies.drop_first().take(j - 1));
        match replies[0] {
            ReadOutcome::Found(Some(bytes)) => {
                let grown = ReconstructorView {
                    data: r.data + bytes,
                    fetched: r.fetched + 1,
                    ..r
                };
                let waiting = ReconstructorView { remaining: r.remaining.drop_first(), ..grown };
                assert(next == ReconstructStepView::ReadChunk(waiting, r.remaining[0]));
                lemma_bad_reply_blocks_file(
                    waiting,
                    r.remaining[0],
                    replies.drop_first(),
                    k - 1,
                    j - 1,
                );
            },
            _ => {
                assert(next is Failed);
                assert(reconstruct_run(next, prefix.drop_first()) == next);
            },
        }
    }
}

/// If the manifest cannot be had, or a chunk that it lists is missing,
/// cannot be read or cannot be decoded, the reconstruction never hands over
/// a file to be written, however far the run is followed.
pub proof fn lemma_failed_read_writes_nothing<H>(
    manifest: ReadOutcome<ManifestView<H>>,
    policy: IntegrityPolicy,
    replies: Seq<ReadOutcome<Option<Seq<u8>>>>,
    k: int,
    j: int,
)
    requires
        0 <= j <= replies.len(),
        manifest matches ReadOutcome::Found(m) ==> 0 <= k < replies.len() && k
            < m.chunk_handles.len() && !brings_bytes(replies[k]),
    ensures
        !(reconstruct_run(reconstruct_start(manifest, policy), replies.take(j)) is WriteFile),
{
    let start = reconstruct_start(manifest, policy);
    match start {
        ReconstructStepView::ReadChunk(r, handle) => {
            lemma_bad_reply_blocks_file(r, handle, replies, k, j);
        },
        _ => {
            assert(reconstruct_run(start, replies.take(j)) == start);
        },
    }
}

impl<H> Reconstructor<H> {
    #[verifier::type_invariant]
    spec fn inv(&self) -> bool {
        self.fetched + self.remaining@.len() < usize::MAX
    }

    /// The reconstruction as a mathematical value.
    pub closed spec fn view(&self) -> ReconstructorView<H> {
        ReconstructorView {
            filename: self.filename@,
            whole_file_hash: self.whole_file_hash@,
            original_size: self.original_size as nat,
            policy: self.policy,
            remaining: self.remaining@,
            fetched: self.fetched as nat,
            data: self.data@,
        }
    }

    /// Ends a reconstruction whose chunks are all in.
    fn finish(self) -> (step: ReconstructStep<H>)
        requires
            self@.remaining.len() == 0,
        ensures
            step@ == reconstruct_finish(self@),
    {
        let failure = match self.policy {
            IntegrityPolicy::TrustStore => None,
            IntegrityPolicy::Verify => {
                let hash = content_hash_text(self.data.as_slice());
                check_integrity(
                    self.policy,
                    self.original_size,
                    &self.whole_file_hash,
                    self.data.len(),
                    &hash,
                )
            },
        };
        match failure {
            Some(error) => ReconstructStep::Failed(error),
            None => ReconstructStep::WriteFile(
                OutputFile { filename: self.filename, data: self.data },
            ),
        }
    }

    /// Asks for the first of the handles in `remaining`, or ends the
    /// reconstruction if there is none.
    fn advance(
        filename: String,
        whole_file_hash: String,
        original_size: usize,
        policy: IntegrityPolicy,
        remaining: Vec<H>,
        fetched: usize,
        data: Vec<u8>,
    ) -> (step: ReconstructStep<H>)
        requires
            fetched + remaining@.len() <= usize::MAX,
        ensures
            step@ == reconstruct_advance(
                ReconstructorView {
                    filename: filename@,
                    whole_file_hash: whole_file_hash@,
                    original_size: original_size as nat,
                    policy,
                    remaining: remaining@,
                    fetched: fetched as nat,
                    data: data@,
                },
            ),
    {
        let mut remaining = remaining;
        if remaining.len() == 0 {
            let reconstructor = Reconstructor {
                filename,
                whole_file_hash,
                original_size,
                policy,
                remaining,
                fetched: 0,
                data,
            };
            reconstructor.finish()
        } else {
            let ghost handles = remaining@;
            let handle = remaining.remove(0);
            proof {
                assert(remaining@ =~= handles.drop_first());
            }
            ReconstructStep::ReadChunk(
                Reconstructor {
                    filename,
                    whole_file_hash,
                    original_size,
                    policy,
                    remaining,
                    fetched,
                    data,
                },
                handle,
            )
        }
    }

    /// Starts a reconstruction from the store's answer to the read of the
    /// manifest.
    pub fn start(reply: ReadOutcome<Manifest<H>>, policy: IntegrityPolicy) -> (step:
        ReconstructStep<H>)
        ensures
            step@ == reconstruct_start(manifest_reply_view(reply), policy),
    {
        match reply {
            ReadOutcome::Missing => ReconstructStep::Failed(
                AttachmentError::NotFound(StoreRecord::Manifest),
            ),
            ReadOutcome::Failed => ReconstructStep::Failed(
                AttachmentError::StoreReadFailed(StoreRecord::Manifest),
            ),
            ReadOutcome::Found(manifest) => {
                let _ = manifest.chunk_handles.len();
                Self::advance(
                    manifest.filename,
                    manifest.whole_file_hash,
                    manifest.original_size,
                    policy,
                    manifest.chunk_handles,
                    0,
                    Vec::new(),
                )
            },
        }
    }

    /// Takes the store's answer to the read that the last step asked for,
    /// with the chunk's text already decoded, and says what to do next.
    pub fn resume_decoded(self, reply: ReadOutcome<Option<Vec<u8>>>) -> (step: ReconstructStep<H>)
        ensures
            step@ == reconstruct_resume_decoded(self@, bytes_reply_view(reply)),
    {
        proof {
            use_type_invariant(&self);
        }
        match reply {
            ReadOutcome::Missing => ReconstructStep::Failed(
                AttachmentError::NotFound(StoreRecord::Chunk(self.fetched)),
            ),
            ReadOutcome::Failed => ReconstructStep::Failed(
                AttachmentError::StoreReadFailed(StoreRecord::Chunk(self.fetched)),
            ),
            ReadOutcome::Found(None) => ReconstructStep::Failed(
                AttachmentError::MalformedChunk(self.fetched),
            ),
            ReadOutcome::Found(Some(bytes)) => {
                let Reconstructor {
                    filename,
                    whole_file_hash,
                    original_size,
                    policy,
                    remaining,
                    fetched,
                    data,
                } = self;
                let mut data = data;
                data.extend_from_slice(bytes.as_slice());
                proof {
                    assert(data@ =~= self.data@ + bytes@);
                }
                Self::advance(
                    filename,
                    whole_file_hash,
                    original_size,
                    policy,
                    remaining,
                    fetched + 1,
                    data,
                )
            },
        }
    }

    /// Takes the store's answer to the read that the last step asked for,
    /// and says what to do next. A text that is the encoding of some bytes
    /// stands for those bytes.
    pub fn resume(self, reply: ReadOutcome<String>) -> (step: ReconstructStep<H>)
        ensures
            step@ == reconstruct_resume(self@, text_reply_view(reply)),
            forall|bytes: Seq<u8>|
                text_reply_view(reply) == ReadOutcome::Found(#[trigger] base64url_nopad(bytes))
                    && decodable(base64url_nopad(bytes)) ==> step@ == reconstruct_resume_decoded(
                    self@,
                    ReadOutcome::Found(Some(bytes)),
                ),
    {
        match reply {
            ReadOutcome::Missing => self.resume_decoded(ReadOutcome::Missing),
            ReadOutcome::Failed => self.resume_decoded(ReadOutcome::Failed),
            ReadOutcome::Found(text) => {
                let decoded = decode_chunk(text.as_str());
                self.resume_decoded(ReadOutcome::Found(decoded))
            },
        }
    }
}

} // verus!
