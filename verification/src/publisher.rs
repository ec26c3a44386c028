//! Publishing a file: every chunk is written to the store in file order, and
//! once all of them are stored, the manifest that lists their handles.
//!
//! The store is outside this library. The publisher says what to write next;
//! the caller performs the write and hands back what the store answered.

use vstd::prelude::*;
use crate::chunker::chunk_count;
use crate::chunker::chunk_count_of;
use crate::chunker::chunk_slice;
use crate::chunker::lemma_chunk_count_is_ceiling;
use crate::digest::content_hash;
use crate::digest::content_hash_text;
use crate::encoding::encode_chunk;
use crate::error::AttachmentError;
use crate::error::StoreRecord;
use crate::limits::Limits;
use crate::record::chunk_record;
use crate::record::manifest_of;
use crate::record::ChunkRecord;
use crate::record::ChunkRecordView;
use crate::record::FileInfo;
use crate::record::FileInfoView;
use crate::record::Manifest;
use crate::record::ManifestView;

verus! {

/// What the store answered to a write: the handle of the new record, or that
/// the write failed.
#[derive(Debug)]
pub enum WriteOutcome<H> {
    Stored(H),
    Failed,
}

/// Whether a source of the given size and kind may be published: it must not
/// exceed the size limit, must be an ordinary file, and must not be empty.
/// The size is looked at first.
pub open spec fn admission(size: nat, is_regular_file: bool, file_max: nat) -> Result<
    (),
    AttachmentError,
> {
    if size > file_max {
        Err(AttachmentError::FileTooLarge)
    } else if !is_regular_file {
        Err(AttachmentError::NotARegularFile)
    } else if size == 0 {
        Err(AttachmentError::EmptyFile)
    } else {
        Ok(())
    }
}

/// Decides from a file's metadata, before it is read, whether it may be
/// published.
pub fn check_source(size: u64, is_regular_file: bool, limits: &Limits) -> (r: Result<(), AttachmentError>)
    ensures
        r == admission(size as nat, is_regular_file, limits.file_max()),
{
    if size > limits.file_max_size() as u64 {
        Err(AttachmentError::FileTooLarge)
    } else if !is_regular_file {
        Err(AttachmentError::NotARegularFile)
    } else if size == 0 {
        Err(AttachmentError::EmptyFile)
    } else {
        Ok(())
    }
}

/// A publication under way: the file, and the handles of the chunks stored
/// so far.
#[derive(Debug)]
pub struct Publisher<H> {
    file: Vec<u8>,
    limits: Limits,
    info: FileInfo,
    whole_file_hash: String,
    handles: Vec<H>,
    manifest_sent: bool,
}

/// A publication under way as a mathematical value. While chunks are being
/// written, `handles` holds the handles of the chunks stored so far and the
/// store has been asked to write chunk `handles.len()`. Once `manifest_sent`
/// holds, the store has been asked to write the manifest.
pub struct PublisherView<H> {
    pub file: Seq<u8>,
    pub chunk_max: nat,
    pub info: FileInfoView,
    pub handles: Seq<H>,
    pub manifest_sent: bool,
}

impl<H> PublisherView<H> {
    /// A publication under way is of a non-empty file, and while its chunks
    /// are being written at least one of them is not stored yet.
    pub open spec fn wf(&self) -> bool {
        &&& self.chunk_max >= 1
        &&& self.file.len() > 0
        &&& if self.manifest_sent {
            self.handles.len() == 0
        } else {
            self.handles.len() < chunk_count(self.file.len(), self.chunk_max)
        }
    }
}

/// What the publisher wants done next. The first two carry the publication
/// to resume with the store's answer; the last two end it.
#[derive(Debug)]
pub enum PublishStep<H> {
    /// Write this chunk record to the store.
    WriteChunk(Publisher<H>, ChunkRecord),
    /// Write this manifest to the store.
    WriteManifest(Publisher<H>, Manifest<H>),
    /// The attachment is published; this is the handle of its manifest.
    Done(H),
    /// The publication was given up.
    Failed(AttachmentError),
}

/// A step of a publication as a mathematical value.
pub enum PublishStepView<H> {
    WriteChunk(PublisherView<H>, ChunkRecordView),
    WriteManifest(PublisherView<H>, ManifestView<H>),
    Done(H),
    Failed(AttachmentError),
}

impl<H> View for PublishStep<H> {
    type V = PublishStepView<H>;

    open spec fn view(&self) -> PublishStepView<H> {
        match self {
            PublishStep::WriteChunk(publisher, record) => PublishStepView::WriteChunk(
                publisher@,
                record@,
            ),
            PublishStep::WriteManifest(publisher, manifest) => PublishStepView::WriteManifest(
                publisher@,
                manifest@,
            ),
            PublishStep::Done(handle) => PublishStepView::Done(*handle),
            PublishStep::Failed(error) => PublishStepView::Failed(*error),
        }
    }
}

/// The first step of publishing `file`: a file above the size limit or an
/// empty file is refused, which ends the publication before anything is
/// written; any other file starts with the write of its first chunk.
pub open spec fn publish_start<H>(
    file: Seq<u8>,
    info: FileInfoView,
    file_max: nat,
    chunk_max: nat,
) -> PublishStepView<H> {
    if file.len() > file_max {
        PublishStepView::Failed(AttachmentError::FileTooLarge)
    } else if file.len() == 0 {
        PublishStepView::Failed(AttachmentError::EmptyFile)
    } else {
        PublishStepView::WriteChunk(
            PublisherView { file, chunk_max, info, handles: Seq::empty(), manifest_sent: false },
            chunk_record(file, chunk_max, 0),
        )
    }
}

/// The step that follows the store's answer to the pending write. A failed
/// write ends the publication. A stored chunk is followed by the write of
/// the next chunk, and the last one by the write of the manifest, which
/// lists the handles in the order in which the chunks were written. The
/// stored manifest ends the publication with its handle.
pub open spec fn publish_resume<H>(p: PublisherView<H>, reply: WriteOutcome<H>) -> PublishStepView<
    H,
> {
    match reply {
        WriteOutcome::Failed => PublishStepView::Failed(
            AttachmentError::StoreWriteFailed(
                if p.manifest_sent {
                    StoreRecord::Manifest
                } else {
                    StoreRecord::Chunk(p.handles.len() as usize)
                },
            ),
        ),
        WriteOutcome::Stored(handle) => {
            if p.manifest_sent {
                PublishStepView::Done(handle)
            } else {
                let handles = p.handles.push(handle);
                if handles.len() < chunk_count(p.file.len(), p.chunk_max) {
                    PublishStepView::WriteChunk(
                        PublisherView { handles, ..p },
                        chunk_record(p.file, p.chunk_max, handles.len()),
                    )
                } else {
                    PublishStepView::WriteManifest(
                        PublisherView { handles: Seq::empty(), manifest_sent: true, ..p },
                        manifest_of(p.file, p.info, handles),
                    )
                }
            }
        },
    }
}

/// The step that a publication has reached from `step` once the store has
/// given `replies`, in turn, to the writes it was asked for. Replies that
/// come after the publication has ended change nothing.
pub open spec fn publish_run<H>(
    step: PublishStepView<H>,
    replies: Seq<WriteOutcome<H>>,
) -> PublishStepView<H>
    decreases replies.len(),
{
    if replies.len() == 0 {
        step
    } else {
        match step {
            PublishStepView::WriteChunk(p, _) => publish_run(
                publish_resume(p, replies[0]),
                replies.drop_first(),
            ),
            PublishStepView::WriteManifest(p, _) => publish_run(
                publish_resume(p, replies[0]),
                replies.drop_first(),
            ),
            _ => step,
        }
    }
}

/// Whether `step` asks for `record` to be written.
pub open spec fn asks_for_chunk<H>(step: PublishStepView<H>, record: ChunkRecordView) -> bool {
    match step {
        PublishStepView::WriteChunk(_, r) => r == record,
        _ => false,
    }
}

/// Whether `step` asks for `manifest` to be written.
pub open spec fn asks_for_manifest<H>(step: PublishStepView<H>, manifest: ManifestView<H>) -> bool {
    match step {
        PublishStepView::WriteManifest(_, m) => m == manifest,
        _ => false,
    }
}

/// The replies of a store that writes every record and answers with
/// `handles`, in turn.
pub open spec fn all_stored<H>(handles: Seq<H>) -> Seq<WriteOutcome<H>> {
    Seq::new(handles.len(), |i: int| WriteOutcome::Stored(handles[i]))
}

/// A publication that waits for chunk `p.handles.len()` to be stored, and
/// then gets a failure among the answers to its chunk writes, never asks for
/// the manifest to be written and never ends with a handle.
proof fn lemma_failure_blocks_manifest<H>(
    p: PublisherView<H>,
    record: ChunkRecordView,
    replies: Seq<WriteOutcome<H>>,
    k: int,
    j: int,
)
    requires
        p.wf(),
        !p.manifest_sent,
        0 <= k < replies.len(),
        p.handles.len() + k < chunk_count(p.file.len(), p.chunk_max),
        replies[k] is Failed,
        0 <= j <= replies.len(),
    ensures
        publish_run(PublishStepView::WriteChunk(p, record), replies.take(j))
            is WriteChunk || publish_run(
            PublishStepView::WriteChunk(p, record),
            replies.take(j),
        ) is Failed,
    decreases j,
{
    let prefix = replies.take(j);
    if j > 0 {
        let next = publish_resume(p, replies[0]);
        assert(prefix[0] == replies[0]);
        assert(prefix.drop_first() == replies.drop_first().take(j - 1));
        match replies[0] {
            WriteOutcome::Failed => {
                assert(next is Failed);
                assert(publish_run(next, prefix.drop_first()) == next);
            },
            WriteOutcome::Stored(handle) => {
                let handles = p.handles.push(handle);
                let q = PublisherView { handles, ..p };
                assert(next == PublishStepView::WriteChunk(
                    q,
                    chunk_record(p.file, p.chunk_max, handles.len()),
                ));
                lemma_failure_blocks_manifest(
                    q,
                    chunk_record(p.file, p.chunk_max, handles.len()),
                    replies.drop_first(),
                    k - 1,
                    j - 1,
                );
            },
        }
    }
}

/// Manifest atomicity: if the store fails the write of a chunk, the
/// publication never asks for the manifest to be written and never ends
/// with a handle, however far the run is followed.
pub proof fn lemma_failed_chunk_write_prevents_manifest<H>(
    file: Seq<u8>,
    info: FileInfoView,
    file_max: nat,
    chunk_max: nat,
    replies: Seq<WriteOutcome<H>>,
    k: int,
    j: int,
)
    requires
        chunk_max >= 1,
        0 <= k < replies.len(),
        k < chunk_count(file.len(), chunk_max),
        replies[k] is Failed,
        0 <= j <= replies.len(),
    ensures
        !(publish_run(publish_start::<H>(file, info, file_max, chunk_max), replies.take(j))
            is WriteManifest),
        !(publish_run(publish_start::<H>(file, info, file_max, chunk_max), replies.take(j))
            is Done),
{
    let start = publish_start::<H>(file, info, file_max, chunk_max);
    match start {
        PublishStepView::WriteChunk(p, record) => {
            lemma_failure_blocks_manifest(p, record, replies, k, j);
        },
        _ => {
            assert(publish_run(start, replies.take(j)) == start);
        },
    }
}

/// Size boundary: a file of exactly `file_max` bytes is accepted, and its
/// publication starts with the write of its first chunk. A file of one byte
/// more is refused as too large before any write is asked for, and no
/// answer of the store changes that.
pub proof fn lemma_size_boundary<H>(
    file: Seq<u8>,
    info: FileInfoView,
    file_max: nat,
    chunk_max: nat,
    replies: Seq<WriteOutcome<H>>,
)
    requires
        chunk_max >= 1,
        file.len() > 0,
    ensures
        file.len() == file_max ==> publish_start::<H>(file, info, file_max, chunk_max)
            is WriteChunk,
        file.len() == file_max + 1 ==> publish_start::<H>(file, info, file_max, chunk_max)
            == PublishStepView::<H>::Failed(AttachmentError::FileTooLarge) && publish_run(
            publish_start::<H>(file, info, file_max, chunk_max),
            replies,
        ) == PublishStepView::<H>::Failed(AttachmentError::FileTooLarge),
{
}

/// A publication that waits for chunk `p.handles.len()` to be stored, with
/// a store that writes the chunks that are left and answers with `rest`,
/// asks for the manifest that lists all the handles in order.
proof fn lemma_stored_chunks_lead_to_manifest<H>(
    p: PublisherView<H>,
    record: ChunkRecordView,
    rest: Seq<H>,
)
    requires
        p.wf(),
        !p.manifest_sent,
        p.handles.len() + rest.len() == chunk_count(p.file.len(), p.chunk_max),
    ensures
        publish_run(PublishStepView::WriteChunk(p, record), all_stored(rest))
            == PublishStepView::WriteManifest(
            PublisherView { handles: Seq::empty(), manifest_sent: true, ..p },
            manifest_of(p.file, p.info, p.handles + rest),
        ),
    decreases rest.len(),
{
    let replies = all_stored(rest);
    let handles = p.handles.push(rest[0]);
    assert(replies[0] == WriteOutcome::Stored(rest[0]));
    assert(replies.drop_first() == all_stored(rest.drop_first()));
    assert(handles + rest.drop_first() == p.handles + rest);
    let next = publish_resume(p, replies[0]);
    assert(publish_run(PublishStepView::WriteChunk(p, record), replies) == publish_run(
        next,
        replies.drop_first(),
    ));
    if rest.len() > 1 {
        let q = PublisherView { handles, ..p };
        assert(next == PublishStepView::WriteChunk(
            q,
            chunk_record(p.file, p.chunk_max, handles.len()),
        ));
        lemma_stored_chunks_lead_to_manifest(
            q,
            chunk_record(p.file, p.chunk_max, handles.len()),
            rest.drop_first(),
        );
        assert(PublisherView { handles: Seq::empty(), manifest_sent: true, ..q }
            == PublisherView { handles: Seq::empty(), manifest_sent: true, ..p });
    } else {
        assert(rest.drop_first().len() == 0);
        assert(handles == p.handles + rest);
        assert(next == PublishStepView::WriteManifest(
            PublisherView { handles: Seq::empty(), manifest_sent: true, ..p },
            manifest_of(p.file, p.info, handles),
        ));
        assert(publish_run(next, replies.drop_first()) == next);
    }
}

/// With a store that performs every write, the publication of an accepted
/// file writes its chunks in file order, then the manifest that lists the
/// handles of the chunks in that order, and ends with the handle of the
/// manifest.
pub proof fn lemma_publish_succeeds<H>(
    file: Seq<u8>,
    info: FileInfoView,
    file_max: nat,
    chunk_max: nat,
    handles: Seq<H>,
    manifest_handle: H,
)
    requires
        chunk_max >= 1,
        0 < file.len() <= file_max,
        handles.len() == chunk_count(file.len(), chunk_max),
    ensures
        forall|i: int|
            0 <= i < handles.len() ==> asks_for_chunk(
                #[trigger] publish_run(
                    publish_start::<H>(file, info, file_max, chunk_max),
                    all_stored(handles.take(i)),
                ),
                chunk_record(file, chunk_max, i as nat),
            ),
        asks_for_manifest(
            publish_run(publish_start::<H>(file, info, file_max, chunk_max), all_stored(handles)),
            manifest_of(file, info, handles),
        ),
        publish_run(
            publish_start::<H>(file, info, file_max, chunk_max),
            all_stored(handles.push(manifest_handle)),
        ) == PublishStepView::Done(manifest_handle),
{
    lemma_chunk_count_is_ceiling(file.len(), chunk_max);
    let start = publish_start::<H>(file, info, file_max, chunk_max);
    let p = PublisherView { file, chunk_max, info, handles: Seq::<H>::empty(), manifest_sent: false };
    let first = chunk_record(file, chunk_max, 0);
    assert(start == PublishStepView::WriteChunk(p, first));
    lemma_stored_chunks_lead_to_manifest(p, first, handles);
    assert(Seq::<H>::empty() + handles == handles);
    assert forall|i: int| 0 <= i < handles.len() implies asks_for_chunk(
        #[trigger] publish_run(start, all_stored(handles.take(i))),
        chunk_record(file, chunk_max, i as nat),
    ) by {
        lemma_stored_chunks_lead_to_chunk(p, first, handles.take(i));
        assert(Seq::<H>::empty() + handles.take(i) == handles.take(i));
    }
    lemma_run_split(start, all_stored(handles), seq![WriteOutcome::Stored(manifest_handle)]);
    assert(all_stored(handles) + seq![WriteOutcome::Stored(manifest_handle)] == all_stored(
        handles.push(manifest_handle),
    ));
    let q = PublisherView { handles: Seq::<H>::empty(), manifest_sent: true, ..p };
    let last = seq![WriteOutcome::Stored(manifest_handle)];
    assert(last.drop_first().len() == 0);
    assert(publish_run(publish_resume(q, last[0]), last.drop_first()) == PublishStepView::Done(
        manifest_handle,
    ));
}

/// A publication that waits for chunk `p.handles.len()` to be stored, with
/// a store that writes the next chunks and answers with `next`, asks for
/// the chunk that follows them, as long as there is one.
proof fn lemma_stored_chunks_lead_to_chunk<H>(
    p: PublisherView<H>,
    record: ChunkRecordView,
    next: Seq<H>,
)
    requires
        p.wf(),
        !p.manifest_sent,
        record == chunk_record(p.file, p.chunk_max, p.handles.len()),
        p.handles.len() + next.len() < chunk_count(p.file.len(), p.chunk_max),
    ensures
        publish_run(PublishStepView::WriteChunk(p, record), all_stored(next))
            == PublishStepView::WriteChunk(
            PublisherView { handles: p.handles + next, ..p },
            chunk_record(p.file, p.chunk_max, p.handles.len() + next.len()),
        ),
    decreases next.len(),
{
    let replies = all_stored(next);
    if next.len() == 0 {
        assert(p.handles + next == p.handles);
    } else {
        let handles = p.handles.push(next[0]);
        assert(replies[0] == WriteOutcome::Stored(next[0]));
        assert(replies.drop_first() == all_stored(next.drop_first()));
        assert(handles + next.drop_first() == p.handles + next);
        let q = PublisherView { handles, ..p };
        lemma_stored_chunks_lead_to_chunk(
            q,
            chunk_record(p.file, p.chunk_max, handles.len()),
            next.drop_first(),
        );
    }
}

/// Following a run over `first` and then over `second` is following it over
/// both.
pub proof fn lemma_run_split<H>(
    step: PublishStepView<H>,
    first: Seq<WriteOutcome<H>>,
    second: Seq<WriteOutcome<H>>,
)
    ensures
        publish_run(step, first + second) == publish_run(publish_run(step, first), second),
    decreases first.len(),
{
    if first.len() == 0 {
        assert(first + second == second);
    } else {
        let all = first + second;
        assert(all[0] == first[0]);
        assert(all.drop_first() == first.drop_first() + second);
        match step {
            PublishStepView::WriteChunk(p, _) => {
                lemma_run_split(publish_resume(p, first[0]), first.drop_first(), second);
            },
            PublishStepView::WriteManifest(p, _) => {
                lemma_run_split(publish_resume(p, first[0]), first.drop_first(), second);
            },
            _ => {
                lemma_run_ended(step, second);
            },
        }
    }
}

/// A publication that has ended stays as it is.
pub proof fn lemma_run_ended<H>(step: PublishStepView<H>, replies: Seq<WriteOutcome<H>>)
    requires
        step is Done || step is Failed,
    ensures
        publish_run(step, replies) == step,
{
}

impl<H> Publisher<H> {
    #[verifier::type_invariant]
    spec fn inv(&self) -> bool {
        &&& self.limits.wf()
        &&& self.whole_file_hash@ == content_hash(self.file@)
        &&& self.view().wf()
    }

    /// The publication as a mathematical value.
    pub closed spec fn view(&self) -> PublisherView<H> {
        PublisherView {
            file: self.file@,
            chunk_max: self.limits.chunk_max(),
            info: self.info@,
            handles: self.handles@,
            manifest_sent: self.manifest_sent,
        }
    }

    /// The record of chunk `i`.
    fn record(&self, i: usize) -> (record: ChunkRecord)
        requires
            i < chunk_count(self@.file.len(), self@.chunk_max),
        ensures
            record@ == chunk_record(self@.file, self@.chunk_max, i as nat),
    {
        proof {
            use_type_invariant(self);
        }
        let part = chunk_slice(self.file.as_slice(), &self.limits, i);
        ChunkRecord {
            content_hash: content_hash_text(part),
            index: i,
            encoded_bytes: encode_chunk(part),
        }
    }

    /// Starts to publish `file`. Nothing has been written when this returns:
    /// the step says what to write first, or why the file is refused.
    pub fn start(file: Vec<u8>, info: FileInfo, limits: Limits) -> (step: PublishStep<H>)
        ensures
            step@ == publish_start::<H>(file@, info@, limits.file_max(), limits.chunk_max()),
            step@ matches PublishStepView::WriteChunk(p, _) ==> p.wf(),
    {
        if file.len() > limits.file_max_size() {
            return PublishStep::Failed(AttachmentError::FileTooLarge);
        }
        if file.len() == 0 {
            return PublishStep::Failed(AttachmentError::EmptyFile);
        }
        proof {
            use_type_invariant(&limits);
            lemma_chunk_count_is_ceiling(file@.len(), limits.chunk_max());
        }
        let whole_file_hash = content_hash_text(file.as_slice());
        let publisher = Publisher {
            file,
            limits,
            info,
            whole_file_hash,
            handles: Vec::new(),
            manifest_sent: false,
        };
        let record = publisher.record(0);
        PublishStep::WriteChunk(publisher, record)
    }

    /// Takes the store's answer to the write that the last step asked for,
    /// and says what to do next.
    pub fn resume(self, reply: WriteOutcome<H>) -> (step: PublishStep<H>)
        ensures
            step@ == publish_resume(self@, reply),
            self@.wf(),
            step@ matches PublishStepView::WriteChunk(p, _) ==> p.wf(),
            step@ matches PublishStepView::WriteManifest(p, _) ==> p.wf(),
    {
        proof {
            use_type_invariant(&self);
        }
        let publisher = self;
        match reply {
            WriteOutcome::Failed => {
                let record = if publisher.manifest_sent {
                    StoreRecord::Manifest
                } else {
                    StoreRecord::Chunk(publisher.handles.len())
                };
                PublishStep::Failed(AttachmentError::StoreWriteFailed(record))
            },
            WriteOutcome::Stored(handle) => {
                if publisher.manifest_sent {
                    PublishStep::Done(handle)
                } else {
                    let count = chunk_count_of(publisher.file.len(), &publisher.limits);
                    let Publisher { file, limits, info, whole_file_hash, handles, manifest_sent } =
                        publisher;
                    let mut handles = handles;
                    handles.push(handle);
                    if handles.len() < count {
                        let next = handles.len();
                        let publisher = Publisher {
                            file,
                            limits,
                            info,
                            whole_file_hash,
                            handles,
                            manifest_sent,
                        };
                        let record = publisher.record(next);
                        PublishStep::WriteChunk(publisher, record)
                    } else {
                        let manifest = Manifest {
                            whole_file_hash: whole_file_hash.clone(),
                            filename: info.filename.clone(),
                            file_extension: info.file_extension.clone(),
                            original_size: file.len(),
                            chunk_handles: handles,
                        };
                        let publisher = Publisher {
                            file,
                            limits,
                            info,
                            whole_file_hash,
                            handles: Vec::new(),
                            manifest_sent: true,
                        };
                        PublishStep::WriteManifest(publisher, manifest)
                    }
                }
            },
        }
    }
}

} // verus!
