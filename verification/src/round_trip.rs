//! Publishing a file and rebuilding it from what was published gives the
//! file back.

use vstd::prelude::*;
use crate::chunker::chunk_count;
use crate::chunker::chunks_of;
use crate::chunker::lemma_chunk_count_is_ceiling;
use crate::chunker::lemma_concat_chunks;
use crate::publisher::all_stored;
use crate::publisher::asks_for_manifest;
use crate::publisher::lemma_publish_succeeds;
use crate::publisher::publish_run;
use crate::publisher::publish_start;
use crate::publisher::PublishStepView;
use crate::reconstructor::all_found;
use crate::reconstructor::lemma_found_chunks_are_appended;
use crate::reconstructor::reconstruct_run;
use crate::reconstructor::reconstruct_start;
use crate::reconstructor::reconstruction_of;
use crate::reconstructor::IntegrityPolicy;
use crate::reconstructor::OutputFileView;
use crate::reconstructor::ReadOutcome;
use crate::reconstructor::ReconstructStepView;
use crate::reconstructor::ReconstructorView;
use crate::record::manifest_of;
use crate::record::FileInfoView;

verus! {

/// Rebuilding from the manifest of a published file, with a store that
/// returns for every handle the chunk that was written under it, hands over
/// the file that was published, byte for byte and under its name. This
/// holds under either integrity policy, for every chunk size.
pub proof fn lemma_reconstruct_published<H>(
    file: Seq<u8>,
    info: FileInfoView,
    chunk_max: nat,
    handles: Seq<H>,
    policy: IntegrityPolicy,
)
    requires
        chunk_max >= 1,
        handles.len() == chunk_count(file.len(), chunk_max),
    ensures
        reconstruct_run(
            reconstruct_start(ReadOutcome::Found(manifest_of(file, info, handles)), policy),
            all_found(chunks_of(file, chunk_max)),
        ) == ReconstructStepView::<H>::WriteFile(
            OutputFileView { filename: info.filename, data: file },
        ),
{
    let manifest = manifest_of(file, info, handles);
    let parts = chunks_of(file, chunk_max);
    let start = reconstruct_start(ReadOutcome::Found(manifest), policy);
    lemma_concat_chunks(file, chunk_max);
    lemma_chunk_count_is_ceiling(file.len(), chunk_max);
    let r = reconstruction_of(manifest, policy);
    if handles.len() == 0 {
        assert(file == Seq::<u8>::empty());
        assert(all_found(parts).len() == 0);
        assert(r.data == file);
    } else {
        let waiting = ReconstructorView { remaining: handles.drop_first(), ..r };
        assert(start == ReconstructStepView::ReadChunk(waiting, handles[0]));
        lemma_found_chunks_are_appended(waiting, handles[0], parts);
        assert(Seq::<u8>::empty() + file == file);
    }
}

/// Round trip: for every non-empty file within the size limit and every
/// chunk size, publishing the file and then rebuilding it gives the file
/// back. With a store that performs every write and answers the chunk
/// writes with `handles`, the publication writes the manifest that lists
/// `handles` and ends with the handle of that manifest; and rebuilding from
/// that manifest, with the store returning for every handle the chunk
/// written under it, hands over the published bytes under the published
/// name.
pub proof fn lemma_round_trip<H>(
    file: Seq<u8>,
    info: FileInfoView,
    file_max: nat,
    chunk_max: nat,
    handles: Seq<H>,
    manifest_handle: H,
    policy: IntegrityPolicy,
)
    requires
        chunk_max >= 1,
        0 < file.len() <= file_max,
        handles.len() == chunk_count(file.len(), chunk_max),
    ensures
        asks_for_manifest(
            publish_run(publish_start::<H>(file, info, file_max, chunk_max), all_stored(handles)),
            manifest_of(file, info, handles),
        ),
        publish_run(
            publish_start::<H>(file, info, file_max, chunk_max),
            all_stored(handles.push(manifest_handle)),
        ) == PublishStepView::Done(manifest_handle),
        reconstruct_run(
            reconstruct_start(ReadOutcome::Found(manifest_of(file, info, handles)), policy),
            all_found(chunks_of(file, chunk_max)),
        ) == ReconstructStepView::<H>::WriteFile(
            OutputFileView { filename: info.filename, data: file },
        ),
{
    lemma_publish_succeeds(file, info, file_max, chunk_max, handles, manifest_handle);
    lemma_reconstruct_published(file, info, chunk_max, handles, policy);
}

} // verus!
