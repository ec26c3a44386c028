//! Splitting a file into chunks of bounded size.
//!
//! Chunk `i` of a file of `len` bytes holds the bytes from `i * max` up to
//! `(i + 1) * max`, or up to `len` where the file ends earlier. The chunks
//! are consecutive and non-empty, and together they are the file.

use vstd::prelude::*;
use vstd::slice::slice_subrange;
use vstd::slice::slice_to_vec;
use crate::digest::content_hash;
use crate::digest::content_hash_text;
use crate::error::AttachmentError;
use crate::limits::Limits;

verus! {

/// The number of chunks of a file of `len` bytes: `len / max`, rounded up.
pub open spec fn chunk_count(len: nat, max: nat) -> nat {
    if max == 0 {
        0
    } else {
        ((len + max - 1) / (max as int)) as nat
    }
}

/// Whether `n` chunks of at most `max` bytes can hold `len` bytes.
pub open spec fn chunks_hold(n: nat, len: nat, max: nat) -> bool {
    n * max >= len
}

/// Offset of the first byte of chunk `i`.
pub open spec fn chunk_start(i: nat, max: nat) -> nat {
    i * max
}

/// Offset just past the last byte of chunk `i` in a file of `len` bytes.
pub open spec fn chunk_end(i: nat, len: nat, max: nat) -> nat {
    if (i + 1) * max < len {
        (i + 1) * max
    } else {
        len
    }
}

/// The bytes of chunk `i` of the file `file`.
pub open spec fn chunk_bytes(file: Seq<u8>, max: nat, i: nat) -> Seq<u8> {
    file.subrange(chunk_start(i, max) as int, chunk_end(i, file.len(), max) as int)
}

/// All chunks of `file`, in order.
pub open spec fn chunks_of(file: Seq<u8>, max: nat) -> Seq<Seq<u8>> {
    Seq::new(chunk_count(file.len(), max), |i: int| chunk_bytes(file, max, i as nat))
}

/// The parts joined end to end, in order.
pub open spec fn concat(parts: Seq<Seq<u8>>) -> Seq<u8>
    decreases parts.len(),
{
    if parts.len() == 0 {
        Seq::empty()
    } else {
        concat(parts.drop_last()) + parts.last()
    }
}

/// The chunk count is the ceiling of `len / max`: the least number of
/// chunks of at most `max` bytes that can hold `len` bytes.
pub proof fn lemma_chunk_count_is_ceiling(len: nat, max: nat)
    requires
        max >= 1,
    ensures
        chunks_hold(chunk_count(len, max), len, max),
        len > 0 ==> chunk_count(len, max) >= 1 && (chunk_count(len, max) - 1) * max < len,
        len == 0 ==> chunk_count(len, max) == 0,
        forall|n: nat| #[trigger] chunks_hold(n, len, max) ==> n >= chunk_count(len, max),
{
    let m = max as int;
    let c = (len + max - 1) / m;
    assert(c * m <= len + m - 1 < c * m + m) by (nonlinear_arith)
        requires
            m >= 1,
            c == (len + m - 1) / m,
    ;
    assert(c >= 0) by (nonlinear_arith)
        requires
            m >= 1,
            c * m + m > len + m - 1,
            len >= 0,
    ;
    assert((c - 1) * m == c * m - m) by (nonlinear_arith);
    if len == 0 {
        assert(c == 0) by (nonlinear_arith)
            requires
                m >= 1,
                c >= 0,
                c * m <= m - 1,
        ;
    } else {
        assert(c >= 1) by (nonlinear_arith)
            requires
                m >= 1,
                c * m + m > len + m - 1,
                len >= 1,
        ;
    }
    assert forall|n: nat| #[trigger] chunks_hold(n, len, max) implies n >= chunk_count(
        len,
        max,
    ) by {
        assert(n >= c) by (nonlinear_arith)
            requires
                m >= 1,
                n * m >= len,
                c * m - m < len,
        ;
    }
}

/// The chunks tile the file: chunk 0 starts at offset 0, every chunk starts
/// where the one before it ends, none is empty, none is longer than `max`,
/// every chunk but the last is exactly `max` bytes long, and the last one
/// ends at the end of the file, so that its length is
/// `len - (count - 1) * max`.
pub proof fn lemma_chunks_tile(len: nat, max: nat, i: nat)
    requires
        max >= 1,
        i < chunk_count(len, max),
    ensures
        chunk_start(0, max) == 0,
        chunk_start(i, max) < chunk_end(i, len, max) <= len,
        chunk_end(i, len, max) - chunk_start(i, max) <= max,
        i + 1 < chunk_count(len, max) ==> chunk_end(i, len, max) == chunk_start(i + 1, max)
            && chunk_end(i, len, max) - chunk_start(i, max) == max,
        i + 1 == chunk_count(len, max) ==> chunk_end(i, len, max) == len && chunk_end(
            i,
            len,
            max,
        ) - chunk_start(i, max) == len - (chunk_count(len, max) - 1) * max,
{
    lemma_chunk_count_is_ceiling(len, max);
    let m = max as int;
    let c = chunk_count(len, max) as int;
    let k = i as int;
    assert((k + 1) * m == k * m + m) by (nonlinear_arith);
    assert(0 * m == 0) by (nonlinear_arith);
    assert(k * m <= (c - 1) * m) by (nonlinear_arith)
        requires
            0 <= k <= c - 1,
            m >= 1,
    ;
    if i + 1 < c {
        assert((k + 1) * m <= (c - 1) * m) by (nonlinear_arith)
            requires
                0 <= k + 1 <= c - 1,
                m >= 1,
        ;
    } else {
        assert((k + 1) * m == c * m);
    }
}

/// Joining the first `k` chunks gives the file up to the end of chunk
/// `k - 1`.
pub proof fn lemma_concat_prefix(file: Seq<u8>, max: nat, k: nat)
    requires
        max >= 1,
        k <= chunk_count(file.len(), max),
    ensures
        k == 0 ==> concat(chunks_of(file, max).take(k as int)) == Seq::<u8>::empty(),
        k > 0 ==> concat(chunks_of(file, max).take(k as int)) == file.subrange(
            0,
            chunk_end((k - 1) as nat, file.len(), max) as int,
        ),
    decreases k,
{
    let parts = chunks_of(file, max).take(k as int);
    if k == 0 {
        assert(parts.len() == 0);
    } else {
        let j = (k - 1) as nat;
        lemma_concat_prefix(file, max, j);
        lemma_chunks_tile(file.len(), max, j);
        assert(parts.drop_last() == chunks_of(file, max).take(j as int));
        assert(parts.last() == chunk_bytes(file, max, j));
        if j > 0 {
            lemma_chunks_tile(file.len(), max, (j - 1) as nat);
            assert(chunk_end((j - 1) as nat, file.len(), max) == chunk_start(j, max));
        }
        assert(concat(parts) == concat(parts.drop_last()) + parts.last());
        assert(concat(parts) == file.subrange(0, chunk_end(j, file.len(), max) as int));
    }
}

/// The chunks of a file, joined in order, are the file.
pub proof fn lemma_concat_chunks(file: Seq<u8>, max: nat)
    requires
        max >= 1,
    ensures
        concat(chunks_of(file, max)) == file,
{
    let n = chunk_count(file.len(), max);
    lemma_chunk_count_is_ceiling(file.len(), max);
    lemma_concat_prefix(file, max, n);
    assert(chunks_of(file, max).take(n as int) == chunks_of(file, max));
    if n > 0 {
        lemma_chunks_tile(file.len(), max, (n - 1) as nat);
        assert(file.subrange(0, file.len() as int) == file);
    } else {
        assert(file == Seq::<u8>::empty());
    }
}

/// Joining parts is joining the first part to the join of the others.
pub proof fn lemma_concat_first(parts: Seq<Seq<u8>>)
    requires
        parts.len() > 0,
    ensures
        concat(parts) == parts.first() + concat(parts.drop_first()),
    decreases parts.len(),
{
    if parts.len() == 1 {
        assert(parts.drop_last().len() == 0);
        assert(parts.drop_first().len() == 0);
        assert(concat(parts) == concat(parts.drop_last()) + parts.last());
        assert(Seq::<u8>::empty() + parts.last() == parts.first() + Seq::<u8>::empty());
    } else {
        lemma_concat_first(parts.drop_last());
        let tail = parts.drop_first();
        assert(tail.drop_last() == parts.drop_last().drop_first());
        assert(tail.last() == parts.last());
        assert(concat(tail) == concat(tail.drop_last()) + tail.last());
        assert(parts.drop_last().first() == parts.first());
        assert((parts.first() + concat(tail.drop_last())) + parts.last() == parts.first() + (
        concat(tail.drop_last()) + parts.last()));
    }
}

/// One chunk of a file: its position, the hash of its bytes, and the bytes.
#[derive(Clone, Debug, PartialEq, Eq)]
pub struct Chunk {
    pub index: usize,
    pub content_hash: String,
    pub bytes: Vec<u8>,
}

/// A chunk as a mathematical value.
pub struct ChunkView {
    pub index: nat,
    pub content_hash: Seq<char>,
    pub bytes: Seq<u8>,
}

impl View for Chunk {
    type V = ChunkView;

    open spec fn view(&self) -> ChunkView {
        ChunkView { index: self.index as nat, content_hash: self.content_hash@, bytes: self.bytes@ }
    }
}

/// A file after chunking: the hash of the whole file and its chunks in order.
#[derive(Clone, Debug, PartialEq, Eq)]
pub struct ChunkedFile {
    pub whole_file_hash: String,
    pub chunks: Vec<Chunk>,
}

/// A chunked file as a mathematical value.
pub struct ChunkedFileView {
    pub whole_file_hash: Seq<char>,
    pub chunks: Seq<ChunkView>,
}

impl View for ChunkedFile {
    type V = ChunkedFileView;

    open spec fn view(&self) -> ChunkedFileView {
        ChunkedFileView {
            whole_file_hash: self.whole_file_hash@,
            chunks: self.chunks@.map_values(|c: Chunk| c@),
        }
    }
}

/// Chunk `i` of `file` with its hash.
pub open spec fn chunk_of(file: Seq<u8>, max: nat, i: nat) -> ChunkView {
    ChunkView {
        index: i,
        content_hash: content_hash(chunk_bytes(file, max, i)),
        bytes: chunk_bytes(file, max, i),
    }
}

/// What chunking makes of `file`.
pub open spec fn chunking(file: Seq<u8>, max: nat) -> ChunkedFileView {
    ChunkedFileView {
        whole_file_hash: content_hash(file),
        chunks: Seq::new(chunk_count(file.len(), max), |i: int| chunk_of(file, max, i as nat)),
    }
}

/// The outcome of chunking `file` under the given limits.
pub open spec fn chunk_outcome(file: Seq<u8>, file_max: nat, chunk_max: nat) -> Result<
    ChunkedFileView,
    AttachmentError,
> {
    if file.len() > file_max {
        Err(AttachmentError::FileTooLarge)
    } else if file.len() == 0 {
        Err(AttachmentError::EmptyFile)
    } else {
        Ok(chunking(file, chunk_max))
    }
}

/// The view of a result of `chunk`.
pub open spec fn chunk_result_view(r: Result<ChunkedFile, AttachmentError>) -> Result<
    ChunkedFileView,
    AttachmentError,
> {
    match r {
        Ok(chunked) => Ok(chunked@),
        Err(e) => Err(e),
    }
}

/// The number of chunks of a file of `len` bytes.
pub fn chunk_count_of(len: usize, limits: &Limits) -> (n: usize)
    ensures
        n == chunk_count(len as nat, limits.chunk_max()),
{
    let max = limits.chunk_max_size();
    if len == 0 {
        proof {
            lemma_chunk_count_is_ceiling(0, max as nat);
        }
        0
    } else {
        let n = (len - 1) / max + 1;
        proof {
            let m = max as int;
            assert((len - 1 + m) / m == (len - 1) / m + 1) by (nonlinear_arith)
                requires
                    m >= 1,
                    len >= 1,
            ;
        }
        n
    }
}

/// The bytes of chunk `i` of `file`, borrowed from it.
pub fn chunk_slice<'a>(file: &'a [u8], limits: &Limits, i: usize) -> (out: &'a [u8])
    requires
        i < chunk_count(file@.len(), limits.chunk_max()),
    ensures
        out@ == chunk_bytes(file@, limits.chunk_max(), i as nat),
        0 < out@.len() <= limits.chunk_max(),
{
    let max = limits.chunk_max_size();
    let len = file.len();
    proof {
        lemma_chunks_tile(len as nat, max as nat, i as nat);
        assert((i + 1) * max == i * max + max) by (nonlinear_arith);
    }
    let start = i * max;
    let end = if len - start > max {
        start + max
    } else {
        len
    };
    slice_subrange(file, start, end)
}

/// Splits `file` into chunks of at most `limits.chunk_max()` bytes and
/// hashes the file and each chunk. A file above the size limit is refused
/// before anything else is looked at, and so is an empty file.
pub fn chunk(file: &[u8], limits: &Limits) -> (r: Result<ChunkedFile, AttachmentError>)
    ensures
        chunk_result_view(r) == chunk_outcome(file@, limits.file_max(), limits.chunk_max()),
{
    if file.len() > limits.file_max_size() {
        return Err(AttachmentError::FileTooLarge);
    }
    if file.len() == 0 {
        return Err(AttachmentError::EmptyFile);
    }
    let ghost max = limits.chunk_max();
    let whole_file_hash = content_hash_text(file);
    let count = chunk_count_of(file.len(), limits);
    let mut chunks: Vec<Chunk> = Vec::new();
    let mut i: usize = 0;
    while i < count
        invariant
            i <= count,
            count == chunk_count(file@.len(), max),
            max == limits.chunk_max(),
            chunks@.len() == i,
            forall|j: int| 0 <= j < i ==> (#[trigger] chunks@[j])@ == chunk_of(file@, max, j as nat),
        decreases count - i,
    {
        let part = chunk_slice(file, limits, i);
        let content_hash = content_hash_text(part);
        chunks.push(Chunk { index: i, content_hash, bytes: slice_to_vec(part) });
        i += 1;
    }
    let chunked = ChunkedFile { whole_file_hash, chunks };
    proof {
        assert(chunked@.chunks =~= chunking(file@, max).chunks);
    }
    Ok(chunked)
}

} // verus!
