use snapmail_attachment::encoding::encode_chunk;
use snapmail_attachment::error::AttachmentError;
use snapmail_attachment::error::StoreRecord;
use snapmail_attachment::limits::Limits;
use snapmail_attachment::publisher::check_source;
use snapmail_attachment::publisher::PublishStep;
use snapmail_attachment::publisher::Publisher;
use snapmail_attachment::publisher::WriteOutcome;
use snapmail_attachment::reconstructor::check_integrity;
use snapmail_attachment::reconstructor::IntegrityPolicy;
use snapmail_attachment::reconstructor::OutputFile;
use snapmail_attachment::reconstructor::ReadOutcome;
use snapmail_attachment::reconstructor::ReconstructStep;
use snapmail_attachment::reconstructor::Reconstructor;
use snapmail_attachment::record::ChunkRecord;
use snapmail_attachment::record::FileInfo;
use snapmail_attachment::record::Manifest;

const MIB: usize = 1024 * 1024;

/// A store in memory. Handles are numbers; a chunk write can be made to
/// fail, and chunks can be taken out again.
struct MemoryStore {
    chunks: Vec<Option<ChunkRecord>>,
    manifests: Vec<Manifest<u64>>,
    failing_chunk_write: Option<usize>,
    failing_manifest_write: bool,
    failing_chunk_read: Option<u64>,
    chunk_writes: usize,
    manifest_writes: usize,
    chunk_reads: Vec<u64>,
}

impl MemoryStore {
    fn new() -> MemoryStore {
        MemoryStore {
            chunks: Vec::new(),
            manifests: Vec::new(),
            failing_chunk_write: None,
            failing_manifest_write: false,
            failing_chunk_read: None,
            chunk_writes: 0,
            manifest_writes: 0,
            chunk_reads: Vec::new(),
        }
    }

    fn write_chunk(&mut self, record: ChunkRecord) -> WriteOutcome<u64> {
        let call = self.chunk_writes;
        self.chunk_writes += 1;
        if self.failing_chunk_write == Some(call) {
            return WriteOutcome::Failed;
        }
        self.chunks.push(Some(record));
        WriteOutcome::Stored(100 + self.chunks.len() as u64 - 1)
    }

    fn write_manifest(&mut self, manifest: Manifest<u64>) -> WriteOutcome<u64> {
        self.manifest_writes += 1;
        if self.failing_manifest_write {
            return WriteOutcome::Failed;
        }
        self.manifests.push(manifest);
        WriteOutcome::Stored(9000 + self.manifests.len() as u64 - 1)
    }

    fn read_manifest(&self, handle: u64) -> ReadOutcome<Manifest<u64>> {
        match handle.checked_sub(9000).and_then(|i| self.manifests.get(i as usize)) {
            Some(manifest) => ReadOutcome::Found(manifest.clone()),
            None => ReadOutcome::Missing,
        }
    }

    fn read_chunk(&mut self, handle: u64) -> ReadOutcome<String> {
        self.chunk_reads.push(handle);
        if self.failing_chunk_read == Some(handle) {
            return ReadOutcome::Failed;
        }
        match handle.checked_sub(100).and_then(|i| self.chunks.get(i as usize)) {
            Some(Some(record)) => ReadOutcome::Found(record.encoded_bytes.clone()),
            _ => ReadOutcome::Missing,
        }
    }
}

fn sample(len: usize) -> Vec<u8> {
    (0..len).map(|i| (i * 131 + i / 977) as u8).collect()
}

fn info() -> FileInfo {
    FileInfo::new(Some("photo.png".to_string()), "png".to_string())
}

fn publish(
    store: &mut MemoryStore,
    file: Vec<u8>,
    limits: Limits,
) -> Result<u64, AttachmentError> {
    let mut step = Publisher::start(file, info(), limits);
    loop {
        step = match step {
            PublishStep::WriteChunk(publisher, record) => {
                publisher.resume(store.write_chunk(record))
            }
            PublishStep::WriteManifest(publisher, manifest) => {
                publisher.resume(store.write_manifest(manifest))
            }
            PublishStep::Done(handle) => return Ok(handle),
            PublishStep::Failed(error) => return Err(error),
        }
    }
}

fn reconstruct(
    store: &mut MemoryStore,
    handle: u64,
    policy: IntegrityPolicy,
) -> Result<OutputFile, AttachmentError> {
    let mut step = Reconstructor::start(store.read_manifest(handle), policy);
    loop {
        step = match step {
            ReconstructStep::ReadChunk(reconstructor, chunk) => {
                reconstructor.resume(store.read_chunk(chunk))
            }
            ReconstructStep::WriteFile(file) => return Ok(file),
            ReconstructStep::Failed(error) => return Err(error),
        }
    }
}

fn hash_text(bytes: &[u8]) -> String {
    String::from_utf8_lossy(&holo_hash::encode::blake2b_256(bytes)).to_string()
}

#[test]
fn a_published_file_is_rebuilt_byte_for_byte() {
    for (len, max) in [(1, 1), (1, 7), (7, 7), (8, 7), (100, 1), (100, 33), (4096, 1000)] {
        for policy in [IntegrityPolicy::TrustStore, IntegrityPolicy::Verify] {
            let file = sample(len);
            let mut store = MemoryStore::new();
            let limits = Limits::new(len, max).unwrap();
            let handle = publish(&mut store, file.clone(), limits).unwrap();
            let rebuilt = reconstruct(&mut store, handle, policy).unwrap();
            assert_eq!(rebuilt.data, file);
            assert_eq!(rebuilt.filename, "photo.png");
        }
    }
}

#[test]
fn ten_mib_are_published_in_three_chunks_and_rebuilt() {
    let file = sample(10 * MIB);
    let mut store = MemoryStore::new();
    let limits = Limits::new(10 * MIB, 4 * MIB).unwrap();
    let handle = publish(&mut store, file.clone(), limits).unwrap();
    assert_eq!(store.chunk_writes, 3);
    assert_eq!(store.manifest_writes, 1);
    let sizes: Vec<usize> = store
        .chunks
        .iter()
        .map(|c| {
            base64::decode_config(&c.as_ref().unwrap().encoded_bytes, base64::URL_SAFE_NO_PAD)
                .unwrap()
                .len()
        })
        .collect();
    assert_eq!(sizes, vec![4 * MIB, 4 * MIB, 2 * MIB]);
    let rebuilt = reconstruct(&mut store, handle, IntegrityPolicy::Verify).unwrap();
    assert_eq!(store.chunk_reads, vec![100, 101, 102]);
    assert!(rebuilt.data == file);
}

#[test]
fn the_publisher_writes_the_records_in_file_order() {
    let file = b"0123456789".to_vec();
    let mut store = MemoryStore::new();
    let limits = Limits::new(100, 4).unwrap();
    let handle = publish(&mut store, file.clone(), limits).unwrap();
    assert_eq!(handle, 9000);
    let parts: [&[u8]; 3] = [b"0123", b"4567", b"89"];
    assert_eq!(store.chunks.len(), 3);
    for (i, part) in parts.iter().enumerate() {
        let record = store.chunks[i].clone().unwrap();
        assert_eq!(record.index, i);
        assert_eq!(record.content_hash, hash_text(part));
        assert_eq!(record.encoded_bytes, encode_chunk(part));
    }
    assert_eq!(store.chunks[2].clone().unwrap().encoded_bytes, "ODk");
    assert_eq!(
        store.manifests,
        vec![Manifest {
            whole_file_hash: hash_text(&file),
            filename: "photo.png".to_string(),
            file_extension: "png".to_string(),
            original_size: 10,
            chunk_handles: vec![100, 101, 102],
        }]
    );
}

#[test]
fn a_file_at_the_size_limit_is_published() {
    let mut store = MemoryStore::new();
    let limits = Limits::new(64, 10).unwrap();
    assert!(publish(&mut store, sample(64), limits).is_ok());
    assert_eq!(store.chunk_writes, 7);
    assert_eq!(store.manifest_writes, 1);
}

#[test]
fn a_file_above_the_size_limit_is_refused_before_any_write() {
    let mut store = MemoryStore::new();
    let limits = Limits::new(64, 10).unwrap();
    assert_eq!(publish(&mut store, sample(65), limits), Err(AttachmentError::FileTooLarge));
    assert_eq!(store.chunk_writes, 0);
    assert_eq!(store.manifest_writes, 0);
}

#[test]
fn an_empty_file_is_refused_before_any_write() {
    let mut store = MemoryStore::new();
    let limits = Limits::new(64, 10).unwrap();
    assert_eq!(publish(&mut store, Vec::new(), limits), Err(AttachmentError::EmptyFile));
    assert_eq!(store.chunk_writes, 0);
    assert_eq!(store.manifest_writes, 0);
}

#[test]
fn a_failed_chunk_write_ends_the_publication_without_a_manifest() {
    for failing in 0..5usize {
        let mut store = MemoryStore::new();
        store.failing_chunk_write = Some(failing);
        let limits = Limits::new(64, 10).unwrap();
        assert_eq!(
            publish(&mut store, sample(50), limits),
            Err(AttachmentError::StoreWriteFailed(StoreRecord::Chunk(failing)))
        );
        assert_eq!(store.chunk_writes, failing + 1);
        assert_eq!(store.manifest_writes, 0);
        assert!(store.manifests.is_empty());
    }
}

#[test]
fn a_failed_manifest_write_ends_the_publication() {
    let mut store = MemoryStore::new();
    store.failing_manifest_write = true;
    let limits = Limits::new(64, 10).unwrap();
    assert_eq!(
        publish(&mut store, sample(50), limits),
        Err(AttachmentError::StoreWriteFailed(StoreRecord::Manifest))
    );
    assert_eq!(store.chunk_writes, 5);
    assert_eq!(store.manifest_writes, 1);
}

#[test]
fn the_source_is_checked_before_it_is_read() {
    let limits = Limits::new(64, 10).unwrap();
    assert_eq!(check_source(64, true, &limits), Ok(()));
    assert_eq!(check_source(1, true, &limits), Ok(()));
    assert_eq!(check_source(65, true, &limits), Err(AttachmentError::FileTooLarge));
    assert_eq!(check_source(65, false, &limits), Err(AttachmentError::FileTooLarge));
    assert_eq!(check_source(u64::MAX, true, &limits), Err(AttachmentError::FileTooLarge));
    assert_eq!(check_source(10, false, &limits), Err(AttachmentError::NotARegularFile));
    assert_eq!(check_source(0, false, &limits), Err(AttachmentError::NotARegularFile));
    assert_eq!(check_source(0, true, &limits), Err(AttachmentError::EmptyFile));
}

#[test]
fn a_missing_manifest_is_not_found() {
    let mut store = MemoryStore::new();
    assert_eq!(
        reconstruct(&mut store, 9000, IntegrityPolicy::TrustStore),
        Err(AttachmentError::NotFound(StoreRecord::Manifest))
    );
    assert!(store.chunk_reads.is_empty());
}

#[test]
fn an_unreadable_manifest_ends_the_reconstruction() {
    let step: ReconstructStep<u64> =
        Reconstructor::start(ReadOutcome::Failed, IntegrityPolicy::TrustStore);
    match step {
        ReconstructStep::Failed(error) => {
            assert_eq!(error, AttachmentError::StoreReadFailed(StoreRecord::Manifest))
        }
        _ => panic!("the reconstruction went on"),
    }
}

#[test]
fn a_missing_third_chunk_is_not_found_and_nothing_is_written() {
    let mut store = MemoryStore::new();
    let limits = Limits::new(10 * MIB, 4 * MIB).unwrap();
    let handle = publish(&mut store, sample(10 * MIB), limits).unwrap();
    store.chunks[2] = None;
    for policy in [IntegrityPolicy::TrustStore, IntegrityPolicy::Verify] {
        store.chunk_reads.clear();
        assert_eq!(
            reconstruct(&mut store, handle, policy),
            Err(AttachmentError::NotFound(StoreRecord::Chunk(2)))
        );
        assert_eq!(store.chunk_reads, vec![100, 101, 102]);
    }
}

#[test]
fn a_failed_chunk_read_ends_the_reconstruction() {
    let mut store = MemoryStore::new();
    let limits = Limits::new(100, 10).unwrap();
    let handle = publish(&mut store, sample(35), limits).unwrap();
    store.failing_chunk_read = Some(101);
    assert_eq!(
        reconstruct(&mut store, handle, IntegrityPolicy::TrustStore),
        Err(AttachmentError::StoreReadFailed(StoreRecord::Chunk(1)))
    );
    assert_eq!(store.chunk_reads, vec![100, 101]);
}

#[test]
fn a_chunk_that_is_no_base64_ends_the_reconstruction() {
    let mut store = MemoryStore::new();
    let limits = Limits::new(100, 10).unwrap();
    let handle = publish(&mut store, sample(35), limits).unwrap();
    store.chunks[3].as_mut().unwrap().encoded_bytes = "not base64!".to_string();
    assert_eq!(
        reconstruct(&mut store, handle, IntegrityPolicy::TrustStore),
        Err(AttachmentError::MalformedChunk(3))
    );
}

#[test]
fn chunks_are_appended_in_manifest_order() {
    let mut store = MemoryStore::new();
    for part in [&b"ab"[..], &b"cd"[..], &b"e"[..]] {
        store.chunks.push(Some(ChunkRecord {
            content_hash: hash_text(part),
            index: 0,
            encoded_bytes: encode_chunk(part),
        }));
    }
    store.manifests.push(Manifest {
        whole_file_hash: String::new(),
        filename: "letters.txt".to_string(),
        file_extension: "txt".to_string(),
        original_size: 0,
        chunk_handles: vec![102, 100, 100, 101],
    });
    let rebuilt = reconstruct(&mut store, 9000, IntegrityPolicy::TrustStore).unwrap();
    assert_eq!(rebuilt.data, b"eababcd".to_vec());
    assert_eq!(rebuilt.filename, "letters.txt");
    assert_eq!(store.chunk_reads, vec![102, 100, 100, 101]);
}

#[test]
fn a_manifest_without_chunks_gives_an_empty_file() {
    let mut store = MemoryStore::new();
    store.manifests.push(Manifest {
        whole_file_hash: hash_text(b""),
        filename: "empty".to_string(),
        file_extension: String::new(),
        original_size: 0,
        chunk_handles: vec![],
    });
    for policy in [IntegrityPolicy::TrustStore, IntegrityPolicy::Verify] {
        let rebuilt = reconstruct(&mut store, 9000, policy).unwrap();
        assert_eq!(rebuilt, OutputFile { filename: "empty".to_string(), data: vec![] });
    }
}

#[test]
fn the_store_is_trusted_unless_asked_to_verify() {
    let mut store = MemoryStore::new();
    let limits = Limits::new(100, 10).unwrap();
    let file = sample(35);
    let handle = publish(&mut store, file.clone(), limits).unwrap();
    store.chunks[1].as_mut().unwrap().encoded_bytes = encode_chunk(b"tampered!!");
    let mut tampered = file.clone();
    tampered[10..20].copy_from_slice(b"tampered!!");
    assert_eq!(
        reconstruct(&mut store, handle, IntegrityPolicy::TrustStore).unwrap().data,
        tampered
    );
    assert_eq!(
        reconstruct(&mut store, handle, IntegrityPolicy::Verify),
        Err(AttachmentError::HashMismatch)
    );
    store.chunks[1].as_mut().unwrap().encoded_bytes = encode_chunk(b"short");
    assert_eq!(
        reconstruct(&mut store, handle, IntegrityPolicy::TrustStore).unwrap().data.len(),
        30
    );
    assert_eq!(
        reconstruct(&mut store, handle, IntegrityPolicy::Verify),
        Err(AttachmentError::SizeMismatch)
    );
}

#[test]
fn integrity_is_checked_as_the_policy_asks() {
    let recorded = "abc".to_string();
    let other = "abd".to_string();
    let trust = IntegrityPolicy::TrustStore;
    let verify = IntegrityPolicy::Verify;
    assert_eq!(check_integrity(trust, 3, &recorded, 3, &recorded), None);
    assert_eq!(check_integrity(trust, 3, &recorded, 4, &other), None);
    assert_eq!(check_integrity(verify, 3, &recorded, 3, &recorded), None);
    assert_eq!(
        check_integrity(verify, 3, &recorded, 4, &recorded),
        Some(AttachmentError::SizeMismatch)
    );
    assert_eq!(
        check_integrity(verify, 3, &recorded, 2, &other),
        Some(AttachmentError::SizeMismatch)
    );
    assert_eq!(
        check_integrity(verify, 3, &recorded, 3, &other),
        Some(AttachmentError::HashMismatch)
    );
}

#[test]
fn decoded_chunks_can_be_handed_in_directly() {
    let manifest = Manifest {
        whole_file_hash: String::new(),
        filename: "x".to_string(),
        file_extension: String::new(),
        original_size: 3,
        chunk_handles: vec![5u64, 6],
    };
    let step = Reconstructor::start(ReadOutcome::Found(manifest), IntegrityPolicy::TrustStore);
    let step = match step {
        ReconstructStep::ReadChunk(r, 5) => r.resume_decoded(ReadOutcome::Found(Some(vec![1, 2]))),
        _ => panic!("the first chunk was not asked for"),
    };
    let step = match step {
        ReconstructStep::ReadChunk(r, 6) => r.resume_decoded(ReadOutcome::Found(None)),
        _ => panic!("the second chunk was not asked for"),
    };
    match step {
        ReconstructStep::Failed(error) => assert_eq!(error, AttachmentError::MalformedChunk(1)),
        _ => panic!("the reconstruction went on"),
    }
}

#[test]
fn a_file_without_a_name_gets_the_fixed_name() {
    assert_eq!(
        FileInfo::new(None, "bin".to_string()),
        FileInfo { filename: "__no_filename_found_".to_string(), file_extension: "bin".to_string() }
    );
    assert_eq!(
        FileInfo::new(Some("a.tar.gz".to_string()), "gz".to_string()),
        FileInfo { filename: "a.tar.gz".to_string(), file_extension: "gz".to_string() }
    );
}

#[test]
fn errors_describe_themselves() {
    assert_eq!(AttachmentError::FileTooLarge.message(), "Attachment too big!");
    assert_eq!(AttachmentError::NotARegularFile.message(), "Attachment is not a file!");
    assert_eq!(AttachmentError::EmptyFile.message(), "Attachment is empty!");
    let others = [
        AttachmentError::StoreWriteFailed(StoreRecord::Manifest),
        AttachmentError::StoreReadFailed(StoreRecord::Chunk(2)),
        AttachmentError::NotFound(StoreRecord::Chunk(0)),
        AttachmentError::MalformedChunk(1),
        AttachmentError::SizeMismatch,
        AttachmentError::HashMismatch,
    ];
    for error in others {
        assert!(!error.message().is_empty());
    }
}
