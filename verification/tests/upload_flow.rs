use flowy_upload::config::Config;
use flowy_upload::service::{Action, UploadManager};
use flowy_upload::task::{ErrorKind, UploadState};

fn test_config() -> Config {
    Config::make(4, 100, 3, 3).unwrap()
}

fn hash_bytes(b: &[u8]) -> u64 {
    b.iter().fold(1469598103934665603u64, |h, &x| (h ^ x as u64).wrapping_mul(1099511628211))
}

/// Drives one dispatched task to completion against an in-memory remote,
/// returning the bytes the remote assembled.
fn drive_to_finish(mgr: &mut UploadManager, fid: u64, source: &[u8]) -> Vec<u8> {
    let mut remote: Vec<u8> = Vec::new();
    let mut next = mgr.on_source_validated(fid, true);
    while let Some(act) = next {
        match act {
            Action::SendChunk { file_id, index, offset, len, .. } => {
                assert_eq!(file_id, fid);
                remote.extend_from_slice(&source[offset as usize..(offset + len) as usize]);
                next = mgr.on_chunk_result(file_id, index, true);
            }
            Action::Finalize { file_id, .. } => {
                mgr.on_finalize_result(file_id, true);
                next = None;
            }
            other => panic!("unexpected action {:?}", other),
        }
    }
    remote
}

#[test]
fn single_upload_completes_and_round_trips() {
    let mut mgr = UploadManager::new(test_config());
    let source: Vec<u8> = (0u8..10).collect();
    let (fid, sub) = mgr
        .create_upload(1, 2, hash_bytes(&source), "a.bin".to_string(), 10, 7, true)
        .unwrap();
    assert!(sub.is_some());
    let act = mgr.dispatch().unwrap();
    assert!(matches!(act, Action::ValidateSource { file_id, expected_size: 10 } if file_id == fid));
    let remote = drive_to_finish(&mut mgr, fid, &source);
    assert_eq!(mgr.get_file_state(fid), Some(UploadState::Finished));
    assert_eq!(hash_bytes(&remote), hash_bytes(&source));
    // a finished task leaves the pending listing
    assert!(mgr.get_all_tasks().is_empty());
}

#[test]
fn zero_byte_file_finalizes_without_chunks() {
    let mut mgr = UploadManager::new(test_config());
    let (fid, _) = mgr
        .create_upload(1, 2, 99, "empty.bin".to_string(), 0, 7, true)
        .unwrap();
    mgr.dispatch().unwrap();
    let act = mgr.on_source_validated(fid, true).unwrap();
    assert!(matches!(act, Action::Finalize { chunk_count: 0, .. }));
    mgr.on_finalize_result(fid, true);
    assert_eq!(mgr.get_file_state(fid), Some(UploadState::Finished));
}

#[test]
fn create_upload_is_idempotent() {
    let mut mgr = UploadManager::new(test_config());
    let (fid1, _) = mgr
        .create_upload(1, 2, 42, "a.bin".to_string(), 10, 7, true)
        .unwrap();
    let (fid2, sub2) = mgr
        .create_upload(1, 2, 42, "a.bin".to_string(), 10, 8, true)
        .unwrap();
    assert_eq!(fid1, fid2);
    assert!(sub2.is_some());
    assert_eq!(mgr.get_all_tasks().len(), 1);
}

#[test]
fn create_after_finish_returns_no_subscription() {
    let mut mgr = UploadManager::new(test_config());
    let source: Vec<u8> = (0u8..10).collect();
    let (fid, _) = mgr
        .create_upload(1, 2, hash_bytes(&source), "a.bin".to_string(), 10, 7, true)
        .unwrap();
    mgr.dispatch().unwrap();
    drive_to_finish(&mut mgr, fid, &source);
    let (fid2, sub2) = mgr
        .create_upload(1, 2, hash_bytes(&source), "a.bin".to_string(), 10, 9, true)
        .unwrap();
    assert_eq!(fid2, fid);
    assert!(sub2.is_none());
}

#[test]
fn oversized_file_is_rejected_at_admission() {
    let mut mgr = UploadManager::new(test_config());
    let r = mgr.create_upload(1, 2, 5, "big.bin".to_string(), 101, 7, true);
    assert_eq!(r, Err(ErrorKind::SizeLimitExceeded));
    assert!(mgr.get_all_tasks().is_empty());
    assert!(mgr.dispatch().is_none());
}

#[test]
fn persistence_failure_rolls_back() {
    let mut mgr = UploadManager::new(test_config());
    let r = mgr.create_upload(1, 2, 5, "a.bin".to_string(), 10, 7, false);
    assert_eq!(r, Err(ErrorKind::PersistenceError));
    assert!(mgr.get_all_tasks().is_empty());
}

#[test]
fn worker_pool_is_bounded() {
    let mut mgr = UploadManager::new(Config::make(4, 100, 2, 3).unwrap());
    for n in 0..3u64 {
        mgr.create_upload(1, 2, n, format!("f{}.bin", n), 10, 7, true).unwrap();
    }
    assert!(mgr.dispatch().is_some());
    assert!(mgr.dispatch().is_some());
    // both workers busy: the third task must wait
    assert!(mgr.dispatch().is_none());
}

#[test]
fn six_files_of_distinct_sizes_all_finish() {
    let mut mgr = UploadManager::new(Config::make(1024, 20 * 1024, 3, 3).unwrap());
    let mut files: Vec<(u64, Vec<u8>)> = Vec::new();
    for n in 0..6u64 {
        let size = (n as usize + 10) * 1024;
        let source: Vec<u8> = (0..size).map(|i| (i % 251) as u8).collect();
        let (fid, _) = mgr
            .create_upload(1, 2, hash_bytes(&source), format!("f{}.bin", n), size as u64, 7, true)
            .unwrap();
        files.push((fid, source));
    }
    // the pool is narrower than the queue: keep dispatching until done
    loop {
        let Some(act) = mgr.dispatch() else { break };
        let Action::ValidateSource { file_id, .. } = act else {
            panic!("unexpected action {:?}", act)
        };
        let source = files.iter().find(|(f, _)| *f == file_id).unwrap().1.clone();
        let remote = drive_to_finish(&mut mgr, file_id, &source);
        assert_eq!(hash_bytes(&remote), hash_bytes(&source));
    }
    for (fid, _) in &files {
        assert_eq!(mgr.get_file_state(*fid), Some(UploadState::Finished));
    }
}
