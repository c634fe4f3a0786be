use flowy_upload::config::Config;
use flowy_upload::service::{Action, UploadManager};
use flowy_upload::task::{ErrorKind, UploadState};

fn test_config() -> Config {
    Config::make(4, 100, 3, 3).unwrap()
}

#[test]
fn deleting_mid_upload_cancels_the_task() {
    let mut mgr = UploadManager::new(test_config());
    let (fid, _) = mgr
        .create_upload(1, 2, 3, "a.bin".to_string(), 10, 7, true)
        .unwrap();
    mgr.dispatch().unwrap();
    let act = mgr.on_source_validated(fid, true).unwrap();
    let Action::SendChunk { index: 0, .. } = act else { panic!("expected chunk 0") };

    let r = mgr.delete_object(fid).unwrap();
    assert_eq!(r, Some(Action::DeleteRemote { file_id: fid }));
    // gone from the pending listing, no state to report
    assert!(mgr.get_all_tasks().is_empty());
    assert_eq!(mgr.get_file_state(fid), None);
    // the in-flight chunk's outcome is ignored: the task never finishes
    assert!(mgr.on_chunk_result(fid, 0, true).is_none());
    mgr.on_finalize_result(fid, true);
    assert_eq!(mgr.get_file_state(fid), None);
    // deletion is idempotent; an unknown key is NotFound
    assert_eq!(mgr.delete_object(fid), Ok(None));
    assert_eq!(mgr.delete_object(999), Err(ErrorKind::NotFound));
}

#[test]
fn transport_retries_then_fails_keeping_offsets() {
    let mut mgr = UploadManager::new(Config::make(4, 100, 3, 3).unwrap());
    let (fid, _) = mgr
        .create_upload(1, 2, 3, "a.bin".to_string(), 10, 7, true)
        .unwrap();
    mgr.dispatch().unwrap();
    mgr.on_source_validated(fid, true).unwrap();
    mgr.on_chunk_result(fid, 0, true).unwrap();

    // chunk 1 fails three times: two retries with growing attempt counters
    let act = mgr.on_chunk_result(fid, 1, false).unwrap();
    let Action::SendChunk { index: 1, attempt: 1, .. } = act else {
        panic!("expected first retry, got {:?}", act)
    };
    let act = mgr.on_chunk_result(fid, 1, false).unwrap();
    let Action::SendChunk { index: 1, attempt: 2, .. } = act else {
        panic!("expected second retry, got {:?}", act)
    };
    assert!(mgr.on_chunk_result(fid, 1, false).is_none());
    assert_eq!(
        mgr.get_file_state(fid),
        Some(UploadState::Failed { reason: ErrorKind::TransportError })
    );
    // the failed task stays queryable and keeps its committed offsets
    let tasks = mgr.get_all_tasks();
    assert_eq!(tasks.len(), 1);
    assert_eq!(tasks[0].uploaded_chunk_offsets, vec![0]);

    // a fresh create_upload re-enqueues it
    let (fid2, sub) = mgr
        .create_upload(1, 2, 3, "a.bin".to_string(), 10, 8, true)
        .unwrap();
    assert_eq!(fid2, fid);
    assert!(sub.is_some());
    let act = mgr.dispatch().unwrap();
    assert!(matches!(act, Action::ValidateSource { file_id, .. } if file_id == fid));
    let act = mgr.on_source_validated(fid, true).unwrap();
    // resumes at chunk 1: chunk 0 is never re-sent
    assert!(matches!(act, Action::SendChunk { index: 1, .. }));
}

#[test]
fn changed_source_fails_without_retry() {
    let mut mgr = UploadManager::new(test_config());
    let (fid, _) = mgr
        .create_upload(1, 2, 3, "a.bin".to_string(), 10, 7, true)
        .unwrap();
    mgr.dispatch().unwrap();
    assert!(mgr.on_source_validated(fid, false).is_none());
    assert_eq!(
        mgr.get_file_state(fid),
        Some(UploadState::Failed { reason: ErrorKind::SourceFileChanged })
    );
}

#[test]
fn create_after_delete_starts_a_fresh_lifecycle() {
    let mut mgr = UploadManager::new(test_config());
    let (fid, _) = mgr
        .create_upload(1, 2, 3, "a.bin".to_string(), 10, 7, true)
        .unwrap();
    mgr.dispatch().unwrap();
    mgr.on_source_validated(fid, true).unwrap();
    mgr.on_chunk_result(fid, 0, true).unwrap();
    mgr.delete_object(fid).unwrap();

    let (fid2, sub) = mgr
        .create_upload(1, 2, 3, "a.bin".to_string(), 10, 9, true)
        .unwrap();
    assert_eq!(fid2, fid);
    assert!(sub.is_some());
    let tasks = mgr.get_all_tasks();
    assert_eq!(tasks.len(), 1);
    // the fresh lifecycle starts with nothing committed
    assert!(tasks[0].uploaded_chunk_offsets.is_empty());
    assert_eq!(tasks[0].created_at, 9);
}
