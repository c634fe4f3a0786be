use flowy_upload::config::Config;
use flowy_upload::service::{Action, UploadManager};
use flowy_upload::task::{TaskStatus, UploadState, UploadTask};

fn test_config() -> Config {
    Config::make(4, 100, 3, 3).unwrap()
}

#[test]
fn restart_resumes_only_the_missing_chunk() {
    let mut mgr = UploadManager::new(test_config());
    // total 10, chunk 4: three chunks
    let (fid, _) = mgr
        .create_upload(1, 2, 9, "a.bin".to_string(), 10, 7, true)
        .unwrap();
    mgr.dispatch().unwrap();
    let act = mgr.on_source_validated(fid, true).unwrap();
    let Action::SendChunk { index: 0, .. } = act else { panic!("expected chunk 0") };
    let act = mgr.on_chunk_result(fid, 0, true).unwrap();
    let Action::SendChunk { index: 1, .. } = act else { panic!("expected chunk 1") };
    mgr.on_chunk_result(fid, 1, true).unwrap();
    // chunks 0 and 1 committed; the process dies here

    let persisted = mgr.get_all_tasks();
    assert_eq!(persisted.len(), 1);
    assert_eq!(persisted[0].uploaded_chunk_offsets, vec![0, 1]);

    let mut recovered = UploadManager::recover(test_config(), persisted);
    assert_eq!(
        recovered.get_file_state(fid),
        Some(UploadState::Uploading { uploaded_bytes: 8, total_bytes: 10 })
    );
    let act = recovered.dispatch().unwrap();
    assert!(matches!(act, Action::ValidateSource { file_id, .. } if file_id == fid));
    let act = recovered.on_source_validated(fid, true).unwrap();
    // only chunk 2 is sent, nothing is re-transmitted
    let Action::SendChunk { index: 2, offset: 8, len: 2, .. } = act else {
        panic!("expected only chunk 2, got {:?}", act)
    };
    let act = recovered.on_chunk_result(fid, 2, true).unwrap();
    let Action::Finalize { chunk_count: 3, .. } = act else { panic!("expected finalize") };
    recovered.on_finalize_result(fid, true);
    assert_eq!(recovered.get_file_state(fid), Some(UploadState::Finished));
}

#[test]
fn recovery_deletes_oversized_records() {
    let task = UploadTask {
        file_id: 11,
        workspace_id: 1,
        parent_dir: 2,
        local_path: "big.bin".to_string(),
        remote_url: None,
        total_size: 101,
        uploaded_chunk_offsets: vec![0, 1],
        status: TaskStatus::Uploading,
        created_at: 7,
    };
    let mgr = UploadManager::recover(test_config(), vec![task]);
    // never dispatched, and its task ends in `Deleted`
    assert!(mgr.get_all_tasks().is_empty());
    assert_eq!(mgr.get_file_state(11), None);
}

#[test]
fn recovery_keeps_terminal_records_terminal() {
    let finished = UploadTask {
        file_id: 21,
        workspace_id: 1,
        parent_dir: 2,
        local_path: "done.bin".to_string(),
        remote_url: Some(21),
        total_size: 8,
        uploaded_chunk_offsets: vec![0, 1],
        status: TaskStatus::Finished,
        created_at: 7,
    };
    let mgr = UploadManager::recover(test_config(), vec![finished]);
    assert_eq!(mgr.get_file_state(21), Some(UploadState::Finished));
    assert!(mgr.get_all_tasks().is_empty());
}
