use flowy_upload::config::Config;
use flowy_upload::service::{Action, UploadManager};
use flowy_upload::task::UploadState;

fn test_config() -> Config {
    Config::make(4, 100, 3, 3).unwrap()
}

#[test]
fn pause_stops_dispatch_and_resume_completes() {
    let mut mgr = UploadManager::new(test_config());
    let source: Vec<u8> = (0u8..10).collect();
    let (fid, _) = mgr
        .create_upload(1, 2, 77, "a.bin".to_string(), 10, 7, true)
        .unwrap();
    mgr.dispatch().unwrap();
    let act = mgr.on_source_validated(fid, true).unwrap();
    let Action::SendChunk { index: 0, .. } = act else { panic!("expected first chunk") };

    // the network goes away while chunk 0 is in flight
    mgr.update_network_reachable(false);
    assert_eq!(mgr.get_file_state(fid), Some(UploadState::Paused));
    assert!(mgr.dispatch().is_none());

    // the in-flight chunk still lands: committed, but nothing new is sent
    assert!(mgr.on_chunk_result(fid, 0, true).is_none());
    assert_eq!(mgr.get_file_state(fid), Some(UploadState::Paused));
    assert!(mgr.dispatch().is_none());

    // the network returns: the task resumes from its committed offsets
    mgr.update_network_reachable(true);
    let act = mgr.dispatch().unwrap();
    assert!(matches!(act, Action::ValidateSource { file_id, .. } if file_id == fid));
    let mut next = mgr.on_source_validated(fid, true);
    let mut first_resumed_index = None;
    while let Some(act) = next {
        match act {
            Action::SendChunk { index, offset, len, .. } => {
                if first_resumed_index.is_none() {
                    first_resumed_index = Some(index);
                }
                assert!(offset + len <= source.len() as u64);
                next = mgr.on_chunk_result(fid, index, true);
            }
            Action::Finalize { .. } => {
                mgr.on_finalize_result(fid, true);
                next = None;
            }
            other => panic!("unexpected action {:?}", other),
        }
    }
    // chunk 0 was already committed before the pause
    assert_eq!(first_resumed_index, Some(1));
    assert_eq!(mgr.get_file_state(fid), Some(UploadState::Finished));
}

#[test]
fn subscriber_observes_non_decreasing_progress() {
    let mut mgr = UploadManager::new(test_config());
    let (fid, sub) = mgr
        .create_upload(1, 2, 5, "a.bin".to_string(), 10, 7, true)
        .unwrap();
    let mut sub = sub.unwrap();
    mgr.dispatch().unwrap();
    let mut next = mgr.on_source_validated(fid, true);
    while let Some(act) = next {
        match act {
            Action::SendChunk { index, .. } => next = mgr.on_chunk_result(fid, index, true),
            Action::Finalize { .. } => {
                mgr.on_finalize_result(fid, true);
                next = None;
            }
            other => panic!("unexpected action {:?}", other),
        }
    }
    let mut last: u64 = 0;
    let mut saw_finished = false;
    while let Some(ev) = mgr.poll_subscription(&mut sub) {
        match ev {
            UploadState::Uploading { uploaded_bytes, total_bytes } => {
                assert!(!saw_finished);
                assert!(uploaded_bytes >= last);
                assert_eq!(total_bytes, 10);
                last = uploaded_bytes;
            }
            UploadState::Finished => saw_finished = true,
            other => panic!("unexpected event {:?}", other),
        }
    }
    assert!(saw_finished);
    assert_eq!(last, 10);
}

#[test]
fn late_subscriber_replays_last_event() {
    let mut mgr = UploadManager::new(test_config());
    let (fid, _) = mgr
        .create_upload(1, 2, 5, "a.bin".to_string(), 10, 7, true)
        .unwrap();
    mgr.dispatch().unwrap();
    let act = mgr.on_source_validated(fid, true).unwrap();
    let Action::SendChunk { index, .. } = act else { panic!("expected a chunk") };
    mgr.on_chunk_result(fid, index, true);

    let mut late = mgr.subscribe_file_state(2, fid).unwrap();
    let ev = mgr.poll_subscription(&mut late).unwrap();
    assert_eq!(ev, UploadState::Uploading { uploaded_bytes: 4, total_bytes: 10 });
    // under the wrong directory, nothing to attach to
    assert!(mgr.subscribe_file_state(3, fid).is_none());
}
