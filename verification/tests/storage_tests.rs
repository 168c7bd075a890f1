use eye_core::disk::{DiskStore, DiskWriteOutcome};
use eye_core::errors::StoreError;
use eye_core::frame::Frame;
use eye_core::manager::{DiskRequest, Manager, StorageMode};
use eye_core::ring::MemoryStore;

fn frame(id: i64) -> Frame {
    Frame::new(id, vec![id as u8], 1_700_000_000 + id, Vec::new())
}

#[test]
fn test_memory_store() {
    let mut store = MemoryStore::new(10);

    let frame = Frame::new(1, vec![1, 2, 3], chrono::Utc::now().timestamp(), Vec::new());

    store.store(frame.clone());
    let retrieved = store.get_latest().unwrap();

    assert_eq!(retrieved.id, frame.id);
}

#[test]
fn test_ring_overwrite_scenario() {
    // Capacity 3, ids 1,2,3,4: slot 0 is overwritten by id 4.
    let mut store = MemoryStore::new(3);
    for id in 1..=4 {
        store.store(frame(id));
    }
    let snapshot = store.list();
    assert_eq!(snapshot.len(), 3);
    let ids: Vec<i64> = snapshot.iter().map(|f| f.id).collect();
    assert_eq!(ids, vec![4, 2, 3]);
    assert_eq!(store.get_latest().unwrap().id, 4);
}

#[test]
fn test_ring_keeps_last_window() {
    // Capacity 3, ids 1..=5: exactly ids 3,4,5 stay resident.
    let mut store = MemoryStore::new(3);
    for id in 1..=5 {
        store.store(frame(id));
    }
    let snapshot = store.list();
    assert_eq!(snapshot.len(), 3);
    let mut ids: Vec<i64> = snapshot.iter().map(|f| f.id).collect();
    ids.sort();
    assert_eq!(ids, vec![3, 4, 5]);
    assert_eq!(store.get_latest().unwrap().id, 5);
}

#[test]
fn test_get_latest_empty_then_one() {
    let mut store = MemoryStore::new(4);
    assert_eq!(store.get_latest().err(), Some(StoreError::Empty));
    store.store(frame(9));
    let got = store.get_latest().unwrap();
    assert_eq!(got.id, 9);
    assert_eq!(got.data, vec![9u8]);
}

#[test]
fn test_capacity_one() {
    let mut store = MemoryStore::new(1);
    for id in 1..=3 {
        store.store(frame(id));
    }
    let snapshot = store.list();
    assert_eq!(snapshot.len(), 1);
    assert_eq!(snapshot[0].id, 3);
    assert_eq!(store.get_latest().unwrap().id, 3);
}

#[test]
fn test_disk_store_write_only() {
    let mut disk = DiskStore::new("frames".to_string());
    assert_eq!(disk.base_path(), "frames");
    assert_eq!(disk.get_latest().err(), Some(StoreError::Unsupported));
    assert!(disk.store(&frame(1), DiskWriteOutcome::Written).is_ok());
    assert_eq!(
        disk.store(&frame(2), DiskWriteOutcome::Failed).unwrap_err(),
        StoreError::WriteFailure
    );
}

#[test]
fn test_manager_memory_mode() {
    let mut mgr = Manager::new(StorageMode::Memory, 10, None).unwrap();
    let req = mgr.store(&frame(1));
    assert_eq!(req, DiskRequest::Skip);
    assert!(mgr.record_disk_write(req, DiskWriteOutcome::Written).is_ok());
    assert_eq!(mgr.get_latest().unwrap().id, 1);
    assert_eq!(mgr.list().len(), 1);
}

#[test]
fn test_manager_disk_mode_never_reads() {
    let mut mgr = Manager::new(StorageMode::Disk, 10, Some("frames".to_string())).unwrap();
    let req = mgr.store(&frame(1));
    assert_eq!(req, DiskRequest::Append { id: 1, timestamp: 1_700_000_001 });
    assert!(mgr.record_disk_write(req, DiskWriteOutcome::Written).is_ok());
    // The read path only consults the ring buffer, which disk mode never
    // fills.
    assert_eq!(mgr.get_latest().err(), Some(StoreError::Empty));
    assert_eq!(mgr.list().len(), 0);
}

#[test]
fn test_manager_requires_disk_path() {
    assert_eq!(
        Manager::new(StorageMode::Disk, 10, None).err(),
        Some(StoreError::DiskPathRequired)
    );
    assert_eq!(
        Manager::new(StorageMode::Hybrid, 10, None).err(),
        Some(StoreError::DiskPathRequired)
    );
    assert!(Manager::new(StorageMode::Memory, 10, None).is_ok());
}

#[test]
fn test_hybrid_partial_failure() {
    // The documented inconsistency, preserved: in hybrid mode the memory
    // write commits first, so a failed disk write reports failure while
    // the frame is already retrievable.
    let mut mgr = Manager::new(StorageMode::Hybrid, 10, Some("frames".to_string())).unwrap();
    let req = mgr.store(&frame(7));
    assert_eq!(req, DiskRequest::Append { id: 7, timestamp: 1_700_000_007 });
    assert_eq!(
        mgr.record_disk_write(req, DiskWriteOutcome::Failed).unwrap_err(),
        StoreError::WriteFailure
    );
    assert_eq!(mgr.get_latest().unwrap().id, 7);
}

#[test]
fn test_artifact_name_is_deterministic() {
    assert_eq!(eye_core::disk::artifact_name(7, 1_700_000_000), "frame_7_1700000000.png");
    assert_eq!(eye_core::disk::artifact_name(-3, 0), "frame_-3_0.png");
}

#[test]
fn test_frame_clone_preserves_fields() {
    let f = frame(3);
    let g = f.clone();
    assert_eq!(g.id, 3);
    assert_eq!(g.data, vec![3u8]);
    assert_eq!(g.timestamp, 1_700_000_003);
    assert!(g.metadata.is_empty());
}
