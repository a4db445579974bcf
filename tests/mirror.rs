use std::sync::Arc;

use watch_file::event::{ChangeKind, CreateKind, DataChange, MetadataKind, ModifyKind, Notice, RemoveKind};
use watch_file::mirror::{Action, ContentMirror, ReadError, WatchError};
use watch_file::slot::SnapshotSlot;

fn data(d: DataChange) -> Notice {
    Notice::Event(ChangeKind::Modify(ModifyKind::Data(d)))
}

fn metadata(m: MetadataKind) -> Notice {
    Notice::Event(ChangeKind::Modify(ModifyKind::Metadata(m)))
}

/// Hands one notice to the mirror and, where it asks, a re-read outcome.
fn deliver(m: &mut ContentMirror, n: Notice, read: Result<String, ReadError>) -> Action {
    let a = m.on_notice(&n);
    if a == Action::ReRead {
        m.on_reread(read);
    }
    a
}

#[test]
fn test_lock() {
    let slot = SnapshotSlot::new(Arc::new("123".to_string()));

    let data = slot.read();
    println!("{data}");

    assert_eq!(*slot.read(), "123");
}

#[test]
fn slot_publish_keeps_earlier_snapshot_whole() {
    let slot = SnapshotSlot::new(Arc::new("old".to_string()));
    let held = slot.read();
    let other = slot.clone();
    other.publish(Arc::new("new".to_string()));
    assert_eq!(*held, "old");
    assert_eq!(*slot.read(), "new");
}

#[test]
fn empty_file_gives_empty_snapshot() {
    let m = ContentMirror::open(Ok(String::new())).unwrap();
    assert_eq!(*m.snapshot(), "");
    assert_eq!(*m.slot().read(), "");
    assert!(m.is_live());
    assert_eq!(m.last_failure(), None);
}

#[test]
fn hello_world_scenario() {
    let mut m = ContentMirror::open(Ok(String::new())).unwrap();
    let slot = m.slot();
    assert_eq!(*slot.read(), "");
    let a = deliver(&mut m, data(DataChange::Any), Ok("Hello, world! 42".to_string()));
    assert_eq!(a, Action::ReRead);
    assert_eq!(*slot.read(), "Hello, world! 42");
    assert_eq!(*m.snapshot(), "Hello, world! 42");
}

#[test]
fn random_content_converges() {
    let mut m = ContentMirror::open(Ok(String::new())).unwrap();
    let string = format!("Hello, world! {}", rand::random::<i32>());
    deliver(&mut m, metadata(MetadataKind::Any), Err(ReadError::Other));
    deliver(&mut m, data(DataChange::Size), Ok("Hello".to_string()));
    deliver(&mut m, data(DataChange::Content), Ok(string.clone()));
    assert_eq!(*m.slot().read(), string);
}

#[test]
fn initial_read_failure() {
    let r = ContentMirror::open(Err(ReadError::NotFound));
    assert_eq!(r.err(), Some(WatchError::InitialReadError(ReadError::NotFound)));
    let r = ContentMirror::open(Err(ReadError::NotText));
    assert_eq!(r.err(), Some(WatchError::InitialReadError(ReadError::NotText)));
}

#[test]
fn only_data_changes_ask_for_reread() {
    let m = ContentMirror::open(Ok("x".to_string())).unwrap();
    for d in [DataChange::Any, DataChange::Size, DataChange::Content, DataChange::Other] {
        assert_eq!(m.on_notice(&data(d)), Action::ReRead);
        assert!(data(d).is_content_change());
    }
    let others = [
        metadata(MetadataKind::Permissions),
        metadata(MetadataKind::WriteTime),
        Notice::Event(ChangeKind::Create(CreateKind::File)),
        Notice::Event(ChangeKind::Remove(RemoveKind::File)),
        Notice::Event(ChangeKind::Modify(ModifyKind::Any)),
        Notice::Event(ChangeKind::Any),
        Notice::Error,
    ];
    for n in others {
        assert_eq!(m.on_notice(&n), Action::Observe);
        assert!(!n.is_content_change());
    }
}

#[test]
fn metadata_notice_does_not_touch_snapshot() {
    let mut m = ContentMirror::open(Ok("kept".to_string())).unwrap();
    // the file is unreadable by now: a re-read would fail
    let a = deliver(&mut m, metadata(MetadataKind::Permissions), Err(ReadError::PermissionDenied));
    assert_eq!(a, Action::Observe);
    assert_eq!(*m.slot().read(), "kept");
    assert_eq!(m.last_failure(), None);
}

#[test]
fn duplicate_content_notice_is_idempotent() {
    let mut once = ContentMirror::open(Ok("a".to_string())).unwrap();
    let mut twice = ContentMirror::open(Ok("a".to_string())).unwrap();
    deliver(&mut once, data(DataChange::Any), Ok("b".to_string()));
    deliver(&mut twice, data(DataChange::Any), Ok("b".to_string()));
    deliver(&mut twice, data(DataChange::Any), Ok("b".to_string()));
    assert_eq!(*once.snapshot(), *twice.snapshot());
    assert_eq!(*twice.slot().read(), "b");
}

#[test]
fn failed_reread_keeps_last_good_snapshot() {
    let mut m = ContentMirror::open(Ok("good".to_string())).unwrap();
    let a = deliver(&mut m, data(DataChange::Any), Err(ReadError::NotFound));
    assert_eq!(a, Action::ReRead);
    assert_eq!(*m.slot().read(), "good");
    assert_eq!(m.last_failure(), Some(ReadError::NotFound));
    assert!(m.is_live());
    deliver(&mut m, data(DataChange::Any), Ok("healed".to_string()));
    assert_eq!(*m.slot().read(), "healed");
}

#[test]
fn shutdown_freezes_snapshot() {
    let mut m = ContentMirror::open(Ok("before".to_string())).unwrap();
    let slot = m.slot();
    m.shutdown();
    assert!(!m.is_live());
    assert_eq!(m.on_notice(&data(DataChange::Any)), Action::Observe);
    m.on_reread(Ok("after".to_string()));
    assert_eq!(*slot.read(), "before");
    assert_eq!(*m.snapshot(), "before");
}

#[test]
fn snapshot_held_by_reader_stays_whole() {
    let mut m = ContentMirror::open(Ok("first".to_string())).unwrap();
    let held = m.slot().read();
    deliver(&mut m, data(DataChange::Any), Ok("second".to_string()));
    assert_eq!(*held, "first");
    assert_eq!(*m.slot().read(), "second");
}
