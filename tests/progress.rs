use dlfile::progress::{
    merge_written, total_from_raw, DlProgress, DlState, ProgressContainer, ProgressHandle,
};
use std::path::Path;
use std::sync::{Arc, Mutex};

fn quiet(_: &Path, _: u64, _: Option<u64>, _: DlState) {}

#[test]
fn handle_tracks_state_and_counts() {
    let handle: ProgressHandle = ProgressHandle::new(quiet);
    let shared = Arc::clone(handle.shared());
    assert_eq!(shared.state(), DlState::Starting);
    assert_eq!(shared.get_total_bytes(), None);
    let mut sink = &handle;
    let path = Path::new("f");
    sink.start(path, Some(10));
    assert_eq!(shared.get_total_bytes(), Some(10));
    assert_eq!(shared.state(), DlState::Starting);
    sink.update(path, 4);
    assert_eq!(shared.get_bytes_written(), 4);
    assert_eq!(shared.state(), DlState::Running);
    // an out-of-order update never moves the count back
    sink.update(path, 2);
    assert_eq!(shared.get_bytes_written(), 4);
    sink.update(path, 10);
    assert!(!shared.is_finished());
    sink.finished(path);
    assert!(shared.is_finished());
    assert_eq!(shared.state(), DlState::Finished);
    assert_eq!(shared.get_bytes_written(), 10);
}

#[test]
fn handle_callback_sees_merged_counts() {
    let seen: Arc<Mutex<Vec<(u64, Option<u64>, DlState)>>> = Arc::new(Mutex::new(Vec::new()));
    let log = Arc::clone(&seen);
    let handle = ProgressHandle::new(move |_: &Path, w: u64, t: Option<u64>, s: DlState| {
        log.lock().unwrap().push((w, t, s))
    });
    let mut sink = &handle;
    let path = Path::new("g");
    sink.start(path, None);
    sink.update(path, 7);
    sink.update(path, 3);
    sink.finished(path);
    assert_eq!(
        *seen.lock().unwrap(),
        vec![
            (0, None, DlState::Starting),
            (7, None, DlState::Running),
            (7, None, DlState::Running),
            (7, None, DlState::Finished),
        ]
    );
}

#[test]
fn handle_through_arc() {
    let handle: Arc<ProgressHandle> = Arc::new(ProgressHandle::new(quiet));
    let mut sink = Arc::clone(&handle);
    sink.update(Path::new("h"), 9);
    assert_eq!(handle.shared().get_bytes_written(), 9);
}

#[test]
fn container_runs_start_and_finish_once() {
    let calls: Arc<Mutex<Vec<String>>> = Arc::new(Mutex::new(Vec::new()));
    let mut container = ProgressContainer::new(
        Arc::clone(&calls),
        |c: &mut Arc<Mutex<Vec<String>>>, _: &Path, t: Option<u64>| {
            c.lock().unwrap().push(format!("start {:?}", t))
        },
        |c: &mut Arc<Mutex<Vec<String>>>, _: &Path, w: u64| {
            c.lock().unwrap().push(format!("update {}", w))
        },
        |c: &mut Arc<Mutex<Vec<String>>>, _: &Path| c.lock().unwrap().push("finished".to_string()),
    );
    let path = Path::new("c");
    container.start(path, Some(2));
    container.start(path, Some(2));
    container.update(path, 1);
    container.update(path, 2);
    container.finished(path);
    container.finished(path);
    assert_eq!(
        *calls.lock().unwrap(),
        vec!["start Some(2)", "update 1", "update 2", "finished"]
    );
}

#[test]
fn shared_container_calls_every_time() {
    let calls: Arc<Mutex<Vec<String>>> = Arc::new(Mutex::new(Vec::new()));
    let container = ProgressContainer::new(
        Arc::clone(&calls),
        |c: &Arc<Mutex<Vec<String>>>, _: &Path, t: Option<u64>| {
            c.lock().unwrap().push(format!("start {:?}", t))
        },
        |c: &Arc<Mutex<Vec<String>>>, _: &Path, w: u64| {
            c.lock().unwrap().push(format!("update {}", w))
        },
        |c: &Arc<Mutex<Vec<String>>>, _: &Path| c.lock().unwrap().push("finished".to_string()),
    );
    let mut sink = &container;
    let path = Path::new("d");
    sink.start(path, None);
    sink.update(path, 5);
    sink.finished(path);
    sink.finished(path);
    assert_eq!(
        *calls.lock().unwrap(),
        vec!["start None", "update 5", "finished", "finished"]
    );
}

#[test]
fn state_from_counts() {
    assert_eq!(DlState::from_counts(false, 0), DlState::Starting);
    assert_eq!(DlState::from_counts(false, 1), DlState::Running);
    assert_eq!(DlState::from_counts(true, 0), DlState::Finished);
    assert_eq!(DlState::from_counts(true, 9), DlState::Finished);
}

#[test]
fn raw_total_zero_means_unknown() {
    assert_eq!(total_from_raw(0), None);
    assert_eq!(total_from_raw(12), Some(12));
}

#[test]
fn merge_keeps_the_largest() {
    assert_eq!(merge_written(5, 3), 5);
    assert_eq!(merge_written(3, 5), 5);
    assert_eq!(merge_written(u64::MAX, 0), u64::MAX);
}
