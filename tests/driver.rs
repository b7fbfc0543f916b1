use dlfile::driver::{notify, CopyDriver, Notice, Request, WriteCounter};
use dlfile::progress::DlProgress;
use std::io;
use std::path::Path;

struct Run {
    notices: Vec<Notice>,
    sink: Vec<u8>,
    result: Result<u64, io::ErrorKind>,
}

// Drives a transfer over the given chunks into an in-memory sink that accepts
// at most `per_write` bytes per write.
fn run(gated: bool, declared: Option<u64>, chunks: Vec<Vec<u8>>, per_write: usize) -> Run {
    let (mut driver, mut step) = CopyDriver::new(gated, declared);
    let mut chunks = chunks.into_iter();
    let mut notices = Vec::new();
    let mut sink = Vec::new();
    loop {
        if let Some(notice) = step.notice {
            notices.push(notice);
        }
        step = match step.request {
            Request::AcquirePermit => driver.permit_acquired(),
            Request::NextChunk => driver.on_chunk(chunks.next().map(Ok)),
            Request::Write => {
                let bytes = driver.unwritten();
                let n = bytes.len().min(per_write);
                sink.extend_from_slice(&bytes[..n]);
                driver.on_write(Ok(n))
            }
            Request::Flush => driver.on_flush(Ok(())),
            Request::Done(n) => return Run { notices, sink, result: Ok(n) },
            Request::Failed(e) => {
                return Run { notices, sink, result: Err(e.into_io_error().kind()) }
            }
        };
    }
}

fn updates(notices: &[Notice]) -> Vec<u64> {
    notices
        .iter()
        .filter_map(|n| match n {
            Notice::Update(v) => Some(*v),
            _ => None,
        })
        .collect()
}

#[test]
fn end_to_end_three_chunks() {
    let chunks = vec![b"abc".to_vec(), Vec::new(), b"defgh".to_vec()];
    let run = run(false, Some(8), chunks, 64);
    assert_eq!(run.result, Ok(8));
    assert_eq!(run.sink, b"abcdefgh".to_vec());
    let starts: Vec<&Notice> = run.notices.iter().filter(|n| matches!(n, Notice::Start(_))).collect();
    assert_eq!(starts, vec![&Notice::Start(Some(8))]);
    assert_eq!(run.notices.first(), Some(&Notice::Start(Some(8))));
    // the empty chunk triggers no update
    assert_eq!(updates(&run.notices), vec![3, 8]);
    let finished = run.notices.iter().filter(|n| matches!(n, Notice::Finished)).count();
    assert_eq!(finished, 1);
    assert_eq!(run.notices.last(), Some(&Notice::Finished));
}

#[test]
fn updates_increase_with_partial_writes() {
    let chunks = vec![b"hello".to_vec(), b"world!".to_vec()];
    let run = run(false, None, chunks, 2);
    assert_eq!(run.result, Ok(11));
    assert_eq!(run.sink, b"helloworld!".to_vec());
    assert_eq!(updates(&run.notices), vec![2, 4, 5, 7, 9, 11]);
}

#[test]
fn empty_source_reports_no_update() {
    let run = run(false, None, vec![Vec::new(), Vec::new()], 4);
    assert_eq!(run.result, Ok(0));
    assert_eq!(run.notices, vec![Notice::Start(None), Notice::Finished]);
}

#[test]
fn gated_transfer_starts_after_permit() {
    let (mut driver, step) = CopyDriver::new(true, Some(3));
    assert!(step.notice.is_none());
    assert!(matches!(step.request, Request::AcquirePermit));
    let step = driver.permit_acquired();
    assert_eq!(step.notice, Some(Notice::Start(Some(3))));
    assert!(matches!(step.request, Request::NextChunk));
}

#[test]
fn source_error_aborts_and_keeps_committed_bytes() {
    let (mut driver, _) = CopyDriver::new(false, None);
    let step = driver.on_chunk(Some(Ok(b"ab".to_vec())));
    assert!(matches!(step.request, Request::Write));
    let step = driver.on_write(Ok(2));
    assert_eq!(step.notice, Some(Notice::Update(2)));
    let step = driver.on_chunk(Some(Err(io::Error::new(io::ErrorKind::ConnectionReset, "reset"))));
    assert!(step.notice.is_none());
    match step.request {
        Request::Failed(e) => assert_eq!(e.into_io_error().kind(), io::ErrorKind::ConnectionReset),
        other => panic!("unexpected request {:?}", other),
    }
    assert_eq!(driver.bytes_copied(), 2);
}

#[test]
fn write_error_aborts() {
    let (mut driver, _) = CopyDriver::new(false, None);
    driver.on_chunk(Some(Ok(b"xyz".to_vec())));
    let step = driver.on_write(Err(io::Error::new(io::ErrorKind::StorageFull, "full")));
    assert!(step.notice.is_none());
    match step.request {
        Request::Failed(e) => assert_eq!(e.into_io_error().kind(), io::ErrorKind::StorageFull),
        other => panic!("unexpected request {:?}", other),
    }
}

#[test]
fn zero_byte_write_reports_nothing() {
    let (mut driver, _) = CopyDriver::new(false, None);
    driver.on_chunk(Some(Ok(b"xyz".to_vec())));
    let step = driver.on_write(Ok(0));
    assert!(step.notice.is_none());
    assert!(matches!(step.request, Request::Write));
    assert_eq!(driver.unwritten(), b"xyz");
    let step = driver.on_write(Ok(1));
    assert_eq!(step.notice, Some(Notice::Update(1)));
    assert_eq!(driver.unwritten(), b"yz");
}

#[test]
fn flush_error_reports_no_finish() {
    let (mut driver, _) = CopyDriver::new(false, None);
    driver.on_chunk(None);
    let step = driver.on_flush(Err(io::Error::new(io::ErrorKind::Other, "flush")));
    assert!(step.notice.is_none());
    match step.request {
        Request::Failed(e) => assert_eq!(e.into_io_error().kind(), io::ErrorKind::Other),
        other => panic!("unexpected request {:?}", other),
    }
}

#[test]
fn write_counter_reports_only_advancing_writes() {
    let mut counter = WriteCounter::new();
    assert_eq!(counter.record(4), Some(4));
    assert_eq!(counter.record(0), None);
    assert_eq!(counter.record(3), Some(7));
    assert_eq!(counter.written(), 7);
}

#[derive(Default)]
struct Recorder {
    calls: Vec<String>,
}

impl DlProgress for Recorder {
    fn start(&mut self, path: &Path, total_bytes: Option<u64>) {
        self.calls.push(format!("start {} {:?}", path.display(), total_bytes));
    }

    fn update(&mut self, path: &Path, bytes_written: u64) {
        self.calls.push(format!("update {} {}", path.display(), bytes_written));
    }

    fn finished(&mut self, path: &Path) {
        self.calls.push(format!("finished {}", path.display()));
    }
}

#[test]
fn notify_calls_the_matching_method() {
    let mut recorder = Recorder::default();
    let path = Path::new("out.bin");
    notify(&mut recorder, path, Notice::Start(Some(5)));
    notify(&mut recorder, path, Notice::Update(5));
    notify(&mut recorder, path, Notice::Finished);
    assert_eq!(
        recorder.calls,
        vec!["start out.bin Some(5)", "update out.bin 5", "finished out.bin"]
    );
}

#[test]
fn notify_through_a_box() {
    let mut boxed: Box<dyn DlProgress> = Box::new(Recorder::default());
    notify(&mut *boxed, Path::new("a"), Notice::Update(1));
    let mut recorder = Recorder::default();
    {
        let mut by_ref = &mut recorder;
        notify(&mut by_ref, Path::new("b"), Notice::Finished);
    }
    assert_eq!(recorder.calls, vec!["finished b"]);
}
