use download_manager::text::{decimal, parse_u64};
use download_manager::types::{CancelInfo, JobInfo, State};
use download_manager::worker::{ChunkOutcome, DownloadSession, FileStat, WorkerCommand, WorkerEvent};

const GO: CancelInfo = CancelInfo { cancel: false, delete: false };
const STOP: CancelInfo = CancelInfo { cancel: true, delete: false };
const STOP_DELETE: CancelInfo = CancelInfo { cancel: true, delete: true };

fn session() -> DownloadSession {
    DownloadSession::new("file.bin".to_string(), "http://host/file.bin".to_string(), "/dl/file.bin".to_string())
}

fn published(step: &download_manager::worker::WorkerStep) -> JobInfo {
    step.publish.clone().expect("a snapshot")
}

#[test]
fn parses_content_length() {
    assert_eq!(parse_u64(b"100"), Some(100));
    assert_eq!(parse_u64(b"+7"), Some(7));
    assert_eq!(parse_u64(b"0"), Some(0));
    assert_eq!(parse_u64(b"18446744073709551615"), Some(u64::MAX));
    assert_eq!(parse_u64(b"18446744073709551616"), None);
    assert_eq!(parse_u64(b""), None);
    assert_eq!(parse_u64(b"+"), None);
    assert_eq!(parse_u64(b"12a"), None);
    assert_eq!(parse_u64(b"-1"), None);
    assert_eq!(parse_u64(b" 1"), None);
}

#[test]
fn formats_decimal() {
    assert_eq!(decimal(0), "0");
    assert_eq!(decimal(9), "9");
    assert_eq!(decimal(1234), "1234");
    assert_eq!(decimal(u64::MAX), "18446744073709551615");
}

#[test]
fn fresh_download_reaches_done() {
    let mut s = session();
    assert_eq!(s.step(WorkerEvent::Dequeued, GO).command, WorkerCommand::Stat);
    let st = s.step(WorkerEvent::Stat(FileStat::Absent), GO);
    assert_eq!(st.command, WorkerCommand::Request { resume_from: None });
    let p = published(&st);
    assert_eq!(p.state, State::Active);
    assert_eq!((p.downloaded, p.total), (0, 0));
    let st = s.step(WorkerEvent::Response(Ok(Some(b"100".to_vec()))), GO);
    assert_eq!(st.command, WorkerCommand::OpenFile);
    assert_eq!(published(&st).total, 100);
    assert_eq!(s.step(WorkerEvent::Opened(Ok(())), GO).command, WorkerCommand::NextChunk);
    let st = s.step(WorkerEvent::Chunk(ChunkOutcome::Written(60)), GO);
    assert_eq!(st.command, WorkerCommand::NextChunk);
    assert_eq!(published(&st).downloaded, 60);
    let st = s.step(WorkerEvent::Chunk(ChunkOutcome::Written(40)), GO);
    assert_eq!(published(&st).downloaded, 100);
    let st = s.step(WorkerEvent::Chunk(ChunkOutcome::End), GO);
    assert_eq!(st.command, WorkerCommand::Stop);
    let p = published(&st);
    assert_eq!(p.state, State::Done);
    assert_eq!((p.downloaded, p.total), (100, 100));
    assert_eq!(p.msg, "");
    assert_eq!(p.name, "file.bin");
}

#[test]
fn resume_requests_remaining_range() {
    let mut s = session();
    s.step(WorkerEvent::Dequeued, GO);
    let st = s.step(WorkerEvent::Stat(FileStat::Present(4096)), GO);
    assert_eq!(st.command, WorkerCommand::Probe);
    assert!(st.publish.is_none());
    let st = s.step(WorkerEvent::Probe(Ok(true)), GO);
    assert_eq!(st.command, WorkerCommand::Request { resume_from: Some(4096) });
    assert_eq!(published(&st).downloaded, 4096);
    let st = s.step(WorkerEvent::Response(Ok(Some(b"1000".to_vec()))), GO);
    assert_eq!(published(&st).total, 5096);
    s.step(WorkerEvent::Opened(Ok(())), GO);
    s.step(WorkerEvent::Chunk(ChunkOutcome::Written(1000)), GO);
    let p = published(&s.step(WorkerEvent::Chunk(ChunkOutcome::End), GO));
    assert_eq!((p.downloaded, p.total, p.state), (5096, 5096, State::Done));
}

#[test]
fn resume_without_partial_content_fails() {
    let mut s = session();
    s.step(WorkerEvent::Dequeued, GO);
    s.step(WorkerEvent::Stat(FileStat::Present(10)), GO);
    let st = s.step(WorkerEvent::Probe(Ok(false)), GO);
    assert_eq!(st.command, WorkerCommand::Stop);
    let p = published(&st);
    assert_eq!(p.state, State::Failed);
    assert_eq!(p.msg, "remote url doesn't support partial downloads");
}

#[test]
fn failures_carry_their_messages() {
    let mut s = session();
    s.step(WorkerEvent::Dequeued, GO);
    let p = published(&s.step(WorkerEvent::Stat(FileStat::Failed("denied".to_string())), GO));
    assert_eq!(p.msg, "couldn't stat download path denied");

    let mut s = session();
    s.step(WorkerEvent::Dequeued, GO);
    s.step(WorkerEvent::Stat(FileStat::Present(1)), GO);
    let p = published(&s.step(WorkerEvent::Probe(Err("timeout".to_string())), GO));
    assert_eq!(p.msg, "couldn't check url support for partial downloads timeout");

    let mut s = session();
    s.step(WorkerEvent::Dequeued, GO);
    s.step(WorkerEvent::Stat(FileStat::Absent), GO);
    let p = published(&s.step(WorkerEvent::Response(Err("connection refused".to_string())), GO));
    assert_eq!((p.state, p.msg.as_str()), (State::Failed, "connection refused"));

    let mut s = session();
    s.step(WorkerEvent::Dequeued, GO);
    s.step(WorkerEvent::Stat(FileStat::Absent), GO);
    s.step(WorkerEvent::Response(Ok(None)), GO);
    let p = published(&s.step(WorkerEvent::Opened(Err("read-only".to_string())), GO));
    assert_eq!(p.msg, "failed to create file: read-only");

    let mut s = session();
    s.step(WorkerEvent::Dequeued, GO);
    s.step(WorkerEvent::Stat(FileStat::Absent), GO);
    s.step(WorkerEvent::Response(Ok(None)), GO);
    s.step(WorkerEvent::Opened(Ok(())), GO);
    let p = published(&s.step(WorkerEvent::Chunk(ChunkOutcome::ReadFailed("reset".to_string())), GO));
    assert_eq!(p.msg, "failed to download chunk: reset");
}

#[test]
fn unknown_length_leaves_total_zero() {
    let mut s = session();
    s.step(WorkerEvent::Dequeued, GO);
    s.step(WorkerEvent::Stat(FileStat::Absent), GO);
    let st = s.step(WorkerEvent::Response(Ok(Some(b"lots".to_vec()))), GO);
    assert_eq!(published(&st).total, 0);
    let mut s = session();
    s.step(WorkerEvent::Dequeued, GO);
    s.step(WorkerEvent::Stat(FileStat::Absent), GO);
    let st = s.step(WorkerEvent::Response(Ok(None)), GO);
    assert_eq!(published(&st).total, 0);
    assert_eq!(st.command, WorkerCommand::OpenFile);
}

#[test]
fn cancelled_before_start_publishes_nothing() {
    let mut s = session();
    let st = s.step(WorkerEvent::Dequeued, STOP);
    assert!(st.publish.is_none());
    assert_eq!(st.command, WorkerCommand::Stop);
}

#[test]
fn cancelled_mid_stream_stops_silently() {
    let mut s = session();
    s.step(WorkerEvent::Dequeued, GO);
    s.step(WorkerEvent::Stat(FileStat::Absent), GO);
    s.step(WorkerEvent::Response(Ok(Some(b"100".to_vec()))), GO);
    s.step(WorkerEvent::Opened(Ok(())), GO);
    s.step(WorkerEvent::Chunk(ChunkOutcome::Written(10)), GO);
    let st = s.step(WorkerEvent::Chunk(ChunkOutcome::Written(10)), STOP);
    assert!(st.publish.is_none());
    assert_eq!(st.command, WorkerCommand::Stop);
    let st = s.step(WorkerEvent::Chunk(ChunkOutcome::End), GO);
    assert!(st.publish.is_none());
    assert_eq!(st.command, WorkerCommand::Stop);
}

#[test]
fn cancelled_with_delete_removes_file() {
    let mut s = session();
    s.step(WorkerEvent::Dequeued, GO);
    s.step(WorkerEvent::Stat(FileStat::Absent), GO);
    s.step(WorkerEvent::Response(Ok(None)), GO);
    let st = s.step(WorkerEvent::Opened(Ok(())), STOP_DELETE);
    assert!(st.publish.is_none());
    assert_eq!(st.command, WorkerCommand::RemoveFileAndStop);
}

#[test]
fn failure_while_cancelled_is_not_published() {
    let mut s = session();
    s.step(WorkerEvent::Dequeued, GO);
    let st = s.step(WorkerEvent::Stat(FileStat::Failed("x".to_string())), STOP);
    assert!(st.publish.is_none());
    assert_eq!(st.command, WorkerCommand::Stop);
}

#[test]
fn out_of_order_event_ends_session() {
    let mut s = session();
    let st = s.step(WorkerEvent::Chunk(ChunkOutcome::End), GO);
    assert!(st.publish.is_none());
    assert_eq!(st.command, WorkerCommand::Stop);
}
