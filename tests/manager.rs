use download_manager::err::{ManagerError, ManagerErrorKind};
use download_manager::jobs::{expect_ack, expect_job, expect_jobs, JobMessage, StateDaemon};
use download_manager::manager::{
    active_jobs, sender_obsolete, AddAction, AddEvent, AddSession, CancelAction, CancelEvent,
    CancelSession, FileRemoval,
};
use download_manager::naming::{join_path, last_segment, resolve_name};
use download_manager::registry::CancelRegistry;
use download_manager::types::{CancelInfo, JobInfo, State};

fn err(kind: ManagerErrorKind, msg: &str) -> ManagerError {
    ManagerError { kind, msg: msg.to_string() }
}

fn job(name: &str, state: State) -> JobInfo {
    JobInfo {
        name: name.to_string(),
        url: format!("http://host/{}", name),
        path: format!("/dl/{}", name),
        downloaded: 0,
        total: 0,
        state,
        msg: String::new(),
    }
}

/// Runs an add against the actor as the daemon does, returning its outcome.
fn run_add(d: &mut StateDaemon, url: &str, name: Option<&str>) -> Result<String, ManagerError> {
    let mut s = AddSession::begin("/dl", url.to_string(), name.map(|n| n.to_string()))?;
    let target = s.target().name.clone();
    let looked = expect_job(d.handle(JobMessage::Get(target.clone()), Ok(())));
    match s.step(AddEvent::Looked(looked)) {
        AddAction::Persist(info) => {
            let r = expect_ack(d.handle(JobMessage::Update(info), Ok(())));
            match s.step(AddEvent::Persisted(r)) {
                AddAction::Enqueue => match s.step(AddEvent::Enqueued(Ok(()))) {
                    AddAction::Register => Ok(target),
                    AddAction::Fail(e) => Err(e),
                    _ => panic!("unexpected action"),
                },
                AddAction::Fail(e) => Err(e),
                _ => panic!("unexpected action"),
            }
        }
        AddAction::Fail(e) => Err(e),
        _ => panic!("unexpected action"),
    }
}

fn is_alnum7(s: &str) -> bool {
    s.chars().count() == 7 && s.chars().all(|c| c.is_ascii_alphanumeric())
}

#[test]
fn last_segment_and_join() {
    assert_eq!(last_segment("/a/b/file.bin"), "file.bin");
    assert_eq!(last_segment("/a/b/"), "");
    assert_eq!(last_segment("/"), "");
    assert_eq!(last_segment("noslash"), "noslash");
    assert_eq!(join_path("/home/u/Downloads", "f.zip"), "/home/u/Downloads/f.zip");
    assert_eq!(join_path("/home/u/Downloads/", "f.zip"), "/home/u/Downloads/f.zip");
    assert_eq!(join_path("", "f.zip"), "f.zip");
    assert_eq!(join_path("/dl", "/etc/x"), "/etc/x");
}

#[test]
fn name_resolution_order() {
    assert_eq!(resolve_name(Some("mine".to_string()), "/a/b.zip", "RANDOM1".to_string()), "mine");
    assert_eq!(resolve_name(None, "/a/b.zip", "RANDOM1".to_string()), "b.zip");
    assert_eq!(resolve_name(None, "/a/", "RANDOM1".to_string()), "RANDOM1");
    assert_eq!(resolve_name(None, "/", "RANDOM1".to_string()), "RANDOM1");
    assert_eq!(resolve_name(None, "x/y", "RANDOM1".to_string()), "RANDOM1");
}

#[test]
fn add_names_job_after_url() {
    let s = AddSession::begin("/dl", "http://host/files/file.bin".to_string(), None).unwrap();
    assert_eq!(s.target().name, "file.bin");
    assert_eq!(s.target().path, "/dl/file.bin");
    assert_eq!(s.target().url, "http://host/files/file.bin");
}

#[test]
fn add_generates_name_for_bare_path() {
    for url in ["http://host", "http://host/", "http://host/dir/"] {
        let s = AddSession::begin("/dl", url.to_string(), None).unwrap();
        assert!(is_alnum7(&s.target().name), "{}", s.target().name);
        assert_eq!(s.target().path, format!("/dl/{}", s.target().name));
    }
}

#[test]
fn add_keeps_given_name() {
    let s = AddSession::begin("/dl/", "http://host/x.iso".to_string(), Some("y".to_string())).unwrap();
    assert_eq!(s.target().name, "y");
    assert_eq!(s.target().path, "/dl/y");
}

#[test]
fn add_rejects_invalid_url() {
    let e = AddSession::begin("/dl", "not a url".to_string(), None).unwrap_err();
    assert_eq!(e.kind, ManagerErrorKind::InvalidAddress);
    let e = AddSession::begin("/dl", "/relative/path".to_string(), None).unwrap_err();
    assert_eq!(e.kind, ManagerErrorKind::InvalidAddress);
}

#[test]
fn add_then_info_returns_persisted_row() {
    let mut d = StateDaemon::new(&vec![]);
    let name = run_add(&mut d, "http://host/file.bin", None).unwrap();
    assert_eq!(name, "file.bin");
    let got = expect_job(d.handle(JobMessage::Get("file.bin".to_string()), Ok(()))).unwrap();
    assert_eq!(got.url, "http://host/file.bin");
    assert_eq!(got.path, "/dl/file.bin");
    assert_eq!(got.state, State::Pending);
    assert_eq!((got.downloaded, got.total, got.msg.as_str()), (0, 0, ""));
}

#[test]
fn duplicate_add_fails_and_store_unchanged() {
    let mut d = StateDaemon::new(&vec![]);
    run_add(&mut d, "http://host/a.zip", None).unwrap();
    d.handle(JobMessage::UpdateState("a.zip".to_string(), State::Active), Ok(()));
    let e = run_add(&mut d, "http://other/b.zip", Some("a.zip")).unwrap_err();
    assert_eq!(e.kind, ManagerErrorKind::DownloadJobNameAlreadyExist);
    assert_eq!(e.msg, "a.zip already exists");
    let e = run_add(&mut d, "http://host/a.zip", None).unwrap_err();
    assert_eq!(e.kind, ManagerErrorKind::DownloadJobNameAlreadyExist);
    let v = expect_jobs(d.handle(JobMessage::List, Ok(()))).unwrap();
    assert_eq!(v.len(), 1);
    assert_eq!(v[0].url, "http://host/a.zip");
    assert_eq!(v[0].state, State::Active);
}

#[test]
fn add_lookup_error_propagates() {
    let mut s = AddSession::begin("/dl", "http://h/f".to_string(), None).unwrap();
    match s.step(AddEvent::Looked(Err(err(ManagerErrorKind::DatabaseError, "io")))) {
        AddAction::Fail(e) => assert_eq!(e.kind, ManagerErrorKind::DatabaseError),
        _ => panic!("expected failure"),
    }
}

#[test]
fn add_enqueue_failure_is_channel_error() {
    let mut s = AddSession::begin("/dl", "http://h/f".to_string(), None).unwrap();
    s.step(AddEvent::Looked(Err(err(ManagerErrorKind::DownloadJobNotFound, "f not found"))));
    assert!(matches!(s.step(AddEvent::Persisted(Ok(()))), AddAction::Enqueue));
    match s.step(AddEvent::Enqueued(Err("closed".to_string()))) {
        AddAction::Fail(e) => {
            assert_eq!(e.kind, ManagerErrorKind::ChannelError);
            assert_eq!(e.msg, "closed");
        }
        _ => panic!("expected failure"),
    }
}

#[test]
fn cancel_unknown_name_is_noop() {
    let mut c = CancelSession::new(false, false);
    assert!(matches!(c.step(CancelEvent::Begun { had_sender: false }), CancelAction::Finish(Ok(()))));
}

#[test]
fn cancel_running_job_signals_then_marks() {
    let mut c = CancelSession::new(false, false);
    match c.step(CancelEvent::Begun { had_sender: true }) {
        CancelAction::Signal(info) => assert_eq!(info, CancelInfo { cancel: true, delete: false }),
        _ => panic!("expected a signal"),
    }
    assert!(matches!(c.step(CancelEvent::Signalled(Ok(()))), CancelAction::MarkCancelled));
    assert!(matches!(c.step(CancelEvent::Marked(Ok(()))), CancelAction::Finish(Ok(()))));
}

#[test]
fn cancel_forget_erases_record() {
    let mut c = CancelSession::new(true, false);
    c.step(CancelEvent::Begun { had_sender: true });
    c.step(CancelEvent::Signalled(Ok(())));
    assert!(matches!(c.step(CancelEvent::Marked(Ok(()))), CancelAction::EraseRecord));
    assert!(matches!(c.step(CancelEvent::Erased(Ok(()))), CancelAction::Finish(Ok(()))));
}

#[test]
fn cancel_delete_with_missing_file_succeeds() {
    let mut c = CancelSession::new(false, true);
    match c.step(CancelEvent::Begun { had_sender: true }) {
        CancelAction::Signal(info) => assert_eq!(info, CancelInfo { cancel: true, delete: true }),
        _ => panic!("expected a signal"),
    }
    c.step(CancelEvent::Signalled(Ok(())));
    assert!(matches!(c.step(CancelEvent::Marked(Ok(()))), CancelAction::ReadRecord));
    match c.step(CancelEvent::Read(Ok(job("f", State::Cancelled)))) {
        CancelAction::RemoveFile(p) => assert_eq!(p, "/dl/f"),
        _ => panic!("expected a removal"),
    }
    assert!(matches!(c.step(CancelEvent::FileRemoved(FileRemoval::Missing)), CancelAction::EraseRecord));
    let done = c.step(CancelEvent::Erased(Err(err(ManagerErrorKind::DownloadJobNotFound, "f not found"))));
    assert!(matches!(done, CancelAction::Finish(Ok(()))));
}

#[test]
fn cancel_delete_of_missing_record_converges() {
    let mut c = CancelSession::new(false, true);
    assert!(matches!(c.step(CancelEvent::Begun { had_sender: false }), CancelAction::ReadRecord));
    let read = c.step(CancelEvent::Read(Err(err(ManagerErrorKind::DownloadJobNotFound, "f not found"))));
    assert!(matches!(read, CancelAction::EraseRecord));
    let done = c.step(CancelEvent::Erased(Err(err(ManagerErrorKind::DownloadJobNotFound, "f not found"))));
    assert!(matches!(done, CancelAction::Finish(Ok(()))));
}

#[test]
fn repeated_cancel_with_delete_succeeds() {
    let mut d = StateDaemon::new(&vec![]);
    d.handle(JobMessage::Update(job("f", State::Active)), Ok(()));
    for _ in 0..2 {
        let mut c = CancelSession::new(false, true);
        let mut action = c.step(CancelEvent::Begun { had_sender: false });
        let outcome = loop {
            let event = match action {
                CancelAction::ReadRecord => CancelEvent::Read(expect_job(d.handle(JobMessage::Get("f".to_string()), Ok(())))),
                CancelAction::RemoveFile(_) => CancelEvent::FileRemoved(FileRemoval::Missing),
                CancelAction::EraseRecord => CancelEvent::Erased(expect_ack(d.handle(JobMessage::Delete("f".to_string()), Ok(())))),
                CancelAction::Finish(r) => break r,
                _ => panic!("unexpected action"),
            };
            action = c.step(event);
        };
        assert!(outcome.is_ok());
        assert!(expect_jobs(d.handle(JobMessage::List, Ok(()))).unwrap().is_empty());
    }
}

#[test]
fn cancel_read_failure_propagates() {
    let mut c = CancelSession::new(true, true);
    c.step(CancelEvent::Begun { had_sender: false });
    match c.step(CancelEvent::Read(Err(err(ManagerErrorKind::DatabaseError, "locked")))) {
        CancelAction::Finish(Err(e)) => assert_eq!(e.kind, ManagerErrorKind::DatabaseError),
        _ => panic!("expected failure"),
    }
}

#[test]
fn cancel_propagates_other_errors() {
    let mut c = CancelSession::new(false, true);
    c.step(CancelEvent::Begun { had_sender: false });
    c.step(CancelEvent::Read(Ok(job("f", State::Done))));
    match c.step(CancelEvent::FileRemoved(FileRemoval::Failed("permission denied".to_string()))) {
        CancelAction::Finish(Err(e)) => {
            assert_eq!(e.kind, ManagerErrorKind::IO);
            assert_eq!(e.msg, "permission denied");
        }
        _ => panic!("expected failure"),
    }
    let mut c = CancelSession::new(true, false);
    c.step(CancelEvent::Begun { had_sender: false });
    match c.step(CancelEvent::Erased(Err(err(ManagerErrorKind::DatabaseError, "locked")))) {
        CancelAction::Finish(Err(e)) => assert_eq!(e.kind, ManagerErrorKind::DatabaseError),
        _ => panic!("expected failure"),
    }
    let mut c = CancelSession::new(false, false);
    c.step(CancelEvent::Begun { had_sender: true });
    match c.step(CancelEvent::Signalled(Err("channel closed".to_string()))) {
        CancelAction::Finish(Err(e)) => assert_eq!(e.kind, ManagerErrorKind::ChannelError),
        _ => panic!("expected failure"),
    }
}

#[test]
fn cancel_out_of_order_event_fails() {
    let mut c = CancelSession::new(false, false);
    match c.step(CancelEvent::Erased(Ok(()))) {
        CancelAction::Finish(Err(e)) => {
            assert_eq!(e.kind, ManagerErrorKind::InvalidMessage);
            assert_eq!(e.msg, "unexpected event");
        }
        _ => panic!("expected failure"),
    }
}

#[test]
fn registry_tracks_senders() {
    let mut r: CancelRegistry<u32> = CancelRegistry::new();
    r.insert("a".to_string(), 1);
    r.insert("b".to_string(), 2);
    r.insert("a".to_string(), 3);
    assert_eq!(r.names().len(), 2);
    assert!(r.contains(&"a".to_string()));
    assert_eq!(r.remove(&"a".to_string()), Some(3));
    assert_eq!(r.remove(&"a".to_string()), None);
    assert!(!r.contains(&"a".to_string()));
    assert_eq!(r.names(), vec!["b".to_string()]);
}

#[test]
fn sweep_drops_finished_and_missing_jobs() {
    assert!(!sender_obsolete(&Ok(job("a", State::Pending))));
    assert!(!sender_obsolete(&Ok(job("a", State::Active))));
    assert!(sender_obsolete(&Ok(job("a", State::Done))));
    assert!(sender_obsolete(&Ok(job("a", State::Failed))));
    assert!(sender_obsolete(&Ok(job("a", State::Cancelled))));
    assert!(sender_obsolete(&Ok(job("a", State::Unknown))));
    assert!(sender_obsolete(&Err(err(ManagerErrorKind::DownloadJobNotFound, "a not found"))));
    assert!(!sender_obsolete(&Err(err(ManagerErrorKind::DatabaseError, "locked"))));
}

#[test]
fn replay_takes_active_jobs_in_order() {
    let v = vec![
        job("a", State::Active),
        job("b", State::Done),
        job("c", State::Active),
        job("d", State::Pending),
    ];
    let r = active_jobs(v);
    let names: Vec<&str> = r.iter().map(|j| j.name.as_str()).collect();
    assert_eq!(names, vec!["a", "c"]);
}
