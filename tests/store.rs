use download_manager::err::{ManagerError, ManagerErrorKind};
use download_manager::jobs::{expect_ack, expect_job, expect_jobs, JobMessage, StateDaemon};
use download_manager::store::{JobStore, StoredRow};
use download_manager::types::{JobInfo, State};

fn job(name: &str, state: State) -> JobInfo {
    JobInfo {
        name: name.to_string(),
        url: format!("http://host/{}", name),
        path: format!("/dl/{}", name),
        downloaded: 3,
        total: 10,
        state,
        msg: String::new(),
    }
}

fn same(a: &JobInfo, b: &JobInfo) -> bool {
    a.name == b.name
        && a.url == b.url
        && a.path == b.path
        && a.downloaded == b.downloaded
        && a.total == b.total
        && a.state == b.state
        && a.msg == b.msg
}

fn list(d: &mut StateDaemon) -> Vec<JobInfo> {
    expect_jobs(d.handle(JobMessage::List, Ok(()))).unwrap()
}

#[test]
fn state_text_round_trips() {
    for s in [State::Active, State::Pending, State::Cancelled, State::Failed, State::Done, State::Unknown] {
        assert_eq!(State::from_text(&s.text()), s);
    }
    assert_eq!(State::Done.text(), "Done");
    assert_eq!(State::from_text(&"Paused".to_string()), State::Unknown);
    assert_eq!(State::from_text(&"done".to_string()), State::Unknown);
}

#[test]
fn row_round_trip_is_field_equal() {
    let mut j = job("a.zip", State::Failed);
    j.msg = "boom".to_string();
    j.downloaded = u64::MAX;
    j.total = 0;
    let row = j.to_row();
    assert_eq!(row.state, "Failed");
    let back = JobInfo::from_row(&row);
    assert!(same(&back, &j));
}

#[test]
fn row_with_unknown_state_reads_unknown() {
    let row = StoredRow {
        name: "x".to_string(),
        url: "http://h/x".to_string(),
        path: "/dl/x".to_string(),
        downloaded: 1,
        total: 2,
        state: "Archived".to_string(),
        msg: String::new(),
    };
    assert_eq!(JobInfo::from_row(&row).state, State::Unknown);
}

#[test]
fn store_upsert_get_delete() {
    let mut s = JobStore::new();
    s.update_state(job("a", State::Pending));
    s.update_state(job("b", State::Active));
    let mut a2 = job("a", State::Done);
    a2.downloaded = 10;
    s.update_state(a2.clone());
    assert_eq!(s.list_jobs().len(), 2);
    assert!(same(&s.get_job(&"a".to_string()).unwrap(), &a2));
    s.update_job_state(&"b".to_string(), State::Cancelled);
    assert_eq!(s.get_job(&"b".to_string()).unwrap().state, State::Cancelled);
    s.update_job_state(&"zzz".to_string(), State::Cancelled);
    assert_eq!(s.list_jobs().len(), 2);
    s.delete_job(&"a".to_string());
    s.delete_job(&"a".to_string());
    let e = s.get_job(&"a".to_string()).unwrap_err();
    assert_eq!(e.kind, ManagerErrorKind::DownloadJobNotFound);
    assert_eq!(e.msg, "a not found");
    assert_eq!(s.list_jobs().len(), 1);
}

#[test]
fn actor_serves_requests() {
    let mut d = StateDaemon::new(&vec![]);
    let r = d.handle(JobMessage::Update(job("f.bin", State::Pending)), Ok(()));
    assert!(expect_ack(r).is_ok());
    let got = expect_job(d.handle(JobMessage::Get("f.bin".to_string()), Ok(()))).unwrap();
    assert!(same(&got, &job("f.bin", State::Pending)));
    let r = d.handle(JobMessage::UpdateState("f.bin".to_string(), State::Cancelled), Ok(()));
    assert!(expect_ack(r).is_ok());
    let got = expect_job(d.handle(JobMessage::Get("f.bin".to_string()), Ok(()))).unwrap();
    assert_eq!(got.state, State::Cancelled);
    assert!(expect_ack(d.handle(JobMessage::Delete("f.bin".to_string()), Ok(()))).is_ok());
    let e = expect_job(d.handle(JobMessage::Get("f.bin".to_string()), Ok(()))).unwrap_err();
    assert_eq!(e.kind, ManagerErrorKind::DownloadJobNotFound);
    assert!(d.handle(JobMessage::Ack, Ok(())).is_none());
}

#[test]
fn actor_failed_write_leaves_store() {
    let mut d = StateDaemon::new(&vec![]);
    let err = ManagerError { kind: ManagerErrorKind::DatabaseError, msg: "disk full".to_string() };
    let r = d.handle(JobMessage::Update(job("x", State::Pending)), Err(err));
    let e = expect_ack(r).unwrap_err();
    assert_eq!(e.kind, ManagerErrorKind::DatabaseError);
    assert_eq!(e.msg, "disk full");
    assert!(list(&mut d).is_empty());
}

#[test]
fn actor_loads_rows_later_rows_win() {
    let rows = vec![
        job("a", State::Active).to_row(),
        job("b", State::Done).to_row(),
        job("a", State::Failed).to_row(),
    ];
    let mut d = StateDaemon::new(&rows);
    let v = list(&mut d);
    assert_eq!(v.len(), 2);
    let a = expect_job(d.handle(JobMessage::Get("a".to_string()), Ok(()))).unwrap();
    assert_eq!(a.state, State::Failed);
}

#[test]
fn names_stay_unique_under_interleaving() {
    let mut d = StateDaemon::new(&vec![]);
    for i in 0..20u64 {
        let name = format!("n{}", i % 3);
        d.handle(JobMessage::Update(job(&name, State::Pending)), Ok(()));
        if i % 4 == 0 {
            d.handle(JobMessage::UpdateState(name.clone(), State::Cancelled), Ok(()));
        }
        if i % 5 == 0 {
            d.handle(JobMessage::Delete(name), Ok(()));
        }
    }
    let v = list(&mut d);
    for i in 0..v.len() {
        for j in i + 1..v.len() {
            assert_ne!(v[i].name, v[j].name);
        }
    }
}

#[test]
fn client_rejects_wrong_or_missing_replies() {
    let e = expect_job(Some(JobMessage::Ack)).unwrap_err();
    assert_eq!(e.kind, ManagerErrorKind::ChannelError);
    assert_eq!(e.msg, "unexpected reply");
    let e = expect_ack(None).unwrap_err();
    assert_eq!(e.kind, ManagerErrorKind::ChannelError);
    assert_eq!(e.msg, "no response");
    let e = expect_jobs(Some(JobMessage::Error(ManagerError {
        kind: ManagerErrorKind::DatabaseError,
        msg: "locked".to_string(),
    })))
    .unwrap_err();
    assert_eq!(e.kind, ManagerErrorKind::DatabaseError);
    assert_eq!(e.msg, "locked");
}
