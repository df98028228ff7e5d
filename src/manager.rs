use vstd::prelude::*;
use crate::err::{ManagerError, ManagerErrorKind};
use crate::naming::{
    GENERATED_NAME_LEN, is_alphanumeric, join_path, joined_path, parse_url_path,
    random_alphanumeric, resolve_name, url_name, url_path,
};
use crate::types::{CancelInfo, JobInfo, State};

verus! {

/// A job accepted for submission: its name, URL and target path.
#[derive(Debug)]
pub struct NewJob {
    pub name: String,
    pub url: String,
    pub path: String,
}

/// `r` is the record persisted for the job when it is submitted.
pub open spec fn is_pending_record(r: JobInfo, j: NewJob) -> bool {
    &&& r.name == j.name
    &&& r.url == j.url
    &&& r.path == j.path
    &&& r.downloaded == 0
    &&& r.total == 0
    &&& r.state == State::Pending
    &&& r.msg@ == Seq::<char>::empty()
}

impl NewJob {
    pub fn pending_info(&self) -> (r: JobInfo)
        ensures
            is_pending_record(r, *self),
    {
        JobInfo {
            name: self.name.clone(),
            url: self.url.clone(),
            path: self.path.clone(),
            downloaded: 0,
            total: 0,
            state: State::Pending,
            msg: String::new(),
        }
    }
}

/// Where an add stands.
#[derive(PartialEq, Eq, Structural, Clone, Copy, Debug)]
pub enum AddPhase {
    Lookup,
    Persist,
    Enqueue,
    Finished,
}

/// What the driver of an add observed since the last action.
#[derive(Debug)]
pub enum AddEvent {
    /// The state actor's answer to `Get` of the job's name.
    Looked(Result<JobInfo, ManagerError>),
    /// The state actor's answer to persisting the pending record.
    Persisted(Result<(), ManagerError>),
    /// Whether the job reached the worker queue, or the channel error text.
    Enqueued(Result<(), String>),
}

/// What the driver of an add must do next.
#[derive(Debug)]
pub enum AddAction {
    /// Persist this record through the state actor.
    Persist(JobInfo),
    /// Send the job, with the receiver of a fresh cancellation channel, to the
    /// worker queue.
    Enqueue,
    /// Register the job's cancellation sender under its name: the add succeeded.
    Register,
    /// The add failed with this error.
    Fail(ManagerError),
}

/// The error for an event that does not answer the pending action.
pub open spec fn is_unexpected_event(e: ManagerError) -> bool {
    e.kind == ManagerErrorKind::InvalidMessage && e.msg@ == "unexpected event"@
}

fn unexpected_event() -> (e: ManagerError)
    ensures
        is_unexpected_event(e),
{
    ManagerError::new(ManagerErrorKind::InvalidMessage, String::from_str("unexpected event"))
}

/// The protocol of one `add`: look the name up, persist the pending record,
/// enqueue the job, register its cancellation sender, in that order.
#[derive(Debug)]
pub struct AddSession {
    job: NewJob,
    phase: AddPhase,
}

impl AddSession {
    pub closed spec fn job(&self) -> NewJob {
        self.job
    }

    pub closed spec fn phase(&self) -> AddPhase {
        self.phase
    }

    /// The job being added.
    pub fn target(&self) -> (r: &NewJob)
        ensures
            *r == self.job(),
    {
        &self.job
    }

    /// Starts an add of `url` into the directory `downloads`: parses the URL
    /// and picks the job's name and target path. The name is the caller's,
    /// else the URL's last path segment when not empty, else 7 random ASCII
    /// letters and digits.
    pub fn begin(downloads: &str, url: String, name: Option<String>) -> (r: Result<
        AddSession,
        ManagerError,
    >)
        ensures
            r is Ok <==> url_path(url@) is Some,
            r matches Err(e) ==> e.kind == ManagerErrorKind::InvalidAddress,
            r matches Ok(s) ==> {
                let p = url_path(url@)->Some_0;
                &&& s.phase() == AddPhase::Lookup
                &&& s.job().url == url
                &&& s.job().path@ == joined_path(downloads@, s.job().name@)
                &&& name matches Some(n) ==> s.job().name@ == n@
                &&& name is None && url_name(p) is Some ==> s.job().name@ == url_name(p)->Some_0
                &&& name is None && url_name(p) is None ==> {
                    &&& s.job().name@.len() == GENERATED_NAME_LEN
                    &&& forall|i: int|
                        0 <= i < GENERATED_NAME_LEN ==> is_alphanumeric(
                            #[trigger] s.job().name@[i],
                        )
                }
            },
    {
        match parse_url_path(url.as_str()) {
            Err(m) => Err(ManagerError::new(ManagerErrorKind::InvalidAddress, m)),
            Ok(p) => {
                let generated = random_alphanumeric(GENERATED_NAME_LEN);
                let n = resolve_name(name, p.as_str(), generated);
                let path = join_path(downloads, n.as_str());
                Ok(AddSession { job: NewJob { name: n, url, path }, phase: AddPhase::Lookup })
            },
        }
    }

    pub fn step(&mut self, event: AddEvent) -> (r: AddAction)
        ensures
            final(self).job() == old(self).job(),
            match (old(self).phase(), event) {
                (AddPhase::Lookup, AddEvent::Looked(Err(e))) => if e.kind
                    == ManagerErrorKind::DownloadJobNotFound {
                    final(self).phase() == AddPhase::Persist && (r matches AddAction::Persist(j)
                        && is_pending_record(j, old(self).job()))
                } else {
                    final(self).phase() == AddPhase::Finished && r == AddAction::Fail(e)
                },
                (AddPhase::Lookup, AddEvent::Looked(Ok(_))) => {
                    &&& final(self).phase() == AddPhase::Finished
                    &&& r matches AddAction::Fail(e) && e.kind
                        == ManagerErrorKind::DownloadJobNameAlreadyExist && e.msg@
                        == old(self).job().name@ + " already exists"@
                },
                (AddPhase::Persist, AddEvent::Persisted(Ok(()))) => final(self).phase()
                    == AddPhase::Enqueue && r is Enqueue,
                (AddPhase::Persist, AddEvent::Persisted(Err(e))) => final(self).phase()
                    == AddPhase::Finished && r == AddAction::Fail(e),
                (AddPhase::Enqueue, AddEvent::Enqueued(Ok(()))) => final(self).phase()
                    == AddPhase::Finished && r is Register,
                (AddPhase::Enqueue, AddEvent::Enqueued(Err(m))) => {
                    &&& final(self).phase() == AddPhase::Finished
                    &&& r matches AddAction::Fail(e) && e.kind == ManagerErrorKind::ChannelError
                        && e.msg == m
                },
                _ => final(self).phase() == AddPhase::Finished && (r matches AddAction::Fail(e)
                    && is_unexpected_event(e)),
            },
    {
        match (self.phase, event) {
            (AddPhase::Lookup, AddEvent::Looked(Err(e))) => {
                if e.kind == ManagerErrorKind::DownloadJobNotFound {
                    self.phase = AddPhase::Persist;
                    AddAction::Persist(self.job.pending_info())
                } else {
                    self.phase = AddPhase::Finished;
                    AddAction::Fail(e)
                }
            },
            (AddPhase::Lookup, AddEvent::Looked(Ok(_))) => {
                self.phase = AddPhase::Finished;
                let mut m = self.job.name.clone();
                m.append(" already exists");
                AddAction::Fail(ManagerError::new(ManagerErrorKind::DownloadJobNameAlreadyExist, m))
            },
            (AddPhase::Persist, AddEvent::Persisted(Ok(()))) => {
                self.phase = AddPhase::Enqueue;
                AddAction::Enqueue
            },
            (AddPhase::Persist, AddEvent::Persisted(Err(e))) => {
                self.phase = AddPhase::Finished;
                AddAction::Fail(e)
            },
            (AddPhase::Enqueue, AddEvent::Enqueued(Ok(()))) => {
                self.phase = AddPhase::Finished;
                AddAction::Register
            },
            (AddPhase::Enqueue, AddEvent::Enqueued(Err(m))) => {
                self.phase = AddPhase::Finished;
                AddAction::Fail(ManagerError::new(ManagerErrorKind::ChannelError, m))
            },
            _ => {
                self.phase = AddPhase::Finished;
                AddAction::Fail(unexpected_event())
            },
        }
    }
}

/// What became of removing a job's file.
#[derive(Debug)]
pub enum FileRemoval {
    Removed,
    /// There was no file to remove.
    Missing,
    Failed(String),
}

/// Where a cancel stands.
#[derive(PartialEq, Eq, Structural, Clone, Copy, Debug)]
pub enum CancelPhase {
    Start,
    Signal,
    Mark,
    Read,
    Remove,
    Erase,
    Finished,
}

/// What the driver of a cancel observed since the last action.
#[derive(Debug)]
pub enum CancelEvent {
    /// The job's cancellation sender was taken out of the registry, if it was there.
    Begun { had_sender: bool },
    /// Whether the broadcast reached the job's receiver, or the error text.
    Signalled(Result<(), String>),
    /// The state actor's answer to setting the job's state to `Cancelled`.
    Marked(Result<(), ManagerError>),
    /// The state actor's answer to `Get` of the job's name.
    Read(Result<JobInfo, ManagerError>),
    FileRemoved(FileRemoval),
    /// The state actor's answer to deleting the job's record.
    Erased(Result<(), ManagerError>),
}

/// What the driver of a cancel must do next.
#[derive(Debug)]
pub enum CancelAction {
    /// Broadcast these flags on the sender taken out of the registry.
    Signal(CancelInfo),
    /// Set the job's persisted state to `Cancelled`.
    MarkCancelled,
    /// Read the job's persisted record.
    ReadRecord,
    /// Remove the file at this path.
    RemoveFile(String),
    /// Delete the job's persisted record.
    EraseRecord,
    /// The cancel is over, with this outcome.
    Finish(Result<(), ManagerError>),
}

/// The protocol of one `cancel(name, forget, delete)`: stop the worker and
/// mark the job `Cancelled` if it may still run, then remove the file when
/// `delete`, then delete the record when `delete || forget`. Each step
/// tolerates a predecessor of an earlier attempt having run: a record that is
/// already gone has no file to remove, and deleting it again is no error.
#[derive(Debug)]
pub struct CancelSession {
    forget: bool,
    delete: bool,
    phase: CancelPhase,
}

/// The action, and the phase, once the job may no longer run.
pub open spec fn after_stopped(forget: bool, delete: bool, a: CancelAction, p: CancelPhase) -> bool {
    if delete {
        a is ReadRecord && p == CancelPhase::Read
    } else if forget {
        a is EraseRecord && p == CancelPhase::Erase
    } else {
        a == CancelAction::Finish(Ok(())) && p == CancelPhase::Finished
    }
}

impl CancelSession {
    pub closed spec fn forget(&self) -> bool {
        self.forget
    }

    pub closed spec fn delete(&self) -> bool {
        self.delete
    }

    pub closed spec fn phase(&self) -> CancelPhase {
        self.phase
    }

    pub fn new(forget: bool, delete: bool) -> (r: CancelSession)
        ensures
            r.forget() == forget,
            r.delete() == delete,
            r.phase() == CancelPhase::Start,
    {
        CancelSession { forget, delete, phase: CancelPhase::Start }
    }

    fn stopped(&mut self) -> (r: CancelAction)
        ensures
            final(self).forget == old(self).forget,
            final(self).delete == old(self).delete,
            after_stopped(old(self).forget, old(self).delete, r, final(self).phase),
    {
        if self.delete {
            self.phase = CancelPhase::Read;
            CancelAction::ReadRecord
        } else if self.forget {
            self.phase = CancelPhase::Erase;
            CancelAction::EraseRecord
        } else {
            self.phase = CancelPhase::Finished;
            CancelAction::Finish(Ok(()))
        }
    }

    pub fn step(&mut self, event: CancelEvent) -> (r: CancelAction)
        ensures
            final(self).forget() == old(self).forget(),
            final(self).delete() == old(self).delete(),
            match (old(self).phase(), event) {
                (CancelPhase::Start, CancelEvent::Begun { had_sender }) => if had_sender {
                    &&& final(self).phase() == CancelPhase::Signal
                    &&& r == CancelAction::Signal(
                        CancelInfo { cancel: true, delete: old(self).delete() },
                    )
                } else {
                    after_stopped(old(self).forget(), old(self).delete(), r, final(self).phase())
                },
                (CancelPhase::Signal, CancelEvent::Signalled(Ok(()))) => final(self).phase()
                    == CancelPhase::Mark && r is MarkCancelled,
                (CancelPhase::Signal, CancelEvent::Signalled(Err(m))) => {
                    &&& final(self).phase() == CancelPhase::Finished
                    &&& r matches CancelAction::Finish(Err(e)) && e.kind
                        == ManagerErrorKind::ChannelError && e.msg == m
                },
                (CancelPhase::Mark, CancelEvent::Marked(Ok(()))) => after_stopped(
                    old(self).forget(),
                    old(self).delete(),
                    r,
                    final(self).phase(),
                ),
                (CancelPhase::Mark, CancelEvent::Marked(Err(e))) => final(self).phase()
                    == CancelPhase::Finished && r == CancelAction::Finish(Err(e)),
                (CancelPhase::Read, CancelEvent::Read(Ok(j))) => final(self).phase()
                    == CancelPhase::Remove && r == CancelAction::RemoveFile(j.path),
                (CancelPhase::Read, CancelEvent::Read(Err(e))) => if e.kind
                    == ManagerErrorKind::DownloadJobNotFound {
                    final(self).phase() == CancelPhase::Erase && r is EraseRecord
                } else {
                    final(self).phase() == CancelPhase::Finished && r == CancelAction::Finish(
                        Err(e),
                    )
                },
                (CancelPhase::Remove, CancelEvent::FileRemoved(FileRemoval::Failed(m))) => {
                    &&& final(self).phase() == CancelPhase::Finished
                    &&& r matches CancelAction::Finish(Err(e)) && e.kind == ManagerErrorKind::IO
                        && e.msg == m
                },
                (CancelPhase::Remove, CancelEvent::FileRemoved(_)) => final(self).phase()
                    == CancelPhase::Erase && r is EraseRecord,
                (CancelPhase::Erase, CancelEvent::Erased(Err(e))) => final(self).phase()
                    == CancelPhase::Finished && if e.kind
                    == ManagerErrorKind::DownloadJobNotFound {
                    r == CancelAction::Finish(Ok(()))
                } else {
                    r == CancelAction::Finish(Err(e))
                },
                (CancelPhase::Erase, CancelEvent::Erased(Ok(()))) => final(self).phase()
                    == CancelPhase::Finished && r == CancelAction::Finish(Ok(())),
                _ => final(self).phase() == CancelPhase::Finished && (
                r matches CancelAction::Finish(Err(e)) && is_unexpected_event(e)),
            },
    {
        match (self.phase, event) {
            (CancelPhase::Start, CancelEvent::Begun { had_sender }) => {
                if had_sender {
                    self.phase = CancelPhase::Signal;
                    CancelAction::Signal(CancelInfo { cancel: true, delete: self.delete })
                } else {
                    self.stopped()
                }
            },
            (CancelPhase::Signal, CancelEvent::Signalled(Ok(()))) => {
                self.phase = CancelPhase::Mark;
                CancelAction::MarkCancelled
            },
            (CancelPhase::Signal, CancelEvent::Signalled(Err(m))) => {
                self.phase = CancelPhase::Finished;
                CancelAction::Finish(Err(ManagerError::new(ManagerErrorKind::ChannelError, m)))
            },
            (CancelPhase::Mark, CancelEvent::Marked(Ok(()))) => self.stopped(),
            (CancelPhase::Mark, CancelEvent::Marked(Err(e))) => {
                self.phase = CancelPhase::Finished;
                CancelAction::Finish(Err(e))
            },
            (CancelPhase::Read, CancelEvent::Read(Ok(j))) => {
                self.phase = CancelPhase::Remove;
                CancelAction::RemoveFile(j.path)
            },
            (CancelPhase::Read, CancelEvent::Read(Err(e))) => {
                if e.kind == ManagerErrorKind::DownloadJobNotFound {
                    self.phase = CancelPhase::Erase;
                    CancelAction::EraseRecord
                } else {
                    self.phase = CancelPhase::Finished;
                    CancelAction::Finish(Err(e))
                }
            },
            (CancelPhase::Remove, CancelEvent::FileRemoved(FileRemoval::Failed(m))) => {
                self.phase = CancelPhase::Finished;
                CancelAction::Finish(Err(ManagerError::new(ManagerErrorKind::IO, m)))
            },
            (CancelPhase::Remove, CancelEvent::FileRemoved(_)) => {
                self.phase = CancelPhase::Erase;
                CancelAction::EraseRecord
            },
            (CancelPhase::Erase, CancelEvent::Erased(Err(e))) => {
                self.phase = CancelPhase::Finished;
                if e.kind == ManagerErrorKind::DownloadJobNotFound {
                    CancelAction::Finish(Ok(()))
                } else {
                    CancelAction::Finish(Err(e))
                }
            },
            (CancelPhase::Erase, CancelEvent::Erased(Ok(()))) => {
                self.phase = CancelPhase::Finished;
                CancelAction::Finish(Ok(()))
            },
            _ => {
                self.phase = CancelPhase::Finished;
                CancelAction::Finish(Err(unexpected_event()))
            },
        }
    }
}

/// Whether a job's cancellation sender can be dropped, given the store's
/// answer for it: the job is gone or in a state other than `Pending` and
/// `Active`. On any other error the sender is kept.
pub fn sender_obsolete(lookup: &Result<JobInfo, ManagerError>) -> (r: bool)
    ensures
        r == match lookup {
            Ok(j) => j.state != State::Pending && j.state != State::Active,
            Err(e) => e.kind == ManagerErrorKind::DownloadJobNotFound,
        },
{
    match lookup {
        Ok(j) => j.state != State::Pending && j.state != State::Active,
        Err(e) => e.kind == ManagerErrorKind::DownloadJobNotFound,
    }
}

/// The records in state `Active`, in their order.
pub open spec fn active_records(s: Seq<JobInfo>) -> Seq<JobInfo>
    decreases s.len(),
{
    if s.len() == 0 {
        s
    } else if s.last().state == State::Active {
        active_records(s.drop_last()).push(s.last())
    } else {
        active_records(s.drop_last())
    }
}

/// The jobs to hand to the workers again at startup: every record left `Active`.
pub fn active_jobs(jobs: Vec<JobInfo>) -> (r: Vec<JobInfo>)
    ensures
        r@ == active_records(jobs@),
{
    let mut out: Vec<JobInfo> = Vec::new();
    let mut i: usize = 0;
    while i < jobs.len()
        invariant
            i <= jobs@.len(),
            out@ == active_records(jobs@.subrange(0, i as int)),
        decreases jobs@.len() - i,
    {
        proof {
            let next = jobs@.subrange(0, i + 1);
            assert(next.drop_last() =~= jobs@.subrange(0, i as int));
            assert(next.last() == jobs@[i as int]);
        }
        if jobs[i].state == State::Active {
            out.push(jobs[i].clone());
        }
        i += 1;
    }
    assert(jobs@.subrange(0, jobs@.len() as int) =~= jobs@);
    out
}

/// Every record left `Active` is among the jobs handed out again at startup,
/// and nothing else is.
pub proof fn lemma_every_active_replayed(s: Seq<JobInfo>)
    ensures
        forall|i: int|
            0 <= i < s.len() && s[i].state == State::Active ==> active_records(s).contains(
                #[trigger] s[i],
            ),
        forall|j: int|
            0 <= j < active_records(s).len() ==> #[trigger] active_records(s)[j].state
                == State::Active && s.contains(active_records(s)[j]),
    decreases s.len(),
{
    if s.len() > 0 {
        let p = s.drop_last();
        lemma_every_active_replayed(p);
        let a = active_records(s);
        let ap = active_records(p);
        assert forall|i: int|
            0 <= i < s.len() && s[i].state == State::Active implies a.contains(
            #[trigger] s[i],
        ) by {
            if i < s.len() - 1 {
                assert(p[i] == s[i]);
                let k = choose|k: int| 0 <= k < ap.len() && ap[k] == p[i];
                if s.last().state == State::Active {
                    assert(a[k] == ap[k]);
                } else {
                    assert(a[k] == ap[k]);
                }
            } else {
                assert(a[a.len() - 1] == s[i]);
            }
        }
        assert forall|j: int| 0 <= j < a.len() implies #[trigger] a[j].state == State::Active
            && s.contains(a[j]) by {
            if j < ap.len() {
                assert(a[j] == ap[j]);
                assert(ap[j].state == State::Active && p.contains(ap[j]));
                let k = choose|k: int| 0 <= k < p.len() && p[k] == ap[j];
                assert(s[k] == p[k]);
            } else {
                assert(s[s.len() - 1] == a[j]);
            }
        }
    }
}

/// After an add persists its pending record, reading the job's name returns
/// that record: the job is named, stored and found under the same name.
pub proof fn lemma_added_job_found(m: Map<Seq<char>, JobInfo>, job: NewJob, j: JobInfo)
    requires
        is_pending_record(j, job),
    ensures
        m.insert(j.name@, j).contains_key(job.name@),
        m.insert(j.name@, j)[job.name@] == j,
        m.insert(j.name@, j)[job.name@].state == State::Pending,
{
}

} // verus!
