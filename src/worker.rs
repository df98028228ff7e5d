use vstd::prelude::*;
use crate::text::{parse_u64, u64_of_text};
use crate::types::{CancelInfo, JobInfo, State};

verus! {

/// What a stat of the target file found.
#[derive(Debug)]
pub enum FileStat {
    Absent,
    Present(u64),
    Failed(String),
}

/// The outcome of receiving one body chunk and appending it to the file.
#[derive(Debug)]
pub enum ChunkOutcome {
    Written(u64),
    End,
    ReadFailed(String),
    WriteFailed(String),
}

/// What the driver of a download observed since the last command.
#[derive(Debug)]
pub enum WorkerEvent {
    /// The job was taken from the queue.
    Dequeued,
    /// The target file was stat'ed.
    Stat(FileStat),
    /// The `Range: bytes=0-0` probe answered: whether its status was `206`.
    Probe(Result<bool, String>),
    /// The request answered with the raw `Content-Length` value, if any, or
    /// failed in transport.
    Response(Result<Option<Vec<u8>>, String>),
    /// The target file was opened in append+create mode, or not.
    Opened(Result<(), String>),
    Chunk(ChunkOutcome),
}

/// What the driver of a download must do next.
#[derive(PartialEq, Eq, Structural, Clone, Copy, Debug)]
pub enum WorkerCommand {
    /// Stat the target file.
    Stat,
    /// Request the URL with `Range: bytes=0-0`.
    Probe,
    /// Request the URL, with `Range: bytes=<n>-` when resuming from byte `n`.
    Request { resume_from: Option<u64> },
    /// Open the target file in append+create mode.
    OpenFile,
    /// Receive the next body chunk and append it to the file.
    NextChunk,
    /// Remove the target file, ignoring any error, and stop.
    RemoveFileAndStop,
    /// The job is over.
    Stop,
}

/// Where a download stands.
#[derive(PartialEq, Eq, Structural, Clone, Copy, Debug)]
pub enum Phase {
    Start,
    Stat,
    Probe { size: u64 },
    Response,
    Open,
    Stream,
    Finished,
}

/// The reaction to one event: a snapshot to publish, if any, and a command.
#[derive(Debug)]
pub struct WorkerStep {
    pub publish: Option<JobInfo>,
    pub command: WorkerCommand,
}

/// A snapshot is published unless the job's cancellation flag is set: the
/// manager has then already written the terminal `Cancelled` state.
pub open spec fn published(p: Option<JobInfo>, cancel: CancelInfo, j: JobInfo) -> bool {
    if cancel.cancel {
        p is None
    } else {
        p == Some(j)
    }
}

/// The command taken at a chunk boundary, given the cancellation flags.
pub open spec fn boundary_command(cancel: CancelInfo) -> WorkerCommand {
    if !cancel.cancel {
        WorkerCommand::NextChunk
    } else if cancel.delete {
        WorkerCommand::RemoveFileAndStop
    } else {
        WorkerCommand::Stop
    }
}

/// `a + b`, or the largest `u64` where the sum does not fit.
pub open spec fn saturated(a: nat, b: nat) -> nat {
    if a + b > u64::MAX {
        u64::MAX as nat
    } else {
        a + b
    }
}

/// The total size announced by `Content-Length` on top of the bytes already
/// on disk; `0` (unknown) when the value is not a number or the sum does not fit.
pub open spec fn announced_total(header: Seq<u8>, prior: u64) -> u64 {
    match u64_of_text(header) {
        Some(l) => if l + prior <= u64::MAX {
            (l + prior) as u64
        } else {
            0
        },
        None => 0,
    }
}

/// How the published counts relate to the bytes seen: `downloaded` is the
/// bytes on disk at the start plus the bytes received (saturating), `total`
/// is the announced length plus the bytes on disk at the start when it was
/// announced, and the job stays `Active` until the session finishes.
pub open spec fn progress_consistent(s: DownloadSession) -> bool {
    &&& s.snapshot().downloaded as nat == saturated(s.prior() as nat, s.received())
    &&& s.announced() matches Some(l) ==> s.snapshot().total == l + s.prior()
    &&& s.phase() != Phase::Finished ==> s.snapshot().state == State::Active
}

/// The per-job protocol of a download worker.
pub struct DownloadSession {
    info: JobInfo,
    prior: u64,
    phase: Phase,
    received: Ghost<nat>,
    length: Ghost<Option<u64>>,
}

impl DownloadSession {
    /// The snapshot of the job as the worker sees it.
    pub closed spec fn snapshot(&self) -> JobInfo {
        self.info
    }

    pub closed spec fn phase(&self) -> Phase {
        self.phase
    }

    /// Bytes that were on disk when the download started.
    pub closed spec fn prior(&self) -> u64 {
        self.prior
    }

    /// Bytes received in this run.
    pub closed spec fn received(&self) -> nat {
        self.received@
    }

    /// The `Content-Length` the server announced, when `total` was set from it.
    pub closed spec fn announced(&self) -> Option<u64> {
        self.length@
    }

    pub closed spec fn wf(&self) -> bool {
        &&& self.info.downloaded as nat == saturated(self.prior as nat, self.received@)
        &&& self.length@ matches Some(l) ==> self.info.total == l + self.prior
        &&& self.phase != Phase::Finished ==> self.info.state == State::Active
        &&& (self.phase is Start || self.phase is Stat || self.phase is Probe || self.phase is Response)
            ==> self.length@ is None
    }

    pub fn new(name: String, url: String, path: String) -> (r: DownloadSession)
        ensures
            r.wf(),
            progress_consistent(r),
            r.phase() == Phase::Start,
            r.snapshot().name == name,
            r.snapshot().url == url,
            r.snapshot().path == path,
            r.snapshot().downloaded == 0,
            r.snapshot().total == 0,
            r.snapshot().state == State::Active,
            r.snapshot().msg@ == Seq::<char>::empty(),
            r.prior() == 0,
            r.received() == 0,
            r.announced() is None,
    {
        DownloadSession {
            info: JobInfo {
                name,
                url,
                path,
                downloaded: 0,
                total: 0,
                state: State::Active,
                msg: String::new(),
            },
            prior: 0,
            phase: Phase::Start,
            received: Ghost(0),
            length: Ghost(None),
        }
    }

    fn emit(&self, cancel: CancelInfo) -> (r: Option<JobInfo>)
        ensures
            published(r, cancel, self.info),
    {
        if cancel.cancel {
            None
        } else {
            Some(self.info.clone())
        }
    }

    fn fail(&mut self, msg: String, cancel: CancelInfo) -> (r: WorkerStep)
        ensures
            final(self).phase == Phase::Finished,
            final(self).info == (JobInfo { state: State::Failed, msg: msg, ..old(self).info }),
            final(self).prior == old(self).prior,
            final(self).received == old(self).received,
            final(self).length == old(self).length,
            r.command == WorkerCommand::Stop,
            published(r.publish, cancel, final(self).info),
    {
        self.info.state = State::Failed;
        self.info.msg = msg;
        self.phase = Phase::Finished;
        WorkerStep { publish: self.emit(cancel), command: WorkerCommand::Stop }
    }
}

/// The session ended in `Failed` with this message, publishing it unless cancelled.
pub open spec fn failed_with(
    pre: DownloadSession,
    post: DownloadSession,
    r: WorkerStep,
    cancel: CancelInfo,
    msg: Seq<char>,
) -> bool {
    &&& post.phase() == Phase::Finished
    &&& post.snapshot() == (JobInfo {
        state: State::Failed,
        msg: post.snapshot().msg,
        ..pre.snapshot()
    })
    &&& post.snapshot().msg@ == msg
    &&& r.command == WorkerCommand::Stop
    &&& published(r.publish, cancel, post.snapshot())
}

/// The session stopped where it was, publishing nothing.
pub open spec fn halted(pre: DownloadSession, post: DownloadSession, r: WorkerStep) -> bool {
    &&& post.phase() == Phase::Finished
    &&& post.snapshot() == pre.snapshot()
    &&& r.publish is None
    &&& r.command == WorkerCommand::Stop
}

impl DownloadSession {
    /// Advances the protocol by one observed event. `cancel` is the job's
    /// cancellation flags as read just before this call.
    ///
    /// An event that does not answer the pending command ends the session
    /// without publishing anything.
    pub fn step(&mut self, event: WorkerEvent, cancel: CancelInfo) -> (r: WorkerStep)
        requires
            old(self).wf(),
        ensures
            final(self).wf(),
            progress_consistent(*final(self)),
            cancel.cancel ==> r.publish is None,
            old(self).phase() == Phase::Start ==> if event is Dequeued {
                if cancel.cancel {
                    halted(*old(self), *final(self), r)
                } else {
                    &&& final(self).phase() == Phase::Stat
                    &&& final(self).snapshot() == old(self).snapshot()
                    &&& r.publish is None
                    &&& r.command == WorkerCommand::Stat
                }
            } else {
                halted(*old(self), *final(self), r)
            },
            old(self).phase() == Phase::Stat ==> match event {
                WorkerEvent::Stat(FileStat::Absent) => {
                    &&& final(self).phase() == Phase::Response
                    &&& final(self).snapshot() == old(self).snapshot()
                    &&& final(self).prior() == old(self).prior()
                    &&& published(r.publish, cancel, final(self).snapshot())
                    &&& r.command == (WorkerCommand::Request { resume_from: None })
                },
                WorkerEvent::Stat(FileStat::Present(size)) => {
                    &&& final(self).phase() == (Phase::Probe { size })
                    &&& final(self).snapshot() == old(self).snapshot()
                    &&& r.publish is None
                    &&& r.command == WorkerCommand::Probe
                },
                WorkerEvent::Stat(FileStat::Failed(e)) => failed_with(
                    *old(self),
                    *final(self),
                    r,
                    cancel,
                    "couldn't stat download path "@ + e@,
                ),
                _ => halted(*old(self), *final(self), r),
            },
            old(self).phase() matches Phase::Probe { size } ==> match event {
                WorkerEvent::Probe(Ok(true)) => {
                    &&& final(self).phase() == Phase::Response
                    &&& final(self).snapshot() == (JobInfo {
                        downloaded: size,
                        ..old(self).snapshot()
                    })
                    &&& final(self).prior() == size
                    &&& final(self).received() == 0
                    &&& published(r.publish, cancel, final(self).snapshot())
                    &&& r.command == (WorkerCommand::Request { resume_from: Some(size) })
                },
                WorkerEvent::Probe(Ok(false)) => failed_with(
                    *old(self),
                    *final(self),
                    r,
                    cancel,
                    "remote url doesn't support partial downloads"@,
                ),
                WorkerEvent::Probe(Err(e)) => failed_with(
                    *old(self),
                    *final(self),
                    r,
                    cancel,
                    "couldn't check url support for partial downloads "@ + e@,
                ),
                _ => halted(*old(self), *final(self), r),
            },
            old(self).phase() == Phase::Response ==> match event {
                WorkerEvent::Response(Ok(None)) => {
                    &&& final(self).phase() == Phase::Open
                    &&& final(self).snapshot() == old(self).snapshot()
                    &&& final(self).prior() == old(self).prior()
                    &&& final(self).received() == old(self).received()
                    &&& published(r.publish, cancel, final(self).snapshot())
                    &&& r.command == WorkerCommand::OpenFile
                },
                WorkerEvent::Response(Ok(Some(h))) => {
                    &&& final(self).phase() == Phase::Open
                    &&& final(self).snapshot() == (JobInfo {
                        total: announced_total(h@, old(self).prior()),
                        ..old(self).snapshot()
                    })
                    &&& final(self).prior() == old(self).prior()
                    &&& final(self).received() == old(self).received()
                    &&& (u64_of_text(h@) matches Some(l) ==> (l + old(self).prior() <= u64::MAX
                        ==> final(self).announced() == Some(l)))
                    &&& published(r.publish, cancel, final(self).snapshot())
                    &&& r.command == WorkerCommand::OpenFile
                },
                WorkerEvent::Response(Err(e)) => failed_with(
                    *old(self),
                    *final(self),
                    r,
                    cancel,
                    e@,
                ),
                _ => halted(*old(self), *final(self), r),
            },
            old(self).phase() == Phase::Open ==> match event {
                WorkerEvent::Opened(Ok(())) => {
                    &&& final(self).phase() == if cancel.cancel {
                        Phase::Finished
                    } else {
                        Phase::Stream
                    }
                    &&& final(self).snapshot() == old(self).snapshot()
                    &&& final(self).prior() == old(self).prior()
                    &&& final(self).received() == old(self).received()
                    &&& final(self).announced() == old(self).announced()
                    &&& r.publish is None
                    &&& r.command == boundary_command(cancel)
                },
                WorkerEvent::Opened(Err(e)) => failed_with(
                    *old(self),
                    *final(self),
                    r,
                    cancel,
                    "failed to create file: "@ + e@,
                ),
                _ => halted(*old(self), *final(self), r),
            },
            old(self).phase() == Phase::Stream ==> match event {
                WorkerEvent::Chunk(ChunkOutcome::Written(n)) => {
                    &&& final(self).phase() == if cancel.cancel {
                        Phase::Finished
                    } else {
                        Phase::Stream
                    }
                    &&& final(self).received() == old(self).received() + n
                    &&& final(self).prior() == old(self).prior()
                    &&& final(self).announced() == old(self).announced()
                    &&& final(self).snapshot() == (JobInfo {
                        downloaded: saturated(old(self).prior() as nat, final(self).received())
                            as u64,
                        ..old(self).snapshot()
                    })
                    &&& published(r.publish, cancel, final(self).snapshot())
                    &&& r.command == boundary_command(cancel)
                },
                WorkerEvent::Chunk(ChunkOutcome::End) => {
                    &&& final(self).phase() == Phase::Finished
                    &&& final(self).snapshot() == (JobInfo {
                        state: State::Done,
                        ..old(self).snapshot()
                    })
                    &&& final(self).prior() == old(self).prior()
                    &&& final(self).received() == old(self).received()
                    &&& final(self).announced() == old(self).announced()
                    &&& published(r.publish, cancel, final(self).snapshot())
                    &&& r.command == WorkerCommand::Stop
                },
                WorkerEvent::Chunk(ChunkOutcome::ReadFailed(e)) => failed_with(
                    *old(self),
                    *final(self),
                    r,
                    cancel,
                    "failed to download chunk: "@ + e@,
                ),
                WorkerEvent::Chunk(ChunkOutcome::WriteFailed(e)) => failed_with(
                    *old(self),
                    *final(self),
                    r,
                    cancel,
                    "failed to download chunk: "@ + e@,
                ),
                _ => halted(*old(self), *final(self), r),
            },
            old(self).phase() == Phase::Finished ==> halted(*old(self), *final(self), r),
    {
        match (self.phase, event) {
            (Phase::Start, WorkerEvent::Dequeued) => {
                if cancel.cancel {
                    self.phase = Phase::Finished;
                    WorkerStep { publish: None, command: WorkerCommand::Stop }
                } else {
                    self.phase = Phase::Stat;
                    WorkerStep { publish: None, command: WorkerCommand::Stat }
                }
            },
            (Phase::Stat, WorkerEvent::Stat(FileStat::Absent)) => {
                self.phase = Phase::Response;
                WorkerStep {
                    publish: self.emit(cancel),
                    command: WorkerCommand::Request { resume_from: None },
                }
            },
            (Phase::Stat, WorkerEvent::Stat(FileStat::Present(size))) => {
                self.phase = Phase::Probe { size };
                WorkerStep { publish: None, command: WorkerCommand::Probe }
            },
            (Phase::Stat, WorkerEvent::Stat(FileStat::Failed(e))) => {
                let mut m = String::from_str("couldn't stat download path ");
                m.append(e.as_str());
                self.fail(m, cancel)
            },
            (Phase::Probe { size }, WorkerEvent::Probe(Ok(true))) => {
                self.prior = size;
                self.received = Ghost(0);
                self.info.downloaded = size;
                self.phase = Phase::Response;
                WorkerStep {
                    publish: self.emit(cancel),
                    command: WorkerCommand::Request { resume_from: Some(size) },
                }
            },
            (Phase::Probe { .. }, WorkerEvent::Probe(Ok(false))) => {
                let m = String::from_str("remote url doesn't support partial downloads");
                self.fail(m, cancel)
            },
            (Phase::Probe { .. }, WorkerEvent::Probe(Err(e))) => {
                let mut m = String::from_str("couldn't check url support for partial downloads ");
                m.append(e.as_str());
                self.fail(m, cancel)
            },
            (Phase::Response, WorkerEvent::Response(Ok(None))) => {
                self.phase = Phase::Open;
                WorkerStep { publish: self.emit(cancel), command: WorkerCommand::OpenFile }
            },
            (Phase::Response, WorkerEvent::Response(Ok(Some(h)))) => {
                match parse_u64(h.as_slice()) {
                    Some(l) => match l.checked_add(self.prior) {
                        Some(t) => {
                            self.info.total = t;
                            self.length = Ghost(Some(l));
                        },
                        None => {
                            self.info.total = 0;
                        },
                    },
                    None => {
                        self.info.total = 0;
                    },
                }
                self.phase = Phase::Open;
                WorkerStep { publish: self.emit(cancel), command: WorkerCommand::OpenFile }
            },
            (Phase::Response, WorkerEvent::Response(Err(e))) => self.fail(e, cancel),
            (Phase::Open, WorkerEvent::Opened(Ok(()))) => {
                let command = self.boundary(cancel);
                WorkerStep { publish: None, command }
            },
            (Phase::Open, WorkerEvent::Opened(Err(e))) => {
                let mut m = String::from_str("failed to create file: ");
                m.append(e.as_str());
                self.fail(m, cancel)
            },
            (Phase::Stream, WorkerEvent::Chunk(ChunkOutcome::Written(n))) => {
                self.received = Ghost((self.received@ + n) as nat);
                self.info.downloaded = self.info.downloaded.saturating_add(n);
                let publish = self.emit(cancel);
                let command = self.boundary(cancel);
                WorkerStep { publish, command }
            },
            (Phase::Stream, WorkerEvent::Chunk(ChunkOutcome::End)) => {
                self.info.state = State::Done;
                self.phase = Phase::Finished;
                WorkerStep { publish: self.emit(cancel), command: WorkerCommand::Stop }
            },
            (Phase::Stream, WorkerEvent::Chunk(ChunkOutcome::ReadFailed(e))) => {
                let mut m = String::from_str("failed to download chunk: ");
                m.append(e.as_str());
                self.fail(m, cancel)
            },
            (Phase::Stream, WorkerEvent::Chunk(ChunkOutcome::WriteFailed(e))) => {
                let mut m = String::from_str("failed to download chunk: ");
                m.append(e.as_str());
                self.fail(m, cancel)
            },
            _ => {
                self.phase = Phase::Finished;
                WorkerStep { publish: None, command: WorkerCommand::Stop }
            },
        }
    }

    /// The check made at a chunk boundary: a set cancellation flag ends the job.
    fn boundary(&mut self, cancel: CancelInfo) -> (r: WorkerCommand)
        ensures
            r == boundary_command(cancel),
            final(self).phase == if cancel.cancel {
                Phase::Finished
            } else {
                Phase::Stream
            },
            final(self).info == old(self).info,
            final(self).prior == old(self).prior,
            final(self).received == old(self).received,
            final(self).length == old(self).length,
    {
        if cancel.cancel {
            self.phase = Phase::Finished;
            if cancel.delete {
                WorkerCommand::RemoveFileAndStop
            } else {
                WorkerCommand::Stop
            }
        } else {
            self.phase = Phase::Stream;
            WorkerCommand::NextChunk
        }
    }
}

/// A download that ends in `Done` after receiving exactly the announced
/// `Content-Length` has `downloaded == total`, resumed or not.
pub proof fn lemma_done_download_complete(s: DownloadSession, l: u64)
    requires
        progress_consistent(s),
        s.phase() == Phase::Finished,
        s.snapshot().state == State::Done,
        s.announced() == Some(l),
        s.received() == l,
    ensures
        s.snapshot().downloaded == s.snapshot().total,
{
}

} // verus!
