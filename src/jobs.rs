use vstd::prelude::*;
use crate::err::{ManagerError, ManagerErrorKind};
use crate::store::{JobStore, StoredRow, as_map, names_unique, row_decoded, with_state};
use crate::types::{JobInfo, State};

verus! {

/// A message to or from the state actor. Requests travel with a reply
/// channel of their own; the actor answers each with exactly one reply.
#[derive(Debug)]
pub enum JobMessage {
    Update(JobInfo),
    Delete(String),
    UpdateState(String, State),
    Get(String),
    List,
    GetResponse(JobInfo),
    ListResponse(Vec<JobInfo>),
    Ack,
    Error(ManagerError),
}

/// The records of the rows, later rows replacing earlier rows of the same name.
pub open spec fn rows_map(rows: Seq<StoredRow>) -> Map<Seq<char>, JobInfo>
    decreases rows.len(),
{
    if rows.len() == 0 {
        Map::empty()
    } else {
        rows_map(rows.drop_last()).insert(rows.last().name@, row_decoded(rows.last()))
    }
}

/// The state actor: the single owner of the job store, which serves one
/// request at a time.
#[derive(Debug)]
pub struct StateDaemon {
    store: JobStore,
}

impl StateDaemon {
    pub closed spec fn wf(&self) -> bool {
        self.store.wf()
    }

    /// The job records held, by name.
    pub closed spec fn jobs(&self) -> Map<Seq<char>, JobInfo> {
        self.store@
    }

    /// An actor whose store holds the given stored rows.
    pub fn new(rows: &Vec<StoredRow>) -> (r: StateDaemon)
        ensures
            r.wf(),
            r.jobs() == rows_map(rows@),
    {
        let mut store = JobStore::new();
        let mut i: usize = 0;
        while i < rows.len()
            invariant
                i <= rows@.len(),
                store.wf(),
                store@ == rows_map(rows@.subrange(0, i as int)),
            decreases rows@.len() - i,
        {
            let info = JobInfo::from_row(&rows[i]);
            store.update_state(info);
            proof {
                let next = rows@.subrange(0, i + 1);
                assert(next.drop_last() =~= rows@.subrange(0, i as int));
                assert(next.last() == rows@[i as int]);
            }
            i += 1;
        }
        assert(rows@.subrange(0, rows@.len() as int) =~= rows@);
        StateDaemon { store }
    }

    /// Serves one message. `persisted` is the outcome of writing the
    /// request's change to disk, which happens first; a failed write leaves
    /// the store as it was and is the reply. A message that is not a request
    /// gets no reply.
    pub fn handle(&mut self, msg: JobMessage, persisted: Result<(), ManagerError>) -> (r: Option<
        JobMessage,
    >)
        requires
            old(self).wf(),
        ensures
            final(self).wf(),
            match msg {
                JobMessage::Update(info) => match persisted {
                    Ok(()) => final(self).jobs() == old(self).jobs().insert(info.name@, info) && r
                        == Some(JobMessage::Ack),
                    Err(e) => final(self).jobs() == old(self).jobs() && r == Some(
                        JobMessage::Error(e),
                    ),
                },
                JobMessage::UpdateState(name, state) => match persisted {
                    Ok(()) => r == Some(JobMessage::Ack) && if old(self).jobs().contains_key(
                        name@,
                    ) {
                        final(self).jobs() == old(self).jobs().insert(
                            name@,
                            with_state(old(self).jobs()[name@], state),
                        )
                    } else {
                        final(self).jobs() == old(self).jobs()
                    },
                    Err(e) => final(self).jobs() == old(self).jobs() && r == Some(
                        JobMessage::Error(e),
                    ),
                },
                JobMessage::Delete(name) => match persisted {
                    Ok(()) => final(self).jobs() == old(self).jobs().remove(name@) && r == Some(
                        JobMessage::Ack,
                    ),
                    Err(e) => final(self).jobs() == old(self).jobs() && r == Some(
                        JobMessage::Error(e),
                    ),
                },
                JobMessage::Get(name) => {
                    &&& final(self).jobs() == old(self).jobs()
                    &&& if old(self).jobs().contains_key(name@) {
                        r == Some(JobMessage::GetResponse(old(self).jobs()[name@]))
                    } else {
                        r matches Some(JobMessage::Error(e)) && e.kind
                            == ManagerErrorKind::DownloadJobNotFound && e.msg@ == name@
                            + " not found"@
                    }
                },
                JobMessage::List => {
                    &&& final(self).jobs() == old(self).jobs()
                    &&& r matches Some(JobMessage::ListResponse(v)) && names_unique(v@) && as_map(
                        v@,
                    ) == old(self).jobs()
                },
                _ => final(self).jobs() == old(self).jobs() && r is None,
            },
    {
        match msg {
            JobMessage::Update(info) => match persisted {
                Ok(()) => {
                    self.store.update_state(info);
                    Some(JobMessage::Ack)
                },
                Err(e) => Some(JobMessage::Error(e)),
            },
            JobMessage::UpdateState(name, state) => match persisted {
                Ok(()) => {
                    self.store.update_job_state(&name, state);
                    Some(JobMessage::Ack)
                },
                Err(e) => Some(JobMessage::Error(e)),
            },
            JobMessage::Delete(name) => match persisted {
                Ok(()) => {
                    self.store.delete_job(&name);
                    Some(JobMessage::Ack)
                },
                Err(e) => Some(JobMessage::Error(e)),
            },
            JobMessage::Get(name) => match self.store.get_job(&name) {
                Ok(info) => Some(JobMessage::GetResponse(info)),
                Err(e) => Some(JobMessage::Error(e)),
            },
            JobMessage::List => Some(JobMessage::ListResponse(self.store.list_jobs())),
            _ => None,
        }
    }
}

/// The error for a reply of the wrong kind.
pub open spec fn is_unexpected_reply(e: ManagerError) -> bool {
    e.kind == ManagerErrorKind::ChannelError && e.msg@ == "unexpected reply"@
}

/// The error for a reply channel that closed without a reply.
pub open spec fn is_missing_reply(e: ManagerError) -> bool {
    e.kind == ManagerErrorKind::ChannelError && e.msg@ == "no response"@
}

fn unexpected_reply() -> (e: ManagerError)
    ensures
        is_unexpected_reply(e),
{
    ManagerError::new(ManagerErrorKind::ChannelError, String::from_str("unexpected reply"))
}

fn missing_reply() -> (e: ManagerError)
    ensures
        is_missing_reply(e),
{
    ManagerError::new(ManagerErrorKind::ChannelError, String::from_str("no response"))
}

/// The result of a `Get` request, from its reply (`None`: the channel closed).
pub fn expect_job(reply: Option<JobMessage>) -> (r: Result<JobInfo, ManagerError>)
    ensures
        match reply {
            Some(JobMessage::GetResponse(j)) => r == Ok::<JobInfo, ManagerError>(j),
            Some(JobMessage::Error(e)) => r == Err::<JobInfo, ManagerError>(e),
            Some(_) => r matches Err(e) && is_unexpected_reply(e),
            None => r matches Err(e) && is_missing_reply(e),
        },
{
    match reply {
        Some(JobMessage::GetResponse(j)) => Ok(j),
        Some(JobMessage::Error(e)) => Err(e),
        Some(_) => Err(unexpected_reply()),
        None => Err(missing_reply()),
    }
}

/// The result of a `List` request, from its reply (`None`: the channel closed).
pub fn expect_jobs(reply: Option<JobMessage>) -> (r: Result<Vec<JobInfo>, ManagerError>)
    ensures
        match reply {
            Some(JobMessage::ListResponse(v)) => r == Ok::<Vec<JobInfo>, ManagerError>(v),
            Some(JobMessage::Error(e)) => r == Err::<Vec<JobInfo>, ManagerError>(e),
            Some(_) => r matches Err(e) && is_unexpected_reply(e),
            None => r matches Err(e) && is_missing_reply(e),
        },
{
    match reply {
        Some(JobMessage::ListResponse(v)) => Ok(v),
        Some(JobMessage::Error(e)) => Err(e),
        Some(_) => Err(unexpected_reply()),
        None => Err(missing_reply()),
    }
}

/// The result of an `Update`, `UpdateState` or `Delete` request, from its
/// reply (`None`: the channel closed).
pub fn expect_ack(reply: Option<JobMessage>) -> (r: Result<(), ManagerError>)
    ensures
        match reply {
            Some(JobMessage::Ack) => r == Ok::<(), ManagerError>(()),
            Some(JobMessage::Error(e)) => r == Err::<(), ManagerError>(e),
            Some(_) => r matches Err(e) && is_unexpected_reply(e),
            None => r matches Err(e) && is_missing_reply(e),
        },
{
    match reply {
        Some(JobMessage::Ack) => Ok(()),
        Some(JobMessage::Error(e)) => Err(e),
        Some(_) => Err(unexpected_reply()),
        None => Err(missing_reply()),
    }
}

/// Setting a job's state or deleting a job never adds a name and leaves every
/// other job as it was; so a cancel, which only marks and deletes its own job,
/// keeps the names in the store pairwise distinct and creates no record.
pub proof fn lemma_mark_and_delete_keep_others(
    m: Map<Seq<char>, JobInfo>,
    name: Seq<char>,
    state: State,
)
    ensures
        m.contains_key(name) ==> m.insert(name, with_state(m[name], state)).dom() == m.dom(),
        m.remove(name).dom().subset_of(m.dom()),
        forall|k: Seq<char>|
            k != name && m.contains_key(k) ==> m.insert(name, with_state(m[name], state))[k]
                == m[k] && #[trigger] m.remove(name)[k] == m[k],
{
    if m.contains_key(name) {
        assert(m.insert(name, with_state(m[name], state)).dom() =~= m.dom());
    }
}

} // verus!
