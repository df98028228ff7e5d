use vstd::prelude::*;
use crate::err::{ManagerError, ManagerErrorKind, kind_text};
use crate::text::{decimal, decimal_text};
use crate::types::{JobInfo, state_text};

verus! {

#[derive(Debug)]
pub struct AddCommand {
    pub url: String,
    pub name: Option<String>,
}

#[derive(Debug)]
pub struct CancelCommand {
    pub name: String,
    pub forget: bool,
    pub delete: bool,
}

#[derive(Debug)]
pub struct ErrorCommand {
    pub msg: String,
}

#[derive(Debug)]
pub struct InfoCommand {
    pub name: String,
}

#[derive(Debug, Clone, Copy)]
pub struct ListCommand;

#[derive(Debug, Clone, Copy)]
pub struct AckCommand;

/// What a user sees of one job.
#[derive(Debug)]
pub struct InfoResponse {
    pub name: String,
    pub url: String,
    pub path: String,
    pub downloaded: u64,
    pub total: u64,
    pub state: String,
    pub msg: String,
}

/// What a user sees of all jobs.
#[derive(Debug)]
pub struct ListResponse(pub Vec<InfoResponse>);

/// A request to the manager, or its reply.
#[derive(Debug)]
pub enum Message {
    Add(AddCommand),
    List(ListCommand),
    ListResponse(ListResponse),
    Info(InfoCommand),
    InfoResponse(InfoResponse),
    Cancel(CancelCommand),
    Ack(AckCommand),
    Error(ManagerError),
}

/// The response shows the record.
pub open spec fn shows(r: InfoResponse, j: JobInfo) -> bool {
    &&& r.name == j.name
    &&& r.url == j.url
    &&& r.path == j.path
    &&& r.downloaded == j.downloaded
    &&& r.total == j.total
    &&& r.state@ == state_text(j.state)
    &&& r.msg == j.msg
}

pub open spec fn line(label: Seq<char>, value: Seq<char>) -> Seq<char> {
    label + ": "@ + value + "\n"@
}

/// The text of one job: a line per field, `total` only when known and `msg`
/// only when not empty.
pub open spec fn info_text(r: InfoResponse) -> Seq<char> {
    line("name"@, r.name@) + line("url"@, r.url@) + line("path"@, r.path@) + line(
        "downloaded"@,
        decimal_text(r.downloaded as nat),
    ) + (if r.total != 0 {
        line("total"@, decimal_text(r.total as nat))
    } else {
        Seq::empty()
    }) + line("state"@, r.state@) + (if r.msg@.len() > 0 {
        line("msg"@, r.msg@)
    } else {
        Seq::empty()
    })
}

/// The list line of one job: `- <name>: [<state>] [<downloaded>/<total>]`,
/// or `[<downloaded>]` when the total is unknown.
pub open spec fn entry_text(r: InfoResponse) -> Seq<char> {
    "- "@ + r.name@ + ":"@ + " ["@ + r.state@ + "]"@ + (if r.total != 0 {
        " ["@ + decimal_text(r.downloaded as nat) + "/"@ + decimal_text(r.total as nat) + "]"@
    } else {
        " ["@ + decimal_text(r.downloaded as nat) + "]"@
    }) + "\n"@
}

pub open spec fn list_text(s: Seq<InfoResponse>) -> Seq<char>
    decreases s.len(),
{
    if s.len() == 0 {
        Seq::empty()
    } else {
        list_text(s.drop_last()) + entry_text(s.last())
    }
}

fn push_line(out: &mut String, label: &str, value: &str)
    ensures
        final(out)@ == old(out)@ + line(label@, value@),
{
    out.append(label);
    out.append(": ");
    out.append(value);
    out.append("\n");
}

impl InfoResponse {
    pub fn from_job(j: &JobInfo) -> (r: InfoResponse)
        ensures
            shows(r, *j),
    {
        InfoResponse {
            name: j.name.clone(),
            url: j.url.clone(),
            path: j.path.clone(),
            downloaded: j.downloaded,
            total: j.total,
            state: j.state.text(),
            msg: j.msg.clone(),
        }
    }

    /// The job as text, one field per line.
    pub fn render(&self) -> (r: String)
        ensures
            r@ == info_text(*self),
    {
        let mut out = String::new();
        push_line(&mut out, "name", self.name.as_str());
        push_line(&mut out, "url", self.url.as_str());
        push_line(&mut out, "path", self.path.as_str());
        let d = decimal(self.downloaded);
        push_line(&mut out, "downloaded", d.as_str());
        if self.total != 0 {
            let t = decimal(self.total);
            push_line(&mut out, "total", t.as_str());
        }
        push_line(&mut out, "state", self.state.as_str());
        if self.msg.unicode_len() > 0 {
            push_line(&mut out, "msg", self.msg.as_str());
        }
        assert(out@ =~= info_text(*self));
        out
    }
}

fn entry(r: &InfoResponse) -> (s: String)
    ensures
        s@ == entry_text(*r),
{
    let mut out = String::from_str("- ");
    out.append(r.name.as_str());
    out.append(":");
    out.append(" [");
    out.append(r.state.as_str());
    out.append("]");
    let d = decimal(r.downloaded);
    if r.total != 0 {
        let t = decimal(r.total);
        out.append(" [");
        out.append(d.as_str());
        out.append("/");
        out.append(t.as_str());
        out.append("]");
    } else {
        out.append(" [");
        out.append(d.as_str());
        out.append("]");
    }
    out.append("\n");
    assert(out@ =~= entry_text(*r));
    out
}

impl ListResponse {
    pub fn from_jobs(v: &Vec<JobInfo>) -> (r: ListResponse)
        ensures
            r.0@.len() == v@.len(),
            forall|i: int| 0 <= i < v@.len() ==> shows(#[trigger] r.0@[i], v@[i]),
    {
        let mut out: Vec<InfoResponse> = Vec::new();
        let mut i: usize = 0;
        while i < v.len()
            invariant
                i <= v@.len(),
                out@.len() == i,
                forall|j: int| 0 <= j < i ==> shows(#[trigger] out@[j], v@[j]),
            decreases v@.len() - i,
        {
            out.push(InfoResponse::from_job(&v[i]));
            i += 1;
        }
        ListResponse(out)
    }

    /// The jobs as text, one line each.
    pub fn render(&self) -> (r: String)
        ensures
            r@ == list_text(self.0@),
    {
        let mut out = String::new();
        let mut i: usize = 0;
        while i < self.0.len()
            invariant
                i <= self.0@.len(),
                out@ == list_text(self.0@.subrange(0, i as int)),
            decreases self.0@.len() - i,
        {
            let e = entry(&self.0[i]);
            out.append(e.as_str());
            proof {
                let next = self.0@.subrange(0, i + 1);
                assert(next.drop_last() =~= self.0@.subrange(0, i as int));
                assert(next.last() == self.0@[i as int]);
            }
            i += 1;
        }
        assert(self.0@.subrange(0, self.0@.len() as int) =~= self.0@);
        out
    }
}

/// The manager's reply to `list`.
pub fn list_reply(r: Result<Vec<JobInfo>, ManagerError>) -> (m: Message)
    ensures
        match r {
            Ok(v) => m matches Message::ListResponse(l) && l.0@.len() == v@.len() && forall|i: int|
                0 <= i < v@.len() ==> shows(#[trigger] l.0@[i], v@[i]),
            Err(e) => m == Message::Error(e),
        },
{
    match r {
        Ok(v) => Message::ListResponse(ListResponse::from_jobs(&v)),
        Err(e) => Message::Error(e),
    }
}

/// The manager's reply to `info`.
pub fn info_reply(r: Result<JobInfo, ManagerError>) -> (m: Message)
    ensures
        match r {
            Ok(j) => m matches Message::InfoResponse(i) && shows(i, j),
            Err(e) => m == Message::Error(e),
        },
{
    match r {
        Ok(j) => Message::InfoResponse(InfoResponse::from_job(&j)),
        Err(e) => Message::Error(e),
    }
}

/// The manager's reply to `add` and `cancel`.
pub fn ack_reply(r: Result<(), ManagerError>) -> (m: Message)
    ensures
        match r {
            Ok(()) => m is Ack,
            Err(e) => m == Message::Error(e),
        },
{
    match r {
        Ok(()) => Message::Ack(AckCommand),
        Err(e) => Message::Error(e),
    }
}

/// The manager's reply to a message that is not a request.
pub fn unexpected_command_reply() -> (m: Message)
    ensures
        m matches Message::Error(e) && e.kind == ManagerErrorKind::InvalidMessage && e.msg@
            == "unexpected command"@,
{
    Message::Error(
        ManagerError::new(ManagerErrorKind::InvalidMessage, String::from_str("unexpected command")),
    )
}

/// The error for a reply of the wrong kind from the manager.
pub open spec fn is_wrong_reply(e: ManagerError) -> bool {
    e.kind == ManagerErrorKind::InvalidMessage && e.msg@ == "unexpected reply"@
}

/// The error for a reply channel that closed without a reply from the manager.
pub open spec fn is_lost_reply(e: ManagerError) -> bool {
    e.kind == ManagerErrorKind::ChannelError && e.msg@ == "no response"@
}

fn wrong_reply() -> (e: ManagerError)
    ensures
        is_wrong_reply(e),
{
    ManagerError::new(ManagerErrorKind::InvalidMessage, String::from_str("unexpected reply"))
}

fn lost_reply() -> (e: ManagerError)
    ensures
        is_lost_reply(e),
{
    ManagerError::new(ManagerErrorKind::ChannelError, String::from_str("no response"))
}

/// The result of a `list` request, from the manager's reply (`None`: the
/// channel closed).
pub fn expect_list(reply: Option<Message>) -> (r: Result<ListResponse, ManagerError>)
    ensures
        match reply {
            Some(Message::ListResponse(l)) => r == Ok::<ListResponse, ManagerError>(l),
            Some(Message::Error(e)) => r == Err::<ListResponse, ManagerError>(e),
            Some(_) => r matches Err(e) && is_wrong_reply(e),
            None => r matches Err(e) && is_lost_reply(e),
        },
{
    match reply {
        Some(Message::ListResponse(l)) => Ok(l),
        Some(Message::Error(e)) => Err(e),
        Some(_) => Err(wrong_reply()),
        None => Err(lost_reply()),
    }
}

/// The result of an `info` request, from the manager's reply (`None`: the
/// channel closed).
pub fn expect_info(reply: Option<Message>) -> (r: Result<InfoResponse, ManagerError>)
    ensures
        match reply {
            Some(Message::InfoResponse(i)) => r == Ok::<InfoResponse, ManagerError>(i),
            Some(Message::Error(e)) => r == Err::<InfoResponse, ManagerError>(e),
            Some(_) => r matches Err(e) && is_wrong_reply(e),
            None => r matches Err(e) && is_lost_reply(e),
        },
{
    match reply {
        Some(Message::InfoResponse(i)) => Ok(i),
        Some(Message::Error(e)) => Err(e),
        Some(_) => Err(wrong_reply()),
        None => Err(lost_reply()),
    }
}

/// The result of an `add` or `cancel` request, from the manager's reply
/// (`None`: the channel closed).
pub fn expect_ack(reply: Option<Message>) -> (r: Result<AckCommand, ManagerError>)
    ensures
        match reply {
            Some(Message::Ack(_)) => r is Ok,
            Some(Message::Error(e)) => r == Err::<AckCommand, ManagerError>(e),
            Some(_) => r matches Err(e) && is_wrong_reply(e),
            None => r matches Err(e) && is_lost_reply(e),
        },
{
    match reply {
        Some(Message::Ack(a)) => Ok(a),
        Some(Message::Error(e)) => Err(e),
        Some(_) => Err(wrong_reply()),
        None => Err(lost_reply()),
    }
}

/// Body of a `POST` that submits a job.
#[derive(Debug)]
pub struct Add {
    pub url: String,
    pub name: Option<String>,
}

/// Body of a `DELETE` that cancels a job.
#[derive(Debug, Clone, Copy)]
pub struct Cancel {
    pub forget: bool,
    pub delete: bool,
}

/// Body of an error response.
#[derive(Debug)]
pub enum Error {
    Error(String),
}

impl Error {
    pub fn from_manager_error(e: &ManagerError) -> (r: Error)
        ensures
            r matches Error::Error(t) && t@ == kind_text(e.kind) + ": "@ + e.msg@,
    {
        Error::Error(e.describe())
    }

    pub fn text(&self) -> (r: String)
        ensures
            self matches Error::Error(t) && r@ == t@,
    {
        match self {
            Error::Error(t) => t.clone(),
        }
    }
}

/// The error a failed REST call reports: the text of its error body, or the
/// reason the body could not be decoded.
pub fn call_error(body: Result<Error, String>) -> (e: ManagerError)
    ensures
        match body {
            Ok(Error::Error(t)) => e.kind == ManagerErrorKind::HTTPError && e.msg == t,
            Err(m) => e.kind == ManagerErrorKind::DecodingError && e.msg == m,
        },
{
    match body {
        Ok(Error::Error(t)) => ManagerError::new(ManagerErrorKind::HTTPError, t),
        Err(m) => ManagerError::new(ManagerErrorKind::DecodingError, m),
    }
}

/// The four operations of the REST interface.
#[derive(PartialEq, Eq, Structural, Clone, Copy, Debug)]
pub enum Endpoint {
    List,
    Info,
    Add,
    Cancel,
}

/// HTTP status of a successful call: `201` for a submission, else `200`.
pub fn success_status(ep: Endpoint) -> (r: u16)
    ensures
        r == if ep == Endpoint::Add {
            201u16
        } else {
            200u16
        },
{
    match ep {
        Endpoint::Add => 201,
        _ => 200,
    }
}

/// HTTP status of a failed call: `404` for a missing job, `400` for a bad
/// address, `500` for any other error.
pub fn error_status(kind: ManagerErrorKind) -> (r: u16)
    ensures
        r == match kind {
            ManagerErrorKind::DownloadJobNotFound => 404u16,
            ManagerErrorKind::InvalidAddress => 400u16,
            _ => 500u16,
        },
{
    match kind {
        ManagerErrorKind::DownloadJobNotFound => 404,
        ManagerErrorKind::InvalidAddress => 400,
        _ => 500,
    }
}

} // verus!
