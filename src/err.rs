use vstd::prelude::*;

verus! {

/// The closed set of error kinds surfaced by the manager.
#[derive(PartialEq, Eq, Structural, Clone, Copy, Debug)]
pub enum ManagerErrorKind {
    IO,
    InvalidAddress,
    InvalidMessage,
    DecodingError,
    DatabaseError,
    ChannelError,
    HTTPError,
    DownloadJobNotFound,
    DownloadJobNameAlreadyExist,
    ParseIntError,
    ParseBoolError,
}

/// Human-readable description of an error kind.
pub open spec fn kind_text(k: ManagerErrorKind) -> Seq<char> {
    match k {
        ManagerErrorKind::IO => "io error"@,
        ManagerErrorKind::InvalidAddress => "invalid address error"@,
        ManagerErrorKind::InvalidMessage => "invalid message"@,
        ManagerErrorKind::DecodingError => "decoding error"@,
        ManagerErrorKind::DatabaseError => "db error"@,
        ManagerErrorKind::ChannelError => "channel error"@,
        ManagerErrorKind::HTTPError => "http error"@,
        ManagerErrorKind::DownloadJobNotFound => "download job not found"@,
        ManagerErrorKind::DownloadJobNameAlreadyExist => "download job name already exist"@,
        ManagerErrorKind::ParseIntError => "error parsing integer"@,
        ManagerErrorKind::ParseBoolError => "error parsing bool"@,
    }
}

impl ManagerErrorKind {
    pub fn text(&self) -> (r: String)
        ensures
            r@ == kind_text(*self),
    {
        match self {
            ManagerErrorKind::IO => String::from_str("io error"),
            ManagerErrorKind::InvalidAddress => String::from_str("invalid address error"),
            ManagerErrorKind::InvalidMessage => String::from_str("invalid message"),
            ManagerErrorKind::DecodingError => String::from_str("decoding error"),
            ManagerErrorKind::DatabaseError => String::from_str("db error"),
            ManagerErrorKind::ChannelError => String::from_str("channel error"),
            ManagerErrorKind::HTTPError => String::from_str("http error"),
            ManagerErrorKind::DownloadJobNotFound => String::from_str("download job not found"),
            ManagerErrorKind::DownloadJobNameAlreadyExist => String::from_str(
                "download job name already exist",
            ),
            ManagerErrorKind::ParseIntError => String::from_str("error parsing integer"),
            ManagerErrorKind::ParseBoolError => String::from_str("error parsing bool"),
        }
    }
}

/// An error with its kind and a free-form message.
#[derive(Debug)]
pub struct ManagerError {
    pub kind: ManagerErrorKind,
    pub msg: String,
}

impl Clone for ManagerError {
    fn clone(&self) -> (r: Self)
        ensures
            r == *self,
    {
        ManagerError { kind: self.kind, msg: self.msg.clone() }
    }
}

impl ManagerError {
    pub fn new(kind: ManagerErrorKind, msg: String) -> (r: ManagerError)
        ensures
            r.kind == kind,
            r.msg == msg,
    {
        ManagerError { kind, msg }
    }

    /// The error as one line: `<kind text>: <message>`.
    pub fn describe(&self) -> (r: String)
        ensures
            r@ == kind_text(self.kind) + ": "@ + self.msg@,
    {
        let mut s = self.kind.text();
        s.append(": ");
        s.append(self.msg.as_str());
        s
    }
}

} // verus!
