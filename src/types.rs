use vstd::prelude::*;

verus! {

/// Lifecycle state of a download job.
#[derive(PartialEq, Eq, Structural, Clone, Copy, Debug)]
pub enum State {
    Active,
    Pending,
    Cancelled,
    Failed,
    Done,
    Unknown,
}

/// Textual form of a state, as stored and as shown to users.
pub open spec fn state_text(s: State) -> Seq<char> {
    match s {
        State::Active => "Active"@,
        State::Pending => "Pending"@,
        State::Cancelled => "Cancelled"@,
        State::Failed => "Failed"@,
        State::Done => "Done"@,
        State::Unknown => "Unknown"@,
    }
}

/// Decoding of a stored state: any text outside the known set is `Unknown`.
pub open spec fn state_of_text(t: Seq<char>) -> State {
    if t == "Active"@ {
        State::Active
    } else if t == "Pending"@ {
        State::Pending
    } else if t == "Cancelled"@ {
        State::Cancelled
    } else if t == "Failed"@ {
        State::Failed
    } else if t == "Done"@ {
        State::Done
    } else {
        State::Unknown
    }
}

impl State {
    pub fn text(&self) -> (r: String)
        ensures
            r@ == state_text(*self),
    {
        match self {
            State::Active => String::from_str("Active"),
            State::Pending => String::from_str("Pending"),
            State::Cancelled => String::from_str("Cancelled"),
            State::Failed => String::from_str("Failed"),
            State::Done => String::from_str("Done"),
            State::Unknown => String::from_str("Unknown"),
        }
    }

    pub fn from_text(t: &String) -> (r: State)
        ensures
            r == state_of_text(t@),
    {
        if *t == String::from_str("Active") {
            State::Active
        } else if *t == String::from_str("Pending") {
            State::Pending
        } else if *t == String::from_str("Cancelled") {
            State::Cancelled
        } else if *t == String::from_str("Failed") {
            State::Failed
        } else if *t == String::from_str("Done") {
            State::Done
        } else {
            State::Unknown
        }
    }
}

/// Decoding the text of a state gives the state back.
pub proof fn lemma_state_text_round_trip(s: State)
    ensures
        state_of_text(state_text(s)) == s,
{
    reveal_strlit("Active");
    reveal_strlit("Pending");
    reveal_strlit("Cancelled");
    reveal_strlit("Failed");
    reveal_strlit("Done");
    reveal_strlit("Unknown");
    let t = state_text(s);
    if t == "Active"@ {
        assert(t[0] == 'A');
    }
    if t == "Pending"@ {
        assert(t[0] == 'P');
    }
    if t == "Cancelled"@ {
        assert(t[0] == 'C');
    }
    if t == "Failed"@ {
        assert(t[0] == 'F');
    }
    if t == "Done"@ {
        assert(t[0] == 'D');
    }
}

/// The persisted record of one job.
#[derive(Debug)]
pub struct JobInfo {
    pub name: String,
    pub url: String,
    pub path: String,
    pub downloaded: u64,
    pub total: u64,
    pub state: State,
    pub msg: String,
}

impl Clone for JobInfo {
    fn clone(&self) -> (r: Self)
        ensures
            r == *self,
    {
        JobInfo {
            name: self.name.clone(),
            url: self.url.clone(),
            path: self.path.clone(),
            downloaded: self.downloaded,
            total: self.total,
            state: self.state,
            msg: self.msg.clone(),
        }
    }
}

/// The cancellation flags broadcast from the manager to the worker that
/// owns a job.
#[derive(PartialEq, Eq, Structural, Clone, Copy, Debug)]
pub struct CancelInfo {
    pub cancel: bool,
    pub delete: bool,
}

} // verus!
