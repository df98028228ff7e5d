use vstd::prelude::*;
use crate::err::{ManagerError, ManagerErrorKind};
use crate::types::{JobInfo, State, state_text, state_of_text, lemma_state_text_round_trip};

verus! {

/// No two records of the sequence share a name.
pub open spec fn names_unique(s: Seq<JobInfo>) -> bool {
    forall|i: int, j: int| 0 <= i < j < s.len() ==> s[i].name@ != s[j].name@
}

/// Some record of the sequence has this name.
pub open spec fn has_name(s: Seq<JobInfo>, k: Seq<char>) -> bool {
    exists|i: int| 0 <= i < s.len() && s[i].name@ == k
}

/// Position of the record with this name.
pub open spec fn index_of(s: Seq<JobInfo>, k: Seq<char>) -> int
    recommends
        has_name(s, k),
{
    choose|i: int| 0 <= i < s.len() && s[i].name@ == k
}

/// The records as a map from name to record.
pub open spec fn as_map(s: Seq<JobInfo>) -> Map<Seq<char>, JobInfo> {
    Map::new(|k: Seq<char>| has_name(s, k), |k: Seq<char>| s[index_of(s, k)])
}

/// The record `r` with its state replaced.
pub open spec fn with_state(r: JobInfo, st: State) -> JobInfo {
    JobInfo { state: st, ..r }
}

pub proof fn lemma_index_of(s: Seq<JobInfo>, i: int)
    requires
        names_unique(s),
        0 <= i < s.len(),
    ensures
        has_name(s, s[i].name@),
        index_of(s, s[i].name@) == i,
{
    let k = s[i].name@;
    assert(has_name(s, k));
    let j = index_of(s, k);
    if j < i {
        assert(s[j].name@ != s[i].name@);
    } else if i < j {
        assert(s[i].name@ != s[j].name@);
    }
}

/// The synchronous key-value store of job records, keyed by name.
///
/// It is owned by the state actor, the single writer and reader of job
/// state; the daemon writes every change it accepts through to disk.
#[derive(Debug)]
pub struct JobStore {
    jobs: Vec<JobInfo>,
}

impl View for JobStore {
    type V = Map<Seq<char>, JobInfo>;

    closed spec fn view(&self) -> Map<Seq<char>, JobInfo> {
        as_map(self.jobs@)
    }
}

impl JobStore {
    pub closed spec fn wf(&self) -> bool {
        names_unique(self.jobs@)
    }

    pub fn new() -> (r: JobStore)
        ensures
            r.wf(),
            r@ == Map::<Seq<char>, JobInfo>::empty(),
    {
        let r = JobStore { jobs: Vec::new() };
        assert(r@ =~= Map::<Seq<char>, JobInfo>::empty());
        r
    }

    fn find(&self, name: &String) -> (r: Option<usize>)
        requires
            self.wf(),
        ensures
            r is None <==> !self@.contains_key(name@),
            r matches Some(i) ==> i < self.jobs@.len() && self.jobs@[i as int].name@ == name@
                && index_of(self.jobs@, name@) == i,
    {
        let mut i: usize = 0;
        while i < self.jobs.len()
            invariant
                self.wf(),
                i <= self.jobs@.len(),
                forall|j: int| 0 <= j < i ==> self.jobs@[j].name@ != name@,
            decreases self.jobs@.len() - i,
        {
            if self.jobs[i].name == *name {
                proof {
                    lemma_index_of(self.jobs@, i as int);
                }
                return Some(i);
            }
            i += 1;
        }
        None
    }

    /// Inserts the record, replacing any record of the same name.
    pub fn update_state(&mut self, info: JobInfo)
        requires
            old(self).wf(),
        ensures
            final(self).wf(),
            final(self)@ == old(self)@.insert(info.name@, info),
    {
        let ghost k = info.name@;
        let ghost info_g = info;
        match self.find(&info.name) {
            Some(i) => {
                self.jobs.set(i, info);
                proof {
                    let s = self.jobs@;
                    assert forall|a: int, b: int| 0 <= a < b < s.len() implies s[a].name@
                        != s[b].name@ by {
                        assert(old(self).jobs@[a].name@ != old(self).jobs@[b].name@);
                    }
                    assert forall|x: Seq<char>| #[trigger] self@.contains_key(x) <==> old(
                        self,
                    )@.insert(k, info_g).contains_key(x) by {
                        if has_name(s, x) {
                            let j = choose|j: int| 0 <= j < s.len() && s[j].name@ == x;
                            assert(has_name(old(self).jobs@, x));
                        }
                        if has_name(old(self).jobs@, x) {
                            let j = choose|j: int|
                                0 <= j < old(self).jobs@.len() && old(self).jobs@[j].name@ == x;
                            assert(s[j].name@ == x);
                        }
                    }
                    assert forall|x: Seq<char>| #[trigger] self@.contains_key(x) implies self@[x]
                        == old(self)@.insert(k, info_g)[x] by {
                        let j = choose|j: int| 0 <= j < s.len() && s[j].name@ == x;
                        lemma_index_of(s, j);
                        lemma_index_of(old(self).jobs@, j);
                    }
                    assert(self@ =~= old(self)@.insert(k, info_g));
                }
            },
            None => {
                self.jobs.push(info);
                proof {
                    let s = self.jobs@;
                    let n = old(self).jobs@.len();
                    assert forall|a: int, b: int| 0 <= a < b < s.len() implies s[a].name@
                        != s[b].name@ by {
                        if b == n {
                            assert(!has_name(old(self).jobs@, k));
                            assert(old(self).jobs@[a].name@ == s[a].name@);
                        } else {
                            assert(old(self).jobs@[a].name@ != old(self).jobs@[b].name@);
                        }
                    }
                    assert forall|x: Seq<char>| #[trigger] self@.contains_key(x) <==> old(
                        self,
                    )@.insert(k, info_g).contains_key(x) by {
                        if has_name(s, x) && x != k {
                            let j = choose|j: int| 0 <= j < s.len() && s[j].name@ == x;
                            assert(old(self).jobs@[j].name@ == x);
                        }
                        if has_name(old(self).jobs@, x) {
                            let j = choose|j: int|
                                0 <= j < old(self).jobs@.len() && old(self).jobs@[j].name@ == x;
                            assert(s[j].name@ == x);
                        }
                        if x == k {
                            assert(s[n as int].name@ == x);
                        }
                    }
                    assert forall|x: Seq<char>| #[trigger] self@.contains_key(x) implies self@[x]
                        == old(self)@.insert(k, info_g)[x] by {
                        let j = choose|j: int| 0 <= j < s.len() && s[j].name@ == x;
                        lemma_index_of(s, j);
                        if j < n {
                            lemma_index_of(old(self).jobs@, j);
                        }
                    }
                    assert(self@ =~= old(self)@.insert(k, info_g));
                }
            },
        }
    }

    /// Sets the state of the named record; a missing record is left missing.
    pub fn update_job_state(&mut self, name: &String, state: State)
        requires
            old(self).wf(),
        ensures
            final(self).wf(),
            old(self)@.contains_key(name@) ==> final(self)@ == old(self)@.insert(
                name@,
                with_state(old(self)@[name@], state),
            ),
            !old(self)@.contains_key(name@) ==> final(self)@ == old(self)@,
    {
        match self.find(name) {
            Some(i) => {
                let mut r = self.jobs[i].clone();
                r.state = state;
                proof {
                    lemma_index_of(self.jobs@, i as int);
                }
                self.update_state(r);
            },
            None => {},
        }
    }

    /// Removes the named record; removing a missing record is no error.
    pub fn delete_job(&mut self, name: &String)
        requires
            old(self).wf(),
        ensures
            final(self).wf(),
            final(self)@ == old(self)@.remove(name@),
    {
        match self.find(name) {
            Some(i) => {
                let ghost k = name@;
                self.jobs.remove(i);
                proof {
                    let o = old(self).jobs@;
                    let s = self.jobs@;
                    assert forall|a: int, b: int| 0 <= a < b < s.len() implies s[a].name@
                        != s[b].name@ by {
                        let oa = if a < i { a } else { a + 1 };
                        let ob = if b < i { b } else { b + 1 };
                        assert(s[a] == o[oa]);
                        assert(s[b] == o[ob]);
                        assert(o[oa].name@ != o[ob].name@);
                    }
                    assert forall|x: Seq<char>| #[trigger] self@.contains_key(x) <==> old(
                        self,
                    )@.remove(k).contains_key(x) by {
                        if has_name(s, x) {
                            let j = choose|j: int| 0 <= j < s.len() && s[j].name@ == x;
                            let oj = if j < i { j } else { j + 1 };
                            assert(s[j] == o[oj]);
                            assert(has_name(o, x));
                            if x == k {
                                assert(o[i as int].name@ == k);
                                if oj < i {
                                    assert(o[oj].name@ != o[i as int].name@);
                                } else {
                                    assert(o[i as int].name@ != o[oj].name@);
                                }
                            }
                        }
                        if has_name(o, x) && x != k {
                            let j = choose|j: int| 0 <= j < o.len() && o[j].name@ == x;
                            assert(j != i);
                            let sj = if j < i { j } else { j - 1 };
                            assert(s[sj] == o[j]);
                        }
                    }
                    assert forall|x: Seq<char>| #[trigger] self@.contains_key(x) implies self@[x]
                        == old(self)@.remove(k)[x] by {
                        let j = choose|j: int| 0 <= j < s.len() && s[j].name@ == x;
                        let oj = if j < i { j } else { j + 1 };
                        assert(s[j] == o[oj]);
                        lemma_index_of(s, j);
                        lemma_index_of(o, oj);
                    }
                    assert(self@ =~= old(self)@.remove(k));
                }
            },
            None => {
                assert(self@ =~= old(self)@.remove(name@));
            },
        }
    }

    /// The named record, or `DownloadJobNotFound`.
    pub fn get_job(&self, name: &String) -> (r: Result<JobInfo, ManagerError>)
        requires
            self.wf(),
        ensures
            self@.contains_key(name@) ==> r == Ok::<JobInfo, ManagerError>(self@[name@]),
            !self@.contains_key(name@) ==> (r matches Err(e) && e.kind
                == ManagerErrorKind::DownloadJobNotFound && e.msg@ == name@ + " not found"@),
    {
        match self.find(name) {
            Some(i) => Ok(self.jobs[i].clone()),
            None => {
                let mut msg = name.clone();
                msg.append(" not found");
                Err(ManagerError::new(ManagerErrorKind::DownloadJobNotFound, msg))
            },
        }
    }

    /// All records, each name once.
    pub fn list_jobs(&self) -> (r: Vec<JobInfo>)
        requires
            self.wf(),
        ensures
            names_unique(r@),
            as_map(r@) == self@,
    {
        let mut out: Vec<JobInfo> = Vec::new();
        let mut i: usize = 0;
        while i < self.jobs.len()
            invariant
                i <= self.jobs@.len(),
                out@ == self.jobs@.subrange(0, i as int),
            decreases self.jobs@.len() - i,
        {
            out.push(self.jobs[i].clone());
            i += 1;
        }
        assert(out@ =~= self.jobs@);
        out
    }
}

/// One stored row: the record's columns, with the state in textual form.
#[derive(Debug)]
pub struct StoredRow {
    pub name: String,
    pub url: String,
    pub path: String,
    pub downloaded: u64,
    pub total: u64,
    pub state: String,
    pub msg: String,
}

/// The row holds the record `j`.
pub open spec fn row_encodes(r: StoredRow, j: JobInfo) -> bool {
    r.name == j.name && r.url == j.url && r.path == j.path && r.downloaded == j.downloaded
        && r.total == j.total && r.state@ == state_text(j.state) && r.msg == j.msg
}

/// The record that a row decodes to.
pub open spec fn row_decoded(r: StoredRow) -> JobInfo {
    JobInfo {
        name: r.name,
        url: r.url,
        path: r.path,
        downloaded: r.downloaded,
        total: r.total,
        state: state_of_text(r.state@),
        msg: r.msg,
    }
}

impl JobInfo {
    /// The row under which the record is stored.
    pub fn to_row(&self) -> (r: StoredRow)
        ensures
            row_encodes(r, *self),
    {
        StoredRow {
            name: self.name.clone(),
            url: self.url.clone(),
            path: self.path.clone(),
            downloaded: self.downloaded,
            total: self.total,
            state: self.state.text(),
            msg: self.msg.clone(),
        }
    }

    /// The record held by a stored row; an unknown state text reads as `Unknown`.
    pub fn from_row(row: &StoredRow) -> (r: JobInfo)
        ensures
            r == row_decoded(*row),
    {
        JobInfo {
            name: row.name.clone(),
            url: row.url.clone(),
            path: row.path.clone(),
            downloaded: row.downloaded,
            total: row.total,
            state: State::from_text(&row.state),
            msg: row.msg.clone(),
        }
    }
}

/// Storing a record as a row and reading the row back gives a field-equal record.
pub proof fn lemma_row_round_trip(j: JobInfo, r: StoredRow)
    requires
        row_encodes(r, j),
    ensures
        row_decoded(r) == j,
{
    lemma_state_text_round_trip(j.state);
}

/// A record written to the store is what a later read of its name returns.
pub proof fn lemma_update_then_get(m: Map<Seq<char>, JobInfo>, j: JobInfo)
    ensures
        m.insert(j.name@, j).contains_key(j.name@),
        m.insert(j.name@, j)[j.name@] == j,
{
}

} // verus!
