use vstd::prelude::*;

verus! {

pub open spec fn keys_unique<S>(s: Seq<(String, S)>) -> bool {
    forall|i: int, j: int| 0 <= i < j < s.len() ==> s[i].0@ != s[j].0@
}

pub open spec fn has_key<S>(s: Seq<(String, S)>, k: Seq<char>) -> bool {
    exists|i: int| 0 <= i < s.len() && s[i].0@ == k
}

pub open spec fn key_index<S>(s: Seq<(String, S)>, k: Seq<char>) -> int {
    choose|i: int| 0 <= i < s.len() && s[i].0@ == k
}

pub open spec fn entries_map<S>(s: Seq<(String, S)>) -> Map<Seq<char>, S> {
    Map::new(|k: Seq<char>| has_key(s, k), |k: Seq<char>| s[key_index(s, k)].1)
}

proof fn lemma_key_index<S>(s: Seq<(String, S)>, i: int)
    requires
        keys_unique(s),
        0 <= i < s.len(),
    ensures
        has_key(s, s[i].0@),
        key_index(s, s[i].0@) == i,
{
    let k = s[i].0@;
    assert(has_key(s, k));
    let j = key_index(s, k);
    if j < i {
        assert(s[j].0@ != s[i].0@);
    } else if i < j {
        assert(s[i].0@ != s[j].0@);
    }
}

/// The cancellation senders of the jobs that may still be running, by job name.
///
/// A vector of pairs with unique names, rather than a hash map: taking a job's
/// sender out and listing the names are both needed, and vstd's specified
/// `String`-keyed map (`StringHashMap`) offers neither, so over it neither the
/// cancel nor the sweep could be proved.
pub struct CancelRegistry<S> {
    entries: Vec<(String, S)>,
}

impl<S> View for CancelRegistry<S> {
    type V = Map<Seq<char>, S>;

    closed spec fn view(&self) -> Map<Seq<char>, S> {
        entries_map(self.entries@)
    }
}

impl<S> CancelRegistry<S> {
    pub closed spec fn wf(&self) -> bool {
        keys_unique(self.entries@)
    }

    pub fn new() -> (r: CancelRegistry<S>)
        ensures
            r.wf(),
            r@ == Map::<Seq<char>, S>::empty(),
    {
        let r = CancelRegistry { entries: Vec::new() };
        assert(r@ =~= Map::<Seq<char>, S>::empty());
        r
    }

    fn find(&self, name: &String) -> (r: Option<usize>)
        requires
            self.wf(),
        ensures
            r is None <==> !self@.contains_key(name@),
            r matches Some(i) ==> i < self.entries@.len() && self.entries@[i as int].0@ == name@
                && key_index(self.entries@, name@) == i,
    {
        let mut i: usize = 0;
        while i < self.entries.len()
            invariant
                self.wf(),
                i <= self.entries@.len(),
                forall|j: int| 0 <= j < i ==> self.entries@[j].0@ != name@,
            decreases self.entries@.len() - i,
        {
            if self.entries[i].0 == *name {
                proof {
                    lemma_key_index(self.entries@, i as int);
                }
                return Some(i);
            }
            i += 1;
        }
        None
    }

    pub fn contains(&self, name: &String) -> (r: bool)
        requires
            self.wf(),
        ensures
            r == self@.contains_key(name@),
    {
        self.find(name).is_some()
    }

    /// Takes the sender registered under the name out of the registry.
    pub fn remove(&mut self, name: &String) -> (r: Option<S>)
        requires
            old(self).wf(),
        ensures
            final(self).wf(),
            final(self)@ == old(self)@.remove(name@),
            old(self)@.contains_key(name@) ==> r == Some(old(self)@[name@]),
            !old(self)@.contains_key(name@) ==> r is None,
    {
        match self.find(name) {
            Some(i) => {
                let ghost k = name@;
                let (_, s) = self.entries.remove(i);
                proof {
                    let o = old(self).entries@;
                    let e = self.entries@;
                    assert forall|a: int, b: int| 0 <= a < b < e.len() implies e[a].0@
                        != e[b].0@ by {
                        let oa = if a < i { a } else { a + 1 };
                        let ob = if b < i { b } else { b + 1 };
                        assert(e[a] == o[oa]);
                        assert(e[b] == o[ob]);
                        assert(o[oa].0@ != o[ob].0@);
                    }
                    assert forall|x: Seq<char>| #[trigger] self@.contains_key(x) <==> old(
                        self,
                    )@.remove(k).contains_key(x) by {
                        if has_key(e, x) {
                            let j = choose|j: int| 0 <= j < e.len() && e[j].0@ == x;
                            let oj = if j < i { j } else { j + 1 };
                            assert(e[j] == o[oj]);
                            assert(has_key(o, x));
                            if x == k {
                                if oj < i {
                                    assert(o[oj].0@ != o[i as int].0@);
                                } else {
                                    assert(o[i as int].0@ != o[oj].0@);
                                }
                            }
                        }
                        if has_key(o, x) && x != k {
                            let j = choose|j: int| 0 <= j < o.len() && o[j].0@ == x;
                            let ej = if j < i { j } else { j - 1 };
                            assert(e[ej] == o[j]);
                        }
                    }
                    assert forall|x: Seq<char>| #[trigger] self@.contains_key(x) implies self@[x]
                        == old(self)@.remove(k)[x] by {
                        let j = choose|j: int| 0 <= j < e.len() && e[j].0@ == x;
                        let oj = if j < i { j } else { j + 1 };
                        assert(e[j] == o[oj]);
                        lemma_key_index(e, j);
                        lemma_key_index(o, oj);
                    }
                    assert(self@ =~= old(self)@.remove(k));
                }
                Some(s)
            },
            None => {
                assert(self@ =~= old(self)@.remove(name@));
                None
            },
        }
    }

    /// Registers a sender under the name, dropping any sender registered before.
    pub fn insert(&mut self, name: String, s: S)
        requires
            old(self).wf(),
        ensures
            final(self).wf(),
            final(self)@ == old(self)@.insert(name@, s),
    {
        let ghost k = name@;
        let _ = self.remove(&name);
        let ghost mid = self.entries@;
        assert(entries_map(mid) == old(self)@.remove(k));
        self.entries.push((name, s));
        proof {
            let e = self.entries@;
            let n = mid.len();
            assert(!has_key(mid, k)) by {
                assert(!entries_map(mid).contains_key(k));
            }
            assert forall|a: int, b: int| 0 <= a < b < e.len() implies e[a].0@ != e[b].0@ by {
                if b == n {
                    assert(mid[a].0@ == e[a].0@);
                } else {
                    assert(mid[a].0@ != mid[b].0@);
                }
            }
            let m = old(self)@.remove(k);
            assert forall|x: Seq<char>| #[trigger] self@.contains_key(x) <==> old(self)@.insert(
                k,
                s,
            ).contains_key(x) by {
                if has_key(e, x) && x != k {
                    let j = choose|j: int| 0 <= j < e.len() && e[j].0@ == x;
                    assert(mid[j].0@ == x);
                    assert(has_key(mid, x));
                    assert(entries_map(mid).contains_key(x));
                }
                if old(self)@.contains_key(x) && x != k {
                    assert(m.contains_key(x));
                    assert(entries_map(mid).contains_key(x));
                    let j = choose|j: int| 0 <= j < mid.len() && mid[j].0@ == x;
                    assert(e[j].0@ == x);
                }
                if x == k {
                    assert(e[n as int].0@ == x);
                }
            }
            assert forall|x: Seq<char>| #[trigger] self@.contains_key(x) implies self@[x]
                == old(self)@.insert(k, s)[x] by {
                let j = choose|j: int| 0 <= j < e.len() && e[j].0@ == x;
                lemma_key_index(e, j);
                if j < n {
                    lemma_key_index(mid, j);
                    assert(entries_map(mid)[x] == m[x]);
                }
            }
            assert(self@ =~= old(self)@.insert(k, s));
        }
    }

    /// The registered names, each once.
    pub fn names(&self) -> (r: Vec<String>)
        requires
            self.wf(),
        ensures
            forall|i: int, j: int| 0 <= i < j < r@.len() ==> r@[i]@ != r@[j]@,
            forall|i: int| 0 <= i < r@.len() ==> self@.contains_key(#[trigger] r@[i]@),
            forall|k: Seq<char>| #[trigger] self@.contains_key(k) ==> exists|i: int|
                0 <= i < r@.len() && r@[i]@ == k,
    {
        let mut out: Vec<String> = Vec::new();
        let mut i: usize = 0;
        while i < self.entries.len()
            invariant
                self.wf(),
                i <= self.entries@.len(),
                out@.len() == i,
                forall|j: int| 0 <= j < i ==> out@[j] == self.entries@[j].0,
            decreases self.entries@.len() - i,
        {
            out.push(self.entries[i].0.clone());
            i += 1;
        }
        proof {
            assert forall|a: int| 0 <= a < out@.len() implies self@.contains_key(
                #[trigger] out@[a]@,
            ) by {
                assert(has_key(self.entries@, self.entries@[a].0@));
            }
            assert forall|k: Seq<char>| #[trigger] self@.contains_key(k) implies exists|a: int|
                0 <= a < out@.len() && out@[a]@ == k by {
                let j = choose|j: int| 0 <= j < self.entries@.len() && self.entries@[j].0@ == k;
                assert(out@[j]@ == k);
            }
        }
        out
    }
}

} // verus!
