use rand::Rng;
use vstd::prelude::*;

verus! {

/// The path of the absolute URL written in `s`, percent-encoded, when `s`
/// parses as one.
pub uninterp spec fn url_path(s: Seq<char>) -> Option<Seq<char>>;

/// Relies on `url::Url::parse`, which fails on text that is not an absolute
/// URL, and on `Url::path`; both depend on the text alone.
#[verifier::external_body]
pub(crate) fn parse_url_path(s: &str) -> (r: Result<String, String>)
    ensures
        r is Ok <==> url_path(s@) is Some,
        r matches Ok(p) ==> url_path(s@) == Some(p@),
{
    match url::Url::parse(s) {
        Ok(u) => Ok(u.path().to_string()),
        Err(e) => Err(e.to_string()),
    }
}

pub open spec fn is_alphanumeric(c: char) -> bool {
    ('a' <= c && c <= 'z') || ('A' <= c && c <= 'Z') || ('0' <= c && c <= '9')
}

/// Relies on rand's `Alphanumeric` distribution, which draws ASCII letters
/// and digits, sampled `len` times from the thread-local generator.
#[verifier::external_body]
pub(crate) fn random_alphanumeric(len: usize) -> (r: String)
    ensures
        r@.len() == len,
        forall|i: int| 0 <= i < len ==> is_alphanumeric(#[trigger] r@[i]),
{
    rand::thread_rng().sample_iter(&rand::distributions::Alphanumeric).take(len).map(
        char::from,
    ).collect()
}

/// Length of a generated job name.
pub const GENERATED_NAME_LEN: usize = 7;

/// The text after the last `/`; the whole text when it has none.
pub open spec fn last_segment_of(p: Seq<char>) -> Seq<char>
    decreases p.len(),
{
    if p.len() == 0 {
        p
    } else if p.last() == '/' {
        Seq::empty()
    } else {
        last_segment_of(p.drop_last()).push(p.last())
    }
}

/// The name a URL path gives a job: its last segment, when the path is made
/// of segments and the last one is not empty.
pub open spec fn url_name(path: Seq<char>) -> Option<Seq<char>> {
    if path.len() > 0 && path[0] == '/' && last_segment_of(path).len() > 0 {
        Some(last_segment_of(path))
    } else {
        None
    }
}

pub open spec fn opt_view(o: Option<String>) -> Option<Seq<char>> {
    match o {
        Some(s) => Some(s@),
        None => None,
    }
}

/// The name of a new job: the caller's, else the URL's, else the generated one.
pub open spec fn resolved_name(
    given: Option<Seq<char>>,
    path: Seq<char>,
    generated: Seq<char>,
) -> Seq<char> {
    match given {
        Some(n) => n,
        None => match url_name(path) {
            Some(s) => s,
            None => generated,
        },
    }
}

/// The last segment of a URL path.
pub fn last_segment(path: &str) -> (r: String)
    ensures
        r@ == last_segment_of(path@),
{
    let n = path.unicode_len();
    let mut start: usize = 0;
    let mut i: usize = 0;
    while i < n
        invariant
            n == path@.len(),
            start <= i <= n,
            last_segment_of(path@.subrange(0, i as int)) == path@.subrange(
                start as int,
                i as int,
            ),
        decreases n - i,
    {
        let c = path.get_char(i);
        proof {
            let next = path@.subrange(0, i + 1);
            assert(next.drop_last() =~= path@.subrange(0, i as int));
            assert(next.last() == c);
            if c != '/' {
                assert(path@.subrange(start as int, i + 1) =~= path@.subrange(
                    start as int,
                    i as int,
                ).push(c));
            } else {
                assert(path@.subrange(i + 1, i + 1) =~= Seq::<char>::empty());
            }
        }
        if c == '/' {
            start = i + 1;
        }
        i += 1;
    }
    assert(path@.subrange(0, n as int) =~= path@);
    path.substring_char(start, n).to_string()
}

fn starts_with_slash(s: &str) -> (r: bool)
    ensures
        r == (s@.len() > 0 && s@[0] == '/'),
{
    s.unicode_len() > 0 && s.get_char(0) == '/'
}

/// Picks the name of a new job, given a generated name to fall back on.
pub fn resolve_name(given: Option<String>, path: &str, generated: String) -> (r: String)
    ensures
        r@ == resolved_name(opt_view(given), path@, generated@),
{
    match given {
        Some(n) => n,
        None => {
            if starts_with_slash(path) {
                let s = last_segment(path);
                if s.unicode_len() > 0 {
                    return s;
                }
            }
            generated
        },
    }
}

/// A Unix path joined with a relative name, or the name itself when absolute.
pub open spec fn joined_path(dir: Seq<char>, name: Seq<char>) -> Seq<char> {
    if name.len() > 0 && name[0] == '/' {
        name
    } else if dir.len() == 0 || dir.last() == '/' {
        dir + name
    } else {
        dir + "/"@ + name
    }
}

/// Joins a directory and a file name as Unix paths join.
pub fn join_path(dir: &str, name: &str) -> (r: String)
    ensures
        r@ == joined_path(dir@, name@),
{
    if starts_with_slash(name) {
        return name.to_string();
    }
    let n = dir.unicode_len();
    let mut r = dir.to_string();
    if n > 0 && dir.get_char(n - 1) != '/' {
        r.append("/");
    }
    r.append(name);
    r
}

/// A URL path that is empty or ends in `/` gives no name, so the job gets a
/// generated one.
pub proof fn lemma_slash_path_has_no_name(p: Seq<char>)
    requires
        p.len() == 0 || p.last() == '/',
    ensures
        url_name(p) is None,
        resolved_name(None, p, "x"@) == "x"@,
{
}

/// A URL path that ends in a non-empty segment names the job after it.
pub proof fn lemma_segment_names_job(dir: Seq<char>, seg: Seq<char>)
    requires
        dir.len() > 0 ==> dir[0] == '/',
        seg.len() > 0,
        forall|i: int| 0 <= i < seg.len() ==> seg[i] != '/',
    ensures
        url_name(dir.push('/') + seg) == Some(seg),
{
    let p = dir.push('/') + seg;
    lemma_last_segment_after_slash(dir, seg);
    assert(p[0] == '/');
}

proof fn lemma_last_segment_after_slash(dir: Seq<char>, seg: Seq<char>)
    requires
        forall|i: int| 0 <= i < seg.len() ==> seg[i] != '/',
    ensures
        last_segment_of(dir.push('/') + seg) == seg,
    decreases seg.len(),
{
    let p = dir.push('/') + seg;
    if seg.len() == 0 {
        assert(p =~= dir.push('/'));
        assert(p.last() == '/');
    } else {
        let s2 = seg.drop_last();
        lemma_last_segment_after_slash(dir, s2);
        assert(p.drop_last() =~= dir.push('/') + s2);
        assert(p.last() == seg.last());
        assert(s2.push(seg.last()) =~= seg);
    }
}

} // verus!
