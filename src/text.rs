use vstd::prelude::*;

verus! {

/// The path component of a URL, as the `url` crate parses it; `None` where the
/// text is not a valid absolute URL.
pub uninterp spec fn parsed_url_path(s: Seq<char>) -> Option<Seq<char>>;

/// Relies on `url::Url::parse` and `url::Url::path`: the parse of a text
/// depends on that text alone, so its path is named by `parsed_url_path`.
#[verifier::external_body]
fn url_path(s: &str) -> (r: Option<String>)
    ensures
        match r {
            Some(p) => parsed_url_path(s@) == Some(p@),
            None => parsed_url_path(s@) is None,
        },
{
    url::Url::parse(s).ok().map(|u| u.path().to_string())
}

/// Index just past the last `/` of `p`, or 0 where `p` has none.
pub open spec fn segment_start(p: Seq<char>) -> nat
    decreases p.len(),
{
    if p.len() == 0 {
        0
    } else if p.last() == '/' {
        p.len()
    } else {
        segment_start(p.drop_last())
    }
}

/// The text after the last `/` of `p` (all of `p` where it has none).
pub open spec fn last_segment(p: Seq<char>) -> Seq<char> {
    p.subrange(segment_start(p) as int, p.len() as int)
}

/// The repository name that a source location designates: the last segment of
/// the path of the parsed URL.
pub open spec fn repo_of(location: Seq<char>) -> Option<Seq<char>> {
    match parsed_url_path(location) {
        Some(p) => Some(last_segment(p)),
        None => None,
    }
}

pub open spec fn opt_view(o: Option<String>) -> Option<Seq<char>> {
    match o {
        Some(s) => Some(s@),
        None => None,
    }
}

proof fn lemma_segment_start(p: Seq<char>, i: int)
    requires
        0 <= i <= p.len(),
        forall|j: int| i <= j < p.len() ==> p[j] != '/',
        i == 0 || p[i - 1] == '/',
    ensures
        segment_start(p) == i,
    decreases p.len(),
{
    if p.len() > i {
        assert(p.drop_last().len() == p.len() - 1);
        assert forall|j: int| i <= j < p.drop_last().len() implies p.drop_last()[j] != '/' by {
            assert(p.drop_last()[j] == p[j]);
        }
        if i > 0 {
            assert(p.drop_last()[i - 1] == p[i - 1]);
        }
        lemma_segment_start(p.drop_last(), i);
    }
}

/// The text after the last `/` of `p`.
pub fn last_path_segment(p: &str) -> (r: String)
    ensures
        r@ == last_segment(p@),
{
    let n = p.unicode_len();
    let mut i: usize = n;
    while i > 0 && p.get_char(i - 1) != '/'
        invariant
            n == p@.len(),
            i <= n,
            forall|j: int| i <= j < n ==> p@[j] != '/',
        decreases i,
    {
        i = i - 1;
    }
    proof {
        lemma_segment_start(p@, i as int);
    }
    String::from_str(p.substring_char(i, n))
}

/// The repository name that a git source location designates, if the location
/// parses as a URL.
pub fn repo_of_location(location: &str) -> (r: Option<String>)
    ensures
        opt_view(r) == repo_of(location@),
{
    match url_path(location) {
        Some(p) => Some(last_path_segment(p.as_str())),
        None => None,
    }
}

/// Copies an optional text.
pub fn clone_opt(o: &Option<String>) -> (r: Option<String>)
    ensures
        opt_view(r) == opt_view(*o),
{
    match o {
        Some(s) => Some(s.clone()),
        None => None,
    }
}

/// Whether two optional texts are equal.
pub fn opt_eq(a: &Option<String>, b: &Option<String>) -> (r: bool)
    ensures
        r == (opt_view(*a) == opt_view(*b)),
{
    match a {
        Some(x) => match b {
            Some(y) => {
                let e = x.eq(y);
                e
            },
            None => false,
        },
        None => b.is_none(),
    }
}

} // verus!
