use vstd::prelude::*;
use crate::manifest::{DependencyEdge, EdgeView, edge_views};
use crate::report::{Discrepancy, DiscrepancyKind, DiscrepancyView, views};
use crate::text::{opt_view, repo_of, repo_of_location};

verus! {

/// The current revision of one tracked repository.
pub struct TrackedRevision {
    pub repo: String,
    pub revision: String,
}

/// The current revisions of the tracked repositories, fixed for one run.
pub struct RevisionTable {
    entries: Vec<TrackedRevision>,
}

/// The table that the entries make, a later entry for a repository replacing an
/// earlier one.
pub open spec fn table_of(s: Seq<(Seq<char>, Seq<char>)>) -> Map<Seq<char>, Seq<char>>
    decreases s.len(),
{
    if s.len() == 0 {
        Map::empty()
    } else {
        table_of(s.drop_last()).insert(s.last().0, s.last().1)
    }
}

proof fn lemma_table_suffix(s: Seq<(Seq<char>, Seq<char>)>, i: int, k: Seq<char>)
    requires
        0 <= i <= s.len(),
        forall|j: int| i <= j < s.len() ==> s[j].0 != k,
    ensures
        table_of(s).contains_key(k) == table_of(s.subrange(0, i)).contains_key(k),
        table_of(s).contains_key(k) ==> table_of(s)[k] == table_of(s.subrange(0, i))[k],
    decreases s.len(),
{
    if s.len() > i {
        assert(s.drop_last().subrange(0, i) == s.subrange(0, i));
        lemma_table_suffix(s.drop_last(), i, k);
    } else {
        assert(s.subrange(0, i) == s);
    }
}

impl RevisionTable {
    pub closed spec fn entry_seq(&self) -> Seq<(Seq<char>, Seq<char>)> {
        self.entries@.map_values(|e: TrackedRevision| (e.repo@, e.revision@))
    }

    /// Repository name to current revision.
    pub closed spec fn view(&self) -> Map<Seq<char>, Seq<char>> {
        table_of(self.entry_seq())
    }

    /// An empty table.
    pub fn new() -> (t: RevisionTable)
        ensures
            t.view() == Map::<Seq<char>, Seq<char>>::empty(),
    {
        let t = RevisionTable { entries: Vec::new() };
        assert(t.entry_seq() == Seq::<(Seq<char>, Seq<char>)>::empty());
        t
    }

    /// Records the current revision of a repository.
    pub fn insert(&mut self, repo: String, revision: String)
        ensures
            final(self).view() == old(self).view().insert(repo@, revision@),
    {
        let ghost before = self.entries@;
        let e = TrackedRevision { repo, revision };
        self.entries.push(e);
        assert(self.entries@ == before.push(e));
        assert(self.entry_seq().drop_last() == old(self).entry_seq());
    }

    /// The current revision of `repo`, if it is tracked.
    pub fn get(&self, repo: &str) -> (r: Option<&String>)
        ensures
            match r {
                Some(v) => self.view().contains_key(repo@) && self.view()[repo@] == v@,
                None => !self.view().contains_key(repo@),
            },
    {
        let key = String::from_str(repo);
        let ghost s = self.entry_seq();
        let mut i: usize = self.entries.len();
        while i > 0
            invariant
                i <= self.entries@.len(),
                s == self.entry_seq(),
                key@ == repo@,
                forall|j: int| i <= j < s.len() ==> s[j].0 != repo@,
            decreases i,
        {
            assert(s[i - 1] == (self.entries@[i - 1].repo@, self.entries@[i - 1].revision@));
            let same = self.entries[i - 1].repo.eq(&key);
            if same {
                proof {
                    assert(s.subrange(0, i as int) == s.subrange(0, i - 1).push(s[i - 1]));
                    lemma_table_suffix(s, i as int, repo@);
                    assert(s.subrange(0, i as int).drop_last() == s.subrange(0, i - 1));
                }
                return Some(&self.entries[i - 1].revision);
            }
            assert(s[i - 1].0 != repo@);
            i = i - 1;
        }
        proof {
            lemma_table_suffix(s, 0, repo@);
        }
        None
    }
}

/// The finding for one edge, given the repository its git source designates:
/// an edge that points at `package` and pins a revision other than `wanted`
/// must be moved to `wanted`. Edges without a git source, without a pinned
/// revision, or pointing elsewhere yield nothing.
pub open spec fn drift_given(
    e: EdgeView,
    repo: Option<Seq<char>>,
    package: Seq<char>,
    wanted: Seq<char>,
) -> Option<DiscrepancyView> {
    if e.git is Some && repo == Some(package) && e.rev is Some && e.rev->0 != wanted {
        Some(
            DiscrepancyView {
                kind: DiscrepancyKind::RevisionDrift,
                location: e.manifest_path,
                name: e.name,
                old: e.rev->0,
                new: wanted,
                note: Seq::empty(),
            },
        )
    } else {
        None
    }
}

/// The repository that an edge's git source designates.
pub open spec fn edge_repo(e: EdgeView) -> Option<Seq<char>> {
    match e.git {
        Some(g) => repo_of(g),
        None => None,
    }
}

pub open spec fn drift_of(e: EdgeView, package: Seq<char>, wanted: Seq<char>) -> Option<
    DiscrepancyView,
> {
    drift_given(e, edge_repo(e), package, wanted)
}

/// The findings for a sequence of edges, in edge order.
pub open spec fn drift_records(edges: Seq<EdgeView>, package: Seq<char>, wanted: Seq<char>) -> Seq<
    DiscrepancyView,
>
    decreases edges.len(),
{
    if edges.len() == 0 {
        Seq::empty()
    } else {
        let prev = drift_records(edges.drop_last(), package, wanted);
        match drift_of(edges.last(), package, wanted) {
            Some(d) => prev.push(d),
            None => prev,
        }
    }
}

/// The finding for one edge, given the repository `repo` its git source
/// designates.
pub fn drift_for_edge(e: &DependencyEdge, repo: &Option<String>, package: &str, wanted: &str) -> (r:
    Option<Discrepancy>)
    ensures
        match r {
            Some(d) => drift_given(e@, opt_view(*repo), package@, wanted@) == Some(d@),
            None => drift_given(e@, opt_view(*repo), package@, wanted@) is None,
        },
{
    let pkg = String::from_str(package);
    let want = String::from_str(wanted);
    if e.git.is_none() {
        return None;
    }
    match repo {
        Some(r) => {
            if !r.eq(&pkg) {
                return None;
            }
        },
        None => {
            return None;
        },
    }
    match &e.rev {
        Some(old) => {
            if old.eq(&want) {
                None
            } else {
                Some(
                    Discrepancy {
                        kind: DiscrepancyKind::RevisionDrift,
                        location: e.manifest_path.clone(),
                        name: e.name.clone(),
                        old: old.clone(),
                        new: want,
                        note: String::new(),
                    },
                )
            }
        },
        None => None,
    }
}

/// Checks that every edge pointing at repository `package` pins revision
/// `wanted`. Returns one finding per edge that pins another revision, in edge
/// order, and whether any update is required.
pub fn check_revisions(edges: &Vec<DependencyEdge>, package: &str, wanted: &str) -> (r: (
    Vec<Discrepancy>,
    bool,
))
    ensures
        views(r.0@) == drift_records(edge_views(edges@), package@, wanted@),
        r.1 == (r.0@.len() > 0),
{
    let ghost es = edge_views(edges@);
    let mut out: Vec<Discrepancy> = Vec::new();
    let mut i: usize = 0;
    while i < edges.len()
        invariant
            i <= edges@.len(),
            es == edge_views(edges@),
            views(out@) == drift_records(es.subrange(0, i as int), package@, wanted@),
        decreases edges@.len() - i,
    {
        let e = &edges[i];
        let repo = match &e.git {
            Some(g) => repo_of_location(g.as_str()),
            None => None,
        };
        let found = drift_for_edge(e, &repo, package, wanted);
        proof {
            assert(es.subrange(0, i + 1).drop_last() == es.subrange(0, i as int));
            assert(es.subrange(0, i + 1).last() == e@);
        }
        match found {
            Some(d) => {
                let ghost before = out@;
                out.push(d);
                assert(out@ == before.push(d));
                assert(views(out@) == views(before).push(d@));
            },
            None => {},
        }
        i = i + 1;
    }
    assert(es.subrange(0, edges@.len() as int) == es);
    let any = out.len() > 0;
    (out, any)
}

/// In a fully updated tree every edge that points at `package` pins the wanted
/// revision or pins none; such a tree produces no finding.
pub proof fn lemma_up_to_date_edges_silent(edges: Seq<EdgeView>, package: Seq<char>, wanted: Seq<char>)
    requires
        forall|i: int|
            0 <= i < edges.len() && edge_repo(#[trigger] edges[i]) == Some(package) ==> edges[i].rev
                is None || edges[i].rev == Some(wanted),
    ensures
        drift_records(edges, package, wanted) == Seq::<DiscrepancyView>::empty(),
    decreases edges.len(),
{
    if edges.len() > 0 {
        lemma_up_to_date_edges_silent(edges.drop_last(), package, wanted);
    }
}

/// An edge pointing at `package` with pinned revision `old` other than `wanted`
/// adds exactly one finding, which names both revisions.
pub proof fn lemma_drifted_edge_reported(
    edges: Seq<EdgeView>,
    e: EdgeView,
    package: Seq<char>,
    old: Seq<char>,
    wanted: Seq<char>,
)
    requires
        edge_repo(e) == Some(package),
        e.rev == Some(old),
        old != wanted,
    ensures
        drift_records(edges.push(e), package, wanted) == drift_records(edges, package, wanted).push(
            DiscrepancyView {
                kind: DiscrepancyKind::RevisionDrift,
                location: e.manifest_path,
                name: e.name,
                old: old,
                new: wanted,
                note: Seq::empty(),
            },
        ),
{
    assert(edges.push(e).drop_last() == edges);
}

/// The check depends on its inputs alone: the same edges and the same target
/// give the same findings, in the same order, on every run.
pub proof fn lemma_check_deterministic(
    a: Seq<EdgeView>,
    b: Seq<EdgeView>,
    package: Seq<char>,
    wanted: Seq<char>,
)
    requires
        a == b,
    ensures
        drift_records(a, package, wanted) == drift_records(b, package, wanted),
{
}

} // verus!
