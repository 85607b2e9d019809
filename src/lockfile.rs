use vstd::prelude::*;
use crate::report::{Discrepancy, DiscrepancyKind, DiscrepancyView, views};
use crate::revisions::RevisionTable;
use crate::text::{clone_opt, opt_eq, opt_view, repo_of, repo_of_location};

verus! {

/// How a lockfile entry was obtained.
#[derive(Clone, Copy, Debug, PartialEq, Eq, Structural)]
pub enum SourceKind {
    Registry,
    SparseRegistry,
    LocalRegistry,
    Directory,
    Path,
    GitDefaultBranch,
    /// A movable reference: the resolved revision follows the branch.
    GitBranch,
    GitTag,
    GitRev,
}

/// Where a lockfile entry comes from. `reference` is the branch, tag or
/// revision named by a git source (empty otherwise), `location` the source URL
/// and `precise` the revision it resolved to.
pub struct SourceDescriptor {
    pub kind: SourceKind,
    pub reference: String,
    pub location: String,
    pub precise: Option<String>,
}

/// One entry of a lockfile.
pub struct ResolvedPackage {
    pub name: String,
    pub source: Option<SourceDescriptor>,
}

pub struct SourceView {
    pub kind: SourceKind,
    pub reference: Seq<char>,
    pub location: Seq<char>,
    pub precise: Option<Seq<char>>,
}

pub struct PackageView {
    pub name: Seq<char>,
    pub source: Option<SourceView>,
}

impl View for SourceDescriptor {
    type V = SourceView;

    open spec fn view(&self) -> SourceView {
        SourceView {
            kind: self.kind,
            reference: self.reference@,
            location: self.location@,
            precise: opt_view(self.precise),
        }
    }
}

impl View for ResolvedPackage {
    type V = PackageView;

    open spec fn view(&self) -> PackageView {
        PackageView {
            name: self.name@,
            source: match self.source {
                Some(s) => Some(s@),
                None => None,
            },
        }
    }
}

pub open spec fn package_views(s: Seq<ResolvedPackage>) -> Seq<PackageView> {
    s.map_values(|p: ResolvedPackage| p@)
}

pub open spec fn source_views(s: Seq<SourceDescriptor>) -> Seq<SourceView> {
    s.map_values(|d: SourceDescriptor| d@)
}

/// Two sources are the same logical source when kind, named reference and
/// location agree; the resolved revision does not count.
pub open spec fn same_identity(a: SourceView, b: SourceView) -> bool {
    a.kind == b.kind && a.reference == b.reference && a.location == b.location
}

/// Entries `i` and `j` claim the same source at different revisions.
pub open spec fn conflicting(p: Seq<PackageView>, i: int, j: int) -> bool {
    p[i].source is Some && p[j].source is Some && same_identity(
        p[i].source->0,
        p[j].source->0,
    ) && p[i].source->0.precise != p[j].source->0.precise
}

/// Entry `j` conflicts with an earlier entry.
pub open spec fn conflict_at(p: Seq<PackageView>, j: int) -> bool {
    exists|i: int| 0 <= i < j && #[trigger] conflicting(p, i, j)
}

pub open spec fn has_conflict(p: Seq<PackageView>) -> bool {
    exists|j: int| 0 <= j < p.len() && #[trigger] conflict_at(p, j)
}

/// Entry `j` has a source that no earlier entry shares.
pub open spec fn first_occurrence(p: Seq<PackageView>, j: int) -> bool {
    p[j].source is Some && forall|i: int|
        0 <= i < j ==> !(p[i].source is Some && same_identity(p[i].source->0, p[j].source->0))
}

/// The distinct sources among the first `n` entries, in order of first
/// appearance.
pub open spec fn distinct_sources(p: Seq<PackageView>, n: int) -> Seq<SourceView>
    decreases n,
{
    if n <= 0 {
        Seq::empty()
    } else if first_occurrence(p, n - 1) {
        distinct_sources(p, n - 1).push(p[n - 1].source->0)
    } else {
        distinct_sources(p, n - 1)
    }
}

/// The stale-pin finding for one entry, given the repository its source
/// designates: a branch source of a tracked repository that resolved to a
/// revision other than the repository's current one, for a package that some
/// manifest names directly.
pub open spec fn stale_given(
    dir: Seq<char>,
    p: PackageView,
    repo: Option<Seq<char>>,
    names: Seq<Seq<char>>,
    table: Map<Seq<char>, Seq<char>>,
) -> Option<DiscrepancyView> {
    if p.source is Some && p.source->0.kind == SourceKind::GitBranch && p.source->0.precise is Some
        && repo is Some && table.contains_key(repo->0) && table[repo->0]
        != p.source->0.precise->0 && names.contains(p.name) {
        Some(
            DiscrepancyView {
                kind: DiscrepancyKind::LockfileStalePin,
                location: dir,
                name: p.name,
                old: p.source->0.precise->0,
                new: table[repo->0],
                note: repo->0,
            },
        )
    } else {
        None
    }
}

pub open spec fn package_repo(p: PackageView) -> Option<Seq<char>> {
    match p.source {
        Some(s) => repo_of(s.location),
        None => None,
    }
}

/// The stale-pin findings for the first `n` entries, in entry order.
pub open spec fn stale_records(
    dir: Seq<char>,
    p: Seq<PackageView>,
    n: int,
    names: Seq<Seq<char>>,
    table: Map<Seq<char>, Seq<char>>,
) -> Seq<DiscrepancyView>
    decreases n,
{
    if n <= 0 {
        Seq::empty()
    } else {
        let prev = stale_records(dir, p, n - 1, names, table);
        match stale_given(dir, p[n - 1], package_repo(p[n - 1]), names, table) {
            Some(d) => prev.push(d),
            None => prev,
        }
    }
}

/// The part of a source that identifies it: kind, named reference and
/// location. Two sources that differ only in resolved revision share it.
pub struct SourceIdentity {
    pub kind: SourceKind,
    pub reference: String,
    pub location: String,
}

impl PartialEq for SourceIdentity {
    fn eq(&self, o: &SourceIdentity) -> (r: bool)
        ensures
            r == (self.kind == o.kind && self.reference@ == o.reference@ && self.location@
                == o.location@),
    {
        self.kind == o.kind && self.reference.eq(&o.reference) && self.location.eq(&o.location)
    }
}

impl vstd::std_specs::cmp::PartialEqSpecImpl for SourceIdentity {
    open spec fn obeys_eq_spec() -> bool {
        true
    }

    open spec fn eq_spec(&self, o: &SourceIdentity) -> bool {
        self.kind == o.kind && self.reference@ == o.reference@ && self.location@ == o.location@
    }
}

impl SourceDescriptor {
    /// The identity of this source.
    pub fn identity(&self) -> (r: SourceIdentity)
        ensures
            r.kind == self.kind,
            r.reference@ == self.reference@,
            r.location@ == self.location@,
    {
        SourceIdentity {
            kind: self.kind,
            reference: self.reference.clone(),
            location: self.location.clone(),
        }
    }
}

/// Whether two sources are the same logical source.
pub fn same_source_identity(a: &SourceDescriptor, b: &SourceDescriptor) -> (r: bool)
    ensures
        r == same_identity(a@, b@),
{
    a.identity() == b.identity()
}

/// Copies a source descriptor.
pub fn clone_source(s: &SourceDescriptor) -> (r: SourceDescriptor)
    ensures
        r@ == s@,
{
    SourceDescriptor {
        kind: s.kind,
        reference: s.reference.clone(),
        location: s.location.clone(),
        precise: clone_opt(&s.precise),
    }
}

/// Whether `names` holds `name`.
pub fn contains_name(names: &Vec<String>, name: &String) -> (r: bool)
    ensures
        r == names@.map_values(|n: String| n@).contains(name@),
{
    let ghost ns = names@.map_values(|n: String| n@);
    let mut i: usize = 0;
    while i < names.len()
        invariant
            i <= names@.len(),
            ns == names@.map_values(|n: String| n@),
            forall|k: int| 0 <= k < i ==> ns[k] != name@,
        decreases names@.len() - i,
    {
        if names[i].eq(name) {
            assert(ns[i as int] == name@);
            return true;
        }
        i = i + 1;
    }
    false
}

/// The stale-pin finding for one entry of the lockfile in `dir`, given the
/// repository `repo` that its source designates.
pub fn stale_for_package(
    dir: &str,
    p: &ResolvedPackage,
    repo: &Option<String>,
    names: &Vec<String>,
    table: &RevisionTable,
) -> (r: Option<Discrepancy>)
    ensures
        match r {
            Some(d) => stale_given(
                dir@,
                p@,
                opt_view(*repo),
                names@.map_values(|n: String| n@),
                table.view(),
            ) == Some(d@),
            None => stale_given(
                dir@,
                p@,
                opt_view(*repo),
                names@.map_values(|n: String| n@),
                table.view(),
            ) is None,
        },
{
    let s = match &p.source {
        Some(s) => s,
        None => {
            return None;
        },
    };
    if s.kind != SourceKind::GitBranch {
        return None;
    }
    let precise = match &s.precise {
        Some(v) => v,
        None => {
            return None;
        },
    };
    let r = match repo {
        Some(r) => r,
        None => {
            return None;
        },
    };
    let latest = match table.get(r.as_str()) {
        Some(v) => v,
        None => {
            return None;
        },
    };
    if latest.eq(precise) {
        return None;
    }
    if !contains_name(names, &p.name) {
        return None;
    }
    Some(
        Discrepancy {
            kind: DiscrepancyKind::LockfileStalePin,
            location: String::from_str(dir),
            name: p.name.clone(),
            old: precise.clone(),
            new: latest.clone(),
            note: r.clone(),
        },
    )
}

/// Two lockfile entries, `first` before `second`, that claim the same source
/// at different revisions.
pub struct LockConflict {
    pub first: usize,
    pub second: usize,
}

/// What a consistent lockfile yields: its stale pins and its distinct sources.
pub struct LockfileReport {
    pub stale: Vec<Discrepancy>,
    pub sources: Vec<SourceDescriptor>,
}

/// Checks the lockfile entries `packages` of the project in `dir` against the
/// tracked revisions. `names` are the dependency names that the project's
/// manifests declare directly.
///
/// Fails when two entries claim the same source at different revisions,
/// naming the first such later entry and an earlier one it disagrees with.
/// Otherwise returns the stale pins and the distinct sources, both in entry
/// order.
pub fn check_lockfile(
    dir: &str,
    packages: &Vec<ResolvedPackage>,
    names: &Vec<String>,
    table: &RevisionTable,
) -> (r: Result<LockfileReport, LockConflict>)
    ensures
        r is Err <==> has_conflict(package_views(packages@)),
        match r {
            Ok(rep) => views(rep.stale@) == stale_records(
                dir@,
                package_views(packages@),
                packages@.len() as int,
                names@.map_values(|n: String| n@),
                table.view(),
            ) && source_views(rep.sources@) == distinct_sources(
                package_views(packages@),
                packages@.len() as int,
            ),
            Err(c) => c.first < c.second < packages@.len() && conflicting(
                package_views(packages@),
                c.first as int,
                c.second as int,
            ) && forall|k: int|
                0 <= k < c.second ==> !conflict_at(package_views(packages@), k),
        },
{
    let ghost p = package_views(packages@);
    let ghost ns = names@.map_values(|n: String| n@);
    let mut stale: Vec<Discrepancy> = Vec::new();
    let mut sources: Vec<SourceDescriptor> = Vec::new();
    let mut j: usize = 0;
    while j < packages.len()
        invariant
            j <= packages@.len(),
            p == package_views(packages@),
            ns == names@.map_values(|n: String| n@),
            views(stale@) == stale_records(dir@, p, j as int, ns, table.view()),
            source_views(sources@) == distinct_sources(p, j as int),
            forall|k: int| 0 <= k < j ==> !conflict_at(p, k),
        decreases packages@.len() - j,
    {
        let pkg = &packages[j];
        assert(p[j as int] == pkg@);
        let repo = match &pkg.source {
            Some(s) => repo_of_location(s.location.as_str()),
            None => None,
        };
        match stale_for_package(dir, pkg, &repo, names, table) {
            Some(d) => {
                let ghost before = stale@;
                stale.push(d);
                assert(stale@ == before.push(d));
                assert(views(stale@) == views(before).push(d@));
            },
            None => {},
        }
        match &pkg.source {
            Some(s) => {
                let mut seen = false;
                let mut i: usize = 0;
                while i < j
                    invariant
                        i <= j < packages@.len(),
                        p == package_views(packages@),
                        p[j as int].source == Some(s@),
                        seen == exists|k: int|
                            0 <= k < i && p[k].source is Some && same_identity(
                                p[k].source->0,
                                s@,
                            ),
                        forall|k: int| 0 <= k < i ==> !conflicting(p, k, j as int),
                        forall|k: int| 0 <= k < j ==> !conflict_at(p, k),
                    decreases j - i,
                {
                    let other = &packages[i];
                    assert(p[i as int] == other@);
                    match &other.source {
                        Some(o) => {
                            if same_source_identity(o, s) {
                                seen = true;
                                if !opt_eq(&o.precise, &s.precise) {
                                    assert(conflicting(p, i as int, j as int));
                                    assert(conflict_at(p, j as int));
                                    assert(has_conflict(p));
                                    return Err(LockConflict { first: i, second: j });
                                }
                            }
                        },
                        None => {},
                    }
                    i = i + 1;
                }
                assert(!conflict_at(p, j as int));
                if !seen {
                    assert(first_occurrence(p, j as int));
                    let ghost before = sources@;
                    let c = clone_source(s);
                    sources.push(c);
                    assert(sources@ == before.push(c));
                    assert(source_views(sources@) == source_views(before).push(c@));
                } else {
                    assert(!first_occurrence(p, j as int));
                }
            },
            None => {
                assert(!conflict_at(p, j as int));
                assert(!first_occurrence(p, j as int));
            },
        }
        j = j + 1;
    }
    assert(!has_conflict(p));
    Ok(LockfileReport { stale, sources })
}

/// Two entries that share a source identity conflict exactly when their
/// resolved revisions differ.
pub proof fn lemma_pair_conflict(a: PackageView, b: PackageView)
    requires
        a.source is Some,
        b.source is Some,
        same_identity(a.source->0, b.source->0),
    ensures
        has_conflict(seq![a, b]) <==> a.source->0.precise != b.source->0.precise,
{
    let p = seq![a, b];
    if a.source->0.precise != b.source->0.precise {
        assert(conflicting(p, 0, 1));
        assert(conflict_at(p, 1));
    } else {
        assert forall|j: int| 0 <= j < p.len() implies !#[trigger] conflict_at(p, j) by {
            assert forall|i: int| 0 <= i < j implies !#[trigger] conflicting(p, i, j) by {}
        }
    }
}

/// A stale pin is only reported for a package that some manifest names
/// directly; every reported package is in `names`.
pub proof fn lemma_stale_only_direct(
    dir: Seq<char>,
    p: Seq<PackageView>,
    n: int,
    names: Seq<Seq<char>>,
    table: Map<Seq<char>, Seq<char>>,
)
    ensures
        forall|k: int|
            0 <= k < stale_records(dir, p, n, names, table).len() ==> names.contains(
                #[trigger] stale_records(dir, p, n, names, table)[k].name,
            ),
    decreases n,
{
    if n > 0 {
        lemma_stale_only_direct(dir, p, n - 1, names, table);
    }
}

/// An entry whose package no manifest names directly adds no finding, however
/// stale its pin.
pub proof fn lemma_transitive_silent(
    dir: Seq<char>,
    p: Seq<PackageView>,
    n: int,
    names: Seq<Seq<char>>,
    table: Map<Seq<char>, Seq<char>>,
)
    requires
        0 < n,
        !names.contains(p[n - 1].name),
    ensures
        stale_records(dir, p, n, names, table) == stale_records(dir, p, n - 1, names, table),
{
}

} // verus!
