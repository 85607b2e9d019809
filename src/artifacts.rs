use vstd::prelude::*;
use crate::lockfile::contains_name;
use crate::report::{Discrepancy, DiscrepancyKind, DiscrepancyView, views};
use crate::revisions::RevisionTable;

verus! {

/// The characters with the Unicode White_Space property, those that
/// `char::is_whitespace` accepts.
pub open spec fn is_white_space(c: char) -> bool {
    let u = c as u32;
    (0x9 <= u <= 0xd) || u == 0x20 || u == 0x85 || u == 0xa0 || u == 0x1680 || (0x2000 <= u
        <= 0x200a) || u == 0x2028 || u == 0x2029 || u == 0x202f || u == 0x205f || u == 0x3000
}

/// A text without its leading and trailing white space.
pub open spec fn trimmed(s: Seq<char>) -> Seq<char>
    decreases s.len(),
{
    if s.len() == 0 {
        s
    } else if is_white_space(s[0]) {
        trimmed(s.drop_first())
    } else if is_white_space(s.last()) {
        trimmed(s.drop_last())
    } else {
        s
    }
}

/// Whether `c` is white space.
pub fn white_space(c: char) -> (r: bool)
    ensures
        r == is_white_space(c),
{
    let u = c as u32;
    (0x9 <= u && u <= 0xd) || u == 0x20 || u == 0x85 || u == 0xa0 || u == 0x1680 || (0x2000 <= u
        && u <= 0x200a) || u == 0x2028 || u == 0x2029 || u == 0x202f || u == 0x205f || u == 0x3000
}

/// The text `s` without its leading and trailing white space.
pub fn trim_text(s: &str) -> (r: String)
    ensures
        r@ == trimmed(s@),
{
    let n = s.unicode_len();
    let mut i: usize = 0;
    assert(s@.subrange(0, n as int) == s@);
    while i < n && white_space(s.get_char(i))
        invariant
            n == s@.len(),
            i <= n,
            trimmed(s@) == trimmed(s@.subrange(i as int, n as int)),
        decreases n - i,
    {
        assert(s@.subrange(i as int, n as int).drop_first() == s@.subrange(i + 1, n as int));
        i = i + 1;
    }
    let mut j: usize = n;
    while j > i && white_space(s.get_char(j - 1))
        invariant
            n == s@.len(),
            i <= j <= n,
            i < j ==> !is_white_space(s@[i as int]),
            trimmed(s@) == trimmed(s@.subrange(i as int, j as int)),
        decreases j,
    {
        assert(s@.subrange(i as int, j as int).drop_last() == s@.subrange(i as int, j - 1));
        j = j - 1;
    }
    String::from_str(s.substring_char(i, j))
}

/// A prebuilt artifact that the downstream package manifest declares.
pub struct ArtifactDeclaration {
    pub name: String,
    pub repo: String,
    pub commit: String,
    pub sha256: String,
}

/// What to do about one declaration.
pub enum ArtifactPlan {
    /// Its repository is not tracked: note it and go on.
    Untracked,
    /// Its repository is excluded from artifact checks: skip it.
    Excluded,
    /// Fetch the expected hash from `url`, built at the tracked `revision`.
    Fetch { url: String, revision: String },
}

/// What fetching an artifact's hash gave.
pub enum FetchOutcome {
    /// The resource's body.
    Fetched(String),
    /// The resource was missing, the server failed or the network did; the
    /// text says which.
    Unavailable(String),
}

/// Whether to go on after an artifact that is not built yet.
#[derive(Clone, Copy, Debug, PartialEq, Eq, Structural)]
pub enum PendingPolicy {
    /// Stop at the first pending artifact: later ones likely wait on the same
    /// build.
    StopAtFirstPending,
    /// Report every pending artifact. This is the default of the tool.
    ReportAllPending,
}

/// The findings for one declaration.
pub struct ArtifactVerdict {
    pub records: Vec<Discrepancy>,
    pub update_required: bool,
    pub pending: bool,
}

/// Where the hash of artifact `name`, built from `repo` at `rev`, is published.
pub open spec fn artifact_url(base: Seq<char>, repo: Seq<char>, rev: Seq<char>, name: Seq<char>) -> Seq<
    char,
> {
    base + "/"@ + repo + "/image/"@ + rev + "/"@ + name + ".sha256.txt"@
}

pub fn artifact_url_for(base: &str, repo: &String, rev: &String, name: &String) -> (r: String)
    ensures
        r@ == artifact_url(base@, repo@, rev@, name@),
{
    String::from_str(base).concat("/").concat(repo.as_str()).concat("/image/").concat(
        rev.as_str(),
    ).concat("/").concat(name.as_str()).concat(".sha256.txt")
}

/// Decides what to do about `decl`: skip it when its repository is untracked
/// or excluded, else fetch the hash of the artifact built at the repository's
/// tracked revision, from under `base`.
pub fn plan_artifact(
    decl: &ArtifactDeclaration,
    table: &RevisionTable,
    excluded: &Vec<String>,
    base: &str,
) -> (r: ArtifactPlan)
    ensures
        match r {
            ArtifactPlan::Untracked => !table.view().contains_key(decl.repo@),
            ArtifactPlan::Excluded => table.view().contains_key(decl.repo@)
                && excluded@.map_values(|n: String| n@).contains(decl.repo@),
            ArtifactPlan::Fetch { url, revision } => table.view().contains_key(decl.repo@)
                && !excluded@.map_values(|n: String| n@).contains(decl.repo@) && revision@
                == table.view()[decl.repo@] && url@ == artifact_url(
                base@,
                decl.repo@,
                revision@,
                decl.name@,
            ),
        },
{
    let rev = match table.get(decl.repo.as_str()) {
        Some(v) => v.clone(),
        None => {
            return ArtifactPlan::Untracked;
        },
    };
    if contains_name(excluded, &decl.repo) {
        return ArtifactPlan::Excluded;
    }
    let url = artifact_url_for(base, &decl.repo, &rev, &decl.name);
    ArtifactPlan::Fetch { url, revision: rev }
}

/// The findings for a declaration in the package manifest of project
/// `manifest` whose artifact, built at `rev`, has hash `hash`: a hash mismatch
/// where the declared hash differs, then a stale commit where the declared
/// commit is not `rev`.
pub open spec fn hash_records(
    manifest: Seq<char>,
    d: ArtifactDeclaration,
    rev: Seq<char>,
    hash: Seq<char>,
) -> Seq<DiscrepancyView> {
    let mismatch = DiscrepancyView {
        kind: DiscrepancyKind::ArtifactHashMismatch,
        location: manifest,
        name: d.name@,
        old: d.sha256@,
        new: hash,
        note: Seq::empty(),
    };
    let stale = DiscrepancyView {
        kind: DiscrepancyKind::ArtifactCommitStale,
        location: manifest,
        name: d.name@,
        old: d.commit@,
        new: rev,
        note: Seq::empty(),
    };
    (if hash != d.sha256@ {
        seq![mismatch]
    } else {
        Seq::empty()
    }) + (if d.commit@ != rev {
        seq![stale]
    } else {
        Seq::empty()
    })
}

/// The findings for a declaration in the package manifest of project
/// `manifest` whose artifact, built at `rev`, has hash `hash`, and whether the
/// manifest needs an update.
pub fn check_artifact_hash(
    manifest: &str,
    decl: &ArtifactDeclaration,
    rev: &String,
    hash: &String,
) -> (r: (
    Vec<Discrepancy>,
    bool,
))
    ensures
        views(r.0@) == hash_records(manifest@, *decl, rev@, hash@),
        r.1 == (r.0@.len() > 0),
{
    let mut out: Vec<Discrepancy> = Vec::new();
    if !hash.eq(&decl.sha256) {
        out.push(
            Discrepancy {
                kind: DiscrepancyKind::ArtifactHashMismatch,
                location: String::from_str(manifest),
                name: decl.name.clone(),
                old: decl.sha256.clone(),
                new: hash.clone(),
                note: String::new(),
            },
        );
    }
    if !decl.commit.eq(rev) {
        out.push(
            Discrepancy {
                kind: DiscrepancyKind::ArtifactCommitStale,
                location: String::from_str(manifest),
                name: decl.name.clone(),
                old: decl.commit.clone(),
                new: rev.clone(),
                note: String::new(),
            },
        );
    }
    assert(views(out@) == hash_records(manifest@, *decl, rev@, hash@));
    let any = out.len() > 0;
    (out, any)
}

/// The findings for a declaration in the package manifest of project
/// `manifest`, given what fetching the hash of its artifact built at `rev` gave. An unavailable artifact is pending: it is reported as
/// not built yet and requires no update; a fetched hash is compared after
/// trimming surrounding whitespace.
pub fn check_artifact(
    manifest: &str,
    decl: &ArtifactDeclaration,
    rev: &String,
    outcome: &FetchOutcome,
) -> (r: ArtifactVerdict)
    ensures
        match outcome {
            FetchOutcome::Fetched(body) => views(r.records@) == hash_records(
                manifest@,
                *decl,
                rev@,
                trimmed(body@),
            ) && r.update_required == (r.records@.len() > 0) && !r.pending,
            FetchOutcome::Unavailable(reason) => views(r.records@) == seq![
                DiscrepancyView {
                    kind: DiscrepancyKind::ArtifactNotYetBuilt,
                    location: manifest@,
                    name: decl.name@,
                    old: Seq::empty(),
                    new: rev@,
                    note: reason@,
                },
            ] && !r.update_required && r.pending,
        },
{
    match outcome {
        FetchOutcome::Fetched(body) => {
            let hash = trim_text(body.as_str());
            let (records, update_required) = check_artifact_hash(manifest, decl, rev, &hash);
            ArtifactVerdict { records, update_required, pending: false }
        },
        FetchOutcome::Unavailable(reason) => {
            let d = Discrepancy {
                kind: DiscrepancyKind::ArtifactNotYetBuilt,
                location: String::from_str(manifest),
                name: decl.name.clone(),
                old: String::new(),
                new: rev.clone(),
                note: reason.clone(),
            };
            let records = vec![d];
            assert(views(records@) =~= seq![d@]);
            ArtifactVerdict { records, update_required: false, pending: true }
        },
    }
}

/// Whether to check further artifacts after `v`.
pub fn continue_after(policy: PendingPolicy, v: &ArtifactVerdict) -> (r: bool)
    ensures
        r == !(v.pending && policy == PendingPolicy::StopAtFirstPending),
{
    !(v.pending && policy == PendingPolicy::StopAtFirstPending)
}

} // verus!
