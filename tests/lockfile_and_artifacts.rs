use lockstep::artifacts::{
    check_artifact, check_artifact_hash, trim_text, continue_after, plan_artifact, ArtifactDeclaration,
    ArtifactPlan, FetchOutcome, PendingPolicy,
};
use lockstep::lockfile::{
    check_lockfile, same_source_identity, stale_for_package, ResolvedPackage, SourceDescriptor,
    SourceKind,
};
use lockstep::driver::{next_stage, Stage};
use lockstep::report::{render_all, DiscrepancyKind};
use lockstep::revisions::RevisionTable;

const PROPOLIS: &str = "https://github.com/oxidecomputer/propolis";

fn git_branch(location: &str, precise: &str) -> SourceDescriptor {
    SourceDescriptor {
        kind: SourceKind::GitBranch,
        reference: "main".to_string(),
        location: location.to_string(),
        precise: Some(precise.to_string()),
    }
}

fn pkg(name: &str, source: Option<SourceDescriptor>) -> ResolvedPackage {
    ResolvedPackage { name: name.to_string(), source }
}

fn table() -> RevisionTable {
    let mut t = RevisionTable::new();
    t.insert("propolis".to_string(), "111".to_string());
    t.insert("crucible".to_string(), "abc123".to_string());
    t
}

#[test]
fn stale_pin_reported_for_direct_dependency() {
    let packages = vec![pkg("propolis-client", Some(git_branch(PROPOLIS, "000")))];
    let names = vec!["propolis-client".to_string()];
    let report = check_lockfile("omicron", &packages, &names, &table()).ok().unwrap();
    assert_eq!(report.stale.len(), 1);
    assert_eq!(report.stale[0].kind, DiscrepancyKind::LockfileStalePin);
    assert_eq!(
        report.stale[0].render(),
        "omicron/Cargo.lock has old rev for propolis propolis-client! update 000 to 111"
    );
    assert_eq!(report.sources.len(), 1);
}

#[test]
fn transitive_stale_pin_not_reported() {
    let packages = vec![pkg("propolis-client", Some(git_branch(PROPOLIS, "000")))];
    let names = vec!["something-else".to_string()];
    let report = check_lockfile("omicron", &packages, &names, &table()).ok().unwrap();
    assert!(report.stale.is_empty());
}

#[test]
fn non_branch_or_untracked_or_current_not_reported() {
    let mut tag = git_branch(PROPOLIS, "000");
    tag.kind = SourceKind::GitRev;
    let packages = vec![
        pkg("a", Some(tag)),
        pkg("b", Some(git_branch("https://github.com/oxidecomputer/dendrite", "000"))),
        pkg("c", Some(git_branch("https://github.com/oxidecomputer/crucible", "abc123"))),
        pkg("d", None),
    ];
    let names: Vec<String> = vec!["a", "b", "c", "d"].into_iter().map(|s| s.to_string()).collect();
    let report = check_lockfile("omicron", &packages, &names, &table()).ok().unwrap();
    assert!(report.stale.is_empty());
    assert_eq!(report.sources.len(), 3);
}

#[test]
fn same_identity_same_revision_no_conflict() {
    let packages = vec![
        pkg("propolis-client", Some(git_branch(PROPOLIS, "111"))),
        pkg("propolis-server", Some(git_branch(PROPOLIS, "111"))),
    ];
    let report = check_lockfile("omicron", &packages, &vec![], &table()).ok().unwrap();
    assert_eq!(report.sources.len(), 1);
    assert_eq!(report.sources[0].location, PROPOLIS);
}

#[test]
fn same_identity_different_revision_conflicts() {
    let packages = vec![
        pkg("serde", None),
        pkg("propolis-client", Some(git_branch(PROPOLIS, "111"))),
        pkg("propolis-server", Some(git_branch(PROPOLIS, "222"))),
    ];
    let conflict = check_lockfile("omicron", &packages, &vec![], &table()).err().unwrap();
    assert_eq!(conflict.first, 1);
    assert_eq!(conflict.second, 2);
}

#[test]
fn different_branch_is_a_different_identity() {
    let mut other = git_branch(PROPOLIS, "222");
    other.reference = "dev".to_string();
    assert!(!same_source_identity(&git_branch(PROPOLIS, "111"), &other));
    assert!(same_source_identity(&git_branch(PROPOLIS, "111"), &git_branch(PROPOLIS, "222")));
    let packages = vec![pkg("a", Some(git_branch(PROPOLIS, "111"))), pkg("b", Some(other))];
    let report = check_lockfile("omicron", &packages, &vec![], &table()).ok().unwrap();
    assert_eq!(report.sources.len(), 2);
}

#[test]
fn stale_decision_given_repo() {
    let p = pkg("propolis-client", Some(git_branch(PROPOLIS, "000")));
    let names = vec!["propolis-client".to_string()];
    let t = table();
    assert!(stale_for_package("o", &p, &Some("propolis".to_string()), &names, &t).is_some());
    assert!(stale_for_package("o", &p, &Some("omicron".to_string()), &names, &t).is_none());
    assert!(stale_for_package("o", &p, &None, &names, &t).is_none());
}

fn decl(name: &str, repo: &str, commit: &str, sha: &str) -> ArtifactDeclaration {
    ArtifactDeclaration {
        name: name.to_string(),
        repo: repo.to_string(),
        commit: commit.to_string(),
        sha256: sha.to_string(),
    }
}

#[test]
fn scenario_hash_mismatch_only() {
    let d = decl("propolis-server", "propolis", "111", "aaaa");
    let v = check_artifact("omicron", &d, &"111".to_string(), &FetchOutcome::Fetched("bbbb\n".to_string()));
    assert!(v.update_required);
    assert!(!v.pending);
    assert_eq!(v.records.len(), 1);
    assert_eq!(v.records[0].kind, DiscrepancyKind::ArtifactHashMismatch);
    assert_eq!(v.records[0].old, "aaaa");
    assert_eq!(v.records[0].new, "bbbb");
    assert_eq!(
        render_all(&v.records),
        vec!["update omicron package manifest propolis-server sha256 from aaaa to bbbb".to_string()]
    );
}

#[test]
fn scenario_server_error_is_pending() {
    let d = decl("propolis-server", "propolis", "111", "aaaa");
    let v = check_artifact(
        "omicron",
        &d,
        &"222".to_string(),
        &FetchOutcome::Unavailable("500 Internal Server Error".to_string()),
    );
    assert!(!v.update_required);
    assert!(v.pending);
    assert_eq!(v.records.len(), 1);
    assert_eq!(v.records[0].kind, DiscrepancyKind::ArtifactNotYetBuilt);
    assert_eq!(
        v.records[0].render(),
        "wait for propolis-server image for 222 to be built (500 Internal Server Error)"
    );
    assert!(!continue_after(PendingPolicy::StopAtFirstPending, &v));
    assert!(continue_after(PendingPolicy::ReportAllPending, &v));
}

#[test]
fn stale_commit_and_hash() {
    let d = decl("crucible", "crucible", "old", "aaaa");
    let (records, update) = check_artifact_hash("omicron", &d, &"new".to_string(), &"bbbb".to_string());
    assert!(update);
    assert_eq!(records.len(), 2);
    assert_eq!(records[1].kind, DiscrepancyKind::ArtifactCommitStale);
    assert_eq!(records[1].render(), "update omicron package manifest crucible rev from old to new");
    let (records, update) = check_artifact_hash("omicron", &d, &"old".to_string(), &"aaaa".to_string());
    assert!(!update);
    assert!(records.is_empty());
}

#[test]
fn artifact_plans() {
    let t = table();
    let excluded = vec!["maghemite".to_string()];
    let base = "https://example.com/files";
    match plan_artifact(&decl("x", "omicron", "1", "a"), &t, &excluded, base) {
        ArtifactPlan::Untracked => {}
        _ => panic!("expected untracked"),
    }
    let mut t2 = table();
    t2.insert("maghemite".to_string(), "9".to_string());
    match plan_artifact(&decl("mg", "maghemite", "1", "a"), &t2, &excluded, base) {
        ArtifactPlan::Excluded => {}
        _ => panic!("expected excluded"),
    }
    match plan_artifact(&decl("propolis-server", "propolis", "1", "a"), &t, &excluded, base) {
        ArtifactPlan::Fetch { url, revision } => {
            assert_eq!(revision, "111");
            assert_eq!(url, "https://example.com/files/propolis/image/111/propolis-server.sha256.txt");
        }
        _ => panic!("expected fetch"),
    }
}

#[test]
fn stages_stop_after_required_pin_updates() {
    assert_eq!(next_stage(Stage::LowerLock, false), Stage::MiddlePins);
    assert_eq!(next_stage(Stage::MiddlePins, true), Stage::Done);
    assert_eq!(next_stage(Stage::MiddlePins, false), Stage::MiddleLock);
    assert_eq!(next_stage(Stage::MiddleLock, false), Stage::UpperLock);
    assert_eq!(next_stage(Stage::UpperLock, false), Stage::UpperPins);
    assert_eq!(next_stage(Stage::UpperPins, true), Stage::Done);
    assert_eq!(next_stage(Stage::UpperPins, false), Stage::Artifacts);
    assert_eq!(next_stage(Stage::Artifacts, true), Stage::Done);
}

#[test]
fn trim_matches_std() {
    for t in ["  \tbbbb\n", "\u{3000}x y\u{2028}", " \r\n ", "", "abc", "\u{85}a\u{a0}", "\u{200b}a"] {
        assert_eq!(trim_text(t), t.trim());
    }
    assert_eq!(trim_text(" a b \n"), "a b");
}
