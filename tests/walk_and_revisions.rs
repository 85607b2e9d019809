use lockstep::manifest::{Dependency, DependencyEdge, ManifestModel, Walker, WorkspaceDescriptor};
use lockstep::report::DiscrepancyKind;
use lockstep::revisions::{check_revisions, drift_for_edge, RevisionTable};
use lockstep::text::{last_path_segment, repo_of_location};

fn dep(name: &str, git: Option<&str>, rev: Option<&str>) -> Dependency {
    Dependency {
        name: name.to_string(),
        git: git.map(|s| s.to_string()),
        rev: rev.map(|s| s.to_string()),
    }
}

fn edge(path: &str, name: &str, git: Option<&str>, rev: Option<&str>) -> DependencyEdge {
    DependencyEdge {
        manifest_path: path.to_string(),
        name: name.to_string(),
        git: git.map(|s| s.to_string()),
        rev: rev.map(|s| s.to_string()),
    }
}

const CRUCIBLE: &str = "https://github.com/oxidecomputer/crucible";

#[test]
fn flat_manifest_walk_yields_direct_edges_only() {
    let m = ManifestModel {
        dependencies: vec![dep("crucible", Some(CRUCIBLE), Some("def456")), dep("serde", None, None)],
        workspace: None,
    };
    let mut w = Walker::new("./propolis", "./propolis", &m);
    assert!(w.is_done());
    let edges = w.edges();
    assert_eq!(edges.len(), 2);
    assert_eq!(edges[0].manifest_path, "./propolis/Cargo.toml");
    assert_eq!(edges[0].name, "crucible");
    assert_eq!(edges[0].rev.as_deref(), Some("def456"));
    assert_eq!(edges[1].name, "serde");
    assert_eq!(w.next_pattern(), None);
}

#[test]
fn workspace_walk_queues_member_patterns() {
    let m = ManifestModel {
        dependencies: vec![dep("a", None, None)],
        workspace: Some(WorkspaceDescriptor {
            members: vec!["lib/*".to_string(), "bin".to_string()],
            dependencies: vec![dep("b", Some(CRUCIBLE), Some("1"))],
        }),
    };
    let mut w = Walker::new("./omicron", "./omicron", &m);
    assert_eq!(w.edges().len(), 2);
    assert_eq!(w.edges()[1].name, "b");
    assert_eq!(w.next_pattern().as_deref(), Some("./omicron/lib/*/Cargo.toml"));
    // the first pattern matches one member
    let member = ManifestModel { dependencies: vec![dep("c", None, None)], workspace: None };
    assert!(w.visit("./omicron/lib/x", "./omicron/lib/x", &member));
    assert_eq!(w.edges()[2].manifest_path, "./omicron/lib/x/Cargo.toml");
    // the second pattern matches nothing: no edge is added
    assert_eq!(w.next_pattern().as_deref(), Some("./omicron/bin/Cargo.toml"));
    assert_eq!(w.edges().len(), 3);
    assert!(w.is_done());
    assert_eq!(w.next_pattern(), None);
    let names = w.direct_dependency_names();
    assert_eq!(names, vec!["a".to_string(), "b".to_string(), "c".to_string()]);
}

#[test]
fn pattern_matching_nothing_adds_no_edges() {
    let m = ManifestModel {
        dependencies: vec![],
        workspace: Some(WorkspaceDescriptor { members: vec!["none/*".to_string()], dependencies: vec![] }),
    };
    let mut w = Walker::new("./x", "./x", &m);
    assert!(w.next_pattern().is_some());
    assert!(w.edges().is_empty());
    assert!(w.is_done());
}

#[test]
fn revisited_directory_is_skipped() {
    let m = ManifestModel {
        dependencies: vec![dep("a", None, None)],
        workspace: Some(WorkspaceDescriptor { members: vec![".".to_string()], dependencies: vec![] }),
    };
    let mut w = Walker::new("./x", "./x", &m);
    assert!(!w.visit("./x", "./x", &m));
    assert_eq!(w.edges().len(), 1);
    assert!(w.visit("./x/y", "./x/y", &m));
    assert_eq!(w.edges().len(), 2);
}

#[test]
fn last_segment_of_paths() {
    assert_eq!(last_path_segment("/oxidecomputer/crucible"), "crucible");
    assert_eq!(last_path_segment("plain"), "plain");
    assert_eq!(last_path_segment("/a/"), "");
}

#[test]
fn repo_names_from_locations() {
    assert_eq!(repo_of_location(CRUCIBLE).as_deref(), Some("crucible"));
    assert_eq!(
        repo_of_location("https://github.com/oxidecomputer/propolis?branch=main").as_deref(),
        Some("propolis")
    );
    assert_eq!(repo_of_location("not a url"), None);
}

#[test]
fn scenario_crucible_drift_line() {
    let edges = vec![edge("./propolis/Cargo.toml", "crucible", Some(CRUCIBLE), Some("def456"))];
    let (records, update) = check_revisions(&edges, "crucible", "abc123");
    assert!(update);
    assert_eq!(records.len(), 1);
    assert_eq!(records[0].kind, DiscrepancyKind::RevisionDrift);
    assert_eq!(records[0].old, "def456");
    assert_eq!(records[0].new, "abc123");
    assert_eq!(records[0].render(), "update ./propolis/Cargo.toml crucible rev from def456 to abc123");
}

#[test]
fn up_to_date_edges_give_no_records() {
    let edges = vec![
        edge("./p/Cargo.toml", "crucible", Some(CRUCIBLE), Some("abc123")),
        edge("./p/Cargo.toml", "crucible-client", Some(CRUCIBLE), Some("abc123")),
    ];
    let (records, update) = check_revisions(&edges, "crucible", "abc123");
    assert!(records.is_empty());
    assert!(!update);
}

#[test]
fn only_matching_pinned_git_edges_are_checked() {
    let edges = vec![
        edge("./p/Cargo.toml", "a", None, Some("old")),
        edge("./p/Cargo.toml", "b", Some(CRUCIBLE), None),
        edge("./p/Cargo.toml", "c", Some("https://github.com/oxidecomputer/not-crucible"), Some("old")),
        edge("./p/Cargo.toml", "d", Some(CRUCIBLE), Some("old")),
        edge("./q/Cargo.toml", "e", Some(CRUCIBLE), Some("older")),
    ];
    let (records, update) = check_revisions(&edges, "crucible", "new");
    assert!(update);
    assert_eq!(records.len(), 2);
    assert_eq!(records[0].name, "d");
    assert_eq!(records[1].name, "e");
    assert_eq!(records[1].location, "./q/Cargo.toml");
    assert_eq!(records[1].old, "older");
}

#[test]
fn check_is_repeatable() {
    let edges = vec![
        edge("./p/Cargo.toml", "d", Some(CRUCIBLE), Some("old")),
        edge("./q/Cargo.toml", "e", Some(CRUCIBLE), Some("older")),
    ];
    let a: Vec<String> = check_revisions(&edges, "crucible", "new").0.iter().map(|d| d.render()).collect();
    let b: Vec<String> = check_revisions(&edges, "crucible", "new").0.iter().map(|d| d.render()).collect();
    assert_eq!(a, b);
}

#[test]
fn drift_decision_given_repo() {
    let e = edge("./p/Cargo.toml", "d", Some(CRUCIBLE), Some("old"));
    assert!(drift_for_edge(&e, &Some("crucible".to_string()), "crucible", "new").is_some());
    assert!(drift_for_edge(&e, &Some("propolis".to_string()), "crucible", "new").is_none());
    assert!(drift_for_edge(&e, &None, "crucible", "new").is_none());
    assert!(drift_for_edge(&e, &Some("crucible".to_string()), "crucible", "old").is_none());
}

#[test]
fn revision_table_lookup() {
    let mut t = RevisionTable::new();
    assert_eq!(t.get("crucible"), None);
    t.insert("crucible".to_string(), "abc".to_string());
    t.insert("propolis".to_string(), "111".to_string());
    t.insert("crucible".to_string(), "def".to_string());
    assert_eq!(t.get("crucible").map(|s| s.as_str()), Some("def"));
    assert_eq!(t.get("propolis").map(|s| s.as_str()), Some("111"));
    assert_eq!(t.get("omicron"), None);
}

#[test]
fn canonical_key_guards_revisits() {
    let m = ManifestModel { dependencies: vec![dep("a", None, None)], workspace: None };
    let mut w = Walker::new("./x", "/work/x", &m);
    assert!(!w.visit("./x/..//x", "/work/x", &m));
    assert_eq!(w.edges().len(), 1);
}
