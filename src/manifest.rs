use vstd::prelude::*;
use crate::text::{clone_opt, opt_view};

verus! {

/// One dependency as a manifest declares it.
pub struct Dependency {
    pub name: String,
    pub git: Option<String>,
    pub rev: Option<String>,
}

/// The workspace part of a manifest: member path patterns (which may hold glob
/// wildcards) and the dependencies that members inherit.
pub struct WorkspaceDescriptor {
    pub members: Vec<String>,
    pub dependencies: Vec<Dependency>,
}

/// A parsed project manifest.
pub struct ManifestModel {
    pub dependencies: Vec<Dependency>,
    pub workspace: Option<WorkspaceDescriptor>,
}

/// A dependency tagged with the manifest file that declares it.
pub struct DependencyEdge {
    pub manifest_path: String,
    pub name: String,
    pub git: Option<String>,
    pub rev: Option<String>,
}

pub struct EdgeView {
    pub manifest_path: Seq<char>,
    pub name: Seq<char>,
    pub git: Option<Seq<char>>,
    pub rev: Option<Seq<char>>,
}

impl View for DependencyEdge {
    type V = EdgeView;

    open spec fn view(&self) -> EdgeView {
        EdgeView {
            manifest_path: self.manifest_path@,
            name: self.name@,
            git: opt_view(self.git),
            rev: opt_view(self.rev),
        }
    }
}

pub open spec fn edge_views(s: Seq<DependencyEdge>) -> Seq<EdgeView> {
    s.map_values(|e: DependencyEdge| e@)
}

/// The manifest file of a directory.
pub open spec fn manifest_path(dir: Seq<char>) -> Seq<char> {
    dir + "/Cargo.toml"@
}

/// The glob pattern that finds the manifests of a workspace member.
pub open spec fn member_pattern(dir: Seq<char>, member: Seq<char>) -> Seq<char> {
    dir + "/"@ + member + "/Cargo.toml"@
}

/// The edge that a dependency declared in the manifest at `path` makes.
pub open spec fn edge_of(path: Seq<char>, d: Dependency) -> EdgeView {
    EdgeView { manifest_path: path, name: d.name@, git: opt_view(d.git), rev: opt_view(d.rev) }
}

pub open spec fn tagged(path: Seq<char>, deps: Seq<Dependency>) -> Seq<EdgeView> {
    deps.map_values(|d: Dependency| edge_of(path, d))
}

/// The edges that one manifest declares itself: its direct dependencies, then
/// those of its workspace.
pub open spec fn own_edges(dir: Seq<char>, m: ManifestModel) -> Seq<EdgeView> {
    match m.workspace {
        Some(w) => tagged(manifest_path(dir), m.dependencies@) + tagged(
            manifest_path(dir),
            w.dependencies@,
        ),
        None => tagged(manifest_path(dir), m.dependencies@),
    }
}

/// The member patterns that one manifest asks to expand, in order.
pub open spec fn member_patterns(dir: Seq<char>, m: ManifestModel) -> Seq<Seq<char>> {
    match m.workspace {
        Some(w) => w.members@.map_values(|p: String| member_pattern(dir, p@)),
        None => Seq::empty(),
    }
}

/// Appends to `out` the edges of `deps`, declared in the manifest at `path`.
fn push_edges(out: &mut Vec<DependencyEdge>, path: &String, deps: &Vec<Dependency>)
    ensures
        edge_views(final(out)@) == edge_views(old(out)@) + tagged(path@, deps@),
{
    let ghost start = edge_views(out@);
    let mut i: usize = 0;
    while i < deps.len()
        invariant
            i <= deps@.len(),
            edge_views(out@) == start + tagged(path@, deps@.subrange(0, i as int)),
        decreases deps@.len() - i,
    {
        let d = &deps[i];
        let e = DependencyEdge {
            manifest_path: path.clone(),
            name: d.name.clone(),
            git: clone_opt(&d.git),
            rev: clone_opt(&d.rev),
        };
        let ghost before = out@;
        out.push(e);
        proof {
            assert(deps@.subrange(0, i + 1) == deps@.subrange(0, i as int).push(deps@[i as int]));
            assert(out@ == before.push(e));
            assert(edge_views(out@) == edge_views(before).push(e@));
        }
        i = i + 1;
    }
    proof {
        assert(deps@.subrange(0, deps@.len() as int) == deps@);
    }
}

/// Traversal state of a manifest graph.
///
/// The walk starts at a root manifest. Each visited manifest contributes its own
/// edges and queues the glob patterns of its workspace members; the caller takes
/// the patterns one by one, expands them against the filesystem, parses each
/// match and visits it. A directory is visited at most once, so a member list
/// that leads back to an ancestor does not loop.
pub struct Walker {
    edges: Vec<DependencyEdge>,
    patterns: Vec<String>,
    next: usize,
    visited: Vec<String>,
}

impl Walker {
    pub closed spec fn edge_seq(&self) -> Seq<EdgeView> {
        edge_views(self.edges@)
    }

    pub closed spec fn pattern_seq(&self) -> Seq<Seq<char>> {
        self.patterns@.map_values(|p: String| p@)
    }

    pub closed spec fn visited_seq(&self) -> Seq<Seq<char>> {
        self.visited@.map_values(|p: String| p@)
    }

    pub closed spec fn cursor(&self) -> nat {
        self.next as nat
    }

    pub closed spec fn wf(&self) -> bool {
        self.next <= self.patterns@.len()
    }

    /// Starts a walk at the manifest `root` of directory `root_dir`, whose
    /// canonical form is `root_key`.
    pub fn new(root_dir: &str, root_key: &str, root: &ManifestModel) -> (w: Walker)
        ensures
            w.wf(),
            w.edge_seq() == own_edges(root_dir@, *root),
            w.pattern_seq() == member_patterns(root_dir@, *root),
            w.cursor() == 0,
            w.visited_seq() == seq![root_key@],
    {
        let mut w = Walker {
            edges: Vec::new(),
            patterns: Vec::new(),
            next: 0,
            visited: Vec::new(),
        };
        let dir = String::from_str(root_dir);
        let key = String::from_str(root_key);
        w.add(&dir, &key, root);
        assert(w.visited@ == seq![key]);
        assert(w.visited_seq() == seq![root_key@]);
        assert(edge_views(Seq::<DependencyEdge>::empty()) == Seq::<EdgeView>::empty());
        assert(Seq::<String>::empty().map_values(|p: String| p@) == Seq::<Seq<char>>::empty());
        w
    }

    fn add(&mut self, dir: &String, key: &String, m: &ManifestModel)
        requires
            old(self).wf(),
        ensures
            final(self).wf(),
            final(self).edge_seq() == old(self).edge_seq() + own_edges(dir@, *m),
            final(self).pattern_seq() == old(self).pattern_seq() + member_patterns(dir@, *m),
            final(self).next == old(self).next,
            final(self).visited@ == old(self).visited@.push(*key),
    {
        let path = dir.clone().concat("/Cargo.toml");
        push_edges(&mut self.edges, &path, &m.dependencies);
        match &m.workspace {
            Some(w) => {
                push_edges(&mut self.edges, &path, &w.dependencies);
                assert(self.edge_seq() == old(self).edge_seq() + own_edges(dir@, *m));
                let ghost start = self.pattern_seq();
                let ghost edges_now = self.edges;
                let mut i: usize = 0;
                while i < w.members.len()
                    invariant
                        i <= w.members@.len(),
                        self.next <= self.patterns@.len(),
                        self.next == old(self).next,
                        self.edges == edges_now,
                        self.visited == old(self).visited,
                        self.pattern_seq() == start + w.members@.subrange(0, i as int).map_values(
                            |p: String| member_pattern(dir@, p@),
                        ),
                    decreases w.members@.len() - i,
                {
                    let pat = dir.clone().concat("/").concat(w.members[i].as_str()).concat(
                        "/Cargo.toml",
                    );
                    let ghost before = self.patterns@;
                    self.patterns.push(pat);
                    proof {
                        assert(w.members@.subrange(0, i + 1) == w.members@.subrange(
                            0,
                            i as int,
                        ).push(w.members@[i as int]));
                        assert(self.patterns@ == before.push(pat));
                        assert(self.pattern_seq() == before.map_values(|p: String| p@).push(
                            pat@,
                        ));
                    }
                    i = i + 1;
                }
                proof {
                    assert(w.members@.subrange(0, w.members@.len() as int) == w.members@);
                }
            },
            None => {
                assert(self.pattern_seq() == old(self).pattern_seq() + Seq::<Seq<char>>::empty());
            },
        }
        self.visited.push(key.clone());
    }

    /// Whether the directory with canonical form `dir` has been visited.
    pub fn has_visited(&self, dir: &String) -> (r: bool)
        ensures
            r == self.visited_seq().contains(dir@),
    {
        let mut i: usize = 0;
        while i < self.visited.len()
            invariant
                i <= self.visited@.len(),
                forall|k: int| 0 <= k < i ==> self.visited@[k]@ != dir@,
            decreases self.visited@.len() - i,
        {
            if self.visited[i].eq(dir) {
                assert(self.visited_seq()[i as int] == dir@);
                return true;
            }
            i = i + 1;
        }
        assert forall|k: int| 0 <= k < self.visited_seq().len() implies self.visited_seq()[k]
            != dir@ by {
            assert(self.visited_seq()[k] == self.visited@[k]@);
        }
        false
    }

    /// Visits the member manifest `m` found in directory `dir`, whose canonical
    /// form is `key`. A directory whose canonical form was visited before is
    /// skipped; the result says whether `m` was taken.
    pub fn visit(&mut self, dir: &str, key: &str, m: &ManifestModel) -> (taken: bool)
        requires
            old(self).wf(),
        ensures
            final(self).wf(),
            taken == !old(self).visited_seq().contains(key@),
            final(self).cursor() == old(self).cursor(),
            taken ==> final(self).edge_seq() == old(self).edge_seq() + own_edges(dir@, *m),
            taken ==> final(self).pattern_seq() == old(self).pattern_seq() + member_patterns(
                dir@,
                *m,
            ),
            taken ==> final(self).visited_seq() == old(self).visited_seq().push(key@),
            !taken ==> *final(self) == *old(self),
    {
        let d = String::from_str(dir);
        let k = String::from_str(key);
        if self.has_visited(&k) {
            return false;
        }
        let ghost before = self.visited@;
        self.add(&d, &k, m);
        assert(self.visited_seq() == before.map_values(|p: String| p@).push(key@));
        true
    }

    /// Takes the next member pattern to expand, if any is left. The edges found
    /// so far stay as they are: a pattern that matches nothing adds none.
    pub fn next_pattern(&mut self) -> (r: Option<String>)
        requires
            old(self).wf(),
        ensures
            final(self).wf(),
            final(self).edge_seq() == old(self).edge_seq(),
            final(self).pattern_seq() == old(self).pattern_seq(),
            final(self).visited_seq() == old(self).visited_seq(),
            old(self).cursor() < old(self).pattern_seq().len() ==> r is Some && r->0@
                == old(self).pattern_seq()[old(self).cursor() as int] && final(self).cursor()
                == old(self).cursor() + 1,
            old(self).cursor() >= old(self).pattern_seq().len() ==> r is None
                && final(self).cursor() == old(self).cursor(),
    {
        if self.next < self.patterns.len() {
            let p = self.patterns[self.next].clone();
            self.next = self.next + 1;
            Some(p)
        } else {
            None
        }
    }

    /// Whether every queued pattern has been taken.
    pub fn is_done(&self) -> (r: bool)
        ensures
            r == (self.cursor() >= self.pattern_seq().len()),
    {
        self.next >= self.patterns.len()
    }

    /// The edges found so far, in the order they were found.
    pub fn edges(&self) -> (r: &Vec<DependencyEdge>)
        ensures
            edge_views(r@) == self.edge_seq(),
    {
        &self.edges
    }

    /// The names of all dependencies found so far, in edge order.
    pub fn direct_dependency_names(&self) -> (r: Vec<String>)
        ensures
            r@.len() == self.edge_seq().len(),
            forall|i: int| 0 <= i < r@.len() ==> r@[i]@ == self.edge_seq()[i].name,
    {
        let mut out: Vec<String> = Vec::new();
        let mut i: usize = 0;
        while i < self.edges.len()
            invariant
                i <= self.edges@.len(),
                out@.len() == i,
                forall|k: int| 0 <= k < i ==> out@[k]@ == self.edges@[k].name@,
            decreases self.edges@.len() - i,
        {
            out.push(self.edges[i].name.clone());
            i = i + 1;
        }
        out
    }
}

/// A manifest without a workspace yields exactly its direct dependencies, each
/// tagged with its own manifest path, and queues no member to walk.
pub proof fn lemma_flat_manifest_walk(dir: Seq<char>, m: ManifestModel)
    requires
        m.workspace is None,
    ensures
        own_edges(dir, m) == tagged(manifest_path(dir), m.dependencies@),
        member_patterns(dir, m).len() == 0,
{
}

} // verus!
