use vstd::prelude::*;

verus! {

/// What a discrepancy record reports.
#[derive(Clone, Copy, Debug, PartialEq, Eq, Structural)]
pub enum DiscrepancyKind {
    /// A manifest pins a sibling repository at an outdated revision.
    RevisionDrift,
    /// A lockfile resolves a branch dependency at an outdated revision.
    LockfileStalePin,
    /// A prebuilt artifact's declared content hash differs from the built one.
    ArtifactHashMismatch,
    /// A prebuilt artifact is declared at an outdated commit.
    ArtifactCommitStale,
    /// The artifact for the current revision is not available yet.
    ArtifactNotYetBuilt,
}

/// One actionable finding.
///
/// `location` is the file or directory concerned (for an artifact, the
/// downstream project whose package manifest declares it), `name`
/// the dependency, package or artifact, `old` and `new` the current and wanted
/// values, and `note` extra context: the repository of a stale lockfile pin, or
/// the reason an artifact is not available.
pub struct Discrepancy {
    pub kind: DiscrepancyKind,
    pub location: String,
    pub name: String,
    pub old: String,
    pub new: String,
    pub note: String,
}

pub struct DiscrepancyView {
    pub kind: DiscrepancyKind,
    pub location: Seq<char>,
    pub name: Seq<char>,
    pub old: Seq<char>,
    pub new: Seq<char>,
    pub note: Seq<char>,
}

impl View for Discrepancy {
    type V = DiscrepancyView;

    open spec fn view(&self) -> DiscrepancyView {
        DiscrepancyView {
            kind: self.kind,
            location: self.location@,
            name: self.name@,
            old: self.old@,
            new: self.new@,
            note: self.note@,
        }
    }
}

pub open spec fn views(s: Seq<Discrepancy>) -> Seq<DiscrepancyView> {
    s.map_values(|d: Discrepancy| d@)
}

/// The line that reports a finding.
pub open spec fn rendered(d: DiscrepancyView) -> Seq<char> {
    match d.kind {
        DiscrepancyKind::RevisionDrift => "update "@ + d.location + " "@ + d.name + " rev from "@
            + d.old + " to "@ + d.new,
        DiscrepancyKind::LockfileStalePin => d.location + "/Cargo.lock has old rev for "@ + d.note
            + " "@ + d.name + "! update "@ + d.old + " to "@ + d.new,
        DiscrepancyKind::ArtifactHashMismatch => "update "@ + d.location + " package manifest "@ + d.name
            + " sha256 from "@ + d.old + " to "@ + d.new,
        DiscrepancyKind::ArtifactCommitStale => "update "@ + d.location + " package manifest "@ + d.name
            + " rev from "@ + d.old + " to "@ + d.new,
        DiscrepancyKind::ArtifactNotYetBuilt => "wait for "@ + d.name + " image for "@ + d.new
            + " to be built ("@ + d.note + ")"@,
    }
}

impl Discrepancy {
    /// The line that reports this finding, naming the edit that resolves it.
    pub fn render(&self) -> (r: String)
        ensures
            r@ == rendered(self@),
    {
        match self.kind {
            DiscrepancyKind::RevisionDrift => {
                String::from_str("update ").concat(self.location.as_str()).concat(" ").concat(
                    self.name.as_str(),
                ).concat(" rev from ").concat(self.old.as_str()).concat(" to ").concat(
                    self.new.as_str(),
                )
            },
            DiscrepancyKind::LockfileStalePin => {
                self.location.clone().concat("/Cargo.lock has old rev for ").concat(
                    self.note.as_str(),
                ).concat(" ").concat(self.name.as_str()).concat("! update ").concat(
                    self.old.as_str(),
                ).concat(" to ").concat(self.new.as_str())
            },
            DiscrepancyKind::ArtifactHashMismatch => {
                String::from_str("update ").concat(self.location.as_str()).concat(
                    " package manifest ",
                ).concat(self.name.as_str()).concat(" sha256 from ",

                ).concat(self.old.as_str()).concat(" to ").concat(self.new.as_str())
            },
            DiscrepancyKind::ArtifactCommitStale => {
                String::from_str("update ").concat(self.location.as_str()).concat(
                    " package manifest ",
                ).concat(self.name.as_str()).concat(" rev from ",

                ).concat(self.old.as_str()).concat(" to ").concat(self.new.as_str())
            },
            DiscrepancyKind::ArtifactNotYetBuilt => {
                String::from_str("wait for ").concat(self.name.as_str()).concat(
                    " image for ",
                ).concat(self.new.as_str()).concat(" to be built (").concat(
                    self.note.as_str(),
                ).concat(")")
            },
        }
    }
}

/// Renders each finding, in order.
pub fn render_all(records: &Vec<Discrepancy>) -> (r: Vec<String>)
    ensures
        r@.len() == records@.len(),
        forall|i: int| 0 <= i < r@.len() ==> r@[i]@ == rendered(records@[i]@),
{
    let mut out: Vec<String> = Vec::new();
    let mut i: usize = 0;
    while i < records.len()
        invariant
            i <= records@.len(),
            out@.len() == i,
            forall|k: int| 0 <= k < i ==> out@[k]@ == rendered(records@[k]@),
        decreases records@.len() - i,
    {
        out.push(records[i].render());
        i = i + 1;
    }
    out
}

} // verus!
