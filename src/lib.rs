//! Cross-repository revision consistency checks: walks manifest graphs, finds
//! dependency pins that lag behind a sibling repository's current revision,
//! audits lockfiles for stale branch pins and conflicting sources, and checks
//! declared prebuilt artifacts against what the build server published.

pub mod text;
pub mod report;
pub mod manifest;
pub mod revisions;
pub mod lockfile;
pub mod artifacts;
pub mod driver;
