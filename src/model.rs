use vstd::prelude::*;

verus! {

/// How a git-sourced dependency was pinned.
#[derive(Debug, Clone, PartialEq, Eq)]
pub enum GitRef {
    Tag { value: String },
    /// A branch pin: the resolved commit when the lock records one, else the branch name.
    Ref { value: String },
    Rev { value: String },
    /// The git source carries no tag, branch or revision; holds the raw source.
    Unexpected { raw: String },
}

/// Where a resolved dependency came from.
#[derive(Debug, Clone, PartialEq, Eq)]
pub enum SourceProvenance {
    CratesRegistry,
    Git { repository: String, reference: GitRef },
    /// A source of a shape not classified above; holds the raw source.
    Unexpected { raw: String },
}

/// One resolved dependency.
#[derive(Debug, Clone, PartialEq, Eq)]
pub struct DependencyRecord {
    pub name: String,
    pub version: String,
    pub source: Option<SourceProvenance>,
}

/// The outcome of a scan.
#[derive(Debug, Clone, PartialEq, Eq)]
pub struct ScanResult {
    pub license: Option<String>,
    pub crates: Option<Vec<DependencyRecord>>,
}

/// Why a scan failed: each case names the file and the underlying cause.
#[derive(Debug, Clone, PartialEq, Eq)]
pub enum ScanError {
    ManifestReadFailed { path: String, cause: String },
    ManifestParseFailed { path: String, cause: String },
    LockParseFailed { path: String, cause: String },
}

/// The license field of a manifest's package section.
#[derive(Debug, Clone, PartialEq, Eq)]
pub enum LicenseField {
    Explicit(String),
    /// `license.workspace = true`
    FromWorkspace,
}

/// The reference a git source was fetched by.
#[derive(Debug, Clone, PartialEq, Eq)]
pub enum GitPin {
    DefaultBranch,
    Tag(String),
    Branch(String),
    Rev(String),
}

/// What the classification reads of a lock entry's source.
#[derive(Debug, Clone, PartialEq, Eq)]
pub struct SourceFacts {
    pub is_git: bool,
    /// The git reference; present exactly for git sources.
    pub git_pin: Option<GitPin>,
    /// The precise commit recorded for the source, if any.
    pub precise: Option<String>,
    pub is_default_registry: bool,
    pub url: String,
    /// The source as the lock file writes it.
    pub raw: String,
}

/// One package entry of a lock file, as plain values.
#[derive(Debug, Clone, PartialEq, Eq)]
pub struct LockEntry {
    pub name: String,
    pub version: String,
    pub source: Option<SourceFacts>,
}

/// The text read from a file, or the reason it could not be read.
#[derive(Debug, PartialEq, Eq)]
pub struct FileRead {
    pub path: String,
    pub contents: Result<String, String>,
}

} // verus!
