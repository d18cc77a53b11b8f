use vstd::prelude::*;
use crate::lock::{provenance_spec, record_spec, records_spec};
use crate::manifest::reported_license;
use crate::model::{
    FileRead, GitPin, GitRef, LicenseField, LockEntry, ScanError, ScanResult, SourceFacts,
    SourceProvenance,
};
use crate::scan::scan_outcome;

verus! {

/// A license set on the package itself is reported as it is written.
pub proof fn explicit_license_is_reported(value: String)
    ensures
        reported_license(Some(LicenseField::Explicit(value))) == Some(value),
{
}

/// A license inherited from the workspace is reported as absent, whatever
/// the workspace declares; so is a manifest with no license field or no
/// package section.
pub proof fn inherited_license_is_absent()
    ensures
        reported_license(Some(LicenseField::FromWorkspace)) == None::<String>,
        reported_license(None) == None::<String>,
{
}

/// Without a lock file read, a successful scan reports no dependencies.
pub proof fn no_lock_no_crates(manifest: FileRead, r: Result<ScanResult, ScanError>)
    requires
        scan_outcome(manifest, None, r),
        r is Ok,
    ensures
        r->Ok_0.crates is None,
{
}

/// A source of the default public registry is classified as such.
pub proof fn default_registry_is_classified(f: SourceFacts)
    requires
        !f.is_git,
        f.is_default_registry,
    ensures
        provenance_spec(f) == SourceProvenance::CratesRegistry,
{
}

/// A git source pinned to a tag reports its repository and that tag.
pub proof fn git_tag_is_reported(f: SourceFacts, tag: String)
    requires
        f.is_git,
        f.git_pin == Some(GitPin::Tag(tag)),
    ensures
        provenance_spec(f) == (SourceProvenance::Git {
            repository: f.url,
            reference: GitRef::Tag { value: tag },
        }),
{
}

/// A git source pinned to a branch reports the precise commit when the lock
/// records one, and the branch name otherwise.
pub proof fn git_branch_prefers_precise(f: SourceFacts, branch: String)
    requires
        f.is_git,
        f.git_pin == Some(GitPin::Branch(branch)),
    ensures
        provenance_spec(f) == (SourceProvenance::Git {
            repository: f.url,
            reference: GitRef::Ref {
                value: match f.precise {
                    Some(p) => p,
                    None => branch,
                },
            },
        }),
{
}

/// The records follow the lock entries one for one, in the same order.
pub proof fn records_keep_lock_order(entries: Seq<LockEntry>)
    ensures
        records_spec(entries).len() == entries.len(),
        forall|i: int| 0 <= i < entries.len() ==> #[trigger] records_spec(entries)[i] == record_spec(entries[i]),
{
}

/// A manifest that could not be read fails the scan with that path and cause,
/// whether or not a lock file was read.
pub proof fn unreadable_manifest_fails(
    manifest: FileRead,
    lock: Option<FileRead>,
    r: Result<ScanResult, ScanError>,
)
    requires
        manifest.contents is Err,
        scan_outcome(manifest, lock, r),
    ensures
        r == Err::<ScanResult, ScanError>(ScanError::ManifestReadFailed {
            path: manifest.path,
            cause: manifest.contents->Err_0,
        }),
{
}

} // verus!
