use vstd::prelude::*;
use crate::lock::{lock_crates, lock_parse_of, records_spec};
use crate::manifest::{manifest_license, manifest_parse_of, reported_license};
use crate::model::{DependencyRecord, FileRead, ScanError, ScanResult};

verus! {

/// The records reported for a lock file read, when dependencies were asked for;
/// `Err` holds the cause of a lock failure.
pub open spec fn crates_outcome(lock: Option<FileRead>) -> Result<Option<Seq<DependencyRecord>>, Seq<char>> {
    match lock {
        None => Ok(None),
        Some(f) => match f.contents {
            Err(cause) => Err(cause@),
            Ok(text) => match lock_parse_of(text@) {
                Ok(entries) => Ok(Some(records_spec(entries))),
                Err(cause) => Err(cause),
            },
        },
    }
}

/// Whether `r` is what scanning a manifest read and an optional lock file read yields.
pub open spec fn scan_outcome(
    manifest: FileRead,
    lock: Option<FileRead>,
    r: Result<ScanResult, ScanError>,
) -> bool {
    match manifest.contents {
        Err(cause) => r == Err::<ScanResult, ScanError>(
            ScanError::ManifestReadFailed { path: manifest.path, cause },
        ),
        Ok(text) => match manifest_parse_of(text@) {
            Err(cause) => match r {
                Err(ScanError::ManifestParseFailed { path, cause: c }) => path == manifest.path
                    && c@ == cause,
                _ => false,
            },
            Ok(field) => match crates_outcome(lock) {
                Err(cause) => match r {
                    Err(ScanError::LockParseFailed { path, cause: c }) => path == lock->Some_0.path
                        && c@ == cause,
                    _ => false,
                },
                Ok(crates) => match r {
                    Ok(res) => res.license == reported_license(field) && match crates {
                        None => res.crates is None,
                        Some(records) => res.crates is Some && res.crates->Some_0@ == records,
                    },
                    Err(_) => false,
                },
            },
        },
    }
}

/// Scans a manifest read and, when dependencies are asked for, a lock file read.
/// `lock` is `None` exactly when dependencies are not asked for; the lock is
/// then not looked at. Manifest failures come before lock failures.
pub fn scan_files(manifest: &FileRead, lock: &Option<FileRead>) -> (r: Result<ScanResult, ScanError>)
    ensures
        scan_outcome(*manifest, *lock, r),
{
    let text = match &manifest.contents {
        Ok(t) => t,
        Err(cause) => {
            return Err(ScanError::ManifestReadFailed { path: manifest.path.clone(), cause: cause.clone() });
        },
    };
    let license = match manifest_license(text) {
        Ok(l) => l,
        Err(cause) => {
            return Err(ScanError::ManifestParseFailed { path: manifest.path.clone(), cause });
        },
    };
    let crates = match lock {
        None => None,
        Some(f) => {
            let lock_text = match &f.contents {
                Ok(t) => t,
                Err(cause) => {
                    return Err(ScanError::LockParseFailed { path: f.path.clone(), cause: cause.clone() });
                },
            };
            match lock_crates(lock_text) {
                Ok(records) => Some(records),
                Err(cause) => {
                    return Err(ScanError::LockParseFailed { path: f.path.clone(), cause });
                },
            }
        },
    };
    Ok(ScanResult { license, crates })
}

/// Reads the argument that selects dependency analysis: `"true"` or `"false"`,
/// and nothing else.
pub fn parse_include_flag(raw: &String) -> (r: Option<bool>)
    ensures
        r == if raw@ == "true"@ {
            Some(true)
        } else if raw@ == "false"@ {
            Some(false)
        } else {
            None::<bool>
        },
{
    let yes = "true".to_owned();
    let no = "false".to_owned();
    if *raw == yes {
        Some(true)
    } else if *raw == no {
        Some(false)
    } else {
        None
    }
}

} // verus!
