use vstd::prelude::*;
use crate::model::{DependencyRecord, GitPin, GitRef, LockEntry, SourceFacts, SourceProvenance};

verus! {

#[verifier::external_type_specification]
#[verifier::external_body]
pub struct ExLockfile(cargo_lock::Lockfile);

/// What parsing a lock file text yields: its package entries in file order,
/// or the parser's diagnostic.
pub uninterp spec fn lock_parse_of(text: Seq<char>) -> Result<Seq<LockEntry>, Seq<char>>;

/// The package entries that a parsed lock file holds, in file order.
pub uninterp spec fn lock_entries(l: cargo_lock::Lockfile) -> Seq<LockEntry>;

/// Relies on `<cargo_lock::Lockfile as FromStr>::from_str`: the outcome
/// depends on the text alone, and its packages keep the file's order.
#[verifier::external_body]
fn parse_lockfile(text: &str) -> (r: Result<cargo_lock::Lockfile, String>)
    ensures
        match r {
            Ok(l) => lock_parse_of(text@) == Ok::<Seq<LockEntry>, Seq<char>>(lock_entries(l)),
            Err(e) => lock_parse_of(text@) == Err::<Seq<LockEntry>, Seq<char>>(e@),
        },
{
    <cargo_lock::Lockfile as std::str::FromStr>::from_str(text).map_err(|e| format!("{:?}", e))
}

/// Relies on `Vec::len` of `Lockfile::packages`.
#[verifier::external_body]
fn package_count(l: &cargo_lock::Lockfile) -> (r: usize)
    ensures
        r == lock_entries(*l).len(),
{
    l.packages.len()
}

/// Relies on `cargo_lock::Name`'s `Display`: the package's name.
#[verifier::external_body]
fn package_name(l: &cargo_lock::Lockfile, i: usize) -> (r: String)
    requires
        i < lock_entries(*l).len(),
    ensures
        r == lock_entries(*l)[i as int].name,
{
    l.packages[i].name.to_string()
}

/// Relies on `semver::Version`'s `Display`: the package's resolved version.
#[verifier::external_body]
fn package_version(l: &cargo_lock::Lockfile, i: usize) -> (r: String)
    requires
        i < lock_entries(*l).len(),
    ensures
        r == lock_entries(*l)[i as int].version,
{
    l.packages[i].version.to_string()
}

/// Relies on `cargo_lock::SourceId`'s `is_git`, `git_reference`, `precise`,
/// `is_default_registry`, `url` and `Display`: the package's source, read
/// field by field into plain values.
#[verifier::external_body]
fn package_source(l: &cargo_lock::Lockfile, i: usize) -> (r: Option<SourceFacts>)
    requires
        i < lock_entries(*l).len(),
    ensures
        r == lock_entries(*l)[i as int].source,
{
    l.packages[i].source.as_ref().map(|s| SourceFacts {
        is_git: s.is_git(),
        git_pin: s.git_reference().map(|g| match g {
            cargo_lock::package::GitReference::DefaultBranch => GitPin::DefaultBranch,
            cargo_lock::package::GitReference::Tag(t) => GitPin::Tag(t.clone()),
            cargo_lock::package::GitReference::Branch(b) => GitPin::Branch(b.clone()),
            cargo_lock::package::GitReference::Rev(v) => GitPin::Rev(v.clone()),
        }),
        precise: s.precise().map(|p| p.to_string()),
        is_default_registry: s.is_default_registry(),
        url: s.url().to_string(),
        raw: s.to_string(),
    })
}

/// The reference reported for a git source pinned by `pin`; a branch pin
/// reports the precise commit when one is recorded.
pub open spec fn git_reference_spec(pin: GitPin, precise: Option<String>, raw: String) -> GitRef {
    match pin {
        GitPin::Tag(t) => GitRef::Tag { value: t },
        GitPin::Branch(b) => GitRef::Ref {
            value: match precise {
                Some(p) => p,
                None => b,
            },
        },
        GitPin::Rev(v) => GitRef::Rev { value: v },
        GitPin::DefaultBranch => GitRef::Unexpected { raw },
    }
}

/// The provenance reported for a source.
pub open spec fn provenance_spec(f: SourceFacts) -> SourceProvenance {
    if f.is_git {
        match f.git_pin {
            Some(pin) => SourceProvenance::Git {
                repository: f.url,
                reference: git_reference_spec(pin, f.precise, f.raw),
            },
            None => SourceProvenance::Unexpected { raw: f.raw },
        }
    } else if f.is_default_registry {
        SourceProvenance::CratesRegistry
    } else {
        SourceProvenance::Unexpected { raw: f.raw }
    }
}

/// The record reported for a lock entry: name and version verbatim, source classified.
pub open spec fn record_spec(e: LockEntry) -> DependencyRecord {
    DependencyRecord {
        name: e.name,
        version: e.version,
        source: match e.source {
            Some(f) => Some(provenance_spec(f)),
            None => None,
        },
    }
}

/// The records reported for a sequence of lock entries, in the same order.
pub open spec fn records_spec(entries: Seq<LockEntry>) -> Seq<DependencyRecord> {
    entries.map_values(|e: LockEntry| record_spec(e))
}

/// Classifies how a git source was pinned.
pub fn git_reference_of(pin: &GitPin, precise: &Option<String>, raw: &String) -> (r: GitRef)
    ensures
        r == git_reference_spec(*pin, *precise, *raw),
{
    match pin {
        GitPin::Tag(t) => GitRef::Tag { value: t.clone() },
        GitPin::Branch(b) => {
            let value = match precise {
                Some(p) => p.clone(),
                None => b.clone(),
            };
            GitRef::Ref { value }
        },
        GitPin::Rev(v) => GitRef::Rev { value: v.clone() },
        GitPin::DefaultBranch => GitRef::Unexpected { raw: raw.clone() },
    }
}

/// Classifies a source as the public registry, a git origin, or neither.
pub fn classify_source(f: &SourceFacts) -> (r: SourceProvenance)
    ensures
        r == provenance_spec(*f),
{
    if f.is_git {
        match &f.git_pin {
            Some(pin) => SourceProvenance::Git {
                repository: f.url.clone(),
                reference: git_reference_of(pin, &f.precise, &f.raw),
            },
            None => SourceProvenance::Unexpected { raw: f.raw.clone() },
        }
    } else if f.is_default_registry {
        SourceProvenance::CratesRegistry
    } else {
        SourceProvenance::Unexpected { raw: f.raw.clone() }
    }
}

/// The dependency record of one lock entry.
pub fn record_of(e: &LockEntry) -> (r: DependencyRecord)
    ensures
        r == record_spec(*e),
{
    let source = match &e.source {
        Some(f) => Some(classify_source(f)),
        None => None,
    };
    DependencyRecord { name: e.name.clone(), version: e.version.clone(), source }
}

/// The dependency records of lock entries, one for each, in the same order.
pub fn records_of(entries: &Vec<LockEntry>) -> (r: Vec<DependencyRecord>)
    ensures
        r@ == records_spec(entries@),
{
    let mut out: Vec<DependencyRecord> = Vec::new();
    let mut i: usize = 0;
    while i < entries.len()
        invariant
            i <= entries@.len(),
            out@ == records_spec(entries@.take(i as int)),
        decreases entries@.len() - i,
    {
        out.push(record_of(&entries[i]));
        proof {
            assert(entries@.take(i + 1) == entries@.take(i as int).push(entries@[i as int]));
        }
        i += 1;
    }
    proof {
        assert(entries@.take(entries@.len() as int) == entries@);
    }
    out
}

/// The entries of a parsed lock file, in its order.
fn entries_of(l: &cargo_lock::Lockfile) -> (r: Vec<LockEntry>)
    ensures
        r@ == lock_entries(*l),
{
    let n = package_count(l);
    let mut out: Vec<LockEntry> = Vec::new();
    let mut i: usize = 0;
    while i < n
        invariant
            n == lock_entries(*l).len(),
            i <= n,
            out@ == lock_entries(*l).take(i as int),
        decreases n - i,
    {
        let entry = LockEntry {
            name: package_name(l, i),
            version: package_version(l, i),
            source: package_source(l, i),
        };
        out.push(entry);
        proof {
            assert(lock_entries(*l).take(i + 1) == lock_entries(*l).take(i as int).push(lock_entries(*l)[i as int]));
        }
        i += 1;
    }
    proof {
        assert(lock_entries(*l).take(n as int) == lock_entries(*l));
    }
    out
}

/// Parses a lock file text and returns one dependency record per package, in
/// file order, or the parser's diagnostic.
pub fn lock_crates(text: &String) -> (r: Result<Vec<DependencyRecord>, String>)
    ensures
        match lock_parse_of(text@) {
            Ok(entries) => r is Ok && r->Ok_0@ == records_spec(entries),
            Err(e) => r is Err && r->Err_0@ == e,
        },
{
    match parse_lockfile(text.as_str()) {
        Ok(l) => {
            let entries = entries_of(&l);
            Ok(records_of(&entries))
        },
        Err(e) => Err(e),
    }
}

} // verus!
