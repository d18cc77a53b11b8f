use vstd::prelude::*;
use crate::model::LicenseField;

verus! {

/// What parsing a manifest text yields: its package section's license field
/// (`None` when there is no package section or no license), or the parser's
/// diagnostic.
pub uninterp spec fn manifest_parse_of(text: Seq<char>) -> Result<Option<LicenseField>, Seq<char>>;

/// Relies on `toml::from_str::<cargo_toml::Manifest>`: the outcome depends on
/// the text alone. The package section's `license` is handed back with
/// `Inheritable::Set` and `Inheritable::Inherited` told apart.
#[verifier::external_body]
fn parse_manifest(text: &str) -> (r: Result<Option<LicenseField>, String>)
    ensures
        match r {
            Ok(f) => manifest_parse_of(text@) == Ok::<Option<LicenseField>, Seq<char>>(f),
            Err(e) => manifest_parse_of(text@) == Err::<Option<LicenseField>, Seq<char>>(e@),
        },
{
    match toml::from_str::<cargo_toml::Manifest>(text) {
        Ok(m) => Ok(m.package.and_then(|p| p.license).map(|l| match l {
            cargo_toml::Inheritable::Set(s) => LicenseField::Explicit(s),
            cargo_toml::Inheritable::Inherited => LicenseField::FromWorkspace,
        })),
        Err(e) => Err(format!("{:?}", e)),
    }
}

/// The license a project reports: only one set explicitly on its own package.
pub open spec fn reported_license(f: Option<LicenseField>) -> Option<String> {
    match f {
        Some(LicenseField::Explicit(s)) => Some(s),
        _ => None,
    }
}

/// Collapses a license field to the reported license; an inherited one counts as absent.
pub fn license_from_field(f: &Option<LicenseField>) -> (r: Option<String>)
    ensures
        r == reported_license(*f),
{
    match f {
        Some(LicenseField::Explicit(s)) => Some(s.clone()),
        _ => None,
    }
}

/// Parses a manifest text and returns the license it reports, or the parser's diagnostic.
pub fn manifest_license(text: &String) -> (r: Result<Option<String>, String>)
    ensures
        match manifest_parse_of(text@) {
            Ok(f) => r == Ok::<Option<String>, String>(reported_license(f)),
            Err(e) => r is Err && r->Err_0@ == e,
        },
{
    match parse_manifest(text.as_str()) {
        Ok(f) => Ok(license_from_field(&f)),
        Err(e) => Err(e),
    }
}

} // verus!
