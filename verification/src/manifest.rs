//! Manifest reading: the package reference type, the library's error
//! kinds, and the step that turns one vendored manifest's text into a
//! package reference.
//!
//! TOML syntax itself is an outside concern: the library hands the text
//! to the `toml` crate and takes back the `package.name` and
//! `package.version` string fields, or the parse failure. Everything
//! around that call — which field combinations make a reference, which
//! make an error — is verified here.

use vstd::prelude::*;

verus! {

/// A package reference: one (name, version) pair identifying one archive
/// to mirror. The scanner only ever produces references whose name and
/// version are non-empty.
#[derive(Debug)]
pub struct Crate {
    pub name: String,
    pub version: String,
}

impl Crate {
    /// Builds a package reference from its two fields.
    pub fn new(name: String, version: String) -> (r: Self)
        ensures
            r.name == name,
            r.version == version,
    {
        Self { name, version }
    }
}

/// Everything that can go wrong while building the mirror.
#[derive(Debug, Clone, Copy, PartialEq, Eq, Structural)]
pub enum MirrorError {
    /// A filesystem read or write failed.
    Io,
    /// A manifest's text is not well-formed TOML.
    ManifestParse,
    /// A manifest lacks a usable `package.name` or `package.version`.
    MissingField,
    /// A network transport failure, or a non-success response status.
    Fetch,
    /// A package name that cannot be sharded reached the writer; this
    /// marks a defect in the caller, since the scanner never produces
    /// such a reference.
    InvalidAddress,
}

/// Whether the text is a well-formed TOML document.
pub uninterp spec fn toml_parses(s: Seq<char>) -> bool;

/// The string under `package.name` in the document, if the document has
/// one.
pub uninterp spec fn toml_package_name(s: Seq<char>) -> Option<Seq<char>>;

/// The string under `package.version` in the document, if the document
/// has one.
pub uninterp spec fn toml_package_version(s: Seq<char>) -> Option<Seq<char>>;

pub open spec fn opt_string_view(o: Option<String>) -> Option<Seq<char>> {
    match o {
        Some(s) => Some(s@),
        None => None,
    }
}

/// A field value counts only when it is present and non-empty.
pub open spec fn field_present(f: Option<Seq<char>>) -> bool {
    f matches Some(s) && s.len() > 0
}

/// Relies on the `toml` crate: `str::parse::<toml::Table>` parses the
/// document text, `Table::get` and `Value::get` look up the `package`
/// table and its fields, and `Value::as_str` reads a field that is a
/// string. All of them depend on the text alone.
#[verifier::external_body]
fn read_package_fields(s: &str) -> (r: Result<
    (Option<String>, Option<String>),
    toml::de::Error,
>)
    ensures
        r is Ok <==> toml_parses(s@),
        r matches Ok(f) ==> opt_string_view(f.0) == toml_package_name(s@),
        r matches Ok(f) ==> opt_string_view(f.1) == toml_package_version(s@),
{
    match s.parse::<toml::Table>() {
        Err(e) => Err(e),
        Ok(t) => Ok(
            (
                t.get("package").and_then(|p| p.get("name")).and_then(|f| f.as_str()).map(
                    |f| f.to_owned(),
                ),
                t.get("package").and_then(|p| p.get("version")).and_then(|f| f.as_str()).map(
                    |f| f.to_owned(),
                ),
            ),
        ),
    }
}

/// The error type of the `toml` crate's document parser; carried only
/// long enough to be mapped to `MirrorError::ManifestParse`.
#[verifier::external_type_specification]
#[verifier::external_body]
pub struct ExTomlDeError(toml::de::Error);

/// Turns one manifest's text into a package reference: text that is not
/// well-formed TOML is a `ManifestParse` error; well-formed text whose
/// `package.name` or `package.version` is absent, not a string, or empty
/// is a `MissingField` error; anything else yields the reference with
/// exactly those two fields.
pub fn parse_manifest(s: &str) -> (r: Result<Crate, MirrorError>)
    ensures
        !toml_parses(s@) <==> r == Err::<Crate, MirrorError>(MirrorError::ManifestParse),
        (toml_parses(s@) && !(field_present(toml_package_name(s@)) && field_present(
            toml_package_version(s@),
        ))) <==> r == Err::<Crate, MirrorError>(MirrorError::MissingField),
        r matches Ok(c) <==> (toml_parses(s@) && field_present(toml_package_name(s@))
            && field_present(toml_package_version(s@))),
        r matches Ok(c) ==> Some(c.name@) == toml_package_name(s@) && Some(c.version@)
            == toml_package_version(s@),
        r matches Ok(c) ==> c.name@.len() > 0 && c.version@.len() > 0,
{
    match read_package_fields(s) {
        Err(_) => Err(MirrorError::ManifestParse),
        Ok((name_field, version_field)) => match (name_field, version_field) {
            (Some(name), Some(version)) => {
                if name.as_str().is_empty() || version.as_str().is_empty() {
                    Err(MirrorError::MissingField)
                } else {
                    Ok(Crate::new(name, version))
                }
            },
            _ => Err(MirrorError::MissingField),
        },
    }
}

/// Recognizes the one file name the scanner treats as a manifest.
pub fn is_manifest_file_name(file_name: &str) -> (r: bool)
    ensures
        r == (file_name@ == "Cargo.toml"@),
{
    proof {
        reveal_strlit("Cargo.toml");
    }
    let pat = "Cargo.toml";
    if file_name.unicode_len() != 10 {
        return false;
    }
    let mut i: usize = 0;
    while i < 10
        invariant
            0 <= i <= 10,
            file_name@.len() == 10,
            pat@ == "Cargo.toml"@,
            pat@.len() == 10,
            forall|j: int| 0 <= j < i ==> file_name@[j] == pat@[j],
        decreases 10 - i,
    {
        if file_name.get_char(i) != pat.get_char(i) {
            return false;
        }
        i += 1;
    }
    proof {
        assert(file_name@ =~= pat@);
    }
    true
}

} // verus!
