//! The `[package]` name and version of a `Cargo.toml`, read with the `toml` crate.
use vstd::prelude::*;

verus! {

/// The `[package]` entries of a TOML document that the CLI reads: for `name` and
/// `version`, `None` when the entry is missing (or the document has no
/// `[package]` table), `Some(None)` when it is not a string.
pub struct TomlPackage {
    pub name: Option<Option<String>>,
    pub version: Option<Option<String>>,
}

/// The mathematical value of a [`TomlPackage`].
pub struct TomlPackageView {
    pub name: Option<Option<Seq<char>>>,
    pub version: Option<Option<Seq<char>>>,
}

/// The view of an optional, possibly non-string entry.
pub open spec fn entry_view(e: Option<Option<String>>) -> Option<Option<Seq<char>>> {
    match e {
        Some(Some(s)) => Some(Some(s@)),
        Some(None) => Some(None),
        None => None,
    }
}

impl View for TomlPackage {
    type V = TomlPackageView;

    open spec fn view(&self) -> TomlPackageView {
        TomlPackageView { name: entry_view(self.name), version: entry_view(self.version) }
    }
}

/// What the `toml` crate reads from a document's `[package]` table, or its error
/// message when the text is not TOML.
pub uninterp spec fn toml_package_of(text: Seq<char>) -> Result<TomlPackageView, Seq<char>>;

/// Parses a document with `toml::from_str::<toml::Value>` and reads
/// `package.name` and `package.version` with `Value::get` and `Value::as_str`; on a
/// parse error, the error's message (`to_string`). The contract names the result
/// by the text alone.
#[verifier::external_body]
fn parse_toml_package(text: &str) -> (r: Result<TomlPackage, String>)
    ensures
        match (r, toml_package_of(text@)) {
            (Ok(p), Ok(expected)) => p@ == expected,
            (Err(m), Err(expected)) => m@ == expected,
            _ => false,
        },
{
    match toml::from_str::<toml::Value>(text) {
        Err(e) => Err(e.to_string()),
        Ok(doc) => {
            let package = doc.get("package");
            Ok(TomlPackage {
                name: package.and_then(|p| p.get("name")).map(|v| v.as_str().map(|s| s.to_string())),
                version: package.and_then(|p| p.get("version")).map(|v| v.as_str().map(|s| s.to_string())),
            })
        },
    }
}

/// Reads the `[package]` entries of a document.
pub fn toml_package(text: &str) -> (r: Result<TomlPackage, String>)
    ensures
        match (r, toml_package_of(text@)) {
            (Ok(p), Ok(expected)) => p@ == expected,
            (Err(m), Err(expected)) => m@ == expected,
            _ => false,
        },
{
    parse_toml_package(text)
}

/// Whether reading the name and version does not stop on a missing entry:
/// the name must be there, and when it is a string the version must be there too.
pub open spec fn manifest_readable(p: TomlPackageView) -> bool {
    &&& p.name is Some
    &&& p.name->0 is Some ==> p.version is Some
}

/// The plugin's name and version, or the error when the name is not a string.
/// The version defaults to `0.0.0` when it is not a string.
pub open spec fn manifest_of(p: TomlPackageView) -> Result<(Seq<char>, Seq<char>), Seq<char>> {
    match p.name {
        Some(Some(name)) => Ok(
            (
                name,
                match p.version {
                    Some(Some(v)) => v,
                    _ => "0.0.0"@,
                },
            ),
        ),
        _ => Err("No se encontró [package].name en Cargo.toml"@),
    }
}

/// The view of a name/version result.
pub open spec fn identity_view(r: Result<(String, String), String>) -> Result<(Seq<char>, Seq<char>), Seq<char>> {
    match r {
        Ok((n, v)) => Ok((n@, v@)),
        Err(e) => Err(e@),
    }
}

/// The plugin's name and version from the `[package]` entries of its
/// `Cargo.toml`. Where an entry that is indexed is missing the CLI stops
/// (`index not found`), so such entries are left out.
pub fn read_plugin_manifest(p: &TomlPackage) -> (r: Result<(String, String), String>)
    requires
        manifest_readable(p@),
    ensures
        identity_view(r) == manifest_of(p@),
{
    match &p.name {
        Some(Some(name)) => {
            let version = match &p.version {
                Some(Some(v)) => v.clone(),
                _ => String::from_str("0.0.0"),
            };
            Ok((name.clone(), version))
        },
        _ => Err(String::from_str("No se encontró [package].name en Cargo.toml")),
    }
}

/// What reading a plugin's `Cargo.toml` gives: `None` where the CLI stops on a
/// missing entry, the parse error, or the name and version.
pub open spec fn plugin_manifest_of(text: Seq<char>) -> Option<Result<(Seq<char>, Seq<char>), Seq<char>>> {
    match toml_package_of(text) {
        Err(e) => Some(Err("Error parseando Cargo.toml: "@ + e)),
        Ok(p) => if manifest_readable(p) {
            Some(manifest_of(p))
        } else {
            None
        },
    }
}

/// Reads a plugin's name and version from the text of its `Cargo.toml`; `None`
/// when an entry that the CLI indexes is missing.
pub fn plugin_manifest(cargo_toml: &str) -> (r: Option<Result<(String, String), String>>)
    ensures
        match r {
            Some(x) => plugin_manifest_of(cargo_toml@) == Some(identity_view(x)),
            None => plugin_manifest_of(cargo_toml@) is None,
        },
{
    match toml_package(cargo_toml) {
        Err(e) => {
            let mut m = String::from_str("Error parseando Cargo.toml: ");
            m.append(e.as_str());
            Some(Err(m))
        },
        Ok(p) => {
            let readable = match &p.name {
                Some(Some(_)) => p.version.is_some(),
                Some(None) => true,
                None => false,
            };
            if readable {
                Some(read_plugin_manifest(&p))
            } else {
                None
            }
        },
    }
}

/// The SDK version recorded when the CLI is built: the `package.version` string
/// of the SDK's `Cargo.toml` next to it, `0.1.3` when that file is absent or the
/// version is not a string; `None` where the build stops (the file is not TOML,
/// or the entry is missing).
pub open spec fn sdk_version_of(manifest: Option<Seq<char>>) -> Option<Seq<char>> {
    match manifest {
        None => Some("0.1.3"@),
        Some(text) => match toml_package_of(text) {
            Err(_) => None,
            Ok(p) => match p.version {
                None => None,
                Some(Some(v)) => Some(v),
                Some(None) => Some("0.1.3"@),
            },
        },
    }
}

/// The SDK version from the text of the SDK's `Cargo.toml`, if it exists.
pub fn sdk_version(manifest: Option<&str>) -> (r: Option<String>)
    ensures
        match r {
            Some(v) => sdk_version_of(
                match manifest {
                    Some(t) => Some(t@),
                    None => None,
                },
            ) == Some(v@),
            None => sdk_version_of(
                match manifest {
                    Some(t) => Some(t@),
                    None => None,
                },
            ) is None,
        },
{
    match manifest {
        None => Some(String::from_str("0.1.3")),
        Some(text) => match toml_package(text) {
            Err(_) => None,
            Ok(p) => match p.version {
                None => None,
                Some(Some(v)) => Some(v),
                Some(None) => Some(String::from_str("0.1.3")),
            },
        },
    }
}

} // verus!
