//! Manifest and catalog-entry decoding and validation.
//!
//! The `toml` crate does the decoding; what it hands back is reduced to a
//! [`RawDoc`], a plain list of top-level `key = value` pairs holding only
//! what the package manager reads (strings and arrays of strings).  All
//! validation — required fields, optional fields, field types — is verified
//! against [`spec_validate_manifest`] and [`spec_validate_catalog`].

use vstd::prelude::*;
use crate::errors::{Error, FieldName};

verus! {

/// One decoded TOML value, reduced to what the package manager reads.
#[derive(Debug, Clone, PartialEq)]
pub enum RawValue {
    /// A TOML string.
    Str(String),
    /// A TOML array whose elements are all strings.
    StrList(Vec<String>),
    /// Any other TOML value (integer, float, boolean, datetime, table,
    /// or an array holding a non-string).
    Other,
}

/// The mathematical value of a [`RawValue`].
pub enum RawValueV {
    Str(Seq<char>),
    StrList(Seq<Seq<char>>),
    Other,
}

impl View for RawValue {
    type V = RawValueV;

    open spec fn view(&self) -> RawValueV {
        match self {
            RawValue::Str(s) => RawValueV::Str(s@),
            RawValue::StrList(l) => RawValueV::StrList(l.deep_view()),
            RawValue::Other => RawValueV::Other,
        }
    }
}

/// One top-level `key = value` pair of a decoded document.
#[derive(Debug, Clone, PartialEq)]
pub struct RawEntry {
    pub key: String,
    pub value: RawValue,
}

/// The mathematical value of a [`RawEntry`].
pub struct RawEntryV {
    pub key: Seq<char>,
    pub value: RawValueV,
}

impl View for RawEntry {
    type V = RawEntryV;

    open spec fn view(&self) -> RawEntryV {
        RawEntryV { key: self.key@, value: self.value@ }
    }
}

/// A decoded TOML document: its top-level pairs, in the order the decoder
/// yields them (sorted by key — TOML rejects duplicate keys).
#[derive(Debug, Clone, PartialEq)]
pub struct RawDoc {
    pub entries: Vec<RawEntry>,
}

impl View for RawDoc {
    type V = Seq<RawEntryV>;

    open spec fn view(&self) -> Seq<RawEntryV> {
        self.entries@.map_values(|e: RawEntry| e@)
    }
}

/// A validated package manifest.
///
/// `startup_script` and `cleanup_script` default to absent — a script is
/// only ever run when its field is present.  An absent `to_export` is kept
/// as the empty list: it exports nothing, exactly like an empty array.
#[derive(Debug, Clone, PartialEq)]
pub struct Manifest {
    pub name: String,
    pub version: String,
    pub files: String,
    pub startup_script: Option<String>,
    pub cleanup_script: Option<String>,
    pub to_export: Vec<String>,
}

/// The mathematical value of a [`Manifest`].
pub struct ManifestV {
    pub name: Seq<char>,
    pub version: Seq<char>,
    pub files: Seq<char>,
    pub startup_script: Option<Seq<char>>,
    pub cleanup_script: Option<Seq<char>>,
    pub to_export: Seq<Seq<char>>,
}

impl View for Manifest {
    type V = ManifestV;

    open spec fn view(&self) -> ManifestV {
        ManifestV {
            name: self.name@,
            version: self.version@,
            files: self.files@,
            startup_script: match self.startup_script {
                Option::Some(s) => Option::Some(s@),
                Option::None => Option::None,
            },
            cleanup_script: match self.cleanup_script {
                Option::Some(s) => Option::Some(s@),
                Option::None => Option::None,
            },
            to_export: self.to_export.deep_view(),
        }
    }
}

/// A remote catalog entry: where a package's archive lives and the digest
/// the downloaded bytes must have.
#[derive(Debug, Clone, PartialEq)]
pub struct CatalogEntry {
    pub link: String,
    pub sha256: String,
}

/// The mathematical value of a [`CatalogEntry`].
pub struct CatalogEntryV {
    pub link: Seq<char>,
    pub sha256: Seq<char>,
}

impl View for CatalogEntry {
    type V = CatalogEntryV;

    open spec fn view(&self) -> CatalogEntryV {
        CatalogEntryV { link: self.link@, sha256: self.sha256@ }
    }
}

/// The first value bound to `key`, if any.  TOML rejects duplicate keys, so
/// on a decoded document this is the only binding.
pub open spec fn spec_lookup(doc: Seq<RawEntryV>, key: Seq<char>) -> Option<RawValueV>
    decreases doc.len(),
{
    if doc.len() == 0 {
        Option::None
    } else if doc.first().key == key {
        Option::Some(doc.first().value)
    } else {
        spec_lookup(doc.drop_first(), key)
    }
}

/// A required field: absent is an error, and so is any non-string value.
pub open spec fn spec_required_str(doc: Seq<RawEntryV>, key: Seq<char>, field: FieldName) -> Result<
    Seq<char>,
    Error,
> {
    match spec_lookup(doc, key) {
        Option::None => Err(Error::MissingRequiredField { field }),
        Option::Some(RawValueV::Str(s)) => Ok(s),
        Option::Some(_) => Err(Error::InvalidFieldType { field }),
    }
}

/// An optional string field: absent stays absent; a present value of any
/// other type is an error, never silently ignored.
pub open spec fn spec_optional_str(doc: Seq<RawEntryV>, key: Seq<char>, field: FieldName) -> Result<
    Option<Seq<char>>,
    Error,
> {
    match spec_lookup(doc, key) {
        Option::None => Ok(Option::None),
        Option::Some(RawValueV::Str(s)) => Ok(Option::Some(s)),
        Option::Some(_) => Err(Error::InvalidFieldType { field }),
    }
}

/// The `to_export` list: absent exports nothing; anything but an array of
/// strings is an error.
pub open spec fn spec_export_list(doc: Seq<RawEntryV>) -> Result<Seq<Seq<char>>, Error> {
    match spec_lookup(doc, "to_export"@) {
        Option::None => Ok(Seq::empty()),
        Option::Some(RawValueV::StrList(l)) => Ok(l),
        Option::Some(_) => Err(Error::InvalidFieldType { field: FieldName::ToExport }),
    }
}

/// Manifest validation: `name`, `version` and `files` are required strings,
/// checked in that order; then the optional script fields and the export
/// list are checked for type.  The first fault decides the error.
pub open spec fn spec_validate_manifest(doc: Seq<RawEntryV>) -> Result<ManifestV, Error> {
    match spec_required_str(doc, "name"@, FieldName::Name) {
        Err(e) => Err(e),
        Ok(name) => match spec_required_str(doc, "version"@, FieldName::Version) {
            Err(e) => Err(e),
            Ok(version) => match spec_required_str(doc, "files"@, FieldName::Files) {
                Err(e) => Err(e),
                Ok(files) => match spec_optional_str(
                    doc,
                    "startup_script"@,
                    FieldName::StartupScript,
                ) {
                    Err(e) => Err(e),
                    Ok(startup_script) => match spec_optional_str(
                        doc,
                        "cleanup_script"@,
                        FieldName::CleanupScript,
                    ) {
                        Err(e) => Err(e),
                        Ok(cleanup_script) => match spec_export_list(doc) {
                            Err(e) => Err(e),
                            Ok(to_export) => Ok(
                                ManifestV {
                                    name,
                                    version,
                                    files,
                                    startup_script,
                                    cleanup_script,
                                    to_export,
                                },
                            ),
                        },
                    },
                },
            },
        },
    }
}

/// Catalog-entry validation: `link` and `sha256` are required strings,
/// checked in that order.
pub open spec fn spec_validate_catalog(doc: Seq<RawEntryV>) -> Result<CatalogEntryV, Error> {
    match spec_required_str(doc, "link"@, FieldName::Link) {
        Err(e) => Err(e),
        Ok(link) => match spec_required_str(doc, "sha256"@, FieldName::Sha256) {
            Err(e) => Err(e),
            Ok(sha256) => Ok(CatalogEntryV { link, sha256 }),
        },
    }
}

/// What `toml::from_str::<toml::Table>` decodes a text to, reduced to the
/// top-level pairs a [`RawDoc`] keeps — `None` exactly when the text is not
/// a valid TOML document.
pub uninterp spec fn toml_doc_of(text: Seq<char>) -> Option<Seq<RawEntryV>>;

/// Declares `toml::Value`, the decoder's value type, so that the trusted
/// reduction below can take it; the library never looks inside one.
#[verifier::external_type_specification]
#[verifier::external_body]
pub struct ExTomlValue(toml::Value);

/// Part of `parse_toml`'s trusted body: reduces one `toml::Value` to a
/// [`RawValue`], one arm per variant; an array is kept only if every
/// element is a string.
#[verifier::external_body]
fn reduce_value(v: toml::Value) -> RawValue {
    match v {
        toml::Value::String(s) => RawValue::Str(s),
        toml::Value::Array(items) => {
            let mut out: Vec<String> = Vec::new();
            for item in items {
                match item {
                    toml::Value::String(s) => out.push(s),
                    _ => return RawValue::Other,
                }
            }
            RawValue::StrList(out)
        },
        _ => RawValue::Other,
    }
}

/// Relies on `toml::from_str::<toml::Table>`: decodes a TOML document into
/// its top-level key/value pairs, a function of the text alone; fails
/// exactly when the text is not valid TOML.
#[verifier::external_body]
fn parse_toml(text: &str) -> (r: Option<RawDoc>)
    ensures
        match r {
            Option::Some(d) => toml_doc_of(text@) == Option::Some(d@),
            Option::None => toml_doc_of(text@) is None,
        },
{
    let table: toml::Table = match toml::from_str(text) {
        Ok(t) => t,
        Err(_) => return None,
    };
    let mut entries: Vec<RawEntry> = Vec::new();
    for (key, value) in table {
        entries.push(RawEntry { key, value: reduce_value(value) });
    }
    Some(RawDoc { entries })
}

/// The first entry bound to `key`, if any.
pub fn lookup<'a>(doc: &'a RawDoc, key: &str) -> (r: Option<&'a RawValue>)
    ensures
        match r {
            Option::Some(v) => spec_lookup(doc@, key@) == Option::Some(v@),
            Option::None => spec_lookup(doc@, key@) is None,
        },
{
    let needle: String = key.to_owned();
    let n = doc.entries.len();
    proof {
        assert(doc@.skip(0) == doc@);
    }
    for i in 0..n
        invariant
            n == doc.entries@.len(),
            doc@ == doc.entries@.map_values(|e: RawEntry| e@),
            needle@ == key@,
            spec_lookup(doc@, key@) == spec_lookup(doc@.skip(i as int), key@),
    {
        proof {
            assert(doc@[i as int] == doc.entries@[i as int]@);
            assert(doc@.skip(i as int).first() == doc@[i as int]);
        }
        if doc.entries[i].key == needle {
            return Some(&doc.entries[i].value);
        }
        proof {
            assert(doc@.skip(i as int).drop_first() =~= doc@.skip(i + 1));
        }
    }
    proof {
        assert(doc@.skip(n as int) =~= Seq::<RawEntryV>::empty());
    }
    None
}

/// Copies a vector of strings; the copy has the same value.
fn clone_string_vec(v: &Vec<String>) -> (r: Vec<String>)
    ensures
        r@ == v@,
{
    let mut out: Vec<String> = Vec::new();
    let n = v.len();
    for i in 0..n
        invariant
            n == v@.len(),
            out@ =~= v@.subrange(0, i as int),
    {
        out.push(v[i].clone());
    }
    proof {
        assert(v@.subrange(0, n as int) =~= v@);
    }
    out
}

fn required_str(doc: &RawDoc, key: &str, field: FieldName) -> (r: Result<String, Error>)
    ensures
        match spec_required_str(doc@, key@, field) {
            Ok(s) => r matches Ok(got) && got@ == s,
            Err(e) => r matches Err(got) && got == e,
        },
{
    match lookup(doc, key) {
        Option::None => Err(Error::MissingRequiredField { field }),
        Option::Some(v) => match v {
            RawValue::Str(s) => Ok(s.clone()),
            _ => Err(Error::InvalidFieldType { field }),
        },
    }
}

fn optional_str(doc: &RawDoc, key: &str, field: FieldName) -> (r: Result<Option<String>, Error>)
    ensures
        match spec_optional_str(doc@, key@, field) {
            Ok(s) => r matches Ok(got) && (match got {
                Option::Some(g) => s matches Option::Some(sv) && g@ == sv,
                Option::None => s is None,
            }),
            Err(e) => r matches Err(got) && got == e,
        },
{
    match lookup(doc, key) {
        Option::None => Ok(None),
        Option::Some(v) => match v {
            RawValue::Str(s) => Ok(Some(s.clone())),
            _ => Err(Error::InvalidFieldType { field }),
        },
    }
}

/// Reads the `to_export` list of a decoded document; this is all uninstall
/// needs of a manifest.
pub fn read_exports(doc: &RawDoc) -> (r: Result<Vec<String>, Error>)
    ensures
        match spec_export_list(doc@) {
            Ok(l) => r matches Ok(got) && got.deep_view() == l,
            Err(e) => r matches Err(got) && got == e,
        },
{
    match lookup(doc, "to_export") {
        Option::None => {
            let out: Vec<String> = Vec::new();
            proof {
                assert(out.deep_view() =~= Seq::<Seq<char>>::empty());
            }
            Ok(out)
        },
        Option::Some(v) => match v {
            RawValue::StrList(l) => {
                let out = clone_string_vec(l);
                proof {
                    assert(out.deep_view() =~= l.deep_view());
                }
                Ok(out)
            },
            _ => Err(Error::InvalidFieldType { field: FieldName::ToExport }),
        },
    }
}

/// Validates a decoded document as a package manifest.
pub fn validate_manifest_doc(doc: &RawDoc) -> (r: Result<Manifest, Error>)
    ensures
        match spec_validate_manifest(doc@) {
            Ok(m) => r matches Ok(got) && got@ == m,
            Err(e) => r matches Err(got) && got == e,
        },
{
    let name = match required_str(doc, "name", FieldName::Name) {
        Ok(s) => s,
        Err(e) => return Err(e),
    };
    let version = match required_str(doc, "version", FieldName::Version) {
        Ok(s) => s,
        Err(e) => return Err(e),
    };
    let files = match required_str(doc, "files", FieldName::Files) {
        Ok(s) => s,
        Err(e) => return Err(e),
    };
    let startup_script = match optional_str(doc, "startup_script", FieldName::StartupScript) {
        Ok(s) => s,
        Err(e) => return Err(e),
    };
    let cleanup_script = match optional_str(doc, "cleanup_script", FieldName::CleanupScript) {
        Ok(s) => s,
        Err(e) => return Err(e),
    };
    let to_export = match read_exports(doc) {
        Ok(l) => l,
        Err(e) => return Err(e),
    };
    Ok(Manifest { name, version, files, startup_script, cleanup_script, to_export })
}

/// Validates a decoded document as a remote catalog entry.
pub fn validate_catalog_doc(doc: &RawDoc) -> (r: Result<CatalogEntry, Error>)
    ensures
        match spec_validate_catalog(doc@) {
            Ok(c) => r matches Ok(got) && got@ == c,
            Err(e) => r matches Err(got) && got == e,
        },
{
    let link = match required_str(doc, "link", FieldName::Link) {
        Ok(s) => s,
        Err(e) => return Err(e),
    };
    let sha256 = match required_str(doc, "sha256", FieldName::Sha256) {
        Ok(s) => s,
        Err(e) => return Err(e),
    };
    Ok(CatalogEntry { link, sha256 })
}

/// Decodes and validates a package manifest.  An undecodable text is
/// `MalformedManifest`; a decodable one is validated field by field.
pub fn parse_manifest(text: &str) -> (r: Result<Manifest, Error>)
    ensures
        match toml_doc_of(text@) {
            Option::None => r matches Err(got) && got == Error::MalformedManifest,
            Option::Some(doc) => match spec_validate_manifest(doc) {
                Ok(m) => r matches Ok(got) && got@ == m,
                Err(e) => r matches Err(got) && got == e,
            },
        },
{
    match parse_toml(text) {
        Option::None => Err(Error::MalformedManifest),
        Option::Some(doc) => validate_manifest_doc(&doc),
    }
}

/// Decodes a manifest only as far as uninstall needs it: its `to_export`
/// list.  Required fields are not checked here — uninstall removes a
/// package even when its manifest would no longer validate.
pub fn parse_exports(text: &str) -> (r: Result<Vec<String>, Error>)
    ensures
        match toml_doc_of(text@) {
            Option::None => r matches Err(got) && got == Error::MalformedManifest,
            Option::Some(doc) => match spec_export_list(doc) {
                Ok(l) => r matches Ok(got) && got.deep_view() == l,
                Err(e) => r matches Err(got) && got == e,
            },
        },
{
    match parse_toml(text) {
        Option::None => Err(Error::MalformedManifest),
        Option::Some(doc) => read_exports(&doc),
    }
}

/// Decodes and validates a remote catalog entry.
pub fn parse_catalog_entry(text: &str) -> (r: Result<CatalogEntry, Error>)
    ensures
        match toml_doc_of(text@) {
            Option::None => r matches Err(got) && got == Error::MalformedManifest,
            Option::Some(doc) => match spec_validate_catalog(doc) {
                Ok(c) => r matches Ok(got) && got@ == c,
                Err(e) => r matches Err(got) && got == e,
            },
        },
{
    match parse_toml(text) {
        Option::None => Err(Error::MalformedManifest),
        Option::Some(doc) => validate_catalog_doc(&doc),
    }
}

} // verus!
