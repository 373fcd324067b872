use homebruh::errors::{Error, FieldName};
use homebruh::manifest::{parse_catalog_entry, parse_exports, parse_manifest};

const FULL: &str = "name = \"demo\"\nversion = \"1.0\"\nfiles = \"bin\"\nstartup_script = \"setup.sh\"\ncleanup_script = \"clean.sh\"\nto_export = [\"a\", \"b\"]\n";

#[test]
fn parses_full_manifest() {
    let m = parse_manifest(FULL).unwrap();
    assert_eq!(m.name, "demo");
    assert_eq!(m.version, "1.0");
    assert_eq!(m.files, "bin");
    assert_eq!(m.startup_script, Some("setup.sh".to_string()));
    assert_eq!(m.cleanup_script, Some("clean.sh".to_string()));
    assert_eq!(m.to_export, vec!["a".to_string(), "b".to_string()]);
}

#[test]
fn optional_fields_default_to_absent() {
    let m = parse_manifest("name = \"d\"\nversion = \"1\"\nfiles = \"bin\"\n").unwrap();
    assert_eq!(m.startup_script, None);
    assert_eq!(m.cleanup_script, None);
    assert!(m.to_export.is_empty());
}

#[test]
fn missing_files_is_rejected() {
    let r = parse_manifest("name = \"d\"\nversion = \"1\"\n");
    assert_eq!(r, Err(Error::MissingRequiredField { field: FieldName::Files }));
}

#[test]
fn missing_name_is_reported_first() {
    let r = parse_manifest("version = \"1\"\n");
    assert_eq!(r, Err(Error::MissingRequiredField { field: FieldName::Name }));
}

#[test]
fn wrong_type_for_required_field() {
    let r = parse_manifest("name = \"d\"\nversion = \"1\"\nfiles = 3\n");
    assert_eq!(r, Err(Error::InvalidFieldType { field: FieldName::Files }));
}

#[test]
fn wrong_type_for_script_field() {
    let r = parse_manifest("name = \"d\"\nversion = \"1\"\nfiles = \"bin\"\nstartup_script = 7\n");
    assert_eq!(r, Err(Error::InvalidFieldType { field: FieldName::StartupScript }));
}

#[test]
fn exports_must_be_an_array_of_strings() {
    let mixed = "name = \"d\"\nversion = \"1\"\nfiles = \"bin\"\nto_export = [\"a\", 3]\n";
    assert_eq!(
        parse_manifest(mixed),
        Err(Error::InvalidFieldType { field: FieldName::ToExport })
    );
    let scalar = "name = \"d\"\nversion = \"1\"\nfiles = \"bin\"\nto_export = \"a\"\n";
    assert_eq!(
        parse_manifest(scalar),
        Err(Error::InvalidFieldType { field: FieldName::ToExport })
    );
}

#[test]
fn empty_export_array_is_accepted() {
    let m = parse_manifest("name = \"d\"\nversion = \"1\"\nfiles = \"bin\"\nto_export = []\n")
        .unwrap();
    assert!(m.to_export.is_empty());
}

#[test]
fn undecodable_text_is_malformed() {
    assert_eq!(parse_manifest("name = \"d"), Err(Error::MalformedManifest));
    assert_eq!(parse_manifest("== not toml =="), Err(Error::MalformedManifest));
}

#[test]
fn catalog_entry_round() {
    let c = parse_catalog_entry("link = \"http://x/p.bpkg\"\nsha256 = \"aa\"\n").unwrap();
    assert_eq!(c.link, "http://x/p.bpkg");
    assert_eq!(c.sha256, "aa");
}

#[test]
fn catalog_entry_requires_link_and_digest() {
    assert_eq!(
        parse_catalog_entry("sha256 = \"aa\"\n"),
        Err(Error::MissingRequiredField { field: FieldName::Link })
    );
    assert_eq!(
        parse_catalog_entry("link = \"http://x\"\n"),
        Err(Error::MissingRequiredField { field: FieldName::Sha256 })
    );
}

#[test]
fn exports_read_without_full_validation() {
    // uninstall reads exports even from a manifest missing required fields
    let ex = parse_exports("to_export = [\"a\"]\n").unwrap();
    assert_eq!(ex, vec!["a".to_string()]);
    assert!(parse_exports("name = \"d\"\n").unwrap().is_empty());
    assert_eq!(parse_exports("to_export = 3\n"),
        Err(Error::InvalidFieldType { field: FieldName::ToExport }));
}
