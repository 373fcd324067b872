//! The error taxonomy of the package manager.

use vstd::prelude::*;

verus! {

/// A field of a package manifest or of a remote catalog entry.
#[derive(Debug, Clone, Copy, PartialEq, Eq, Structural)]
pub enum FieldName {
    Name,
    Version,
    Files,
    StartupScript,
    CleanupScript,
    ToExport,
    Link,
    Sha256,
}

/// Everything that can make an operation fail.
///
/// Validation failures during install trigger rollback (deletion of the
/// package's destination directory) before the error is surfaced; the error
/// itself is never swallowed.
#[derive(Debug, Clone, PartialEq)]
pub enum Error {
    /// Transport or HTTP failure while fetching a catalog entry or archive.
    NetworkError,
    /// Downloaded bytes failed the SHA-256 integrity check.
    /// Both digests are hex strings held as ASCII bytes.
    HashMismatch { expected: Vec<u8>, found: Vec<u8> },
    /// The manifest (or a catalog entry) could not be decoded at all.
    MalformedManifest,
    /// A required manifest or catalog field is absent.
    MissingRequiredField { field: FieldName },
    /// A manifest or catalog field is present but has the wrong type.
    InvalidFieldType { field: FieldName },
    /// The archive could not be unpacked.
    ExtractionError,
    /// The package directory holds no `bruh.toml`.
    ManifestNotFound,
    /// A lifecycle script named by the manifest does not exist.
    ScriptNotFound,
    /// A lifecycle script exited with a nonzero status.
    ScriptFailed { code: i32 },
    /// A local package file to install from does not exist.
    FileNotFound,
    /// Generic I/O failure on create, delete or symlink.
    FilesystemError,
}

} // verus!
