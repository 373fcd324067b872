//! The lifecycle engine: install and uninstall as pure state machines.
//!
//! The engine never touches the filesystem.  A non-terminal run has exactly
//! one pending [`Action`]; the driver performs it and reports an [`Event`],
//! and [`InstallRun::step`] / [`UninstallRun::step`] decide what comes next.
//! All decisions — when to roll back, which error to surface, in what order
//! scripts run and exports are created — are verified against the spec-level
//! transition functions in this module.
//!
//! Install walks `Extracting → ReadingManifest → RunningStartup →
//! Exporting → RunningCleanup → Installed`.  Any failure between extraction
//! and the cleanup script enters `RollingBack`, whose single action deletes
//! the whole destination directory, so a failed install leaves either
//! nothing or a fully installed package.  One deliberate asymmetry: a
//! symlink-creation failure while exporting aborts without rollback,
//! leaving earlier symlinks and the package directory in place.

use vstd::prelude::*;
use vstd::string::StringSliceAdditionalSpecFns;
use crate::errors::Error;
use crate::integrity::{verify, spec_sha256_hex, spec_eq_nocase};
use crate::manifest::{
    Manifest, ManifestV, parse_manifest, parse_exports, spec_validate_manifest, spec_export_list,
    toml_doc_of,
};
use crate::store::{
    package_dir, manifest_path, in_package, export_target, export_link, clean_package_name,
    spec_package_dir, spec_manifest_path, spec_in_package, spec_export_target, spec_export_link,
    spec_clean_name,
};

verus! {

/// One effect the engine asks its driver to perform.
#[derive(Debug, Clone, PartialEq)]
pub enum Action {
    /// Unpack the archive (held by the driver) into `dest`.
    ExtractArchive { dest: String },
    /// Read the file at `path` to a string.
    ReadManifest { path: String },
    /// If the file at `path` exists, run it as a subprocess and wait.
    RunScript { path: String },
    /// Create a symlink at `link` pointing to `target`.
    CreateSymlink { target: String, link: String },
    /// Remove the file or symlink at `path`.
    RemoveFile { path: String },
    /// Recursively delete the directory `dir`.
    RemoveDir { dir: String },
}

/// The mathematical value of an [`Action`].
pub enum ActionV {
    ExtractArchive { dest: Seq<char> },
    ReadManifest { path: Seq<char> },
    RunScript { path: Seq<char> },
    CreateSymlink { target: Seq<char>, link: Seq<char> },
    RemoveFile { path: Seq<char> },
    RemoveDir { dir: Seq<char> },
}

impl View for Action {
    type V = ActionV;

    open spec fn view(&self) -> ActionV {
        match self {
            Action::ExtractArchive { dest } => ActionV::ExtractArchive { dest: dest@ },
            Action::ReadManifest { path } => ActionV::ReadManifest { path: path@ },
            Action::RunScript { path } => ActionV::RunScript { path: path@ },
            Action::CreateSymlink { target, link } => ActionV::CreateSymlink {
                target: target@,
                link: link@,
            },
            Action::RemoveFile { path } => ActionV::RemoveFile { path: path@ },
            Action::RemoveDir { dir } => ActionV::RemoveDir { dir: dir@ },
        }
    }
}

/// The driver's report of how an action went.
#[derive(Debug, Clone, PartialEq)]
pub enum Event {
    /// The action succeeded (extract, symlink, remove).
    Succeeded,
    /// The action failed with an I/O error.
    IoFailed,
    /// Reading the manifest produced this text.
    FileRead { text: String },
    /// The manifest file does not exist.
    FileAbsent,
    /// The script file does not exist.
    ScriptAbsent,
    /// The script ran to completion and exited with this status code.
    ScriptExited { code: i32 },
}

/// The mathematical value of an [`Event`].
pub enum EventV {
    Succeeded,
    IoFailed,
    FileRead { text: Seq<char> },
    FileAbsent,
    ScriptAbsent,
    ScriptExited { code: i32 },
}

impl View for Event {
    type V = EventV;

    open spec fn view(&self) -> EventV {
        match self {
            Event::Succeeded => EventV::Succeeded,
            Event::IoFailed => EventV::IoFailed,
            Event::FileRead { text } => EventV::FileRead { text: text@ },
            Event::FileAbsent => EventV::FileAbsent,
            Event::ScriptAbsent => EventV::ScriptAbsent,
            Event::ScriptExited { code } => EventV::ScriptExited { code: *code },
        }
    }
}

/// Which events may answer which action.
pub open spec fn spec_event_fits(a: ActionV, ev: EventV) -> bool {
    match a {
        ActionV::ExtractArchive { .. } => ev is Succeeded || ev is IoFailed,
        ActionV::ReadManifest { .. } => ev is FileRead || ev is FileAbsent,
        ActionV::RunScript { .. } => ev is ScriptAbsent || ev is ScriptExited,
        ActionV::CreateSymlink { .. } => ev is Succeeded || ev is IoFailed,
        ActionV::RemoveFile { .. } => ev is Succeeded || ev is IoFailed,
        ActionV::RemoveDir { .. } => ev is Succeeded || ev is IoFailed,
    }
}

/// Where an install stands.
#[derive(Debug, Clone, PartialEq)]
pub enum InstallState {
    /// Waiting for the archive to be unpacked into the destination.
    Extracting,
    /// Waiting for the manifest text from the destination.
    ReadingManifest,
    /// The manifest validated; its startup script is being run.
    RunningStartup { manifest: Manifest },
    /// Export symlinks are being created, `next` is the index of the
    /// pending one.
    Exporting { manifest: Manifest, next: usize },
    /// Exports are in place; the cleanup script is being run.
    RunningCleanup { manifest: Manifest },
    /// A failure occurred; the destination directory is being deleted
    /// before `err` is surfaced.
    RollingBack { err: Error },
    /// Terminal success: no further mutation.
    Installed { manifest: Manifest },
    /// Terminal failure.
    Failed { err: Error },
}

/// The mathematical value of an [`InstallState`].
pub enum InstallStateV {
    Extracting,
    ReadingManifest,
    RunningStartup { manifest: ManifestV },
    Exporting { manifest: ManifestV, next: int },
    RunningCleanup { manifest: ManifestV },
    RollingBack { err: Error },
    Installed { manifest: ManifestV },
    Failed { err: Error },
}

impl View for InstallState {
    type V = InstallStateV;

    open spec fn view(&self) -> InstallStateV {
        match self {
            InstallState::Extracting => InstallStateV::Extracting,
            InstallState::ReadingManifest => InstallStateV::ReadingManifest,
            InstallState::RunningStartup { manifest } => InstallStateV::RunningStartup {
                manifest: manifest@,
            },
            InstallState::Exporting { manifest, next } => InstallStateV::Exporting {
                manifest: manifest@,
                next: *next as int,
            },
            InstallState::RunningCleanup { manifest } => InstallStateV::RunningCleanup {
                manifest: manifest@,
            },
            InstallState::RollingBack { err } => InstallStateV::RollingBack { err: *err },
            InstallState::Installed { manifest } => InstallStateV::Installed {
                manifest: manifest@,
            },
            InstallState::Failed { err } => InstallStateV::Failed { err: *err },
        }
    }
}

/// States that carry a manifest or an index keep them well-formed.
pub open spec fn install_state_inv(s: InstallStateV) -> bool {
    match s {
        InstallStateV::RunningStartup { manifest } => manifest.startup_script is Some,
        InstallStateV::Exporting { manifest, next } => 0 <= next < manifest.to_export.len(),
        InstallStateV::RunningCleanup { manifest } => manifest.cleanup_script is Some,
        _ => true,
    }
}

/// One install in progress.
#[derive(Debug, Clone, PartialEq)]
pub struct InstallRun {
    /// The application data root.
    pub root: String,
    /// The package name; the destination directory is derived from it.
    pub package: String,
    pub state: InstallState,
}

/// The mathematical value of an [`InstallRun`].
pub struct InstallRunV {
    pub root: Seq<char>,
    pub package: Seq<char>,
    pub state: InstallStateV,
}

impl View for InstallRun {
    type V = InstallRunV;

    open spec fn view(&self) -> InstallRunV {
        InstallRunV { root: self.root@, package: self.package@, state: self.state@ }
    }
}

/// The pending action of an install, `None` exactly in the terminal states.
pub open spec fn spec_install_action(r: InstallRunV) -> Option<ActionV> {
    let dest = spec_package_dir(r.root, r.package);
    match r.state {
        InstallStateV::Extracting => Option::Some(ActionV::ExtractArchive { dest }),
        InstallStateV::ReadingManifest => Option::Some(
            ActionV::ReadManifest { path: spec_manifest_path(dest) },
        ),
        InstallStateV::RunningStartup { manifest } => Option::Some(
            ActionV::RunScript {
                path: spec_in_package(dest, manifest.startup_script->Some_0),
            },
        ),
        InstallStateV::Exporting { manifest, next } => Option::Some(
            ActionV::CreateSymlink {
                target: spec_export_target(dest, manifest.files, manifest.to_export[next]),
                link: spec_export_link(r.root, manifest.to_export[next]),
            },
        ),
        InstallStateV::RunningCleanup { manifest } => Option::Some(
            ActionV::RunScript {
                path: spec_in_package(dest, manifest.cleanup_script->Some_0),
            },
        ),
        InstallStateV::RollingBack { .. } => Option::Some(ActionV::RemoveDir { dir: dest }),
        InstallStateV::Installed { .. } => Option::None,
        InstallStateV::Failed { .. } => Option::None,
    }
}

/// After a successful export phase: run the cleanup script if there is one,
/// else the install is complete.
pub open spec fn spec_after_exports(m: ManifestV) -> InstallStateV {
    if m.cleanup_script is Some {
        InstallStateV::RunningCleanup { manifest: m }
    } else {
        InstallStateV::Installed { manifest: m }
    }
}

/// After a successful startup phase: create exports if any are listed.
pub open spec fn spec_after_startup(m: ManifestV) -> InstallStateV {
    if m.to_export.len() > 0 {
        InstallStateV::Exporting { manifest: m, next: 0 }
    } else {
        spec_after_exports(m)
    }
}

/// After validation: run the startup script if there is one.
pub open spec fn spec_after_validation(m: ManifestV) -> InstallStateV {
    if m.startup_script is Some {
        InstallStateV::RunningStartup { manifest: m }
    } else {
        spec_after_startup(m)
    }
}

/// The install transition function.
pub open spec fn spec_install_step(s: InstallStateV, ev: EventV) -> InstallStateV {
    match s {
        InstallStateV::Extracting => if ev is Succeeded {
            InstallStateV::ReadingManifest
        } else {
            InstallStateV::RollingBack { err: Error::ExtractionError }
        },
        InstallStateV::ReadingManifest => match ev {
            EventV::FileRead { text } => match toml_doc_of(text) {
                Option::None => InstallStateV::RollingBack { err: Error::MalformedManifest },
                Option::Some(doc) => match spec_validate_manifest(doc) {
                    Ok(m) => spec_after_validation(m),
                    Err(e) => InstallStateV::RollingBack { err: e },
                },
            },
            _ => InstallStateV::RollingBack { err: Error::ManifestNotFound },
        },
        InstallStateV::RunningStartup { manifest } => match ev {
            EventV::ScriptExited { code } => if code == 0 {
                spec_after_startup(manifest)
            } else {
                InstallStateV::RollingBack { err: Error::ScriptFailed { code } }
            },
            _ => InstallStateV::RollingBack { err: Error::ScriptNotFound },
        },
        InstallStateV::Exporting { manifest, next } => if ev is Succeeded {
            if next + 1 < manifest.to_export.len() {
                InstallStateV::Exporting { manifest, next: next + 1 }
            } else {
                spec_after_exports(manifest)
            }
        } else {
            // deliberate asymmetry: no rollback for a failed export
            InstallStateV::Failed { err: Error::FilesystemError }
        },
        InstallStateV::RunningCleanup { manifest } => match ev {
            EventV::ScriptExited { code } => if code == 0 {
                InstallStateV::Installed { manifest }
            } else {
                InstallStateV::RollingBack { err: Error::ScriptFailed { code } }
            },
            _ => InstallStateV::RollingBack { err: Error::ScriptNotFound },
        },
        InstallStateV::RollingBack { err } => if ev is Succeeded {
            InstallStateV::Failed { err }
        } else {
            // the rollback deletion itself failed; that error wins
            InstallStateV::Failed { err: Error::FilesystemError }
        },
        InstallStateV::Installed { .. } => s,
        InstallStateV::Failed { .. } => s,
    }
}

fn state_after_exports(manifest: Manifest) -> (s: InstallState)
    ensures
        s@ == spec_after_exports(manifest@),
        install_state_inv(s@),
{
    if manifest.cleanup_script.is_some() {
        InstallState::RunningCleanup { manifest }
    } else {
        InstallState::Installed { manifest }
    }
}

fn state_after_startup(manifest: Manifest) -> (s: InstallState)
    ensures
        s@ == spec_after_startup(manifest@),
        install_state_inv(s@),
{
    if manifest.to_export.len() > 0 {
        InstallState::Exporting { manifest, next: 0 }
    } else {
        state_after_exports(manifest)
    }
}

fn state_after_validation(manifest: Manifest) -> (s: InstallState)
    ensures
        s@ == spec_after_validation(manifest@),
        install_state_inv(s@),
{
    if manifest.startup_script.is_some() {
        InstallState::RunningStartup { manifest }
    } else {
        state_after_startup(manifest)
    }
}

impl InstallRun {
    pub open spec fn inv(&self) -> bool {
        install_state_inv(self@.state)
    }

    /// The pending action, `None` once the run is terminal.
    pub fn next_action(&self) -> (a: Option<Action>)
        requires
            self.inv(),
        ensures
            match a {
                Option::Some(act) => spec_install_action(self@) == Option::Some(act@),
                Option::None => spec_install_action(self@) is None,
            },
    {
        let dest = package_dir(self.root.as_str(), self.package.as_str());
        match &self.state {
            InstallState::Extracting => Some(Action::ExtractArchive { dest }),
            InstallState::ReadingManifest => Some(
                Action::ReadManifest { path: manifest_path(dest.as_str()) },
            ),
            InstallState::RunningStartup { manifest } => match &manifest.startup_script {
                Option::Some(script) => Some(
                    Action::RunScript { path: in_package(dest.as_str(), script.as_str()) },
                ),
                Option::None => vstd::pervasive::unreached(),
            },
            InstallState::Exporting { manifest, next } => {
                let name = &manifest.to_export[*next];
                Some(
                    Action::CreateSymlink {
                        target: export_target(dest.as_str(), manifest.files.as_str(), name.as_str()),
                        link: export_link(self.root.as_str(), name.as_str()),
                    },
                )
            },
            InstallState::RunningCleanup { manifest } => match &manifest.cleanup_script {
                Option::Some(script) => Some(
                    Action::RunScript { path: in_package(dest.as_str(), script.as_str()) },
                ),
                Option::None => vstd::pervasive::unreached(),
            },
            InstallState::RollingBack { .. } => Some(Action::RemoveDir { dir: dest }),
            InstallState::Installed { .. } => None,
            InstallState::Failed { .. } => None,
        }
    }

    /// Feeds the driver's report back and moves to the next state.
    pub fn step(self, ev: Event) -> (r: InstallRun)
        requires
            self.inv(),
            match spec_install_action(self@) {
                Option::Some(a) => spec_event_fits(a, ev@),
                Option::None => false,
            },
        ensures
            r.inv(),
            r@.root == self@.root,
            r@.package == self@.package,
            r@.state == spec_install_step(self@.state, ev@),
    {
        let InstallRun { root, package, state } = self;
        let next_state = match state {
            InstallState::Extracting => match ev {
                Event::Succeeded => InstallState::ReadingManifest,
                _ => InstallState::RollingBack { err: Error::ExtractionError },
            },
            InstallState::ReadingManifest => match ev {
                Event::FileRead { text } => match parse_manifest(text.as_str()) {
                    Ok(m) => state_after_validation(m),
                    Err(e) => InstallState::RollingBack { err: e },
                },
                _ => InstallState::RollingBack { err: Error::ManifestNotFound },
            },
            InstallState::RunningStartup { manifest } => match ev {
                Event::ScriptExited { code } => if code == 0 {
                    state_after_startup(manifest)
                } else {
                    InstallState::RollingBack { err: Error::ScriptFailed { code } }
                },
                _ => InstallState::RollingBack { err: Error::ScriptNotFound },
            },
            InstallState::Exporting { manifest, next } => match ev {
                Event::Succeeded => {
                    let total = manifest.to_export.len();
                    proof {
                        assert(manifest.to_export.deep_view().len()
                            == manifest.to_export@.len());
                    }
                    if next + 1 < total {
                        InstallState::Exporting { manifest, next: next + 1 }
                    } else {
                        state_after_exports(manifest)
                    }
                },
                _ => InstallState::Failed { err: Error::FilesystemError },
            },
            InstallState::RunningCleanup { manifest } => match ev {
                Event::ScriptExited { code } => if code == 0 {
                    InstallState::Installed { manifest }
                } else {
                    InstallState::RollingBack { err: Error::ScriptFailed { code } }
                },
                _ => InstallState::RollingBack { err: Error::ScriptNotFound },
            },
            InstallState::RollingBack { err } => match ev {
                Event::Succeeded => InstallState::Failed { err },
                _ => InstallState::Failed { err: Error::FilesystemError },
            },
            other => other,
        };
        InstallRun { root, package, state: next_state }
    }
}

/// Begins an install of bytes taken as already vetted — the path used for
/// local package files.  The first action extracts the archive.  The
/// destination directory is named after the package with any `.bpkg`
/// marker removed, so a package file installs under its bare name.
pub fn start_install(root: &str, package: &str) -> (r: InstallRun)
    ensures
        r.inv(),
        r@.root == root@,
        r@.package == spec_clean_name(package@),
        r@.state == InstallStateV::Extracting,
{
    InstallRun {
        root: root.to_owned(),
        package: clean_package_name(package),
        state: InstallState::Extracting,
    }
}

/// Begins an install of downloaded bytes, gated by the integrity check:
/// it succeeds exactly when the SHA-256 digest of `data` matches
/// `expected_sha256` (case-insensitively), so bytes that fail the check
/// never reach the extractor.
pub fn start_install_checked(root: &str, package: &str, data: &[u8], expected_sha256: &str) -> (r:
    Result<InstallRun, Error>)
    ensures
        r matches Ok(run) ==> run.inv() && run@.root == root@ && run@.package == spec_clean_name(
            package@,
        ) && run@.state == InstallStateV::Extracting,
        r is Ok <==> spec_eq_nocase(spec_sha256_hex(data@), expected_sha256.spec_bytes()),
        r matches Err(e) ==> (e matches Error::HashMismatch { expected: x, found: f } && x@
            == expected_sha256.spec_bytes() && f@ == spec_sha256_hex(data@)),
{
    match verify(data, expected_sha256.as_bytes()) {
        Ok(()) => Ok(start_install(root, package)),
        Err(e) => Err(e),
    }
}

/// Where an uninstall stands.
#[derive(Debug, Clone, PartialEq)]
pub enum UninstallState {
    /// Waiting for the manifest text from the package directory.
    ReadingManifest,
    /// The manifest was unreadable; the corrupt package directory is being
    /// deleted before `ManifestNotFound` is surfaced.
    CleansingCorrupt,
    /// Export symlinks are being removed, best-effort; `next` is the index
    /// of the pending one.
    RemovingExports { exports: Vec<String>, next: usize },
    /// Exports are gone (or were never there); the package directory is
    /// being deleted.
    RemovingDir,
    /// Terminal success: the package directory and its exports are gone.
    Removed,
    /// Terminal failure.
    Failed { err: Error },
}

/// The mathematical value of an [`UninstallState`].
pub enum UninstallStateV {
    ReadingManifest,
    CleansingCorrupt,
    RemovingExports { exports: Seq<Seq<char>>, next: int },
    RemovingDir,
    Removed,
    Failed { err: Error },
}

impl View for UninstallState {
    type V = UninstallStateV;

    open spec fn view(&self) -> UninstallStateV {
        match self {
            UninstallState::ReadingManifest => UninstallStateV::ReadingManifest,
            UninstallState::CleansingCorrupt => UninstallStateV::CleansingCorrupt,
            UninstallState::RemovingExports { exports, next } => UninstallStateV::RemovingExports {
                exports: exports.deep_view(),
                next: *next as int,
            },
            UninstallState::RemovingDir => UninstallStateV::RemovingDir,
            UninstallState::Removed => UninstallStateV::Removed,
            UninstallState::Failed { err } => UninstallStateV::Failed { err: *err },
        }
    }
}

pub open spec fn uninstall_state_inv(s: UninstallStateV) -> bool {
    match s {
        UninstallStateV::RemovingExports { exports, next } => 0 <= next < exports.len(),
        _ => true,
    }
}

/// One uninstall in progress.
#[derive(Debug, Clone, PartialEq)]
pub struct UninstallRun {
    pub root: String,
    pub package: String,
    pub state: UninstallState,
}

/// The mathematical value of an [`UninstallRun`].
pub struct UninstallRunV {
    pub root: Seq<char>,
    pub package: Seq<char>,
    pub state: UninstallStateV,
}

impl View for UninstallRun {
    type V = UninstallRunV;

    open spec fn view(&self) -> UninstallRunV {
        UninstallRunV { root: self.root@, package: self.package@, state: self.state@ }
    }
}

/// The pending action of an uninstall, `None` exactly in the terminal states.
pub open spec fn spec_uninstall_action(r: UninstallRunV) -> Option<ActionV> {
    let dest = spec_package_dir(r.root, r.package);
    match r.state {
        UninstallStateV::ReadingManifest => Option::Some(
            ActionV::ReadManifest { path: spec_manifest_path(dest) },
        ),
        UninstallStateV::CleansingCorrupt => Option::Some(ActionV::RemoveDir { dir: dest }),
        UninstallStateV::RemovingExports { exports, next } => Option::Some(
            ActionV::RemoveFile { path: spec_export_link(r.root, exports[next]) },
        ),
        UninstallStateV::RemovingDir => Option::Some(ActionV::RemoveDir { dir: dest }),
        UninstallStateV::Removed => Option::None,
        UninstallStateV::Failed { .. } => Option::None,
    }
}

/// The uninstall transition function.  Export removals are best-effort:
/// both outcomes move on to the next export, so exports already gone by
/// hand never abort an uninstall.
pub open spec fn spec_uninstall_step(s: UninstallStateV, ev: EventV) -> UninstallStateV {
    match s {
        UninstallStateV::ReadingManifest => match ev {
            EventV::FileRead { text } => match toml_doc_of(text) {
                Option::None => UninstallStateV::Failed { err: Error::MalformedManifest },
                Option::Some(doc) => match spec_export_list(doc) {
                    Ok(exports) => if exports.len() > 0 {
                        UninstallStateV::RemovingExports { exports, next: 0 }
                    } else {
                        UninstallStateV::RemovingDir
                    },
                    Err(e) => UninstallStateV::Failed { err: e },
                },
            },
            _ => UninstallStateV::CleansingCorrupt,
        },
        UninstallStateV::CleansingCorrupt => if ev is Succeeded {
            UninstallStateV::Failed { err: Error::ManifestNotFound }
        } else {
            UninstallStateV::Failed { err: Error::FilesystemError }
        },
        UninstallStateV::RemovingExports { exports, next } => if next + 1 < exports.len() {
            UninstallStateV::RemovingExports { exports, next: next + 1 }
        } else {
            UninstallStateV::RemovingDir
        },
        UninstallStateV::RemovingDir => if ev is Succeeded {
            UninstallStateV::Removed
        } else {
            UninstallStateV::Failed { err: Error::FilesystemError }
        },
        UninstallStateV::Removed => s,
        UninstallStateV::Failed { .. } => s,
    }
}

impl UninstallRun {
    pub open spec fn inv(&self) -> bool {
        uninstall_state_inv(self@.state)
    }

    /// The pending action, `None` once the run is terminal.
    pub fn next_action(&self) -> (a: Option<Action>)
        requires
            self.inv(),
        ensures
            match a {
                Option::Some(act) => spec_uninstall_action(self@) == Option::Some(act@),
                Option::None => spec_uninstall_action(self@) is None,
            },
    {
        let dest = package_dir(self.root.as_str(), self.package.as_str());
        match &self.state {
            UninstallState::ReadingManifest => Some(
                Action::ReadManifest { path: manifest_path(dest.as_str()) },
            ),
            UninstallState::CleansingCorrupt => Some(Action::RemoveDir { dir: dest }),
            UninstallState::RemovingExports { exports, next } => {
                let name = &exports[*next];
                Some(Action::RemoveFile { path: export_link(self.root.as_str(), name.as_str()) })
            },
            UninstallState::RemovingDir => Some(Action::RemoveDir { dir: dest }),
            UninstallState::Removed => None,
            UninstallState::Failed { .. } => None,
        }
    }

    /// Feeds the driver's report back and moves to the next state.
    pub fn step(self, ev: Event) -> (r: UninstallRun)
        requires
            self.inv(),
            match spec_uninstall_action(self@) {
                Option::Some(a) => spec_event_fits(a, ev@),
                Option::None => false,
            },
        ensures
            r.inv(),
            r@.root == self@.root,
            r@.package == self@.package,
            r@.state == spec_uninstall_step(self@.state, ev@),
    {
        let UninstallRun { root, package, state } = self;
        let next_state = match state {
            UninstallState::ReadingManifest => match ev {
                Event::FileRead { text } => match parse_exports(text.as_str()) {
                    Ok(exports) => if exports.len() > 0 {
                        UninstallState::RemovingExports { exports, next: 0 }
                    } else {
                        UninstallState::RemovingDir
                    },
                    Err(e) => UninstallState::Failed { err: e },
                },
                _ => UninstallState::CleansingCorrupt,
            },
            UninstallState::CleansingCorrupt => match ev {
                Event::Succeeded => UninstallState::Failed { err: Error::ManifestNotFound },
                _ => UninstallState::Failed { err: Error::FilesystemError },
            },
            UninstallState::RemovingExports { exports, next } => {
                let total = exports.len();
                proof {
                    assert(exports.deep_view().len() == exports@.len());
                }
                if next + 1 < total {
                    UninstallState::RemovingExports { exports, next: next + 1 }
                } else {
                    UninstallState::RemovingDir
                }
            },
            UninstallState::RemovingDir => match ev {
                Event::Succeeded => UninstallState::Removed,
                _ => UninstallState::Failed { err: Error::FilesystemError },
            },
            other => other,
        };
        UninstallRun { root, package, state: next_state }
    }
}

/// Begins an uninstall.  The first action reads the manifest; the run then
/// removes each export best-effort and deletes the package directory.
pub fn start_uninstall(root: &str, package: &str) -> (r: UninstallRun)
    ensures
        r.inv(),
        r@.root == root@,
        r@.package == package@,
        r@.state == UninstallStateV::ReadingManifest,
{
    UninstallRun {
        root: root.to_owned(),
        package: package.to_owned(),
        state: UninstallState::ReadingManifest,
    }
}

} // verus!
