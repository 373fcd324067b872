//! The full scenario: a package archive carrying a manifest and one
//! exported file is installed into an in-memory filesystem and then
//! uninstalled, driving both engines the way a real driver would.

use homebruh::lifecycle::{start_install, start_uninstall, Action, Event, InstallState, UninstallState};

/// A toy filesystem: plain files and symlinks, keyed by absolute path.
struct MiniFs {
    files: Vec<(String, String)>,
    links: Vec<(String, String)>,
}

impl MiniFs {
    fn new() -> Self {
        MiniFs { files: Vec::new(), links: Vec::new() }
    }

    fn file(&self, path: &str) -> Option<&String> {
        self.files.iter().find(|(p, _)| p == path).map(|(_, c)| c)
    }

    fn link(&self, path: &str) -> Option<&String> {
        self.links.iter().find(|(p, _)| p == path).map(|(_, t)| t)
    }

    /// Performs one engine action, as app code would against a real disk.
    /// `archive` is the content the extraction writes under its destination.
    fn perform(&mut self, action: Action, archive: &[(&str, &str)]) -> Event {
        match action {
            Action::ExtractArchive { dest } => {
                for (rel, content) in archive {
                    self.files.push((format!("{}/{}", dest, rel), content.to_string()));
                }
                Event::Succeeded
            }
            Action::ReadManifest { path } => match self.file(&path) {
                Some(text) => Event::FileRead { text: text.clone() },
                None => Event::FileAbsent,
            },
            Action::RunScript { path } => {
                if self.file(&path).is_some() {
                    Event::ScriptExited { code: 0 }
                } else {
                    Event::ScriptAbsent
                }
            }
            Action::CreateSymlink { target, link } => {
                self.links.push((link, target));
                Event::Succeeded
            }
            Action::RemoveFile { path } => {
                let before = self.links.len();
                self.links.retain(|(p, _)| *p != path);
                if self.links.len() < before {
                    Event::Succeeded
                } else {
                    Event::IoFailed
                }
            }
            Action::RemoveDir { dir } => {
                let prefix = format!("{}/", dir);
                self.files.retain(|(p, _)| !p.starts_with(&prefix));
                Event::Succeeded
            }
        }
    }
}

const MANIFEST: &str =
    "name = \"demo\"\nversion = \"1.0\"\nfiles = \"bin\"\nto_export = [\"demo\"]\n";

#[test]
fn install_then_uninstall_round_trip() {
    let archive: &[(&str, &str)] = &[("bruh.toml", MANIFEST), ("bin/demo", "#!/bin/sh\n")];
    let mut fs = MiniFs::new();

    let mut install = start_install("/data", "demo");
    while let Some(action) = install.next_action() {
        let ev = fs.perform(action, archive);
        install = install.step(ev);
    }
    assert!(matches!(install.state, InstallState::Installed { .. }));

    // the exported file exists as a package file, and the shared binary
    // directory holds a symlink pointing at it
    assert!(fs.file("/data/packages/demo/bin/demo").is_some());
    assert_eq!(
        fs.link("/data/bin/demo"),
        Some(&"/data/packages/demo/bin/demo".to_string())
    );

    let mut uninstall = start_uninstall("/data", "demo");
    while let Some(action) = uninstall.next_action() {
        let ev = fs.perform(action, archive);
        uninstall = uninstall.step(ev);
    }
    assert!(matches!(uninstall.state, UninstallState::Removed));

    // both the symlink and the package directory are gone
    assert!(fs.link("/data/bin/demo").is_none());
    assert!(fs.file("/data/packages/demo/bin/demo").is_none());
    assert!(fs.file("/data/packages/demo/bruh.toml").is_none());
}

#[test]
fn failed_install_leaves_no_package_directory() {
    // the archive carries no manifest: the engine must delete everything
    // it extracted before reporting the failure
    let archive: &[(&str, &str)] = &[("bin/demo", "#!/bin/sh\n")];
    let mut fs = MiniFs::new();

    let mut install = start_install("/data", "demo");
    while let Some(action) = install.next_action() {
        let ev = fs.perform(action, archive);
        install = install.step(ev);
    }
    assert!(matches!(install.state, InstallState::Failed { .. }));
    assert!(fs.file("/data/packages/demo/bin/demo").is_none());
    assert!(fs.files.is_empty());
}
