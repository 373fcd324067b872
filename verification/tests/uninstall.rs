use homebruh::errors::{Error, FieldName};
use homebruh::lifecycle::{start_uninstall, Action, Event, UninstallRun, UninstallState};

const FULL: &str = "name = \"demo\"\nversion = \"1.0\"\nfiles = \"bin\"\nto_export = [\"a\", \"b\"]\n";

fn read(text: &str) -> Event {
    Event::FileRead { text: text.to_string() }
}

fn act(run: &UninstallRun) -> Action {
    run.next_action().expect("run should not be terminal yet")
}

#[test]
fn successful_uninstall_removes_exports_then_the_directory() {
    let mut run = start_uninstall("/data", "demo");
    assert_eq!(
        act(&run),
        Action::ReadManifest { path: "/data/packages/demo/bruh.toml".to_string() }
    );
    run = run.step(read(FULL));
    assert_eq!(act(&run), Action::RemoveFile { path: "/data/bin/a".to_string() });
    run = run.step(Event::Succeeded);
    assert_eq!(act(&run), Action::RemoveFile { path: "/data/bin/b".to_string() });
    run = run.step(Event::Succeeded);
    assert_eq!(act(&run), Action::RemoveDir { dir: "/data/packages/demo".to_string() });
    run = run.step(Event::Succeeded);
    assert!(run.next_action().is_none());
    assert!(matches!(run.state, UninstallState::Removed));
}

#[test]
fn missing_exports_do_not_abort_the_uninstall() {
    // both export removals fail (the symlinks are already gone by hand);
    // the directory is still deleted and the uninstall succeeds
    let mut run = start_uninstall("/data", "demo");
    run = run.step(read(FULL));
    run = run.step(Event::IoFailed);
    run = run.step(Event::IoFailed);
    assert_eq!(act(&run), Action::RemoveDir { dir: "/data/packages/demo".to_string() });
    run = run.step(Event::Succeeded);
    assert!(matches!(run.state, UninstallState::Removed));
}

#[test]
fn uninstall_without_exports_goes_straight_to_the_directory() {
    let mut run = start_uninstall("/data", "demo");
    run = run.step(read("name = \"demo\"\nversion = \"1.0\"\nfiles = \"bin\"\n"));
    assert!(matches!(act(&run), Action::RemoveDir { .. }));
    run = run.step(Event::Succeeded);
    assert!(matches!(run.state, UninstallState::Removed));
}

#[test]
fn corrupt_package_is_cleared_and_reported() {
    let mut run = start_uninstall("/data", "demo");
    run = run.step(Event::FileAbsent);
    assert_eq!(act(&run), Action::RemoveDir { dir: "/data/packages/demo".to_string() });
    run = run.step(Event::Succeeded);
    assert!(matches!(run.state, UninstallState::Failed { err: Error::ManifestNotFound }));
}

#[test]
fn malformed_manifest_fails_the_uninstall() {
    let mut run = start_uninstall("/data", "demo");
    run = run.step(read("name = \"demo"));
    assert!(run.next_action().is_none());
    assert!(matches!(run.state, UninstallState::Failed { err: Error::MalformedManifest }));
}

#[test]
fn mistyped_export_list_fails_the_uninstall() {
    let mut run = start_uninstall("/data", "demo");
    run = run.step(read("to_export = 3\n"));
    assert!(matches!(
        run.state,
        UninstallState::Failed { err: Error::InvalidFieldType { field: FieldName::ToExport } }
    ));
}

#[test]
fn directory_deletion_failure_is_fatal() {
    let mut run = start_uninstall("/data", "demo");
    run = run.step(read("name = \"demo\"\nversion = \"1.0\"\nfiles = \"bin\"\n"));
    run = run.step(Event::IoFailed);
    assert!(matches!(run.state, UninstallState::Failed { err: Error::FilesystemError }));
}
