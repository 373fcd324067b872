use homebruh::errors::{Error, FieldName};
use homebruh::lifecycle::{start_install, start_install_checked, Action, Event, InstallRun, InstallState};

const FULL: &str = "name = \"demo\"\nversion = \"1.0\"\nfiles = \"bin\"\nstartup_script = \"setup.sh\"\ncleanup_script = \"clean.sh\"\nto_export = [\"a\", \"b\"]\n";
const ABC_DIGEST: &str = "ba7816bf8f01cfea414140de5dae2223b00361a396177a9cb410ff61f20015ad";

fn read(text: &str) -> Event {
    Event::FileRead { text: text.to_string() }
}

fn act(run: &InstallRun) -> Action {
    run.next_action().expect("run should not be terminal yet")
}

#[test]
fn successful_install_performs_the_expected_trace() {
    let mut run = start_install("/data", "demo");
    let mut trace: Vec<Action> = Vec::new();
    let events = vec![
        Event::Succeeded,
        read(FULL),
        Event::ScriptExited { code: 0 },
        Event::Succeeded,
        Event::Succeeded,
        Event::ScriptExited { code: 0 },
    ];
    for ev in events {
        trace.push(act(&run));
        run = run.step(ev);
    }
    assert!(run.next_action().is_none());
    assert_eq!(
        trace,
        vec![
            Action::ExtractArchive { dest: "/data/packages/demo".to_string() },
            Action::ReadManifest { path: "/data/packages/demo/bruh.toml".to_string() },
            Action::RunScript { path: "/data/packages/demo/setup.sh".to_string() },
            Action::CreateSymlink {
                target: "/data/packages/demo/bin/a".to_string(),
                link: "/data/bin/a".to_string(),
            },
            Action::CreateSymlink {
                target: "/data/packages/demo/bin/b".to_string(),
                link: "/data/bin/b".to_string(),
            },
            Action::RunScript { path: "/data/packages/demo/clean.sh".to_string() },
        ]
    );
    match run.state {
        InstallState::Installed { manifest } => {
            assert_eq!(manifest.name, "demo");
            assert_eq!(manifest.version, "1.0");
        }
        other => panic!("expected a completed install, got {:?}", other),
    }
}

#[test]
fn install_without_scripts_or_exports_is_two_steps() {
    let mut run = start_install("/data", "demo");
    run = run.step(Event::Succeeded);
    run = run.step(read("name = \"demo\"\nversion = \"1.0\"\nfiles = \"bin\"\n"));
    assert!(run.next_action().is_none());
    assert!(matches!(run.state, InstallState::Installed { .. }));
}

#[test]
fn missing_manifest_rolls_back() {
    let mut run = start_install("/data", "demo");
    run = run.step(Event::Succeeded);
    run = run.step(Event::FileAbsent);
    assert_eq!(
        act(&run),
        Action::RemoveDir { dir: "/data/packages/demo".to_string() }
    );
    run = run.step(Event::Succeeded);
    assert!(run.next_action().is_none());
    assert!(matches!(run.state, InstallState::Failed { err: Error::ManifestNotFound }));
}

#[test]
fn missing_required_field_rolls_back_before_any_script_or_export() {
    let mut run = start_install("/data", "demo");
    run = run.step(Event::Succeeded);
    run = run.step(read("name = \"demo\"\nversion = \"1.0\"\nto_export = [\"a\"]\n"));
    // the very next action is the rollback deletion: nothing ran, nothing was exported
    assert_eq!(
        act(&run),
        Action::RemoveDir { dir: "/data/packages/demo".to_string() }
    );
    run = run.step(Event::Succeeded);
    assert!(matches!(
        run.state,
        InstallState::Failed { err: Error::MissingRequiredField { field: FieldName::Files } }
    ));
}

#[test]
fn malformed_manifest_rolls_back() {
    let mut run = start_install("/data", "demo");
    run = run.step(Event::Succeeded);
    run = run.step(read("name = \"demo"));
    assert!(matches!(act(&run), Action::RemoveDir { .. }));
    run = run.step(Event::Succeeded);
    assert!(matches!(run.state, InstallState::Failed { err: Error::MalformedManifest }));
}

#[test]
fn missing_startup_script_rolls_back() {
    let mut run = start_install("/data", "demo");
    run = run.step(Event::Succeeded);
    run = run.step(read(FULL));
    run = run.step(Event::ScriptAbsent);
    assert!(matches!(act(&run), Action::RemoveDir { .. }));
    run = run.step(Event::Succeeded);
    assert!(matches!(run.state, InstallState::Failed { err: Error::ScriptNotFound }));
}

#[test]
fn failing_script_rolls_back_with_its_exit_code() {
    let mut run = start_install("/data", "demo");
    run = run.step(Event::Succeeded);
    run = run.step(read(FULL));
    run = run.step(Event::ScriptExited { code: 3 });
    assert!(matches!(act(&run), Action::RemoveDir { .. }));
    run = run.step(Event::Succeeded);
    assert!(matches!(
        run.state,
        InstallState::Failed { err: Error::ScriptFailed { code: 3 } }
    ));
}

#[test]
fn extraction_failure_rolls_back() {
    let mut run = start_install("/data", "demo");
    run = run.step(Event::IoFailed);
    assert!(matches!(act(&run), Action::RemoveDir { .. }));
    run = run.step(Event::Succeeded);
    assert!(matches!(run.state, InstallState::Failed { err: Error::ExtractionError }));
}

#[test]
fn export_failure_aborts_without_rollback() {
    // the engine's one deliberate asymmetry
    let mut run = start_install("/data", "demo");
    run = run.step(Event::Succeeded);
    run = run.step(read(FULL));
    run = run.step(Event::ScriptExited { code: 0 });
    run = run.step(Event::IoFailed);
    assert!(run.next_action().is_none());
    assert!(matches!(run.state, InstallState::Failed { err: Error::FilesystemError }));
}

#[test]
fn checked_install_gates_on_the_digest() {
    let ok = start_install_checked("/data", "demo", b"abc", ABC_DIGEST);
    let run = ok.expect("matching digest must begin the install");
    assert!(matches!(run.state, InstallState::Extracting));

    let bad = start_install_checked("/data", "demo", b"abc", "00");
    match bad {
        Err(Error::HashMismatch { expected, found }) => {
            assert_eq!(expected, b"00".to_vec());
            assert_eq!(found, ABC_DIGEST.as_bytes().to_vec());
        }
        other => panic!("expected a hash mismatch, got {:?}", other),
    }
}

#[test]
fn package_file_suffix_is_stripped_from_the_destination() {
    let run = start_install("/data", "demo.bpkg");
    assert_eq!(
        act(&run),
        Action::ExtractArchive { dest: "/data/packages/demo".to_string() }
    );
}
