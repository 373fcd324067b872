//! Laws of the lifecycle engine, stated over whole runs.
//!
//! A run is a fold of the transition function over a sequence of events; its
//! trace is the sequence of actions the driver was asked to perform.  The
//! proofs here pin down the engine's global behavior: every failure path
//! between extraction and the cleanup script deletes the destination
//! directory and nothing more happens afterwards; export removal during
//! uninstall never aborts on a missing export; and a successful install
//! performs exactly one trace — extract, read, startup script (if any), the
//! export symlinks in manifest order, cleanup script (if any).

use vstd::prelude::*;
use crate::errors::Error;
use crate::manifest::{ManifestV, spec_validate_manifest, spec_export_list, toml_doc_of};
use crate::lifecycle::{
    ActionV, EventV, InstallStateV, InstallRunV, UninstallStateV, UninstallRunV,
    spec_install_step, spec_install_action, spec_after_validation, spec_after_startup,
    spec_after_exports, spec_uninstall_step, spec_uninstall_action, install_state_inv,
    uninstall_state_inv,
};
use crate::store::{
    spec_package_dir, spec_manifest_path, spec_in_package, spec_export_target, spec_export_link,
};

verus! {

/// A state from which an install can make no further move.
pub open spec fn install_terminal(s: InstallStateV) -> bool {
    s is Installed || s is Failed
}

/// The state after feeding a whole sequence of events.
pub open spec fn spec_install_run(r: InstallRunV, evs: Seq<EventV>) -> InstallRunV
    decreases evs.len(),
{
    if evs.len() == 0 {
        r
    } else {
        spec_install_run(
            InstallRunV { state: spec_install_step(r.state, evs.first()), ..r },
            evs.drop_first(),
        )
    }
}

/// The actions a run asks for, one per event consumed, until it is terminal
/// or the events run out.
pub open spec fn spec_install_trace(r: InstallRunV, evs: Seq<EventV>) -> Seq<ActionV>
    decreases evs.len(),
{
    if evs.len() == 0 || install_terminal(r.state) {
        Seq::empty()
    } else {
        seq![spec_install_action(r)->Some_0] + spec_install_trace(
            InstallRunV { state: spec_install_step(r.state, evs.first()), ..r },
            evs.drop_first(),
        )
    }
}

/// The (state, event) pairs that are install failures between extraction
/// and the cleanup script: an unreadable or invalid manifest, a missing
/// script, a script with a nonzero exit — and, one step earlier, a failed
/// extraction, which this engine also rolls back.
pub open spec fn spec_rollback_trigger(s: InstallStateV, ev: EventV) -> bool {
    match s {
        InstallStateV::Extracting => ev is IoFailed,
        InstallStateV::ReadingManifest => ev is FileAbsent || (match ev {
            EventV::FileRead { text } => match toml_doc_of(text) {
                Option::None => true,
                Option::Some(doc) => spec_validate_manifest(doc) is Err,
            },
            _ => false,
        }),
        InstallStateV::RunningStartup { .. } => ev is ScriptAbsent || (match ev {
            EventV::ScriptExited { code } => code != 0,
            _ => false,
        }),
        InstallStateV::RunningCleanup { .. } => ev is ScriptAbsent || (match ev {
            EventV::ScriptExited { code } => code != 0,
            _ => false,
        }),
        _ => false,
    }
}

/// Rollback completeness: any failure between extraction and the cleanup
/// script enters `RollingBack`, whose one pending action deletes the whole
/// destination directory; after the deletion is answered the run is
/// terminal, with no further action — so a failed install leaves either
/// nothing or a fully installed package.
pub proof fn lemma_rollback_completeness(r: InstallRunV, ev: EventV, ev2: EventV)
    requires
        spec_rollback_trigger(r.state, ev),
    ensures
        ({
            let s1 = spec_install_step(r.state, ev);
            let s2 = spec_install_step(s1, ev2);
            s1 is RollingBack && spec_install_action(InstallRunV { state: s1, ..r })
                == Option::Some(ActionV::RemoveDir { dir: spec_package_dir(r.root, r.package) })
                && s2 is Failed && spec_install_action(InstallRunV { state: s2, ..r }) is None
        }),
{
}

/// A rolled-back or failed install never becomes installed.
pub proof fn lemma_install_no_resurrection(r: InstallRunV, evs: Seq<EventV>)
    requires
        r.state is RollingBack || r.state is Failed,
    ensures
        !(spec_install_run(r, evs).state is Installed),
    decreases evs.len(),
{
    if evs.len() > 0 {
        let s1 = spec_install_step(r.state, evs.first());
        lemma_install_no_resurrection(InstallRunV { state: s1, ..r }, evs.drop_first());
    }
}

/// Whether a state carries this manifest.
pub open spec fn spec_state_carries(s: InstallStateV, m: ManifestV) -> bool {
    match s {
        InstallStateV::RunningStartup { manifest } => manifest == m,
        InstallStateV::Exporting { manifest, .. } => manifest == m,
        InstallStateV::RunningCleanup { manifest } => manifest == m,
        InstallStateV::Installed { manifest } => manifest == m,
        _ => false,
    }
}

/// The manifest of a completed install.
pub open spec fn spec_installed_manifest(s: InstallStateV) -> ManifestV
    recommends
        s is Installed,
{
    match s {
        InstallStateV::Installed { manifest } => manifest,
        _ => arbitrary(),
    }
}

/// Once validation has produced a manifest, the rest of the install carries
/// that manifest unchanged: whatever gets installed is what validated.
pub proof fn lemma_install_manifest_stable(r: InstallRunV, evs: Seq<EventV>, m: ManifestV)
    requires
        spec_state_carries(r.state, m),
        spec_install_run(r, evs).state is Installed,
    ensures
        spec_installed_manifest(spec_install_run(r, evs).state) == m,
    decreases evs.len(),
{
    if evs.len() > 0 {
        let s1 = spec_install_step(r.state, evs.first());
        let r1 = InstallRunV { state: s1, ..r };
        if s1 is RollingBack || s1 is Failed {
            lemma_install_no_resurrection(r1, evs.drop_first());
        } else {
            lemma_install_manifest_stable(r1, evs.drop_first(), m);
        }
    }
}

/// The export symlinks still to create from index `i` on, in manifest order.
pub open spec fn spec_export_actions(
    root: Seq<char>,
    pkg: Seq<char>,
    m: ManifestV,
    i: int,
) -> Seq<ActionV>
    decreases m.to_export.len() - i,
{
    if i < 0 || i >= m.to_export.len() {
        Seq::empty()
    } else {
        seq![
            ActionV::CreateSymlink {
                target: spec_export_target(
                    spec_package_dir(root, pkg),
                    m.files,
                    m.to_export[i],
                ),
                link: spec_export_link(root, m.to_export[i]),
            },
        ] + spec_export_actions(root, pkg, m, i + 1)
    }
}

/// How far from the end of a successful install a state stands.
pub open spec fn spec_state_rank(s: InstallStateV) -> int {
    match s {
        InstallStateV::Extracting => 5,
        InstallStateV::ReadingManifest => 4,
        InstallStateV::RunningStartup { .. } => 3,
        InstallStateV::Exporting { .. } => 2,
        InstallStateV::RunningCleanup { .. } => 1,
        _ => 0,
    }
}

/// The one trace a successful install performs from state `s` on, given
/// that it installs manifest `m`: extract, read the manifest, run the
/// startup script if the manifest names one, create the export symlinks in
/// manifest order, and run the cleanup script last.
pub open spec fn spec_success_trace(
    root: Seq<char>,
    pkg: Seq<char>,
    s: InstallStateV,
    m: ManifestV,
) -> Seq<ActionV>
    decreases spec_state_rank(s),
{
    let dest = spec_package_dir(root, pkg);
    match s {
        InstallStateV::Extracting => seq![ActionV::ExtractArchive { dest }]
            + spec_success_trace(root, pkg, InstallStateV::ReadingManifest, m),
        InstallStateV::ReadingManifest => seq![
            ActionV::ReadManifest { path: spec_manifest_path(dest) },
        ] + spec_success_trace(root, pkg, spec_after_validation(m), m),
        InstallStateV::RunningStartup { manifest } => seq![
            ActionV::RunScript {
                path: spec_in_package(dest, manifest.startup_script->Some_0),
            },
        ] + spec_success_trace(root, pkg, spec_after_startup(manifest), manifest),
        InstallStateV::Exporting { manifest, next } => spec_export_actions(
            root,
            pkg,
            manifest,
            next,
        ) + spec_success_trace(root, pkg, spec_after_exports(manifest), manifest),
        InstallStateV::RunningCleanup { manifest } => seq![
            ActionV::RunScript {
                path: spec_in_package(dest, manifest.cleanup_script->Some_0),
            },
        ] + spec_success_trace(root, pkg, InstallStateV::Installed { manifest }, manifest),
        _ => Seq::empty(),
    }
}

/// Export correctness and order dependency: an install that ends in
/// `Installed { m }` performed exactly `spec_success_trace` — so the
/// archive was extracted first, the startup script (when present) ran
/// before any export symlink was created, the symlinks were created one
/// per `to_export` entry in manifest order with the paths the content
/// store dictates, and the cleanup script (when present) ran after all of
/// them.
pub proof fn lemma_install_success_trace(r: InstallRunV, evs: Seq<EventV>)
    requires
        install_state_inv(r.state),
        spec_install_run(r, evs).state is Installed,
    ensures
        spec_install_trace(r, evs) == spec_success_trace(
            r.root,
            r.package,
            r.state,
            spec_installed_manifest(spec_install_run(r, evs).state),
        ),
    decreases evs.len(),
{
    let fin = spec_install_run(r, evs);
    let m = spec_installed_manifest(fin.state);
    if evs.len() == 0 {
        assert(spec_success_trace(r.root, r.package, r.state, m) =~= Seq::<ActionV>::empty());
    } else if install_terminal(r.state) {
        lemma_install_terminal_stays(r, evs);
        assert(spec_success_trace(r.root, r.package, r.state, m) =~= Seq::<ActionV>::empty());
    } else {
        let ev = evs.first();
        let s1 = spec_install_step(r.state, ev);
        let r1 = InstallRunV { state: s1, ..r };
        let rest = evs.drop_first();
        if s1 is RollingBack || s1 is Failed {
            lemma_install_no_resurrection(r1, rest);
        } else {
            lemma_install_success_trace(r1, rest);
            match r.state {
                InstallStateV::Extracting => {},
                InstallStateV::ReadingManifest => {
                    match ev {
                        EventV::FileRead { text } => match toml_doc_of(text) {
                            Option::Some(doc) => match spec_validate_manifest(doc) {
                                Ok(m1) => {
                                    lemma_install_manifest_stable(r1, rest, m1);
                                },
                                Err(_) => {},
                            },
                            Option::None => {},
                        },
                        _ => {},
                    }
                },
                InstallStateV::RunningStartup { manifest } => {
                    lemma_install_manifest_stable(r, evs, manifest);
                },
                InstallStateV::Exporting { manifest, next } => {
                    lemma_install_manifest_stable(r, evs, manifest);
                    let act = spec_install_action(r)->Some_0;
                    let tail = spec_export_actions(r.root, r.package, manifest, next + 1);
                    let after = spec_success_trace(
                        r.root,
                        r.package,
                        spec_after_exports(manifest),
                        manifest,
                    );
                    assert(spec_export_actions(r.root, r.package, manifest, next) =~= seq![act]
                        + tail);
                    if next + 1 < manifest.to_export.len() {
                        assert(spec_success_trace(r.root, r.package, s1, m) == tail + after);
                        assert((seq![act] + tail) + after =~= seq![act] + (tail + after));
                    } else {
                        assert(tail =~= Seq::<ActionV>::empty());
                        assert(spec_success_trace(r.root, r.package, s1, m) == after);
                        assert((seq![act] + tail) + after =~= seq![act] + after);
                    }
                },
                InstallStateV::RunningCleanup { manifest } => {
                    lemma_install_manifest_stable(r, evs, manifest);
                },
                _ => {},
            }
        }
    }
}

/// A terminal install stays where it is, whatever is fed to it.
pub proof fn lemma_install_terminal_stays(r: InstallRunV, evs: Seq<EventV>)
    requires
        install_terminal(r.state),
    ensures
        spec_install_run(r, evs).state == r.state,
    decreases evs.len(),
{
    if evs.len() > 0 {
        lemma_install_terminal_stays(
            InstallRunV { state: spec_install_step(r.state, evs.first()), ..r },
            evs.drop_first(),
        );
    }
}

/// Splitting a run at any point changes nothing.
pub proof fn lemma_install_run_app(r: InstallRunV, a: Seq<EventV>, b: Seq<EventV>)
    ensures
        spec_install_run(r, a + b) == spec_install_run(spec_install_run(r, a), b),
    decreases a.len(),
{
    if a.len() == 0 {
        assert(a + b =~= b);
    } else {
        assert((a + b).first() == a.first());
        assert((a + b).drop_first() =~= a.drop_first() + b);
        lemma_install_run_app(
            InstallRunV { state: spec_install_step(r.state, a.first()), ..r },
            a.drop_first(),
            b,
        );
    }
}

/// Feeding one event, then the rest.
pub proof fn lemma_install_run_step(r: InstallRunV, ev: EventV, evs: Seq<EventV>)
    ensures
        spec_install_run(r, seq![ev] + evs) == spec_install_run(
            InstallRunV { state: spec_install_step(r.state, ev), ..r },
            evs,
        ),
{
    assert((seq![ev] + evs).first() == ev);
    assert((seq![ev] + evs).drop_first() =~= evs);
}

/// The manifest an export phase is working from.
pub open spec fn spec_exporting_manifest(s: InstallStateV) -> ManifestV
    recommends
        s is Exporting,
{
    match s {
        InstallStateV::Exporting { manifest, .. } => manifest,
        _ => arbitrary(),
    }
}

/// One `Succeeded` report per remaining export finishes the export phase.
pub proof fn lemma_install_exports_converge(r: InstallRunV, evs: Seq<EventV>)
    requires
        install_state_inv(r.state),
        r.state matches InstallStateV::Exporting { manifest, next } && evs.len() == manifest.to_export.len()
            - next,
        forall|i: int| 0 <= i < evs.len() ==> evs[i] is Succeeded,
    ensures
        spec_install_run(r, evs).state == spec_after_exports(spec_exporting_manifest(r.state)),
    decreases evs.len(),
{
    assert(evs[0] is Succeeded);
    let s1 = spec_install_step(r.state, evs.first());
    let r1 = InstallRunV { state: s1, ..r };
    if evs.len() > 1 {
        assert(forall|i: int|
            0 <= i < evs.drop_first().len() ==> evs.drop_first()[i] == evs[i + 1]);
        lemma_install_exports_converge(r1, evs.drop_first());
    } else {
        assert(spec_install_run(r1, evs.drop_first()) == r1);
    }
}

/// A run never changes which package it is about.
pub proof fn lemma_install_run_fields(r: InstallRunV, evs: Seq<EventV>)
    ensures
        spec_install_run(r, evs).root == r.root,
        spec_install_run(r, evs).package == r.package,
    decreases evs.len(),
{
    if evs.len() > 0 {
        lemma_install_run_fields(
            InstallRunV { state: spec_install_step(r.state, evs.first()), ..r },
            evs.drop_first(),
        );
    }
}

/// Whether this manifest text decodes and validates.
pub open spec fn spec_manifest_validates(text: Seq<char>) -> bool {
    match toml_doc_of(text) {
        Option::Some(doc) => spec_validate_manifest(doc) is Ok,
        Option::None => false,
    }
}

/// The manifest a valid text validates to.
pub open spec fn spec_validated_manifest(text: Seq<char>) -> ManifestV
    recommends
        spec_manifest_validates(text),
{
    match toml_doc_of(text) {
        Option::Some(doc) => match spec_validate_manifest(doc) {
            Ok(m) => m,
            Err(_) => arbitrary(),
        },
        Option::None => arbitrary(),
    }
}

/// The reports of a run on which nothing goes wrong: the extraction
/// succeeds, the manifest reads as `text`, every script the manifest names
/// exits zero and every symlink creation succeeds.
pub open spec fn spec_happy_events(text: Seq<char>, m: ManifestV) -> Seq<EventV> {
    seq![EventV::Succeeded] + (seq![EventV::FileRead { text }] + ((if m.startup_script is Some {
        seq![EventV::ScriptExited { code: 0 }]
    } else {
        Seq::empty()
    }) + (Seq::new(m.to_export.len(), |i: int| EventV::Succeeded) + (if m.cleanup_script is Some {
        seq![EventV::ScriptExited { code: 0 }]
    } else {
        Seq::empty()
    }))))
}

/// Success is owed: an install of a text that decodes and validates, on
/// which every action succeeds, ends installed — with exactly the manifest
/// the text validates to.
pub proof fn lemma_install_success_owed(r: InstallRunV, text: Seq<char>)
    requires
        r.state is Extracting,
        spec_manifest_validates(text),
    ensures
        (spec_install_run(r, spec_happy_events(text, spec_validated_manifest(text))).state
            == InstallStateV::Installed { manifest: spec_validated_manifest(text) }),
{
    let m = spec_validated_manifest(text);
    let exit0 = EventV::ScriptExited { code: 0 };
    let startup_evs: Seq<EventV> = if m.startup_script is Some {
        seq![exit0]
    } else {
        Seq::empty()
    };
    let export_evs = Seq::new(m.to_export.len(), |i: int| EventV::Succeeded);
    let cleanup_evs: Seq<EventV> = if m.cleanup_script is Some {
        seq![exit0]
    } else {
        Seq::empty()
    };
    let tail = startup_evs + (export_evs + cleanup_evs);

    let r1 = InstallRunV { state: InstallStateV::ReadingManifest, ..r };
    lemma_install_run_step(r, EventV::Succeeded, seq![EventV::FileRead { text }] + tail);
    let r2 = InstallRunV { state: spec_after_validation(m), ..r };
    lemma_install_run_step(r1, EventV::FileRead { text }, tail);

    let r3 = InstallRunV { state: spec_after_startup(m), ..r };
    if m.startup_script is Some {
        assert(tail =~= seq![exit0] + (export_evs + cleanup_evs));
        lemma_install_run_step(r2, exit0, export_evs + cleanup_evs);
    } else {
        assert(tail =~= export_evs + cleanup_evs);
        assert(r2 == r3);
    }

    let r4 = InstallRunV { state: spec_after_exports(m), ..r };
    lemma_install_run_app(r3, export_evs, cleanup_evs);
    if m.to_export.len() > 0 {
        assert(forall|i: int| 0 <= i < export_evs.len() ==> export_evs[i] is Succeeded);
        lemma_install_exports_converge(r3, export_evs);
        lemma_install_run_fields(r3, export_evs);
        assert(spec_install_run(r3, export_evs) == r4);
    } else {
        assert(export_evs =~= Seq::<EventV>::empty());
        assert(spec_install_run(r3, export_evs) == r3);
        assert(r3 == r4);
    }

    if m.cleanup_script is Some {
        assert(cleanup_evs =~= seq![exit0] + Seq::<EventV>::empty());
        lemma_install_run_step(r4, exit0, Seq::empty());
        let r5 = InstallRunV {
            state: spec_install_step(r4.state, exit0),
            ..r4
        };
        assert(spec_install_run(r5, Seq::<EventV>::empty()) == r5);
        assert(r5.state == InstallStateV::Installed { manifest: m });
    } else {
        assert(cleanup_evs =~= Seq::<EventV>::empty());
        assert(spec_install_run(r4, cleanup_evs) == r4);
        assert(r4.state == InstallStateV::Installed { manifest: m });
    }
}

/// The state of an uninstall after feeding a whole sequence of events.
pub open spec fn spec_uninstall_run(r: UninstallRunV, evs: Seq<EventV>) -> UninstallRunV
    decreases evs.len(),
{
    if evs.len() == 0 {
        r
    } else {
        spec_uninstall_run(
            UninstallRunV { state: spec_uninstall_step(r.state, evs.first()), ..r },
            evs.drop_first(),
        )
    }
}

/// A state from which an uninstall can make no further move.
pub open spec fn uninstall_terminal(s: UninstallStateV) -> bool {
    s is Removed || s is Failed
}

/// The actions an uninstall asks for, one per event consumed.
pub open spec fn spec_uninstall_trace(r: UninstallRunV, evs: Seq<EventV>) -> Seq<ActionV>
    decreases evs.len(),
{
    if evs.len() == 0 || uninstall_terminal(r.state) {
        Seq::empty()
    } else {
        seq![spec_uninstall_action(r)->Some_0] + spec_uninstall_trace(
            UninstallRunV { state: spec_uninstall_step(r.state, evs.first()), ..r },
            evs.drop_first(),
        )
    }
}

/// A terminal uninstall stays where it is, whatever is fed to it.
pub proof fn lemma_uninstall_terminal_stays(r: UninstallRunV, evs: Seq<EventV>)
    requires
        uninstall_terminal(r.state),
    ensures
        spec_uninstall_run(r, evs).state == r.state,
    decreases evs.len(),
{
    if evs.len() > 0 {
        lemma_uninstall_terminal_stays(
            UninstallRunV { state: spec_uninstall_step(r.state, evs.first()), ..r },
            evs.drop_first(),
        );
    }
}

/// A failed uninstall, or one clearing a corrupt package, never reports
/// success.
pub proof fn lemma_uninstall_no_resurrection(r: UninstallRunV, evs: Seq<EventV>)
    requires
        r.state is Failed || r.state is CleansingCorrupt,
    ensures
        !(spec_uninstall_run(r, evs).state is Removed),
    decreases evs.len(),
{
    if evs.len() > 0 {
        lemma_uninstall_no_resurrection(
            UninstallRunV { state: spec_uninstall_step(r.state, evs.first()), ..r },
            evs.drop_first(),
        );
    }
}

/// The export-removal actions still to ask for from index `i` on, in
/// manifest order.
pub open spec fn spec_removal_actions(
    root: Seq<char>,
    exports: Seq<Seq<char>>,
    i: int,
) -> Seq<ActionV>
    decreases exports.len() - i,
{
    if i < 0 || i >= exports.len() {
        Seq::empty()
    } else {
        seq![ActionV::RemoveFile { path: spec_export_link(root, exports[i]) }]
            + spec_removal_actions(root, exports, i + 1)
    }
}

/// A successful directory deletion is the last thing an uninstall does.
pub proof fn lemma_uninstall_dir_trace(r: UninstallRunV, evs: Seq<EventV>)
    requires
        r.state is RemovingDir,
        spec_uninstall_run(r, evs).state is Removed,
    ensures
        spec_uninstall_trace(r, evs) == seq![
            ActionV::RemoveDir { dir: spec_package_dir(r.root, r.package) },
        ],
    decreases evs.len(),
{
    if evs.len() == 0 {
        assert(spec_uninstall_run(r, evs) == r);
    } else {
        let s1 = spec_uninstall_step(r.state, evs.first());
        let r1 = UninstallRunV { state: s1, ..r };
        if s1 is Removed {
            lemma_uninstall_terminal_stays(r1, evs.drop_first());
            assert(spec_uninstall_trace(r1, evs.drop_first()) =~= Seq::<ActionV>::empty());
            assert(spec_uninstall_trace(r, evs) =~= seq![spec_uninstall_action(r)->Some_0]);
        } else {
            lemma_uninstall_no_resurrection(r1, evs.drop_first());
        }
    }
}

/// From the export-removal phase on, a successful uninstall asks for
/// exactly one removal per remaining export, in order, and then for the
/// directory deletion — whatever each removal reported.
pub proof fn lemma_uninstall_removal_trace(r: UninstallRunV, evs: Seq<EventV>)
    requires
        uninstall_state_inv(r.state),
        r.state is RemovingExports,
        spec_uninstall_run(r, evs).state is Removed,
    ensures
        ({
            let exports = match r.state {
                UninstallStateV::RemovingExports { exports, .. } => exports,
                _ => arbitrary(),
            };
            let next = match r.state {
                UninstallStateV::RemovingExports { next, .. } => next,
                _ => arbitrary(),
            };
            spec_uninstall_trace(r, evs) == spec_removal_actions(r.root, exports, next) + seq![
                ActionV::RemoveDir { dir: spec_package_dir(r.root, r.package) },
            ]
        }),
    decreases evs.len(),
{
    let s1 = spec_uninstall_step(r.state, evs.first());
    let r1 = UninstallRunV { state: s1, ..r };
    let rest = evs.drop_first();
    if s1 is RemovingExports {
        lemma_uninstall_removal_trace(r1, rest);
    } else {
        lemma_uninstall_dir_trace(r1, rest);
    }
    match r.state {
        UninstallStateV::RemovingExports { exports, next } => {
            if next + 1 < exports.len() {
                assert(spec_uninstall_trace(r, evs) =~= spec_removal_actions(
                    r.root,
                    exports,
                    next,
                ) + seq![ActionV::RemoveDir { dir: spec_package_dir(r.root, r.package) }]);
            } else {
                assert(spec_removal_actions(r.root, exports, next + 1) =~= Seq::<
                    ActionV,
                >::empty());
                assert(spec_uninstall_trace(r, evs) =~= spec_removal_actions(
                    r.root,
                    exports,
                    next,
                ) + seq![ActionV::RemoveDir { dir: spec_package_dir(r.root, r.package) }]);
            }
        },
        _ => {},
    }
}

/// The export list a manifest text yields, where it decodes and is
/// well-typed.
pub open spec fn spec_manifest_exports(text: Seq<char>) -> Seq<Seq<char>> {
    match toml_doc_of(text) {
        Option::Some(doc) => match spec_export_list(doc) {
            Ok(l) => l,
            Err(_) => Seq::empty(),
        },
        Option::None => Seq::empty(),
    }
}

/// Export correctness, uninstall half: a successful uninstall reads the
/// manifest, asks to remove exactly the export symlinks the manifest lists,
/// in order, and deletes the package directory last — so after it no listed
/// export remains.
pub proof fn lemma_uninstall_success_trace(r: UninstallRunV, text: Seq<char>, evs: Seq<EventV>)
    requires
        r.state is ReadingManifest,
        spec_uninstall_run(r, seq![EventV::FileRead { text }] + evs).state is Removed,
    ensures
        spec_uninstall_trace(r, seq![EventV::FileRead { text }] + evs) == seq![
            ActionV::ReadManifest {
                path: spec_manifest_path(spec_package_dir(r.root, r.package)),
            },
        ] + spec_removal_actions(r.root, spec_manifest_exports(text), 0) + seq![
            ActionV::RemoveDir { dir: spec_package_dir(r.root, r.package) },
        ],
{
    let ev0 = EventV::FileRead { text };
    let full = seq![ev0] + evs;
    assert(full.first() == ev0);
    assert(full.drop_first() =~= evs);
    let s1 = spec_uninstall_step(r.state, ev0);
    let r1 = UninstallRunV { state: s1, ..r };
    if s1 is RemovingExports {
        lemma_uninstall_removal_trace(r1, evs);
    } else if s1 is RemovingDir {
        lemma_uninstall_dir_trace(r1, evs);
        assert(spec_removal_actions(r.root, spec_manifest_exports(text), 0) =~= Seq::<
            ActionV,
        >::empty());
    } else {
        lemma_uninstall_no_resurrection(r1, evs);
        lemma_uninstall_terminal_stays(r1, evs);
    }
    assert(spec_uninstall_trace(r, full) =~= seq![
        ActionV::ReadManifest { path: spec_manifest_path(spec_package_dir(r.root, r.package)) },
    ] + spec_removal_actions(r.root, spec_manifest_exports(text), 0) + seq![
        ActionV::RemoveDir { dir: spec_package_dir(r.root, r.package) },
    ]);
}

/// Export removal is best-effort: the step out of `RemovingExports` does
/// not depend on how the removal went, and in particular never fails — an
/// export already removed by hand is tolerated as already-cleaned state.
pub proof fn lemma_uninstall_removal_ignores_outcome(s: UninstallStateV, ev: EventV)
    requires
        s is RemovingExports,
    ensures
        spec_uninstall_step(s, ev) == spec_uninstall_step(s, EventV::Succeeded),
        !(spec_uninstall_step(s, ev) is Failed),
{
}

/// Idempotent uninstall of missing exports: whatever each export removal
/// reports, after one event per remaining export the run stands at the
/// directory deletion — and a successful deletion then ends the uninstall
/// successfully.
pub proof fn lemma_uninstall_converges(r: UninstallRunV, evs: Seq<EventV>)
    requires
        uninstall_state_inv(r.state),
        r.state matches UninstallStateV::RemovingExports { exports, next } && evs.len()
            == exports.len() - next,
    ensures
        spec_uninstall_run(r, evs).state == UninstallStateV::RemovingDir,
        spec_uninstall_step(UninstallStateV::RemovingDir, EventV::Succeeded)
            == UninstallStateV::Removed,
    decreases evs.len(),
{
    let s1 = spec_uninstall_step(r.state, evs.first());
    let r1 = UninstallRunV { state: s1, ..r };
    if evs.len() > 1 {
        lemma_uninstall_converges(r1, evs.drop_first());
    } else {
        assert(s1 == UninstallStateV::RemovingDir);
        assert(spec_uninstall_run(r1, evs.drop_first()) == r1);
    }
}

} // verus!
