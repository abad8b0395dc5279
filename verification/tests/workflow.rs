use move_installer::error::{ErrorKind, InstallerError};
use move_installer::install::{
    install_main_package, install_module, module_parent, InstallJob, JobKind, Status, Step,
    StepAction, Workflow,
};

fn exec(name: &str, progress: Option<&str>, command: &str) -> Step {
    Step {
        name: name.to_string(),
        progress: progress.map(|p| p.to_string()),
        action: StepAction::Execute { command: command.to_string() },
        best_effort: false,
    }
}

fn error(kind: ErrorKind, message: &str) -> InstallerError {
    InstallerError { kind, message: message.to_string() }
}

fn pending_name(workflow: &Workflow) -> String {
    match workflow.status() {
        Status::Pending(step) => step.name.clone(),
        other => panic!("expected a pending step, got {:?}", other),
    }
}

#[test]
fn core_install_has_its_six_steps_in_order() {
    let workflow = install_main_package("/dl/move-anything.tar.gz", "move.local");
    assert_eq!(workflow.hostname, "move.local");
    assert_eq!(workflow.completed, 0);
    assert_eq!(workflow.failure, None);
    assert_eq!(workflow.completion, "Installation complete!");
    assert_eq!(
        workflow.job,
        InstallJob {
            kind: JobKind::Core,
            artifact_path: "/dl/move-anything.tar.gz".to_string(),
            target_directory: "/data/UserData/move-anything".to_string(),
        }
    );
    assert_eq!(
        workflow.steps,
        vec![
            Step {
                name: "validate".to_string(),
                progress: Some("Validating tarball...".to_string()),
                action: StepAction::Validate { path: "/dl/move-anything.tar.gz".to_string() },
                best_effort: false,
            },
            Step {
                name: "upload".to_string(),
                progress: Some("Uploading to Move...".to_string()),
                action: StepAction::Upload {
                    local_path: "/dl/move-anything.tar.gz".to_string(),
                    remote_path: "/tmp/move-anything.tar.gz".to_string(),
                },
                best_effort: false,
            },
            Step {
                name: "backup".to_string(),
                progress: Some("Creating backup of original Move binary...".to_string()),
                action: StepAction::Execute {
                    command: "sudo cp /opt/move/Move /opt/move/MoveOriginal 2>/dev/null || true"
                        .to_string(),
                },
                best_effort: true,
            },
            exec("extract", Some("Extracting files..."), "cd /tmp && tar -xzf move-anything.tar.gz"),
            exec("install", Some("Installing Move Everything..."), "sudo /tmp/move-anything/install.sh"),
            exec(
                "cleanup",
                Some("Cleaning up..."),
                "rm -rf /tmp/move-anything /tmp/move-anything.tar.gz"
            ),
        ]
    );
}

#[test]
fn core_install_completes_when_every_step_succeeds() {
    let mut workflow = install_main_package("/dl/p.tar.gz", "move.local");
    let mut seen = Vec::new();
    while let Status::Pending(step) = workflow.status() {
        seen.push(step.name.clone());
        workflow.record(Ok(()));
    }
    assert_eq!(seen, vec!["validate", "upload", "backup", "extract", "install", "cleanup"]);
    assert_eq!(workflow.status(), Status::Complete("Installation complete!"));
}

#[test]
fn core_install_survives_a_failed_backup() {
    let mut workflow = install_main_package("/dl/p.tar.gz", "move.local");
    workflow.record(Ok(()));
    workflow.record(Ok(()));
    assert_eq!(pending_name(&workflow), "backup");
    workflow.record(Err(error(
        ErrorKind::RemoteCommandFailed,
        "SSH command failed: cp: cannot stat '/opt/move/Move'",
    )));
    assert_eq!(workflow.failure, None);
    assert_eq!(pending_name(&workflow), "extract");
    workflow.record(Ok(()));
    workflow.record(Ok(()));
    workflow.record(Ok(()));
    assert_eq!(workflow.status(), Status::Complete("Installation complete!"));
}

#[test]
fn first_failure_aborts_with_the_step_name() {
    let mut workflow = install_main_package("/dl/p.tar.gz", "move.local");
    workflow.record(Ok(()));
    workflow.record(Err(error(ErrorKind::RemoteTransferFailed, "scp failed: lost connection")));
    let expected = error(ErrorKind::RemoteTransferFailed, "upload: scp failed: lost connection");
    assert_eq!(workflow.status(), Status::Aborted(&expected));
    assert_eq!(workflow.completed, 1);

    workflow.record(Ok(()));
    workflow.record(Err(error(ErrorKind::LaunchError, "later")));
    assert_eq!(workflow.status(), Status::Aborted(&expected));
    assert_eq!(workflow.completed, 1);
}

#[test]
fn failed_validation_aborts_before_anything_is_sent() {
    let mut workflow = install_main_package("/dl/p.tar.gz", "move.local");
    workflow.record(Err(error(ErrorKind::ArtifactInvalid, "Invalid tarball format")));
    assert_eq!(
        workflow.status(),
        Status::Aborted(&error(ErrorKind::ArtifactInvalid, "validate: Invalid tarball format"))
    );
    assert_eq!(workflow.completed, 0);
}

#[test]
fn a_complete_workflow_ignores_further_results() {
    let mut workflow = install_main_package("/dl/p.tar.gz", "move.local");
    for _ in 0..6 {
        workflow.record(Ok(()));
    }
    workflow.record(Err(error(ErrorKind::LaunchError, "late")));
    assert_eq!(workflow.completed, 6);
    assert_eq!(workflow.status(), Status::Complete("Installation complete!"));
}

#[test]
fn module_install_into_a_subdirectory() {
    let workflow = install_module("reverb", "/dl/reverb.tar.gz", "audio_fx", "10.0.0.7");
    let path = "/data/UserData/move-anything/modules/audio_fx/reverb";
    assert_eq!(workflow.hostname, "10.0.0.7");
    assert_eq!(workflow.completion, "reverb installed successfully!");
    assert_eq!(
        workflow.job,
        InstallJob {
            kind: JobKind::Module {
                module_id: "reverb".to_string(),
                component_type: "audio_fx".to_string(),
            },
            artifact_path: "/dl/reverb.tar.gz".to_string(),
            target_directory: path.to_string(),
        }
    );
    assert_eq!(
        workflow.steps,
        vec![
            Step {
                name: "validate".to_string(),
                progress: Some("Validating reverb tarball...".to_string()),
                action: StepAction::Validate { path: "/dl/reverb.tar.gz".to_string() },
                best_effort: false,
            },
            Step {
                name: "upload".to_string(),
                progress: Some("Uploading reverb to Move...".to_string()),
                action: StepAction::Upload {
                    local_path: "/dl/reverb.tar.gz".to_string(),
                    remote_path: "/tmp/reverb-module.tar.gz".to_string(),
                },
                best_effort: false,
            },
            exec("extract", Some("Extracting reverb..."), "cd /tmp && tar -xzf /tmp/reverb-module.tar.gz"),
            exec(
                "prepare",
                Some("Installing reverb to /data/UserData/move-anything/modules/audio_fx/reverb..."),
                "mkdir -p /data/UserData/move-anything/modules/audio_fx"
            ),
            exec("remove-previous", None, "rm -rf /data/UserData/move-anything/modules/audio_fx/reverb"),
            exec("install", None, "mv /tmp/reverb /data/UserData/move-anything/modules/audio_fx/reverb"),
            exec("cleanup", Some("Cleaning up reverb..."), "rm -f /tmp/reverb-module.tar.gz"),
        ]
    );
}

#[test]
fn module_install_into_the_root_makes_no_directory() {
    let workflow = install_module("store", "/dl/store.tar.gz", "system", "move.local");
    let names: Vec<&str> = workflow.steps.iter().map(|s| s.name.as_str()).collect();
    assert_eq!(names, vec!["validate", "upload", "extract", "remove-previous", "install", "cleanup"]);
    assert_eq!(
        workflow.steps[3],
        exec(
            "remove-previous",
            Some("Installing store to /data/UserData/move-anything/modules/store..."),
            "rm -rf /data/UserData/move-anything/modules/store"
        )
    );
    assert_eq!(
        workflow.steps[4],
        exec("install", None, "mv /tmp/store /data/UserData/move-anything/modules/store")
    );
    assert_eq!(workflow.job.target_directory, "/data/UserData/move-anything/modules/store");
}

#[test]
fn installing_a_module_twice_plans_the_same_replacement() {
    let first = install_module("reverb", "/dl/reverb-1.tar.gz", "audio_fx", "move.local");
    let second = install_module("reverb", "/dl/reverb-2.tar.gz", "audio_fx", "move.local");
    assert_eq!(first.steps[4..], second.steps[4..]);
    assert_eq!(first.steps[4].name, "remove-previous");
    assert_eq!(first.steps[5].name, "install");
    assert!(!first.steps[4].best_effort);
    assert!(!first.steps[5].best_effort);
}

#[test]
fn module_parent_directories() {
    assert_eq!(module_parent("midi_fx"), "/data/UserData/move-anything/modules/midi_fx");
    assert_eq!(module_parent("featured"), "/data/UserData/move-anything/modules");
    assert_eq!(module_parent("???"), "/data/UserData/move-anything/modules/other");
}

#[test]
fn module_failure_names_the_step() {
    let mut workflow = install_module("reverb", "/dl/reverb.tar.gz", "audio_fx", "move.local");
    for _ in 0..5 {
        workflow.record(Ok(()));
    }
    workflow.record(Err(error(ErrorKind::RemoteCommandFailed, "SSH command failed: mv: busy")));
    assert_eq!(
        workflow.status(),
        Status::Aborted(&error(ErrorKind::RemoteCommandFailed, "install: SSH command failed: mv: busy"))
    );
}
