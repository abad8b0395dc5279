//! Remote shell executor and provisioning orchestrator: the invocations that
//! reach the device, the verdicts on how they ended, and the two install
//! workflows as ordered steps.
//!
//! Every remote invocation accepts the key of a host it sees for the first time
//! without asking. That suits a consumer device on a private network and is
//! unsafe on a hostile one.

use vstd::prelude::*;
use vstd::string::*;
use crate::error::{failure, result_model, ErrorKind, ErrorModel, InstallerError};
use crate::process::{CommandLine, CommandLineModel, Launch, LaunchModel};
use crate::text::{concat3, same_text};
use crate::ssh::{connection_policy, connection_policy_model, remote_account, remote_account_model, SshPaths};

verus! {

/// The invocation that runs `command` on the device at `hostname`.
pub open spec fn ssh_exec_command_model(
    ssh: Seq<char>,
    hostname: Seq<char>,
    command: Seq<char>,
) -> CommandLineModel {
    CommandLineModel {
        program: ssh,
        args: connection_policy_model() + seq![remote_account_model(hostname), command],
    }
}

/// Where `remote_path` on the device at `hostname` is, as the copy tool writes it.
pub open spec fn remote_target_model(hostname: Seq<char>, remote_path: Seq<char>) -> Seq<char> {
    remote_account_model(hostname) + ":"@ + remote_path
}

/// The invocation that copies `local_path` to `remote_path` on the device at `hostname`.
pub open spec fn scp_upload_command_model(
    scp: Seq<char>,
    local_path: Seq<char>,
    remote_path: Seq<char>,
    hostname: Seq<char>,
) -> CommandLineModel {
    CommandLineModel {
        program: scp,
        args: connection_policy_model() + seq![
            local_path,
            remote_target_model(hostname, remote_path),
        ],
    }
}

/// The invocation that reads the table of contents of the compressed archive
/// at `path` without unpacking it.
pub open spec fn validate_tarball_command_model(path: Seq<char>) -> CommandLineModel {
    CommandLineModel { program: "tar"@, args: seq!["-tzf"@, path] }
}

/// What running a remote command gives: its output, or why there is none.
pub open spec fn ssh_exec_model(launch: LaunchModel) -> Result<Seq<char>, ErrorModel> {
    match launch {
        LaunchModel::Failed { reason } => failure(
            ErrorKind::LaunchError,
            "Failed to run ssh: "@ + reason,
        ),
        LaunchModel::Exited(run) => if run.succeeded {
            Ok(run.stdout)
        } else {
            failure(ErrorKind::RemoteCommandFailed, "SSH command failed: "@ + run.stderr)
        },
    }
}

/// What copying a file to the device gives.
pub open spec fn scp_upload_model(launch: LaunchModel) -> Result<(), ErrorModel> {
    match launch {
        LaunchModel::Failed { reason } => failure(
            ErrorKind::LaunchError,
            "Failed to run scp: "@ + reason,
        ),
        LaunchModel::Exited(run) => if run.succeeded {
            Ok(())
        } else {
            failure(ErrorKind::RemoteTransferFailed, "scp failed: "@ + run.stderr)
        },
    }
}

/// What was found out about a local artifact.
#[derive(Clone, Debug, PartialEq, Eq)]
pub enum ArtifactProbe {
    /// There is no such file.
    Missing,
    /// The file exists, and this came of listing it as an archive.
    Listed(Launch),
}

/// The mathematical content of an [`ArtifactProbe`].
pub enum ArtifactProbeModel {
    Missing,
    Listed(LaunchModel),
}

impl DeepView for ArtifactProbe {
    type V = ArtifactProbeModel;

    open spec fn deep_view(&self) -> ArtifactProbeModel {
        match self {
            ArtifactProbe::Missing => ArtifactProbeModel::Missing,
            ArtifactProbe::Listed(launch) => ArtifactProbeModel::Listed(launch.deep_view()),
        }
    }
}

/// Whether the artifact at `path` is fit to be installed.
pub open spec fn validate_tarball_model(path: Seq<char>, probe: ArtifactProbeModel) -> Result<
    (),
    ErrorModel,
> {
    match probe {
        ArtifactProbeModel::Missing => failure(
            ErrorKind::ArtifactInvalid,
            "Tarball not found: "@ + path,
        ),
        ArtifactProbeModel::Listed(LaunchModel::Failed { reason }) => failure(
            ErrorKind::LaunchError,
            "Failed to validate tarball: "@ + reason,
        ),
        ArtifactProbeModel::Listed(LaunchModel::Exited(run)) => if run.succeeded {
            Ok(())
        } else {
            failure(ErrorKind::ArtifactInvalid, "Invalid tarball format"@)
        },
    }
}

/// The invocation that runs `command` on the device at `hostname`.
pub fn ssh_exec_command(paths: &SshPaths, hostname: &str, command: &str) -> (line: CommandLine)
    ensures
        line.deep_view() == ssh_exec_command_model(paths.ssh@, hostname@, command@),
{
    let mut args = connection_policy();
    args.push(remote_account(hostname));
    args.push(String::from_str(command));
    let line = CommandLine { program: paths.ssh.clone(), args };
    assert(line.args.deep_view() =~= ssh_exec_command_model(paths.ssh@, hostname@, command@).args);
    line
}

/// Judges the run of a remote command: what it printed, or how it failed.
///
/// A tool that could not be started, a command that ran and failed, and
/// success are told apart.
pub fn ssh_exec(launch: &Launch) -> (output: Result<String, InstallerError>)
    ensures
        result_model(output) == ssh_exec_model(launch.deep_view()),
{
    match launch {
        Launch::Failed { reason } => {
            let mut message = String::from_str("Failed to run ssh: ");
            message.append(reason.as_str());
            Err(InstallerError { kind: ErrorKind::LaunchError, message })
        },
        Launch::Exited(run) => {
            if run.succeeded {
                Ok(run.stdout.clone())
            } else {
                let mut message = String::from_str("SSH command failed: ");
                message.append(run.stderr.as_str());
                Err(InstallerError { kind: ErrorKind::RemoteCommandFailed, message })
            }
        },
    }
}

/// The invocation that copies `local_path` to `remote_path` on the device at `hostname`.
pub fn scp_upload_command(paths: &SshPaths, local_path: &str, remote_path: &str, hostname: &str) -> (line:
    CommandLine)
    ensures
        line.deep_view() == scp_upload_command_model(
            paths.scp@,
            local_path@,
            remote_path@,
            hostname@,
        ),
{
    let mut target = remote_account(hostname);
    target.append(":");
    target.append(remote_path);
    let mut args = connection_policy();
    args.push(String::from_str(local_path));
    args.push(target);
    let line = CommandLine { program: paths.scp.clone(), args };
    assert(line.args.deep_view() =~= scp_upload_command_model(
        paths.scp@,
        local_path@,
        remote_path@,
        hostname@,
    ).args);
    line
}

/// Judges the copy of a file to the device.
pub fn scp_upload(launch: &Launch) -> (verdict: Result<(), InstallerError>)
    ensures
        result_model(verdict) == scp_upload_model(launch.deep_view()),
{
    match launch {
        Launch::Failed { reason } => {
            let mut message = String::from_str("Failed to run scp: ");
            message.append(reason.as_str());
            Err(InstallerError { kind: ErrorKind::LaunchError, message })
        },
        Launch::Exited(run) => {
            if run.succeeded {
                Ok(())
            } else {
                let mut message = String::from_str("scp failed: ");
                message.append(run.stderr.as_str());
                Err(InstallerError { kind: ErrorKind::RemoteTransferFailed, message })
            }
        },
    }
}

/// The invocation that lists the archive at `path`.
pub fn validate_tarball_command(path: &str) -> (line: CommandLine)
    ensures
        line.deep_view() == validate_tarball_command_model(path@),
{
    let mut args: Vec<String> = Vec::new();
    args.push(String::from_str("-tzf"));
    args.push(String::from_str(path));
    let line = CommandLine { program: String::from_str("tar"), args };
    assert(line.args.deep_view() =~= validate_tarball_command_model(path@).args);
    line
}

/// Judges a local artifact: it must exist and be listable as a compressed archive.
pub fn validate_tarball(path: &str, probe: &ArtifactProbe) -> (verdict: Result<(), InstallerError>)
    ensures
        result_model(verdict) == validate_tarball_model(path@, probe.deep_view()),
{
    match probe {
        ArtifactProbe::Missing => {
            let mut message = String::from_str("Tarball not found: ");
            message.append(path);
            Err(InstallerError { kind: ErrorKind::ArtifactInvalid, message })
        },
        ArtifactProbe::Listed(Launch::Failed { reason }) => {
            let mut message = String::from_str("Failed to validate tarball: ");
            message.append(reason.as_str());
            Err(InstallerError { kind: ErrorKind::LaunchError, message })
        },
        ArtifactProbe::Listed(Launch::Exited(run)) => {
            if run.succeeded {
                Ok(())
            } else {
                Err(
                    InstallerError {
                        kind: ErrorKind::ArtifactInvalid,
                        message: String::from_str("Invalid tarball format"),
                    },
                )
            }
        },
    }
}

/// What a workflow step does.
#[derive(Clone, Debug, PartialEq, Eq)]
pub enum StepAction {
    /// Check that the local artifact exists and is a readable archive.
    Validate { path: String },
    /// Copy a local file to the device.
    Upload { local_path: String, remote_path: String },
    /// Run a command on the device.
    Execute { command: String },
}

/// The mathematical content of a [`StepAction`].
pub enum StepActionModel {
    Validate { path: Seq<char> },
    Upload { local_path: Seq<char>, remote_path: Seq<char> },
    Execute { command: Seq<char> },
}

impl DeepView for StepAction {
    type V = StepActionModel;

    open spec fn deep_view(&self) -> StepActionModel {
        match self {
            StepAction::Validate { path } => StepActionModel::Validate { path: path@ },
            StepAction::Upload { local_path, remote_path } => StepActionModel::Upload {
                local_path: local_path@,
                remote_path: remote_path@,
            },
            StepAction::Execute { command } => StepActionModel::Execute { command: command@ },
        }
    }
}

/// One step of an install workflow.
#[derive(Clone, Debug, PartialEq, Eq)]
pub struct Step {
    /// The name by which a failure of this step is reported.
    pub name: String,
    /// What to tell the progress sink before the step runs, if anything.
    pub progress: Option<String>,
    pub action: StepAction,
    /// A failure of this step is passed over and the workflow goes on.
    pub best_effort: bool,
}

/// The mathematical content of a [`Step`].
pub struct StepModel {
    pub name: Seq<char>,
    pub progress: Option<Seq<char>>,
    pub action: StepActionModel,
    pub best_effort: bool,
}

impl DeepView for Step {
    type V = StepModel;

    open spec fn deep_view(&self) -> StepModel {
        StepModel {
            name: self.name@,
            progress: self.progress.deep_view(),
            action: self.action.deep_view(),
            best_effort: self.best_effort,
        }
    }
}

/// What is being installed.
#[derive(Clone, Debug, PartialEq, Eq)]
pub enum JobKind {
    /// The core package.
    Core,
    /// One optional module.
    Module { module_id: String, component_type: String },
}

/// The mathematical content of a [`JobKind`].
pub enum JobKindModel {
    Core,
    Module { module_id: Seq<char>, component_type: Seq<char> },
}

impl DeepView for JobKind {
    type V = JobKindModel;

    open spec fn deep_view(&self) -> JobKindModel {
        match self {
            JobKind::Core => JobKindModel::Core,
            JobKind::Module { module_id, component_type } => JobKindModel::Module {
                module_id: module_id@,
                component_type: component_type@,
            },
        }
    }
}

/// One installation: what, from which local artifact, into which directory on the device.
#[derive(Clone, Debug, PartialEq, Eq)]
pub struct InstallJob {
    pub kind: JobKind,
    pub artifact_path: String,
    pub target_directory: String,
}

/// The mathematical content of an [`InstallJob`].
pub struct InstallJobModel {
    pub kind: JobKindModel,
    pub artifact_path: Seq<char>,
    pub target_directory: Seq<char>,
}

impl DeepView for InstallJob {
    type V = InstallJobModel;

    open spec fn deep_view(&self) -> InstallJobModel {
        InstallJobModel {
            kind: self.kind.deep_view(),
            artifact_path: self.artifact_path@,
            target_directory: self.target_directory@,
        }
    }
}

/// An install workflow and how far it has come.
///
/// Nothing of it outlives the process: a workflow that is cut short leaves the
/// device as the last finished step left it.
#[derive(Clone, Debug, PartialEq, Eq)]
pub struct Workflow {
    pub job: InstallJob,
    /// The device to install on.
    pub hostname: String,
    /// The steps, in the order in which they run.
    pub steps: Vec<Step>,
    /// What to tell the progress sink once every step is done.
    pub completion: String,
    /// How many steps are done.
    pub completed: usize,
    /// The failure that ended the workflow, if one did.
    pub failure: Option<InstallerError>,
}

/// The mathematical content of a [`Workflow`].
pub struct WorkflowModel {
    pub job: InstallJobModel,
    pub hostname: Seq<char>,
    pub steps: Seq<StepModel>,
    pub completion: Seq<char>,
    pub completed: int,
    pub failure: Option<ErrorModel>,
}

impl DeepView for Workflow {
    type V = WorkflowModel;

    open spec fn deep_view(&self) -> WorkflowModel {
        WorkflowModel {
            job: self.job.deep_view(),
            hostname: self.hostname@,
            steps: self.steps.deep_view(),
            completion: self.completion@,
            completed: self.completed as int,
            failure: self.failure.deep_view(),
        }
    }
}

/// Where a workflow stands.
#[derive(Debug, PartialEq, Eq)]
pub enum Status<'a> {
    /// This step is to run next.
    Pending(&'a Step),
    /// Every step is done; the message is for the progress sink.
    Complete(&'a str),
    /// A step failed and no further step will run.
    Aborted(&'a InstallerError),
}

/// The mathematical content of a [`Status`].
pub enum StatusModel {
    Pending(StepModel),
    Complete(Seq<char>),
    Aborted(ErrorModel),
}

impl<'a> DeepView for Status<'a> {
    type V = StatusModel;

    open spec fn deep_view(&self) -> StatusModel {
        match self {
            Status::Pending(step) => StatusModel::Pending(step.deep_view()),
            Status::Complete(message) => StatusModel::Complete(message@),
            Status::Aborted(error) => StatusModel::Aborted(error.deep_view()),
        }
    }
}

/// Where the workflow `w` stands.
pub open spec fn status_model(w: WorkflowModel) -> StatusModel {
    match w.failure {
        Some(error) => StatusModel::Aborted(error),
        None => if 0 <= w.completed < w.steps.len() {
            StatusModel::Pending(w.steps[w.completed])
        } else {
            StatusModel::Complete(w.completion)
        },
    }
}

/// The error `error` as reported for the step called `name`.
pub open spec fn in_step(name: Seq<char>, error: ErrorModel) -> ErrorModel {
    ErrorModel { kind: error.kind, message: name + ": "@ + error.message }
}

/// The workflow `w` after its pending step ended with `result`.
///
/// A failure ends the workflow unless the step is best-effort. A workflow that
/// has no pending step stays as it is.
pub open spec fn record_model(w: WorkflowModel, result: Result<(), ErrorModel>) -> WorkflowModel {
    match status_model(w) {
        StatusModel::Pending(step) => match result {
            Err(error) if !step.best_effort => WorkflowModel {
                failure: Some(in_step(step.name, error)),
                ..w
            },
            _ => WorkflowModel { completed: w.completed + 1, ..w },
        },
        _ => w,
    }
}

impl Workflow {
    /// Where the workflow stands: the step to run next, or how it ended.
    pub fn status(&self) -> (status: Status<'_>)
        ensures
            status.deep_view() == status_model(self.deep_view()),
    {
        match &self.failure {
            Some(error) => Status::Aborted(error),
            None => {
                if self.completed < self.steps.len() {
                    assert(self.steps.deep_view()[self.completed as int]
                        == self.steps@[self.completed as int].deep_view());
                    Status::Pending(&self.steps[self.completed])
                } else {
                    Status::Complete(self.completion.as_str())
                }
            },
        }
    }

    /// Takes note of how the pending step ended.
    pub fn record(&mut self, result: Result<(), InstallerError>)
        ensures
            final(self).deep_view() == record_model(old(self).deep_view(), result_model(result)),
    {
        if self.failure.is_some() || self.completed >= self.steps.len() {
            return ;
        }
        assert(self.steps.deep_view()[self.completed as int]
            == self.steps@[self.completed as int].deep_view());
        match result {
            Err(error) => {
                if self.steps[self.completed].best_effort {
                    self.completed = self.completed + 1;
                } else {
                    let mut message = self.steps[self.completed].name.clone();
                    message.append(": ");
                    message.append(error.message.as_str());
                    self.failure = Some(InstallerError { kind: error.kind, message });
                }
            },
            Ok(_) => {
                self.completed = self.completed + 1;
            },
        }
    }
}

/// The directory on the device that holds the package.
pub open spec fn package_root() -> Seq<char> {
    "/data/UserData/move-anything"@
}

/// The directory on the device under which modules are installed.
pub open spec fn modules_root() -> Seq<char> {
    "/data/UserData/move-anything/modules"@
}

/// The subdirectory of the modules root for modules of the given component
/// type; none for those that go into the root itself.
pub open spec fn component_subdir_model(component_type: Seq<char>) -> Option<Seq<char>> {
    if component_type == "sound_generator"@ {
        Some("sound_generators"@)
    } else if component_type == "audio_fx"@ {
        Some("audio_fx"@)
    } else if component_type == "midi_fx"@ {
        Some("midi_fx"@)
    } else if component_type == "utility"@ {
        Some("utilities"@)
    } else if component_type == "overtake"@ {
        Some("overtake"@)
    } else if component_type == "featured"@ || component_type == "system"@ {
        None
    } else {
        Some("other"@)
    }
}

/// The directory in which a module of the given component type is placed.
pub open spec fn module_parent_model(component_type: Seq<char>) -> Seq<char> {
    match component_subdir_model(component_type) {
        None => modules_root(),
        Some(subdir) => modules_root() + "/"@ + subdir,
    }
}

/// The directory that the module `module_id` of the given component type occupies.
pub open spec fn module_install_path_model(
    module_id: Seq<char>,
    component_type: Seq<char>,
) -> Seq<char> {
    module_parent_model(component_type) + "/"@ + module_id
}

/// Where the artifact of the module `module_id` is put on the device before it is unpacked.
pub open spec fn module_remote_tarball(module_id: Seq<char>) -> Seq<char> {
    "/tmp/"@ + module_id + "-module.tar.gz"@
}

/// A step that must succeed.
pub open spec fn must(name: Seq<char>, progress: Option<Seq<char>>, action: StepActionModel) -> StepModel {
    StepModel { name, progress, action, best_effort: false }
}

/// The step that runs `command` on the device and must succeed.
pub open spec fn must_run(name: Seq<char>, progress: Option<Seq<char>>, command: Seq<char>) -> StepModel {
    must(name, progress, StepActionModel::Execute { command })
}

/// The steps of the core install, in order.
///
/// The backup of the device's own binary is best-effort: there may be none to
/// back up.
pub open spec fn core_steps_model(tarball_path: Seq<char>) -> Seq<StepModel> {
    seq![
        must(
            "validate"@,
            Some("Validating tarball..."@),
            StepActionModel::Validate { path: tarball_path },
        ),
        must(
            "upload"@,
            Some("Uploading to Move..."@),
            StepActionModel::Upload {
                local_path: tarball_path,
                remote_path: "/tmp/move-anything.tar.gz"@,
            },
        ),
        StepModel {
            name: "backup"@,
            progress: Some("Creating backup of original Move binary..."@),
            action: StepActionModel::Execute {
                command: "sudo cp /opt/move/Move /opt/move/MoveOriginal 2>/dev/null || true"@,
            },
            best_effort: true,
        },
        must_run(
            "extract"@,
            Some("Extracting files..."@),
            "cd /tmp && tar -xzf move-anything.tar.gz"@,
        ),
        must_run(
            "install"@,
            Some("Installing Move Everything..."@),
            "sudo /tmp/move-anything/install.sh"@,
        ),
        must_run(
            "cleanup"@,
            Some("Cleaning up..."@),
            "rm -rf /tmp/move-anything /tmp/move-anything.tar.gz"@,
        ),
    ]
}

/// The core install workflow before its first step.
pub open spec fn install_main_package_model(
    tarball_path: Seq<char>,
    hostname: Seq<char>,
) -> WorkflowModel {
    WorkflowModel {
        job: InstallJobModel {
            kind: JobKindModel::Core,
            artifact_path: tarball_path,
            target_directory: package_root(),
        },
        hostname,
        steps: core_steps_model(tarball_path),
        completion: "Installation complete!"@,
        completed: 0,
        failure: None,
    }
}

/// The steps that put the unpacked module in its place: make the parent
/// directory where there is one to make, remove what an earlier install left,
/// move the new content in. The first of them announces the destination.
pub open spec fn module_placement_model(
    module_id: Seq<char>,
    component_type: Seq<char>,
) -> Seq<StepModel> {
    let path = module_install_path_model(module_id, component_type);
    let announce = Some("Installing "@ + module_id + " to "@ + path + "..."@);
    let remove = "rm -rf "@ + path;
    let place = must_run("install"@, None, "mv /tmp/"@ + module_id + " "@ + path);
    match component_subdir_model(component_type) {
        Some(subdir) => seq![
            must_run("prepare"@, announce, "mkdir -p "@ + module_parent_model(component_type)),
            must_run("remove-previous"@, None, remove),
            place,
        ],
        None => seq![must_run("remove-previous"@, announce, remove), place],
    }
}

/// The steps of a module install, in order.
pub open spec fn module_steps_model(
    module_id: Seq<char>,
    tarball_path: Seq<char>,
    component_type: Seq<char>,
) -> Seq<StepModel> {
    seq![
        must(
            "validate"@,
            Some("Validating "@ + module_id + " tarball..."@),
            StepActionModel::Validate { path: tarball_path },
        ),
        must(
            "upload"@,
            Some("Uploading "@ + module_id + " to Move..."@),
            StepActionModel::Upload {
                local_path: tarball_path,
                remote_path: module_remote_tarball(module_id),
            },
        ),
        must_run(
            "extract"@,
            Some("Extracting "@ + module_id + "..."@),
            "cd /tmp && tar -xzf "@ + module_remote_tarball(module_id),
        ),
    ] + module_placement_model(module_id, component_type) + seq![
        must_run(
            "cleanup"@,
            Some("Cleaning up "@ + module_id + "..."@),
            "rm -f "@ + module_remote_tarball(module_id),
        ),
    ]
}

/// The module install workflow before its first step.
pub open spec fn install_module_model(
    module_id: Seq<char>,
    tarball_path: Seq<char>,
    component_type: Seq<char>,
    hostname: Seq<char>,
) -> WorkflowModel {
    WorkflowModel {
        job: InstallJobModel {
            kind: JobKindModel::Module { module_id, component_type },
            artifact_path: tarball_path,
            target_directory: module_install_path_model(module_id, component_type),
        },
        hostname,
        steps: module_steps_model(module_id, tarball_path, component_type),
        completion: module_id + " installed successfully!"@,
        completed: 0,
        failure: None,
    }
}

/// The subdirectory of the modules root for modules of the given component
/// type; none for those that go into the root itself. Every component type has
/// an answer: those that are not known go to `other`.
pub fn component_subdir(component_type: &str) -> (subdir: Option<&'static str>)
    ensures
        subdir.deep_view() == component_subdir_model(component_type@),
{
    if same_text(component_type, "sound_generator") {
        Some("sound_generators")
    } else if same_text(component_type, "audio_fx") {
        Some("audio_fx")
    } else if same_text(component_type, "midi_fx") {
        Some("midi_fx")
    } else if same_text(component_type, "utility") {
        Some("utilities")
    } else if same_text(component_type, "overtake") {
        Some("overtake")
    } else if same_text(component_type, "featured") || same_text(component_type, "system") {
        None
    } else {
        Some("other")
    }
}

/// The directory in which a module of the given component type is placed.
pub fn module_parent(component_type: &str) -> (path: String)
    ensures
        path@ == module_parent_model(component_type@),
{
    match component_subdir(component_type) {
        None => String::from_str("/data/UserData/move-anything/modules"),
        Some(subdir) => concat3("/data/UserData/move-anything/modules", "/", subdir),
    }
}

/// The directory that the module `module_id` of the given component type occupies.
pub fn module_install_path(module_id: &str, component_type: &str) -> (path: String)
    ensures
        path@ == module_install_path_model(module_id@, component_type@),
{
    let mut path = module_parent(component_type);
    path.append("/");
    path.append(module_id);
    path
}

fn step(name: &str, progress: Option<String>, action: StepAction, best_effort: bool) -> (made: Step)
    ensures
        made.deep_view() == (StepModel {
            name: name@,
            progress: progress.deep_view(),
            action: action.deep_view(),
            best_effort,
        }),
{
    Step { name: String::from_str(name), progress, action, best_effort }
}

fn run_step(name: &str, progress: Option<String>, command: String) -> (made: Step)
    ensures
        made.deep_view() == must_run(name@, progress.deep_view(), command@),
{
    step(name, progress, StepAction::Execute { command }, false)
}

/// Plans the install of the core package from the artifact at `tarball_path`
/// on the device at `hostname`.
///
/// The artifact is checked and copied to the device. The device's own binary
/// is backed up where there is one, the archive is unpacked there, its install
/// script is run with elevated rights, and the temporary files are removed.
pub fn install_main_package(tarball_path: &str, hostname: &str) -> (workflow: Workflow)
    ensures
        workflow.deep_view() == install_main_package_model(tarball_path@, hostname@),
{
    let mut steps: Vec<Step> = Vec::new();
    steps.push(
        step(
            "validate",
            Some(String::from_str("Validating tarball...")),
            StepAction::Validate { path: String::from_str(tarball_path) },
            false,
        ),
    );
    steps.push(
        step(
            "upload",
            Some(String::from_str("Uploading to Move...")),
            StepAction::Upload {
                local_path: String::from_str(tarball_path),
                remote_path: String::from_str("/tmp/move-anything.tar.gz"),
            },
            false,
        ),
    );
    steps.push(
        step(
            "backup",
            Some(String::from_str("Creating backup of original Move binary...")),
            StepAction::Execute {
                command: String::from_str(
                    "sudo cp /opt/move/Move /opt/move/MoveOriginal 2>/dev/null || true",
                ),
            },
            true,
        ),
    );
    steps.push(
        run_step(
            "extract",
            Some(String::from_str("Extracting files...")),
            String::from_str("cd /tmp && tar -xzf move-anything.tar.gz"),
        ),
    );
    steps.push(
        run_step(
            "install",
            Some(String::from_str("Installing Move Everything...")),
            String::from_str("sudo /tmp/move-anything/install.sh"),
        ),
    );
    steps.push(
        run_step(
            "cleanup",
            Some(String::from_str("Cleaning up...")),
            String::from_str("rm -rf /tmp/move-anything /tmp/move-anything.tar.gz"),
        ),
    );
    assert(steps.deep_view() =~= core_steps_model(tarball_path@));
    Workflow {
        job: InstallJob {
            kind: JobKind::Core,
            artifact_path: String::from_str(tarball_path),
            target_directory: String::from_str("/data/UserData/move-anything"),
        },
        hostname: String::from_str(hostname),
        steps,
        completion: String::from_str("Installation complete!"),
        completed: 0,
        failure: None,
    }
}

/// Plans the install of the module `module_id` from the artifact at
/// `tarball_path` on the device at `hostname`.
///
/// The artifact is checked, copied to the device and unpacked there. What an
/// earlier install left at the module's place is removed before the new
/// content is moved in, so that installing again replaces and never mixes.
pub fn install_module(
    module_id: &str,
    tarball_path: &str,
    component_type: &str,
    hostname: &str,
) -> (workflow: Workflow)
    ensures
        workflow.deep_view() == install_module_model(
            module_id@,
            tarball_path@,
            component_type@,
            hostname@,
        ),
{
    let remote_tarball = concat3("/tmp/", module_id, "-module.tar.gz");
    let path = module_install_path(module_id, component_type);
    let mut announce = concat3("Installing ", module_id, " to ");
    announce.append(path.as_str());
    announce.append("...");
    let mut remove = String::from_str("rm -rf ");
    remove.append(path.as_str());
    let mut place = concat3("mv /tmp/", module_id, " ");
    place.append(path.as_str());
    let mut extract = String::from_str("cd /tmp && tar -xzf ");
    extract.append(remote_tarball.as_str());
    let mut cleanup = String::from_str("rm -f ");
    cleanup.append(remote_tarball.as_str());

    let mut steps: Vec<Step> = Vec::new();
    steps.push(
        step(
            "validate",
            Some(concat3("Validating ", module_id, " tarball...")),
            StepAction::Validate { path: String::from_str(tarball_path) },
            false,
        ),
    );
    steps.push(
        step(
            "upload",
            Some(concat3("Uploading ", module_id, " to Move...")),
            StepAction::Upload {
                local_path: String::from_str(tarball_path),
                remote_path: remote_tarball,
            },
            false,
        ),
    );
    steps.push(run_step("extract", Some(concat3("Extracting ", module_id, "...")), extract));
    match component_subdir(component_type) {
        Some(_) => {
            let mut prepare = String::from_str("mkdir -p ");
            prepare.append(module_parent(component_type).as_str());
            steps.push(run_step("prepare", Some(announce), prepare));
            steps.push(run_step("remove-previous", None, remove));
        },
        None => {
            steps.push(run_step("remove-previous", Some(announce), remove));
        },
    }
    steps.push(run_step("install", None, place));
    steps.push(run_step("cleanup", Some(concat3("Cleaning up ", module_id, "...")), cleanup));
    assert(steps.deep_view() =~= module_steps_model(module_id@, tarball_path@, component_type@));
    let mut completion = String::from_str(module_id);
    completion.append(" installed successfully!");
    Workflow {
        job: InstallJob {
            kind: JobKind::Module {
                module_id: String::from_str(module_id),
                component_type: String::from_str(component_type),
            },
            artifact_path: String::from_str(tarball_path),
            target_directory: path,
        },
        hostname: String::from_str(hostname),
        steps,
        completion,
        completed: 0,
        failure: None,
    }
}

/// The workflow `w` after its steps, one after the other, ended with `results`.
pub open spec fn run_model(w: WorkflowModel, results: Seq<Result<(), ErrorModel>>) -> WorkflowModel
    decreases results.len(),
{
    if results.len() == 0 {
        w
    } else {
        run_model(record_model(w, results[0]), results.drop_first())
    }
}

/// Counting from the pending step of `w`, the `k`-th result is a failure of a
/// step that must succeed.
pub open spec fn fatal_at(w: WorkflowModel, results: Seq<Result<(), ErrorModel>>, k: int) -> bool {
    &&& 0 <= k < results.len()
    &&& w.completed + k < w.steps.len()
    &&& results[k] is Err
    &&& !w.steps[w.completed + k].best_effort
}

/// Every component type is mapped, and to one of seven places: one of the six
/// subdirectories, or the modules root itself.
pub proof fn lemma_component_mapping_total(component_type: Seq<char>)
    ensures
        component_subdir_model(component_type) == Some("sound_generators"@)
            || component_subdir_model(component_type) == Some("audio_fx"@)
            || component_subdir_model(component_type) == Some("midi_fx"@)
            || component_subdir_model(component_type) == Some("utilities"@)
            || component_subdir_model(component_type) == Some("overtake"@)
            || component_subdir_model(component_type) == Some("other"@)
            || component_subdir_model(component_type) is None,
{
}

/// The known component types go where the table says.
pub proof fn lemma_component_table()
    ensures
        component_subdir_model("sound_generator"@) == Some("sound_generators"@),
        component_subdir_model("audio_fx"@) == Some("audio_fx"@),
        component_subdir_model("midi_fx"@) == Some("midi_fx"@),
        component_subdir_model("utility"@) == Some("utilities"@),
        component_subdir_model("overtake"@) == Some("overtake"@),
        component_subdir_model("featured"@) is None,
        component_subdir_model("system"@) is None,
{
    reveal_strlit("sound_generator");
    reveal_strlit("audio_fx");
    reveal_strlit("midi_fx");
    reveal_strlit("utility");
    reveal_strlit("overtake");
    reveal_strlit("featured");
    reveal_strlit("system");
    assert("audio_fx"@[0] != "midi_fx"@[0]);
    assert("overtake"@[0] != "audio_fx"@[0]);
    assert("overtake"@[0] != "midi_fx"@[0]);
    assert("featured"@[0] != "audio_fx"@[0]);
    assert("featured"@[0] != "midi_fx"@[0]);
    assert("featured"@[0] != "overtake"@[0]);
    assert("utility"@[0] != "midi_fx"@[0]);
    assert("utility"@.len() != "sound_generator"@.len());
    assert("utility"@.len() != "audio_fx"@.len());
    assert("system"@.len() != "sound_generator"@.len());
    assert("system"@.len() != "audio_fx"@.len());
    assert("system"@.len() != "midi_fx"@.len());
    assert("system"@.len() != "utility"@.len());
    assert("system"@.len() != "overtake"@.len());
}

/// A component type that the table does not name goes to `other`.
pub proof fn lemma_unknown_component_goes_to_other(component_type: Seq<char>)
    requires
        component_type != "sound_generator"@,
        component_type != "audio_fx"@,
        component_type != "midi_fx"@,
        component_type != "utility"@,
        component_type != "overtake"@,
        component_type != "featured"@,
        component_type != "system"@,
    ensures
        component_subdir_model(component_type) == Some("other"@),
{
}

/// In every module install, what stands at the module's place is removed
/// immediately before the new content is moved there, and both steps must
/// succeed. So whatever an earlier install of the module left, only the content
/// of the latest remains.
pub proof fn lemma_module_install_replaces(
    module_id: Seq<char>,
    tarball_path: Seq<char>,
    component_type: Seq<char>,
)
    ensures
        ({
            let steps = module_steps_model(module_id, tarball_path, component_type);
            let path = module_install_path_model(module_id, component_type);
            exists|k: int|
                0 <= k && k + 1 < steps.len() && #[trigger] steps[k] == must_run(
                    "remove-previous"@,
                    steps[k].progress,
                    "rm -rf "@ + path,
                ) && steps[k + 1] == must_run("install"@, None, "mv /tmp/"@ + module_id + " "@ + path)
        }),
{
    let steps = module_steps_model(module_id, tarball_path, component_type);
    match component_subdir_model(component_type) {
        Some(_) => {
            assert(steps[4].name == "remove-previous"@);
            assert(steps[5].name == "install"@);
        },
        None => {
            assert(steps[3].name == "remove-previous"@);
            assert(steps[4].name == "install"@);
        },
    }
}

/// A workflow that was aborted stays as it is, whatever is recorded.
pub proof fn lemma_aborted_is_final(w: WorkflowModel, results: Seq<Result<(), ErrorModel>>)
    requires
        w.failure is Some,
    ensures
        run_model(w, results) == w,
    decreases results.len(),
{
    if results.len() > 0 {
        lemma_aborted_is_final(w, results.drop_first());
    }
}

/// The first failure of a step that must succeed ends the workflow: that
/// step's error is reported under the step's name, and no later step runs.
pub proof fn lemma_first_failure_aborts(
    w: WorkflowModel,
    results: Seq<Result<(), ErrorModel>>,
    k: int,
)
    requires
        w.failure is None,
        0 <= w.completed,
        fatal_at(w, results, k),
        forall|j: int| 0 <= j < k ==> !fatal_at(w, results, j),
    ensures
        run_model(w, results).completed == w.completed + k,
        run_model(w, results).failure == Some(
            in_step(w.steps[w.completed + k].name, results[k]->Err_0),
        ),
        status_model(run_model(w, results)) is Aborted,
    decreases results.len(),
{
    let next = record_model(w, results[0]);
    let rest = results.drop_first();
    if k == 0 {
        lemma_aborted_is_final(next, rest);
    } else {
        assert(!fatal_at(w, results, 0));
        assert(next.completed == w.completed + 1);
        assert forall|j: int| 0 <= j < k - 1 implies !fatal_at(next, rest, j) by {
            assert(!fatal_at(w, results, j + 1));
        }
        lemma_first_failure_aborts(next, rest, k - 1);
    }
}

/// A workflow in which no step that must succeed fails runs all its steps and
/// completes.
pub proof fn lemma_no_failure_completes(w: WorkflowModel, results: Seq<Result<(), ErrorModel>>)
    requires
        w.failure is None,
        0 <= w.completed,
        w.completed + results.len() == w.steps.len(),
        forall|j: int| 0 <= j < results.len() ==> !fatal_at(w, results, j),
    ensures
        run_model(w, results).completed == w.steps.len(),
        status_model(run_model(w, results)) == StatusModel::Complete(w.completion),
    decreases results.len(),
{
    if results.len() > 0 {
        let next = record_model(w, results[0]);
        let rest = results.drop_first();
        assert(!fatal_at(w, results, 0));
        assert(next.completed == w.completed + 1);
        assert forall|j: int| 0 <= j < rest.len() implies !fatal_at(next, rest, j) by {
            assert(!fatal_at(w, results, j + 1));
        }
        lemma_no_failure_completes(next, rest);
    }
}

/// The core install completes when every step but the backup succeeds,
/// however the backup ends.
pub proof fn lemma_core_install_survives_backup(
    tarball_path: Seq<char>,
    hostname: Seq<char>,
    backup: Result<(), ErrorModel>,
)
    ensures
        status_model(
            run_model(
                install_main_package_model(tarball_path, hostname),
                seq![Ok(()), Ok(()), backup, Ok(()), Ok(()), Ok(())],
            ),
        ) == StatusModel::Complete("Installation complete!"@),
{
    let w = install_main_package_model(tarball_path, hostname);
    let results = seq![Ok(()), Ok(()), backup, Ok(()), Ok(()), Ok(())];
    assert(w.steps[2].best_effort);
    lemma_no_failure_completes(w, results);
}

} // verus!
