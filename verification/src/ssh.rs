//! Key manager: where the remote-shell tools live, which key pair to use, how to
//! make a new one, and the host alias in the client configuration.
//!
//! Paths are plain text joined with a forward slash, which every supported
//! platform accepts.

use vstd::prelude::*;
use vstd::string::*;
use crate::error::{failure, result_model, ErrorKind, ErrorModel, InstallerError};
use crate::process::{CommandLine, CommandLineModel, Launch};
use crate::text::{contains_line, holds_line, lists, occurs_at, stands_as_line};

verus! {

/// The remote-shell tools to invoke.
#[derive(Clone, Debug, PartialEq, Eq)]
pub struct SshPaths {
    pub ssh: String,
    pub ssh_keygen: String,
    pub scp: String,
}

/// The mathematical content of [`SshPaths`].
pub struct SshPathsModel {
    pub ssh: Seq<char>,
    pub ssh_keygen: Seq<char>,
    pub scp: Seq<char>,
}

impl DeepView for SshPaths {
    type V = SshPathsModel;

    open spec fn deep_view(&self) -> SshPathsModel {
        SshPathsModel { ssh: self.ssh@, ssh_keygen: self.ssh_keygen@, scp: self.scp@ }
    }
}

/// The platform the installer runs on, as far as the key manager cares.
#[derive(Clone, Debug, PartialEq, Eq)]
pub enum Platform {
    /// macOS or Linux: the system's own tools.
    Unix,
    /// Windows: tools bundled under the application's resource directory.
    Windows { resource_dir: String },
}

/// The mathematical content of a [`Platform`].
pub enum PlatformModel {
    Unix,
    Windows { resource_dir: Seq<char> },
}

impl DeepView for Platform {
    type V = PlatformModel;

    open spec fn deep_view(&self) -> PlatformModel {
        match self {
            Platform::Unix => PlatformModel::Unix,
            Platform::Windows { resource_dir } => PlatformModel::Windows {
                resource_dir: resource_dir@,
            },
        }
    }
}

/// A public key file and the private key file that goes with it.
#[derive(Clone, Debug, PartialEq, Eq)]
pub struct KeyPair {
    pub public_key_path: String,
    pub private_key_path: String,
}

/// The mathematical content of a [`KeyPair`].
pub struct KeyPairModel {
    pub public_key_path: Seq<char>,
    pub private_key_path: Seq<char>,
}

impl DeepView for KeyPair {
    type V = KeyPairModel;

    open spec fn deep_view(&self) -> KeyPairModel {
        KeyPairModel {
            public_key_path: self.public_key_path@,
            private_key_path: self.private_key_path@,
        }
    }
}

/// The entry `name` of the directory `dir`.
pub open spec fn child(dir: Seq<char>, name: Seq<char>) -> Seq<char> {
    dir + "/"@ + name
}

/// The tools for the given platform.
pub open spec fn ssh_paths_model(platform: PlatformModel) -> SshPathsModel {
    match platform {
        PlatformModel::Unix => SshPathsModel {
            ssh: "/usr/bin/ssh"@,
            ssh_keygen: "/usr/bin/ssh-keygen"@,
            scp: "/usr/bin/scp"@,
        },
        PlatformModel::Windows { resource_dir } => SshPathsModel {
            ssh: child(resource_dir, "bin/ssh.exe"@),
            ssh_keygen: child(resource_dir, "bin/ssh-keygen.exe"@),
            scp: child(resource_dir, "bin/scp.exe"@),
        },
    }
}

/// The secure-storage directory of the user whose home is `home`.
pub open spec fn ssh_dir(home: Seq<char>) -> Seq<char> {
    child(home, ".ssh"@)
}

/// The key pair called `name` in the secure-storage directory under `home`.
pub open spec fn key_pair_named(home: Seq<char>, name: Seq<char>) -> KeyPairModel {
    KeyPairModel {
        public_key_path: child(ssh_dir(home), name + ".pub"@),
        private_key_path: child(ssh_dir(home), name),
    }
}

/// The key pair that belongs to this tool.
pub open spec fn dedicated_pair(home: Seq<char>) -> KeyPairModel {
    key_pair_named(home, "ableton_move"@)
}

/// The key pairs to look for, in order of preference: the tool's own, then the
/// conventional ones.
pub open spec fn key_candidates_model(home: Seq<char>) -> Seq<KeyPairModel> {
    seq![
        dedicated_pair(home),
        key_pair_named(home, "id_ed25519"@),
        key_pair_named(home, "id_rsa"@),
        key_pair_named(home, "id_ecdsa"@),
    ]
}

/// Both halves of `pair` are among the files in `existing`.
pub open spec fn both_present(pair: KeyPairModel, existing: Seq<Seq<char>>) -> bool {
    existing.contains(pair.public_key_path) && existing.contains(pair.private_key_path)
}

/// The first of `candidates`, from index `from` on, of which both halves exist.
pub open spec fn first_present(
    candidates: Seq<KeyPairModel>,
    existing: Seq<Seq<char>>,
    from: int,
) -> Option<KeyPairModel>
    decreases candidates.len() - from,
{
    if from < 0 || from >= candidates.len() {
        None
    } else if both_present(candidates[from], existing) {
        Some(candidates[from])
    } else {
        first_present(candidates, existing, from + 1)
    }
}

/// The key pair to use, given the home directory and the files that exist.
pub open spec fn find_ssh_key_model(
    home: Option<Seq<char>>,
    existing: Seq<Seq<char>>,
) -> Option<KeyPairModel> {
    match home {
        None => None,
        Some(home) => first_present(key_candidates_model(home), existing, 0),
    }
}

/// What a permission change applies to.
#[derive(Clone, Copy, Debug, PartialEq, Eq, Structural)]
pub enum Restricted {
    /// The secure-storage directory.
    Directory,
    /// The private key file.
    PrivateKey,
}

/// One thing to do, in order, to make a new key pair.
#[derive(Clone, Debug, PartialEq, Eq)]
pub enum KeygenStep {
    /// Create the directory and its parents, unless they exist.
    CreateDirectory { path: String },
    /// Keep `path` to its owner. `mode` gives the permission bits to set where
    /// the platform has them; elsewhere the same access is to be granted by
    /// the platform's own means.
    Restrict { target: Restricted, path: String, mode: u32 },
    /// Run the key-generation tool.
    RunKeygen { command: CommandLine },
}

/// The mathematical content of a [`KeygenStep`].
pub enum KeygenStepModel {
    CreateDirectory { path: Seq<char> },
    Restrict { target: Restricted, path: Seq<char>, mode: u32 },
    RunKeygen { command: CommandLineModel },
}

impl DeepView for KeygenStep {
    type V = KeygenStepModel;

    open spec fn deep_view(&self) -> KeygenStepModel {
        match self {
            KeygenStep::CreateDirectory { path } => KeygenStepModel::CreateDirectory { path: path@ },
            KeygenStep::Restrict { target, path, mode } => KeygenStepModel::Restrict {
                target: *target,
                path: path@,
                mode: *mode,
            },
            KeygenStep::RunKeygen { command } => KeygenStepModel::RunKeygen {
                command: command.deep_view(),
            },
        }
    }
}

/// How to make the tool's own key pair, and where it will be.
#[derive(Clone, Debug, PartialEq, Eq)]
pub struct KeygenPlan {
    pub steps: Vec<KeygenStep>,
    pub key_pair: KeyPair,
}

/// The mathematical content of a [`KeygenPlan`].
pub struct KeygenPlanModel {
    pub steps: Seq<KeygenStepModel>,
    pub key_pair: KeyPairModel,
}

impl DeepView for KeygenPlan {
    type V = KeygenPlanModel;

    open spec fn deep_view(&self) -> KeygenPlanModel {
        KeygenPlanModel { steps: self.steps.deep_view(), key_pair: self.key_pair.deep_view() }
    }
}

/// Why the permission bits of a path were not changed.
#[derive(Clone, Debug, PartialEq, Eq)]
pub enum RestrictFault {
    /// The present permissions could not be read.
    Unreadable { reason: String },
    /// The new permissions were refused.
    Refused { reason: String },
}

/// Owner may read, write and enter; nobody else may do anything.
pub const DIRECTORY_MODE: u32 = 0o700;

/// Owner may read and write; nobody else may do anything.
pub const PRIVATE_KEY_MODE: u32 = 0o600;

/// The comment that marks a key as made by this tool on the machine `host_name`.
pub open spec fn keygen_comment(host_name: Seq<char>) -> Seq<char> {
    "move-installer@"@ + host_name
}

/// The invocation that writes an Ed25519 key pair without passphrase to
/// `key_path` and `key_path` with `.pub` appended.
pub open spec fn keygen_command_model(
    keygen: Seq<char>,
    key_path: Seq<char>,
    host_name: Seq<char>,
) -> CommandLineModel {
    CommandLineModel {
        program: keygen,
        args: seq![
            "-t"@,
            "ed25519"@,
            "-N"@,
            ""@,
            "-f"@,
            key_path,
            "-C"@,
            keygen_comment(host_name),
        ],
    }
}

/// The steps that make the tool's own key pair under `home`: create the
/// secure-storage directory, keep it to its owner, run the key-generation
/// tool, keep the private key to its owner. They are the same on every
/// platform; the platform only says which tool to run.
pub open spec fn keygen_steps_model(
    platform: PlatformModel,
    home: Seq<char>,
    host_name: Seq<char>,
) -> Seq<KeygenStepModel> {
    seq![
        KeygenStepModel::CreateDirectory { path: ssh_dir(home) },
        KeygenStepModel::Restrict {
            target: Restricted::Directory,
            path: ssh_dir(home),
            mode: DIRECTORY_MODE,
        },
        KeygenStepModel::RunKeygen {
            command: keygen_command_model(
                ssh_paths_model(platform).ssh_keygen,
                dedicated_pair(home).private_key_path,
                host_name,
            ),
        },
        KeygenStepModel::Restrict {
            target: Restricted::PrivateKey,
            path: dedicated_pair(home).private_key_path,
            mode: PRIVATE_KEY_MODE,
        },
    ]
}

/// The plan for a new key pair, or the refusal when the home directory is unknown.
pub open spec fn generate_ssh_key_model(
    platform: PlatformModel,
    home: Option<Seq<char>>,
    host_name: Seq<char>,
) -> Result<KeygenPlanModel, ErrorModel> {
    match home {
        None => failure(ErrorKind::HomeDirUnavailable, "Cannot determine home directory"@),
        Some(home) => Ok(
            KeygenPlanModel {
                steps: keygen_steps_model(platform, home, host_name),
                key_pair: dedicated_pair(home),
            },
        ),
    }
}

/// The entry `name` of the directory `dir`.
pub fn child_path(dir: &str, name: &str) -> (path: String)
    ensures
        path@ == child(dir@, name@),
{
    let mut path = String::from_str(dir);
    path.append("/");
    path.append(name);
    path
}

/// The remote-shell tools of the given platform.
pub fn get_ssh_paths(platform: &Platform) -> (paths: SshPaths)
    ensures
        paths.deep_view() == ssh_paths_model(platform.deep_view()),
{
    match platform {
        Platform::Unix => SshPaths {
            ssh: String::from_str("/usr/bin/ssh"),
            ssh_keygen: String::from_str("/usr/bin/ssh-keygen"),
            scp: String::from_str("/usr/bin/scp"),
        },
        Platform::Windows { resource_dir } => SshPaths {
            ssh: child_path(resource_dir.as_str(), "bin/ssh.exe"),
            ssh_keygen: child_path(resource_dir.as_str(), "bin/ssh-keygen.exe"),
            scp: child_path(resource_dir.as_str(), "bin/scp.exe"),
        },
    }
}

fn key_pair_at(home: &str, name: &str) -> (pair: KeyPair)
    ensures
        pair.deep_view() == key_pair_named(home@, name@),
{
    let dir = child_path(home, ".ssh");
    let mut public_name = String::from_str(name);
    public_name.append(".pub");
    KeyPair {
        public_key_path: child_path(dir.as_str(), public_name.as_str()),
        private_key_path: child_path(dir.as_str(), name),
    }
}

/// The key pairs to look for under `home`, in order of preference.
pub fn key_candidates(home: &str) -> (candidates: Vec<KeyPair>)
    ensures
        candidates.deep_view() == key_candidates_model(home@),
{
    let mut candidates: Vec<KeyPair> = Vec::new();
    candidates.push(key_pair_at(home, "ableton_move"));
    candidates.push(key_pair_at(home, "id_ed25519"));
    candidates.push(key_pair_at(home, "id_rsa"));
    candidates.push(key_pair_at(home, "id_ecdsa"));
    assert(candidates.deep_view() =~= key_candidates_model(home@));
    candidates
}

/// The existing key pair to use, if there is one.
///
/// `existing` names the files that were found to exist. The tool's own pair is
/// preferred to the conventional ones, and a pair counts only with both halves.
pub fn find_ssh_key(home: Option<&str>, existing: &Vec<String>) -> (found: Option<KeyPair>)
    ensures
        found.deep_view() == find_ssh_key_model(home.deep_view(), existing.deep_view()),
{
    let dir = match home {
        None => {
            return None;
        },
        Some(dir) => dir,
    };
    let mut candidates = key_candidates(dir);
    let ghost all = candidates.deep_view();
    let ghost files = existing.deep_view();
    let mut i: usize = 0;
    while i < candidates.len()
        invariant
            i <= candidates.len(),
            candidates.deep_view() == all,
            files == existing.deep_view(),
            find_ssh_key_model(home.deep_view(), files) == first_present(all, files, i as int),
        decreases candidates.len() - i,
    {
        assert(candidates.deep_view()[i as int] == candidates@[i as int].deep_view());
        let public_there = lists(existing, candidates[i].public_key_path.as_str());
        let private_there = lists(existing, candidates[i].private_key_path.as_str());
        if public_there && private_there {
            let pair = candidates.swap_remove(i);
            return Some(pair);
        }
        i += 1;
    }
    None
}

/// The key pair that is found is the first candidate with both halves, and
/// none is found only when no candidate has both.
pub proof fn lemma_find_takes_the_first(home: Seq<char>, existing: Seq<Seq<char>>)
    ensures
        match find_ssh_key_model(Some(home), existing) {
            Some(pair) => exists|i: int|
                0 <= i < key_candidates_model(home).len() && key_candidates_model(home)[i] == pair
                    && both_present(pair, existing) && forall|j: int|
                    0 <= j < i ==> !both_present(#[trigger] key_candidates_model(home)[j], existing),
            None => forall|j: int|
                0 <= j < key_candidates_model(home).len() ==> !both_present(
                    #[trigger] key_candidates_model(home)[j],
                    existing,
                ),
        },
{
    let all = key_candidates_model(home);
    reveal_with_fuel(first_present, 5);
    if both_present(all[0], existing) {
        assert(find_ssh_key_model(Some(home), existing) == Some(all[0]));
    } else if both_present(all[1], existing) {
        assert(find_ssh_key_model(Some(home), existing) == Some(all[1]));
    } else if both_present(all[2], existing) {
        assert(find_ssh_key_model(Some(home), existing) == Some(all[2]));
    } else if both_present(all[3], existing) {
        assert(find_ssh_key_model(Some(home), existing) == Some(all[3]));
    } else {
        assert(find_ssh_key_model(Some(home), existing) is None);
    }
}

/// When both halves of the tool's own key pair exist, that pair is found,
/// whatever conventional pairs exist beside it.
pub proof fn lemma_dedicated_pair_wins(home: Seq<char>, existing: Seq<Seq<char>>)
    requires
        both_present(dedicated_pair(home), existing),
    ensures
        find_ssh_key_model(Some(home), existing) == Some(dedicated_pair(home)),
{
}

/// The search is a function of the home directory and of the set of files that
/// exist: two lists that name the same files give the same answer.
pub proof fn lemma_find_depends_on_files_only(
    home: Option<Seq<char>>,
    first: Seq<Seq<char>>,
    second: Seq<Seq<char>>,
)
    requires
        first.to_set() == second.to_set(),
    ensures
        find_ssh_key_model(home, first) == find_ssh_key_model(home, second),
{
    assert forall|path: Seq<char>| first.contains(path) == second.contains(path) by {
        assert(first.contains(path) == first.to_set().contains(path));
        assert(second.contains(path) == second.to_set().contains(path));
    }
    if let Some(h) = home {
        reveal_with_fuel(first_present, 5);
    }
}

/// The invocation of the key-generation tool.
pub fn keygen_command(keygen: &str, key_path: &str, host_name: &str) -> (command: CommandLine)
    ensures
        command.deep_view() == keygen_command_model(keygen@, key_path@, host_name@),
{
    let mut comment = String::from_str("move-installer@");
    comment.append(host_name);
    let mut args: Vec<String> = Vec::new();
    args.push(String::from_str("-t"));
    args.push(String::from_str("ed25519"));
    args.push(String::from_str("-N"));
    args.push(String::from_str(""));
    args.push(String::from_str("-f"));
    args.push(String::from_str(key_path));
    args.push(String::from_str("-C"));
    args.push(comment);
    let command = CommandLine { program: String::from_str(keygen), args };
    assert(command.args.deep_view() =~= keygen_command_model(keygen@, key_path@, host_name@).args);
    command
}

/// Plans a new key pair for this tool in the secure-storage directory under `home`.
///
/// The plan creates the directory, keeps it to its owner, runs the
/// key-generation tool and keeps the private key to its owner. Carrying it out
/// replaces a pair that is already there: look for one with [`find_ssh_key`] first.
pub fn generate_ssh_key(platform: &Platform, home: Option<&str>, host_name: &str) -> (plan: Result<
    KeygenPlan,
    InstallerError,
>)
    ensures
        result_model(plan) == generate_ssh_key_model(
            platform.deep_view(),
            home.deep_view(),
            host_name@,
        ),
{
    let dir = match home {
        None => {
            return Err(
                InstallerError {
                    kind: ErrorKind::HomeDirUnavailable,
                    message: String::from_str("Cannot determine home directory"),
                },
            );
        },
        Some(dir) => dir,
    };
    let paths = get_ssh_paths(platform);
    let key_pair = key_pair_at(dir, "ableton_move");
    let storage = child_path(dir, ".ssh");
    let command = keygen_command(
        paths.ssh_keygen.as_str(),
        key_pair.private_key_path.as_str(),
        host_name,
    );
    let mut steps: Vec<KeygenStep> = Vec::new();
    steps.push(KeygenStep::CreateDirectory { path: storage.clone() });
    steps.push(
        KeygenStep::Restrict { target: Restricted::Directory, path: storage, mode: DIRECTORY_MODE },
    );
    steps.push(KeygenStep::RunKeygen { command });
    steps.push(
        KeygenStep::Restrict {
            target: Restricted::PrivateKey,
            path: key_pair.private_key_path.clone(),
            mode: PRIVATE_KEY_MODE,
        },
    );
    assert(steps.deep_view() =~= keygen_steps_model(platform.deep_view(), dir@, host_name@));
    Ok(KeygenPlan { steps, key_pair })
}

/// Where key generation stands.
#[derive(Debug, PartialEq, Eq)]
pub enum KeygenProgress<'a> {
    /// This step is to be carried out next.
    Next(&'a KeygenStep),
    /// Every step succeeded: the key pair is there.
    Made(KeyPair),
    /// A step failed, and nothing further is to be done.
    Failed(InstallerError),
}

/// The mathematical content of a [`KeygenProgress`].
pub enum KeygenProgressModel {
    Next(KeygenStepModel),
    Made(KeyPairModel),
    Failed(ErrorModel),
}

impl<'a> DeepView for KeygenProgress<'a> {
    type V = KeygenProgressModel;

    open spec fn deep_view(&self) -> KeygenProgressModel {
        match self {
            KeygenProgress::Next(step) => KeygenProgressModel::Next(step.deep_view()),
            KeygenProgress::Made(pair) => KeygenProgressModel::Made(pair.deep_view()),
            KeygenProgress::Failed(error) => KeygenProgressModel::Failed(error.deep_view()),
        }
    }
}

/// The mathematical content of the verdicts on the steps carried out so far.
pub open spec fn verdict_models(verdicts: Seq<Result<(), InstallerError>>) -> Seq<
    Result<(), ErrorModel>,
> {
    Seq::new(verdicts.len(), |i: int| result_model(verdicts[i]))
}

/// The first failure among `verdicts`, from index `from` on.
pub open spec fn first_failure(verdicts: Seq<Result<(), ErrorModel>>, from: int) -> Option<
    ErrorModel,
>
    decreases verdicts.len() - from,
{
    if from < 0 || from >= verdicts.len() {
        None
    } else {
        match verdicts[from] {
            Err(error) => Some(error),
            Ok(_) => first_failure(verdicts, from + 1),
        }
    }
}

/// Where key generation stands once the first steps of `plan` ended with
/// `verdicts`, in order: failed with the first failure, else at the next step,
/// else done.
pub open spec fn keygen_progress_model(
    plan: KeygenPlanModel,
    verdicts: Seq<Result<(), ErrorModel>>,
) -> KeygenProgressModel {
    match first_failure(verdicts, 0) {
        Some(error) => KeygenProgressModel::Failed(error),
        None => if verdicts.len() < plan.steps.len() {
            KeygenProgressModel::Next(plan.steps[verdicts.len() as int])
        } else {
            KeygenProgressModel::Made(plan.key_pair)
        },
    }
}

/// Decides how key generation goes on once the first steps of `plan` ended
/// with `verdicts`, in order.
///
/// The first failure ends it. The key pair is handed out only when there is a
/// verdict for every step and none is a failure.
pub fn keygen_progress<'a>(
    plan: &'a KeygenPlan,
    verdicts: &Vec<Result<(), InstallerError>>,
) -> (progress: KeygenProgress<'a>)
    ensures
        progress.deep_view() == keygen_progress_model(plan.deep_view(), verdict_models(verdicts@)),
{
    let ghost judged = verdict_models(verdicts@);
    let mut i: usize = 0;
    while i < verdicts.len()
        invariant
            i <= verdicts.len(),
            judged == verdict_models(verdicts@),
            first_failure(judged, 0) == first_failure(judged, i as int),
        decreases verdicts.len() - i,
    {
        assert(judged[i as int] == result_model(verdicts@[i as int]));
        match &verdicts[i] {
            Err(error) => {
                return KeygenProgress::Failed(
                    InstallerError { kind: error.kind, message: error.message.clone() },
                );
            },
            Ok(_) => {},
        }
        i += 1;
    }
    if verdicts.len() < plan.steps.len() {
        assert(plan.steps.deep_view()[verdicts.len() as int]
            == plan.steps@[verdicts.len() as int].deep_view());
        KeygenProgress::Next(&plan.steps[verdicts.len()])
    } else {
        KeygenProgress::Made(
            KeyPair {
                public_key_path: plan.key_pair.public_key_path.clone(),
                private_key_path: plan.key_pair.private_key_path.clone(),
            },
        )
    }
}

/// No failure is found exactly when every verdict is a success, and the
/// failure that is found is the first in order.
pub proof fn lemma_first_failure(verdicts: Seq<Result<(), ErrorModel>>, from: int)
    requires
        0 <= from,
    ensures
        match first_failure(verdicts, from) {
            Some(error) => exists|i: int|
                from <= i < verdicts.len() && verdicts[i] == Err::<(), ErrorModel>(error)
                    && forall|j: int| from <= j < i ==> (#[trigger] verdicts[j]) is Ok,
            None => forall|j: int| from <= j < verdicts.len() ==> (#[trigger] verdicts[j]) is Ok,
        },
    decreases verdicts.len() - from,
{
    if from < verdicts.len() {
        match verdicts[from] {
            Err(error) => {
                assert(from <= from < verdicts.len() && verdicts[from] == Err::<(), ErrorModel>(
                    error,
                ));
            },
            Ok(_) => {
                lemma_first_failure(verdicts, from + 1);
            },
        }
    }
}

/// The key pair is handed out only after every step of the plan was carried
/// out and succeeded.
pub proof fn lemma_key_pair_only_after_all_steps(
    plan: KeygenPlanModel,
    verdicts: Seq<Result<(), ErrorModel>>,
)
    requires
        keygen_progress_model(plan, verdicts) is Made,
    ensures
        verdicts.len() >= plan.steps.len(),
        forall|j: int| 0 <= j < verdicts.len() ==> (#[trigger] verdicts[j]) is Ok,
        keygen_progress_model(plan, verdicts) == KeygenProgressModel::Made(plan.key_pair),
{
    lemma_first_failure(verdicts, 0);
}

/// Judges the attempt to create the secure-storage directory.
pub fn directory_created(attempt: &Result<(), String>) -> (verdict: Result<(), InstallerError>)
    ensures
        match *attempt {
            Ok(_) => verdict is Ok,
            Err(reason) => result_model(verdict) == failure::<()>(
                ErrorKind::PermissionError,
                "Failed to create .ssh directory: "@ + reason@,
            ),
        },
{
    match attempt {
        Ok(_) => Ok(()),
        Err(reason) => {
            let mut message = String::from_str("Failed to create .ssh directory: ");
            message.append(reason.as_str());
            Err(InstallerError { kind: ErrorKind::PermissionError, message })
        },
    }
}

/// What is said when the permissions of `target` cannot be read (`reading`) or set.
pub open spec fn restrict_failure_prefix(target: Restricted, reading: bool) -> Seq<char> {
    match target {
        Restricted::Directory => if reading {
            "Failed to read .ssh permissions: "@
        } else {
            "Failed to set .ssh permissions: "@
        },
        Restricted::PrivateKey => if reading {
            "Failed to read key permissions: "@
        } else {
            "Failed to set key permissions: "@
        },
    }
}

/// Judges the attempt to keep `target` to its owner.
pub fn permissions_restricted(target: Restricted, attempt: &Result<(), RestrictFault>) -> (verdict:
    Result<(), InstallerError>)
    ensures
        match *attempt {
            Ok(_) => verdict is Ok,
            Err(RestrictFault::Unreadable { reason }) => result_model(verdict) == failure::<()>(
                ErrorKind::PermissionError,
                restrict_failure_prefix(target, true) + reason@,
            ),
            Err(RestrictFault::Refused { reason }) => result_model(verdict) == failure::<()>(
                ErrorKind::PermissionError,
                restrict_failure_prefix(target, false) + reason@,
            ),
        },
{
    match attempt {
        Ok(_) => Ok(()),
        Err(RestrictFault::Unreadable { reason }) => {
            let mut message = match target {
                Restricted::Directory => String::from_str("Failed to read .ssh permissions: "),
                Restricted::PrivateKey => String::from_str("Failed to read key permissions: "),
            };
            message.append(reason.as_str());
            Err(InstallerError { kind: ErrorKind::PermissionError, message })
        },
        Err(RestrictFault::Refused { reason }) => {
            let mut message = match target {
                Restricted::Directory => String::from_str("Failed to set .ssh permissions: "),
                Restricted::PrivateKey => String::from_str("Failed to set key permissions: "),
            };
            message.append(reason.as_str());
            Err(InstallerError { kind: ErrorKind::PermissionError, message })
        },
    }
}

/// Judges the run of the key-generation tool.
pub fn keygen_finished(launch: &Launch) -> (verdict: Result<(), InstallerError>)
    ensures
        match *launch {
            Launch::Failed { reason } => result_model(verdict) == failure::<()>(
                ErrorKind::KeygenFailed,
                "Failed to run ssh-keygen: "@ + reason@,
            ),
            Launch::Exited(run) => if run.succeeded {
                verdict is Ok
            } else {
                result_model(verdict) == failure::<()>(
                    ErrorKind::KeygenFailed,
                    "ssh-keygen failed: "@ + run.stderr@,
                )
            },
        },
{
    match launch {
        Launch::Failed { reason } => {
            let mut message = String::from_str("Failed to run ssh-keygen: ");
            message.append(reason.as_str());
            Err(InstallerError { kind: ErrorKind::KeygenFailed, message })
        },
        Launch::Exited(run) => {
            if run.succeeded {
                Ok(())
            } else {
                let mut message = String::from_str("ssh-keygen failed: ");
                message.append(run.stderr.as_str());
                Err(InstallerError { kind: ErrorKind::KeygenFailed, message })
            }
        },
    }
}

/// Judges the attempt to read a public key file: its content, or why there is none.
pub fn read_pubkey(attempt: Result<String, String>) -> (content: Result<String, InstallerError>)
    ensures
        match attempt {
            Ok(text) => result_model(content) == Ok::<Seq<char>, ErrorModel>(text@),
            Err(reason) => result_model(content) == failure::<Seq<char>>(
                ErrorKind::IOError,
                "Failed to read public key: "@ + reason@,
            ),
        },
{
    match attempt {
        Ok(text) => Ok(text),
        Err(reason) => {
            let mut message = String::from_str("Failed to read public key: ");
            message.append(reason.as_str());
            Err(InstallerError { kind: ErrorKind::IOError, message })
        },
    }
}

/// The options every remote-shell invocation starts with: give up connecting
/// after three seconds, accept the key of a host seen for the first time
/// without asking, and log errors only.
pub open spec fn connection_policy_model() -> Seq<Seq<char>> {
    seq![
        "-o"@,
        "ConnectTimeout=3"@,
        "-o"@,
        "StrictHostKeyChecking=accept-new"@,
        "-o"@,
        "LogLevel=ERROR"@,
    ]
}

/// The account on the device at `hostname`.
pub open spec fn remote_account_model(hostname: Seq<char>) -> Seq<char> {
    "ableton@"@ + hostname
}

/// The invocation that tells whether the device lets this machine in without
/// asking for anything.
pub open spec fn test_ssh_command_model(ssh: Seq<char>, hostname: Seq<char>) -> CommandLineModel {
    CommandLineModel {
        program: ssh,
        args: connection_policy_model() + seq![
            "-o"@,
            "BatchMode=yes"@,
            remote_account_model(hostname),
            "true"@,
        ],
    }
}

/// The options every remote-shell invocation starts with.
pub fn connection_policy() -> (args: Vec<String>)
    ensures
        args.deep_view() == connection_policy_model(),
{
    let mut args: Vec<String> = Vec::new();
    args.push(String::from_str("-o"));
    args.push(String::from_str("ConnectTimeout=3"));
    args.push(String::from_str("-o"));
    args.push(String::from_str("StrictHostKeyChecking=accept-new"));
    args.push(String::from_str("-o"));
    args.push(String::from_str("LogLevel=ERROR"));
    assert(args.deep_view() =~= connection_policy_model());
    args
}

/// The account on the device at `hostname`.
pub fn remote_account(hostname: &str) -> (account: String)
    ensures
        account@ == remote_account_model(hostname@),
{
    let mut account = String::from_str("ableton@");
    account.append(hostname);
    account
}

/// The invocation that tests remote-shell access to the device.
pub fn test_ssh_command(paths: &SshPaths, hostname: &str) -> (command: CommandLine)
    ensures
        command.deep_view() == test_ssh_command_model(paths.ssh@, hostname@),
{
    let mut args = connection_policy();
    args.push(String::from_str("-o"));
    args.push(String::from_str("BatchMode=yes"));
    args.push(remote_account(hostname));
    args.push(String::from_str("true"));
    let command = CommandLine { program: paths.ssh.clone(), args };
    assert(command.args.deep_view() =~= test_ssh_command_model(paths.ssh@, hostname@).args);
    command
}

/// Judges the test of remote-shell access: whether the device let this machine
/// in, or why the test could not be made.
pub fn test_ssh_connection(launch: &Launch) -> (reachable: Result<bool, InstallerError>)
    ensures
        match *launch {
            Launch::Failed { reason } => result_model(reachable) == failure::<bool>(
                ErrorKind::LaunchError,
                "Failed to run ssh: "@ + reason@,
            ),
            Launch::Exited(run) => reachable == Ok::<bool, InstallerError>(run.succeeded),
        },
{
    match launch {
        Launch::Failed { reason } => {
            let mut message = String::from_str("Failed to run ssh: ");
            message.append(reason.as_str());
            Err(InstallerError { kind: ErrorKind::LaunchError, message })
        },
        Launch::Exited(run) => Ok(run.succeeded),
    }
}

/// The client configuration file as it was found.
#[derive(Clone, Debug, PartialEq, Eq)]
pub enum ConfigFile {
    /// There is no such file.
    Missing,
    /// The file exists and could not be read.
    Unreadable { reason: String },
    /// The file and what it holds.
    Present { content: String },
}

/// What to do to the client configuration file.
#[derive(Clone, Debug, PartialEq, Eq)]
pub struct ConfigEdit {
    /// The file to change.
    pub path: String,
    /// The text to append, creating the file if need be; nothing when the file is to stay as it is.
    pub append: Option<String>,
}

/// The mathematical content of a [`ConfigFile`].
pub enum ConfigFileModel {
    Missing,
    Unreadable { reason: Seq<char> },
    Present { content: Seq<char> },
}

impl DeepView for ConfigFile {
    type V = ConfigFileModel;

    open spec fn deep_view(&self) -> ConfigFileModel {
        match self {
            ConfigFile::Missing => ConfigFileModel::Missing,
            ConfigFile::Unreadable { reason } => ConfigFileModel::Unreadable { reason: reason@ },
            ConfigFile::Present { content } => ConfigFileModel::Present { content: content@ },
        }
    }
}

/// The mathematical content of a [`ConfigEdit`].
pub struct ConfigEditModel {
    pub path: Seq<char>,
    pub append: Option<Seq<char>>,
}

impl DeepView for ConfigEdit {
    type V = ConfigEditModel;

    open spec fn deep_view(&self) -> ConfigEditModel {
        ConfigEditModel { path: self.path@, append: self.append.deep_view() }
    }
}

/// Why text could not be appended to a file.
#[derive(Clone, Debug, PartialEq, Eq)]
pub enum AppendFault {
    /// The file could not be opened or created.
    Open { reason: String },
    /// The file was opened and the text could not be written.
    Write { reason: String },
}

/// The client configuration file of the user whose home is `home`.
pub open spec fn config_path_model(home: Seq<char>) -> Seq<char> {
    child(home, ".ssh/config"@)
}

/// The line by which the host alias is recognised.
pub open spec fn config_marker() -> Seq<char> {
    "Host move"@
}

/// What the host alias block holds before its marker line.
pub open spec fn config_entry_head() -> Seq<char> {
    "\n# Added by Move Everything Installer"@
}

/// What the host alias block holds after its marker line.
pub open spec fn config_entry_tail() -> Seq<char> {
    "  HostName move.local\n  User ableton\n  IdentityFile ~/.ssh/ableton_move\n  IdentitiesOnly yes\n"@
}

/// The host alias block: an empty line, a comment, the marker line, and the settings.
pub open spec fn config_entry() -> Seq<char> {
    config_entry_head() + "\n"@ + config_marker() + "\n"@ + config_entry_tail()
}

/// What has to be appended to a configuration that holds `content`: the host
/// alias block, unless the marker stands there as a line of its own.
pub open spec fn config_addition(content: Seq<char>) -> Option<Seq<char>> {
    if holds_line(content, config_marker()) {
        None
    } else {
        Some(config_entry())
    }
}

/// What a configuration that held `content` holds once the addition is made.
pub open spec fn config_after(content: Seq<char>) -> Seq<char> {
    match config_addition(content) {
        None => content,
        Some(entry) => content + entry,
    }
}

/// The change to make to the configuration of the user whose home is `home`,
/// or why none can be decided.
pub open spec fn write_ssh_config_model(
    home: Option<Seq<char>>,
    file: ConfigFileModel,
) -> Result<ConfigEditModel, ErrorModel> {
    match home {
        None => failure(ErrorKind::HomeDirUnavailable, "Cannot determine home directory"@),
        Some(home) => match file {
            ConfigFileModel::Unreadable { reason } => failure(
                ErrorKind::IOError,
                "Failed to read SSH config: "@ + reason,
            ),
            ConfigFileModel::Missing => Ok(
                ConfigEditModel {
                    path: config_path_model(home),
                    append: config_addition(Seq::empty()),
                },
            ),
            ConfigFileModel::Present { content } => Ok(
                ConfigEditModel { path: config_path_model(home), append: config_addition(content) },
            ),
        },
    }
}

/// The client configuration file of the user whose home is `home`.
pub fn config_path(home: &str) -> (path: String)
    ensures
        path@ == config_path_model(home@),
{
    child_path(home, ".ssh/config")
}

/// Decides how to change the client configuration so that it holds the host
/// alias for the device exactly once.
///
/// A file that holds the marker line stays as it is. A missing file counts as
/// an empty one.
pub fn write_ssh_config(home: Option<&str>, file: &ConfigFile) -> (edit: Result<
    ConfigEdit,
    InstallerError,
>)
    ensures
        result_model(edit) == write_ssh_config_model(home.deep_view(), file.deep_view()),
{
    let dir = match home {
        None => {
            return Err(
                InstallerError {
                    kind: ErrorKind::HomeDirUnavailable,
                    message: String::from_str("Cannot determine home directory"),
                },
            );
        },
        Some(dir) => dir,
    };
    let path = config_path(dir);
    let present = match file {
        ConfigFile::Missing => {
            proof {
                lemma_empty_config_lacks_marker();
            }
            false
        },
        ConfigFile::Unreadable { reason } => {
            let mut message = String::from_str("Failed to read SSH config: ");
            message.append(reason.as_str());
            return Err(InstallerError { kind: ErrorKind::IOError, message });
        },
        ConfigFile::Present { content } => contains_line(content.as_str(), "Host move"),
    };
    if present {
        Ok(ConfigEdit { path, append: None })
    } else {
        let mut entry = String::from_str("\n# Added by Move Everything Installer");
        entry.append("\n");
        entry.append("Host move");
        entry.append("\n");
        entry.append(
            "  HostName move.local\n  User ableton\n  IdentityFile ~/.ssh/ableton_move\n  IdentitiesOnly yes\n",
        );
        Ok(ConfigEdit { path, append: Some(entry) })
    }
}

/// Judges the attempt to append the host alias block.
pub fn config_appended(attempt: &Result<(), AppendFault>) -> (verdict: Result<(), InstallerError>)
    ensures
        match *attempt {
            Ok(_) => verdict is Ok,
            Err(AppendFault::Open { reason }) => result_model(verdict) == failure::<()>(
                ErrorKind::IOError,
                "Failed to open SSH config: "@ + reason@,
            ),
            Err(AppendFault::Write { reason }) => result_model(verdict) == failure::<()>(
                ErrorKind::IOError,
                "Failed to write SSH config: "@ + reason@,
            ),
        },
{
    match attempt {
        Ok(_) => Ok(()),
        Err(AppendFault::Open { reason }) => {
            let mut message = String::from_str("Failed to open SSH config: ");
            message.append(reason.as_str());
            Err(InstallerError { kind: ErrorKind::IOError, message })
        },
        Err(AppendFault::Write { reason }) => {
            let mut message = String::from_str("Failed to write SSH config: ");
            message.append(reason.as_str());
            Err(InstallerError { kind: ErrorKind::IOError, message })
        },
    }
}

/// An empty configuration does not hold the marker line.
pub proof fn lemma_empty_config_lacks_marker()
    ensures
        config_addition(Seq::empty()) == Some(config_entry()),
{
    reveal_strlit("Host move");
    assert forall|at: int| !stands_as_line(Seq::<char>::empty(), config_marker(), at) by {
        assert(config_marker().len() == 9);
    }
}

/// A configuration to which the host alias block was appended holds the
/// marker as a line of its own.
pub proof fn lemma_entry_holds_marker(content: Seq<char>)
    ensures
        holds_line(content + config_entry(), config_marker()),
{
    reveal_strlit("\n");
    let at = (content.len() + config_entry_head().len() + 1) as int;
    let whole = content + config_entry();
    let size = config_marker().len() as int;
    assert(whole.subrange(at, at + size) =~= config_marker());
    assert(whole[at - 1] == '\n');
    assert(whole[at + size] == '\n');
    assert(stands_as_line(whole, config_marker(), at));
}

/// Writing the host alias twice leaves the configuration as writing it once does.
pub proof fn lemma_config_written_once(content: Seq<char>)
    ensures
        config_after(config_after(content)) == config_after(content),
        config_addition(config_after(content)) is None,
{
    if !holds_line(content, config_marker()) {
        lemma_entry_holds_marker(content);
    }
}

/// The marker text inside a longer line is no marker line: a configuration
/// in which something other than a new line follows every occurrence of the
/// marker text gets the host alias block.
pub proof fn lemma_marker_inside_a_line_does_not_count(content: Seq<char>)
    requires
        forall|at: int| #[trigger]
            occurs_at(content, config_marker(), at) ==> at + config_marker().len() < content.len()
                && content[at + config_marker().len()] != '\n',
    ensures
        config_addition(content) == Some(config_entry()),
        config_after(content) == content + config_entry(),
{
    assert forall|at: int| !stands_as_line(content, config_marker(), at) by {
        if occurs_at(content, config_marker(), at) {
        }
    }
}

proof fn lemma_block_pieces()
    ensures
        config_marker().len() == 9,
        config_marker()[0] == 'H',
        config_entry_head().len() > 0,
        config_entry_head()[0] == '\n',
{
    reveal_strlit("Host move");
    reveal_strlit("\n# Added by Move Everything Installer");
}

proof fn lemma_head_has_no_capital_h(j: int)
    requires
        0 <= j < config_entry_head().len(),
    ensures
        config_entry_head()[j] != 'H',
{
    reveal_strlit("\n# Added by Move Everything Installer");
}

proof fn lemma_marker_begins_with_its_only_capital_h(k: int)
    requires
        0 <= k < config_marker().len(),
    ensures
        config_marker()[k] != '\n',
        config_marker()[k] == 'H' <==> k == 0,
{
    reveal_strlit("Host move");
}

proof fn lemma_tail_has_no_line_that_begins_with_capital_h(t: int)
    requires
        0 <= t < config_entry_tail().len(),
        config_entry_tail()[t] == 'H',
    ensures
        t > 0,
        config_entry_tail()[t - 1] != '\n',
{
    reveal_strlit(
        "  HostName move.local\n  User ableton\n  IdentityFile ~/.ssh/ableton_move\n  IdentitiesOnly yes\n",
    );
}

/// Where the host alias block was appended to a configuration without marker
/// line, the marker stands as a line in one place only: in the block.
pub proof fn lemma_one_marker_line_after_write(content: Seq<char>, at: int)
    requires
        !holds_line(content, config_marker()),
        stands_as_line(content + config_entry(), config_marker(), at),
    ensures
        at == content.len() + config_entry_head().len() + 1,
{
    reveal_strlit("\n");
    let whole = content + config_entry();
    let marker = config_marker();
    let head = config_entry_head();
    let tail = config_entry_tail();
    let entry = config_entry();
    let size = marker.len() as int;
    let start = content.len() as int;
    let h = head.len() as int;
    lemma_block_pieces();
    assert forall|k: int| 0 <= k < size implies whole[at + k] == marker[k] by {
        assert(whole.subrange(at, at + size)[k] == whole[at + k]);
    }
    assert(whole[at] == 'H');
    if at + size <= start {
        assert(content.subrange(at, at + size) =~= whole.subrange(at, at + size));
        if at + size == start {
            assert(whole[start] == entry[0]);
        }
        assert(stands_as_line(content, marker, at));
    } else if at < start {
        lemma_marker_begins_with_its_only_capital_h(start - at);
        assert(whole[start] == entry[0]);
        assert(whole[at + (start - at)] == marker[start - at]);
    } else {
        let j = at - start;
        assert(whole[at] == entry[j]);
        if j < h {
            assert(entry[j] == head[j]);
            lemma_head_has_no_capital_h(j);
        } else if j == h {
            assert(entry[j] == '\n');
        } else if j <= h + size {
            if j > h + 1 {
                assert(entry[j] == marker[j - h - 1]);
                lemma_marker_begins_with_its_only_capital_h(j - h - 1);
            }
        } else if j == h + size + 1 {
            assert(entry[j] == '\n');
        } else {
            let t = j - h - size - 2;
            assert(entry[j] == tail[t]);
            lemma_tail_has_no_line_that_begins_with_capital_h(t);
            assert(whole[at - 1] == entry[j - 1]);
            assert(entry[j - 1] == tail[t - 1]);
        }
    }
}

} // verus!
