//! Local tool invocations as plain values: what to run, and how a run ended.

use vstd::prelude::*;

verus! {

/// A program and its arguments, in order.
#[derive(Clone, Debug, PartialEq, Eq)]
pub struct CommandLine {
    pub program: String,
    pub args: Vec<String>,
}

/// The mathematical content of a [`CommandLine`].
pub struct CommandLineModel {
    pub program: Seq<char>,
    pub args: Seq<Seq<char>>,
}

impl DeepView for CommandLine {
    type V = CommandLineModel;

    open spec fn deep_view(&self) -> CommandLineModel {
        CommandLineModel { program: self.program@, args: self.args.deep_view() }
    }
}

/// How a command that was started came to its end.
#[derive(Clone, Debug, PartialEq, Eq)]
pub struct RemoteCommandResult {
    pub succeeded: bool,
    pub stdout: String,
    pub stderr: String,
}

/// The mathematical content of a [`RemoteCommandResult`].
pub struct CommandResultModel {
    pub succeeded: bool,
    pub stdout: Seq<char>,
    pub stderr: Seq<char>,
}

impl DeepView for RemoteCommandResult {
    type V = CommandResultModel;

    open spec fn deep_view(&self) -> CommandResultModel {
        CommandResultModel { succeeded: self.succeeded, stdout: self.stdout@, stderr: self.stderr@ }
    }
}

/// What came of the attempt to run a command line.
#[derive(Clone, Debug, PartialEq, Eq)]
pub enum Launch {
    /// The program could not be started.
    Failed { reason: String },
    /// The program ran to its end.
    Exited(RemoteCommandResult),
}

/// The mathematical content of a [`Launch`].
pub enum LaunchModel {
    Failed { reason: Seq<char> },
    Exited(CommandResultModel),
}

impl DeepView for Launch {
    type V = LaunchModel;

    open spec fn deep_view(&self) -> LaunchModel {
        match self {
            Launch::Failed { reason } => LaunchModel::Failed { reason: reason@ },
            Launch::Exited(result) => LaunchModel::Exited(result.deep_view()),
        }
    }
}

} // verus!
