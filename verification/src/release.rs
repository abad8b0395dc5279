//! Release service: which requests fetch the releases and the module catalog,
//! and what to make of the answers.

use vstd::prelude::*;
use vstd::string::*;
use crate::error::{failure, result_model, ErrorKind, ErrorModel, InstallerError};
use crate::http::{
    get_request_model, is_success_code, HttpOutcome, HttpOutcomeModel, HttpRequest,
    HttpRequestModel, Method,
};
use crate::text::begins_with;

verus! {

/// A file attached to a release.
#[derive(Clone, Debug, PartialEq, Eq)]
pub struct Asset {
    pub name: String,
    pub browser_download_url: String,
}

/// A published release.
#[derive(Clone, Debug, PartialEq, Eq)]
pub struct Release {
    pub tag_name: String,
    pub name: String,
    pub assets: Vec<Asset>,
}

/// An optional module as the catalog describes it.
#[derive(Clone, Debug, PartialEq, Eq)]
pub struct Module {
    pub id: String,
    pub name: String,
    pub description: String,
    pub author: String,
    pub component_type: String,
    pub github_repo: String,
    pub asset_name: String,
    pub min_host_version: String,
    pub requires: Option<String>,
}

/// The host package as the catalog describes it.
#[derive(Clone, Debug, PartialEq, Eq)]
pub struct HostInfo {
    pub name: String,
    pub github_repo: String,
    pub asset_name: String,
    pub latest_version: String,
    pub download_url: String,
    pub min_host_version: String,
}

/// The module catalog.
#[derive(Clone, Debug, PartialEq, Eq)]
pub struct ModuleCatalog {
    pub catalog_version: u32,
    pub host: HostInfo,
    pub modules: Vec<Module>,
}

/// What is being fetched.
#[derive(Clone, Copy, Debug, PartialEq, Eq, Structural)]
pub enum Fetch {
    /// The list of releases.
    Releases,
    /// The module catalog.
    Catalog,
    /// A release asset.
    Download,
}

/// Why a downloaded file is not on disk.
#[derive(Clone, Debug, PartialEq, Eq)]
pub enum DownloadFault {
    /// The body of the response could not be read.
    Body { reason: String },
    /// The directory for the file could not be created.
    Directory { reason: String },
    /// The file could not be written.
    Write { reason: String },
}

/// The mathematical content of a [`DownloadFault`].
pub enum DownloadFaultModel {
    Body { reason: Seq<char> },
    Directory { reason: Seq<char> },
    Write { reason: Seq<char> },
}

impl DeepView for DownloadFault {
    type V = DownloadFaultModel;

    open spec fn deep_view(&self) -> DownloadFaultModel {
        match self {
            DownloadFault::Body { reason } => DownloadFaultModel::Body { reason: reason@ },
            DownloadFault::Directory { reason } => DownloadFaultModel::Directory { reason: reason@ },
            DownloadFault::Write { reason } => DownloadFaultModel::Write { reason: reason@ },
        }
    }
}

/// The name by which this tool introduces itself to the release service.
pub open spec fn user_agent() -> Seq<char> {
    "move-installer"@
}

/// The request that fetches `url` from the release service.
pub open spec fn fetch_request_model(url: Seq<char>) -> HttpRequestModel {
    get_request_model(url, Some(user_agent()))
}

/// Where the latest releases are listed.
pub open spec fn releases_url() -> Seq<char> {
    "https://api.github.com/repos/charlesvestal/move-anything/releases?per_page=10"@
}

/// Where the module catalog is.
pub open spec fn catalog_url() -> Seq<char> {
    "https://raw.githubusercontent.com/charlesvestal/move-anything/main/module-catalog.json"@
}

/// What is said when the exchange for `what` fails.
pub open spec fn fetch_failed_prefix(what: Fetch) -> Seq<char> {
    match what {
        Fetch::Releases => "Failed to fetch releases: "@,
        Fetch::Catalog => "Failed to fetch catalog: "@,
        Fetch::Download => "Download failed: "@,
    }
}

/// What is said when the service answers the request for `what` without success.
pub open spec fn fetch_refused_prefix(what: Fetch) -> Seq<char> {
    match what {
        Fetch::Releases => "GitHub API error: "@,
        Fetch::Catalog => "Failed to fetch catalog: "@,
        Fetch::Download => "Download error: "@,
    }
}

/// Whether the answer to the request for `what` is fit to be read.
pub open spec fn fetch_answered_model(what: Fetch, outcome: HttpOutcomeModel) -> Result<
    (),
    ErrorModel,
> {
    match outcome {
        HttpOutcomeModel::Failed { reason } => failure(
            ErrorKind::NetworkError,
            fetch_failed_prefix(what) + reason,
        ),
        HttpOutcomeModel::Answered(reply) => if is_success_code(reply.status.code) {
            Ok(())
        } else {
            failure(
                ErrorKind::Unexpected { status: reply.status.code },
                fetch_refused_prefix(what) + reply.status.text,
            )
        },
    }
}

/// The release is a version of the package: its tag begins with `v`.
pub open spec fn is_version_tag(tag: Seq<char>) -> bool {
    tag.len() > 0 && tag[0] == 'v'
}

/// The first of `releases`, from index `from` on, that is a version of the package.
pub open spec fn first_version(releases: Seq<Release>, from: int) -> Option<Release>
    decreases releases.len() - from,
{
    if from < 0 || from >= releases.len() {
        None
    } else if is_version_tag(releases[from].tag_name@) {
        Some(releases[from])
    } else {
        first_version(releases, from + 1)
    }
}

/// What became of a download once the service had answered.
pub open spec fn download_file_model(stored: Result<(), DownloadFaultModel>) -> Result<
    (),
    ErrorModel,
> {
    match stored {
        Ok(_) => Ok(()),
        Err(DownloadFaultModel::Body { reason }) => failure(
            ErrorKind::NetworkError,
            "Failed to read response: "@ + reason,
        ),
        Err(DownloadFaultModel::Directory { reason }) => failure(
            ErrorKind::IOError,
            "Failed to create directory: "@ + reason,
        ),
        Err(DownloadFaultModel::Write { reason }) => failure(
            ErrorKind::IOError,
            "Failed to write file: "@ + reason,
        ),
    }
}

/// The request that fetches `url` from the release service.
pub fn download_request(url: &str) -> (request: HttpRequest)
    ensures
        request.deep_view() == fetch_request_model(url@),
{
    HttpRequest {
        method: Method::Get,
        url: String::from_str(url),
        user_agent: Some(String::from_str("move-installer")),
        cookie: None,
        json_body: None,
    }
}

/// The request that lists the latest releases.
pub fn fetch_latest_release_request() -> (request: HttpRequest)
    ensures
        request.deep_view() == fetch_request_model(releases_url()),
{
    download_request("https://api.github.com/repos/charlesvestal/move-anything/releases?per_page=10")
}

/// The request that fetches the module catalog.
pub fn fetch_module_catalog_request() -> (request: HttpRequest)
    ensures
        request.deep_view() == fetch_request_model(catalog_url()),
{
    download_request(
        "https://raw.githubusercontent.com/charlesvestal/move-anything/main/module-catalog.json",
    )
}

/// Judges whether the answer to the request for `what` is fit to be read.
pub fn fetch_answered(what: Fetch, outcome: &HttpOutcome) -> (verdict: Result<(), InstallerError>)
    ensures
        result_model(verdict) == fetch_answered_model(what, outcome.deep_view()),
{
    match outcome {
        HttpOutcome::Failed { reason } => {
            let mut message = match what {
                Fetch::Releases => String::from_str("Failed to fetch releases: "),
                Fetch::Catalog => String::from_str("Failed to fetch catalog: "),
                Fetch::Download => String::from_str("Download failed: "),
            };
            message.append(reason.as_str());
            Err(InstallerError { kind: ErrorKind::NetworkError, message })
        },
        HttpOutcome::Answered(reply) => {
            if reply.status.is_success() {
                Ok(())
            } else {
                let mut message = match what {
                    Fetch::Releases => String::from_str("GitHub API error: "),
                    Fetch::Catalog => String::from_str("Failed to fetch catalog: "),
                    Fetch::Download => String::from_str("Download error: "),
                };
                message.append(reply.status.text.as_str());
                Err(
                    InstallerError {
                        kind: ErrorKind::Unexpected { status: reply.status.code },
                        message,
                    },
                )
            }
        },
    }
}

/// Picks the latest version of the package from the releases as the service
/// listed them, newest first: the first whose tag begins with `v`.
#[verifier::loop_isolation(false)]
pub fn fetch_latest_release(parsed: Result<Vec<Release>, String>) -> (latest: Result<
    Release,
    InstallerError,
>)
    ensures
        match parsed {
            Err(reason) => latest is Err && latest->Err_0.deep_view() == (ErrorModel {
                kind: ErrorKind::Catalog,
                message: "Failed to parse releases JSON: "@ + reason@,
            }),
            Ok(releases) => match first_version(releases@, 0) {
                Some(release) => latest == Ok::<Release, InstallerError>(release),
                None => latest is Err && latest->Err_0.deep_view() == (ErrorModel {
                    kind: ErrorKind::Catalog,
                    message: "No v* release found"@,
                }),
            },
        },
{
    match parsed {
        Err(reason) => {
            let mut message = String::from_str("Failed to parse releases JSON: ");
            message.append(reason.as_str());
            Err(InstallerError { kind: ErrorKind::Catalog, message })
        },
        Ok(releases) => {
            let mut releases = releases;
            let ghost all = releases@;
            let mut i: usize = 0;
            while i < releases.len()
                invariant
                    i <= releases.len(),
                    releases@ == all,
                    first_version(all, 0) == first_version(all, i as int),
                decreases releases.len() - i,
            {
                if begins_with(releases[i].tag_name.as_str(), 'v') {
                    return Ok(releases.swap_remove(i));
                }
                i += 1;
            }
            Err(
                InstallerError {
                    kind: ErrorKind::Catalog,
                    message: String::from_str("No v* release found"),
                },
            )
        },
    }
}

/// The modules of the catalog as the service sent it.
pub fn fetch_module_catalog(parsed: Result<ModuleCatalog, String>) -> (modules: Result<
    Vec<Module>,
    InstallerError,
>)
    ensures
        match parsed {
            Err(reason) => modules is Err && modules->Err_0.deep_view() == (ErrorModel {
                kind: ErrorKind::Catalog,
                message: "Failed to parse catalog JSON: "@ + reason@,
            }),
            Ok(catalog) => modules == Ok::<Vec<Module>, InstallerError>(catalog.modules),
        },
{
    match parsed {
        Err(reason) => {
            let mut message = String::from_str("Failed to parse catalog JSON: ");
            message.append(reason.as_str());
            Err(InstallerError { kind: ErrorKind::Catalog, message })
        },
        Ok(catalog) => Ok(catalog.modules),
    }
}

/// Judges what became of a download once the service had answered.
pub fn download_file(stored: &Result<(), DownloadFault>) -> (verdict: Result<(), InstallerError>)
    ensures
        match *stored {
            Ok(_) => verdict is Ok,
            Err(fault) => result_model(verdict) == download_file_model(Err(fault.deep_view())),
        },
{
    match stored {
        Ok(_) => Ok(()),
        Err(DownloadFault::Body { reason }) => {
            let mut message = String::from_str("Failed to read response: ");
            message.append(reason.as_str());
            Err(InstallerError { kind: ErrorKind::NetworkError, message })
        },
        Err(DownloadFault::Directory { reason }) => {
            let mut message = String::from_str("Failed to create directory: ");
            message.append(reason.as_str());
            Err(InstallerError { kind: ErrorKind::IOError, message })
        },
        Err(DownloadFault::Write { reason }) => {
            let mut message = String::from_str("Failed to write file: ");
            message.append(reason.as_str());
            Err(InstallerError { kind: ErrorKind::IOError, message })
        },
    }
}

/// The release that is picked is the first with a version tag, and none is
/// picked only when no release has one.
pub proof fn lemma_first_version(releases: Seq<Release>, from: int)
    requires
        0 <= from,
    ensures
        match first_version(releases, from) {
            Some(release) => exists|i: int|
                from <= i < releases.len() && releases[i] == release && is_version_tag(
                    release.tag_name@,
                ) && forall|j: int|
                    from <= j < i ==> !is_version_tag((#[trigger] releases[j]).tag_name@),
            None => forall|j: int|
                from <= j < releases.len() ==> !is_version_tag((#[trigger] releases[j]).tag_name@),
        },
    decreases releases.len() - from,
{
    if from < releases.len() {
        if is_version_tag(releases[from].tag_name@) {
            assert(from <= from < releases.len() && releases[from] == releases[from]);
        } else {
            lemma_first_version(releases, from + 1);
        }
    }
}

} // verus!
