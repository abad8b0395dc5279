use move_installer::error::{ErrorKind, InstallerError};
use move_installer::http::{HttpOutcome, HttpReply, HttpStatus, Method};
use move_installer::release::{
    download_file, download_request, fetch_answered, fetch_latest_release,
    fetch_latest_release_request, fetch_module_catalog, fetch_module_catalog_request, Asset,
    DownloadFault, Fetch, HostInfo, Module, ModuleCatalog, Release,
};

fn release(tag: &str) -> Release {
    Release {
        tag_name: tag.to_string(),
        name: format!("Release {}", tag),
        assets: vec![Asset {
            name: "move-anything.tar.gz".to_string(),
            browser_download_url: format!("https://example.invalid/{}/move-anything.tar.gz", tag),
        }],
    }
}

fn module(id: &str) -> Module {
    Module {
        id: id.to_string(),
        name: id.to_uppercase(),
        description: String::new(),
        author: "someone".to_string(),
        component_type: "audio_fx".to_string(),
        github_repo: format!("someone/{}", id),
        asset_name: format!("{}-module.tar.gz", id),
        min_host_version: "0.1.0".to_string(),
        requires: None,
    }
}

fn answered(code: u16, text: &str) -> HttpOutcome {
    HttpOutcome::Answered(HttpReply {
        status: HttpStatus { code, text: text.to_string() },
        cookies: Vec::new(),
    })
}

fn error(kind: ErrorKind, message: &str) -> InstallerError {
    InstallerError { kind, message: message.to_string() }
}

#[test]
fn requests_name_the_tool() {
    let releases = fetch_latest_release_request();
    assert_eq!(releases.method, Method::Get);
    assert_eq!(
        releases.url,
        "https://api.github.com/repos/charlesvestal/move-anything/releases?per_page=10"
    );
    assert_eq!(releases.user_agent.as_deref(), Some("move-installer"));
    assert_eq!(releases.json_body, None);
    let catalog = fetch_module_catalog_request();
    assert_eq!(
        catalog.url,
        "https://raw.githubusercontent.com/charlesvestal/move-anything/main/module-catalog.json"
    );
    assert_eq!(catalog.user_agent.as_deref(), Some("move-installer"));
    let download = download_request("https://example.invalid/a.tar.gz");
    assert_eq!(download.url, "https://example.invalid/a.tar.gz");
    assert_eq!(download.user_agent.as_deref(), Some("move-installer"));
    assert_eq!(download.cookie, None);
}

#[test]
fn answers_are_judged_by_status() {
    assert_eq!(fetch_answered(Fetch::Releases, &answered(200, "200 OK")), Ok(()));
    assert_eq!(fetch_answered(Fetch::Download, &answered(206, "206 Partial Content")), Ok(()));
    assert_eq!(
        fetch_answered(Fetch::Releases, &answered(403, "403 Forbidden")),
        Err(error(ErrorKind::Unexpected { status: 403 }, "GitHub API error: 403 Forbidden"))
    );
    assert_eq!(
        fetch_answered(Fetch::Catalog, &answered(404, "404 Not Found")),
        Err(error(ErrorKind::Unexpected { status: 404 }, "Failed to fetch catalog: 404 Not Found"))
    );
    assert_eq!(
        fetch_answered(Fetch::Download, &answered(300, "300 Multiple Choices")),
        Err(error(ErrorKind::Unexpected { status: 300 }, "Download error: 300 Multiple Choices"))
    );
}

#[test]
fn failed_exchanges_are_network_errors() {
    let down = HttpOutcome::Failed { reason: "dns".to_string() };
    assert_eq!(
        fetch_answered(Fetch::Releases, &down),
        Err(error(ErrorKind::NetworkError, "Failed to fetch releases: dns"))
    );
    assert_eq!(
        fetch_answered(Fetch::Catalog, &down),
        Err(error(ErrorKind::NetworkError, "Failed to fetch catalog: dns"))
    );
    assert_eq!(
        fetch_answered(Fetch::Download, &down),
        Err(error(ErrorKind::NetworkError, "Download failed: dns"))
    );
}

#[test]
fn latest_release_is_the_first_version_tag() {
    let listed = vec![release("installer-0.3"), release("v1.4.0"), release("v1.3.0")];
    assert_eq!(fetch_latest_release(Ok(listed)), Ok(release("v1.4.0")));
    assert_eq!(fetch_latest_release(Ok(vec![release("v2")])), Ok(release("v2")));
}

#[test]
fn no_version_tag_means_no_release() {
    let none = error(ErrorKind::Catalog, "No v* release found");
    assert_eq!(fetch_latest_release(Ok(Vec::new())), Err(none.clone()));
    assert_eq!(
        fetch_latest_release(Ok(vec![release("installer-1"), release(""), release("V1")])),
        Err(none)
    );
}

#[test]
fn unparseable_releases_are_reported() {
    assert_eq!(
        fetch_latest_release(Err("expected value at line 1".to_string())),
        Err(error(ErrorKind::Catalog, "Failed to parse releases JSON: expected value at line 1"))
    );
}

#[test]
fn catalog_gives_its_modules() {
    let catalog = ModuleCatalog {
        catalog_version: 1,
        host: HostInfo {
            name: "Move Anything".to_string(),
            github_repo: "charlesvestal/move-anything".to_string(),
            asset_name: "move-anything.tar.gz".to_string(),
            latest_version: "1.4.0".to_string(),
            download_url: "https://example.invalid/x".to_string(),
            min_host_version: "1.0.0".to_string(),
        },
        modules: vec![module("reverb"), module("delay")],
    };
    assert_eq!(fetch_module_catalog(Ok(catalog)), Ok(vec![module("reverb"), module("delay")]));
    assert_eq!(
        fetch_module_catalog(Err("missing field".to_string())),
        Err(error(ErrorKind::Catalog, "Failed to parse catalog JSON: missing field"))
    );
}

#[test]
fn download_faults_name_the_stage() {
    assert_eq!(download_file(&Ok(())), Ok(()));
    assert_eq!(
        download_file(&Err(DownloadFault::Body { reason: "reset".to_string() })),
        Err(error(ErrorKind::NetworkError, "Failed to read response: reset"))
    );
    assert_eq!(
        download_file(&Err(DownloadFault::Directory { reason: "denied".to_string() })),
        Err(error(ErrorKind::IOError, "Failed to create directory: denied"))
    );
    assert_eq!(
        download_file(&Err(DownloadFault::Write { reason: "full".to_string() })),
        Err(error(ErrorKind::IOError, "Failed to write file: full"))
    );
}
