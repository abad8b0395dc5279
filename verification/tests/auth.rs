use move_installer::auth::{AuthClient, AuthCookie, Session, StoreAction};
use move_installer::error::{ErrorKind, InstallerError};
use move_installer::http::{HttpOutcome, HttpReply, HttpStatus, Method, ResponseCookie};

const TOKEN_COOKIE: &str = "Ableton-Challenge-Response-Token";

fn client() -> AuthClient {
    AuthClient::new("http://192.168.1.20".to_string())
}

fn answered(code: u16, text: &str, cookies: Vec<ResponseCookie>) -> HttpOutcome {
    HttpOutcome::Answered(HttpReply {
        status: HttpStatus { code, text: text.to_string() },
        cookies,
    })
}

fn cookie(name: &str, value: &str, expires: Option<&str>) -> ResponseCookie {
    ResponseCookie {
        name: name.to_string(),
        value: value.to_string(),
        expires: expires.map(|e| e.to_string()),
    }
}

fn error(kind: ErrorKind, message: &str) -> InstallerError {
    InstallerError { kind, message: message.to_string() }
}

#[test]
fn new_client_keeps_the_base_url() {
    assert_eq!(client().base_url, "http://192.168.1.20");
}

#[test]
fn code_request_posts_the_secret_as_json() {
    let request = client().submit_code_request("123456");
    assert_eq!(request.method, Method::Post);
    assert_eq!(request.url, "http://192.168.1.20/api/v1/challenge-response");
    assert_eq!(request.user_agent, None);
    assert_eq!(request.cookie, None);
    assert_eq!(request.json_body.as_deref(), Some("{\"secret\":\"123456\"}"));
}

#[test]
fn code_request_escapes_the_secret() {
    let request = client().submit_code_request("12\"3\\4");
    assert_eq!(request.json_body.as_deref(), Some("{\"secret\":\"12\\\"3\\\\4\"}"));
}

#[test]
fn accepted_code_gives_the_token() {
    let outcome = answered(
        200,
        "200 OK",
        vec![cookie("other", "x", None), cookie(TOKEN_COOKIE, "tok-1", Some("2030-01-01"))],
    );
    assert_eq!(
        client().submit_code(&outcome),
        Ok(AuthCookie { value: "tok-1".to_string(), expires: "2030-01-01".to_string() })
    );
}

#[test]
fn token_without_expiry_has_empty_expires() {
    let outcome = answered(204, "204 No Content", vec![cookie(TOKEN_COOKIE, "tok-2", None)]);
    assert_eq!(
        client().submit_code(&outcome),
        Ok(AuthCookie { value: "tok-2".to_string(), expires: String::new() })
    );
}

#[test]
fn first_token_cookie_wins() {
    let outcome = answered(
        200,
        "200 OK",
        vec![cookie(TOKEN_COOKIE, "first", None), cookie(TOKEN_COOKIE, "second", None)],
    );
    assert_eq!(client().submit_code(&outcome).unwrap().value, "first");
}

#[test]
fn rejected_code_is_invalid_code_even_with_a_cookie() {
    let outcome = answered(401, "401 Unauthorized", vec![cookie(TOKEN_COOKIE, "tok", None)]);
    assert_eq!(
        client().submit_code(&outcome),
        Err(error(ErrorKind::InvalidCode, "Invalid code: HTTP 401 Unauthorized"))
    );
    let redirect = answered(302, "302 Found", vec![]);
    assert_eq!(client().submit_code(&redirect).unwrap_err().kind, ErrorKind::InvalidCode);
    let low = answered(199, "199 <unknown status code>", vec![]);
    assert_eq!(client().submit_code(&low).unwrap_err().kind, ErrorKind::InvalidCode);
}

#[test]
fn success_without_token_is_token_missing() {
    let outcome = answered(200, "200 OK", vec![cookie("session", "abc", None)]);
    assert_eq!(
        client().submit_code(&outcome),
        Err(error(ErrorKind::TokenMissing, "No auth cookie in response"))
    );
    let none = answered(299, "299 <unknown status code>", vec![]);
    assert_eq!(client().submit_code(&none).unwrap_err().kind, ErrorKind::TokenMissing);
}

#[test]
fn failed_code_exchange_is_a_network_error() {
    let outcome = HttpOutcome::Failed { reason: "connection refused".to_string() };
    assert_eq!(
        client().submit_code(&outcome),
        Err(error(ErrorKind::NetworkError, "Failed to submit code: connection refused"))
    );
}

#[test]
fn key_request_carries_token_and_key() {
    let request = client().submit_ssh_key_request("tok-1", "ssh-ed25519 AAAA me@host");
    assert_eq!(request.method, Method::Post);
    assert_eq!(request.url, "http://192.168.1.20/api/v1/ssh");
    let sent = request.cookie.expect("the token is presented");
    assert_eq!(sent.name, TOKEN_COOKIE);
    assert_eq!(sent.value, "tok-1");
    assert_eq!(
        request.json_body.as_deref(),
        Some("{\"publicKey\":\"ssh-ed25519 AAAA me@host\"}")
    );
}

#[test]
fn key_answers_map_to_their_errors() {
    let c = client();
    assert_eq!(c.submit_ssh_key(&answered(200, "200 OK", vec![])), Ok(()));
    assert_eq!(c.submit_ssh_key(&answered(204, "204 No Content", vec![])), Ok(()));
    let expired = error(ErrorKind::SessionExpired, "Unauthorized - cookie expired or invalid");
    assert_eq!(c.submit_ssh_key(&answered(401, "401 Unauthorized", vec![])), Err(expired.clone()));
    assert_eq!(c.submit_ssh_key(&answered(403, "403 Forbidden", vec![])), Err(expired));
    assert_eq!(
        c.submit_ssh_key(&answered(400, "400 Bad Request", vec![])),
        Err(error(ErrorKind::MalformedKey, "Invalid key format"))
    );
    assert_eq!(
        c.submit_ssh_key(&answered(500, "500 Internal Server Error", vec![])),
        Err(error(ErrorKind::Unexpected { status: 500 }, "Unexpected response: HTTP 500"))
    );
    assert_eq!(
        c.submit_ssh_key(&answered(201, "201 Created", vec![])),
        Err(error(ErrorKind::Unexpected { status: 201 }, "Unexpected response: HTTP 201"))
    );
    assert_eq!(
        c.submit_ssh_key(&HttpOutcome::Failed { reason: "timed out".to_string() }),
        Err(error(ErrorKind::NetworkError, "Failed to submit key: timed out"))
    );
}

#[test]
fn session_follows_the_protocol() {
    let start = Session::restore(None);
    assert_eq!(start, Session::Unauthenticated);
    assert_eq!(start.token(), None);
    assert_eq!(
        start.key_request(&client(), "key"),
        Err(error(ErrorKind::SessionExpired, "Unauthorized - cookie expired or invalid"))
    );

    let refused = start.code_submitted(&Err(error(ErrorKind::InvalidCode, "no")));
    assert_eq!(refused.session, Session::Unauthenticated);
    assert_eq!(refused.store, StoreAction::Keep);

    let cookie = AuthCookie { value: "tok".to_string(), expires: String::new() };
    let accepted = refused.session.code_submitted(&Ok(cookie));
    assert_eq!(accepted.session, Session::Authenticated { token: "tok".to_string() });
    assert_eq!(accepted.store, StoreAction::Save { token: "tok".to_string() });
    assert_eq!(accepted.session.token(), Some("tok"));

    let malformed = accepted.session.key_submitted(&Err(error(ErrorKind::MalformedKey, "bad")));
    assert_eq!(malformed.session, Session::Authenticated { token: "tok".to_string() });
    assert_eq!(malformed.store, StoreAction::Keep);

    let authorized = malformed.session.key_submitted(&Ok(()));
    assert_eq!(authorized.session, Session::KeyAuthorized { token: "tok".to_string() });
    assert_eq!(authorized.store, StoreAction::Keep);

    let out = authorized.session.logout();
    assert_eq!(out.session, Session::Unauthenticated);
    assert_eq!(out.store, StoreAction::Discard);
}

#[test]
fn expired_token_is_discarded_before_any_retry() {
    let c = client();
    let session = Session::restore(Some("stale".to_string()));
    let request = session.key_request(&c, "ssh-ed25519 AAAA").expect("a token is held");
    assert_eq!(request.cookie.unwrap().value, "stale");

    let verdict = c.submit_ssh_key(&answered(401, "401 Unauthorized", vec![]));
    assert_eq!(verdict.as_ref().unwrap_err().kind, ErrorKind::SessionExpired);

    let next = session.key_submitted(&verdict);
    assert_eq!(next.session, Session::Unauthenticated);
    assert_eq!(next.store, StoreAction::Discard);
    assert_eq!(
        next.session.key_request(&c, "ssh-ed25519 AAAA").unwrap_err().kind,
        ErrorKind::SessionExpired
    );
}
