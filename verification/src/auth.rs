//! Challenge authenticator: trading the one-time code for a session token,
//! authorising a public key under that token, and the session these two move.

use vstd::prelude::*;
use vstd::string::*;
use crate::error::{failure, result_model, ErrorKind, ErrorModel, InstallerError};
use crate::http::{
    json_object, post_json_model, HttpOutcome, HttpOutcomeModel, HttpRequest, HttpRequestModel,
    HttpReplyModel, Method, RequestCookie, RequestCookieModel, ResponseCookieModel,
    is_success_code,
};
use crate::text::{decimal, decimal_text, same_text};

verus! {

/// The session token as the device handed it out.
#[derive(Clone, Debug, PartialEq, Eq)]
pub struct AuthCookie {
    pub value: String,
    /// When the token expires, as the transport prints it; empty when the device did not say.
    pub expires: String,
}

/// The mathematical content of an [`AuthCookie`].
pub struct AuthCookieModel {
    pub value: Seq<char>,
    pub expires: Seq<char>,
}

impl DeepView for AuthCookie {
    type V = AuthCookieModel;

    open spec fn deep_view(&self) -> AuthCookieModel {
        AuthCookieModel { value: self.value@, expires: self.expires@ }
    }
}

/// The device's HTTP interface at one base address.
#[derive(Clone, Debug, PartialEq, Eq)]
pub struct AuthClient {
    pub base_url: String,
}

/// The name of the cookie that carries the session token.
pub open spec fn token_cookie_name() -> Seq<char> {
    "Ableton-Challenge-Response-Token"@
}

/// The request that submits the one-time code `code`.
pub open spec fn submit_code_request_model(base_url: Seq<char>, code: Seq<char>) -> HttpRequestModel {
    post_json_model(base_url + "/api/v1/challenge-response"@, None, "secret"@, code)
}

/// The request that submits the public key `pubkey` under the session token `token`.
pub open spec fn submit_ssh_key_request_model(
    base_url: Seq<char>,
    token: Seq<char>,
    pubkey: Seq<char>,
) -> HttpRequestModel {
    post_json_model(
        base_url + "/api/v1/ssh"@,
        Some(RequestCookieModel { name: token_cookie_name(), value: token }),
        "publicKey"@,
        pubkey,
    )
}

/// The first of `cookies`, from index `from` on, that carries the session token.
pub open spec fn first_token_cookie(cookies: Seq<ResponseCookieModel>, from: int) -> Option<
    ResponseCookieModel,
>
    decreases cookies.len() - from,
{
    if from < 0 || from >= cookies.len() {
        None
    } else if cookies[from].name == token_cookie_name() {
        Some(cookies[from])
    } else {
        first_token_cookie(cookies, from + 1)
    }
}

/// The token that a cookie carries.
pub open spec fn token_of(cookie: ResponseCookieModel) -> AuthCookieModel {
    AuthCookieModel {
        value: cookie.value,
        expires: match cookie.expires {
            Some(when) => when,
            None => Seq::empty(),
        },
    }
}

/// What submitting the one-time code gives.
///
/// A response without success status means that the code was refused. A
/// successful response without the token cookie is a fault of the protocol,
/// not of the user.
pub open spec fn submit_code_model(outcome: HttpOutcomeModel) -> Result<AuthCookieModel, ErrorModel> {
    match outcome {
        HttpOutcomeModel::Failed { reason } => failure(
            ErrorKind::NetworkError,
            "Failed to submit code: "@ + reason,
        ),
        HttpOutcomeModel::Answered(reply) => if !is_success_code(reply.status.code) {
            failure(ErrorKind::InvalidCode, "Invalid code: HTTP "@ + reply.status.text)
        } else {
            match first_token_cookie(reply.cookies, 0) {
                Some(cookie) => Ok(token_of(cookie)),
                None => failure(ErrorKind::TokenMissing, "No auth cookie in response"@),
            }
        },
    }
}

/// What submitting a public key gives.
pub open spec fn submit_ssh_key_model(outcome: HttpOutcomeModel) -> Result<(), ErrorModel> {
    match outcome {
        HttpOutcomeModel::Failed { reason } => failure(
            ErrorKind::NetworkError,
            "Failed to submit key: "@ + reason,
        ),
        HttpOutcomeModel::Answered(reply) => {
            let code = reply.status.code;
            if code == 200 || code == 204 {
                Ok(())
            } else if code == 401 || code == 403 {
                failure(ErrorKind::SessionExpired, "Unauthorized - cookie expired or invalid"@)
            } else if code == 400 {
                failure(ErrorKind::MalformedKey, "Invalid key format"@)
            } else {
                failure(
                    ErrorKind::Unexpected { status: code },
                    "Unexpected response: HTTP "@ + decimal_text(code as nat),
                )
            }
        },
    }
}

/// A `POST` of the given JSON text to `url`.
pub fn post_request(url: String, cookie: Option<RequestCookie>, json_body: String) -> (request:
    HttpRequest)
    ensures
        request.deep_view() == (HttpRequestModel {
            method: Method::Post,
            url: url@,
            user_agent: None,
            cookie: cookie.deep_view(),
            json_body: Some(json_body@),
        }),
{
    HttpRequest { method: Method::Post, url, user_agent: None, cookie, json_body: Some(json_body) }
}

impl AuthClient {
    /// The device's HTTP interface at `base_url`.
    pub fn new(base_url: String) -> (client: Self)
        ensures
            client.base_url@ == base_url@,
    {
        AuthClient { base_url }
    }

    /// The request that submits the one-time code `code`.
    pub fn submit_code_request(&self, code: &str) -> (request: HttpRequest)
        ensures
            request.deep_view() == submit_code_request_model(self.base_url@, code@),
    {
        let mut url = self.base_url.clone();
        url.append("/api/v1/challenge-response");
        post_request(url, None, json_object("secret", code))
    }

    /// Judges the answer to a submitted code: the session token, or why there is none.
    #[verifier::loop_isolation(false)]
    pub fn submit_code(&self, outcome: &HttpOutcome) -> (token: Result<AuthCookie, InstallerError>)
        ensures
            result_model(token) == submit_code_model(outcome.deep_view()),
    {
        match outcome {
            HttpOutcome::Failed { reason } => {
                let mut message = String::from_str("Failed to submit code: ");
                message.append(reason.as_str());
                Err(InstallerError { kind: ErrorKind::NetworkError, message })
            },
            HttpOutcome::Answered(reply) => {
                if !reply.status.is_success() {
                    let mut message = String::from_str("Invalid code: HTTP ");
                    message.append(reply.status.text.as_str());
                    return Err(InstallerError { kind: ErrorKind::InvalidCode, message });
                }
                let ghost cookies = reply.cookies.deep_view();
                let mut i: usize = 0;
                while i < reply.cookies.len()
                    invariant
                        i <= reply.cookies.len(),
                        cookies == reply.cookies.deep_view(),
                        first_token_cookie(cookies, 0) == first_token_cookie(cookies, i as int),
                    decreases reply.cookies.len() - i,
                {
                    assert(cookies[i as int] == reply.cookies@[i as int].deep_view());
                    let cookie = &reply.cookies[i];
                    if same_text(cookie.name.as_str(), "Ableton-Challenge-Response-Token") {
                        let expires = match &cookie.expires {
                            Some(when) => when.clone(),
                            None => String::new(),
                        };
                        return Ok(AuthCookie { value: cookie.value.clone(), expires });
                    }
                    i += 1;
                }
                Err(
                    InstallerError {
                        kind: ErrorKind::TokenMissing,
                        message: String::from_str("No auth cookie in response"),
                    },
                )
            },
        }
    }

    /// The request that submits the public key `pubkey` under the session token `token`.
    pub fn submit_ssh_key_request(&self, token: &str, pubkey: &str) -> (request: HttpRequest)
        ensures
            request.deep_view() == submit_ssh_key_request_model(self.base_url@, token@, pubkey@),
    {
        let mut url = self.base_url.clone();
        url.append("/api/v1/ssh");
        let cookie = RequestCookie {
            name: String::from_str("Ableton-Challenge-Response-Token"),
            value: String::from_str(token),
        };
        post_request(url, Some(cookie), json_object("publicKey", pubkey))
    }

    /// Judges the answer to a submitted public key.
    pub fn submit_ssh_key(&self, outcome: &HttpOutcome) -> (verdict: Result<(), InstallerError>)
        ensures
            result_model(verdict) == submit_ssh_key_model(outcome.deep_view()),
    {
        match outcome {
            HttpOutcome::Failed { reason } => {
                let mut message = String::from_str("Failed to submit key: ");
                message.append(reason.as_str());
                Err(InstallerError { kind: ErrorKind::NetworkError, message })
            },
            HttpOutcome::Answered(reply) => {
                let code = reply.status.code;
                if code == 200 || code == 204 {
                    Ok(())
                } else if code == 401 || code == 403 {
                    Err(
                        InstallerError {
                            kind: ErrorKind::SessionExpired,
                            message: String::from_str("Unauthorized - cookie expired or invalid"),
                        },
                    )
                } else if code == 400 {
                    Err(
                        InstallerError {
                            kind: ErrorKind::MalformedKey,
                            message: String::from_str("Invalid key format"),
                        },
                    )
                } else {
                    let mut message = String::from_str("Unexpected response: HTTP ");
                    message.append(decimal(code).as_str());
                    Err(InstallerError { kind: ErrorKind::Unexpected { status: code }, message })
                }
            },
        }
    }
}

/// What the installer knows of its standing with the device.
#[derive(Clone, Debug, PartialEq, Eq)]
pub enum Session {
    /// No token is held: a one-time code has to be submitted.
    Unauthenticated,
    /// A token is held.
    Authenticated { token: String },
    /// A token is held, and the device has accepted a public key under it.
    KeyAuthorized { token: String },
}

/// The mathematical content of a [`Session`].
pub enum SessionModel {
    Unauthenticated,
    Authenticated { token: Seq<char> },
    KeyAuthorized { token: Seq<char> },
}

impl DeepView for Session {
    type V = SessionModel;

    open spec fn deep_view(&self) -> SessionModel {
        match self {
            Session::Unauthenticated => SessionModel::Unauthenticated,
            Session::Authenticated { token } => SessionModel::Authenticated { token: token@ },
            Session::KeyAuthorized { token } => SessionModel::KeyAuthorized { token: token@ },
        }
    }
}

/// What to do to the token in the trust store.
#[derive(Clone, Debug, PartialEq, Eq)]
pub enum StoreAction {
    /// Leave the store as it is.
    Keep,
    /// Save this token.
    Save { token: String },
    /// Delete the stored token.
    Discard,
}

/// The mathematical content of a [`StoreAction`].
pub enum StoreActionModel {
    Keep,
    Save { token: Seq<char> },
    Discard,
}

impl DeepView for StoreAction {
    type V = StoreActionModel;

    open spec fn deep_view(&self) -> StoreActionModel {
        match self {
            StoreAction::Keep => StoreActionModel::Keep,
            StoreAction::Save { token } => StoreActionModel::Save { token: token@ },
            StoreAction::Discard => StoreActionModel::Discard,
        }
    }
}

/// The session after an event, and what the event asks of the trust store.
#[derive(Clone, Debug, PartialEq, Eq)]
pub struct Transition {
    pub session: Session,
    pub store: StoreAction,
}

/// The mathematical content of a [`Transition`].
pub struct TransitionModel {
    pub session: SessionModel,
    pub store: StoreActionModel,
}

impl DeepView for Transition {
    type V = TransitionModel;

    open spec fn deep_view(&self) -> TransitionModel {
        TransitionModel { session: self.session.deep_view(), store: self.store.deep_view() }
    }
}

/// The token that the session holds, if it holds one.
pub open spec fn session_token(session: SessionModel) -> Option<Seq<char>> {
    match session {
        SessionModel::Unauthenticated => None,
        SessionModel::Authenticated { token } => Some(token),
        SessionModel::KeyAuthorized { token } => Some(token),
    }
}

/// The session that a stored token, or the lack of one, stands for.
pub open spec fn restored_model(stored: Option<Seq<char>>) -> SessionModel {
    match stored {
        Some(token) => SessionModel::Authenticated { token },
        None => SessionModel::Unauthenticated,
    }
}

/// The session after a code was submitted with the given result.
///
/// A token that was handed out replaces what was held and is to be saved. A
/// refused code changes nothing.
pub open spec fn code_submitted_model(
    session: SessionModel,
    result: Result<AuthCookieModel, ErrorModel>,
) -> TransitionModel {
    match result {
        Ok(cookie) => TransitionModel {
            session: SessionModel::Authenticated { token: cookie.value },
            store: StoreActionModel::Save { token: cookie.value },
        },
        Err(_) => TransitionModel { session, store: StoreActionModel::Keep },
    }
}

/// The session after a public key was submitted with the given result.
///
/// An expired session loses its token, which is to be deleted from the trust
/// store as well. Any other failure changes nothing.
pub open spec fn key_submitted_model(
    session: SessionModel,
    result: Result<(), ErrorModel>,
) -> TransitionModel {
    match result {
        Ok(_) => TransitionModel {
            session: match session_token(session) {
                Some(token) => SessionModel::KeyAuthorized { token },
                None => SessionModel::Unauthenticated,
            },
            store: StoreActionModel::Keep,
        },
        Err(error) => if error.kind == ErrorKind::SessionExpired {
            TransitionModel {
                session: SessionModel::Unauthenticated,
                store: StoreActionModel::Discard,
            }
        } else {
            TransitionModel { session, store: StoreActionModel::Keep }
        },
    }
}

/// The request that submits `pubkey` under the token that the session holds.
/// A session without token is refused as expired: a code has to be accepted
/// before a key can be submitted.
pub open spec fn key_request_model(
    session: SessionModel,
    base_url: Seq<char>,
    pubkey: Seq<char>,
) -> Result<HttpRequestModel, ErrorModel> {
    match session_token(session) {
        Some(token) => Ok(submit_ssh_key_request_model(base_url, token, pubkey)),
        None => failure(ErrorKind::SessionExpired, "Unauthorized - cookie expired or invalid"@),
    }
}

impl Session {
    /// The session that a token loaded from the trust store, or the lack of
    /// one, stands for.
    pub fn restore(stored: Option<String>) -> (session: Session)
        ensures
            session.deep_view() == restored_model(stored.deep_view()),
    {
        match stored {
            Some(token) => Session::Authenticated { token },
            None => Session::Unauthenticated,
        }
    }

    /// The token that the session holds, if it holds one.
    pub fn token(&self) -> (token: Option<&str>)
        ensures
            token.deep_view() == session_token(self.deep_view()),
    {
        match self {
            Session::Unauthenticated => None,
            Session::Authenticated { token } => Some(token.as_str()),
            Session::KeyAuthorized { token } => Some(token.as_str()),
        }
    }

    /// The request that submits `pubkey` under the token held. Without a token
    /// the session is refused as expired, and a code has to be submitted first.
    pub fn key_request(&self, client: &AuthClient, pubkey: &str) -> (request: Result<
        HttpRequest,
        InstallerError,
    >)
        ensures
            result_model(request) == key_request_model(
                self.deep_view(),
                client.base_url@,
                pubkey@,
            ),
    {
        match self.token() {
            Some(token) => Ok(client.submit_ssh_key_request(token, pubkey)),
            None => Err(
                InstallerError {
                    kind: ErrorKind::SessionExpired,
                    message: String::from_str("Unauthorized - cookie expired or invalid"),
                },
            ),
        }
    }

    /// The session after a code was submitted with the given result.
    pub fn code_submitted(self, result: &Result<AuthCookie, InstallerError>) -> (next: Transition)
        ensures
            next.deep_view() == code_submitted_model(self.deep_view(), result_model(*result)),
    {
        match result {
            Ok(cookie) => Transition {
                session: Session::Authenticated { token: cookie.value.clone() },
                store: StoreAction::Save { token: cookie.value.clone() },
            },
            Err(_) => Transition { session: self, store: StoreAction::Keep },
        }
    }

    /// The session after a public key was submitted with the given result.
    pub fn key_submitted(self, result: &Result<(), InstallerError>) -> (next: Transition)
        ensures
            next.deep_view() == key_submitted_model(self.deep_view(), result_model(*result)),
    {
        match result {
            Ok(_) => {
                let session = match self {
                    Session::Unauthenticated => Session::Unauthenticated,
                    Session::Authenticated { token } => Session::KeyAuthorized { token },
                    Session::KeyAuthorized { token } => Session::KeyAuthorized { token },
                };
                Transition { session, store: StoreAction::Keep }
            },
            Err(error) => {
                if error.kind == ErrorKind::SessionExpired {
                    Transition { session: Session::Unauthenticated, store: StoreAction::Discard }
                } else {
                    Transition { session: self, store: StoreAction::Keep }
                }
            },
        }
    }

    /// The session after the user logged out: no token is held, and the stored one is to go.
    pub fn logout(self) -> (next: Transition)
        ensures
            next.deep_view() == (TransitionModel {
                session: SessionModel::Unauthenticated,
                store: StoreActionModel::Discard,
            }),
    {
        Transition { session: Session::Unauthenticated, store: StoreAction::Discard }
    }
}

/// A code that the device accepts, answering with success and a token that is
/// not empty, gives that token.
pub proof fn lemma_accepted_code_gives_token(reply: HttpReplyModel)
    requires
        is_success_code(reply.status.code),
        first_token_cookie(reply.cookies, 0) is Some,
        first_token_cookie(reply.cookies, 0)->Some_0.value.len() > 0,
    ensures
        submit_code_model(HttpOutcomeModel::Answered(reply)) is Ok,
        submit_code_model(HttpOutcomeModel::Answered(reply))->Ok_0.value == first_token_cookie(
            reply.cookies,
            0,
        )->Some_0.value,
        submit_code_model(HttpOutcomeModel::Answered(reply))->Ok_0.value.len() > 0,
{
}

/// A code that the device rejects, answering without success, gives
/// `InvalidCode` and never a token, whatever cookies the answer holds.
pub proof fn lemma_rejected_code_gives_no_token(reply: HttpReplyModel)
    requires
        !is_success_code(reply.status.code),
    ensures
        submit_code_model(HttpOutcomeModel::Answered(reply)) is Err,
        submit_code_model(HttpOutcomeModel::Answered(reply))->Err_0.kind == ErrorKind::InvalidCode,
{
}

/// The token cookie is found exactly when some cookie bears its name, and it
/// is the first that does.
pub proof fn lemma_first_token_cookie(cookies: Seq<ResponseCookieModel>, from: int)
    requires
        0 <= from,
    ensures
        match first_token_cookie(cookies, from) {
            Some(cookie) => exists|i: int|
                from <= i < cookies.len() && cookies[i] == cookie && cookie.name
                    == token_cookie_name() && forall|j: int|
                    from <= j < i ==> (#[trigger] cookies[j]).name != token_cookie_name(),
            None => forall|j: int|
                from <= j < cookies.len() ==> (#[trigger] cookies[j]).name != token_cookie_name(),
        },
    decreases cookies.len() - from,
{
    if from < cookies.len() {
        if cookies[from].name == token_cookie_name() {
            assert(from <= from < cookies.len() && cookies[from] == cookies[from]);
        } else {
            lemma_first_token_cookie(cookies, from + 1);
        }
    }
}

/// A public key that is refused because the session has expired leaves the
/// session without a token and demands that the stored one be deleted. Until a
/// new code has been accepted there is no request by which to try again.
pub proof fn lemma_expired_session_must_start_over(
    session: SessionModel,
    error: ErrorModel,
    base_url: Seq<char>,
    pubkey: Seq<char>,
)
    requires
        error.kind == ErrorKind::SessionExpired,
    ensures
        key_submitted_model(session, Err(error)).session is Unauthenticated,
        key_submitted_model(session, Err(error)).store is Discard,
        key_request_model(key_submitted_model(session, Err(error)).session, base_url, pubkey)
            is Err,
{
}

/// The device's answers 401 and 403 to a public key are reported as an expired session.
pub proof fn lemma_unauthorized_means_expired(reply: HttpReplyModel)
    requires
        reply.status.code == 401 || reply.status.code == 403,
    ensures
        submit_ssh_key_model(HttpOutcomeModel::Answered(reply)) is Err,
        submit_ssh_key_model(HttpOutcomeModel::Answered(reply))->Err_0.kind
            == ErrorKind::SessionExpired,
{
}

} // verus!
