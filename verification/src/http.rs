//! HTTP exchanges as plain values: the request to send, and what came back.

use vstd::prelude::*;
use vstd::string::*;

verus! {

/// The request method.
#[derive(Clone, Copy, Debug, PartialEq, Eq, Structural)]
pub enum Method {
    Get,
    Post,
}

/// A cookie to send with a request.
#[derive(Clone, Debug, PartialEq, Eq)]
pub struct RequestCookie {
    pub name: String,
    pub value: String,
}

/// The mathematical content of a [`RequestCookie`].
pub struct RequestCookieModel {
    pub name: Seq<char>,
    pub value: Seq<char>,
}

impl DeepView for RequestCookie {
    type V = RequestCookieModel;

    open spec fn deep_view(&self) -> RequestCookieModel {
        RequestCookieModel { name: self.name@, value: self.value@ }
    }
}

/// A request to send.
#[derive(Clone, Debug, PartialEq, Eq)]
pub struct HttpRequest {
    pub method: Method,
    pub url: String,
    /// The `User-Agent` header, if one is to be sent.
    pub user_agent: Option<String>,
    /// The cookie to present, if any.
    pub cookie: Option<RequestCookie>,
    /// The body, sent as `application/json`, if any.
    pub json_body: Option<String>,
}

/// The mathematical content of an [`HttpRequest`].
pub struct HttpRequestModel {
    pub method: Method,
    pub url: Seq<char>,
    pub user_agent: Option<Seq<char>>,
    pub cookie: Option<RequestCookieModel>,
    pub json_body: Option<Seq<char>>,
}

impl DeepView for HttpRequest {
    type V = HttpRequestModel;

    open spec fn deep_view(&self) -> HttpRequestModel {
        HttpRequestModel {
            method: self.method,
            url: self.url@,
            user_agent: self.user_agent.deep_view(),
            cookie: self.cookie.deep_view(),
            json_body: self.json_body.deep_view(),
        }
    }
}

/// The status line of a response.
#[derive(Clone, Debug, PartialEq, Eq)]
pub struct HttpStatus {
    pub code: u16,
    /// The status as the transport prints it, such as `404 Not Found`.
    pub text: String,
}

/// The mathematical content of an [`HttpStatus`].
pub struct HttpStatusModel {
    pub code: u16,
    pub text: Seq<char>,
}

impl DeepView for HttpStatus {
    type V = HttpStatusModel;

    open spec fn deep_view(&self) -> HttpStatusModel {
        HttpStatusModel { code: self.code, text: self.text@ }
    }
}

/// A cookie that a response sets.
#[derive(Clone, Debug, PartialEq, Eq)]
pub struct ResponseCookie {
    pub name: String,
    pub value: String,
    /// When the cookie expires, as the transport prints it, if the response says.
    pub expires: Option<String>,
}

/// The mathematical content of a [`ResponseCookie`].
pub struct ResponseCookieModel {
    pub name: Seq<char>,
    pub value: Seq<char>,
    pub expires: Option<Seq<char>>,
}

impl DeepView for ResponseCookie {
    type V = ResponseCookieModel;

    open spec fn deep_view(&self) -> ResponseCookieModel {
        ResponseCookieModel {
            name: self.name@,
            value: self.value@,
            expires: self.expires.deep_view(),
        }
    }
}

/// What a response holds, as far as this library reads it.
#[derive(Clone, Debug, PartialEq, Eq)]
pub struct HttpReply {
    pub status: HttpStatus,
    /// The cookies that the response sets, in the order of its headers.
    pub cookies: Vec<ResponseCookie>,
}

/// The mathematical content of an [`HttpReply`].
pub struct HttpReplyModel {
    pub status: HttpStatusModel,
    pub cookies: Seq<ResponseCookieModel>,
}

impl DeepView for HttpReply {
    type V = HttpReplyModel;

    open spec fn deep_view(&self) -> HttpReplyModel {
        HttpReplyModel { status: self.status.deep_view(), cookies: self.cookies.deep_view() }
    }
}

/// What came of sending a request.
#[derive(Clone, Debug, PartialEq, Eq)]
pub enum HttpOutcome {
    /// No response came: the connection failed, or the exchange broke off.
    Failed { reason: String },
    /// The server answered.
    Answered(HttpReply),
}

/// The mathematical content of an [`HttpOutcome`].
pub enum HttpOutcomeModel {
    Failed { reason: Seq<char> },
    Answered(HttpReplyModel),
}

impl DeepView for HttpOutcome {
    type V = HttpOutcomeModel;

    open spec fn deep_view(&self) -> HttpOutcomeModel {
        match self {
            HttpOutcome::Failed { reason } => HttpOutcomeModel::Failed { reason: reason@ },
            HttpOutcome::Answered(reply) => HttpOutcomeModel::Answered(reply.deep_view()),
        }
    }
}

/// The status code stands for success.
pub open spec fn is_success_code(code: u16) -> bool {
    200 <= code < 300
}

/// The JSON text of the object whose one member, `key`, is the string `value`.
pub uninterp spec fn json_object_text(key: Seq<char>, value: Seq<char>) -> Seq<char>;

impl HttpStatus {
    /// Whether the status stands for success.
    pub fn is_success(&self) -> (yes: bool)
        ensures
            yes == is_success_code(self.code),
    {
        200 <= self.code && self.code < 300
    }
}

/// Serialises the object `{key: value}` with `serde_json`, through the
/// `Display` impl of `serde_json::Value` in its compact form.
///
/// The contract gives the text a name and claims nothing else of it: that it
/// is a function of the two strings alone.
#[verifier::external_body]
pub(crate) fn json_object(key: &str, value: &str) -> (text: String)
    ensures
        text@ == json_object_text(key@, value@),
{
    let mut members = serde_json::Map::new();
    members.insert(key.to_owned(), serde_json::Value::String(value.to_owned()));
    serde_json::Value::Object(members).to_string()
}

/// The request that reads `url`, naming this tool as the user agent.
pub open spec fn get_request_model(url: Seq<char>, user_agent: Option<Seq<char>>) -> HttpRequestModel {
    HttpRequestModel { method: Method::Get, url, user_agent, cookie: None, json_body: None }
}

/// The request that posts the object `{key: value}` to `url`.
pub open spec fn post_json_model(
    url: Seq<char>,
    cookie: Option<RequestCookieModel>,
    key: Seq<char>,
    value: Seq<char>,
) -> HttpRequestModel {
    HttpRequestModel {
        method: Method::Post,
        url,
        user_agent: None,
        cookie,
        json_body: Some(json_object_text(key, value)),
    }
}

} // verus!
