//! The three REST operations of the web front end, as requests to send.
//!
//! Each operation is described completely by a [`FetchRequest`]: the
//! caller builds the browser's request from it, sends it, and asks
//! [`check_status`] what the response's status means. Nothing is retried,
//! and the body of a successful response is handed on as it is.

use crate::json::{
    credentials_object, frame_credentials, frame_user, json_string, quote, user_object,
};
use vstd::prelude::*;
use vstd::string::StringExecFns;

verus! {

/// The HTTP method of a request.
#[derive(Clone, Copy, Debug, PartialEq, Eq, Structural)]
pub enum Method {
    Get,
    Post,
}

/// How the browser treats a request to another origin.
#[derive(Clone, Copy, Debug, PartialEq, Eq, Structural)]
pub enum Mode {
    SameOrigin,
    NoCors,
    Cors,
    Navigate,
}

/// One header line of a request.
#[derive(Debug, PartialEq, Eq)]
pub struct Header {
    pub name: String,
    pub value: String,
}

impl View for Header {
    type V = (Seq<char>, Seq<char>);

    open spec fn view(&self) -> (Seq<char>, Seq<char>) {
        (self.name@, self.value@)
    }
}

/// A request of the front end, ready to be sent.
#[derive(Debug, PartialEq, Eq)]
pub struct FetchRequest {
    pub method: Method,
    pub mode: Mode,
    pub url: String,
    pub headers: Vec<Header>,
    pub body: Option<String>,
}

/// The mathematical value of a [`FetchRequest`]. The headers are pairs of
/// name and value, in the order in which they are set.
pub struct FetchRequestView {
    pub method: Method,
    pub mode: Mode,
    pub url: Seq<char>,
    pub headers: Seq<(Seq<char>, Seq<char>)>,
    pub body: Option<Seq<char>>,
}

impl View for FetchRequest {
    type V = FetchRequestView;

    open spec fn view(&self) -> FetchRequestView {
        FetchRequestView {
            method: self.method,
            mode: self.mode,
            url: self.url@,
            headers: self.headers@.map_values(|header: Header| header@),
            body: match self.body {
                Some(text) => Some(text@),
                None => None,
            },
        }
    }
}

/// A user to create.
#[derive(Debug, PartialEq, Eq)]
pub struct User {
    pub username: String,
    pub email: String,
    pub password: String,
}

/// What a user logs in with.
#[derive(Debug, PartialEq, Eq)]
pub struct Credentials {
    pub username: String,
    pub password: String,
}

/// The JSON text of a user: an object with the members `username`, `email`
/// and `password`, in this order, each a JSON string.
pub open spec fn user_json(username: Seq<char>, email: Seq<char>, password: Seq<char>) -> Seq<
    char,
> {
    user_object(json_string(username), json_string(email), json_string(password))
}

/// The JSON text of credentials: an object with the members `username` and
/// `password`, in this order, each a JSON string.
pub open spec fn credentials_json(username: Seq<char>, password: Seq<char>) -> Seq<char> {
    credentials_object(json_string(username), json_string(password))
}

impl User {
    /// The user as JSON text.
    pub fn to_json(&self) -> (text: String)
        ensures
            text@ == user_json(self.username@, self.email@, self.password@),
    {
        let username = quote(self.username.as_str());
        let email = quote(self.email.as_str());
        let password = quote(self.password.as_str());
        frame_user(username.as_str(), email.as_str(), password.as_str())
    }
}

impl Credentials {
    /// The credentials as JSON text.
    pub fn to_json(&self) -> (text: String)
        ensures
            text@ == credentials_json(self.username@, self.password@),
    {
        let username = quote(self.username.as_str());
        let password = quote(self.password.as_str());
        frame_credentials(username.as_str(), password.as_str())
    }
}

/// The header that announces a JSON body.
pub open spec fn content_type_json() -> (Seq<char>, Seq<char>) {
    ("Content-Type"@, "application/json"@)
}

/// The header that authorizes a request with a bearer token.
pub open spec fn bearer(token: Seq<char>) -> (Seq<char>, Seq<char>) {
    ("Authorization"@, "Bearer "@ + token)
}

/// The request that creates a user: an authorized POST of the user object.
pub open spec fn create_user_request(
    username: Seq<char>,
    email: Seq<char>,
    password: Seq<char>,
    token: Seq<char>,
) -> FetchRequestView {
    FetchRequestView {
        method: Method::Post,
        mode: Mode::Cors,
        url: "/api/users/"@,
        headers: seq![content_type_json(), bearer(token)],
        body: Some(user_json(username, email, password)),
    }
}

/// The request that logs in: a POST of the credentials object, without
/// authorization.
pub open spec fn login_request(username: Seq<char>, password: Seq<char>) -> FetchRequestView {
    FetchRequestView {
        method: Method::Post,
        mode: Mode::Cors,
        url: "/api/login/"@,
        headers: seq![content_type_json()],
        body: Some(credentials_json(username, password)),
    }
}

/// The request that lists the users: a GET without headers or body.
pub open spec fn fetch_users_request() -> FetchRequestView {
    FetchRequestView {
        method: Method::Get,
        mode: Mode::Cors,
        url: "/api/users/"@,
        headers: Seq::empty(),
        body: None,
    }
}

fn json_header() -> (header: Header)
    ensures
        header@ == content_type_json(),
{
    Header { name: String::from_str("Content-Type"), value: String::from_str("application/json") }
}

/// The request that creates the user `username` with the given e-mail
/// address and password, authorized by `token`.
pub fn create_user(username: String, email: String, password: String, token: String) -> (request:
    FetchRequest)
    ensures
        request@ == create_user_request(username@, email@, password@, token@),
{
    let user = User { username, email, password };
    let data = user.to_json();
    let authorization = Header {
        name: String::from_str("Authorization"),
        value: String::from_str("Bearer ").concat(token.as_str()),
    };
    let mut headers: Vec<Header> = Vec::new();
    headers.push(json_header());
    headers.push(authorization);
    let request = FetchRequest {
        method: Method::Post,
        mode: Mode::Cors,
        url: String::from_str("/api/users/"),
        headers,
        body: Some(data),
    };
    assert(request@.headers =~= seq![content_type_json(), bearer(token@)]);
    request
}

/// The request that logs `username` in with `password`.
pub fn login(username: String, password: String) -> (request: FetchRequest)
    ensures
        request@ == login_request(username@, password@),
{
    let creds = Credentials { username, password };
    let data = creds.to_json();
    let mut headers: Vec<Header> = Vec::new();
    headers.push(json_header());
    let request = FetchRequest {
        method: Method::Post,
        mode: Mode::Cors,
        url: String::from_str("/api/login/"),
        headers,
        body: Some(data),
    };
    assert(request@.headers =~= seq![content_type_json()]);
    request
}

/// The request that lists the users.
pub fn fetch_users() -> (request: FetchRequest)
    ensures
        request@ == fetch_users_request(),
{
    let request = FetchRequest {
        method: Method::Get,
        mode: Mode::Cors,
        url: String::from_str("/api/users/"),
        headers: Vec::new(),
        body: None,
    };
    assert(request@.headers =~= Seq::empty());
    request
}

/// A response whose status is not a success. There is one such failure:
/// it says neither which operation failed nor why.
#[derive(Clone, Copy, Debug, PartialEq, Eq, Structural)]
pub struct HttpFailure {}

/// The text of the failure, the same for every operation.
pub open spec fn failure_message() -> Seq<char> {
    "HTTP request failed"@
}

impl View for HttpFailure {
    type V = Seq<char>;

    open spec fn view(&self) -> Seq<char> {
        failure_message()
    }
}

impl HttpFailure {
    /// The text of the failure.
    pub fn message(&self) -> (text: &'static str)
        ensures
            text@ == failure_message(),
    {
        "HTTP request failed"
    }
}

/// Judges a response by its status alone, whatever the operation: `ok`
/// says whether the status is a success. After `Ok` the caller reads the
/// body as JSON and returns it as it is; after `Err` the body is not read.
pub fn check_status(ok: bool) -> (verdict: Result<(), HttpFailure>)
    ensures
        verdict is Ok <==> ok,
        verdict matches Err(failure) ==> failure@ == failure_message(),
{
    if ok {
        Ok(())
    } else {
        Err(HttpFailure {  })
    }
}

} // verus!
