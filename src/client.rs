//! The API session: stored credentials, the URLs it talks to, and how it reads
//! the server's answers.

use vstd::prelude::*;
use vstd::string::StringExecFns;

use crate::wire::{json_member_text, json_string_member};

verus! {

/// Declares `reqwest::Error`, the transport failure that a request can end in.
#[verifier::external_type_specification]
#[verifier::external_body]
pub struct ExRequestError(reqwest::Error);

/// Declares `reqwest::Client`, the HTTP client that a session carries.
#[verifier::external_type_specification]
#[verifier::external_body]
pub struct ExHttpClient(reqwest::Client);

/// Scheme of the REST endpoints.
pub const DEFAULT_SCHEME: &'static str = "http";

/// Host used while no credentials name one.
pub const DEFAULT_HOST: &'static str = "localhost:4000";

/// Credentials kept between runs: a bearer token and the host it is valid for.
#[derive(Debug, Clone)]
pub struct ClientConfig {
    pub token: String,
    pub host: String,
}

/// Why an operation of the client failed.
#[derive(Debug)]
pub enum HeyError {
    /// No stored credentials were found.
    NoConfigFound,
    /// The server refused the token; log in at the given URL.
    NotLoggedIn(String),
    /// The login handshake was driven out of order.
    LoginError,
    /// There is no token to store.
    NoToken,
    /// The server answered with an unexpected HTTP status.
    ServerError(u16),
    /// The request failed in transport.
    RequestError(reqwest::Error),
    /// The server's answer did not have the expected shape.
    MalformedResponse,
    /// A streaming payload could not be read; the transfer is abandoned.
    FatalProtocolError,
}

impl From<reqwest::Error> for HeyError {
    fn from(err: reqwest::Error) -> (e: HeyError)
        ensures
            e == HeyError::RequestError(err),
    {
        HeyError::RequestError(err)
    }
}

impl vstd::std_specs::convert::FromSpecImpl<reqwest::Error> for HeyError {
    open spec fn obeys_from_spec() -> bool {
        true
    }

    open spec fn from_spec(err: reqwest::Error) -> HeyError {
        HeyError::RequestError(err)
    }
}

/// The login URL that a refusal body offers, if it offers a non-empty one.
pub open spec fn login_url_in(body: Seq<char>) -> Option<Seq<char>> {
    match json_member_text(body, "login_url"@) {
        Some(url) => if url.len() > 0 {
            Some(url)
        } else {
            None
        },
        None => None,
    }
}

/// `e` is the error for a response with this status and body, the status not
/// being 200: a refusal (403) carries its login URL, any other status is a
/// server error.
pub open spec fn is_rejection(status: u16, body: Seq<char>, e: HeyError) -> bool {
    if status == 403 {
        match login_url_in(body) {
            Some(url) => e matches HeyError::NotLoggedIn(u) && u@ == url,
            None => e is MalformedResponse,
        }
    } else {
        e == HeyError::ServerError(status)
    }
}

/// Sorts a response into success (200), a login challenge (403 with a
/// non-empty `login_url`), or a server error (any other status). A refusal
/// without a login URL is a malformed response.
pub fn check_resp(status: u16, body: &str) -> (r: Result<(), HeyError>)
    ensures
        r is Ok <==> status == 200,
        r matches Err(e) ==> is_rejection(status, body@, e),
        r matches Err(HeyError::NotLoggedIn(url)) ==> url@.len() > 0,
{
    if status == 200 {
        Ok(())
    } else if status == 403 {
        match LoginResponse::from_body(body) {
            Some(refusal) => Err(HeyError::NotLoggedIn(refusal.login_url)),
            None => Err(HeyError::MalformedResponse),
        }
    } else {
        Err(HeyError::ServerError(status))
    }
}

/// A stored snippet as the server lists it.
#[derive(Debug, Clone)]
pub struct Pasta {
    pub content: String,
    pub copied_count: i32,
    pub perma_id: String,
    pub id: i64,
    pub inserted_at: String,
}

/// The body of a refusal: where to log in.
#[derive(Debug, Clone)]
pub struct LoginResponse {
    pub login_url: String,
}

/// The identity that a valid token belongs to.
#[derive(Debug, Clone)]
pub struct UserInfo {
    pub username: String,
}

/// The answer to a request for a new stream: the stream's name.
#[derive(Debug, Clone)]
pub struct CreateStreamResponse {
    pub name: String,
}

/// Reads a successful response's string member `key`, after sorting out
/// refusals and server errors.
fn read_member(status: u16, body: &str, key: &str) -> (r: Result<String, HeyError>)
    ensures
        status == 200 ==> match json_member_text(body@, key@) {
            Some(text) => r matches Ok(t) && t@ == text,
            None => r matches Err(HeyError::MalformedResponse),
        },
        status != 200 ==> (r matches Err(e) && is_rejection(status, body@, e)),
{
    match check_resp(status, body) {
        Ok(()) => match json_string_member(body, key) {
            Some(text) => Ok(text),
            None => Err(HeyError::MalformedResponse),
        },
        Err(e) => Err(e),
    }
}

impl LoginResponse {
    /// Reads the body of a refusal: its non-empty `login_url` member.
    pub fn from_body(body: &str) -> (r: Option<LoginResponse>)
        ensures
            match login_url_in(body@) {
                Some(url) => r matches Some(lr) && lr.login_url@ == url,
                None => r is None,
            },
    {
        proof {
            reveal_strlit("login_url");
        }
        match json_string_member(body, "login_url") {
            Some(url) => {
                if url.as_str().is_empty() {
                    None
                } else {
                    Some(LoginResponse { login_url: url })
                }
            },
            None => None,
        }
    }
}

impl UserInfo {
    /// Reads the answer to the identity check `GET /api`: the user on 200, a
    /// login challenge on 403, a server error otherwise.
    pub fn from_response(status: u16, body: &str) -> (r: Result<UserInfo, HeyError>)
        ensures
            status == 200 ==> match json_member_text(body@, "username"@) {
                Some(name) => r matches Ok(u) && u.username@ == name,
                None => r matches Err(HeyError::MalformedResponse),
            },
            status != 200 ==> (r matches Err(e) && is_rejection(status, body@, e)),
            r matches Err(HeyError::NotLoggedIn(url)) ==> url@.len() > 0,
    {
        match read_member(status, body, "username") {
            Ok(username) => Ok(UserInfo { username }),
            Err(e) => Err(e),
        }
    }
}

impl CreateStreamResponse {
    /// Reads the answer to `GET /api/stream`: the new stream's name on 200.
    pub fn from_response(status: u16, body: &str) -> (r: Result<CreateStreamResponse, HeyError>)
        ensures
            status == 200 ==> match json_member_text(body@, "name"@) {
                Some(name) => r matches Ok(c) && c.name@ == name,
                None => r matches Err(HeyError::MalformedResponse),
            },
            status != 200 ==> (r matches Err(e) && is_rejection(status, body@, e)),
    {
        match read_member(status, body, "name") {
            Ok(name) => Ok(CreateStreamResponse { name }),
            Err(e) => Err(e),
        }
    }
}

/// A character with Unicode's White_Space property.
pub open spec fn is_white_space(c: char) -> bool {
    let u = c as u32;
    (0x09 <= u <= 0x0d) || u == 0x20 || u == 0x85 || u == 0xa0 || u == 0x1680 || (0x2000 <= u
        <= 0x200a) || u == 0x2028 || u == 0x2029 || u == 0x202f || u == 0x205f || u == 0x3000
}

/// `text` without its leading white space.
pub open spec fn trim_start(text: Seq<char>) -> Seq<char>
    decreases text.len(),
{
    if text.len() > 0 && is_white_space(text[0]) {
        trim_start(text.drop_first())
    } else {
        text
    }
}

/// `text` without its trailing white space.
pub open spec fn trim_end(text: Seq<char>) -> Seq<char>
    decreases text.len(),
{
    if text.len() > 0 && is_white_space(text.last()) {
        trim_end(text.drop_last())
    } else {
        text
    }
}

/// `text` without leading and trailing white space.
pub open spec fn trimmed(text: Seq<char>) -> Seq<char> {
    trim_end(trim_start(text))
}

/// Relies on str::trim: the text without leading and trailing white space,
/// white space being the characters with Unicode's White_Space property.
#[verifier::external_body]
fn trim_text(text: &str) -> (r: String)
    ensures
        r@ == trimmed(text@),
{
    text.trim().to_string()
}

/// A session with the server: the HTTP client, the credentials if any, and
/// where the credentials are kept.
pub struct PastaClient {
    pub client: reqwest::Client,
    pub config: Option<ClientConfig>,
    pub config_path: String,
}

impl PastaClient {
    /// The host this session talks to.
    pub open spec fn host(&self) -> Seq<char> {
        match self.config {
            Some(c) => c.host@,
            None => DEFAULT_HOST@,
        }
    }

    /// A session without credentials.
    pub fn new(client: reqwest::Client, path: String) -> (r: PastaClient)
        ensures
            r.client == client,
            r.config is None,
            r.config_path == path,
    {
        PastaClient { client, config: None, config_path: path }
    }

    /// Installs credentials.
    pub fn set_config(&mut self, config: ClientConfig)
        ensures
            final(self).config == Some(config),
            final(self).client == old(self).client,
            final(self).config_path == old(self).config_path,
    {
        self.config = Some(config);
    }

    /// The bearer token to attach to each request: the stored one, or none
    /// without credentials.
    pub fn get_token(&self) -> (r: Option<String>)
        ensures
            match self.config {
                Some(c) => r matches Some(t) && t@ == c.token@,
                None => r is None,
            },
    {
        match &self.config {
            Some(config) => Some(config.token.clone()),
            None => None,
        }
    }

    /// The URL of an endpoint of the REST API, `http://<host>/<path>`.
    pub fn get_url(&self, path: &str) -> (url: String)
        ensures
            url@ == DEFAULT_SCHEME@ + "://"@ + self.host() + "/"@ + path@,
    {
        let mut url = String::from_str(DEFAULT_SCHEME);
        url.append("://");
        match &self.config {
            Some(config) => url.append(config.host.as_str()),
            None => url.append(DEFAULT_HOST),
        }
        url.append("/");
        url.append(path);
        url
    }

    /// The endpoint of the channel transport on the current host,
    /// `ws://<host>/socket`.
    pub fn get_socket_url(&self) -> (r: Result<String, HeyError>)
        ensures
            r matches Ok(url) && url@ == "ws://"@ + self.host() + "/socket"@,
    {
        let mut url = String::from_str("ws://");
        match &self.config {
            Some(config) => url.append(config.host.as_str()),
            None => url.append(DEFAULT_HOST),
        }
        url.append("/socket");
        Ok(url)
    }

    /// Installs the token that the user pasted, trimmed, for the current host.
    pub fn install_token(&mut self, token: &str)
        ensures
            final(self).config matches Some(c) && c.token@ == trimmed(token@) && c.host@
                == old(self).host(),
            final(self).client == old(self).client,
            final(self).config_path == old(self).config_path,
    {
        let host = match &self.config {
            Some(config) => config.host.clone(),
            None => String::from_str(DEFAULT_HOST),
        };
        let config = ClientConfig { token: trim_text(token), host };
        self.set_config(config);
    }
}

} // verus!
