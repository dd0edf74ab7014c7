//! Request composition and response classification of the HTTP client.
use vstd::prelude::*;
use crate::error::Error;

verus! {

/// The origin and root path of the API.
pub const BASE_URL: &'static str = "https://api.twitch.tv/kraken";

/// The media type that pins the API version.
pub const ACCEPT_MEDIA_TYPE: &'static str = "application/vnd.twitchtv.v3+json";

/// The class of an HTTP status code.
#[derive(Debug, Clone, Copy, PartialEq, Eq, Hash)]
pub enum StatusClass {
    /// 1xx
    Informational,
    /// 2xx
    Success,
    /// 3xx
    Redirection,
    /// 4xx
    ClientError,
    /// 5xx
    ServerError,
    /// Any other code.
    NoClass,
}

/// The class of a status code, by its hundreds.
pub open spec fn class_of(status: u16) -> StatusClass {
    if 100 <= status <= 199 {
        StatusClass::Informational
    } else if 200 <= status <= 299 {
        StatusClass::Success
    } else if 300 <= status <= 399 {
        StatusClass::Redirection
    } else if 400 <= status <= 499 {
        StatusClass::ClientError
    } else if 500 <= status <= 599 {
        StatusClass::ServerError
    } else {
        StatusClass::NoClass
    }
}

/// The class of a status code.
pub fn status_class(status: u16) -> (r: StatusClass)
    ensures
        r == class_of(status),
{
    if 100 <= status && status <= 199 {
        StatusClass::Informational
    } else if 200 <= status && status <= 299 {
        StatusClass::Success
    } else if 300 <= status && status <= 399 {
        StatusClass::Redirection
    } else if 400 <= status && status <= 499 {
        StatusClass::ClientError
    } else if 500 <= status && status <= 599 {
        StatusClass::ServerError
    } else {
        StatusClass::NoClass
    }
}

/// What a response status means to the client.
#[derive(Debug, Clone, Copy, PartialEq, Eq, Hash)]
pub enum ResponseKind {
    /// 200: the body is the content.
    Content,
    /// 401: the resource needs authentication.
    Unauthorized,
    /// 5xx: the server failed.
    ServerError,
    /// Another 2xx, which the API does not document: a contract violation.
    UnhandledSuccess,
    /// Another 4xx, which the API does not document: a contract violation.
    UnhandledClientError,
    /// A status outside 2xx, 4xx and 5xx: a contract violation.
    UnhandledStatus,
}

/// What a status means: 200 is content, 401 unauthorized, 5xx a server
/// error; any other status is a contract violation of its class.
pub open spec fn kind_of(status: u16) -> ResponseKind {
    match class_of(status) {
        StatusClass::Success => if status == 200 {
            ResponseKind::Content
        } else {
            ResponseKind::UnhandledSuccess
        },
        StatusClass::ClientError => if status == 401 {
            ResponseKind::Unauthorized
        } else {
            ResponseKind::UnhandledClientError
        },
        StatusClass::ServerError => ResponseKind::ServerError,
        _ => ResponseKind::UnhandledStatus,
    }
}

/// True for a status that the client turns into content or an error; the
/// others are contract violations that abort.
pub open spec fn is_handled(status: u16) -> bool {
    kind_of(status) == ResponseKind::Content || kind_of(status) == ResponseKind::Unauthorized
        || kind_of(status) == ResponseKind::ServerError
}

/// Classifies a response status.
pub fn classify_status(status: u16) -> (r: ResponseKind)
    ensures
        r == kind_of(status),
{
    match status_class(status) {
        StatusClass::Success => if status == 200 {
            ResponseKind::Content
        } else {
            ResponseKind::UnhandledSuccess
        },
        StatusClass::ClientError => if status == 401 {
            ResponseKind::Unauthorized
        } else {
            ResponseKind::UnhandledClientError
        },
        StatusClass::ServerError => ResponseKind::ServerError,
        _ => ResponseKind::UnhandledStatus,
    }
}

/// The outcome of a handled response to a request for `url`: the body for
/// 200, `Unauthorized` with the URL for 401, `UpstreamServerError` with the
/// status and body for 5xx.
pub open spec fn outcome_matches(r: Result<String, Error>, url: Seq<char>, status: u16, body: Seq<char>) -> bool {
    match kind_of(status) {
        ResponseKind::Content => r matches Ok(b) && b@ == body,
        ResponseKind::Unauthorized => r matches Err(Error::Unauthorized(u)) && u@ == url,
        ResponseKind::ServerError => r matches Err(Error::UpstreamServerError { status: s, body: b })
            && s == status && b@ == body,
        _ => false,
    }
}

/// Turns a handled response into the content or a typed error.
pub fn interpret_response(url: &str, status: u16, body: String) -> (r: Result<String, Error>)
    requires
        is_handled(status),
    ensures
        outcome_matches(r, url@, status, body@),
{
    match classify_status(status) {
        ResponseKind::Content => Ok(body),
        ResponseKind::Unauthorized => Err(Error::Unauthorized(url.to_owned())),
        _ => Err(Error::UpstreamServerError { status, body }),
    }
}

/// The request side of the client: where requests go and what they carry.
#[derive(Debug, Clone)]
pub struct TwitchHttpClient {
    pub client_id: Option<String>,
    pub base_url: String,
}

impl TwitchHttpClient {
    /// A client of the API's fixed origin, with an optional client identifier.
    pub fn new(client_id: Option<String>) -> (r: TwitchHttpClient)
        ensures
            r.client_id == client_id,
            r.base_url@ == BASE_URL@,
    {
        TwitchHttpClient { client_id, base_url: String::from_str(BASE_URL) }
    }

    /// A client of another origin, such as a test server.
    pub fn with_base_url(client_id: Option<String>, base_url: &str) -> (r: TwitchHttpClient)
        ensures
            r.client_id == client_id,
            r.base_url@ == base_url@,
    {
        TwitchHttpClient { client_id, base_url: base_url.to_owned() }
    }

    /// Sets the client identifier.
    pub fn set_client_id(&mut self, client_id: &str)
        ensures
            final(self).client_id matches Some(id) && id@ == client_id@,
            final(self).base_url == old(self).base_url,
    {
        self.client_id = Some(client_id.to_owned());
    }

    /// The absolute URL of a path relative to the API root.
    pub fn create_url_string(&self, relative_url: &str) -> (r: String)
        ensures
            r@ == self.base_url@ + relative_url@,
    {
        let mut url = self.base_url.clone();
        url.append(relative_url);
        url
    }

    /// The absolute URL of a relative path with an encoded query string.
    pub fn create_url_with_query(&self, relative_url: &str, query: &str) -> (r: String)
        ensures
            r@ == self.base_url@ + relative_url@ + query@,
    {
        let mut url = self.create_url_string(relative_url);
        url.append(query);
        url
    }

    /// The headers of every request: `Accept` with the versioned media type,
    /// and `Client-ID` when a client identifier is set.
    pub fn create_default_headers(&self) -> (r: Vec<(String, String)>)
        ensures
            r@.len() == if self.client_id.is_some() { 2int } else { 1int },
            r@[0].0@ == "Accept"@,
            r@[0].1@ == ACCEPT_MEDIA_TYPE@,
            self.client_id matches Some(id) ==> r@[1].0@ == "Client-ID"@ && r@[1].1@ == id@,
    {
        let mut headers: Vec<(String, String)> = Vec::new();
        headers.push((String::from_str("Accept"), String::from_str(ACCEPT_MEDIA_TYPE)));
        match &self.client_id {
            Some(id) => headers.push((String::from_str("Client-ID"), id.clone())),
            None => {},
        }
        headers
    }
}

} // verus!
