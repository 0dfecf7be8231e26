//! How the server is reached: its URL, the credentials and the transport's options.
use crate::text::around;
use vstd::prelude::*;

verus! {

/// How a store or a target of an index is named in messages.
pub open spec fn label(index: Seq<char>) -> Seq<char> {
    "opensearch("@ + index + ")"@
}

/// The name of a store or a target in messages.
pub(crate) fn index_label(index: &str) -> (r: String)
    ensures
        r@ == label(index@),
{
    around("opensearch(", index, ")")
}

/// Whether an HTTP status is a success.
pub open spec fn success(status: u16) -> bool {
    200 <= status < 300
}

/// Whether an HTTP status is a success.
pub fn is_success(status: u16) -> (r: bool)
    ensures
        r == success(status),
{
    200 <= status && status < 300
}

/// A secret as it may be shown: a fixed text if it is set.
pub fn redacted_secret(secret: &Option<String>) -> (r: Option<&'static str>)
    ensures
        secret is Some ==> r == Some("<redacted>"),
        secret is None ==> r is None,
{
    match secret {
        Some(_) => Some("<redacted>"),
        None => None,
    }
}

/// What is presented to the server.
#[derive(Debug)]
pub enum Credentials {
    Bearer(String),
    Basic(String, String),
}

/// The model of `Credentials`.
pub enum CredentialsView {
    Bearer(Seq<char>),
    Basic(Seq<char>, Seq<char>),
}

impl View for Credentials {
    type V = CredentialsView;

    open spec fn view(&self) -> CredentialsView {
        match *self {
            Credentials::Bearer(token) => CredentialsView::Bearer(token@),
            Credentials::Basic(user, password) => CredentialsView::Basic(user@, password@),
        }
    }
}

/// The credentials of a configuration: a bearer token wins; a username counts only together with
/// a password.
pub open spec fn credentials(
    bearer_token: Option<String>,
    username: Option<String>,
    password: Option<String>,
) -> Option<CredentialsView> {
    match (bearer_token, username, password) {
        (Some(token), _, _) => Some(CredentialsView::Bearer(token@)),
        (None, Some(user), Some(pass)) => Some(CredentialsView::Basic(user@, pass@)),
        _ => None,
    }
}

/// The model of optional credentials.
pub open spec fn credentials_view(c: Option<Credentials>) -> Option<CredentialsView> {
    match c {
        Some(c) => Some(c@),
        None => None,
    }
}

/// Selects the credentials of a configuration.
pub fn select_credentials(
    bearer_token: Option<String>,
    username: Option<String>,
    password: Option<String>,
) -> (r: Option<Credentials>)
    ensures
        credentials_view(r) == credentials(bearer_token, username, password),
{
    match bearer_token {
        Some(token) => Some(Credentials::Bearer(token)),
        None => match (username, password) {
            (Some(user), Some(pass)) => Some(Credentials::Basic(user, pass)),
            _ => None,
        },
    }
}

/// What the transport to the server is built from.
#[derive(Debug)]
pub struct Connection {
    /// The node's URL as it was parsed.
    pub url: String,
    pub credentials: Option<Credentials>,
    /// The timeout of a request in seconds.
    pub timeout_s: u64,
    /// Whether the server's certificate is accepted unseen.
    pub tls_insecure: bool,
}

/// The model of a `Connection`.
pub struct ConnectionView {
    pub url: Seq<char>,
    pub credentials: Option<CredentialsView>,
    pub timeout_s: u64,
    pub tls_insecure: bool,
}

impl View for Connection {
    type V = ConnectionView;

    open spec fn view(&self) -> ConnectionView {
        ConnectionView {
            url: self.url@,
            credentials: credentials_view(self.credentials),
            timeout_s: self.timeout_s,
            tls_insecure: self.tls_insecure,
        }
    }
}

/// What `url` makes of a text: the serialization of the URL that it is, or the message of the
/// error.
pub uninterp spec fn url_parsed(s: Seq<char>) -> Result<Seq<char>, Seq<char>>;

/// The model of a parsed URL.
pub open spec fn url_result(r: Result<String, String>) -> Result<Seq<char>, Seq<char>> {
    match r {
        Ok(u) => Ok(u@),
        Err(m) => Err(m@),
    }
}

/// Calls `url::Url::parse`: the result is the URL's serialization, or the error's message. What
/// is a URL, how it is serialized and what each error says is left to the name.
#[verifier::external_body]
pub(crate) fn parse_url(s: &str) -> (r: Result<String, String>)
    ensures
        url_result(r) == url_parsed(s@),
{
    match url::Url::parse(s) {
        Ok(u) => Ok(String::from(u)),
        Err(e) => Err(e.to_string()),
    }
}

} // verus!
