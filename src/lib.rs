//! Client for a chat server's HTTP API: sessions with basic authentication,
//! the event queue (register, poll, unregister) and a structured error.
//!
//! The library decides and encodes; sending and receiving bytes is left to
//! the caller, who hands the answers back: [`ClientBuilder::start`] says
//! whether an API key must be fetched first, [`PreparedRequest`] says what to
//! send, and [`event::Queue::receive`] says whether a batch of events is
//! handed on or the queue must be polled again.
use reqwest::Client as HttpClient;
use reqwest::Error as HttpError;
use std::sync::Arc;
use vstd::prelude::*;

mod endpoint;
mod error;
pub mod event;
pub mod text;

pub use endpoint::Endpoint;
pub use error::{
    builder_failure, classify_status, decodes_to, error_text, settle, zulip_error_text, Error,
    ErrorKind, ErrorView, Reply, StatusClass, ZulipError, ZulipErrorCode, ZulipErrorView,
};
use event::{QueueBuilder, RegistrationView};

verus! {

#[verifier::external_type_specification]
#[verifier::external_body]
pub struct ExHttpClient(HttpClient);

/// The text of a parsed server address before its path (scheme, user info,
/// host and port), or `None` where the address is refused.
pub uninterp spec fn address_origin(s: Seq<char>) -> Option<Seq<char>>;

/// Relies on reqwest's `IntoUrl` (url's `Url::parse`, then a host is
/// required; every failure it reports is a builder error) and on url's
/// `Url[..Position::BeforePath]`: the parsed address's text before its path.
#[verifier::external_body]
fn parse_origin<U: reqwest::IntoUrl + View<V = Seq<char>>>(address: U) -> (r: Result<
    String,
    HttpError,
>)
    ensures
        match r {
            Ok(origin) => address_origin(address@) == Some(origin@),
            Err(_) => address_origin(address@) is None,
        },
{
    let url = address.into_url()?;
    Ok(url[..url::Position::BeforePath].to_string())
}

/// How a request carries its parameters.
#[derive(Debug, Clone, Copy, PartialEq, Eq, Structural)]
pub enum Method {
    Get,
    Post,
    Delete,
}

pub type Pairs = Vec<(String, String)>;

/// A request ready to be sent: the endpoint, relative to the API root, the
/// parameters in the query string or in a form body, and the basic
/// authentication (user name and optional password) it carries.
#[derive(Debug)]
pub struct PreparedRequest {
    pub method: Method,
    pub endpoint: String,
    pub query: Pairs,
    pub form: Pairs,
    pub basic_auth: Option<(String, Option<String>)>,
}

pub ghost struct RequestView {
    pub method: Method,
    pub endpoint: Seq<char>,
    pub query: Seq<(Seq<char>, Seq<char>)>,
    pub form: Seq<(Seq<char>, Seq<char>)>,
    pub basic_auth: Option<(Seq<char>, Option<Seq<char>>)>,
}

impl View for PreparedRequest {
    type V = RequestView;

    open spec fn view(&self) -> RequestView {
        RequestView {
            method: self.method,
            endpoint: self.endpoint@,
            query: self.query.deep_view(),
            form: self.form.deep_view(),
            basic_auth: self.basic_auth.deep_view(),
        }
    }
}

/// Identity used for basic authentication; the password is the password or
/// the API key, and is absent for the unauthenticated key handshake.
#[derive(PartialEq, Eq, Debug)]
pub struct Credentials {
    username: String,
    password: Option<String>,
}

pub ghost struct CredentialsView {
    pub username: Seq<char>,
    pub password: Option<Seq<char>>,
}

impl View for Credentials {
    type V = CredentialsView;

    closed spec fn view(&self) -> CredentialsView {
        CredentialsView { username: self.username@, password: self.password.deep_view() }
    }
}

/// The form that sends credentials: the user name, then the password if any.
pub open spec fn credentials_form(c: CredentialsView) -> Seq<(Seq<char>, Seq<char>)> {
    seq![("username"@, c.username)] + match c.password {
        Some(p) => seq![("password"@, p)],
        None => seq![],
    }
}

impl Credentials {
    pub fn new(username: String, password: String) -> (r: Self)
        ensures
            r@ == (CredentialsView { username: username@, password: Some(password@) }),
    {
        Self { username, password: Some(password) }
    }

    pub fn unauthenticated(username: String) -> (r: Self)
        ensures
            r@ == (CredentialsView { username: username@, password: None }),
    {
        Self { username, password: None }
    }

    pub fn username(&self) -> (r: &str)
        ensures
            r@ == self@.username,
    {
        self.username.as_str()
    }

    pub fn password(&self) -> (r: Option<&str>)
        ensures
            match r {
                Some(p) => self@.password == Some(p@),
                None => self@.password is None,
            },
    {
        match &self.password {
            Some(p) => Some(p.as_str()),
            None => None,
        }
    }

    /// The credentials as form fields.
    pub fn form_pairs(&self) -> (r: Pairs)
        ensures
            r.deep_view() == credentials_form(self@),
    {
        let mut out: Pairs = Vec::new();
        out.push((String::from_str("username"), self.username.clone()));
        match &self.password {
            Some(p) => {
                out.push((String::from_str("password"), p.clone()));
            },
            None => {},
        }
        proof {
            assert(out.deep_view() =~= credentials_form(self@));
        }
        out
    }
}

/// What a session is: the API root and the credentials it sends, if any.
pub ghost struct ClientView {
    pub base_uri: Seq<char>,
    pub credentials: Option<CredentialsView>,
}

/// The request that a session makes of `endpoint` with `params`: a GET
/// carries them in the query string, any other method in a form body, and
/// set credentials go along as basic authentication.
pub open spec fn prepared(
    c: ClientView,
    method: Method,
    endpoint: Seq<char>,
    params: Seq<(Seq<char>, Seq<char>)>,
) -> RequestView {
    RequestView {
        method,
        endpoint,
        query: if method == Method::Get {
            params
        } else {
            seq![]
        },
        form: if method == Method::Get {
            seq![]
        } else {
            params
        },
        basic_auth: match c.credentials {
            Some(k) => Some((k.username, k.password)),
            None => None,
        },
    }
}

/// A session: the API root, the HTTP client, and the credentials.
#[derive(Debug)]
pub struct ClientInner {
    base_uri: String,
    http: HttpClient,
    credentials: Option<Credentials>,
}

impl View for ClientInner {
    type V = ClientView;

    closed spec fn view(&self) -> ClientView {
        ClientView {
            base_uri: self.base_uri@,
            credentials: match self.credentials {
                Some(c) => Some(c@),
                None => None,
            },
        }
    }
}

impl ClientInner {
    pub fn new(base_uri: String, http: HttpClient) -> (r: Self)
        ensures
            r@ == (ClientView { base_uri: base_uri@, credentials: None }),
    {
        Self { credentials: None, http, base_uri }
    }

    pub fn set_credentials(&mut self, credentials: Credentials)
        ensures
            final(self)@ == (ClientView { credentials: Some(credentials@), ..old(self)@ }),
    {
        self.credentials = Some(credentials);
    }

    pub fn base_uri(&self) -> (r: &str)
        ensures
            r@ == self@.base_uri,
    {
        self.base_uri.as_str()
    }

    pub fn credentials(&self) -> (r: Option<&Credentials>)
        ensures
            match r {
                Some(c) => self@.credentials == Some(c@),
                None => self@.credentials is None,
            },
    {
        self.credentials.as_ref()
    }

    /// Starts a session on the server at `uri`.
    pub fn build(uri: &str) -> (r: ClientBuilder)
        ensures
            r@ == fresh_builder(uri@),
    {
        Client::build(uri)
    }

    /// The HTTP client that sends this session's requests.
    pub fn http(&self) -> &HttpClient {
        &self.http
    }

    /// The request for `endpoint` with `params`, by `method`.
    pub fn prepare(&self, method: Method, endpoint: &str, params: Pairs) -> (r: PreparedRequest)
        ensures
            r@ == prepared(self@, method, endpoint@, params.deep_view()),
    {
        let basic_auth = match &self.credentials {
            Some(c) => Some((c.username.clone(), c.password.clone())),
            None => None,
        };
        let endpoint = String::from_str(endpoint);
        let r = if method == Method::Get {
            PreparedRequest { method, endpoint, query: params, form: Vec::new(), basic_auth }
        } else {
            PreparedRequest { method, endpoint, query: Vec::new(), form: params, basic_auth }
        };
        proof {
            assert(r@.query =~= prepared(self@, method, endpoint@, params.deep_view()).query);
            assert(r@.form =~= prepared(self@, method, endpoint@, params.deep_view()).form);
        }
        r
    }
}

/// A session, shared by the queues made from it.
#[derive(Debug, Clone)]
pub struct Client {
    inner: Arc<ClientInner>,
}

impl View for Client {
    type V = ClientView;

    closed spec fn view(&self) -> ClientView {
        self.inner@
    }
}

impl Client {
    pub fn new(inner: ClientInner) -> (r: Self)
        ensures
            r@ == inner@,
    {
        Self { inner: Arc::new(inner) }
    }

    /// Starts a session on the server at `uri`.
    pub fn build(uri: &str) -> (r: ClientBuilder)
        ensures
            r@ == fresh_builder(uri@),
    {
        ClientBuilder::new(parse_origin(uri))
    }

    /// A new registration of an event queue on this session.
    pub fn queue(&self) -> (r: QueueBuilder)
        ensures
            r@.client == self@,
            r@.request == RegistrationView::empty(),
    {
        QueueBuilder::new(Client { inner: self.inner.clone() })
    }

    /// Another handle on the same session.
    pub fn share(&self) -> (r: Self)
        ensures
            r@ == self@,
    {
        Client { inner: self.inner.clone() }
    }

    pub fn base_uri(&self) -> (r: &str)
        ensures
            r@ == self@.base_uri,
    {
        self.inner.base_uri()
    }

    pub fn credentials(&self) -> (r: Option<&Credentials>)
        ensures
            match r {
                Some(c) => self@.credentials == Some(c@),
                None => self@.credentials is None,
            },
    {
        self.inner.credentials()
    }

    pub fn http(&self) -> &HttpClient {
        self.inner.http()
    }

    /// The request for `endpoint` with `params`, by `method`.
    pub fn prepare(&self, method: Method, endpoint: &str, params: Pairs) -> (r: PreparedRequest)
        ensures
            r@ == prepared(self@, method, endpoint@, params.deep_view()),
    {
        self.inner.prepare(method, endpoint, params)
    }
}

/// How a session is to be set up: the server address (`None` where it is
/// refused) and the user, password and API key given.
pub ghost struct BuilderView {
    pub origin: Option<Seq<char>>,
    pub user: Option<Seq<char>>,
    pub password: Option<Seq<char>>,
    pub api_key: Option<Seq<char>>,
}

pub struct ClientBuilder {
    uri: Result<String, HttpError>,
    user: Option<String>,
    password: Option<String>,
    api_key: Option<String>,
}

impl View for ClientBuilder {
    type V = BuilderView;

    closed spec fn view(&self) -> BuilderView {
        BuilderView {
            origin: match self.uri {
                Ok(o) => Some(o@),
                Err(_) => None,
            },
            user: self.user.deep_view(),
            password: self.password.deep_view(),
            api_key: self.api_key.deep_view(),
        }
    }
}

/// What comes of setting up a session: it is ready, or an API key must be
/// fetched first.
pub enum Handshake {
    Ready(Client),
    FetchKey(KeyRequest),
}

/// A session still without credentials, and the request that fetches them.
pub struct KeyRequest {
    inner: ClientInner,
    endpoint: String,
    params: Credentials,
}

pub ghost struct KeyRequestView {
    pub client: ClientView,
    pub endpoint: Seq<char>,
    pub params: CredentialsView,
}

impl View for KeyRequest {
    type V = KeyRequestView;

    closed spec fn view(&self) -> KeyRequestView {
        KeyRequestView { client: self.inner@, endpoint: self.endpoint@, params: self.params@ }
    }
}

impl KeyRequest {
    /// The session that sends the request.
    pub fn session(&self) -> (r: &ClientInner)
        ensures
            r@ == self@.client,
    {
        &self.inner
    }

    /// The request that exchanges the user name (and password) for an API key.
    pub fn request(&self) -> (r: PreparedRequest)
        ensures
            r@ == prepared(self@.client, Method::Post, self@.endpoint, credentials_form(self@.params)),
    {
        self.inner.prepare(Method::Post, self.endpoint.as_str(), self.params.form_pairs())
    }

    /// The session, with the credentials that the server handed out.
    pub fn finish(self, credentials: Credentials) -> (r: Client)
        ensures
            r@ == (ClientView { credentials: Some(credentials@), ..self@.client }),
    {
        let mut inner = self.inner;
        inner.set_credentials(credentials);
        Client::new(inner)
    }
}

/// What setting up a session from `b` comes to, once the address is accepted:
/// with an API key the session is ready with it; with a password, or with
/// only a user name, the key is first fetched from the matching endpoint;
/// with neither the session is ready without credentials.
pub open spec fn handshake_for(b: BuilderView, h: Handshake) -> bool {
    let root = b.origin.unwrap() + Endpoint::BASE_API@;
    if b.api_key is Some {
        h matches Handshake::Ready(c) && c@ == (ClientView {
            base_uri: root,
            credentials: Some(
                CredentialsView { username: b.user.unwrap(), password: Some(b.api_key.unwrap()) },
            ),
        })
    } else if b.password is Some {
        h matches Handshake::FetchKey(k) && k@ == (KeyRequestView {
            client: ClientView { base_uri: root, credentials: None },
            endpoint: Endpoint::FETCH_API_KEY@,
            params: CredentialsView { username: b.user.unwrap(), password: b.password },
        })
    } else if b.user is Some {
        h matches Handshake::FetchKey(k) && k@ == (KeyRequestView {
            client: ClientView { base_uri: root, credentials: None },
            endpoint: Endpoint::FETCH_DEV_API_KEY@,
            params: CredentialsView { username: b.user.unwrap(), password: None },
        })
    } else {
        h matches Handshake::Ready(c) && c@ == (ClientView { base_uri: root, credentials: None })
    }
}

/// What [`Client::build`] makes of `address`, before any credentials.
pub open spec fn fresh_builder(address: Seq<char>) -> BuilderView {
    BuilderView { origin: address_origin(address), user: None, password: None, api_key: None }
}

/// Base-address normalization: sessions started without credentials on two
/// addresses that differ at most in their paths (same scheme, user info, host
/// and port) get the same API root, which is that shared part followed by
/// the API path.
pub proof fn lemma_api_root_ignores_path(a: Seq<char>, b: Seq<char>, from_a: Handshake, from_b: Handshake)
    requires
        address_origin(a) is Some,
        address_origin(a) == address_origin(b),
        handshake_for(fresh_builder(a), from_a),
        handshake_for(fresh_builder(b), from_b),
    ensures
        from_a matches Handshake::Ready(ca) && from_b matches Handshake::Ready(cb)
            && ca@.base_uri == cb@.base_uri
            && ca@.base_uri == address_origin(a).unwrap() + Endpoint::BASE_API@,
{
}

impl ClientBuilder {
    #[verifier::type_invariant]
    spec fn user_given(&self) -> bool {
        (self.password is Some || self.api_key is Some) ==> self.user is Some
    }

    fn new(uri: Result<String, HttpError>) -> (r: Self)
        ensures
            r@ == (BuilderView {
                origin: match uri {
                    Ok(o) => Some(o@),
                    Err(_) => None,
                },
                user: None,
                password: None,
                api_key: None,
            }),
    {
        Self { uri, user: None, password: None, api_key: None }
    }

    /// Logs in with a user name and a password, which is exchanged for an
    /// API key; without a password the key is asked of a development server.
    pub fn with_credentials(self, user: &str, password: Option<&str>) -> (r: Self)
        ensures
            r@ == (BuilderView {
                user: Some(user@),
                password: match password {
                    Some(p) => Some(p@),
                    None => None,
                },
                ..self@
            }),
    {
        let password = match password {
            Some(p) => Some(String::from_str(p)),
            None => None,
        };
        ClientBuilder {
            uri: self.uri,
            user: Some(String::from_str(user)),
            password,
            api_key: self.api_key,
        }
    }

    /// Logs in with a user name and an API key.
    pub fn with_key(self, user: &str, key: &str) -> (r: Self)
        ensures
            r@ == (BuilderView { user: Some(user@), api_key: Some(key@), ..self@ }),
    {
        ClientBuilder {
            uri: self.uri,
            user: Some(String::from_str(user)),
            password: self.password,
            api_key: Some(String::from_str(key)),
        }
    }

    /// Sets the session up with `http` as its HTTP client. A refused address
    /// is a `Build` error; otherwise the API root replaces the address's path.
    pub fn start(self, http: HttpClient) -> (r: Result<Handshake, Error>)
        ensures
            r is Err <==> self@.origin is None,
            match r {
                Ok(h) => handshake_for(self@, h),
                Err(e) => e@.kind is Build,
            },
    {
        proof {
            use_type_invariant(&self);
        }
        let ClientBuilder { uri, user, password, api_key } = self;
        let origin = match uri {
            Ok(origin) => origin,
            Err(e) => {
                return Err(Error::new_builder(e));
            },
        };
        let base_uri = origin.concat(Endpoint::BASE_API);
        let mut inner = ClientInner::new(base_uri, http);
        match (api_key, user) {
            (Some(key), Some(user)) => {
                inner.set_credentials(Credentials::new(user, key));
                Ok(Handshake::Ready(Client::new(inner)))
            },
            (None, Some(user)) => match password {
                Some(password) => Ok(
                    Handshake::FetchKey(
                        KeyRequest {
                            inner,
                            endpoint: String::from_str(Endpoint::FETCH_API_KEY),
                            params: Credentials::new(user, password),
                        },
                    ),
                ),
                None => Ok(
                    Handshake::FetchKey(
                        KeyRequest {
                            inner,
                            endpoint: String::from_str(Endpoint::FETCH_DEV_API_KEY),
                            params: Credentials::unauthenticated(user),
                        },
                    ),
                ),
            },
            _ => Ok(Handshake::Ready(Client::new(inner))),
        }
    }
}

} // verus!
