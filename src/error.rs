//! The structured error: a request that could not be built, a transport
//! failure, or an error reported by the server with an optional code.
use reqwest::Error as HttpError;
use vstd::prelude::*;
use vstd::string::to_string_from_display_ensures;
use crate::text::{seconds_text, seconds_to_text, str_eq};

verus! {

#[verifier::external_type_specification]
#[verifier::external_body]
pub struct ExHttpError(HttpError);

/// Whether a failure of the HTTP client happened while the request was being
/// built; it depends on the failure's own kind alone.
pub uninterp spec fn builder_failure(e: HttpError) -> bool;

/// Relies on reqwest::Error::is_builder: whether the failure happened while
/// the request was being built, before anything was sent.
pub assume_specification[ HttpError::is_builder ](e: &HttpError) -> (r: bool)
    ensures
        r == builder_failure(*e),
;

/// The machine-readable code of an error reported by the server.
#[derive(Debug, PartialEq)]
#[non_exhaustive]
pub enum ZulipErrorCode {
    BadRequest,
    RequestVariableMissing { var_name: String },
    UserDeactivated,
    RealmDeactivated,
    /// The server asks to wait this many milliseconds before retrying.
    RateLimitHit { retry_after_ms: u64 },
    AuthenticationFailed,
}

/// The code that the tag of an error body stands for, given the fields that
/// come with it; `None` for an unknown tag or a missing field.
pub open spec fn decodes_to(
    tag: Seq<char>,
    var_name: Option<Seq<char>>,
    retry_after_ms: Option<u64>,
    code: Option<ZulipErrorCode>,
) -> bool {
    if tag == "BAD_REQUEST"@ {
        code == Some(ZulipErrorCode::BadRequest)
    } else if tag == "REQUEST_VARIABLE_MISSING"@ {
        match var_name {
            Some(v) => code matches Some(ZulipErrorCode::RequestVariableMissing { var_name }) && var_name@ == v,
            None => code is None,
        }
    } else if tag == "USER_DEACTIVATED"@ {
        code == Some(ZulipErrorCode::UserDeactivated)
    } else if tag == "REALM_DEACTIVATED"@ {
        code == Some(ZulipErrorCode::RealmDeactivated)
    } else if tag == "RATE_LIMIT_HIT"@ {
        match retry_after_ms {
            Some(ms) => code == Some(ZulipErrorCode::RateLimitHit { retry_after_ms: ms }),
            None => code is None,
        }
    } else if tag == "AUTHENTICATION_FAILED"@ {
        code == Some(ZulipErrorCode::AuthenticationFailed)
    } else {
        code is None
    }
}

pub open spec fn opt_view(o: Option<String>) -> Option<Seq<char>> {
    match o {
        Some(s) => Some(s@),
        None => None,
    }
}

impl ZulipErrorCode {
    /// Decodes the `code` tag of an error body together with the fields that
    /// the tagged code carries.
    pub fn from_tag(tag: &str, var_name: Option<String>, retry_after_ms: Option<u64>) -> (r: Option<
        ZulipErrorCode,
    >)
        ensures
            decodes_to(tag@, opt_view(var_name), retry_after_ms, r),
    {
        if str_eq(tag, "BAD_REQUEST") {
            Some(ZulipErrorCode::BadRequest)
        } else if str_eq(tag, "REQUEST_VARIABLE_MISSING") {
            match var_name {
                Some(var_name) => Some(ZulipErrorCode::RequestVariableMissing { var_name }),
                None => None,
            }
        } else if str_eq(tag, "USER_DEACTIVATED") {
            Some(ZulipErrorCode::UserDeactivated)
        } else if str_eq(tag, "REALM_DEACTIVATED") {
            Some(ZulipErrorCode::RealmDeactivated)
        } else if str_eq(tag, "RATE_LIMIT_HIT") {
            match retry_after_ms {
                Some(ms) => Some(ZulipErrorCode::RateLimitHit { retry_after_ms: ms }),
                None => None,
            }
        } else if str_eq(tag, "AUTHENTICATION_FAILED") {
            Some(ZulipErrorCode::AuthenticationFailed)
        } else {
            None
        }
    }
}

/// An error reported by the server: a message and, where the server sent a
/// known one, a code.
#[derive(Debug)]
pub struct ZulipError {
    message: String,
    code: Option<ZulipErrorCode>,
}

pub ghost struct ZulipErrorView {
    pub message: Seq<char>,
    pub code: Option<ZulipErrorCode>,
}

impl View for ZulipError {
    type V = ZulipErrorView;

    closed spec fn view(&self) -> ZulipErrorView {
        ZulipErrorView { message: self.message@, code: self.code }
    }
}

/// How an error reported by the server reads.
pub open spec fn zulip_error_text(e: ZulipErrorView) -> Seq<char> {
    match e.code {
        Some(ZulipErrorCode::BadRequest) => "bad request: "@ + e.message,
        Some(ZulipErrorCode::RateLimitHit { retry_after_ms }) => "rate limit hit, retry after "@
            + seconds_text(retry_after_ms as nat) + "s"@,
        Some(ZulipErrorCode::RealmDeactivated) => "realm deactivated: "@ + e.message,
        Some(ZulipErrorCode::UserDeactivated) => "account deativated: "@ + e.message,
        Some(ZulipErrorCode::RequestVariableMissing { var_name }) => "missing '"@ + var_name@
            + "' argument"@,
        Some(ZulipErrorCode::AuthenticationFailed) => "authentication failed: "@ + e.message,
        None => e.message,
    }
}

impl ZulipError {
    pub fn new(message: String, code: Option<ZulipErrorCode>) -> (r: Self)
        ensures
            r@.message == message@,
            r@.code == code,
    {
        Self { message, code }
    }

    /// Builds the error from the fields of an error body: its message, its
    /// `code` tag if any, and the fields that a tagged code carries. An
    /// unknown or absent tag leaves the code empty and keeps the message.
    pub fn decode(
        message: String,
        tag: Option<String>,
        var_name: Option<String>,
        retry_after_ms: Option<u64>,
    ) -> (r: Self)
        ensures
            r@.message == message@,
            match tag {
                Some(t) => decodes_to(t@, opt_view(var_name), retry_after_ms, r@.code),
                None => r@.code is None,
            },
    {
        let code = match tag {
            Some(t) => ZulipErrorCode::from_tag(t.as_str(), var_name, retry_after_ms),
            None => None,
        };
        Self { message, code }
    }

    pub fn message(&self) -> (r: &str)
        ensures
            r@ == self@.message,
    {
        self.message.as_str()
    }

    pub fn code(&self) -> (r: Option<&ZulipErrorCode>)
        ensures
            match r {
                Some(c) => self@.code == Some(*c),
                None => self@.code is None,
            },
    {
        self.code.as_ref()
    }

    pub fn is_bad_request(&self) -> (r: bool)
        ensures
            r == (self@.code matches Some(ZulipErrorCode::BadRequest)),
    {
        match self.code {
            Some(ZulipErrorCode::BadRequest) => true,
            _ => false,
        }
    }

    pub fn is_rate_limit_hit(&self) -> (r: bool)
        ensures
            r == (self@.code matches Some(ZulipErrorCode::RateLimitHit { .. })),
    {
        match self.code {
            Some(ZulipErrorCode::RateLimitHit { .. }) => true,
            _ => false,
        }
    }

    pub fn is_realm_deactivated(&self) -> (r: bool)
        ensures
            r == (self@.code matches Some(ZulipErrorCode::RealmDeactivated)),
    {
        match self.code {
            Some(ZulipErrorCode::RealmDeactivated) => true,
            _ => false,
        }
    }

    pub fn is_user_deactivated(&self) -> (r: bool)
        ensures
            r == (self@.code matches Some(ZulipErrorCode::UserDeactivated)),
    {
        match self.code {
            Some(ZulipErrorCode::UserDeactivated) => true,
            _ => false,
        }
    }

    pub fn is_variable_missing(&self) -> (r: bool)
        ensures
            r == (self@.code matches Some(ZulipErrorCode::RequestVariableMissing { .. })),
    {
        match self.code {
            Some(ZulipErrorCode::RequestVariableMissing { .. }) => true,
            _ => false,
        }
    }

    pub fn is_auth_failed(&self) -> (r: bool)
        ensures
            r == (self@.code matches Some(ZulipErrorCode::AuthenticationFailed)),
    {
        match self.code {
            Some(ZulipErrorCode::AuthenticationFailed) => true,
            _ => false,
        }
    }

    /// The error as text: the rate limit gives the wait in seconds, a missing
    /// variable gives its name, the other codes a phrase and the message.
    pub fn describe(&self) -> (r: String)
        ensures
            r@ == zulip_error_text(self@),
    {
        let mut out = String::new();
        match &self.code {
            Some(ZulipErrorCode::BadRequest) => {
                out.append("bad request: ");
                out.append(self.message.as_str());
            },
            Some(ZulipErrorCode::RateLimitHit { retry_after_ms }) => {
                out.append("rate limit hit, retry after ");
                let secs = seconds_to_text(*retry_after_ms);
                out.append(secs.as_str());
                out.append("s");
            },
            Some(ZulipErrorCode::RealmDeactivated) => {
                out.append("realm deactivated: ");
                out.append(self.message.as_str());
            },
            Some(ZulipErrorCode::UserDeactivated) => {
                out.append("account deativated: ");
                out.append(self.message.as_str());
            },
            Some(ZulipErrorCode::RequestVariableMissing { var_name }) => {
                out.append("missing '");
                out.append(var_name.as_str());
                out.append("' argument");
            },
            Some(ZulipErrorCode::AuthenticationFailed) => {
                out.append("authentication failed: ");
                out.append(self.message.as_str());
            },
            None => {
                out.append(self.message.as_str());
            },
        }
        proof {
            assert(out@ =~= zulip_error_text(self@));
        }
        out
    }
}

/// What kind of failure an [`Error`] is.
#[derive(Debug)]
pub enum ErrorKind {
    /// The server rejected the request and said why.
    Zulip(ZulipError),
    /// The request could not be built.
    Build,
    /// The request failed in transport, or the server failed.
    Http(HttpError),
}

#[derive(Debug)]
pub struct Error {
    kind: ErrorKind,
    source: Option<HttpError>,
}

pub ghost struct ErrorView {
    pub kind: ErrorKind,
    /// The failure that a `Build` error wraps.
    pub source: Option<HttpError>,
}

impl View for Error {
    type V = ErrorView;

    closed spec fn view(&self) -> ErrorView {
        ErrorView { kind: self.kind, source: self.source }
    }
}

/// Whether `t` is one text that `e` displays as.
pub open spec fn displays_as(e: HttpError, t: Seq<char>) -> bool {
    exists|s: String| to_string_from_display_ensures::<HttpError>(&e, s) && s@ == t
}

/// How an error reads; a transport failure contributes its own text.
pub open spec fn error_text(e: ErrorView, r: Seq<char>) -> bool {
    match e.kind {
        ErrorKind::Zulip(z) => r == "zulip error: "@ + z@.message,
        ErrorKind::Build => match e.source {
            Some(s) => exists|t: Seq<char>| displays_as(s, t) && r == "builder error"@ + ": "@ + t,
            None => r == "builder error"@,
        },
        ErrorKind::Http(h) => exists|t: Seq<char>| displays_as(h, t) && r == "http client error: "@ + t,
    }
}

impl Error {
    /// A request that could not be built, wrapping the failure.
    pub fn new_builder(http_error: HttpError) -> (r: Self)
        ensures
            r@.kind is Build,
            r@.source == Some(http_error),
    {
        Self { kind: ErrorKind::Build, source: Some(http_error) }
    }

    /// A transport failure.
    pub fn new_http(http_error: HttpError) -> (r: Self)
        ensures
            r@.kind == ErrorKind::Http(http_error),
            r@.source is None,
    {
        Self { kind: ErrorKind::Http(http_error), source: None }
    }

    /// An error reported by the server.
    pub fn new_zulip(zulip_error: ZulipError) -> (r: Self)
        ensures
            r@.kind == ErrorKind::Zulip(zulip_error),
            r@.source is None,
    {
        Self { kind: ErrorKind::Zulip(zulip_error), source: None }
    }

    /// Classifies a failure of the HTTP client: one that happened while the
    /// request was being built is a `Build` error, any other a transport one.
    pub fn from_transport(http_error: HttpError, built: bool) -> (r: Self)
        ensures
            !built ==> r@.kind is Build && r@.source == Some(http_error),
            built ==> r@.kind == ErrorKind::Http(http_error) && r@.source is None,
    {
        if built {
            Self::new_http(http_error)
        } else {
            Self::new_builder(http_error)
        }
    }

    /// Classifies a failure of the HTTP client by asking it whether it
    /// happened while the request was being built.
    pub fn from_http(http_error: HttpError) -> (r: Self)
        ensures
            builder_failure(http_error) ==> r@.kind is Build && r@.source == Some(http_error),
            !builder_failure(http_error) ==> r@.kind == ErrorKind::Http(http_error)
                && r@.source is None,
    {
        let builder = http_error.is_builder();
        Self::from_transport(http_error, !builder)
    }

    /// The failure that a `Build` error wraps.
    pub fn source(&self) -> (r: Option<&HttpError>)
        ensures
            match r {
                Some(e) => self@.source == Some(*e),
                None => self@.source is None,
            },
    {
        self.source.as_ref()
    }

    pub fn kind(&self) -> (r: &ErrorKind)
        ensures
            *r == self@.kind,
    {
        &self.kind
    }

    pub fn is_zulip(&self) -> (r: bool)
        ensures
            r == (self@.kind is Zulip),
    {
        match self.kind {
            ErrorKind::Zulip(_) => true,
            _ => false,
        }
    }

    pub fn is_http(&self) -> (r: bool)
        ensures
            r == (self@.kind is Http),
    {
        match self.kind {
            ErrorKind::Http(_) => true,
            _ => false,
        }
    }

    pub fn is_build(&self) -> (r: bool)
        ensures
            r == (self@.kind is Build),
    {
        match self.kind {
            ErrorKind::Build => true,
            _ => false,
        }
    }

    /// The error as text: a server error gives its message, a transport
    /// failure the text of the HTTP client's error.
    pub fn describe(&self) -> (r: String)
        ensures
            error_text(self@, r@),
    {
        let mut out = String::new();
        match &self.kind {
            ErrorKind::Build => {
                out.append("builder error");
                match &self.source {
                    Some(source) => {
                        let t = source.to_string();
                        out.append(": ");
                        out.append(t.as_str());
                        proof {
                            assert(displays_as(*source, t@));
                            assert(out@ =~= "builder error"@ + ": "@ + t@);
                        }
                    },
                    None => {},
                }
            },
            ErrorKind::Zulip(zulip) => {
                out.append("zulip error: ");
                out.append(zulip.message());
            },
            ErrorKind::Http(http_error) => {
                let t = http_error.to_string();
                out.append("http client error: ");
                out.append(t.as_str());
                proof {
                    assert(displays_as(*http_error, t@));
                }
            },
        }
        proof {
            assert(error_text(self@, out@));
        }
        out
    }
}

/// What was read from a reply, by the class of its status: a success with
/// its body read as the expected answer, a client error with its body read as
/// the server's error report, each with the HTTP client's failure in place of
/// a body that could not be read; or a server error, whose body is not read,
/// with the HTTP client's error for its status.
pub enum Reply<R> {
    Success(Result<R, HttpError>),
    ClientError(Result<ZulipError, HttpError>),
    ServerError(HttpError),
}

/// What a reply comes to: a success gives its answer; a client error gives
/// the server's error report; a server error, and a body that could not be
/// read, give a transport error.
pub fn settle<R>(reply: Reply<R>) -> (r: Result<R, Error>)
    ensures
        match reply {
            Reply::Success(Ok(answer)) => r == Ok::<R, Error>(answer),
            Reply::ClientError(Ok(report)) => r matches Err(e) && e@.kind == ErrorKind::Zulip(report)
                && e@.source is None,
            Reply::Success(Err(failure)) | Reply::ClientError(Err(failure)) | Reply::ServerError(
                failure,
            ) => r matches Err(e) && e@.kind == ErrorKind::Http(failure) && e@.source is None,
        },
{
    match reply {
        Reply::Success(Ok(answer)) => Ok(answer),
        Reply::ClientError(Ok(report)) => Err(Error::new_zulip(report)),
        Reply::Success(Err(failure)) => Err(Error::new_http(failure)),
        Reply::ClientError(Err(failure)) => Err(Error::new_http(failure)),
        Reply::ServerError(failure) => Err(Error::new_http(failure)),
    }
}

/// Where a response falls, by its status code.
#[derive(Debug, PartialEq, Eq, Structural, Clone, Copy)]
pub enum StatusClass {
    /// 4xx: the body holds an error reported by the server.
    ClientError,
    /// 5xx: the server failed; its body is not trusted.
    ServerError,
    /// Anything else that may reach the library: the body holds the answer.
    Success,
}

pub open spec fn is_informational(status: u16) -> bool {
    100 <= status < 200
}

pub open spec fn is_redirection(status: u16) -> bool {
    300 <= status < 400
}

/// Sorts a response by its status. The HTTP client follows redirects and
/// never hands on informational answers, so neither may be given here.
pub fn classify_status(status: u16) -> (r: StatusClass)
    requires
        !is_informational(status),
        !is_redirection(status),
    ensures
        r == StatusClass::ClientError <==> 400 <= status < 500,
        r == StatusClass::ServerError <==> 500 <= status < 600,
        r == StatusClass::Success <==> !(400 <= status < 600),
{
    if 400 <= status && status < 500 {
        StatusClass::ClientError
    } else if 500 <= status && status < 600 {
        StatusClass::ServerError
    } else {
        StatusClass::Success
    }
}

} // verus!
