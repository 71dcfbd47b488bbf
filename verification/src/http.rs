use vstd::prelude::*;
use vstd::string::StringExecFns;

verus! {

/// A failed HTTP exchange with the resource-management API: the status
/// that came back and the response body, or a client-side failure under a
/// conventional client-error status.
#[derive(Debug)]
pub struct HttpError {
    pub status: usize,
    pub message: String,
}

impl HttpError {
    /// An error carrying the server's status and response body.
    pub fn new(message: String, status: usize) -> (e: HttpError)
        ensures
            e.status == status,
            e.message == message,
    {
        HttpError { message, status }
    }

    /// A client-side failure (the request never got a server answer),
    /// reported under the conventional client-error status.
    pub fn new_client(message: String) -> (e: HttpError)
        ensures
            e.status == 400,
            e.message == message,
    {
        HttpError { message, status: 400 }
    }
}

/// A status in the success range.
pub open spec fn spec_success_status(status: u16) -> bool {
    200 <= status < 300
}

/// Sort a finished exchange: a success status yields the body, anything
/// else an [`HttpError`] carrying the status and the body verbatim.
pub fn classify_response(status: u16, body: String) -> (r: Result<String, HttpError>)
    ensures
        spec_success_status(status) ==> (r matches Ok(b) && b@ == body@),
        !spec_success_status(status) ==> (r matches Err(e) && e.status == status as usize
            && e.message@ == body@),
{
    if 200 <= status && status < 300 {
        Ok(body)
    } else {
        Err(HttpError::new(body, status as usize))
    }
}

/// A failed exchange with the database endpoints, sorted by status.
#[derive(Debug)]
pub enum PostV1Error {
    Timeout,
    Forbidden,
    Conflict,
    Unauthorized,
    Other(String),
}

/// The mathematical shape of a [`PostV1Error`].
pub enum PostV1ErrorView {
    Timeout,
    Forbidden,
    Conflict,
    Unauthorized,
    Other(Seq<char>),
}

impl View for PostV1Error {
    type V = PostV1ErrorView;

    open spec fn view(&self) -> PostV1ErrorView {
        match self {
            PostV1Error::Timeout => PostV1ErrorView::Timeout,
            PostV1Error::Forbidden => PostV1ErrorView::Forbidden,
            PostV1Error::Conflict => PostV1ErrorView::Conflict,
            PostV1Error::Unauthorized => PostV1ErrorView::Unauthorized,
            PostV1Error::Other(m) => PostV1ErrorView::Other(m@),
        }
    }
}

/// The error a non-success status from a database endpoint maps to:
/// request timeout, forbidden and conflict get their own variants, and
/// anything else carries the response body verbatim.
pub open spec fn spec_v1_error(status: u16, body: Seq<char>) -> PostV1ErrorView {
    if status == 408 {
        PostV1ErrorView::Timeout
    } else if status == 403 {
        PostV1ErrorView::Forbidden
    } else if status == 409 {
        PostV1ErrorView::Conflict
    } else {
        PostV1ErrorView::Other(body)
    }
}

/// Sort a finished exchange with a database endpoint: a success status
/// yields the body, anything else the error [`spec_v1_error`] names.
pub fn classify_v1_response(status: u16, body: String) -> (r: Result<String, PostV1Error>)
    ensures
        spec_success_status(status) ==> (r matches Ok(b) && b@ == body@),
        !spec_success_status(status) ==> (r matches Err(e) && e@ == spec_v1_error(status, body@)),
{
    if 200 <= status && status < 300 {
        Ok(body)
    } else if status == 408 {
        Err(PostV1Error::Timeout)
    } else if status == 403 {
        Err(PostV1Error::Forbidden)
    } else if status == 409 {
        Err(PostV1Error::Conflict)
    } else {
        Err(PostV1Error::Other(body))
    }
}

/// The view of an optional owned text, for contracts over environment
/// lookups.
pub open spec fn opt_text(o: Option<String>) -> Option<Seq<char>> {
    match o {
        Some(s) => Some(s@),
        None => None,
    }
}

/// The deployment the client talks to: the environment's say when set,
/// otherwise local for a debug build and production for a release one.
pub open spec fn spec_effective_env(env: Option<Seq<char>>, debug_build: bool) -> Seq<char> {
    match env {
        Some(e) => e,
        None => if debug_build {
            "local"@
        } else {
            "production"@
        },
    }
}

/// The resource-management API address for a deployment.
pub open spec fn spec_api_url(env: Option<Seq<char>>, debug_build: bool) -> Seq<char> {
    let e = spec_effective_env(env, debug_build);
    if e == "local"@ {
        "http://localhost:8088"@
    } else if e == "staging"@ {
        "https://api-staging.iasql.com"@
    } else {
        "https://api.iasql.com"@
    }
}

/// The database server address for a deployment.
pub open spec fn spec_db_server(env: Option<Seq<char>>, debug_build: bool) -> Seq<char> {
    if spec_effective_env(env, debug_build) == "local"@ {
        "localhost:5432"@
    } else {
        "db.iasql.com"@
    }
}

/// The resource-management API address. `env` is the deployment override
/// read from the process environment, if any.
pub fn api_url(env: &Option<String>, debug_build: bool) -> (r: &'static str)
    ensures
        r@ == spec_api_url(opt_text(*env), debug_build),
{
    proof {
        reveal_strlit("local");
        reveal_strlit("staging");
        reveal_strlit("production");
        assert("local"@.len() == 5);
        assert("staging"@.len() == 7);
        assert("production"@.len() == 10);
    }
    match env {
        Some(e) => {
            let local: String = "local".to_owned();
            let staging: String = "staging".to_owned();
            if *e == local {
                "http://localhost:8088"
            } else if *e == staging {
                "https://api-staging.iasql.com"
            } else {
                "https://api.iasql.com"
            }
        },
        None => if debug_build {
            "http://localhost:8088"
        } else {
            "https://api.iasql.com"
        },
    }
}

/// The database server address. `env` is the deployment override read
/// from the process environment, if any.
pub fn db_server(env: &Option<String>, debug_build: bool) -> (r: &'static str)
    ensures
        r@ == spec_db_server(opt_text(*env), debug_build),
{
    proof {
        reveal_strlit("local");
        reveal_strlit("production");
        assert("local"@.len() == 5);
        assert("production"@.len() == 10);
    }
    match env {
        Some(e) => {
            let local: String = "local".to_owned();
            if *e == local {
                "localhost:5432"
            } else {
                "db.iasql.com"
            }
        },
        None => if debug_build {
            "localhost:5432"
        } else {
            "db.iasql.com"
        },
    }
}

/// The address of a versioned API endpoint under a base address.
pub fn v1_url(base: &str, endpoint: &str) -> (r: String)
    ensures
        r@ == base@ + "/v1/"@ + endpoint@,
{
    let mut r = base.to_owned();
    r.append("/v1/");
    r.append(endpoint);
    r
}

/// The authorization header value bearing a token.
pub fn bearer_value(token: &str) -> (r: String)
    ensures
        r@ == "Bearer "@ + token@,
{
    let mut r: String = "Bearer ".to_owned();
    r.append(token);
    r
}

} // verus!
