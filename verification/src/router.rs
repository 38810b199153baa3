//! The route table and request dispatch. The table is fixed: five declared
//! (method, path) combinations under the `/api` prefix, and a catch-all for
//! everything else. `route_of` is the specification of the table,
//! `match_route` the verified matcher over the request path, and
//! `handle_request` the dispatcher whose contract pins the status and body
//! of every response.

use vstd::prelude::*;
use crate::app_state::AppState;
use crate::handlers::LoginRequest;
use crate::handlers::LoginResponse;
use crate::handlers::RegisterResponse;
use crate::handlers::UserDetailResponse;
use crate::handlers::UsersResponse;
use crate::handlers::get_users;
use crate::handlers::is_login_response;
use crate::handlers::is_register_response;
use crate::handlers::is_user_detail;
use crate::handlers::is_users_response;
use crate::handlers::login;
use crate::handlers::register;
use crate::handlers::root;
use crate::handlers::user_detail_with;

verus! {

/// The request methods the table distinguishes. Anything that is neither
/// GET nor POST can only reach the catch-all handler.
#[derive(PartialEq, Eq, Structural, Clone, Copy, Debug)]
pub enum Method {
    Get,
    Post,
    Other,
}

/// The outcome of matching a request against the route table.
#[derive(PartialEq, Eq, Structural, Clone, Copy, Debug)]
pub enum Route {
    Register,
    Login,
    UsersIndex,
    UserById,
    ApiRoot,
    NotFound,
}

/// A single-user path: the `/api/users/` prefix followed by a nonempty
/// id segment that contains no further slash. The id may be any string,
/// numeric or not.
pub open spec fn is_user_id_path(path: Seq<char>) -> bool {
    &&& path.len() > 11
    &&& path.subrange(0, 11) == "/api/users/"@
    &&& forall|i: int| 11 <= i < path.len() ==> #[trigger] path[i] != '/'
}

/// The route table: which handler a (method, path) combination reaches.
/// `path` is the request path with any query string already stripped — the
/// table reads nothing else of the request, so query parameters and headers
/// cannot change the outcome. Every combination not declared here reaches
/// the catch-all.
pub open spec fn route_of(m: Method, path: Seq<char>) -> Route {
    if m == Method::Post && path == "/api/auth/register"@ {
        Route::Register
    } else if m == Method::Post && path == "/api/auth/login"@ {
        Route::Login
    } else if m == Method::Get && path == "/api/users/"@ {
        Route::UsersIndex
    } else if m == Method::Get && is_user_id_path(path) {
        Route::UserById
    } else if m == Method::Get && path == "/api/"@ {
        Route::ApiRoot
    } else {
        Route::NotFound
    }
}

/// Character-for-character string equality, decided over the views.
fn str_eq(a: &str, b: &str) -> (r: bool)
    ensures
        r == (a@ == b@),
{
    let n = a.unicode_len();
    if n != b.unicode_len() {
        return false;
    }
    let mut i: usize = 0;
    while i < n
        invariant
            i <= n,
            n == a@.len(),
            n == b@.len(),
            forall|j: int| 0 <= j < i ==> a@[j] == b@[j],
        decreases n - i,
    {
        if a.get_char(i) != b.get_char(i) {
            return false;
        }
        i += 1;
    }
    proof {
        assert(a@ =~= b@);
    }
    true
}

/// Whether `s` contains the character `c`.
fn has_char(s: &str, c: char) -> (r: bool)
    ensures
        r == exists|i: int| 0 <= i < s@.len() && s@[i] == c,
{
    let n = s.unicode_len();
    let mut i: usize = 0;
    while i < n
        invariant
            i <= n,
            n == s@.len(),
            forall|j: int| 0 <= j < i ==> s@[j] != c,
        decreases n - i,
    {
        if s.get_char(i) == c {
            return true;
        }
        i += 1;
    }
    false
}

/// Decides whether `path` is a single-user path.
fn is_user_path(path: &str) -> (r: bool)
    ensures
        r == is_user_id_path(path@),
{
    let n = path.unicode_len();
    proof {
        reveal_strlit("/api/users/");
    }
    if n <= 11 {
        return false;
    }
    let prefix = path.substring_char(0, 11);
    if !str_eq(prefix, "/api/users/") {
        return false;
    }
    let rest = path.substring_char(11, n);
    let slash_in_id = has_char(rest, '/');
    proof {
        assert(forall|i: int|
            11 <= i < path@.len() ==> path@.subrange(11, n as int)[i - 11] == #[trigger] path@[i]);
    }
    !slash_in_id
}

/// Matches a request against the route table, exactly as `route_of` says.
pub fn match_route(m: &Method, path: &str) -> (r: Route)
    ensures
        r == route_of(*m, path@),
{
    match m {
        Method::Post => {
            if str_eq(path, "/api/auth/register") {
                Route::Register
            } else if str_eq(path, "/api/auth/login") {
                Route::Login
            } else {
                Route::NotFound
            }
        },
        Method::Get => {
            if str_eq(path, "/api/users/") {
                Route::UsersIndex
            } else if is_user_path(path) {
                Route::UserById
            } else if str_eq(path, "/api/") {
                Route::ApiRoot
            } else {
                Route::NotFound
            }
        },
        Method::Other => Route::NotFound,
    }
}

/// The parsed request body, as the JSON layer at the process edge hands it
/// in: no body at all, a body that did not deserialize to a `LoginRequest`,
/// or a deserialized `LoginRequest`.
pub enum RequestBody {
    Empty,
    Malformed,
    Login(LoginRequest),
}

/// A response body: one of the typed records, or plain text.
pub enum ResponseBody {
    Register(RegisterResponse),
    Login(LoginResponse),
    Users(UsersResponse),
    UserDetail(UserDetailResponse),
    Text(String),
}

/// A response: an HTTP status code and a body.
pub struct HttpResponse {
    pub status: u16,
    pub body: ResponseBody,
}

/// The rejection a route that needs a `LoginRequest` body sends when the
/// body is absent or malformed: a client error, recovered per request, with
/// no custom body.
pub open spec fn is_bad_request(r: HttpResponse) -> bool {
    &&& r.status == 400
    &&& r.body matches ResponseBody::Text(t) && t@ == "Bad Request"@
}

/// The catch-all response: a 404 with a fixed plain-text body, never a
/// server error.
pub open spec fn is_not_found(r: HttpResponse) -> bool {
    &&& r.status == 404
    &&& r.body matches ResponseBody::Text(t) && t@ == "Route not found"@
}

/// The catch-all handler for requests no declared route matches.
pub fn handler_404() -> (r: HttpResponse)
    ensures
        is_not_found(r),
{
    HttpResponse { status: 404, body: ResponseBody::Text("Route not found".to_owned()) }
}

/// Sends the client-error rejection for an unusable request body.
fn bad_request() -> (r: HttpResponse)
    ensures
        is_bad_request(r),
{
    HttpResponse { status: 400, body: ResponseBody::Text("Bad Request".to_owned()) }
}

/// Dispatches one request: matches the path, runs the handler the table
/// names, and wraps its record in a response. The contract pins every
/// outcome: each declared route answers 200 with its record, a missing or
/// malformed body on an authentication route answers 400, and everything
/// else answers 404 — never a server error. `now` is the timestamp the
/// single-user response is stamped with; the dispatch itself reads no clock.
pub fn handle_request(m: &Method, path: &str, body: RequestBody, state: &AppState, now: String) -> (r:
    HttpResponse)
    ensures
        route_of(*m, path@) == Route::Register ==> (match body {
            RequestBody::Login(req) => r.status == 200 && (r.body matches ResponseBody::Register(
                rr,
            ) && is_register_response(rr, req.email@, *state)),
            _ => is_bad_request(r),
        }),
        route_of(*m, path@) == Route::Login ==> (match body {
            RequestBody::Login(req) => r.status == 200 && (r.body matches ResponseBody::Login(lr)
                && is_login_response(lr, req.email@, *state)),
            _ => is_bad_request(r),
        }),
        route_of(*m, path@) == Route::UsersIndex ==> r.status == 200 && (r.body
            matches ResponseBody::Users(ur) && is_users_response(ur)),
        route_of(*m, path@) == Route::UserById ==> r.status == 200 && (r.body
            matches ResponseBody::UserDetail(ud) && is_user_detail(ud, now@)),
        route_of(*m, path@) == Route::ApiRoot ==> r.status == 200 && (r.body
            matches ResponseBody::Text(t) && t@ == "Hello World!"@),
        route_of(*m, path@) == Route::NotFound ==> is_not_found(r),
{
    match match_route(m, path) {
        Route::Register => match body {
            RequestBody::Login(req) => HttpResponse {
                status: 200,
                body: ResponseBody::Register(register(state, req)),
            },
            _ => bad_request(),
        },
        Route::Login => match body {
            RequestBody::Login(req) => HttpResponse {
                status: 200,
                body: ResponseBody::Login(login(state, req)),
            },
            _ => bad_request(),
        },
        Route::UsersIndex => HttpResponse { status: 200, body: ResponseBody::Users(get_users()) },
        Route::UserById => HttpResponse {
            status: 200,
            body: ResponseBody::UserDetail(user_detail_with(now)),
        },
        Route::ApiRoot => HttpResponse { status: 200, body: ResponseBody::Text(root()) },
        Route::NotFound => handler_404(),
    }
}

/// The declared (method, path) combinations of the route table.
pub open spec fn declared(m: Method, path: Seq<char>) -> bool {
    ||| m == Method::Post && path == "/api/auth/register"@
    ||| m == Method::Post && path == "/api/auth/login"@
    ||| m == Method::Get && path == "/api/users/"@
    ||| m == Method::Get && is_user_id_path(path)
    ||| m == Method::Get && path == "/api/"@
}

/// Every request to an undeclared (method, path) combination reaches the
/// catch-all route — and so, by the dispatch contract, is answered with the
/// fixed 404 response, never a server error.
pub proof fn lemma_undeclared_is_not_found(m: Method, path: Seq<char>)
    requires
        !declared(m, path),
    ensures
        route_of(m, path) == Route::NotFound,
{
}

/// The id segment of a single-user path is accepted but ignored: any two
/// such paths — numeric ids, non-numeric ids, anything without a further
/// slash — reach the same single-user route.
pub proof fn lemma_user_id_ignored(p1: Seq<char>, p2: Seq<char>)
    requires
        is_user_id_path(p1),
        is_user_id_path(p2),
    ensures
        route_of(Method::Get, p1) == Route::UserById,
        route_of(Method::Get, p1) == route_of(Method::Get, p2),
{
}

} // verus!
