//! Request handlers: pure functions from (request body, application state)
//! to typed response records. No handler checks credentials, stores
//! anything, or issues a token — the authentication handlers only echo the
//! submitted email back, augmented with environment and database metadata,
//! and the user handlers return fixed records. The records are serialized to
//! JSON outside this crate.

use vstd::prelude::*;
use crate::app_state::AppState;

verus! {

/// The body of an authentication request: an email and a password. Parsed
/// from JSON at the process edge, used for one request, then discarded.
pub struct LoginRequest {
    pub email: String,
    pub password: String,
}

/// The response to a registration request: the submitted email echoed back
/// with the environment name and the main database name.
pub struct RegisterResponse {
    pub action: String,
    pub email: String,
    pub db: String,
    pub env: String,
}

/// The response to a login request: the submitted email echoed back with
/// the main database name.
pub struct LoginResponse {
    pub action: String,
    pub email: String,
    pub db: String,
}

/// One hard-coded user record.
pub struct UserRecord {
    pub id: u64,
    pub name: String,
    pub email: String,
}

/// The response of the user listing: the fixed records and their count.
pub struct UsersResponse {
    pub users: Vec<UserRecord>,
    pub total: u64,
}

/// The response of the single-user lookup: a fixed record plus the
/// server-generated timestamp.
pub struct UserDetailResponse {
    pub id: u64,
    pub name: String,
    pub email: String,
    pub created_at: String,
}

/// What a correct registration response looks like for a request that
/// submitted `email`: the action tag, the identity echo of the email, and
/// the state's main database name and environment name.
pub open spec fn is_register_response(r: RegisterResponse, email: Seq<char>, st: AppState) -> bool {
    &&& r.action@ == "register"@
    &&& r.email@ == email
    &&& r.db@ == st.databases.main.name@
    &&& r.env@ == st.env@
}

/// What a correct login response looks like for a request that submitted
/// `email`: the action tag, the identity echo of the email, and the state's
/// main database name.
pub open spec fn is_login_response(r: LoginResponse, email: Seq<char>, st: AppState) -> bool {
    &&& r.action@ == "login"@
    &&& r.email@ == email
    &&& r.db@ == st.databases.main.name@
}

/// One of the two fixed user records, by field.
pub open spec fn is_user_record(u: UserRecord, id: u64, name: Seq<char>, email: Seq<char>) -> bool {
    &&& u.id == id
    &&& u.name@ == name
    &&& u.email@ == email
}

/// The fixed user listing: exactly two records, and a total equal to two.
pub open spec fn is_users_response(r: UsersResponse) -> bool {
    &&& r.total == 2
    &&& r.users@.len() == 2
    &&& is_user_record(r.users@[0], 1, "John Doe"@, "john@example.com"@)
    &&& is_user_record(r.users@[1], 2, "Jane Smith"@, "jane@example.com"@)
}

/// The fixed single-user record, carrying the given creation timestamp.
pub open spec fn is_user_detail(r: UserDetailResponse, created_at: Seq<char>) -> bool {
    &&& r.id == 1
    &&& r.name@ == "John Doe"@
    &&& r.email@ == "john@example.com"@
    &&& r.created_at@ == created_at
}

/// Registers a user: echoes the submitted email back with the environment
/// and database metadata. No credential is checked and nothing is stored.
pub fn register(state: &AppState, payload: LoginRequest) -> (r: RegisterResponse)
    ensures
        is_register_response(r, payload.email@, *state),
{
    RegisterResponse {
        action: "register".to_owned(),
        email: payload.email,
        db: state.databases.main.name.clone(),
        env: state.env.clone(),
    }
}

/// Logs a user in: echoes the submitted email back with the database name.
/// No credential is checked and no session token is issued.
pub fn login(state: &AppState, payload: LoginRequest) -> (r: LoginResponse)
    ensures
        is_login_response(r, payload.email@, *state),
{
    LoginResponse {
        action: "login".to_owned(),
        email: payload.email,
        db: state.databases.main.name.clone(),
    }
}

/// Lists users: always the same two hard-coded records with a total of two,
/// whatever the request looked like.
pub fn get_users() -> (r: UsersResponse)
    ensures
        is_users_response(r),
{
    let mut users: Vec<UserRecord> = Vec::new();
    users.push(
        UserRecord { id: 1, name: "John Doe".to_owned(), email: "john@example.com".to_owned() },
    );
    users.push(
        UserRecord { id: 2, name: "Jane Smith".to_owned(), email: "jane@example.com".to_owned() },
    );
    UsersResponse { users, total: 2 }
}

/// Builds the single-user response around the given creation timestamp. The
/// remaining fields are fixed.
pub fn user_detail_with(created_at: String) -> (r: UserDetailResponse)
    ensures
        is_user_detail(r, created_at@),
{
    UserDetailResponse {
        id: 1,
        name: "John Doe".to_owned(),
        email: "john@example.com".to_owned(),
        created_at,
    }
}

/// Relies on `chrono::Utc::now` and `chrono::DateTime::to_rfc3339`: reads
/// the clock and formats the current instant. The result depends on the
/// clock, so nothing is claimed of it.
#[verifier::external_body]
fn now_rfc3339() -> String {
    chrono::Utc::now().to_rfc3339()
}

/// Looks a user up by id: returns the fixed record whatever the id was,
/// stamped with the current time. The path parameter is accepted but
/// ignored — the contract does not depend on it, which is the documented
/// current behavior.
pub fn get_user_by_id(_user_id: &str) -> (r: UserDetailResponse)
    ensures
        is_user_detail(r, r.created_at@),
{
    let created_at = now_rfc3339();
    user_detail_with(created_at)
}

/// The greeting served at the API root.
pub fn root() -> (r: String)
    ensures
        r@ == "Hello World!"@,
{
    "Hello World!".to_owned()
}

/// Identity echo of the email, with no cross-contamination: every
/// registration response carries exactly the email of its own request, so
/// two requests with distinct emails can never receive each other's echo.
pub proof fn lemma_register_echoes_email(
    r1: RegisterResponse,
    r2: RegisterResponse,
    e1: Seq<char>,
    e2: Seq<char>,
    st1: AppState,
    st2: AppState,
)
    requires
        is_register_response(r1, e1, st1),
        is_register_response(r2, e2, st2),
    ensures
        r1.email@ == e1,
        r2.email@ == e2,
        e1 != e2 ==> r1.email@ != r2.email@,
{
}

/// The user listing is fixed: its total always equals the number of records
/// it carries, and both are two.
pub proof fn lemma_users_total_matches(r: UsersResponse)
    requires
        is_users_response(r),
    ensures
        r.total == r.users@.len(),
        r.total == 2,
{
}

/// The single-user lookup ignores its path parameter: any two responses
/// stamped with the same timestamp agree on every field.
pub proof fn lemma_user_detail_fixed(u1: UserDetailResponse, u2: UserDetailResponse, ts: Seq<char>)
    requires
        is_user_detail(u1, ts),
        is_user_detail(u2, ts),
    ensures
        u1.id == u2.id,
        u1.name@ == u2.name@,
        u1.email@ == u2.email@,
        u1.created_at@ == u2.created_at@,
{
}

} // verus!
