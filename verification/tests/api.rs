use api_skeleton::app_state::AppState;
use api_skeleton::config::AppConfig;
use api_skeleton::config::ConfigError;
use api_skeleton::config::parse_port;
use api_skeleton::config::resolve_port;
use api_skeleton::handlers::LoginRequest;
use api_skeleton::handlers::get_user_by_id;
use api_skeleton::handlers::get_users;
use api_skeleton::handlers::login;
use api_skeleton::handlers::register;
use api_skeleton::handlers::root;
use api_skeleton::handlers::user_detail_with;
use api_skeleton::router::HttpResponse;
use api_skeleton::router::Method;
use api_skeleton::router::RequestBody;
use api_skeleton::router::ResponseBody;
use api_skeleton::router::Route;
use api_skeleton::router::handle_request;
use api_skeleton::router::handler_404;
use api_skeleton::router::match_route;

fn test_state(db_name: &str, env: &str) -> AppState {
    let config = AppConfig::resolve(
        Some(env.to_owned()),
        Some("mongodb://localhost:27017".to_owned()),
        Some(db_name.to_owned()),
    )
    .unwrap();
    AppState::build(config)
}

fn dispatch(method: Method, path: &str, body: RequestBody) -> HttpResponse {
    let state = test_state("my_app_db", "development");
    handle_request(&method, path, body, &state, "2024-01-01T00:00:00+00:00".to_owned())
}

#[test]
fn register_echoes_email() {
    let state = test_state("my_app_db", "production");
    let r = register(
        &state,
        LoginRequest { email: "a@b.com".to_owned(), password: "secret".to_owned() },
    );
    assert_eq!(r.action, "register");
    assert_eq!(r.email, "a@b.com");
    assert_eq!(r.db, "my_app_db");
    assert_eq!(r.env, "production");
}

#[test]
fn login_echoes_email() {
    let state = test_state("my_app_db", "development");
    let r = login(
        &state,
        LoginRequest { email: "someone@example.com".to_owned(), password: "pw".to_owned() },
    );
    assert_eq!(r.action, "login");
    assert_eq!(r.email, "someone@example.com");
    assert_eq!(r.db, "my_app_db");
}

#[test]
fn register_no_cross_contamination() {
    let state = test_state("my_app_db", "development");
    let r1 = register(
        &state,
        LoginRequest { email: "first@example.com".to_owned(), password: "p1".to_owned() },
    );
    let r2 = register(
        &state,
        LoginRequest { email: "second@example.com".to_owned(), password: "p2".to_owned() },
    );
    assert_eq!(r1.email, "first@example.com");
    assert_eq!(r2.email, "second@example.com");
    assert_ne!(r1.email, r2.email);
}

#[test]
fn users_listing_is_fixed() {
    let r = get_users();
    assert_eq!(r.total, 2);
    assert_eq!(r.users.len(), 2);
    assert_eq!(r.users[0].id, 1);
    assert_eq!(r.users[0].name, "John Doe");
    assert_eq!(r.users[0].email, "john@example.com");
    assert_eq!(r.users[1].id, 2);
    assert_eq!(r.users[1].name, "Jane Smith");
    assert_eq!(r.users[1].email, "jane@example.com");
}

#[test]
fn user_by_id_ignores_parameter() {
    let numeric = get_user_by_id("42");
    let textual = get_user_by_id("not-a-number");
    assert_eq!(numeric.id, 1);
    assert_eq!(numeric.name, "John Doe");
    assert_eq!(numeric.email, "john@example.com");
    assert_eq!(numeric.id, textual.id);
    assert_eq!(numeric.name, textual.name);
    assert_eq!(numeric.email, textual.email);
    assert!(!numeric.created_at.is_empty());
}

#[test]
fn user_detail_carries_timestamp() {
    let r = user_detail_with("2024-01-01T00:00:00+00:00".to_owned());
    assert_eq!(r.id, 1);
    assert_eq!(r.created_at, "2024-01-01T00:00:00+00:00");
}

#[test]
fn route_table_declared_routes() {
    assert_eq!(match_route(&Method::Post, "/api/auth/register"), Route::Register);
    assert_eq!(match_route(&Method::Post, "/api/auth/login"), Route::Login);
    assert_eq!(match_route(&Method::Get, "/api/users/"), Route::UsersIndex);
    assert_eq!(match_route(&Method::Get, "/api/users/7"), Route::UserById);
    assert_eq!(match_route(&Method::Get, "/api/users/not-a-number"), Route::UserById);
    assert_eq!(match_route(&Method::Get, "/api/"), Route::ApiRoot);
}

#[test]
fn route_table_undeclared_routes() {
    assert_eq!(match_route(&Method::Get, "/api/auth/register"), Route::NotFound);
    assert_eq!(match_route(&Method::Post, "/api/users/"), Route::NotFound);
    assert_eq!(match_route(&Method::Get, "/api/users"), Route::NotFound);
    assert_eq!(match_route(&Method::Get, "/api/users/1/2"), Route::NotFound);
    assert_eq!(match_route(&Method::Get, "/nowhere"), Route::NotFound);
    assert_eq!(match_route(&Method::Other, "/api/users/"), Route::NotFound);
}

#[test]
fn unmatched_request_is_404_with_fixed_body() {
    let r = dispatch(Method::Get, "/api/unknown", RequestBody::Empty);
    assert_eq!(r.status, 404);
    match r.body {
        ResponseBody::Text(t) => assert_eq!(t, "Route not found"),
        _ => panic!("expected a plain-text body"),
    }
}

#[test]
fn catch_all_handler_is_404() {
    let r = handler_404();
    assert_eq!(r.status, 404);
    match r.body {
        ResponseBody::Text(t) => assert_eq!(t, "Route not found"),
        _ => panic!("expected a plain-text body"),
    }
}

#[test]
fn malformed_login_body_is_client_error() {
    let r = dispatch(Method::Post, "/api/auth/login", RequestBody::Malformed);
    assert!(400 <= r.status && r.status < 500);
    let again = dispatch(
        Method::Post,
        "/api/auth/login",
        RequestBody::Login(LoginRequest { email: "a@b.com".to_owned(), password: "x".to_owned() }),
    );
    assert_eq!(again.status, 200);
}

#[test]
fn missing_login_body_is_client_error() {
    let r = dispatch(Method::Post, "/api/auth/register", RequestBody::Empty);
    assert_eq!(r.status, 400);
}

#[test]
fn login_end_to_end_example() {
    let state = test_state("my_app_db", "development");
    let r = handle_request(
        &Method::Post,
        "/api/auth/login",
        RequestBody::Login(LoginRequest { email: "a@b.com".to_owned(), password: "x".to_owned() }),
        &state,
        "2024-01-01T00:00:00+00:00".to_owned(),
    );
    assert_eq!(r.status, 200);
    match r.body {
        ResponseBody::Login(body) => {
            assert_eq!(body.action, "login");
            assert_eq!(body.email, "a@b.com");
            assert_eq!(body.db, "my_app_db");
        }
        _ => panic!("expected a login body"),
    }
}

#[test]
fn users_index_dispatch() {
    let r = dispatch(Method::Get, "/api/users/", RequestBody::Empty);
    assert_eq!(r.status, 200);
    match r.body {
        ResponseBody::Users(body) => {
            assert_eq!(body.total, 2);
            assert_eq!(body.users.len(), 2);
        }
        _ => panic!("expected a users body"),
    }
}

#[test]
fn user_by_id_dispatch_any_id() {
    let r = dispatch(Method::Get, "/api/users/anything-goes", RequestBody::Empty);
    assert_eq!(r.status, 200);
    match r.body {
        ResponseBody::UserDetail(body) => {
            assert_eq!(body.id, 1);
            assert_eq!(body.created_at, "2024-01-01T00:00:00+00:00");
        }
        _ => panic!("expected a user detail body"),
    }
}

#[test]
fn api_root_greeting() {
    assert_eq!(root(), "Hello World!");
    let r = dispatch(Method::Get, "/api/", RequestBody::Empty);
    assert_eq!(r.status, 200);
    match r.body {
        ResponseBody::Text(t) => assert_eq!(t, "Hello World!"),
        _ => panic!("expected a plain-text body"),
    }
}

#[test]
fn missing_database_uri_is_fatal() {
    let r = AppConfig::resolve(Some("development".to_owned()), None, Some("db".to_owned()));
    assert!(matches!(r, Err(ConfigError::MissingDatabaseUri)));
}

#[test]
fn missing_database_name_is_fatal() {
    let r = AppConfig::resolve(None, Some("mongodb://localhost:27017".to_owned()), None);
    assert!(matches!(r, Err(ConfigError::MissingDatabaseName)));
}

#[test]
fn config_defaults() {
    let c = AppConfig::resolve(
        None,
        Some("mongodb://localhost:27017".to_owned()),
        Some("db".to_owned()),
    )
    .unwrap();
    assert_eq!(c.env, "development");
    assert_eq!(c.mongo.uri, "mongodb://localhost:27017");
    assert_eq!(c.mongo.db_name, "db");
}

#[test]
fn state_carries_configured_names() {
    let state = test_state("configured_db", "staging");
    assert_eq!(state.env, "staging");
    assert_eq!(state.databases.main.name, "configured_db");
    assert_eq!(state.databases.main.name(), "configured_db");
    assert_eq!(state.databases.analytics.name, "analytics_db");
    assert_eq!(state.databases.logs.name, "logs_db");
}

#[test]
fn port_parsing() {
    assert_eq!(parse_port("80"), Some(80));
    assert_eq!(parse_port("+123"), Some(123));
    assert_eq!(parse_port("007"), Some(7));
    assert_eq!(parse_port("65535"), Some(65535));
    assert_eq!(parse_port("65536"), None);
    assert_eq!(parse_port("99999999999999999999"), None);
    assert_eq!(parse_port(""), None);
    assert_eq!(parse_port("+"), None);
    assert_eq!(parse_port("80a"), None);
    assert_eq!(parse_port("-1"), None);
    assert_eq!(parse_port(" 80"), None);
}

#[test]
fn port_resolution_defaults() {
    assert_eq!(resolve_port(None), 3300);
    assert_eq!(resolve_port(Some("not-a-port")), 3300);
    assert_eq!(resolve_port(Some("70000")), 3300);
    assert_eq!(resolve_port(Some("8080")), 8080);
}
