use session_auth::config::{Config, ConfigError};
use session_auth::errors::{AuthError, HashingError};
use session_auth::handlers::health::status;
use session_auth::handlers::user::{
    create_user, get_user, get_users, login_user, logout_user, reauth_user, CreateUserReply,
    LoginReply, LogoutReply, ReauthReply, ReauthRequestBody,
};
use session_auth::models::store::SessionStore;
use session_auth::models::user::{NewUser, UserLogin, UserLogout};
use session_auth::modules::jwt::issue_token;

const SECRET: &str = "signing secret";

fn config() -> Config {
    Config::new(
        "127.0.0.1".to_string(),
        8080,
        "development".to_string(),
        "postgres://localhost/app".to_string(),
        "hashing secret".to_string(),
        SECRET.to_string(),
    )
}

fn store_with_miguel() -> SessionStore {
    let mut store = SessionStore::new();
    store.add("miguel".to_string(), "miguel@email.com".to_string(), "hash".to_string());
    store
}

#[test]
fn test_health() {
    let resp = status();
    assert_eq!(resp.status, String::from("pong!"));
}

#[test]
fn login() {
    let mut store = store_with_miguel();
    let body = UserLogin { name: "miguel".to_string(), password: "123".to_string() };
    let reply = login_user(&mut store, &body, Ok(true), &config(), 1000);
    match reply {
        LoginReply::LoggedIn { refresh_cookie, body } => {
            assert_eq!(body.user_logged_in.name, "miguel");
            assert_eq!(body.user_logged_in.email, "miguel@email.com");
            assert_eq!(body.user_logged_in.jwt, issue_token(1000, 900, SECRET).unwrap());
            assert_eq!(refresh_cookie, issue_token(1000, 604800, SECRET));
            assert_eq!(refresh_cookie, body.user_logged_in.refresh_token);
            assert_eq!(store.get_refresh_token(1), refresh_cookie);
        }
        LoginReply::Failed { kind, .. } => panic!("login failed: {:?}", kind),
    }
}

#[test]
fn create() {
    let mut store = SessionStore::new();
    let body = NewUser {
        name: "alex z".to_string(),
        email: "alexz@email.com".to_string(),
        password: "123".to_string(),
    };
    let reply = create_user(&mut store, body, Ok("hash of 123".to_string()));
    match reply {
        CreateUserReply::Created(response) => {
            assert_eq!(response.name, "alex z");
            assert_eq!(response.email, "alexz@email.com");
        }
        CreateUserReply::Failed { kind, .. } => panic!("creation failed: {:?}", kind),
    }
    assert_eq!(store.find_by_name("alex z").unwrap().password, "hash of 123");
}

#[test]
fn create_twice_with_one_email_fails() {
    let mut store = store_with_miguel();
    let body = NewUser {
        name: "miguel2".to_string(),
        email: "miguel@email.com".to_string(),
        password: "123".to_string(),
    };
    match create_user(&mut store, body, Ok("h".to_string())) {
        CreateUserReply::Failed { kind, error: body } => {
            assert_eq!(kind, AuthError::EmailInUse);
            assert_eq!(body.message, "Failed to create user");
            assert_eq!(body.error, "Email already in use");
        }
        CreateUserReply::Created(response) => panic!("created: {:?}", response),
    }
}

#[test]
fn create_with_failed_hasher_hides_the_detail() {
    let mut store = SessionStore::new();
    let body = NewUser {
        name: "bob".to_string(),
        email: "bob@email.com".to_string(),
        password: "123".to_string(),
    };
    match create_user(&mut store, body, Err(HashingError)) {
        CreateUserReply::Failed { kind, error: body } => {
            assert_eq!(kind, AuthError::HashingFailure);
            assert_eq!(body.message, "Failed to create user");
            assert_eq!(body.error, "internal error");
        }
        CreateUserReply::Created(response) => panic!("created: {:?}", response),
    }
}

#[test]
fn failed_login_reports_only_invalid_credentials() {
    let mut store = store_with_miguel();
    let wrong = UserLogin { name: "miguel".to_string(), password: "bad".to_string() };
    let unknown = UserLogin { name: "nobody".to_string(), password: "123".to_string() };
    let replies = vec![
        login_user(&mut store, &wrong, Ok(false), &config(), 1000),
        login_user(&mut store, &wrong, Err(HashingError), &config(), 1000),
        login_user(&mut store, &unknown, Ok(true), &config(), 1000),
    ];
    for reply in replies {
        match reply {
            LoginReply::Failed { kind, error: body } => {
                assert_eq!(kind, AuthError::InvalidCredentials);
                assert_eq!(body.message, "Could not log user in");
                assert_eq!(body.error, "invalid credentials");
            }
            LoginReply::LoggedIn { body, .. } => panic!("logged in: {:?}", body),
        }
    }
    assert_eq!(store.get_refresh_token(1), None);
}

#[test]
fn logout_confirms() {
    let mut store = store_with_miguel();
    store.set_refresh_token(1, "r".to_string());
    match logout_user(&mut store, UserLogout { id: 1 }) {
        LogoutReply::LoggedOut(response) => assert!(response.user_logged_out),
        LogoutReply::Failed { kind, .. } => panic!("logout failed: {:?}", kind),
    }
    assert_eq!(store.get_refresh_token(1), None);
}

#[test]
fn logout_of_unknown_account_reports_failure() {
    let mut store = store_with_miguel();
    match logout_user(&mut store, UserLogout { id: 5 }) {
        LogoutReply::Failed { kind, error: body } => {
            assert_eq!(kind, AuthError::AccountNotFound);
            assert!(!body.user_logged_out);
            assert_eq!(body.message, "Could not log user out");
            assert_eq!(body.error, "account not found");
        }
        LogoutReply::LoggedOut(response) => panic!("logged out: {:?}", response),
    }
}

#[test]
fn reauth_sets_the_cookie_and_returns_the_access_token() {
    let mut store = store_with_miguel();
    let r1 = issue_token(1000, 604800, SECRET).unwrap();
    store.set_refresh_token(1, r1.clone());
    let reply = reauth_user(&mut store, &ReauthRequestBody { id: 1 }, Some(&r1), &config(), 2000);
    match reply {
        ReauthReply::Refreshed { refresh_cookie, body } => {
            assert_eq!(refresh_cookie, issue_token(2000, 604800, SECRET).unwrap());
            assert_eq!(body.access_token, issue_token(2000, 900, SECRET).unwrap());
            assert_eq!(store.get_refresh_token(1), Some(refresh_cookie));
        }
        ReauthReply::Rejected(error) => panic!("rejected: {:?}", error),
    }
}

#[test]
fn reauth_without_a_cookie_is_rejected() {
    let mut store = store_with_miguel();
    store.set_refresh_token(1, "r".to_string());
    let reply = reauth_user(&mut store, &ReauthRequestBody { id: 1 }, None, &config(), 2000);
    assert!(matches!(reply, ReauthReply::Rejected(AuthError::RefreshRejected)));
    assert_eq!(store.get_refresh_token(1), Some("r".to_string()));
}

#[test]
fn reauth_with_a_stale_cookie_is_rejected() {
    let mut store = store_with_miguel();
    let r1 = issue_token(1000, 604800, SECRET).unwrap();
    let r2 = issue_token(1500, 604800, SECRET).unwrap();
    store.set_refresh_token(1, r2.clone());
    let reply = reauth_user(&mut store, &ReauthRequestBody { id: 1 }, Some(&r1), &config(), 2000);
    assert!(matches!(reply, ReauthReply::Rejected(AuthError::RefreshRejected)));
    assert_eq!(store.get_refresh_token(1), Some(r2));
}

#[test]
fn get_users_and_get_user_show_accounts() {
    let mut store = store_with_miguel();
    store.add("alex z".to_string(), "alexz@email.com".to_string(), "h2".to_string());
    let listing = get_users(&store);
    assert_eq!(listing.users.len(), 2);
    assert_eq!(listing.users[1].name, "alex z");
    assert_eq!(get_user(&store, 1).unwrap().user.email, "miguel@email.com");
    assert!(get_user(&store, 3).is_none());
}

#[test]
fn every_error_has_its_client_message() {
    assert_eq!(AuthError::InvalidCredentials.message(), "invalid credentials");
    assert_eq!(AuthError::AccountNotFound.message(), "account not found");
    assert_eq!(AuthError::RefreshRejected.message(), "refresh rejected");
    assert_eq!(AuthError::HashingFailure.message(), "internal error");
    assert_eq!(AuthError::StoreUnavailable.message(), "internal error");
    assert_eq!(AuthError::SigningUnavailable.message(), "internal error");
    assert_eq!(AuthError::EmailInUse.message(), "Email already in use");
}

#[test]
fn infrastructure_failures_are_told_apart_from_client_errors() {
    assert!(AuthError::HashingFailure.is_infrastructure());
    assert!(AuthError::StoreUnavailable.is_infrastructure());
    assert!(AuthError::SigningUnavailable.is_infrastructure());
    assert!(!AuthError::InvalidCredentials.is_infrastructure());
    assert!(!AuthError::AccountNotFound.is_infrastructure());
    assert!(!AuthError::RefreshRejected.is_infrastructure());
    assert!(!AuthError::EmailInUse.is_infrastructure());
}

#[test]
fn settings_file_depends_on_the_environment() {
    assert_eq!(Config::settings_file("development"), Ok(".env.dev.json".to_string()));
    assert_eq!(
        Config::settings_file("production"),
        Err(ConfigError::NotConfiguredForProduction)
    );
    assert_eq!(Config::settings_file("staging"), Err(ConfigError::UnknownEnvironment));
    assert_eq!(Config::settings_file(""), Err(ConfigError::UnknownEnvironment));
    assert_eq!(Config::settings_file("Development"), Err(ConfigError::UnknownEnvironment));
}

#[test]
fn config_errors_have_their_messages() {
    assert_eq!(
        ConfigError::NotConfiguredForProduction.message(),
        "App is not configured for production"
    );
    assert_eq!(
        ConfigError::UnknownEnvironment.message(),
        "Could not configure app based on env vars"
    );
}

#[test]
fn new_config_has_the_default_lifetimes() {
    let cfg = config();
    assert_eq!(cfg.access_ttl, 900);
    assert_eq!(cfg.refresh_ttl, 604800);
    assert_eq!(cfg.host, "127.0.0.1");
    assert_eq!(cfg.port, 8080);
    assert_eq!(cfg.jwt_secret_key, SECRET);
    let other = cfg.with_lifetimes(60, 120);
    assert_eq!(other.access_ttl, 60);
    assert_eq!(other.refresh_ttl, 120);
    assert_eq!(other.hash_secret_key, "hashing secret");
}
