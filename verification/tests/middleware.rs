use session_auth::errors::TokenError;
use session_auth::middleware::auth::{Auth, AuthMiddleware, GateDecision, Rejection};
use session_auth::modules::jwt::{issue_token, jwt_factory, Claims};

const SECRET: &str = "access secret";

fn guard() -> AuthMiddleware {
    Auth::new(vec!["/app/login".to_string(), "/ping".to_string()], SECRET.to_string())
        .new_transform()
}

#[test]
fn protected_path_admits_a_fresh_token() {
    let token = issue_token(1000, 900, SECRET).unwrap();
    assert_eq!(guard().call("/users/all", Some(&token), 1000), GateDecision::Admit);
    assert_eq!(guard().call("/users/all", Some(&token), 1899), GateDecision::Admit);
}

#[test]
fn protected_path_rejects_a_missing_header() {
    assert_eq!(
        guard().call("/users/all", None, 1000),
        GateDecision::Unauthorized(Rejection::MissingCredentials)
    );
}

#[test]
fn protected_path_rejects_an_expired_token() {
    let token = issue_token(1000, 900, SECRET).unwrap();
    assert_eq!(
        guard().call("/users/all", Some(&token), 1900),
        GateDecision::Unauthorized(Rejection::InvalidToken)
    );
    assert_eq!(
        guard().call("/users/all", Some(&token), 5000),
        GateDecision::Unauthorized(Rejection::InvalidToken)
    );
}

#[test]
fn protected_path_rejects_a_token_signed_with_another_secret() {
    let token = issue_token(1000, 900, "some other secret").unwrap();
    assert_eq!(
        guard().call("/users/all", Some(&token), 1000),
        GateDecision::Unauthorized(Rejection::InvalidToken)
    );
}

#[test]
fn protected_path_rejects_text_that_is_no_token() {
    assert_eq!(
        guard().call("/users/all", Some(""), 1000),
        GateDecision::Unauthorized(Rejection::InvalidToken)
    );
    assert_eq!(
        guard().call("/users/all", Some("Bearer abc"), 1000),
        GateDecision::Unauthorized(Rejection::InvalidToken)
    );
}

#[test]
fn the_whole_header_is_the_token() {
    let token = issue_token(1000, 900, SECRET).unwrap();
    let with_scheme = format!("Bearer {}", token);
    assert_eq!(
        guard().call("/users/all", Some(&with_scheme), 1000),
        GateDecision::Unauthorized(Rejection::InvalidToken)
    );
}

#[test]
fn public_path_is_admitted_whatever_the_header() {
    let expired = jwt_factory(Claims { exp: 1 }, SECRET).unwrap();
    assert_eq!(guard().call("/app/login", None, 1000), GateDecision::Admit);
    assert_eq!(guard().call("/app/login", Some("garbage"), 1000), GateDecision::Admit);
    assert_eq!(guard().call("/app/login", Some(&expired), 1000), GateDecision::Admit);
    assert_eq!(guard().call("/ping", None, 1000), GateDecision::Admit);
}

#[test]
fn public_paths_match_exactly() {
    let g = guard();
    assert!(g.is_public("/app/login"));
    assert!(g.is_public("/ping"));
    assert!(!g.is_public("/app/login/"));
    assert!(!g.is_public("/app"));
    assert!(!g.is_public("/APP/LOGIN"));
    assert!(!g.is_public(""));
    assert_eq!(
        g.call("/app/login/", None, 1000),
        GateDecision::Unauthorized(Rejection::MissingCredentials)
    );
}

#[test]
fn guard_without_public_paths_protects_everything() {
    let g = Auth::new(Vec::new(), SECRET.to_string()).new_transform();
    assert_eq!(
        g.call("/app/login", None, 1000),
        GateDecision::Unauthorized(Rejection::MissingCredentials)
    );
}

#[test]
fn decide_covers_every_case() {
    let ok = Some(Ok(Claims { exp: 5 }));
    assert_eq!(AuthMiddleware::decide(true, None), GateDecision::Admit);
    assert_eq!(AuthMiddleware::decide(true, Some(Err(TokenError::Malformed))), GateDecision::Admit);
    assert_eq!(AuthMiddleware::decide(false, ok), GateDecision::Admit);
    assert_eq!(
        AuthMiddleware::decide(false, None),
        GateDecision::Unauthorized(Rejection::MissingCredentials)
    );
    assert_eq!(
        AuthMiddleware::decide(false, Some(Err(TokenError::Expired))),
        GateDecision::Unauthorized(Rejection::InvalidToken)
    );
    assert_eq!(
        AuthMiddleware::decide(false, Some(Err(TokenError::Malformed))),
        GateDecision::Unauthorized(Rejection::InvalidToken)
    );
}

#[test]
fn rejections_have_their_messages() {
    assert_eq!(Rejection::MissingCredentials.message(), "missing credentials");
    assert_eq!(Rejection::InvalidToken.message(), "invalid token");
}

#[test]
fn each_guard_made_from_the_settings_behaves_alike() {
    let settings = Auth::new(vec!["/open".to_string()], SECRET.to_string());
    let first = settings.new_transform();
    let second = settings.new_transform();
    let token = issue_token(10, 10, SECRET).unwrap();
    assert_eq!(first.call("/open", None, 0), GateDecision::Admit);
    assert_eq!(second.call("/open", None, 0), GateDecision::Admit);
    assert_eq!(first.call("/closed", Some(&token), 15), GateDecision::Admit);
    assert_eq!(second.call("/closed", Some(&token), 15), GateDecision::Admit);
}
