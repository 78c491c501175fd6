//! The account endpoints: each runs one operation of the session protocol
//! and shapes its outcome into the body, and the cookie, of the answer.
//!
//! Failures are reported with the generic message of their kind; no detail
//! of the store, the hasher or the signer reaches the client.

use vstd::prelude::*;
use vstd::string::StringExecFns;
use crate::config::Config;
use crate::errors::{AuthError, HashingError};
use crate::models::store::{SessionStore, account_by_id};
use crate::models::user::{
    NewTokens,
    NewUser,
    NewUserView,
    TokenPair,
    User,
    UserLoggedIn,
    UserLoggedInView,
    UserLogin,
    UserLogout,
    UserView,
    account_view,
    create_spec,
    hash_view,
    login_spec,
    logout_spec,
    refresh_spec,
    registration_view,
    session_view,
    tokens_view,
};
use crate::views::text_view;

verus! {

/// The body that lists every account.
#[derive(Debug)]
pub struct UsersResponse {
    pub users: Vec<User>,
}

/// The body that shows one account.
#[derive(Debug)]
pub struct UserResponse {
    pub user: User,
}

/// The body that confirms a registration.
#[derive(Debug)]
pub struct CreateUserResponse {
    pub name: String,
    pub email: String,
}

/// The body that reports a failed registration.
#[derive(Debug)]
pub struct CreateUserError {
    pub message: String,
    pub error: String,
}

/// The body that confirms a login.
#[derive(Debug)]
pub struct UserLoginResponse {
    pub user_logged_in: UserLoggedIn,
}

/// The body that reports a failed login.
#[derive(Debug)]
pub struct UserLoginError {
    pub message: String,
    pub error: String,
}

/// The body that confirms a logout.
#[derive(Debug)]
pub struct UserLogoutResponse {
    pub user_logged_out: bool,
}

/// The body that reports a failed logout.
#[derive(Debug)]
pub struct UserLogoutError {
    pub user_logged_out: bool,
    pub message: String,
    pub error: String,
}

/// The body that carries the new access token after a refresh.
#[derive(Debug)]
pub struct ReauthResponse {
    pub access_token: String,
}

impl Clone for ReauthResponse {
    fn clone(&self) -> (copy: Self)
        ensures
            copy.access_token@ == self.access_token@,
    {
        ReauthResponse { access_token: self.access_token.clone() }
    }
}

/// The body of a refresh request. The refresh token itself travels in a
/// cookie.
#[derive(Debug, Clone, Copy)]
pub struct ReauthRequestBody {
    pub id: i32,
}

/// The answer to a registration. A failure comes with its kind, by which
/// the transport picks the status of the answer.
#[derive(Debug)]
pub enum CreateUserReply {
    Created(CreateUserResponse),
    Failed { kind: AuthError, error: CreateUserError },
}

/// The answer to a login. On success the refresh token is also set as a
/// cookie.
#[derive(Debug)]
pub enum LoginReply {
    LoggedIn { refresh_cookie: Option<String>, body: UserLoginResponse },
    Failed { kind: AuthError, error: UserLoginError },
}

/// The answer to a logout.
#[derive(Debug)]
pub enum LogoutReply {
    LoggedOut(UserLogoutResponse),
    Failed { kind: AuthError, error: UserLogoutError },
}

/// The answer to a refresh. On success the rotated refresh token is set as a
/// cookie and the body carries the new access token.
#[derive(Debug)]
pub enum ReauthReply {
    Refreshed { refresh_cookie: String, body: ReauthResponse },
    Rejected(AuthError),
}

impl CreateUserReply {
    /// Whether this is the answer to the given outcome of a registration.
    pub open spec fn answers(self, outcome: Result<NewUserView, AuthError>) -> bool {
        match self {
            CreateUserReply::Created(body) => outcome matches Ok(created) && body.name@
                == created.name && body.email@ == created.email,
            CreateUserReply::Failed { kind, error } => outcome == Err::<NewUserView, AuthError>(
                kind,
            ) && error.message@ == "Failed to create user"@ && error.error@
                == kind.message_spec(),
        }
    }

    /// Shapes the outcome of a registration. The password hash is left out.
    pub fn from_result(outcome: Result<NewUser, AuthError>) -> (reply: CreateUserReply)
        ensures
            reply.answers(registration_view(outcome)),
    {
        match outcome {
            Ok(created) => CreateUserReply::Created(
                CreateUserResponse { name: created.name, email: created.email },
            ),
            Err(kind) => CreateUserReply::Failed {
                kind,
                error: CreateUserError {
                    message: String::from_str("Failed to create user"),
                    error: kind.message(),
                },
            },
        }
    }
}

impl LoginReply {
    /// Whether this is the answer to the given outcome of a login.
    pub open spec fn answers(self, outcome: Result<UserLoggedInView, AuthError>) -> bool {
        match self {
            LoginReply::LoggedIn { refresh_cookie, body } => outcome == Ok::<
                UserLoggedInView,
                AuthError,
            >(body.user_logged_in@) && text_view(refresh_cookie)
                == body.user_logged_in@.refresh_token,
            LoginReply::Failed { kind, error } => outcome == Err::<UserLoggedInView, AuthError>(
                kind,
            ) && error.message@ == "Could not log user in"@ && error.error@
                == kind.message_spec(),
        }
    }

    /// Shapes the outcome of a login.
    pub fn from_result(outcome: Result<UserLoggedIn, AuthError>) -> (reply: LoginReply)
        ensures
            reply.answers(session_view(outcome)),
    {
        match outcome {
            Ok(session) => {
                let refresh_cookie = match &session.refresh_token {
                    Some(t) => Some(t.clone()),
                    None => None,
                };
                LoginReply::LoggedIn {
                    refresh_cookie,
                    body: UserLoginResponse { user_logged_in: session },
                }
            },
            Err(kind) => LoginReply::Failed {
                kind,
                error: UserLoginError {
                    message: String::from_str("Could not log user in"),
                    error: kind.message(),
                },
            },
        }
    }
}

impl LogoutReply {
    /// Whether this is the answer to the given outcome of a logout.
    pub open spec fn answers(self, outcome: Result<UserView, AuthError>) -> bool {
        match self {
            LogoutReply::LoggedOut(body) => outcome is Ok && body.user_logged_out,
            LogoutReply::Failed { kind, error } => outcome == Err::<UserView, AuthError>(kind)
                && !error.user_logged_out && error.message@ == "Could not log user out"@
                && error.error@ == kind.message_spec(),
        }
    }

    /// Shapes the outcome of a logout.
    pub fn from_result(outcome: Result<User, AuthError>) -> (reply: LogoutReply)
        ensures
            reply.answers(account_view(outcome)),
    {
        match outcome {
            Ok(_) => LogoutReply::LoggedOut(UserLogoutResponse { user_logged_out: true }),
            Err(kind) => LogoutReply::Failed {
                kind,
                error: UserLogoutError {
                    user_logged_out: false,
                    message: String::from_str("Could not log user out"),
                    error: kind.message(),
                },
            },
        }
    }
}

impl ReauthReply {
    /// Whether this is the answer to the given outcome of a refresh.
    pub open spec fn answers(self, outcome: Result<TokenPair, AuthError>) -> bool {
        match self {
            ReauthReply::Refreshed { refresh_cookie, body } => outcome == Ok::<
                TokenPair,
                AuthError,
            >(TokenPair { access_token: body.access_token@, refresh_token: refresh_cookie@ }),
            ReauthReply::Rejected(e) => outcome == Err::<TokenPair, AuthError>(e),
        }
    }

    /// Shapes the outcome of a refresh.
    pub fn from_result(outcome: Result<NewTokens, AuthError>) -> (reply: ReauthReply)
        ensures
            reply.answers(tokens_view(outcome)),
    {
        match outcome {
            Ok(tokens) => ReauthReply::Refreshed {
                refresh_cookie: tokens.refresh_token,
                body: ReauthResponse { access_token: tokens.access_token },
            },
            Err(e) => ReauthReply::Rejected(e),
        }
    }
}

/// Lists every account.
pub fn get_users(store: &SessionStore) -> (response: UsersResponse)
    ensures
        response.users@.map_values(|u: User| u@) == store@,
{
    UsersResponse { users: User::get_all(store) }
}

/// Shows the account with the given id, if there is one.
pub fn get_user(store: &SessionStore, id: i32) -> (response: Option<UserResponse>)
    ensures
        match response {
            Some(body) => account_by_id(store@, id) == Some(body.user@),
            None => account_by_id(store@, id) is None,
        },
{
    match User::get(store, id) {
        Some(user) => Some(UserResponse { user }),
        None => None,
    }
}

/// Registers an account and answers with its name and email.
/// `password_hash` is what the hasher returned for `user.password`.
pub fn create_user(
    store: &mut SessionStore,
    user: NewUser,
    password_hash: Result<String, HashingError>,
) -> (reply: CreateUserReply)
    ensures
        reply.answers(
            create_spec(old(store)@, old(store).next_id(), user@, hash_view(password_hash)).0,
        ),
        final(store)@ == create_spec(
            old(store)@,
            old(store).next_id(),
            user@,
            hash_view(password_hash),
        ).1,
{
    CreateUserReply::from_result(User::create(store, user, password_hash))
}

/// Logs a user in at time `now` and answers with the session.
/// `password_is_valid` is what the hasher reported on `user.password`
/// against the hash of the account named `user.name`.
pub fn login_user(
    store: &mut SessionStore,
    user: &UserLogin,
    password_is_valid: Result<bool, HashingError>,
    config: &Config,
    now: u64,
) -> (reply: LoginReply)
    ensures
        reply.answers(login_spec(old(store)@, user.name@, password_is_valid, *config, now).0),
        final(store)@ == login_spec(old(store)@, user.name@, password_is_valid, *config, now).1,
{
    LoginReply::from_result(User::login(store, user, password_is_valid, config, now))
}

/// Logs a user out and answers whether that was done.
pub fn logout_user(store: &mut SessionStore, user: UserLogout) -> (reply: LogoutReply)
    ensures
        reply.answers(logout_spec(old(store)@, user.id).0),
        final(store)@ == logout_spec(old(store)@, user.id).1,
{
    LogoutReply::from_result(User::logout(store, user))
}

/// Exchanges the refresh token of a request at time `now`. A request
/// without a refresh token is rejected like one with a bad token.
pub fn reauth_user(
    store: &mut SessionStore,
    user: &ReauthRequestBody,
    refresh_token: Option<&str>,
    config: &Config,
    now: u64,
) -> (reply: ReauthReply)
    ensures
        match refresh_token {
            Some(presented) => {
                &&& reply.answers(refresh_spec(old(store)@, user.id, presented@, *config, now).0)
                &&& final(store)@ == refresh_spec(old(store)@, user.id, presented@, *config, now).1
            },
            None => {
                &&& reply == ReauthReply::Rejected(AuthError::RefreshRejected)
                &&& final(store)@ == old(store)@
            },
        },
{
    match refresh_token {
        Some(presented) => ReauthReply::from_result(
            User::refresh(store, user.id, presented, config, now),
        ),
        None => ReauthReply::Rejected(AuthError::RefreshRejected),
    }
}

} // verus!
