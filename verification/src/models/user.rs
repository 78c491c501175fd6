//! Accounts, and the session protocol: login, logout and refresh with
//! rotation.
//!
//! Every operation works on a [`SessionStore`] and takes the current time as
//! a value. A refresh token is valid only while it equals the one stored for
//! its account, so storing a new one revokes the old one. An access token is
//! stateless: logging out does not revoke access tokens that were already
//! issued; they stay valid until they expire.
//!
//! The contract of each operation first gives its result and the store it
//! leaves, exactly, as a function of the arguments and the store it found;
//! the clauses after that say what this means for the lookups in the store.

use vstd::prelude::*;
use crate::config::Config;
use crate::errors::{AuthError, HashingError, TokenError};
use crate::models::store::{
    SessionStore,
    account_by_id,
    account_by_name,
    email_taken,
    grows_by,
    retokened,
    stored_token,
    token_change,
    with_token,
};
use crate::modules::hash::{accepted, password_accepted};
use crate::modules::jwt::{Claims, issue_token, jwt_decoding, minted, token_verdict, verify_token};
use crate::views::text_view;

verus! {

/// An account as the store holds it. `password` is the password hash; neither
/// it nor the refresh token is ever shown to a client.
#[derive(Debug)]
pub struct User {
    pub id: i32,
    pub name: String,
    pub email: String,
    pub password: String,
    pub refresh_token: Option<String>,
}

/// The mathematical value of an account.
pub struct UserView {
    pub id: i32,
    pub name: Seq<char>,
    pub email: Seq<char>,
    pub password: Seq<char>,
    pub refresh_token: Option<Seq<char>>,
}

/// A registration: `password` is the clear password in a request, and the
/// password hash in what [`User::create`] returns.
#[derive(Debug)]
pub struct NewUser {
    pub name: String,
    pub email: String,
    pub password: String,
}

/// The mathematical value of a registration.
pub struct NewUserView {
    pub name: Seq<char>,
    pub email: Seq<char>,
    pub password: Seq<char>,
}

/// The credentials presented at login.
#[derive(Debug)]
pub struct UserLogin {
    pub name: String,
    pub password: String,
}

/// What a successful login returns: the public fields of the account, the
/// access token (`jwt`) and the refresh token.
#[derive(Debug)]
pub struct UserLoggedIn {
    pub name: String,
    pub email: String,
    pub jwt: String,
    pub refresh_token: Option<String>,
}

/// The mathematical value of a login result.
pub struct UserLoggedInView {
    pub name: Seq<char>,
    pub email: Seq<char>,
    pub jwt: Seq<char>,
    pub refresh_token: Option<Seq<char>>,
}

/// A request to log an account out.
#[derive(Debug, Clone, Copy)]
pub struct UserLogout {
    pub id: i32,
}

/// A freshly issued pair of tokens.
#[derive(Debug)]
pub struct NewTokens {
    pub refresh_token: String,
    pub access_token: String,
}

/// The mathematical value of a pair of tokens.
pub struct TokenPair {
    pub access_token: Seq<char>,
    pub refresh_token: Seq<char>,
}

/// The value of an optional account.
pub open spec fn user_view(user: Option<User>) -> Option<UserView> {
    match user {
        Some(u) => Some(u@),
        None => None,
    }
}

/// The value of an optional pair of tokens.
pub open spec fn pair_view(pair: Option<NewTokens>) -> Option<TokenPair> {
    match pair {
        Some(p) => Some(p@),
        None => None,
    }
}

/// The value of the result of a refresh.
pub open spec fn tokens_view(result: Result<NewTokens, AuthError>) -> Result<TokenPair, AuthError> {
    match result {
        Ok(p) => Ok(p@),
        Err(e) => Err(e),
    }
}

/// The value of the result of a login.
pub open spec fn session_view(result: Result<UserLoggedIn, AuthError>) -> Result<
    UserLoggedInView,
    AuthError,
> {
    match result {
        Ok(s) => Ok(s@),
        Err(e) => Err(e),
    }
}

/// The value of the result of a registration.
pub open spec fn registration_view(result: Result<NewUser, AuthError>) -> Result<
    NewUserView,
    AuthError,
> {
    match result {
        Ok(u) => Ok(u@),
        Err(e) => Err(e),
    }
}

/// The value of the result of a logout.
pub open spec fn account_view(result: Result<User, AuthError>) -> Result<UserView, AuthError> {
    match result {
        Ok(u) => Ok(u@),
        Err(e) => Err(e),
    }
}

/// The value of what the hasher returned for a new password.
pub open spec fn hash_view(hash: Result<String, HashingError>) -> Result<Seq<char>, HashingError> {
    match hash {
        Ok(h) => Ok(h@),
        Err(e) => Err(e),
    }
}

impl View for User {
    type V = UserView;

    open spec fn view(&self) -> UserView {
        UserView {
            id: self.id,
            name: self.name@,
            email: self.email@,
            password: self.password@,
            refresh_token: text_view(self.refresh_token),
        }
    }
}

impl View for NewUser {
    type V = NewUserView;

    open spec fn view(&self) -> NewUserView {
        NewUserView { name: self.name@, email: self.email@, password: self.password@ }
    }
}

impl View for UserLoggedIn {
    type V = UserLoggedInView;

    open spec fn view(&self) -> UserLoggedInView {
        UserLoggedInView {
            name: self.name@,
            email: self.email@,
            jwt: self.jwt@,
            refresh_token: text_view(self.refresh_token),
        }
    }
}

impl View for NewTokens {
    type V = TokenPair;

    open spec fn view(&self) -> TokenPair {
        TokenPair { access_token: self.access_token@, refresh_token: self.refresh_token@ }
    }
}

impl Clone for User {
    fn clone(&self) -> (copy: Self)
        ensures
            copy@ == self@,
    {
        let refresh_token = match &self.refresh_token {
            Some(t) => Some(t.clone()),
            None => None,
        };
        User {
            id: self.id,
            name: self.name.clone(),
            email: self.email.clone(),
            password: self.password.clone(),
            refresh_token,
        }
    }
}

impl Clone for UserLoggedIn {
    fn clone(&self) -> (copy: Self)
        ensures
            copy@ == self@,
    {
        let refresh_token = match &self.refresh_token {
            Some(t) => Some(t.clone()),
            None => None,
        };
        UserLoggedIn {
            name: self.name.clone(),
            email: self.email.clone(),
            jwt: self.jwt.clone(),
            refresh_token,
        }
    }
}

impl Clone for NewTokens {
    fn clone(&self) -> (copy: Self)
        ensures
            copy@ == self@,
    {
        NewTokens {
            refresh_token: self.refresh_token.clone(),
            access_token: self.access_token.clone(),
        }
    }
}

/// The pair of tokens that is issued at `now`: an access token and a refresh
/// token, each with its configured lifetime. `None` where either cannot be
/// issued.
pub open spec fn minted_pair(config: Config, now: u64) -> Option<TokenPair> {
    match (
        minted(now, config.access_ttl, config.jwt_secret_key@),
        minted(now, config.refresh_ttl, config.jwt_secret_key@),
    ) {
        (Some(access_token), Some(refresh_token)) => Some(TokenPair { access_token, refresh_token }),
        _ => None,
    }
}

/// What storing a pair of tokens for account `id` gives: the pair and the
/// store with the new refresh token in place of the old one; or the failure,
/// and the store as it was.
pub open spec fn rotate_spec(s: Seq<UserView>, id: i32, pair: Option<TokenPair>) -> (
    Result<TokenPair, AuthError>,
    Seq<UserView>,
) {
    match pair {
        None => (Err(AuthError::SigningUnavailable), s),
        Some(p) => if account_by_id(s, id) is Some {
            (Ok(p), with_token(s, id, Some(p.refresh_token)))
        } else {
            (Err(AuthError::AccountNotFound), s)
        },
    }
}

/// What opening a session for an account gives, once the tokens are issued.
pub open spec fn open_session_spec(s: Seq<UserView>, account: UserView, pair: Option<TokenPair>) -> (
    Result<UserLoggedInView, AuthError>,
    Seq<UserView>,
) {
    match rotate_spec(s, account.id, pair).0 {
        Ok(p) => (
            Ok(
                UserLoggedInView {
                    name: account.name,
                    email: account.email,
                    jwt: p.access_token,
                    refresh_token: Some(p.refresh_token),
                },
            ),
            rotate_spec(s, account.id, pair).1,
        ),
        Err(e) => (Err(e), s),
    }
}

/// What logging in to a known account gives, for a report of the hasher on
/// the password.
pub open spec fn handle_login_spec(
    s: Seq<UserView>,
    account: UserView,
    report: Result<bool, HashingError>,
    config: Config,
    now: u64,
) -> (Result<UserLoggedInView, AuthError>, Seq<UserView>) {
    if accepted(report) {
        open_session_spec(s, account, minted_pair(config, now))
    } else {
        (Err(AuthError::InvalidCredentials), s)
    }
}

/// What a login by name gives. An unknown name and a wrong password are the
/// same failure.
pub open spec fn login_spec(
    s: Seq<UserView>,
    name: Seq<char>,
    report: Result<bool, HashingError>,
    config: Config,
    now: u64,
) -> (Result<UserLoggedInView, AuthError>, Seq<UserView>) {
    match account_by_name(s, name) {
        Some(account) => handle_login_spec(s, account, report, config, now),
        None => (Err(AuthError::InvalidCredentials), s),
    }
}

/// What a logout gives: the account with its session cleared.
pub open spec fn logout_spec(s: Seq<UserView>, id: i32) -> (
    Result<UserView, AuthError>,
    Seq<UserView>,
) {
    match account_by_id(s, id) {
        Some(account) => (Ok(retokened(account, None)), with_token(s, id, None)),
        None => (Err(AuthError::AccountNotFound), s),
    }
}

/// Whether a presented refresh token may be exchanged: it verifies, and it is
/// the very token stored for the account.
pub open spec fn refresh_permitted_spec(
    verdict: Result<Claims, TokenError>,
    stored: Option<Seq<char>>,
    presented: Seq<char>,
) -> bool {
    verdict is Ok && stored == Some(presented)
}

/// What checking a presented refresh token against the store gives.
pub open spec fn validate_refresh_token_spec(
    s: Seq<UserView>,
    presented: Seq<char>,
    id: i32,
    secret: Seq<char>,
    now: u64,
) -> Result<bool, AuthError> {
    match account_by_id(s, id) {
        None => Err(AuthError::AccountNotFound),
        Some(account) => if account.refresh_token == Some(presented) {
            Ok(token_verdict(presented, secret, now) is Ok)
        } else {
            Err(AuthError::RefreshRejected)
        },
    }
}

/// What a refresh gives: a new pair, with the new refresh token stored in
/// place of the presented one; or `RefreshRejected`, with nothing issued and
/// nothing stored.
pub open spec fn refresh_spec(
    s: Seq<UserView>,
    id: i32,
    presented: Seq<char>,
    config: Config,
    now: u64,
) -> (Result<TokenPair, AuthError>, Seq<UserView>) {
    if refresh_permitted_spec(
        token_verdict(presented, config.jwt_secret_key@, now),
        stored_token(s, id),
        presented,
    ) {
        rotate_spec(s, id, minted_pair(config, now))
    } else {
        (Err(AuthError::RefreshRejected), s)
    }
}

/// What a registration gives, where `next_id` is the id that the store hands
/// out next.
pub open spec fn create_spec(
    s: Seq<UserView>,
    next_id: int,
    user: NewUserView,
    hash: Result<Seq<char>, HashingError>,
) -> (Result<NewUserView, AuthError>, Seq<UserView>) {
    if email_taken(s, user.email) {
        (Err(AuthError::EmailInUse), s)
    } else {
        match hash {
            Err(_) => (Err(AuthError::HashingFailure), s),
            Ok(h) => if next_id > i32::MAX {
                (Err(AuthError::StoreUnavailable), s)
            } else {
                (
                    Ok(NewUserView { name: user.name, email: user.email, password: h }),
                    s.push(
                        UserView {
                            id: next_id as i32,
                            name: user.name,
                            email: user.email,
                            password: h,
                            refresh_token: None,
                        },
                    ),
                )
            },
        }
    }
}

/// Each token of the pair carries the expiry that its lifetime gives it when
/// it is issued at `now`.
pub open spec fn carries_expiries(pair: TokenPair, config: Config, now: u64) -> bool {
    &&& jwt_decoding(pair.access_token, config.jwt_secret_key@) == Some(
        (now + config.access_ttl) as u64,
    )
    &&& jwt_decoding(pair.refresh_token, config.jwt_secret_key@) == Some(
        (now + config.refresh_ttl) as u64,
    )
}

impl NewTokens {
    /// Issues an access token and a refresh token at `now`.
    pub fn issue(config: &Config, now: u64) -> (pair: Option<NewTokens>)
        ensures
            pair_view(pair) == minted_pair(*config, now),
            pair matches Some(p) ==> carries_expiries(p@, *config, now),
    {
        let access = issue_token(now, config.access_ttl, config.jwt_secret_key.as_str());
        let refresh = issue_token(now, config.refresh_ttl, config.jwt_secret_key.as_str());
        match (access, refresh) {
            (Some(access_token), Some(refresh_token)) => Some(
                NewTokens { refresh_token, access_token },
            ),
            _ => None,
        }
    }
}

impl User {
    /// Every account in the store.
    pub fn get_all(store: &SessionStore) -> (users: Vec<User>)
        ensures
            users@.map_values(|u: User| u@) == store@,
    {
        store.all()
    }

    /// The account with the given id.
    pub fn get(store: &SessionStore, user_id: i32) -> (user: Option<User>)
        ensures
            user_view(user) == account_by_id(store@, user_id),
    {
        store.find_by_id(user_id)
    }

    /// Registers an account. `password_hash` is what the hasher returned for
    /// `user.password`. The email must be new; the account gets the next id
    /// of the store and starts without a session.
    pub fn create(
        store: &mut SessionStore,
        user: NewUser,
        password_hash: Result<String, HashingError>,
    ) -> (created: Result<NewUser, AuthError>)
        ensures
            registration_view(created) == create_spec(
                old(store)@,
                old(store).next_id(),
                user@,
                hash_view(password_hash),
            ).0,
            final(store)@ == create_spec(
                old(store)@,
                old(store).next_id(),
                user@,
                hash_view(password_hash),
            ).1,
            created matches Ok(account) ==> grows_by(
                old(store)@,
                final(store)@,
                UserView {
                    id: old(store).next_id() as i32,
                    name: account.name@,
                    email: account.email@,
                    password: account.password@,
                    refresh_token: None,
                },
            ),
            created is Err ==> final(store)@ == old(store)@,
            final(store).next_id() == if created is Ok {
                old(store).next_id() + 1
            } else {
                old(store).next_id()
            },
    {
        if store.email_in_use(user.email.as_str()) {
            return Err(AuthError::EmailInUse);
        }
        match password_hash {
            Err(_) => Err(AuthError::HashingFailure),
            Ok(hash) => {
                match store.add(user.name.clone(), user.email.clone(), hash.clone()) {
                    Some(_) => Ok(NewUser { name: user.name, email: user.email, password: hash }),
                    None => Err(AuthError::StoreUnavailable),
                }
            },
        }
    }

    /// Stores the refresh token of a freshly issued pair for account
    /// `user_id`, replacing the token that was stored before. Nothing is
    /// stored where no pair could be issued or the account does not exist.
    pub fn rotate(store: &mut SessionStore, user_id: i32, pair: Option<NewTokens>) -> (rotated:
        Result<NewTokens, AuthError>)
        ensures
            final(store).next_id() == old(store).next_id(),
            tokens_view(rotated) == rotate_spec(old(store)@, user_id, pair_view(pair)).0,
            final(store)@ == rotate_spec(old(store)@, user_id, pair_view(pair)).1,
            rotated matches Ok(p) ==> token_change(
                old(store)@,
                final(store)@,
                user_id,
                Some(p.refresh_token@),
            ) && stored_token(final(store)@, user_id) == Some(p.refresh_token@),
            rotated is Err ==> final(store)@ == old(store)@,
    {
        match pair {
            None => Err(AuthError::SigningUnavailable),
            Some(tokens) => {
                if store.set_refresh_token(user_id, tokens.refresh_token.clone()) {
                    Ok(tokens)
                } else {
                    Err(AuthError::AccountNotFound)
                }
            },
        }
    }

    /// Opens a session for an account once its tokens are issued: stores the
    /// refresh token and returns both tokens with the public account fields.
    pub fn open_session(
        existing_user: User,
        pair: Option<NewTokens>,
        store: &mut SessionStore,
    ) -> (session: Result<UserLoggedIn, AuthError>)
        ensures
            final(store).next_id() == old(store).next_id(),
            session_view(session) == open_session_spec(
                old(store)@,
                existing_user@,
                pair_view(pair),
            ).0,
            final(store)@ == open_session_spec(old(store)@, existing_user@, pair_view(pair)).1,
            session matches Ok(s) ==> s.refresh_token is Some && token_change(
                old(store)@,
                final(store)@,
                existing_user.id,
                text_view(s.refresh_token),
            ) && stored_token(final(store)@, existing_user.id) == text_view(s.refresh_token),
            session is Err ==> final(store)@ == old(store)@,
    {
        match User::rotate(store, existing_user.id, pair) {
            Ok(tokens) => Ok(
                UserLoggedIn {
                    name: existing_user.name,
                    email: existing_user.email,
                    jwt: tokens.access_token,
                    refresh_token: Some(tokens.refresh_token),
                },
            ),
            Err(e) => Err(e),
        }
    }

    /// Logs a known account in. `password_is_valid` is what the hasher
    /// reported on the presented password against `existing_user.password`.
    ///
    /// Anything but a clean match is `InvalidCredentials`. On a match a
    /// refresh token and an access token are issued at `now`, the refresh
    /// token is stored in place of any earlier one, and both are returned
    /// with the account's name and email. The store changes only on success.
    pub fn handle_login(
        existing_user: User,
        password_is_valid: Result<bool, HashingError>,
        store: &mut SessionStore,
        config: &Config,
        now: u64,
    ) -> (session: Result<UserLoggedIn, AuthError>)
        ensures
            final(store).next_id() == old(store).next_id(),
            session_view(session) == handle_login_spec(
                old(store)@,
                existing_user@,
                password_is_valid,
                *config,
                now,
            ).0,
            final(store)@ == handle_login_spec(
                old(store)@,
                existing_user@,
                password_is_valid,
                *config,
                now,
            ).1,
            session matches Ok(s) ==> carries_expiries(
                TokenPair { access_token: s.jwt@, refresh_token: s.refresh_token.unwrap()@ },
                *config,
                now,
            ),
            session matches Ok(s) ==> s.refresh_token is Some && token_change(
                old(store)@,
                final(store)@,
                existing_user.id,
                text_view(s.refresh_token),
            ) && stored_token(final(store)@, existing_user.id) == text_view(s.refresh_token),
            session is Err ==> final(store)@ == old(store)@,
    {
        if !password_accepted(&password_is_valid) {
            return Err(AuthError::InvalidCredentials);
        }
        let pair = NewTokens::issue(config, now);
        User::open_session(existing_user, pair, store)
    }

    /// Logs in by name. `password_is_valid` is what the hasher reported on
    /// `user.password` against the hash of the account that
    /// [`SessionStore::find_by_name`] returns for `user.name`; it is not
    /// looked at where there is no such account.
    pub fn login(
        store: &mut SessionStore,
        user: &UserLogin,
        password_is_valid: Result<bool, HashingError>,
        config: &Config,
        now: u64,
    ) -> (session: Result<UserLoggedIn, AuthError>)
        ensures
            final(store).next_id() == old(store).next_id(),
            session_view(session) == login_spec(
                old(store)@,
                user.name@,
                password_is_valid,
                *config,
                now,
            ).0,
            final(store)@ == login_spec(
                old(store)@,
                user.name@,
                password_is_valid,
                *config,
                now,
            ).1,
            session matches Ok(s) ==> carries_expiries(
                TokenPair { access_token: s.jwt@, refresh_token: s.refresh_token.unwrap()@ },
                *config,
                now,
            ),
            session matches Ok(s) ==> {
                &&& s.refresh_token is Some
                &&& account_by_name(old(store)@, user.name@) matches Some(account)
                &&& token_change(
                    old(store)@,
                    final(store)@,
                    account.id,
                    text_view(s.refresh_token),
                )
                &&& stored_token(final(store)@, account.id) == text_view(s.refresh_token)
            },
            session is Err ==> final(store)@ == old(store)@,
    {
        match store.find_by_name(user.name.as_str()) {
            Some(existing_user) => User::handle_login(
                existing_user,
                password_is_valid,
                store,
                config,
                now,
            ),
            None => Err(AuthError::InvalidCredentials),
        }
    }

    /// Logs an account out: clears its stored refresh token and returns the
    /// account as it then stands. Logging out twice succeeds twice.
    pub fn logout(store: &mut SessionStore, user: UserLogout) -> (cleared: Result<User, AuthError>)
        ensures
            final(store).next_id() == old(store).next_id(),
            account_view(cleared) == logout_spec(old(store)@, user.id).0,
            final(store)@ == logout_spec(old(store)@, user.id).1,
            cleared is Ok == account_by_id(old(store)@, user.id) is Some,
            token_change(old(store)@, final(store)@, user.id, None),
            stored_token(final(store)@, user.id) is None,
            cleared is Err ==> final(store)@ == old(store)@,
    {
        if store.clear(user.id) {
            match store.find_by_id(user.id) {
                Some(account) => Ok(account),
                None => Err(AuthError::AccountNotFound),
            }
        } else {
            Err(AuthError::AccountNotFound)
        }
    }

    /// Issues a new pair of tokens at `now` for account `user_id` and stores
    /// the new refresh token in place of the old one.
    pub fn reauth(store: &mut SessionStore, user_id: i32, config: &Config, now: u64) -> (rotated:
        Result<NewTokens, AuthError>)
        ensures
            final(store).next_id() == old(store).next_id(),
            tokens_view(rotated) == rotate_spec(old(store)@, user_id, minted_pair(*config, now)).0,
            final(store)@ == rotate_spec(old(store)@, user_id, minted_pair(*config, now)).1,
            rotated matches Ok(p) ==> carries_expiries(p@, *config, now),
            rotated matches Ok(p) ==> token_change(
                old(store)@,
                final(store)@,
                user_id,
                Some(p.refresh_token@),
            ) && stored_token(final(store)@, user_id) == Some(p.refresh_token@),
            rotated is Err ==> final(store)@ == old(store)@,
    {
        let pair = NewTokens::issue(config, now);
        User::rotate(store, user_id, pair)
    }

    /// Decides whether a presented refresh token may be exchanged, from the
    /// verdict on it and the token stored for the account.
    pub fn refresh_permitted(
        verdict: &Result<Claims, TokenError>,
        stored: &Option<String>,
        presented: &str,
    ) -> (permitted: bool)
        ensures
            permitted == refresh_permitted_spec(*verdict, text_view(*stored), presented@),
    {
        match stored {
            Some(current) => verdict.is_ok() && *current == presented.to_owned(),
            None => false,
        }
    }

    /// Checks a presented refresh token against the store: `AccountNotFound`
    /// where the account does not exist, `RefreshRejected` where the token is
    /// not the one stored for it, and otherwise whether the token verifies
    /// at `now`.
    pub fn validate_refresh_token(
        store: &SessionStore,
        refresh_token: &str,
        user_id: i32,
        config: &Config,
        now: u64,
    ) -> (valid: Result<bool, AuthError>)
        ensures
            valid == validate_refresh_token_spec(
                store@,
                refresh_token@,
                user_id,
                config.jwt_secret_key@,
                now,
            ),
    {
        match store.find_by_id(user_id) {
            None => Err(AuthError::AccountNotFound),
            Some(account) => {
                let matches = match &account.refresh_token {
                    Some(current) => *current == refresh_token.to_owned(),
                    None => false,
                };
                if matches {
                    Ok(verify_token(refresh_token, config.jwt_secret_key.as_str(), now).is_ok())
                } else {
                    Err(AuthError::RefreshRejected)
                }
            },
        }
    }

    /// Exchanges a refresh token for a new pair of tokens.
    ///
    /// The presented token must verify at `now` and must be the very token
    /// stored for the account; a token that was superseded or cleared is
    /// rejected even while its signature and expiry are still good. Either
    /// failure is `RefreshRejected`, and then nothing is issued or stored. On
    /// success the new refresh token replaces the presented one in the store.
    pub fn refresh(
        store: &mut SessionStore,
        user_id: i32,
        presented: &str,
        config: &Config,
        now: u64,
    ) -> (rotated: Result<NewTokens, AuthError>)
        ensures
            final(store).next_id() == old(store).next_id(),
            tokens_view(rotated) == refresh_spec(old(store)@, user_id, presented@, *config, now).0,
            final(store)@ == refresh_spec(old(store)@, user_id, presented@, *config, now).1,
            rotated matches Ok(p) ==> carries_expiries(p@, *config, now),
            rotated matches Ok(p) ==> token_change(
                old(store)@,
                final(store)@,
                user_id,
                Some(p.refresh_token@),
            ) && stored_token(final(store)@, user_id) == Some(p.refresh_token@),
            rotated is Err ==> final(store)@ == old(store)@,
            stored_token(old(store)@, user_id) != Some(presented@) ==> rotated matches Err(
                AuthError::RefreshRejected,
            ),
            token_verdict(presented@, config.jwt_secret_key@, now) is Err ==> rotated matches Err(
                AuthError::RefreshRejected,
            ),
    {
        let verdict = verify_token(presented, config.jwt_secret_key.as_str(), now);
        let stored = store.get_refresh_token(user_id);
        if User::refresh_permitted(&verdict, &stored, presented) {
            User::reauth(store, user_id, config, now)
        } else {
            Err(AuthError::RefreshRejected)
        }
    }
}

} // verus!
