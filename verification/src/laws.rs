//! What holds of the session protocol as a whole, proved from the
//! definitions that the contracts of the operations use.

use vstd::prelude::*;
use crate::config::Config;
use crate::errors::{AuthError, HashingError, TokenError};
use crate::middleware::auth::{GateDecision, Rejection, gate_spec};
use crate::models::store::{
    account_by_name,
    ids,
    lemma_clear_idempotent,
    lemma_set_then_get,
    lemma_with_token_keeps_ids,
    stored_token,
};
use crate::models::user::{
    TokenPair,
    UserView,
    carries_expiries,
    login_spec,
    logout_spec,
    minted_pair,
    refresh_spec,
};
use crate::modules::jwt::{Claims, jwt_decoding, token_verdict};

verus! {

/// A token whose signature is good is accepted at every time before its
/// expiry and is `Expired` from its expiry on; one whose signature or
/// structure is bad is `Malformed` at every time.
pub proof fn lemma_verdict_by_time(token: Seq<char>, secret: Seq<char>, now: u64)
    ensures
        jwt_decoding(token, secret) matches Some(exp) ==> (now < exp ==> token_verdict(
            token,
            secret,
            now,
        ) == Ok::<Claims, TokenError>(Claims { exp })),
        jwt_decoding(token, secret) matches Some(exp) ==> (now >= exp ==> token_verdict(
            token,
            secret,
            now,
        ) == Err::<Claims, TokenError>(TokenError::Expired)),
        jwt_decoding(token, secret) is None ==> token_verdict(token, secret, now) == Err::<
            Claims,
            TokenError,
        >(TokenError::Malformed),
{
}

/// A successful login stores the refresh token it returns, whatever was
/// stored before. From then on any other refresh token presented for that
/// account, such as the one an earlier login returned, is rejected, at
/// whatever time it is presented, and the store stays as the login left it.
pub proof fn lemma_login_supersedes(
    s: Seq<UserView>,
    name: Seq<char>,
    report: Result<bool, HashingError>,
    config: Config,
    now: u64,
    earlier_token: Seq<char>,
    later: u64,
)
    requires
        login_spec(s, name, report, config, now).0 is Ok,
    ensures
        ({
            let session = login_spec(s, name, report, config, now).0->Ok_0;
            let after = login_spec(s, name, report, config, now).1;
            &&& account_by_name(s, name) matches Some(account)
            &&& session.refresh_token is Some
            &&& stored_token(after, account.id) == session.refresh_token
            &&& Some(earlier_token) != session.refresh_token ==> refresh_spec(
                after,
                account.id,
                earlier_token,
                config,
                later,
            ) == (Err::<TokenPair, AuthError>(AuthError::RefreshRejected), after)
        }),
{
    let account = account_by_name(s, name).unwrap();
    let pair = minted_pair(config, now).unwrap();
    lemma_set_then_get(s, account.id, Some(pair.refresh_token));
}

/// A refresh token that is not the one currently stored for the account is
/// rejected, even where its signature is good and it has not expired; then
/// nothing is stored.
pub proof fn lemma_superseded_token_rejected(
    s: Seq<UserView>,
    id: i32,
    presented: Seq<char>,
    config: Config,
    now: u64,
)
    requires
        stored_token(s, id) != Some(presented),
    ensures
        refresh_spec(s, id, presented, config, now) == (
            Err::<TokenPair, AuthError>(AuthError::RefreshRejected),
            s,
        ),
{
}

/// A refresh token that does not verify is rejected, even where it is the
/// one stored for the account; then nothing is stored.
pub proof fn lemma_unverified_token_rejected(
    s: Seq<UserView>,
    id: i32,
    presented: Seq<char>,
    config: Config,
    now: u64,
)
    requires
        token_verdict(presented, config.jwt_secret_key@, now) is Err,
    ensures
        refresh_spec(s, id, presented, config, now) == (
            Err::<TokenPair, AuthError>(AuthError::RefreshRejected),
            s,
        ),
{
}

/// A successful refresh rotates: the presented token was the stored one, the
/// new refresh token is stored in its place, and the presented token, unless
/// the new one equals it, is rejected from then on.
pub proof fn lemma_refresh_rotates(
    s: Seq<UserView>,
    id: i32,
    presented: Seq<char>,
    config: Config,
    now: u64,
    later: u64,
)
    requires
        refresh_spec(s, id, presented, config, now).0 is Ok,
    ensures
        ({
            let pair = refresh_spec(s, id, presented, config, now).0->Ok_0;
            let after = refresh_spec(s, id, presented, config, now).1;
            &&& stored_token(s, id) == Some(presented)
            &&& stored_token(after, id) == Some(pair.refresh_token)
            &&& pair.refresh_token != presented ==> refresh_spec(
                after,
                id,
                presented,
                config,
                later,
            ) == (Err::<TokenPair, AuthError>(AuthError::RefreshRejected), after)
        }),
{
    let pair = minted_pair(config, now).unwrap();
    lemma_set_then_get(s, id, Some(pair.refresh_token));
}

/// Two tokens that carry different expiries under one secret are different
/// tokens.
pub proof fn lemma_expiry_tells_tokens_apart(first: Seq<char>, second: Seq<char>, secret: Seq<char>)
    ensures
        jwt_decoding(first, secret) != jwt_decoding(second, secret) ==> first != second,
{
}

/// Rotation gives a new token: where a refresh succeeds at `now` with tokens
/// that carry their expiries, and the presented token does not itself expire
/// a refresh lifetime after `now`, as no token issued at an earlier second
/// with that lifetime does, the new refresh token differs from the presented
/// one, and the presented one is rejected from then on.
pub proof fn lemma_rotation_gives_new_token(
    s: Seq<UserView>,
    id: i32,
    presented: Seq<char>,
    config: Config,
    now: u64,
    later: u64,
)
    requires
        refresh_spec(s, id, presented, config, now).0 is Ok,
    ensures
        ({
            let pair = refresh_spec(s, id, presented, config, now).0->Ok_0;
            let after = refresh_spec(s, id, presented, config, now).1;
            carries_expiries(pair, config, now) && jwt_decoding(presented, config.jwt_secret_key@)
                != Some((now + config.refresh_ttl) as u64) ==> {
                &&& pair.refresh_token != presented
                &&& stored_token(after, id) == Some(pair.refresh_token)
                &&& refresh_spec(after, id, presented, config, later) == (
                    Err::<TokenPair, AuthError>(AuthError::RefreshRejected),
                    after,
                )
            }
        }),
{
    lemma_refresh_rotates(s, id, presented, config, now, later);
}

/// After a logout every refresh token presented for the account is rejected,
/// the one that was valid until then included, and the store stays cleared.
pub proof fn lemma_logout_then_refresh(
    s: Seq<UserView>,
    id: i32,
    presented: Seq<char>,
    config: Config,
    now: u64,
)
    ensures
        stored_token(logout_spec(s, id).1, id) is None,
        refresh_spec(logout_spec(s, id).1, id, presented, config, now) == (
            Err::<TokenPair, AuthError>(AuthError::RefreshRejected),
            logout_spec(s, id).1,
        ),
{
    lemma_set_then_get(s, id, None);
    ids(s).index_of_first_ensures(id);
}

/// Logging out twice succeeds twice and leaves the store as the first logout
/// left it.
pub proof fn lemma_logout_idempotent(s: Seq<UserView>, id: i32)
    ensures
        logout_spec(s, id).0 is Ok ==> logout_spec(logout_spec(s, id).1, id).0 is Ok,
        logout_spec(logout_spec(s, id).1, id).1 == logout_spec(s, id).1,
{
    lemma_with_token_keeps_ids(s, id, None);
    lemma_clear_idempotent(s, id);
    ids(s).index_of_first_ensures(id);
}

/// The guard admits every request to a public path, whatever its header
/// holds and whatever the time.
pub proof fn lemma_public_path_admitted(
    public_paths: Seq<Seq<char>>,
    secret: Seq<char>,
    path: Seq<char>,
    authorization: Option<Seq<char>>,
    now: u64,
)
    requires
        public_paths.contains(path),
    ensures
        gate_spec(public_paths, secret, path, authorization, now) == GateDecision::Admit,
{
}

/// On a protected path the guard turns away a request without a header for
/// missing credentials.
pub proof fn lemma_missing_header_rejected(
    public_paths: Seq<Seq<char>>,
    secret: Seq<char>,
    path: Seq<char>,
    now: u64,
)
    requires
        !public_paths.contains(path),
    ensures
        gate_spec(public_paths, secret, path, None, now) == GateDecision::Unauthorized(
            Rejection::MissingCredentials,
        ),
{
}

/// On a protected path the guard turns away a request whose token is
/// expired or malformed for an invalid token.
pub proof fn lemma_invalid_token_rejected(
    public_paths: Seq<Seq<char>>,
    secret: Seq<char>,
    path: Seq<char>,
    token: Seq<char>,
    now: u64,
)
    requires
        !public_paths.contains(path),
        token_verdict(token, secret, now) is Err,
    ensures
        gate_spec(public_paths, secret, path, Some(token), now) == GateDecision::Unauthorized(
            Rejection::InvalidToken,
        ),
{
}

/// On a protected path the guard admits a request whose token verifies: one
/// with a good signature whose expiry lies ahead.
pub proof fn lemma_valid_token_admitted(
    public_paths: Seq<Seq<char>>,
    secret: Seq<char>,
    path: Seq<char>,
    token: Seq<char>,
    now: u64,
)
    requires
        token_verdict(token, secret, now) is Ok,
    ensures
        gate_spec(public_paths, secret, path, Some(token), now) == GateDecision::Admit,
{
}

/// An access token that carries its expiry opens every protected path of a
/// guard with the same secret for as long as its lifetime lasts, and is
/// turned away as invalid from its expiry on.
pub proof fn lemma_access_token_at_the_guard(
    pair: TokenPair,
    config: Config,
    issued: u64,
    public_paths: Seq<Seq<char>>,
    path: Seq<char>,
    now: u64,
)
    requires
        carries_expiries(pair, config, issued),
        issued + config.access_ttl <= u64::MAX,
        !public_paths.contains(path),
    ensures
        gate_spec(public_paths, config.jwt_secret_key@, path, Some(pair.access_token), now) == if now
            < issued + config.access_ttl {
            GateDecision::Admit
        } else {
            GateDecision::Unauthorized(Rejection::InvalidToken)
        },
{
}

} // verus!
