//! The laws of the service, stated over the postcondition predicates of the
//! operations and proved once and for all: registration is unrepeatable per
//! username and email, tokens from registration and login verify to the
//! right subject while they live, failed logins are indistinguishable, and
//! a token's validity window is exactly its lifetime.

use vstd::prelude::*;

use crate::errors::AuthError;
use crate::password::{bcrypt_hash_wf, bcrypt_matches};
use crate::service::{
    login_post, register_post, valid_registration, verify_post, AuthResponse,
};
use crate::store::{has_email, has_username, user_by_username, username_index, UserV};
use crate::token::{token_expiry, token_of, Claims, TOKEN_LIFETIME_SECONDS};

verus! {

/// Law: registration succeeds at most once per username and per email.  If
/// one registration succeeded, a second one that reuses its username or its
/// email — run against the store the first one left — fails with
/// `UserExists` and leaves the store unchanged.
pub proof fn lemma_register_succeeds_once(
    s0: Seq<UserV>,
    s1: Seq<UserV>,
    s2: Seq<UserV>,
    secret1: Seq<char>,
    secret2: Seq<char>,
    username1: Seq<char>,
    email1: Seq<char>,
    password1: Seq<char>,
    now1: u64,
    r1: Result<AuthResponse, AuthError>,
    resp1: AuthResponse,
    username2: Seq<char>,
    email2: Seq<char>,
    password2: Seq<char>,
    now2: u64,
    r2: Result<AuthResponse, AuthError>,
)
    requires
        register_post(s0, s1, secret1, username1, email1, password1, now1, r1),
        r1 == Ok::<AuthResponse, AuthError>(resp1),
        register_post(s1, s2, secret2, username2, email2, password2, now2, r2),
        valid_registration(username2, email2, password2),
        username2 == username1 || email2 == email1,
    ensures
        r2 == Err::<AuthResponse, AuthError>(AuthError::UserExists),
        s2 == s1,
{
    let h = choose|h: Seq<char>|
        #[trigger] bcrypt_matches(password1, h) && bcrypt_hash_wf(h) && s1 == s0.push(
            UserV {
                id: resp1.user.id@,
                username: username1,
                email: email1,
                password_hash: h,
                created_at: now1,
                updated_at: now1,
            },
        );
    assert(s1[s0.len() as int].username == username1);
    assert(s1[s0.len() as int].email == email1);
    assert(has_username(s1, username1));
    assert(has_email(s1, email1));
}

/// Law: a registered user can log in.  After a successful registration, a
/// login against the store it left, with the same username and password and
/// at any time whose expiration instant is representable, succeeds, and its
/// token is bound to the identifier the registration returned.
pub proof fn lemma_register_then_login_succeeds(
    s0: Seq<UserV>,
    s1: Seq<UserV>,
    secret: Seq<char>,
    username: Seq<char>,
    email: Seq<char>,
    password: Seq<char>,
    now1: u64,
    r1: Result<AuthResponse, AuthError>,
    resp1: AuthResponse,
    now2: u64,
    r2: Result<AuthResponse, AuthError>,
)
    requires
        register_post(s0, s1, secret, username, email, password, now1, r1),
        r1 == Ok::<AuthResponse, AuthError>(resp1),
        login_post(s1, secret, username, password, now2, r2),
        now2 + TOKEN_LIFETIME_SECONDS <= u64::MAX,
    ensures
        r2 matches Ok(resp2) && resp2.user.id@ == resp1.user.id@ && resp2.token@ == token_of(
            secret,
            resp1.user.id@,
            token_expiry(now2),
        ),
{
    let h = choose|h: Seq<char>|
        #[trigger] bcrypt_matches(password, h) && bcrypt_hash_wf(h) && s1 == s0.push(
            UserV {
                id: resp1.user.id@,
                username,
                email,
                password_hash: h,
                created_at: now1,
                updated_at: now1,
            },
        );
    let n = s0.len() as int;
    assert(s1[n].username == username);
    assert(has_username(s1, username));
    let k = username_index(s1, username);
    assert(0 <= k < s1.len() && s1[k].username == username);
    if k != n {
        assert(s1[k] == s0[k]);
        assert(has_username(s0, username));
        assert(false);
    }
    assert(user_by_username(s1, username) == s1[n]);
}

/// Law: the token a successful registration returns verifies, before it
/// expires, under the same secret, and its subject is the new user's
/// identifier.
pub proof fn lemma_register_token_verifies(
    s0: Seq<UserV>,
    s1: Seq<UserV>,
    secret: Seq<char>,
    username: Seq<char>,
    email: Seq<char>,
    password: Seq<char>,
    now: u64,
    r: Result<AuthResponse, AuthError>,
    resp: AuthResponse,
    vnow: u64,
    vr: Result<Claims, AuthError>,
)
    requires
        register_post(s0, s1, secret, username, email, password, now, r),
        r == Ok::<AuthResponse, AuthError>(resp),
        verify_post(secret, resp.token@, vnow, vr),
        vnow < token_expiry(now),
    ensures
        vr matches Ok(c) && c.sub@ == resp.user.id@ && c.exp == token_expiry(now),
{
    assert(resp.token@ == token_of(secret, resp.user.id@, token_expiry(now)));
}

/// Law: the token a successful login returns verifies, before it expires,
/// under the same secret, and its subject is the identifier of the stored
/// user carrying the username that logged in.
pub proof fn lemma_login_token_verifies(
    s: Seq<UserV>,
    secret: Seq<char>,
    username: Seq<char>,
    password: Seq<char>,
    now: u64,
    r: Result<AuthResponse, AuthError>,
    resp: AuthResponse,
    vnow: u64,
    vr: Result<Claims, AuthError>,
)
    requires
        login_post(s, secret, username, password, now, r),
        r == Ok::<AuthResponse, AuthError>(resp),
        verify_post(secret, resp.token@, vnow, vr),
        vnow < token_expiry(now),
    ensures
        vr matches Ok(c) && c.sub@ == user_by_username(s, username).id && c.exp == token_expiry(
            now,
        ),
{
    assert(resp.token@ == token_of(secret, user_by_username(s, username).id, token_expiry(now)));
}

/// Law: an unknown username and a wrong password are indistinguishable.
/// Leaving aside an internal failure of hash verification (`HashError`),
/// both failed logins return exactly `InvalidCredentials` — the same error,
/// whether the account exists or not.
pub proof fn lemma_login_rejects_uniformly(
    s: Seq<UserV>,
    secret: Seq<char>,
    unknown_username: Seq<char>,
    password1: Seq<char>,
    now1: u64,
    r1: Result<AuthResponse, AuthError>,
    known_username: Seq<char>,
    wrong_password: Seq<char>,
    now2: u64,
    r2: Result<AuthResponse, AuthError>,
)
    requires
        login_post(s, secret, unknown_username, password1, now1, r1),
        !has_username(s, unknown_username),
        login_post(s, secret, known_username, wrong_password, now2, r2),
        has_username(s, known_username),
        !bcrypt_matches(wrong_password, user_by_username(s, known_username).password_hash),
        r2 != Err::<AuthResponse, AuthError>(AuthError::HashError),
    ensures
        r1 == Err::<AuthResponse, AuthError>(AuthError::InvalidCredentials),
        r2 == Err::<AuthResponse, AuthError>(AuthError::InvalidCredentials),
        r1 == r2,
{
}

/// Law: a token issued at time `t` is accepted at every clock reading in
/// `[t, t + 24h)`, with the subject it was issued for, and is refused at
/// `t + 24h` and at every later reading.
pub proof fn lemma_token_validity_window(
    secret: Seq<char>,
    sub: Seq<char>,
    t: u64,
    now: u64,
    r: Result<Claims, AuthError>,
)
    requires
        t + TOKEN_LIFETIME_SECONDS <= u64::MAX,
        verify_post(secret, token_of(secret, sub, token_expiry(t)), now, r),
    ensures
        t <= now < t + TOKEN_LIFETIME_SECONDS ==> (r matches Ok(c) && c.sub@ == sub && c.exp
            == token_expiry(t)),
        now >= t + TOKEN_LIFETIME_SECONDS ==> r == Err::<Claims, AuthError>(
            AuthError::InvalidToken,
        ),
{
}

} // verus!
