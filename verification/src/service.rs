//! The credential and token service.
//!
//! It owns the user store and the token secret: registration checks
//! uniqueness, hashes the password, persists the new user and issues a
//! token; login verifies a password against the stored hash and issues a
//! fresh token; verification turns a presented token back into claims.
//!
//! Every operation that depends on the clock comes in two forms: one that
//! takes the current time as an argument and carries the exact contract,
//! and one that reads the clock itself and states what holds for whatever
//! reading came back.

use vstd::prelude::*;

use crate::errors::AuthError;
use crate::password::{bcrypt_hash_wf, bcrypt_matches, hash_password, verify_password};
use crate::store::{
    has_email, has_id, has_username, store_wf, user_by_id, user_by_username, User, UserStore, UserV,
};
use crate::token::{
    decode_of, jwt_decode, jwt_encode, token_expiry, token_of, Claims, TOKEN_LIFETIME_SECONDS,
};

verus! {

/// What a client submits to register.
#[derive(Debug)]
pub struct RegisterRequest {
    pub username: String,
    pub email: String,
    pub password: String,
}

/// What a client submits to log in.
#[derive(Debug)]
pub struct LoginRequest {
    pub username: String,
    pub password: String,
}

/// The public view of a user: identifier and profile, never the hash.
#[derive(Debug)]
pub struct UserResponse {
    pub id: String,
    pub username: String,
    pub email: String,
}

/// What a successful registration or login returns.
#[derive(Debug)]
pub struct AuthResponse {
    pub token: String,
    pub user: UserResponse,
}

/// Registration accepts only non-empty username, email and password.
pub open spec fn valid_registration(
    username: Seq<char>,
    email: Seq<char>,
    password: Seq<char>,
) -> bool {
    username.len() > 0 && email.len() > 0 && password.len() > 0
}

/// Relies on `uuid::Uuid::new_v4`, rendered in its hyphenated form of 36
/// characters.  The identifier is drawn from OS randomness, so nothing more
/// is promised of it.
#[verifier::external_body]
fn fresh_id() -> (r: String)
    ensures
        r@.len() == 36,
{
    uuid::Uuid::new_v4().to_string()
}

/// Relies on `chrono::Utc::now`: the current time in seconds since the
/// epoch.  The reading depends on the clock, so nothing is promised of it.
#[verifier::external_body]
pub(crate) fn now_timestamp() -> (r: i64)
{
    chrono::Utc::now().timestamp()
}

/// An owned copy of a user row, field by field.
fn copy_user(u: &User) -> (r: User)
    ensures
        r@ == u@,
{
    User {
        id: u.id.clone(),
        username: u.username.clone(),
        email: u.email.clone(),
        password_hash: u.password_hash.clone(),
        created_at: u.created_at,
        updated_at: u.updated_at,
    }
}

/// What issuing a token for `sub` at time `now` returns: the signed token
/// for `(sub, now + 24h)`.  Signing itself cannot fail, so a token is owed
/// exactly when the expiration instant is representable; the one failure,
/// `TokenError`, is the internal signing failure of an unrepresentable
/// expiry.
pub open spec fn issue_post(
    secret: Seq<char>,
    sub: Seq<char>,
    now: u64,
    r: Result<String, AuthError>,
) -> bool {
    &&& (r is Ok <==> now + TOKEN_LIFETIME_SECONDS <= u64::MAX)
    &&& (r matches Ok(t) ==> t@ == token_of(secret, sub, token_expiry(now)))
    &&& (r is Err ==> r == Err::<String, AuthError>(AuthError::TokenError))
}

/// What verifying `token` at time `now` returns.  Signature and expiration
/// are checked in one step, fail-closed: the only error is `InvalidToken`,
/// an accepted token's expiration lies after `now`, and a token that was
/// issued under this secret is accepted exactly while `now` is before its
/// expiration, with exactly the claims it was issued for.  The outcome is a
/// function of `(secret, token, now)` alone — it follows signature
/// verification (`decode_of`) and the expiration check, so two
/// verifications of one token at one instant agree — and the empty string,
/// which is no token at all, is always refused.
pub open spec fn verify_post(
    secret: Seq<char>,
    token: Seq<char>,
    now: u64,
    r: Result<Claims, AuthError>,
) -> bool {
    &&& (r matches Ok(c) ==> now < c.exp)
    &&& (r is Err ==> r == Err::<Claims, AuthError>(AuthError::InvalidToken))
    &&& match decode_of(secret, token) {
        None => r == Err::<Claims, AuthError>(AuthError::InvalidToken),
        Some(c) => (if now < c.1 {
            r matches Ok(cl) && cl.sub@ == c.0 && cl.exp == c.1
        } else {
            r == Err::<Claims, AuthError>(AuthError::InvalidToken)
        }),
    }
    &&& (token.len() == 0 ==> r == Err::<Claims, AuthError>(AuthError::InvalidToken))
    &&& forall|sub: Seq<char>, exp: u64|
        token == #[trigger] token_of(secret, sub, exp) ==> (if now < exp {
            r matches Ok(c) && c.sub@ == sub && c.exp == exp
        } else {
            r == Err::<Claims, AuthError>(AuthError::InvalidToken)
        })
}

/// What registering `(username, email, password)` at time `now` does to the
/// store and returns.
///
/// Empty fields are refused with `InvalidCredentials`.  A taken username or
/// email is refused with `UserExists`, and with nothing else.  On success a
/// single row is appended, carrying a fresh identifier, a readable hash
/// that matches the password, and both timestamps set to `now`; the
/// response repeats the profile and holds the token for the new
/// identifier.  `HashError` reports a failed random draw while hashing;
/// `TokenError` an expiration instant that does not fit; `DatabaseError`
/// that the storage constraint refused the fresh identifier.  On every
/// error the store is unchanged.
pub open spec fn register_post(
    pre: Seq<UserV>,
    post: Seq<UserV>,
    secret: Seq<char>,
    username: Seq<char>,
    email: Seq<char>,
    password: Seq<char>,
    now: u64,
    r: Result<AuthResponse, AuthError>,
) -> bool {
    &&& (r matches Ok(resp) ==> {
        &&& valid_registration(username, email, password)
        &&& !has_username(pre, username)
        &&& !has_email(pre, email)
        &&& !has_id(pre, resp.user.id@)
        &&& now + TOKEN_LIFETIME_SECONDS <= u64::MAX
        &&& resp.user.username@ == username
        &&& resp.user.email@ == email
        &&& resp.token@ == token_of(secret, resp.user.id@, token_expiry(now))
        &&& post.len() == pre.len() + 1
        &&& has_username(post, username)
        &&& has_email(post, email)
        &&& has_id(post, resp.user.id@)
        &&& exists|h: Seq<char>|
            #[trigger] bcrypt_matches(password, h) && bcrypt_hash_wf(h) && post == pre.push(
                UserV {
                    id: resp.user.id@,
                    username,
                    email,
                    password_hash: h,
                    created_at: now,
                    updated_at: now,
                },
            )
    })
    &&& (r is Err ==> post == pre)
    &&& (!valid_registration(username, email, password) ==> r == Err::<AuthResponse, AuthError>(
        AuthError::InvalidCredentials,
    ))
    &&& (r == Err::<AuthResponse, AuthError>(AuthError::InvalidCredentials)
        ==> !valid_registration(username, email, password))
    &&& (r == Err::<AuthResponse, AuthError>(AuthError::UserExists) <==> valid_registration(
        username,
        email,
        password,
    ) && (has_username(pre, username) || has_email(pre, email)))
    &&& (r is Err ==> r == Err::<AuthResponse, AuthError>(AuthError::InvalidCredentials) || r
        == Err::<AuthResponse, AuthError>(AuthError::UserExists) || r == Err::<
        AuthResponse,
        AuthError,
    >(AuthError::HashError) || r == Err::<AuthResponse, AuthError>(AuthError::TokenError) || r
        == Err::<AuthResponse, AuthError>(AuthError::DatabaseError))
    &&& (r == Err::<AuthResponse, AuthError>(AuthError::HashError) || r == Err::<
        AuthResponse,
        AuthError,
    >(AuthError::TokenError) || r == Err::<AuthResponse, AuthError>(AuthError::DatabaseError)
        ==> valid_registration(username, email, password) && !has_username(pre, username)
        && !has_email(pre, email))
    &&& (r == Err::<AuthResponse, AuthError>(AuthError::TokenError) ==> now
        + TOKEN_LIFETIME_SECONDS > u64::MAX)
}

/// What logging in as `username` with `password` at time `now` returns.
///
/// The outcome is pinned case by case.  An unknown username and a wrong
/// password both end in the one error `InvalidCredentials`.  Success is
/// owed exactly when the username is stored, its hash is readable and the
/// password matches it, and the expiration instant is representable: then
/// the response repeats the stored profile and the token is bound to its
/// identifier.  `HashError` is exactly a stored hash that bcrypt cannot
/// read; `TokenError` is exactly an unrepresentable expiry, which can only
/// follow a correct password.
pub open spec fn login_post(
    s: Seq<UserV>,
    secret: Seq<char>,
    username: Seq<char>,
    password: Seq<char>,
    now: u64,
    r: Result<AuthResponse, AuthError>,
) -> bool {
    let u = user_by_username(s, username);
    &&& (r is Ok <==> has_username(s, username) && bcrypt_hash_wf(u.password_hash)
        && bcrypt_matches(password, u.password_hash) && now + TOKEN_LIFETIME_SECONDS <= u64::MAX)
    &&& (r matches Ok(resp) ==> {
        &&& resp.user.id@ == u.id
        &&& resp.user.username@ == u.username
        &&& resp.user.email@ == u.email
        &&& resp.token@ == token_of(secret, u.id, token_expiry(now))
    })
    &&& (r == Err::<AuthResponse, AuthError>(AuthError::InvalidCredentials) <==> !has_username(
        s,
        username,
    ) || (bcrypt_hash_wf(u.password_hash) && !bcrypt_matches(password, u.password_hash)))
    &&& (r == Err::<AuthResponse, AuthError>(AuthError::HashError) <==> has_username(s, username)
        && !bcrypt_hash_wf(u.password_hash))
    &&& (r == Err::<AuthResponse, AuthError>(AuthError::TokenError) <==> has_username(s, username)
        && bcrypt_hash_wf(u.password_hash) && bcrypt_matches(password, u.password_hash) && now
        + TOKEN_LIFETIME_SECONDS > u64::MAX)
    &&& (r is Err ==> r == Err::<AuthResponse, AuthError>(AuthError::InvalidCredentials) || r
        == Err::<AuthResponse, AuthError>(AuthError::HashError) || r == Err::<
        AuthResponse,
        AuthError,
    >(AuthError::TokenError))
}

/// The credential and token service: the user store and the symmetric
/// secret that signs and checks every token.
pub struct AuthService {
    store: UserStore,
    jwt_secret: String,
}

impl AuthService {
    /// The rows of the user store.
    pub closed spec fn users(&self) -> Seq<UserV> {
        self.store@
    }

    /// The token secret.
    pub closed spec fn secret(&self) -> Seq<char> {
        self.jwt_secret@
    }

    /// The service is well-formed when its store is.
    pub open spec fn wf(&self) -> bool {
        store_wf(self.users())
    }

    /// A service over the given store and secret.
    pub fn new(store: UserStore, jwt_secret: String) -> (s: Self)
        ensures
            s.users() == store@,
            s.secret() == jwt_secret@,
    {
        AuthService { store, jwt_secret }
    }

    /// Builds the claims `{subject: user_id, expiration: now + 24h}` and
    /// signs them into a compact token.
    pub fn issue_token_at(&self, user_id: &str, now: u64) -> (r: Result<String, AuthError>)
        ensures
            issue_post(self.secret(), user_id@, now, r),
    {
        if now > u64::MAX - TOKEN_LIFETIME_SECONDS {
            return Err(AuthError::TokenError);
        }
        let exp = now + TOKEN_LIFETIME_SECONDS;
        match jwt_encode(self.jwt_secret.as_str(), user_id, exp) {
            Some(t) => Ok(t),
            None => {
                proof {
                    assert(false);
                }
                Err(AuthError::TokenError)
            },
        }
    }

    /// Issues a token for `user_id` expiring 24 hours after the clock's
    /// current reading.
    pub fn generate_token(&self, user_id: &str) -> (r: Result<String, AuthError>)
        ensures
            exists|now: u64| #[trigger] issue_post(self.secret(), user_id@, now, r),
    {
        let t = now_timestamp();
        let now: u64 = if t < 0 {
            0
        } else {
            t as u64
        };
        let r = self.issue_token_at(user_id, now);
        proof {
            assert(issue_post(self.secret(), user_id@, now, r));
        }
        r
    }

    /// Parses and verifies `token` — signature and expiration in one step —
    /// against the clock reading `now`.  Fail-closed: any failure is
    /// `InvalidToken`, and no part of an unverified payload is returned.
    pub fn verify_token_at(&self, token: &str, now: u64) -> (r: Result<Claims, AuthError>)
        ensures
            verify_post(self.secret(), token@, now, r),
    {
        match jwt_decode(self.jwt_secret.as_str(), token) {
            None => Err(AuthError::InvalidToken),
            Some((sub, exp)) => {
                if now < exp {
                    Ok(Claims { sub, exp })
                } else {
                    Err(AuthError::InvalidToken)
                }
            },
        }
    }

    /// Verifies `token` against the clock's current reading.
    pub fn verify_token(&self, token: &str) -> (r: Result<Claims, AuthError>)
        ensures
            exists|now: u64| #[trigger] verify_post(self.secret(), token@, now, r),
    {
        let t = now_timestamp();
        let now: u64 = if t < 0 {
            0
        } else {
            t as u64
        };
        let r = self.verify_token_at(token, now);
        proof {
            assert(verify_post(self.secret(), token@, now, r));
        }
        r
    }

    /// Registers a new user at time `now`: checks uniqueness, hashes the
    /// password, issues the token and persists the row, in that order, so
    /// that the store is untouched on every failure.
    pub fn register_at(&mut self, req: &RegisterRequest, now: u64) -> (r: Result<
        AuthResponse,
        AuthError,
    >)
        requires
            old(self).wf(),
        ensures
            final (self).wf(),
            final (self).secret() == old(self).secret(),
            register_post(
                old(self).users(),
                final (self).users(),
                old(self).secret(),
                req.username@,
                req.email@,
                req.password@,
                now,
                r,
            ),
    {
        if req.username.as_str().is_empty() || req.email.as_str().is_empty()
            || req.password.as_str().is_empty() {
            return Err(AuthError::InvalidCredentials);
        }
        if self.store.contains_username_or_email(req.username.as_str(), req.email.as_str()) {
            return Err(AuthError::UserExists);
        }
        let hash = match hash_password(req.password.as_str()) {
            Some(h) => h,
            None => {
                return Err(AuthError::HashError);
            },
        };
        let ghost hash_view = hash@;
        let id = fresh_id();
        let token = match self.issue_token_at(id.as_str(), now) {
            Ok(t) => t,
            Err(e) => {
                return Err(e);
            },
        };
        let user = User {
            id: id.clone(),
            username: req.username.clone(),
            email: req.email.clone(),
            password_hash: hash,
            created_at: now,
            updated_at: now,
        };
        let ghost pre = self.users();
        match self.store.insert(user) {
            Ok(()) => {
                let resp = AuthResponse {
                    token,
                    user: UserResponse {
                        id,
                        username: req.username.clone(),
                        email: req.email.clone(),
                    },
                };
                proof {
                    assert(bcrypt_matches(req.password@, hash_view) && self.users() == pre.push(
                        UserV {
                            id: resp.user.id@,
                            username: req.username@,
                            email: req.email@,
                            password_hash: hash_view,
                            created_at: now,
                            updated_at: now,
                        },
                    ));
                    assert(self.users()[pre.len() as int].username == req.username@);
                    assert(has_username(self.users(), req.username@));
                    assert(self.users()[pre.len() as int].email == req.email@);
                    assert(has_email(self.users(), req.email@));
                    assert(self.users()[pre.len() as int].id == resp.user.id@);
                    assert(has_id(self.users(), resp.user.id@));
                }
                Ok(resp)
            },
            Err(_) => Err(AuthError::DatabaseError),
        }
    }

    /// Registers a new user, timestamping rows and token with the clock's
    /// current reading.
    pub fn register(&mut self, req: RegisterRequest) -> (r: Result<AuthResponse, AuthError>)
        requires
            old(self).wf(),
        ensures
            final (self).wf(),
            final (self).secret() == old(self).secret(),
            exists|now: u64|
                #[trigger] register_post(
                    old(self).users(),
                    final (self).users(),
                    old(self).secret(),
                    req.username@,
                    req.email@,
                    req.password@,
                    now,
                    r,
                ),
    {
        let t = now_timestamp();
        let now: u64 = if t < 0 {
            0
        } else {
            t as u64
        };
        let ghost pre = self.users();
        let r = self.register_at(&req, now);
        proof {
            assert(register_post(
                pre,
                self.users(),
                self.secret(),
                req.username@,
                req.email@,
                req.password@,
                now,
                r,
            ));
        }
        r
    }

    /// Logs a user in at time `now`: looks the username up, verifies the
    /// password against the stored hash, and issues a fresh token.
    pub fn login_at(&self, req: &LoginRequest, now: u64) -> (r: Result<AuthResponse, AuthError>)
        requires
            self.wf(),
        ensures
            login_post(self.users(), self.secret(), req.username@, req.password@, now, r),
    {
        let user = match self.store.find_by_username(req.username.as_str()) {
            None => {
                return Err(AuthError::InvalidCredentials);
            },
            Some(u) => u,
        };
        let password_ok = match verify_password(req.password.as_str(), user.password_hash.as_str())
            {
            None => {
                return Err(AuthError::HashError);
            },
            Some(b) => b,
        };
        if !password_ok {
            return Err(AuthError::InvalidCredentials);
        }
        let token = match self.issue_token_at(user.id.as_str(), now) {
            Ok(t) => t,
            Err(e) => {
                return Err(e);
            },
        };
        Ok(
            AuthResponse {
                token,
                user: UserResponse {
                    id: user.id.clone(),
                    username: user.username.clone(),
                    email: user.email.clone(),
                },
            },
        )
    }

    /// Logs a user in, with token lifetime counted from the clock's current
    /// reading.
    pub fn login(&self, req: LoginRequest) -> (r: Result<AuthResponse, AuthError>)
        requires
            self.wf(),
        ensures
            exists|now: u64|
                #[trigger] login_post(
                    self.users(),
                    self.secret(),
                    req.username@,
                    req.password@,
                    now,
                    r,
                ),
    {
        let t = now_timestamp();
        let now: u64 = if t < 0 {
            0
        } else {
            t as u64
        };
        let r = self.login_at(&req, now);
        proof {
            assert(login_post(
                self.users(),
                self.secret(),
                req.username@,
                req.password@,
                now,
                r,
            ));
        }
        r
    }

    /// Looks a user up by identifier.
    pub fn get_user_by_id(&self, user_id: &str) -> (r: Result<Option<User>, AuthError>)
        requires
            self.wf(),
        ensures
            r matches Ok(opt) && (match opt {
                Some(u) => has_id(self.users(), user_id@) && u@ == user_by_id(
                    self.users(),
                    user_id@,
                ),
                None => !has_id(self.users(), user_id@),
            }),
    {
        match self.store.find_by_id(user_id) {
            Some(u) => Ok(Some(copy_user(u))),
            None => Ok(None),
        }
    }
}

} // verus!
