//! The session gate: the boundary check that turns a bearer token into a
//! trusted identity.
//!
//! It extracts the token from a standard `Authorization: Bearer <token>`
//! header, delegates to token verification, and on success hands the
//! resolved subject — the user identifier — to downstream handlers.  A
//! missing or malformed header, and any verification failure, end in the
//! one outcome `Unauthorized`: the caller cannot tell a malformed header
//! from an expired token or a bad signature.  It holds no state of
//! its own; per request it decides once, `Authenticated` or `Rejected`.

use vstd::prelude::*;

use crate::errors::AuthError;
use crate::service::{now_timestamp, AuthService};
use crate::token::token_of;

verus! {

/// The header is in bearer form: it opens with the seven characters
/// `"Bearer "`, and everything after them is the token.
pub open spec fn is_bearer(h: Seq<char>) -> bool {
    h.len() >= 7 && h.subrange(0, 7) == "Bearer "@
}

/// The view of an optional header.
pub open spec fn header_view(header: Option<&str>) -> Option<Seq<char>> {
    match header {
        None => None,
        Some(h) => Some(h@),
    }
}

/// What authenticating a request with this authorization header at clock
/// reading `now` returns.  A missing header, a header not in bearer form,
/// and an empty bearer token are rejected; a token issued under `secret`
/// is accepted exactly while `now` is before its expiration, yielding its
/// subject; and every rejection is the one outcome `Unauthorized`.
pub open spec fn authenticate_post(
    secret: Seq<char>,
    header: Option<Seq<char>>,
    now: u64,
    r: Result<String, AuthError>,
) -> bool {
    &&& (r is Err ==> r == Err::<String, AuthError>(AuthError::Unauthorized))
    &&& match header {
        None => r == Err::<String, AuthError>(AuthError::Unauthorized),
        Some(h) => {
            &&& (r is Ok ==> is_bearer(h))
            &&& (!is_bearer(h) ==> r == Err::<String, AuthError>(AuthError::Unauthorized))
            &&& (is_bearer(h) && h.skip(7).len() == 0 ==> r == Err::<String, AuthError>(
                AuthError::Unauthorized,
            ))
            &&& forall|sub: Seq<char>, exp: u64|
                is_bearer(h) && h.skip(7) == #[trigger] token_of(secret, sub, exp) ==> (if now
                    < exp {
                    r matches Ok(s) && s@ == sub
                } else {
                    r == Err::<String, AuthError>(AuthError::Unauthorized)
                })
        },
    }
}

/// Extracts the token from a bearer-scheme header: `Some` with everything
/// after the `"Bearer "` prefix exactly when the header is in bearer form.
pub fn bearer_token(header: &str) -> (r: Option<String>)
    ensures
        match r {
            Some(t) => is_bearer(header@) && t@ == header@.skip(7),
            None => !is_bearer(header@),
        },
{
    proof {
        reveal_strlit("Bearer ");
    }
    let n = header.unicode_len();
    if n < 7 {
        return None;
    }
    if header.get_char(0) != 'B' || header.get_char(1) != 'e' || header.get_char(2) != 'a'
        || header.get_char(3) != 'r' || header.get_char(4) != 'e' || header.get_char(5) != 'r'
        || header.get_char(6) != ' ' {
        proof {
            assert(header@.subrange(0, 7) != "Bearer "@) by {
                if header@.subrange(0, 7) == "Bearer "@ {
                    assert(header@.subrange(0, 7)[0] == 'B');
                    assert(header@.subrange(0, 7)[1] == 'e');
                    assert(header@.subrange(0, 7)[2] == 'a');
                    assert(header@.subrange(0, 7)[3] == 'r');
                    assert(header@.subrange(0, 7)[4] == 'e');
                    assert(header@.subrange(0, 7)[5] == 'r');
                    assert(header@.subrange(0, 7)[6] == ' ');
                }
            }
        }
        return None;
    }
    proof {
        assert(header@.subrange(0, 7) =~= "Bearer "@);
    }
    let rest = header.substring_char(7, n);
    Some(rest.to_owned())
}

impl AuthService {
    /// The single conceptual operation of the session gate: from the raw
    /// authorization header of a request to the identity it asserts, at
    /// clock reading `now`.  A missing or malformed header is rejected
    /// before any token is looked at; an accepted request yields the
    /// subject of a token that verified under the service's secret.
    pub fn authenticate_at(&self, header: Option<&str>, now: u64) -> (r: Result<String, AuthError>)
        ensures
            authenticate_post(self.secret(), header_view(header), now, r),
    {
        let h = match header {
            None => {
                return Err(AuthError::Unauthorized);
            },
            Some(h) => h,
        };
        let token = match bearer_token(h) {
            None => {
                return Err(AuthError::Unauthorized);
            },
            Some(t) => t,
        };
        match self.verify_token_at(token.as_str(), now) {
            Ok(c) => Ok(c.sub),
            Err(_) => Err(AuthError::Unauthorized),
        }
    }

    /// Authenticates against the clock's current reading.
    pub fn authenticate(&self, header: Option<&str>) -> (r: Result<String, AuthError>)
        ensures
            r is Err ==> r == Err::<String, AuthError>(AuthError::Unauthorized),
            header is None ==> r == Err::<String, AuthError>(AuthError::Unauthorized),
            (header matches Some(h) && !is_bearer(h@)) ==> r == Err::<String, AuthError>(
                AuthError::Unauthorized,
            ),
            exists|now: u64| #[trigger] authenticate_post(self.secret(), header_view(header), now, r),
    {
        let t = now_timestamp();
        let now: u64 = if t < 0 {
            0
        } else {
            t as u64
        };
        let r = self.authenticate_at(header, now);
        proof {
            assert(authenticate_post(self.secret(), header_view(header), now, r));
        }
        r
    }
}

} // verus!
