use vstd::prelude::*;
use vstd::string::{StrSliceExecFns, StringExecFns};

use crate::clock::{utc_now, Timestamp};
use crate::error::AppError;
use crate::token::{identity_of, resolve, text_view, AuthorizedToken, IdentityView, PolicyView, TokenStore};

verus! {

/// The token of a bearer-scheme authorization value: what follows
/// `Bearer `, when that is not empty.
pub open spec fn bearer_credential(v: Seq<char>) -> Option<Seq<char>> {
    if v.len() > 7 && v.take(7) == "Bearer "@ {
        Some(v.skip(7))
    } else {
        None
    }
}

/// The credential that a request presents: the custom token header when it
/// is not empty, else the token of a bearer authorization header.
pub open spec fn presented_credential(custom: Option<Seq<char>>, authorization: Option<
    Seq<char>,
>) -> Option<Seq<char>> {
    if custom is Some && custom->0.len() > 0 {
        custom
    } else if authorization is Some {
        bearer_credential(authorization->0)
    } else {
        None
    }
}

/// The identity that a request's headers resolve to at `now`.
pub open spec fn authentication(
    tokens: Map<Seq<char>, PolicyView>,
    custom: Option<Seq<char>>,
    authorization: Option<Seq<char>>,
    now: Timestamp,
) -> Option<IdentityView> {
    match presented_credential(custom, authorization) {
        Some(c) => resolve(tokens, c, now),
        None => None,
    }
}


/// The credential a request presents, from the value of its custom token
/// header and of its authorization header (each absent when the header is
/// missing or not text). An empty custom value counts as absent; the
/// authorization value must use the bearer scheme with a non-empty token.
pub fn extract_token(custom: Option<&str>, authorization: Option<&str>) -> (r: Option<String>)
    ensures
        match r {
            Some(s) => presented_credential(text_view(custom), text_view(authorization)) == Some(s@),
            None => presented_credential(text_view(custom), text_view(authorization)) is None,
        },
{
    if let Some(c) = custom {
        if c.unicode_len() > 0 {
            return Some(String::from_str(c));
        }
    }
    if let Some(v) = authorization {
        let scheme = "Bearer ";
        proof {
            reveal_strlit("Bearer ");
        }
        let len = v.unicode_len();
        if len <= 7 {
            return None;
        }
        let mut i: usize = 0;
        while i < 7
            invariant
                i <= 7,
                len == v@.len(),
                len > 7,
                scheme@ == "Bearer "@,
                scheme@.len() == 7,
                v@.take(i as int) == scheme@.take(i as int),
                presented_credential(text_view(custom), text_view(authorization))
                    == bearer_credential(v@),
            decreases 7 - i,
        {
            if v.get_char(i) != scheme.get_char(i) {
                assert(v@.take(7)[i as int] != scheme@[i as int]);
                assert(v@.take(7) != "Bearer "@);
                assert(bearer_credential(v@) is None);
                return None;
            }
            i = i + 1;
            assert(v@.take(i as int) =~= scheme@.take(i as int));
        }
        assert(scheme@.take(7) =~= scheme@);
        let rest = v.substring_char(7, len);
        assert(rest@ =~= v@.skip(7));
        return Some(String::from_str(rest));
    }
    None
}

/// Whether the request's headers present exactly `expected_token`.
pub fn is_authorized(custom: Option<&str>, authorization: Option<&str>, expected_token: &str) -> (r:
    bool)
    ensures
        r == (presented_credential(text_view(custom), text_view(authorization)) == Some(
            expected_token@,
        )),
{
    match extract_token(custom, authorization) {
        Some(raw) => raw.as_str().unicode_len() == expected_token.unicode_len() && same_text(
            raw.as_str(),
            expected_token,
        ),
        None => false,
    }
}

pub(crate) fn same_text(a: &str, b: &str) -> (r: bool)
    ensures
        r == (a@ == b@),
{
    let n = a.unicode_len();
    if n != b.unicode_len() {
        return false;
    }
    let mut i: usize = 0;
    while i < n
        invariant
            n == a@.len(),
            n == b@.len(),
            i <= n,
            a@.take(i as int) == b@.take(i as int),
        decreases n - i,
    {
        if a.get_char(i) != b.get_char(i) {
            return false;
        }
        i = i + 1;
        assert(a@.take(i as int) =~= b@.take(i as int));
    }
    assert(a@ =~= a@.take(n as int));
    assert(b@ =~= b@.take(n as int));
    true
}

/// Resolves the request's credential against `store` at the instant `now`.
/// Everything that does not resolve (no credential, an empty one, an
/// unknown one, an expired one) is the same `Unauthorized`.
pub fn authenticate_at(
    store: &TokenStore,
    custom: Option<&str>,
    authorization: Option<&str>,
    now: Timestamp,
) -> (r: Result<AuthorizedToken, AppError>)
    ensures
        match r {
            Ok(t) => authentication(store@, text_view(custom), text_view(authorization), now)
                == Some(t@),
            Err(e) => e == AppError::Unauthorized && authentication(
                store@,
                text_view(custom),
                text_view(authorization),
                now,
            ) is None,
        },
{
    match extract_token(custom, authorization) {
        Some(raw) => match store.authorize_at(raw.as_str(), now) {
            Some(t) => Ok(t),
            None => Err(AppError::Unauthorized),
        },
        None => Err(AppError::Unauthorized),
    }
}

/// Resolves the request's credential against `store` now. No credential,
/// or one that no record holds, is always `Unauthorized`; one whose record
/// has no expiry always resolves; whatever resolves is its record's identity.
pub fn authenticate(store: &TokenStore, custom: Option<&str>, authorization: Option<&str>) -> (r:
    Result<AuthorizedToken, AppError>)
    ensures
        r matches Err(e) ==> e == AppError::Unauthorized,
        match presented_credential(text_view(custom), text_view(authorization)) {
            None => r is Err,
            Some(c) => {
                &&& !store@.contains_key(c) ==> r is Err
                &&& store@.contains_key(c) && store@[c].expires_at is None ==> (r matches Ok(t)
                    && t@ == identity_of(store@[c]))
                &&& (r matches Ok(t) ==> store@.contains_key(c) && t@ == identity_of(store@[c]))
            },
        },
{
    let now = utc_now();
    authenticate_at(store, custom, authorization, now)
}

/// A request is refused when it presents no credential (or an empty one),
/// when no record holds the credential, or when the record that holds it has
/// expired: all of these resolve to no identity alike.
pub proof fn lemma_unresolved_credentials_refused(
    tokens: Map<Seq<char>, PolicyView>,
    custom: Option<Seq<char>>,
    authorization: Option<Seq<char>>,
    now: Timestamp,
)
    requires
        match presented_credential(custom, authorization) {
            None => true,
            Some(c) => !tokens.contains_key(c) || crate::token::is_expired(tokens[c], now),
        },
    ensures
        authentication(tokens, custom, authorization, now) is None,
{
}

} // verus!
