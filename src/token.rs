use vstd::prelude::*;
use vstd::hash_map::StringHashMap;

use crate::clock::{is_after, later_than, parse_rfc3339, parsed_instant, utc_now, Timestamp};
use crate::digest::fingerprint_of;
pub use crate::digest::token_fingerprint;

verus! {

/// The identity that a valid credential resolves to.
pub struct AuthorizedToken {
    pub name: String,
    pub token_id: String,
    pub rate_limit_per_minute: Option<usize>,
}

/// What an identity carries, as values.
pub struct IdentityView {
    pub name: Seq<char>,
    pub token_id: Seq<char>,
    pub rate_limit_per_minute: Option<usize>,
}

impl View for AuthorizedToken {
    type V = IdentityView;

    open spec fn view(&self) -> IdentityView {
        IdentityView {
            name: self.name@,
            token_id: self.token_id@,
            rate_limit_per_minute: self.rate_limit_per_minute,
        }
    }
}

/// One credential record as it is written in the token file.
pub struct TokenEntry {
    pub name: String,
    pub token: String,
    pub expires_at: Option<String>,
    pub rate_limit_per_minute: Option<usize>,
}

/// The token file: a list of credential records.
pub struct TokenFile {
    pub tokens: Vec<TokenEntry>,
}

/// A loaded credential record, keyed elsewhere by its raw secret.
pub struct TokenPolicy {
    pub name: String,
    pub token_id: String,
    pub expires_at: Option<Timestamp>,
    pub rate_limit_per_minute: Option<usize>,
}

/// What a loaded record holds, as values.
pub struct PolicyView {
    pub name: Seq<char>,
    pub token_id: Seq<char>,
    pub expires_at: Option<Timestamp>,
    pub rate_limit_per_minute: Option<usize>,
}

impl View for TokenPolicy {
    type V = PolicyView;

    open spec fn view(&self) -> PolicyView {
        PolicyView {
            name: self.name@,
            token_id: self.token_id@,
            expires_at: self.expires_at,
            rate_limit_per_minute: self.rate_limit_per_minute,
        }
    }
}

/// Why the credential set could not be built.
#[derive(Clone, Copy, Debug, PartialEq, Eq, Structural)]
pub enum TokenStoreError {
    /// A record's `expires_at` is not an RFC 3339 date-time.
    InvalidExpiry,
    /// No credential is configured at all.
    NoTokens,
}

/// The credential set, read-only once built: raw secret to record.
pub struct TokenStore {
    tokens: StringHashMap<TokenPolicy>,
}

impl View for TokenStore {
    type V = Map<Seq<char>, PolicyView>;

    closed spec fn view(&self) -> Map<Seq<char>, PolicyView> {
        self.tokens@.map_values(|p: TokenPolicy| p@)
    }
}

/// The characters of an optional text.
pub open spec fn text_view(t: Option<&str>) -> Option<Seq<char>> {
    match t {
        Some(s) => Some(s@),
        None => None,
    }
}

/// The values of an optional identity.
pub open spec fn identity_view(t: Option<AuthorizedToken>) -> Option<IdentityView> {
    match t {
        Some(a) => Some(a@),
        None => None,
    }
}

/// A record's expiry text, if any, reads as a date-time.
pub open spec fn entry_valid(e: TokenEntry) -> bool {
    match e.expires_at {
        Some(s) => parsed_instant(s@) is Some,
        None => true,
    }
}

/// The loaded form of a valid record.
pub open spec fn entry_policy(e: TokenEntry) -> PolicyView {
    PolicyView {
        name: e.name@,
        token_id: fingerprint_of(e.token@),
        expires_at: match e.expires_at {
            Some(s) => parsed_instant(s@),
            None => None,
        },
        rate_limit_per_minute: e.rate_limit_per_minute,
    }
}

/// Records keyed by raw secret; a later record with the same secret replaces
/// an earlier one.
pub open spec fn entries_map(es: Seq<TokenEntry>) -> Map<Seq<char>, PolicyView>
    decreases es.len(),
{
    if es.len() == 0 {
        Map::empty()
    } else {
        entries_map(es.drop_last()).insert(es.last().token@, entry_policy(es.last()))
    }
}

/// The record that a single shared secret from the configuration stands for.
pub open spec fn legacy_policy(t: Seq<char>) -> PolicyView {
    PolicyView {
        name: "legacy-default"@,
        token_id: fingerprint_of(t),
        expires_at: None,
        rate_limit_per_minute: None,
    }
}

/// The credential set built from the file's records and the shared secret;
/// a file record wins over the shared secret when both have the same secret.
pub open spec fn configured_tokens(es: Seq<TokenEntry>, legacy: Option<Seq<char>>) -> Map<
    Seq<char>,
    PolicyView,
> {
    let m = entries_map(es);
    match legacy {
        Some(t) => if m.contains_key(t) {
            m
        } else {
            m.insert(t, legacy_policy(t))
        },
        None => m,
    }
}

/// Every record's fingerprint is the fingerprint of the secret it is kept
/// under.
pub open spec fn keyed_by_fingerprint(tokens: Map<Seq<char>, PolicyView>) -> bool {
    forall|k: Seq<char>| #[trigger]
        tokens.contains_key(k) ==> tokens[k].token_id == fingerprint_of(k)
}

proof fn lemma_entries_keyed_by_fingerprint(es: Seq<TokenEntry>)
    ensures
        keyed_by_fingerprint(entries_map(es)),
    decreases es.len(),
{
    if es.len() > 0 {
        lemma_entries_keyed_by_fingerprint(es.drop_last());
    }
}

/// In a credential set built from records and a shared secret, each
/// record's fingerprint is that of the secret it is kept under, so the
/// identity that a secret resolves to carries the secret's own fingerprint.
pub proof fn lemma_configured_keyed_by_fingerprint(es: Seq<TokenEntry>, legacy: Option<Seq<char>>)
    ensures
        keyed_by_fingerprint(configured_tokens(es, legacy)),
{
    lemma_entries_keyed_by_fingerprint(es);
}

/// A record has expired at `now` when it has an expiry and `now` is past it.
pub open spec fn is_expired(p: PolicyView, now: Timestamp) -> bool {
    match p.expires_at {
        Some(e) => is_after(now, e),
        None => false,
    }
}

/// The identity that a loaded record gives.
pub open spec fn identity_of(p: PolicyView) -> IdentityView {
    IdentityView {
        name: p.name,
        token_id: p.token_id,
        rate_limit_per_minute: p.rate_limit_per_minute,
    }
}

/// The identity that `raw` resolves to at `now`: none when no record has it
/// or when its record has expired.
pub open spec fn resolve(tokens: Map<Seq<char>, PolicyView>, raw: Seq<char>, now: Timestamp) -> Option<
    IdentityView,
> {
    if tokens.contains_key(raw) && !is_expired(tokens[raw], now) {
        Some(identity_of(tokens[raw]))
    } else {
        None
    }
}

impl TokenPolicy {
    /// Loads one record: its fingerprint is derived and its expiry parsed.
    pub fn from_entry(entry: &TokenEntry) -> (r: Result<TokenPolicy, TokenStoreError>)
        ensures
            match r {
                Ok(p) => entry_valid(*entry) && p@ == entry_policy(*entry),
                Err(e) => !entry_valid(*entry) && e == TokenStoreError::InvalidExpiry,
            },
    {
        let expires_at = match &entry.expires_at {
            Some(raw) => match parse_rfc3339(raw.as_str()) {
                Some(t) => Some(t),
                None => {
                    return Err(TokenStoreError::InvalidExpiry);
                },
            },
            None => None,
        };
        Ok(TokenPolicy {
            name: entry.name.clone(),
            token_id: token_fingerprint(entry.token.as_str()),
            expires_at,
            rate_limit_per_minute: entry.rate_limit_per_minute,
        })
    }
}

impl TokenStore {
    /// Builds the credential set from the token file's records and an optional
    /// single shared secret. A record whose expiry does not parse is an error;
    /// so is a set that ends up empty.
    pub fn from_config(file: &TokenFile, upload_token: Option<&str>) -> (r: Result<
        TokenStore,
        TokenStoreError,
    >)
        ensures
            match r {
                Ok(s) => (forall|i: int|
                    0 <= i < file.tokens@.len() ==> entry_valid(#[trigger] file.tokens@[i]))
                    && s@ == configured_tokens(file.tokens@, text_view(upload_token))
                    && keyed_by_fingerprint(s@) && !s@.is_empty(),
                Err(TokenStoreError::InvalidExpiry) => exists|i: int|
                    0 <= i < file.tokens@.len() && !entry_valid(#[trigger] file.tokens@[i]),
                Err(TokenStoreError::NoTokens) => (forall|i: int|
                    0 <= i < file.tokens@.len() ==> entry_valid(#[trigger] file.tokens@[i]))
                    && configured_tokens(file.tokens@, text_view(upload_token)).is_empty(),
            },
    {
        let mut map: StringHashMap<TokenPolicy> = StringHashMap::new();
        let n = file.tokens.len();
        let mut i: usize = 0;
        while i < n
            invariant
                n == file.tokens@.len(),
                i <= n,
                map@.map_values(|p: TokenPolicy| p@) == entries_map(file.tokens@.take(i as int)),
                forall|j: int| 0 <= j < i ==> entry_valid(#[trigger] file.tokens@[j]),
            decreases n - i,
        {
            let entry = &file.tokens[i];
            let policy = match TokenPolicy::from_entry(entry) {
                Ok(p) => p,
                Err(e) => {
                    return Err(e);
                },
            };
            let ghost before = map@;
            let ghost pv = policy@;
            map.insert(entry.token.clone(), policy);
            proof {
                let es = file.tokens@.take(i as int + 1);
                assert(es.drop_last() =~= file.tokens@.take(i as int));
                assert(map@.map_values(|p: TokenPolicy| p@) =~= before.map_values(
                    |p: TokenPolicy| p@,
                ).insert(entry.token@, pv));
            }
            i = i + 1;
        }
        assert(file.tokens@.take(n as int) =~= file.tokens@);
        if let Some(legacy) = upload_token {
            if !map.contains_key(legacy) {
                let ghost before = map@;
                let name = String::from_str("legacy-default");
                let policy = TokenPolicy {
                    name,
                    token_id: token_fingerprint(legacy),
                    expires_at: None,
                    rate_limit_per_minute: None,
                };
                let ghost pv = policy@;
                map.insert(String::from_str(legacy), policy);
                proof {
                    reveal_strlit("legacy-default");
                    assert(map@.map_values(|p: TokenPolicy| p@) =~= before.map_values(
                        |p: TokenPolicy| p@,
                    ).insert(legacy@, pv));
                }
            }
        }
        if map.is_empty() {
            proof {
                assert(map@.map_values(|p: TokenPolicy| p@).dom() =~= map@.dom());
            }
            return Err(TokenStoreError::NoTokens);
        }
        let store = TokenStore { tokens: map };
        proof {
            lemma_configured_keyed_by_fingerprint(file.tokens@, text_view(upload_token));
        }
        proof {
            assert(store@.dom() =~= map@.dom());
        }
        Ok(store)
    }

    /// The identity that `raw` resolves to at the instant `now`: none when no
    /// record has exactly this secret or when its record expired before `now`.
    pub fn authorize_at(&self, raw: &str, now: Timestamp) -> (r: Option<AuthorizedToken>)
        ensures
            identity_view(r) == resolve(self@, raw@, now),
    {
        match self.tokens.get(raw) {
            None => None,
            Some(policy) => {
                if let Some(exp) = policy.expires_at {
                    if later_than(now, exp) {
                        return None;
                    }
                }
                Some(
                    AuthorizedToken {
                        name: policy.name.clone(),
                        token_id: policy.token_id.clone(),
                        rate_limit_per_minute: policy.rate_limit_per_minute,
                    },
                )
            },
        }
    }

    /// The identity that `raw` resolves to now. An unknown secret never
    /// resolves; a known one that has no expiry always does; whatever resolves
    /// carries its record's name, fingerprint and rate limit.
    pub fn authorize(&self, raw: &str) -> (r: Option<AuthorizedToken>)
        ensures
            !self@.contains_key(raw@) ==> r is None,
            self@.contains_key(raw@) && self@[raw@].expires_at is None ==> r is Some,
            r matches Some(t) ==> self@.contains_key(raw@) && t@ == identity_of(self@[raw@]),
    {
        let now = utc_now();
        self.authorize_at(raw, now)
    }
}

} // verus!
