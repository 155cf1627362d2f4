use vstd::prelude::*;
use crate::activity::opt_str_view;
use crate::text::concat;
use headers::Header;

verus! {

/// How long a verified token is trusted without asking the identity provider
/// again, in seconds.
pub const CACHE_TTL_SECS: u64 = 60;

/// The HTTP status with which the identity provider accepts a token.
pub const STATUS_OK: u16 = 200;

/// Why a write request was not authorized. Missing, malformed, unverifiable
/// and unreachable-provider cases are deliberately not told apart.
#[derive(Debug, PartialEq, Eq, Structural, Clone, Copy)]
pub enum AuthError {
    Unauthorized,
}

/// A character that a header value may hold and read back as text: visible
/// ASCII, the space, or the tab.
pub open spec fn is_header_char(c: char) -> bool {
    (' ' <= c && c <= '~') || c == '\t'
}

/// `c` is the letter `lower`, or its capital `upper`.
pub open spec fn is_letter(c: char, lower: char, upper: char) -> bool {
    c == lower || c == upper
}

/// The first six characters of `s` spell "Bearer", ignoring case.
pub open spec fn has_bearer_scheme(s: Seq<char>) -> bool {
    &&& s.len() >= 6
    &&& is_letter(s[0], 'b', 'B')
    &&& is_letter(s[1], 'e', 'E')
    &&& is_letter(s[2], 'a', 'A')
    &&& is_letter(s[3], 'r', 'R')
    &&& is_letter(s[4], 'e', 'E')
    &&& is_letter(s[5], 'r', 'R')
}

/// `s` without its leading spaces and tabs.
pub open spec fn trim_leading_blanks(s: Seq<char>) -> Seq<char>
    decreases s.len(),
{
    if s.len() > 0 && (s[0] == ' ' || s[0] == '\t') {
        trim_leading_blanks(s.subrange(1, s.len() as int))
    } else {
        s
    }
}

/// The token of an `Authorization` header value: the value is made of header
/// characters, starts with the scheme "Bearer" in any case and a space, and
/// the token is what follows, without leading blanks.
pub open spec fn bearer_token_of(value: Seq<char>) -> Option<Seq<char>> {
    if value.len() > 6 && (forall|i: int| 0 <= i < value.len() ==> is_header_char(#[trigger] value[i]))
        && has_bearer_scheme(value) && value[6] == ' ' {
        Some(trim_leading_blanks(value.subrange(7, value.len() as int)))
    } else {
        None
    }
}

/// Relies on `http::HeaderValue::from_str`, which refuses control characters,
/// and on `headers::Authorization::<Bearer>::decode` and `Bearer::token`, which
/// check the scheme, the space after it and that the value reads as visible
/// ASCII text, and trim the token's leading whitespace.
#[verifier::external_body]
fn decode_bearer(value: &str) -> (r: Option<String>)
    ensures
        opt_str_view(r) == bearer_token_of(value@),
{
    let value = http::HeaderValue::from_str(value).ok()?;
    headers::Authorization::<headers::authorization::Bearer>::decode(&mut [value].iter())
        .ok()
        .map(|a| a.token().to_owned())
}

/// The bearer token of a request, from its `Authorization` header value.
pub fn bearer_token(header: Option<&str>) -> (r: Result<String, AuthError>)
    ensures
        match header {
            None => r == Err::<String, AuthError>(AuthError::Unauthorized),
            Some(h) => match bearer_token_of(h@) {
                Some(t) => r is Ok && r->Ok_0@ == t,
                None => r == Err::<String, AuthError>(AuthError::Unauthorized),
            },
        },
{
    match header {
        None => Err(AuthError::Unauthorized),
        Some(h) => match decode_bearer(h) {
            Some(t) => Ok(t),
            None => Err(AuthError::Unauthorized),
        },
    }
}

/// The key under which a token's identity is kept in a shared key-value store.
pub fn token_key(token: &str) -> (r: String)
    ensures
        r@ == "tokens/"@ + token@,
{
    concat("tokens/", token)
}

/// The identity that the provider's answer vouches for: the `login` it
/// returned, provided it answered with success.
pub fn verified_identity(status: u16, login: Option<String>) -> (r: Option<String>)
    ensures
        opt_str_view(r) == if status == STATUS_OK {
            opt_str_view(login)
        } else {
            None
        },
{
    if status == STATUS_OK {
        login
    } else {
        None
    }
}

/// A cached verification: the identity and the second at which it was made.
pub struct CacheEntryModel {
    pub identity: Seq<char>,
    pub verified_at: int,
}

/// The identity that the cache `m` gives for `token` at second `now`: an
/// entry counts only for the time-to-live after its verification.
pub open spec fn cached(m: Map<Seq<char>, CacheEntryModel>, token: Seq<char>, now: int) -> Option<
    Seq<char>,
> {
    if m.contains_key(token) && now < m[token].verified_at + CACHE_TTL_SECS {
        Some(m[token].identity)
    } else {
        None
    }
}

/// The cache after a verification of `token` at second `now`: a success is
/// remembered for the time-to-live, a failure is not remembered at all.
pub open spec fn after_verification(
    m: Map<Seq<char>, CacheEntryModel>,
    token: Seq<char>,
    outcome: Option<Seq<char>>,
    now: int,
) -> Map<Seq<char>, CacheEntryModel> {
    match outcome {
        Some(id) => m.insert(token, CacheEntryModel { identity: id, verified_at: now }),
        None => m,
    }
}

/// Two resolutions of one token: after a successful verification at `t1`, a
/// lookup at `t2` is answered from the cache exactly while `t2` lies within
/// the time-to-live, so within it no second verification is made and after it
/// one is.
pub proof fn lemma_one_verification_within_ttl(
    m: Map<Seq<char>, CacheEntryModel>,
    token: Seq<char>,
    id: Seq<char>,
    t1: int,
    t2: int,
)
    requires
        t1 <= t2,
    ensures
        cached(after_verification(m, token, Some(id), t1), token, t2) == if t2 < t1 + CACHE_TTL_SECS {
            Some(id)
        } else {
            None
        },
{
}

/// A failed verification is never remembered: a token that had to be
/// verified at `t1` and failed has to be verified again at any later `t2`.
pub proof fn lemma_failure_not_cached(m: Map<Seq<char>, CacheEntryModel>, token: Seq<char>, t1: int, t2: int)
    requires
        t1 <= t2,
        cached(m, token, t1) is None,
    ensures
        cached(after_verification(m, token, None, t1), token, t2) is None,
{
}

/// What to do after reading the cache for a token: use the identity found,
/// or ask the identity provider.
#[derive(Debug, PartialEq, Eq)]
pub enum AuthStep {
    Resolved(String),
    Verify,
}

/// The next step once the cache has answered `cached` for a token.
pub fn on_cache_read(cached: Option<String>) -> (r: AuthStep)
    ensures
        match cached {
            Some(id) => r is Resolved && r->Resolved_0@ == id@,
            None => r is Verify,
        },
{
    match cached {
        Some(id) => AuthStep::Resolved(id),
        None => AuthStep::Verify,
    }
}

/// An entry to put in a shared key-value cache, which drops it after
/// `ttl_secs` seconds.
#[derive(Debug, PartialEq, Eq)]
pub struct CacheWrite {
    pub key: String,
    pub identity: String,
    pub ttl_secs: u64,
}

/// Settles a verification of `token` from the provider's answer: the outcome
/// of the request, and the cache entry to write, which exists only on success.
pub fn on_verified(token: &str, status: u16, login: Option<String>) -> (r: (
    Result<String, AuthError>,
    Option<CacheWrite>,
))
    ensures
        match (if status == STATUS_OK {
            opt_str_view(login)
        } else {
            None
        }) {
            Some(id) => r.0 is Ok && r.0->Ok_0@ == id && r.1 is Some && r.1->Some_0.key@ == "tokens/"@
                + token@ && r.1->Some_0.identity@ == id && r.1->Some_0.ttl_secs == CACHE_TTL_SECS,
            None => r.0 == Err::<String, AuthError>(AuthError::Unauthorized) && r.1 is None,
        },
{
    match verified_identity(status, login) {
        Some(id) => {
            let write = CacheWrite { key: token_key(token), identity: id.clone(), ttl_secs: CACHE_TTL_SECS };
            (Ok(id), Some(write))
        },
        None => (Err(AuthError::Unauthorized), None),
    }
}

/// A time-limited memo of token verifications.
pub struct AuthCache {
    tokens: Vec<String>,
    identities: Vec<String>,
    verified_at: Vec<u64>,
    model: Ghost<Map<Seq<char>, CacheEntryModel>>,
}

impl View for AuthCache {
    type V = Map<Seq<char>, CacheEntryModel>;

    closed spec fn view(&self) -> Map<Seq<char>, CacheEntryModel> {
        self.model@
    }
}

impl AuthCache {
    /// Each token has at most one entry, and `model` holds exactly the entries.
    pub closed spec fn wf(&self) -> bool {
        &&& self.tokens@.len() == self.identities@.len()
        &&& self.tokens@.len() == self.verified_at@.len()
        &&& forall|i: int|
            0 <= i < self.tokens@.len() ==> #[trigger] self.model@.contains_key(self.tokens@[i]@)
                && self.model@[self.tokens@[i]@] == (CacheEntryModel {
                identity: self.identities@[i]@,
                verified_at: self.verified_at@[i] as int,
            })
        &&& forall|k: Seq<char>|
            #[trigger] self.model@.contains_key(k) ==> exists|i: int|
                0 <= i < self.tokens@.len() && #[trigger] self.tokens@[i]@ == k
        &&& forall|i: int, j: int|
            0 <= i < self.tokens@.len() && 0 <= j < self.tokens@.len() && i != j
                ==> self.tokens@[i]@ != self.tokens@[j]@
    }

    pub fn new() -> (r: AuthCache)
        ensures
            r.wf(),
            r@ == Map::<Seq<char>, CacheEntryModel>::empty(),
    {
        AuthCache {
            tokens: Vec::new(),
            identities: Vec::new(),
            verified_at: Vec::new(),
            model: Ghost(Map::empty()),
        }
    }

    fn find(&self, token: &String) -> (r: Option<usize>)
        requires
            self.wf(),
        ensures
            match r {
                Some(i) => i < self.tokens@.len() && self.tokens@[i as int]@ == token@,
                None => !self@.contains_key(token@),
            },
    {
        let mut i: usize = 0;
        while i < self.tokens.len()
            invariant
                self.wf(),
                i <= self.tokens@.len(),
                forall|j: int| 0 <= j < i ==> self.tokens@[j]@ != token@,
            decreases self.tokens@.len() - i,
        {
            if self.tokens[i] == *token {
                return Some(i);
            }
            i = i + 1;
        }
        None
    }

    /// The identity cached for `token` at second `now`; `None` means that the
    /// token has to be verified.
    pub fn lookup(&self, token: &String, now: u64) -> (r: Option<String>)
        requires
            self.wf(),
        ensures
            opt_str_view(r) == cached(self@, token@, now as int),
    {
        match self.find(token) {
            Some(i) => {
                let at = self.verified_at[i];
                assert(self.model@.contains_key(self.tokens@[i as int]@));
                if now < at || now - at < CACHE_TTL_SECS {
                    Some(self.identities[i].clone())
                } else {
                    None
                }
            },
            None => None,
        }
    }

    /// Settles a verification of `token` made at second `now`: `verified` is
    /// the identity the provider vouched for, `None` when it refused or could
    /// not be reached. Only a success is cached.
    pub fn finish(&mut self, token: &String, verified: Option<String>, now: u64) -> (r: Result<
        String,
        AuthError,
    >)
        requires
            old(self).wf(),
        ensures
            final(self).wf(),
            final(self)@ == after_verification(old(self)@, token@, opt_str_view(verified), now as int),
            match verified {
                Some(id) => r is Ok && r->Ok_0@ == id@,
                None => r == Err::<String, AuthError>(AuthError::Unauthorized),
            },
    {
        match verified {
            None => Err(AuthError::Unauthorized),
            Some(id) => {
                let ghost entry = CacheEntryModel { identity: id@, verified_at: now as int };
                let ghost pre = *self;
                match self.find(token) {
                    Some(i) => {
                        self.identities.set(i, id.clone());
                        self.verified_at.set(i, now);
                        proof {
                            self.model@ = self.model@.insert(token@, entry);
                            assert forall|k: Seq<char>| #[trigger] self.model@.contains_key(k) implies exists|j: int|
                                0 <= j < self.tokens@.len() && #[trigger] self.tokens@[j]@ == k by {
                                if k == token@ {
                                    assert(self.tokens@[i as int]@ == k);
                                } else {
                                    let j = choose|j: int| 0 <= j < pre.tokens@.len() && #[trigger] pre.tokens@[j]@ == k;
                                    assert(self.tokens@[j]@ == k);
                                }
                            }
                            assert forall|a: int| 0 <= a < self.tokens@.len() implies #[trigger] self.model@.contains_key(self.tokens@[a]@)
                                && self.model@[self.tokens@[a]@] == (CacheEntryModel {
                                identity: self.identities@[a]@,
                                verified_at: self.verified_at@[a] as int,
                            }) by {
                                if a != i {
                                    assert(pre.model@.contains_key(pre.tokens@[a]@));
                                }
                            }
                        }
                    },
                    None => {
                        self.tokens.push(token.clone());
                        self.identities.push(id.clone());
                        self.verified_at.push(now);
                        proof {
                            let n = self.tokens@.len() - 1;
                            self.model@ = self.model@.insert(token@, entry);
                            assert(self.tokens@[n]@ == token@);
                            assert forall|k: Seq<char>| #[trigger] self.model@.contains_key(k) implies exists|j: int|
                                0 <= j < self.tokens@.len() && #[trigger] self.tokens@[j]@ == k by {
                                if k != token@ {
                                    let j = choose|j: int| 0 <= j < pre.tokens@.len() && #[trigger] pre.tokens@[j]@ == k;
                                    assert(self.tokens@[j]@ == k);
                                }
                            }
                            assert forall|a: int| 0 <= a < self.tokens@.len() implies #[trigger] self.model@.contains_key(self.tokens@[a]@)
                                && self.model@[self.tokens@[a]@] == (CacheEntryModel {
                                identity: self.identities@[a]@,
                                verified_at: self.verified_at@[a] as int,
                            }) by {
                                if a < n {
                                    assert(pre.model@.contains_key(pre.tokens@[a]@));
                                }
                            }
                        }
                    },
                }
                Ok(id)
            },
        }
    }
}

} // verus!
