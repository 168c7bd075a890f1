//! Token authentication, token generation, and the OAuth state registry.
//!
//! The decision logic is verified here; the HTTP middleware plumbing and
//! the OAuth exchange itself live at the I/O edge and call in for every
//! decision.

use vstd::prelude::*;
use base64::Engine;
use crate::text::str_eq;

verus! {

/// Bearer-token authentication: one shared token, checked on every
/// request.
#[derive(Clone)]
pub struct TokenAuth {
    token: String,
}

/// Whether the authorization header grants access for this token: a
/// `Bearer ` prefix followed by exactly the token.
pub open spec fn header_grants(token: Seq<char>, header: Option<&str>) -> bool {
    header matches Some(h) && h@.len() >= 7 && h@.subrange(0, 7) == "Bearer "@ && h@.skip(7)
        == token
}

/// Whether a request passes the token check: the health endpoint is open
/// to everyone, everything else needs a granting header.
pub open spec fn request_allowed(token: Seq<char>, path: Seq<char>, header: Option<&str>) -> bool {
    path == "/health"@ || header_grants(token, header)
}

impl TokenAuth {
    /// Authentication against this fixed token.
    pub fn new(token: String) -> (r: TokenAuth)
        ensures
            r.token_spec() == token@,
    {
        TokenAuth { token }
    }

    /// The configured token.
    pub closed spec fn token_spec(&self) -> Seq<char> {
        self.token@
    }

    /// The configured token.
    pub fn token(&self) -> (r: &String)
        ensures
            r@ == self.token_spec(),
    {
        &self.token
    }

    /// The middleware's whole decision: whether a request with this path
    /// and authorization header may pass.
    pub fn authorize(&self, path: &str, header: Option<&str>) -> (r: bool)
        ensures
            r == request_allowed(self.token_spec(), path@, header),
    {
        if str_eq(path, "/health") {
            return true;
        }
        match header {
            Option::None => false,
            Option::Some(h) => {
                let n = h.unicode_len();
                if n < 7 {
                    return false;
                }
                let prefix = h.substring_char(0, 7);
                if !str_eq(prefix, "Bearer ") {
                    return false;
                }
                let rest = h.substring_char(7, n);
                proof {
                    assert(rest@ =~= h@.skip(7));
                }
                str_eq(rest, self.token.as_str())
            },
        }
    }
}

/// A bearer token with its expiry, as handed to OAuth clients.
pub struct Token {
    pub value: String,
    /// Expiry as a Unix timestamp in seconds.
    pub expires_at: i64,
}

/// Whether a token is usable at all: empty tokens are rejected, anything
/// else passes this shallow check.
pub fn validate_token(token: &str) -> (r: bool)
    ensures
        r == (token@.len() != 0),
{
    !token.is_empty()
}

/// What the base64 standard-alphabet encoding of a byte sequence reads
/// as; a function of the bytes alone.
pub uninterp spec fn base64_of(bytes: Seq<u8>) -> Seq<char>;

/// Relies on base64's `STANDARD` engine: the standard alphabet with
/// padding, so the output is a pure function of the input and four
/// characters long for every started group of three bytes. The engine
/// panics when the encoded length cannot be represented in a `usize`,
/// so that length is required to fit.
#[verifier::external_body]
pub fn encode(data: &[u8]) -> (r: String)
    requires
        4 * ((data@.len() + 2) / 3) <= usize::MAX,
    ensures
        r@ == base64_of(data@),
        r@.len() == 4 * ((data@.len() + 2) / 3),
{
    base64::engine::general_purpose::STANDARD.encode(data)
}

/// Relies on rand's thread-local generator for 32 random bytes; nothing
/// is promised of their values.
#[verifier::external_body]
fn random_bytes() -> (r: Vec<u8>)
    ensures
        r@.len() == 32,
{
    let mut rng = rand::thread_rng();
    let bytes: [u8; 32] = rand::Rng::gen(&mut rng);
    bytes.to_vec()
}

/// A fresh random token: 32 random bytes, base64-encoded. Always 44
/// characters, hence never empty and always accepted by
/// [`validate_token`].
pub fn generate_token() -> (r: String)
    ensures
        r@.len() == 44,
        exists|b: Seq<u8>| b.len() == 32 && r@ == base64_of(b),
{
    let bytes = random_bytes();
    let r = encode(bytes.as_slice());
    proof {
        assert(bytes@.len() == 32 && r@ == base64_of(bytes@));
    }
    r
}

/// Static description of an OAuth provider.
#[derive(Clone)]
pub struct OAuthConfig {
    pub client_id: String,
    pub client_secret: String,
    pub redirect_url: String,
    pub auth_url: String,
    pub token_url: String,
    pub scopes: Vec<String>,
}

/// The pending OAuth states: one entry per authorization begun, each
/// consumed exactly once by the exchange that answers it.
pub struct StateRegistry {
    states: Vec<(String, i64)>,
}

/// The first index carrying `key`, or the length when none does.
pub open spec fn find_state(states: Seq<(String, i64)>, key: Seq<char>) -> int
    decreases states.len(),
{
    if states.len() == 0 {
        0
    } else if states.first().0@ == key {
        0
    } else {
        1 + find_state(states.drop_first(), key)
    }
}

/// Whether some entry carries `key`.
pub open spec fn has_state(states: Seq<(String, i64)>, key: Seq<char>) -> bool {
    exists|i: int| 0 <= i < states.len() && #[trigger] states[i].0@ == key
}

impl StateRegistry {
    /// The registered `(state, created_at)` entries, in order of
    /// registration.
    pub closed spec fn entries(&self) -> Seq<(String, i64)> {
        self.states@
    }

    /// An empty registry.
    pub fn new() -> (r: StateRegistry)
        ensures
            r.entries() == Seq::<(String, i64)>::empty(),
    {
        let r = StateRegistry { states: Vec::new() };
        proof {
            assert(r.entries() =~= Seq::<(String, i64)>::empty());
        }
        r
    }

    /// Registers a freshly issued state with its creation time.
    pub fn register(&mut self, state: String, created_at: i64)
        ensures
            final(self).entries() == old(self).entries().push((state, created_at)),
    {
        self.states.push((state, created_at));
    }

    /// Consumes a state: when it is registered, its first entry is
    /// removed and the exchange may proceed; when it is not, nothing
    /// changes and the exchange must be rejected as invalid.
    pub fn consume(&mut self, state: &str) -> (found: bool)
        ensures
            found == has_state(old(self).entries(), state@),
            found ==> final(self).entries() == old(self).entries().remove(
                find_state(old(self).entries(), state@)),
            !found ==> final(self).entries() == old(self).entries(),
    {
        let n = self.states.len();
        let mut i: usize = 0;
        while i < n
            invariant
                i <= n,
                n == self.states.len(),
                *self == *old(self),
                forall|j: int| 0 <= j < i ==> self.states@[j].0@ != state@,
            decreases n - i,
        {
            if str_eq(self.states[i].0.as_str(), state) {
                proof {
                    lemma_find_state_first(self.states@, state@, i as int);
                }
                self.states.remove(i);
                assert(has_state(old(self).entries(), state@));
                return true;
            }
            i = i + 1;
        }
        assert(!has_state(old(self).entries(), state@));
        false
    }
}

/// When the first `i` entries miss the key and entry `i` carries it,
/// `find_state` lands exactly on `i`.
proof fn lemma_find_state_first(states: Seq<(String, i64)>, key: Seq<char>, i: int)
    requires
        0 <= i < states.len(),
        states[i].0@ == key,
        forall|j: int| 0 <= j < i ==> states[j].0@ != key,
    ensures
        find_state(states, key) == i,
    decreases i,
{
    if i > 0 {
        lemma_find_state_first(states.drop_first(), key, i - 1);
    }
}

} // verus!
