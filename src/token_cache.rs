use vstd::prelude::*;
use vstd::utf8::encode_utf8;
use vstd::string::StringExecFns;

use crate::clock::Timestamp;

verus! {

/// Suffix of every file of the token cache.
pub const CACHE_FILE_EXTENSION: &'static str = ".json";

/// The SHA-1 digest of a byte string.
pub uninterp spec fn sha1_of(data: Seq<u8>) -> Seq<u8>;

/// The lowercase hexadecimal digit for a value below sixteen.
pub open spec fn hex_digit(v: int) -> char {
    if v < 10 {
        ((v + 48) as u8) as char
    } else {
        ((v - 10 + 97) as u8) as char
    }
}

/// Lowercase hexadecimal text of a byte string: two digits per byte, the
/// high nibble first.
pub open spec fn hex_lower(data: Seq<u8>) -> Seq<char> {
    Seq::new(
        (2 * data.len()) as nat,
        |i: int|
            if i % 2 == 0 {
                hex_digit(data[i / 2] as int / 16)
            } else {
                hex_digit(data[i / 2] as int % 16)
            },
    )
}

/// Name of the cache file that holds the session token for `start_url`:
/// the hex-encoded SHA-1 digest of the URL's UTF-8 bytes, then the extension.
pub open spec fn cache_filename_of(start_url: Seq<char>) -> Seq<char> {
    hex_lower(sha1_of(encode_utf8(start_url))) + CACHE_FILE_EXTENSION@
}

/// Relies on sha1's `Sha1::digest`, through the `Digest` trait, for the
/// SHA-1 digest of `data`.
#[verifier::external_body]
fn sha1_digest(data: &[u8]) -> (r: Vec<u8>)
    ensures
        r@ == sha1_of(data@),
{
    <sha1::Sha1 as sha1::Digest>::digest(data).to_vec()
}

/// Relies on hex's `encode`: lowercase digits, two per byte, high nibble first.
#[verifier::external_body]
fn hex_encode(data: &[u8]) -> (r: String)
    ensures
        r@ == hex_lower(data@),
{
    hex::encode(data)
}

/// File name, inside the token cache directory, of the token for `start_url`.
pub fn get_cache_filename(start_url: &str) -> (r: String)
    ensures
        r@ == cache_filename_of(start_url@),
{
    let digest = sha1_digest(start_url.as_bytes());
    let mut name = hex_encode(digest.as_slice());
    name.append(CACHE_FILE_EXTENSION);
    name
}

/// A session token as the external login flow left it in the token cache.
#[derive(Clone, Debug)]
pub struct CachedSSOToken {
    pub access_token: String,
    pub expires_at: Timestamp,
    pub region: String,
    pub start_url: String,
}

impl CachedSSOToken {
    /// A token is usable at `now` when its access token is not empty and it
    /// expires strictly after `now`.
    pub open spec fn spec_is_usable_at(&self, now: Timestamp) -> bool {
        &&& self.access_token@.len() > 0
        &&& now.spec_is_before(self.expires_at)
    }

    /// Whether the token has expired at `now`; expiring exactly at `now`
    /// counts as expired.
    pub fn is_expired_at(&self, now: &Timestamp) -> (r: bool)
        ensures
            r == !now.spec_is_before(self.expires_at),
    {
        !now.is_before(&self.expires_at)
    }

    /// Whether the token may be used at `now`.
    pub fn is_usable_at(&self, now: &Timestamp) -> (r: bool)
        ensures
            r == self.spec_is_usable_at(*now),
    {
        !self.access_token.as_str().is_empty() && !self.is_expired_at(now)
    }
}

/// What the token cache yields at `now` for a token read from it, if any:
/// the token when it is usable, nothing otherwise.
pub open spec fn spec_accept_cached_token(token: Option<CachedSSOToken>, now: Timestamp) -> Option<
    CachedSSOToken,
> {
    match token {
        Some(t) => if t.spec_is_usable_at(now) {
            Some(t)
        } else {
            None
        },
        None => None,
    }
}

/// Keeps a token read from the token cache only if it is usable at `now`.
/// A missing or unreadable file is handed in as `None`; the reader never
/// reports why no token came out.
pub fn accept_cached_token(token: Option<CachedSSOToken>, now: Timestamp) -> (r: Option<
    CachedSSOToken,
>)
    ensures
        r == spec_accept_cached_token(token, now),
{
    match token {
        Some(t) => if t.is_usable_at(&now) {
            Some(t)
        } else {
            None
        },
        None => None,
    }
}

proof fn lemma_hex_digit_injective(u: int, v: int)
    requires
        0 <= u < 16,
        0 <= v < 16,
        hex_digit(u) == hex_digit(v),
    ensures
        u == v,
{
}

proof fn lemma_hex_lower_injective(x: Seq<u8>, y: Seq<u8>)
    requires
        hex_lower(x) == hex_lower(y),
    ensures
        x == y,
{
    assert(hex_lower(x).len() == hex_lower(y).len());
    assert(hex_lower(x).len() == 2 * x.len());
    assert(hex_lower(y).len() == 2 * y.len());
    assert(x.len() == y.len());
    assert forall|k: int| 0 <= k < x.len() implies x[k] == y[k] by {
        assert((2 * k) / 2 == k && (2 * k) % 2 == 0);
        assert((2 * k + 1) / 2 == k && (2 * k + 1) % 2 == 1);
        assert(hex_lower(x)[2 * k] == hex_digit(x[k] as int / 16));
        assert(hex_lower(y)[2 * k] == hex_digit(y[k] as int / 16));
        assert(hex_lower(x)[2 * k + 1] == hex_digit(x[k] as int % 16));
        assert(hex_lower(y)[2 * k + 1] == hex_digit(y[k] as int % 16));
        lemma_hex_digit_injective(x[k] as int / 16, y[k] as int / 16);
        lemma_hex_digit_injective(x[k] as int % 16, y[k] as int % 16);
    }
    assert(x =~= y);
}

/// The cache file name is a function of the start URL alone, and two start
/// URLs share a file name exactly when their UTF-8 bytes have the same SHA-1
/// digest.
pub proof fn lemma_cache_filename_deterministic(a: Seq<char>, b: Seq<char>)
    ensures
        a == b ==> cache_filename_of(a) == cache_filename_of(b),
        cache_filename_of(a) == cache_filename_of(b) <==> sha1_of(encode_utf8(a)) == sha1_of(
            encode_utf8(b),
        ),
{
    let ha = hex_lower(sha1_of(encode_utf8(a)));
    let hb = hex_lower(sha1_of(encode_utf8(b)));
    let ext = CACHE_FILE_EXTENSION@;
    if cache_filename_of(a) == cache_filename_of(b) {
        assert(cache_filename_of(a) == ha + ext);
        assert(cache_filename_of(b) == hb + ext);
        assert((ha + ext).len() == ha.len() + ext.len());
        assert((hb + ext).len() == hb.len() + ext.len());
        assert(ha.len() == hb.len());
        assert(ha =~= (ha + ext).subrange(0, ha.len() as int));
        assert(hb =~= (hb + ext).subrange(0, hb.len() as int));
        lemma_hex_lower_injective(sha1_of(encode_utf8(a)), sha1_of(encode_utf8(b)));
    }
}

/// A token read from the cache is kept exactly when its access token is not
/// empty and it expires strictly after `now`: one that expires at `now`, or
/// one with an empty access token, is never kept.
pub proof fn lemma_token_acceptance(token: CachedSSOToken, now: Timestamp)
    ensures
        spec_accept_cached_token(Some(token), now) == (if token.access_token@.len() > 0
            && now.spec_is_before(token.expires_at) {
            Some(token)
        } else {
            None
        }),
        token.expires_at == now ==> spec_accept_cached_token(Some(token), now) is None,
        token.access_token@.len() == 0 ==> spec_accept_cached_token(Some(token), now) is None,
{
}

} // verus!
