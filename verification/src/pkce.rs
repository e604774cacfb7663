use vstd::prelude::*;

use base64::Engine;
use rand::RngCore;
use sha2::Digest;
use vstd::string::StrSliceExecFns;
use vstd::string::StringExecFns;

verus! {

/// The verifier must be at least this many characters long.
pub const MIN_VERIFIER_LEN: usize = 43;

/// The verifier must be at most this many characters long.
pub const MAX_VERIFIER_LEN: usize = 128;

/// The character appended when a raw verifier falls short of the minimum.
pub const VERIFIER_FILLER: char = 'A';

/// The URL-safe base64 alphabet: letters, digits, `-` and `_`.
pub open spec fn is_b64url_char(c: char) -> bool {
    ('A' <= c <= 'Z') || ('a' <= c <= 'z') || ('0' <= c <= '9') || c == '-' || c == '_'
}

/// Every character of `s` lies in the URL-safe base64 alphabet.
pub open spec fn is_b64url_seq(s: Seq<char>) -> bool {
    forall|i| 0 <= i < s.len() ==> is_b64url_char(#[trigger] s[i])
}

/// A URL-safe-alphabet string is in particular ASCII.
pub proof fn lemma_b64url_seq_is_ascii(s: Seq<char>)
    requires
        is_b64url_seq(s),
    ensures
        vstd::utf8::is_ascii_chars(s),
{
    assert forall|i| 0 <= i < s.len() implies '\0' <= #[trigger] s[i] <= '\u{7f}' by {
        assert(is_b64url_char(s[i]));
    }
}

/// What `base64`'s URL-safe, unpadded engine encodes `b` to.
pub uninterp spec fn b64url_of(b: Seq<u8>) -> Seq<char>;

/// The SHA-256 digest of `b`.
pub uninterp spec fn sha256_of(b: Seq<u8>) -> Seq<u8>;

/// The bytes of an ASCII character sequence, one per character.
pub open spec fn ascii_bytes_of(s: Seq<char>) -> Seq<u8> {
    Seq::new(s.len(), |i: int| s[i] as u8)
}

/// The PKCE challenge derived from a verifier: the URL-safe base64 encoding
/// of the SHA-256 digest of the verifier's ASCII bytes.
pub open spec fn challenge_of(verifier: Seq<char>) -> Seq<char> {
    b64url_of(sha256_of(ascii_bytes_of(verifier)))
}

/// The derived challenge is a pure function of the verifier: equal
/// verifiers always yield equal challenges.
pub proof fn lemma_challenge_deterministic(v1: Seq<char>, v2: Seq<char>)
    requires
        v1 == v2,
    ensures
        challenge_of(v1) == challenge_of(v2),
{
}

/// Relies on rand's `OsRng::fill_bytes`: fills the buffer from the
/// operating system's entropy source, and aborts the process if that
/// source fails rather than falling back to a weaker one. Nothing can be
/// promised of the values themselves.
#[verifier::external_body]
fn random_bytes_48() -> (r: Vec<u8>)
    ensures
        r@.len() == 48,
{
    let mut buf = [0u8; 48];
    rand::rngs::OsRng.fill_bytes(&mut buf);
    buf.to_vec()
}

/// Relies on base64's `URL_SAFE_NO_PAD` engine: encodes to the documented
/// unpadded length, emitting only URL-safe alphabet characters.
#[verifier::external_body]
fn b64url_encode(b: &[u8]) -> (r: String)
    requires
        b@.len() < 1000000,
    ensures
        r@ == b64url_of(b@),
        r@.len() == (4 * b@.len() + 2) / 3,
        is_b64url_seq(r@),
{
    base64::engine::general_purpose::URL_SAFE_NO_PAD.encode(b)
}

/// Relies on sha2's `Sha256::digest`: a 32-byte digest determined by the
/// input alone.
#[verifier::external_body]
fn sha256(b: &[u8]) -> (r: Vec<u8>)
    ensures
        r@ == sha256_of(b@),
        r@.len() == 32,
{
    sha2::Sha256::digest(b).to_vec()
}

/// `n` filler characters.
pub open spec fn filler(n: nat) -> Seq<char>
    decreases n,
{
    if n == 0 {
        Seq::empty()
    } else {
        filler((n - 1) as nat).push(VERIFIER_FILLER)
    }
}

pub proof fn lemma_filler_len(n: nat)
    ensures
        filler(n).len() == n,
        forall|i| 0 <= i < n ==> #[trigger] filler(n)[i] == VERIFIER_FILLER,
    decreases n,
{
    if n > 0 {
        lemma_filler_len((n - 1) as nat);
    }
}

/// A raw verifier brought into the PKCE length bounds: shorter inputs are
/// padded with the filler character up to the minimum, longer ones are cut
/// at the maximum, and anything already in bounds is kept as it is.
pub open spec fn normalized_spec(raw: Seq<char>) -> Seq<char> {
    if raw.len() > MAX_VERIFIER_LEN {
        raw.subrange(0, MAX_VERIFIER_LEN as int)
    } else if raw.len() >= MIN_VERIFIER_LEN {
        raw
    } else {
        raw + filler((MIN_VERIFIER_LEN - raw.len()) as nat)
    }
}

/// Forces a raw verifier into the PKCE bounds of 43 to 128 characters.
pub fn normalize_verifier(raw: String) -> (v: String)
    requires
        is_b64url_seq(raw@),
    ensures
        v@ == normalized_spec(raw@),
        MIN_VERIFIER_LEN <= v@.len() <= MAX_VERIFIER_LEN,
        is_b64url_seq(v@),
{
    let mut v = raw;
    let ghost raw_view = v@;
    proof {
        assert(v@ =~= raw_view + filler(0));
    }
    while v.as_str().unicode_len() < MIN_VERIFIER_LEN
        invariant
            v@.len() >= raw_view.len(),
            v@ == raw_view + filler((v@.len() - raw_view.len()) as nat),
            v@.len() <= MIN_VERIFIER_LEN || v@ == raw_view,
            is_b64url_seq(raw_view),
        decreases MIN_VERIFIER_LEN - v@.len(),
    {
        proof {
            reveal_strlit("A");
        }
        v.append("A");
        proof {
            assert("A"@ =~= seq![VERIFIER_FILLER]);
            assert(v@ =~= raw_view + filler((v@.len() - raw_view.len()) as nat));
        }
    }
    proof {
        lemma_filler_len((v@.len() - raw_view.len()) as nat);
        if raw_view.len() >= MIN_VERIFIER_LEN {
            assert(raw_view + filler(0) =~= raw_view);
        }
        assert(is_b64url_seq(v@)) by {
            assert forall|i| 0 <= i < v@.len() implies is_b64url_char(#[trigger] v@[i]) by {
                if i >= raw_view.len() {
                    assert(v@[i] == filler((v@.len() - raw_view.len()) as nat)[i - raw_view.len()]);
                }
            }
        }
    }
    if v.as_str().unicode_len() > MAX_VERIFIER_LEN {
        proof {
            lemma_b64url_seq_is_ascii(v@);
        }
        let cut = String::from_str(v.as_str().substring_ascii(0, MAX_VERIFIER_LEN));
        proof {
            assert(is_b64url_seq(cut@)) by {
                assert forall|i| 0 <= i < cut@.len() implies is_b64url_char(#[trigger] cut@[i]) by {
                    assert(cut@[i] == v@[i]);
                }
            }
        }
        cut
    } else {
        v
    }
}

/// Derives the PKCE challenge from an ASCII verifier.
pub fn challenge_for(verifier: &str) -> (r: String)
    requires
        verifier.is_ascii(),
    ensures
        r@ == challenge_of(verifier@),
        r@.len() == 43,
        is_b64url_seq(r@),
{
    broadcast use vstd::string::is_ascii_spec_bytes;

    let bytes = verifier.as_bytes();
    proof {
        assert(bytes@ =~= ascii_bytes_of(verifier@));
    }
    let digest = sha256(bytes);
    b64url_encode(digest.as_slice())
}

/// Produces a fresh PKCE pair: a random URL-safe verifier within the
/// required length bounds and the challenge derived from it.
pub fn generate_pkce_pair() -> (r: (String, String))
    ensures
        MIN_VERIFIER_LEN <= r.0@.len() <= MAX_VERIFIER_LEN,
        is_b64url_seq(r.0@),
        r.1@ == challenge_of(r.0@),
{
    let raw = random_bytes_48();
    let encoded = b64url_encode(raw.as_slice());
    let verifier = normalize_verifier(encoded);
    proof {
        lemma_b64url_seq_is_ascii(verifier@);
    }
    let challenge = challenge_for(verifier.as_str());
    (verifier, challenge)
}

} // verus!
