//! Opaque external identifiers: random bytes, base58 text, truncated to a
//! display length and upper-cased.
use vstd::prelude::*;
use vstd::string::StrSliceExecFns;
use rand::RngCore;

verus! {

/// What `bs58::encode(..).into_string()` makes of a byte string.
pub uninterp spec fn b58_of(bytes: Seq<u8>) -> Seq<char>;

/// What `str::to_uppercase` makes of a text.
pub uninterp spec fn upper_of(s: Seq<char>) -> Seq<char>;

/// The first `len` characters of `s`, or all of it when shorter.
pub open spec fn prefix(s: Seq<char>, len: nat) -> Seq<char> {
    if s.len() <= len {
        s
    } else {
        s.subrange(0, len as int)
    }
}

/// The external id that the random key `key` gives at display length `len`.
pub open spec fn external_id_of(key: Seq<u8>, len: nat) -> Seq<char> {
    upper_of(prefix(b58_of(key), len))
}

/// Relies on `rand::rng()` and `RngCore::fill_bytes`: 64 bytes from the
/// thread-local generator.
#[verifier::external_body]
fn random_key() -> (r: Vec<u8>)
    ensures
        r@.len() == 64,
{
    let mut key = [0u8; 64];
    rand::rng().fill_bytes(&mut key);
    key.to_vec()
}

/// Relies on `bs58::encode(..).into_string()`: base58 text of the bytes in
/// the Bitcoin alphabet.
#[verifier::external_body]
fn b58_encode(bytes: &Vec<u8>) -> (r: String)
    ensures
        r@ == b58_of(bytes@),
{
    bs58::encode(bytes).into_string()
}

/// Relies on `str::to_uppercase`: Unicode upper-casing, a function of the text alone.
#[verifier::external_body]
fn uppercase(s: &str) -> (r: String)
    ensures
        r@ == upper_of(s@),
{
    s.to_uppercase()
}

/// The first `len` characters of `s`.
pub fn take_chars(s: &str, len: usize) -> (r: String)
    ensures
        r@ == prefix(s@, len as nat),
{
    let n = s.unicode_len();
    let end = if n <= len { n } else { len };
    let t = s.substring_char(0, end);
    proof {
        if n <= len {
            assert(s@.subrange(0, n as int) =~= s@);
        }
    }
    t.to_owned()
}

/// The external id made from the random key `key`: its base58 text,
/// truncated to `len` characters and upper-cased.
pub fn external_id(key: &Vec<u8>, len: usize) -> (r: String)
    ensures
        r@ == external_id_of(key@, len as nat),
{
    let text = b58_encode(key);
    let short = take_chars(text.as_str(), len);
    uppercase(short.as_str())
}

/// A fresh external id of display length `len` from 64 random bytes.
pub fn generate_id(len: usize) -> (r: String)
    ensures
        exists|key: Seq<u8>| key.len() == 64 && r@ == external_id_of(key, len as nat),
{
    let key = random_key();
    external_id(&key, len)
}

} // verus!
