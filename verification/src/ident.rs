//! URL-safe random identifier generation.

use vstd::prelude::*;
use vstd::string::StrSliceExecFns;
use vstd::string::StringExecFns;

verus! {

/// A character of the URL-safe alphabet: ASCII letters, digits, `-` and `_`.
pub open spec fn is_url_safe_char(c: char) -> bool {
    ||| ('A' as u32) <= (c as u32) <= ('Z' as u32)
    ||| ('a' as u32) <= (c as u32) <= ('z' as u32)
    ||| ('0' as u32) <= (c as u32) <= ('9' as u32)
    ||| c == '-'
    ||| c == '_'
}

/// Every character of the sequence is URL-safe.
pub open spec fn is_url_safe(s: Seq<char>) -> bool {
    forall|i: int| 0 <= i < s.len() ==> is_url_safe_char(#[trigger] s[i])
}

/// Relies on rand's thread-local generator: `fill_bytes` fills the whole
/// buffer with random data. Nothing is promised of the byte values. A
/// failure of the operating system's randomness source during initial
/// seeding aborts the process; the generator treats that as a fatal defect,
/// never as a recoverable error.
#[verifier::external_body]
fn random_bytes(len: usize) -> (r: Vec<u8>)
    ensures
        r@.len() == len,
{
    let mut buf = vec![0u8; len];
    rand::Rng::fill_bytes(&mut rand::rng(), buf.as_mut_slice());
    buf
}

/// Relies on base64's URL-safe engine without padding: encoding `n` bytes
/// yields exactly `ceil(4n/3)` characters, each drawn from the 64-character
/// URL-safe alphabet (letters, digits, `-`, `_`).
#[verifier::external_body]
fn base64_url_no_pad(bytes: &Vec<u8>) -> (r: String)
    ensures
        r@.len() == (bytes@.len() * 4 + 2) / 3,
        is_url_safe(r@),
{
    base64::Engine::encode(&base64::engine::general_purpose::URL_SAFE_NO_PAD, bytes.as_slice())
}

/// Identifier generator: produces a fresh random identifier of exactly
/// `len` characters, each from the URL-safe alphabet.
///
/// The generator consults no persisted state: it does not know which
/// identifiers are taken, and two calls share no observable sequence state.
pub fn generate(len: usize) -> (r: String)
    requires
        1 <= len,
    ensures
        r@.len() == len,
        is_url_safe(r@),
{
    let bytes = random_bytes(len);
    let encoded = base64_url_no_pad(&bytes);
    assert(len <= encoded@.len()) by (nonlinear_arith)
        requires
            encoded@.len() == (len * 4 + 2) / 3,
    ;
    let r = encoded.as_str().substring_char(0, len).to_owned();
    assert(is_url_safe(r@));
    r
}

/// Pads a chosen slug that is shorter than `target` by appending freshly
/// generated random characters until it reaches `target` length; the
/// original string stays as the prefix.
pub fn pad_to_length(s: &String, target: usize) -> (r: String)
    requires
        s@.len() < target,
    ensures
        r@.len() == target,
        r@.subrange(0, s@.len() as int) == s@,
        forall|i: int| s@.len() <= i < target ==> is_url_safe_char(#[trigger] r@[i]),
{
    let n = s.as_str().unicode_len();
    let pad = generate(target - n);
    let mut r = s.clone();
    r.append(pad.as_str());
    assert(r@.subrange(0, s@.len() as int) =~= s@);
    r
}

} // verus!
