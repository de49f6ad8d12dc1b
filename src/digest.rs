use vstd::prelude::*;
use vstd::string::StringSliceAdditionalSpecFns;

use sha2::Digest;

verus! {

/// A running SHA-256 computation over the bytes fed to it so far; it holds
/// a `sha2::Sha256` that only the functions below touch.
#[verifier::external_body]
pub struct Sha256Stream {
    inner: sha2::Sha256,
}

/// The bytes that have been fed to a running SHA-256 computation.
pub uninterp spec fn fed_bytes(h: Sha256Stream) -> Seq<u8>;

/// The SHA-256 digest of a byte sequence.
pub uninterp spec fn sha256_of(b: Seq<u8>) -> Seq<u8>;

/// Relies on `sha2::Sha256::new`: a fresh computation has been fed nothing.
#[verifier::external_body]
pub(crate) fn sha256_start() -> (r: Sha256Stream)
    ensures
        fed_bytes(r) == Seq::<u8>::empty(),
{
    Sha256Stream { inner: sha2::Sha256::new() }
}

/// Relies on `sha2::Digest::update`: the computation has now also been fed `data`.
#[verifier::external_body]
pub(crate) fn sha256_feed(h: &mut Sha256Stream, data: &[u8])
    ensures
        fed_bytes(*final(h)) == fed_bytes(*old(h)) + data@,
{
    h.inner.update(data);
}

/// Relies on `sha2::Digest::finalize`: the 32-byte digest of all bytes fed.
#[verifier::external_body]
pub(crate) fn sha256_finish(h: Sha256Stream) -> (r: Vec<u8>)
    ensures
        r@ == sha256_of(fed_bytes(h)),
        r@.len() == 32,
{
    h.inner.finalize().to_vec()
}

/// The lower-case hexadecimal digit for a value below 16.
pub open spec fn hex_digit(n: int) -> char {
    seq!['0', '1', '2', '3', '4', '5', '6', '7', '8', '9', 'a', 'b', 'c', 'd', 'e', 'f'][n]
}

/// Lower-case hexadecimal text of a byte sequence: two digits per byte, high
/// nibble first.
pub open spec fn hex_lower(b: Seq<u8>) -> Seq<char> {
    Seq::new(
        2 * b.len(),
        |i: int|
            if i % 2 == 0 {
                hex_digit(b[i / 2] as int / 16)
            } else {
                hex_digit(b[i / 2] as int % 16)
            },
    )
}

/// Relies on `hex::encode`: lower-case hex, two digits per byte, high nibble first.
#[verifier::external_body]
pub(crate) fn hex_encode(b: &[u8]) -> (r: String)
    ensures
        r@ == hex_lower(b@),
{
    hex::encode(b)
}

/// The SHA-256 digest of the UTF-8 bytes of `token`, as lower-case hex,
/// cut to its first twelve digits.
pub open spec fn fingerprint_of(token: Seq<char>) -> Seq<char> {
    hex_lower(sha256_of(vstd::utf8::encode_utf8(token))).take(12)
}

/// A short, stable identifier of a secret token that does not reveal it: the
/// first twelve hex digits of its SHA-256 digest.
pub fn token_fingerprint(token: &str) -> (r: String)
    ensures
        r@ == fingerprint_of(token@),
{
    let mut h = sha256_start();
    sha256_feed(&mut h, token.as_bytes());
    let d = sha256_finish(h);
    let mut head: Vec<u8> = Vec::new();
    let mut i: usize = 0;
    while i < 6
        invariant
            i <= 6,
            d@.len() == 32,
            head@ == d@.take(i as int),
        decreases 6 - i,
    {
        head.push(d[i]);
        i = i + 1;
        assert(head@ =~= d@.take(i as int));
    }
    let r = hex_encode(head.as_slice());
    assert(r@ =~= hex_lower(d@).take(12));
    r
}

} // verus!
