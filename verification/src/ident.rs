//! Generation of the 20-character alphanumeric identifiers that name
//! stored files, and the byte-level alphabet they are drawn from.

use vstd::prelude::*;
use rand::Rng;

verus! {

/// The number of characters in every identifier.
pub const IDENT_LEN: usize = 20;

/// The size of the identifier alphabet: `A-Z`, `a-z` and `0-9`.
pub const ALPHABET_SIZE: u8 = 62;

/// Whether a byte is an ASCII letter or digit: `A`-`Z` (65-90),
/// `a`-`z` (97-122) or `0`-`9` (48-57).
pub open spec fn is_alnum_byte(b: u8) -> bool {
    (65 <= b <= 90) || (97 <= b <= 122) || (48 <= b <= 57)
}

/// Whether a byte sequence has the exact shape of an identifier:
/// twenty bytes, each an ASCII letter or digit.
pub open spec fn is_valid_ident(s: Seq<u8>) -> bool {
    &&& s.len() == IDENT_LEN
    &&& forall|i: int| 0 <= i < s.len() ==> is_alnum_byte(s[i])
}

/// The byte the alphabet assigns to an index below `ALPHABET_SIZE`:
/// the upper-case letters first, then the lower-case ones, then the digits.
pub open spec fn spec_alphabet_byte(i: int) -> u8 {
    if i < 26 {
        (65 + i) as u8
    } else if i < 52 {
        (97 + (i - 26)) as u8
    } else {
        (48 + (i - 52)) as u8
    }
}

/// Maps an index below `ALPHABET_SIZE` to its alphabet byte.
fn alphabet_byte(i: u8) -> (b: u8)
    requires
        i < ALPHABET_SIZE,
    ensures
        b == spec_alphabet_byte(i as int),
        is_alnum_byte(b),
{
    if i < 26 {
        65 + i
    } else if i < 52 {
        97 + (i - 26)
    } else {
        48 + (i - 52)
    }
}

/// Relies on `rand::Rng::gen_range` over the range `0..bound`: the draw
/// is uniform over that range, so the result lies below `bound`. The
/// call's only input-dependent panic is on an empty range, which the
/// precondition excludes; the thread-local generator itself can still
/// fail if the operating system's randomness source does, an
/// environmental failure independent of any input.
#[verifier::external_body]
fn random_below(bound: u8) -> (r: u8)
    requires
        bound > 0,
    ensures
        r < bound,
{
    rand::thread_rng().gen_range(0..bound)
}

/// Draws a fresh identifier: twenty bytes chosen from the alphanumeric
/// alphabet by a statistically uniform source of randomness. Generation
/// never fails; nothing is promised about two draws being distinct.
pub fn generate_identifier() -> (id: Vec<u8>)
    ensures
        is_valid_ident(id@),
{
    let mut id: Vec<u8> = Vec::new();
    while id.len() < IDENT_LEN
        invariant
            id@.len() <= IDENT_LEN,
            forall|k: int| 0 <= k < id@.len() ==> is_alnum_byte(id@[k]),
        decreases IDENT_LEN - id.len(),
    {
        let i = random_below(ALPHABET_SIZE);
        let b = alphabet_byte(i);
        id.push(b);
    }
    id
}

} // verus!
