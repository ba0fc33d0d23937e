//! Validation of download paths: a request path names a stored file only
//! when it is exactly `/download/<identifier>` for a well-formed
//! identifier. This structural check is the sole defense against path
//! traversal, so nothing but the twenty alphanumeric bytes is ever
//! extracted from an accepted path.

use vstd::prelude::*;
use crate::bytes::append_bytes;
use crate::ident::IDENT_LEN;
use crate::ident::is_alnum_byte;
use crate::ident::is_valid_ident;

verus! {

/// The length of the literal `/download/` prefix.
pub const PREFIX_LEN: usize = 10;

/// The bytes of the literal prefix `/download/`.
pub open spec fn spec_download_prefix() -> Seq<u8> {
    seq![47u8, 100u8, 111u8, 119u8, 110u8, 108u8, 111u8, 97u8, 100u8, 47u8]
}

/// Builds the `/download/` prefix bytes.
pub(crate) fn download_prefix() -> (v: Vec<u8>)
    ensures
        v@ == spec_download_prefix(),
{
    let mut v: Vec<u8> = Vec::new();
    v.push(47);
    v.push(100);
    v.push(111);
    v.push(119);
    v.push(110);
    v.push(108);
    v.push(111);
    v.push(97);
    v.push(100);
    v.push(47);
    assert(v@ =~= spec_download_prefix());
    v
}

/// Whether a path begins with the literal `/download/` prefix.
pub open spec fn spec_has_download_prefix(p: Seq<u8>) -> bool {
    p.len() >= PREFIX_LEN && p.subrange(0, PREFIX_LEN as int) == spec_download_prefix()
}

/// Whether the path begins with `/download/`.
pub fn has_download_prefix(path: &[u8]) -> (r: bool)
    ensures
        r == spec_has_download_prefix(path@),
{
    if path.len() < PREFIX_LEN {
        return false;
    }
    let prefix = download_prefix();
    let mut j: usize = 0;
    while j < PREFIX_LEN
        invariant
            j <= PREFIX_LEN,
            path@.len() >= PREFIX_LEN,
            prefix@ == spec_download_prefix(),
            forall|k: int| 0 <= k < j ==> path@[k] == spec_download_prefix()[k],
        decreases PREFIX_LEN - j,
    {
        if path[j] != prefix[j] {
            assert(path@.subrange(0, PREFIX_LEN as int) != spec_download_prefix()) by {
                if path@.subrange(0, PREFIX_LEN as int) == spec_download_prefix() {
                    assert(path@.subrange(0, PREFIX_LEN as int)[j as int] == path@[j as int]);
                }
            }
            return false;
        }
        j = j + 1;
    }
    assert(path@.subrange(0, PREFIX_LEN as int) =~= spec_download_prefix());
    true
}

/// The identifier a path names, when the whole path is
/// `/download/<identifier>`: ten prefix bytes, then exactly twenty
/// alphanumeric bytes, and nothing else before or after.
pub open spec fn spec_parse_download_path(p: Seq<u8>) -> Option<Seq<u8>> {
    if p.len() == PREFIX_LEN + IDENT_LEN && p.subrange(0, PREFIX_LEN as int)
        == spec_download_prefix() && (forall|i: int|
        PREFIX_LEN <= i < p.len() ==> is_alnum_byte(p[i])) {
        Some(p.subrange(PREFIX_LEN as int, p.len() as int))
    } else {
        None
    }
}

/// Checks a request path against the pattern `/download/<identifier>`
/// and extracts the identifier exactly when the whole path conforms.
pub fn parse_download_path(path: &[u8]) -> (r: Option<Vec<u8>>)
    ensures
        match r {
            Some(id) => spec_parse_download_path(path@) == Some(id@) && is_valid_ident(id@),
            None => spec_parse_download_path(path@) is None,
        },
{
    if path.len() != PREFIX_LEN + IDENT_LEN {
        return None;
    }
    if !has_download_prefix(path) {
        return None;
    }
    let mut id: Vec<u8> = Vec::new();
    let mut i: usize = PREFIX_LEN;
    while i < PREFIX_LEN + IDENT_LEN
        invariant
            PREFIX_LEN <= i <= PREFIX_LEN + IDENT_LEN,
            path@.len() == PREFIX_LEN + IDENT_LEN,
            id@ == path@.subrange(PREFIX_LEN as int, i as int),
            forall|k: int| PREFIX_LEN <= k < i ==> is_alnum_byte(path@[k]),
        decreases PREFIX_LEN + IDENT_LEN - i,
    {
        let b = path[i];
        if !((65 <= b && b <= 90) || (97 <= b && b <= 122) || (48 <= b && b <= 57)) {
            assert(!is_alnum_byte(path@[i as int]));
            return None;
        }
        id.push(b);
        i = i + 1;
        assert(id@ =~= path@.subrange(PREFIX_LEN as int, i as int));
    }
    assert(id@ =~= path@.subrange(PREFIX_LEN as int, path@.len() as int));
    Some(id)
}

/// The full request path under which an identifier can be downloaded.
pub open spec fn spec_download_path_for(id: Seq<u8>) -> Seq<u8> {
    spec_download_prefix() + id
}

/// Builds the request path `/download/<identifier>` for an identifier.
pub fn download_path_for(id: &[u8]) -> (p: Vec<u8>)
    ensures
        p@ == spec_download_path_for(id@),
{
    let mut p = download_prefix();
    append_bytes(&mut p, id);
    p
}

/// The path built for a well-formed identifier parses back to exactly
/// that identifier: the download handle an upload returns always names
/// the file it was returned for.
pub proof fn lemma_parse_download_path_round_trip(id: Seq<u8>)
    requires
        is_valid_ident(id),
    ensures
        spec_parse_download_path(spec_download_path_for(id)) == Some(id),
{
    let p = spec_download_path_for(id);
    assert(p.subrange(0, PREFIX_LEN as int) =~= spec_download_prefix());
    assert(forall|i: int| PREFIX_LEN <= i < p.len() ==> is_alnum_byte(#[trigger] p[i])) by {
        assert(forall|i: int|
            PREFIX_LEN <= i < p.len() ==> #[trigger] p[i] == id[i - PREFIX_LEN]);
    }
    assert(p.subrange(PREFIX_LEN as int, p.len() as int) =~= id);
}

} // verus!
