//! The handlers: upload, download, and the full request dispatch, each
//! verified against the storage model.

use vstd::prelude::*;
use crate::bytes::append_bytes;
use crate::ident::generate_identifier;
use crate::ident::is_valid_ident;
use crate::path::parse_download_path;
use crate::path::spec_download_path_for;
use crate::path::spec_parse_download_path;
use crate::path::lemma_parse_download_path_round_trip;
use crate::response::Response;
use crate::response::fallback_response;
use crate::response::file_not_found_response;
use crate::response::file_response;
use crate::response::index_response;
use crate::response::invalid_path_response;
use crate::response::spec_create_failed_body;
use crate::response::spec_file_not_found_body;
use crate::response::spec_index_body;
use crate::response::spec_invalid_path_body;
use crate::response::spec_not_found_body;
use crate::response::upload_create_failed_response;
use crate::response::upload_ok_response;
use crate::route::Method;
use crate::route::Route;
use crate::route::route;
use crate::route::spec_route;
use crate::store::Store;

verus! {

/// The bytes an upload stores: the body's chunks joined in arrival order.
pub open spec fn spec_body_bytes(chunks: Seq<Vec<u8>>) -> Seq<u8> {
    chunks.map_values(|c: Vec<u8>| c@).flatten()
}

/// What a download of path `p` against store contents `m` answers:
/// a 404 with the invalid-path diagnostic when the path does not have
/// the required shape, a 404 with the not-found diagnostic when no file
/// backs the identifier, and otherwise a 200 carrying the stored bytes.
pub open spec fn spec_download(m: Map<Seq<u8>, Seq<u8>>, p: Seq<u8>) -> (u16, Seq<u8>) {
    match spec_parse_download_path(p) {
        Option::None => (404u16, spec_invalid_path_body()),
        Option::Some(id) => if m.contains_key(id) {
            (200u16, m[id])
        } else {
            (404u16, spec_file_not_found_body())
        },
    }
}

/// Stores the request body under a caller-supplied identifier: creates
/// the storage object, then writes the chunks into it in arrival order.
/// When a file for the identifier already exists — the collision the
/// generator makes astronomically unlikely but the service must still
/// handle — nothing is stored and the creation failure is reported.
pub fn upload_with_id(store: &mut Store, id: &[u8], chunks: &Vec<Vec<u8>>) -> (r: Response)
    requires
        old(store).wf(),
        is_valid_ident(id@),
    ensures
        final(store).wf(),
        !old(store)@.contains_key(id@) ==> r.status == 200 && r.body@ == id@ && final(store)@
            == old(store)@.insert(id@, spec_body_bytes(chunks@)),
        old(store)@.contains_key(id@) ==> r.status == 500 && r.body@
            == spec_create_failed_body() && final(store)@ == old(store)@,
{
    if store.contains(id) {
        return upload_create_failed_response();
    }
    let ghost mapped = chunks@.map_values(|c: Vec<u8>| c@);
    let mut data: Vec<u8> = Vec::new();
    let mut c: usize = 0;
    while c < chunks.len()
        invariant
            mapped == chunks@.map_values(|c: Vec<u8>| c@),
            c <= chunks@.len(),
            data@ == mapped.take(c as int).flatten(),
        decreases chunks@.len() - c,
    {
        append_bytes(&mut data, chunks[c].as_slice());
        proof {
            let pre = mapped.take(c as int);
            assert(mapped.take(c as int + 1) =~= pre.push(mapped[c as int]));
            pre.lemma_flatten_push(mapped[c as int]);
        }
        c = c + 1;
    }
    proof {
        assert(mapped.take(chunks@.len() as int) =~= mapped);
    }
    match store.create(id, data) {
        Ok(_) => upload_ok_response(id),
        Err(_) => {
            proof {
                assert(false);
            }
            upload_create_failed_response()
        },
    }
}

/// Answers `POST /upload`: draws a fresh identifier, stores the body
/// under it, and returns the identifier as the response body — the
/// caller's sole handle for retrieving the file. A 500 is possible only
/// when the freshly drawn identifier is already taken, in which case
/// nothing is stored; in particular, while no key of the store even has
/// the shape of an identifier, success is certain.
pub fn handle_upload(store: &mut Store, chunks: &Vec<Vec<u8>>) -> (r: Response)
    requires
        old(store).wf(),
    ensures
        final(store).wf(),
        r.status == 200 || r.status == 500,
        (forall|k: Seq<u8>| old(store)@.contains_key(k) ==> !is_valid_ident(k)) ==> r.status
            == 200,
        r.status == 200 ==> is_valid_ident(r.body@) && !old(store)@.contains_key(r.body@)
            && final(store)@ == old(store)@.insert(r.body@, spec_body_bytes(chunks@)),
        r.status == 500 ==> r.body@ == spec_create_failed_body() && final(store)@ == old(
            store,
        )@,
{
    let id = generate_identifier();
    upload_with_id(store, id.as_slice(), chunks)
}

/// Answers a `GET` download request: validates the path, then serves
/// the stored bytes, or reports why it cannot.
pub fn handle_download(store: &Store, path: &[u8]) -> (r: Response)
    requires
        store.wf(),
    ensures
        r.status == spec_download(store@, path@).0,
        r.body@ == spec_download(store@, path@).1,
{
    match parse_download_path(path) {
        None => invalid_path_response(),
        Some(id) => match store.open(id.as_slice()) {
            Ok(data) => file_response(data),
            Err(_) => file_not_found_response(),
        },
    }
}

/// Dispatches one request and answers it: the index page on `GET /`,
/// an upload on `POST /upload`, a download on `GET /download/...`, and
/// the generic not-found answer everywhere else. Only an upload ever
/// changes the store.
pub fn handle_request(store: &mut Store, method: Method, path: &[u8], chunks: &Vec<Vec<u8>>) -> (r:
    Response)
    requires
        old(store).wf(),
    ensures
        final(store).wf(),
        spec_route(method, path@) != Route::Upload ==> final(store)@ == old(store)@,
        spec_route(method, path@) == Route::Index ==> r.status == 200 && r.body@
            == spec_index_body(),
        spec_route(method, path@) == Route::Download ==> r.status == spec_download(
            old(store)@,
            path@,
        ).0 && r.body@ == spec_download(old(store)@, path@).1,
        spec_route(method, path@) == Route::Fallback ==> r.status == 404 && r.body@
            == spec_not_found_body(),
        spec_route(method, path@) == Route::Upload ==> {
            &&& r.status == 200 || r.status == 500
            &&& (forall|k: Seq<u8>| old(store)@.contains_key(k) ==> !is_valid_ident(k))
                ==> r.status == 200
            &&& r.status == 200 ==> is_valid_ident(r.body@) && !old(store)@.contains_key(r.body@)
                && final(store)@ == old(store)@.insert(r.body@, spec_body_bytes(chunks@))
            &&& r.status == 500 ==> r.body@ == spec_create_failed_body() && final(store)@ == old(
                store,
            )@
        },
{
    match route(method, path) {
        Route::Index => index_response(),
        Route::Upload => handle_upload(store, chunks),
        Route::Download => handle_download(store, path),
        Route::Fallback => fallback_response(),
    }
}

/// Round trip: inserting a body under a fresh well-formed identifier —
/// exactly what a successful upload does — and then requesting the path
/// built from that identifier dispatches to the download handler and
/// answers 200 with exactly the uploaded bytes.
pub proof fn lemma_upload_then_download(m: Map<Seq<u8>, Seq<u8>>, id: Seq<u8>, body: Seq<u8>)
    requires
        is_valid_ident(id),
        !m.contains_key(id),
    ensures
        spec_route(Method::Get, spec_download_path_for(id)) == Route::Download,
        spec_download(m.insert(id, body), spec_download_path_for(id)) == (200u16, body),
{
    lemma_parse_download_path_round_trip(id);
    let p = spec_download_path_for(id);
    assert(p.subrange(0, crate::path::PREFIX_LEN as int) =~= crate::path::spec_download_prefix());
    assert(p != crate::route::spec_index_path()) by {
        if p == crate::route::spec_index_path() {
            assert(p.len() == 1);
        }
    }
}

/// The store contents after the first `i` uploads of a run that starts
/// from contents `m`: each upload inserts its body under its identifier.
pub open spec fn spec_uploads_state(
    m: Map<Seq<u8>, Seq<u8>>,
    ids: Seq<Seq<u8>>,
    bodies: Seq<Seq<u8>>,
    i: int,
) -> Map<Seq<u8>, Seq<u8>>
    decreases i,
{
    if i <= 0 {
        m
    } else {
        spec_uploads_state(m, ids, bodies, i - 1).insert(ids[i - 1], bodies[i - 1])
    }
}

/// Whether every upload of the run succeeded: at its turn, its
/// identifier was not yet a key of the store.
pub open spec fn spec_uploads_fresh(
    m: Map<Seq<u8>, Seq<u8>>,
    ids: Seq<Seq<u8>>,
    bodies: Seq<Seq<u8>>,
) -> bool {
    forall|i: int|
        0 <= i < ids.len() ==> !spec_uploads_state(m, ids, bodies, i).contains_key(
            #[trigger] ids[i],
        )
}

/// After a run of successful uploads, each upload's entry is present
/// and carries exactly that upload's bytes.
proof fn lemma_uploads_state_at(
    m: Map<Seq<u8>, Seq<u8>>,
    ids: Seq<Seq<u8>>,
    bodies: Seq<Seq<u8>>,
    i: int,
    k: int,
)
    requires
        ids.len() == bodies.len(),
        spec_uploads_fresh(m, ids, bodies),
        0 <= k < i <= ids.len(),
    ensures
        spec_uploads_state(m, ids, bodies, i).contains_key(ids[k]),
        spec_uploads_state(m, ids, bodies, i)[ids[k]] == bodies[k],
    decreases i,
{
    if k < i - 1 {
        lemma_uploads_state_at(m, ids, bodies, i - 1, k);
        assert(!spec_uploads_state(m, ids, bodies, i - 1).contains_key(ids[i - 1]));
    }
}

/// A run of uploads that all succeed returns pairwise distinct
/// identifiers, and afterwards each identifier's download path answers
/// 200 with exactly that upload's bytes: successful uploads never
/// interfere with one another or mix content, however many there are.
/// Concurrent scheduling itself is the transport's affair and is not
/// statable here; this is the store-level heart of that guarantee.
pub proof fn lemma_uploads_are_independent(
    m: Map<Seq<u8>, Seq<u8>>,
    ids: Seq<Seq<u8>>,
    bodies: Seq<Seq<u8>>,
)
    requires
        ids.len() == bodies.len(),
        forall|i: int| 0 <= i < ids.len() ==> is_valid_ident(#[trigger] ids[i]),
        spec_uploads_fresh(m, ids, bodies),
    ensures
        forall|i: int, j: int| 0 <= i < j < ids.len() ==> ids[i] != ids[j],
        forall|k: int|
            0 <= k < ids.len() ==> spec_download(
                spec_uploads_state(m, ids, bodies, ids.len() as int),
                spec_download_path_for(#[trigger] ids[k]),
            ) == (200u16, bodies[k]),
{
    assert forall|i: int, j: int| 0 <= i < j < ids.len() implies ids[i] != ids[j] by {
        lemma_uploads_state_at(m, ids, bodies, j, i);
        assert(!spec_uploads_state(m, ids, bodies, j).contains_key(ids[j]));
    }
    assert forall|k: int|
        0 <= k < ids.len() implies spec_download(
        spec_uploads_state(m, ids, bodies, ids.len() as int),
        spec_download_path_for(ids[k]),
    ) == (200u16, bodies[k]) by {
        lemma_uploads_state_at(m, ids, bodies, ids.len() as int, k);
        lemma_parse_download_path_round_trip(ids[k]);
    }
}

/// A syntactically invalid download path is answered 404 — never a 500
/// — whatever the store holds.
pub proof fn lemma_invalid_path_is_404(m: Map<Seq<u8>, Seq<u8>>, p: Seq<u8>)
    requires
        spec_parse_download_path(p) is None,
    ensures
        spec_download(m, p).0 == 404,
        spec_download(m, p).1 == spec_invalid_path_body(),
{
}

/// A well-formed path whose identifier has no stored file is answered
/// 404 with the not-found diagnostic.
pub proof fn lemma_absent_ident_is_404(m: Map<Seq<u8>, Seq<u8>>, p: Seq<u8>, id: Seq<u8>)
    requires
        spec_parse_download_path(p) == Some(id),
        !m.contains_key(id),
    ensures
        spec_download(m, p).0 == 404,
        spec_download(m, p).1 == spec_file_not_found_body(),
{
}

} // verus!
