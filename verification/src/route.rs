//! Pure dispatch of an inbound request by method and path.

use vstd::prelude::*;
use crate::bytes::bytes_eq;
use crate::path::has_download_prefix;
use crate::path::spec_has_download_prefix;

verus! {

/// The request methods the service distinguishes; every method other
/// than `GET` and `POST` falls through to the not-found response.
#[derive(Clone, Copy, Debug, PartialEq, Eq, Structural)]
pub enum Method {
    Get,
    Post,
    Other,
}

/// Where a request is dispatched.
#[derive(Clone, Copy, Debug, PartialEq, Eq, Structural)]
pub enum Route {
    /// `GET /`: the fixed index body.
    Index,
    /// `POST /upload`: store the request body under a fresh identifier.
    Upload,
    /// `GET /download/...`: serve a stored file back.
    Download,
    /// Everything else: a generic not-found response.
    Fallback,
}

/// The bytes of the path `/`.
pub open spec fn spec_index_path() -> Seq<u8> {
    seq![47u8]
}

/// The bytes of the path `/upload`.
pub open spec fn spec_upload_path() -> Seq<u8> {
    seq![47u8, 117u8, 112u8, 108u8, 111u8, 97u8, 100u8]
}

/// The dispatch rule: `GET /` is the index, `POST /upload` is an upload,
/// any `GET` under `/download/` is a download attempt, and every other
/// method or path falls through.
pub open spec fn spec_route(m: Method, p: Seq<u8>) -> Route {
    if m == Method::Get && p == spec_index_path() {
        Route::Index
    } else if m == Method::Post && p == spec_upload_path() {
        Route::Upload
    } else if m == Method::Get && spec_has_download_prefix(p) {
        Route::Download
    } else {
        Route::Fallback
    }
}

/// Builds the `/upload` path bytes.
fn upload_path() -> (v: Vec<u8>)
    ensures
        v@ == spec_upload_path(),
{
    let mut v: Vec<u8> = Vec::new();
    v.push(47);
    v.push(117);
    v.push(112);
    v.push(108);
    v.push(111);
    v.push(97);
    v.push(100);
    assert(v@ =~= spec_upload_path());
    v
}

/// Dispatches a request by method and path.
pub fn route(method: Method, path: &[u8]) -> (r: Route)
    ensures
        r == spec_route(method, path@),
{
    match method {
        Method::Get => {
            if path.len() == 1 && path[0] == 47 {
                assert(path@ =~= spec_index_path());
                Route::Index
            } else if has_download_prefix(path) {
                assert(path@ != spec_index_path()) by {
                    if path@ == spec_index_path() {
                        assert(path@.len() == 1);
                    }
                }
                Route::Download
            } else {
                assert(path@ != spec_index_path()) by {
                    if path@ == spec_index_path() {
                        assert(path@.len() == 1 && path@[0] == 47);
                    }
                }
                Route::Fallback
            }
        },
        Method::Post => {
            let up = upload_path();
            if bytes_eq(path, up.as_slice()) {
                Route::Upload
            } else {
                Route::Fallback
            }
        },
        Method::Other => Route::Fallback,
    }
}

} // verus!
