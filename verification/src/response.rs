//! The response type and the fixed bodies the service answers with.
//!
//! Success bodies carry the identifier or the stored bytes; failure
//! bodies are fixed plain-text diagnostics that never disclose internal
//! detail such as filesystem paths.

use vstd::prelude::*;
use crate::bytes::copy_bytes;

verus! {

/// One HTTP response: a status code and the full body.
///
/// A body served from storage may be arbitrarily large; the transport
/// layer is free to send it as a lazy sequence of chunks, which leaves
/// the bytes and their order exactly as stated here.
pub struct Response {
    pub status: u16,
    pub body: Vec<u8>,
}

/// The bytes of the fixed index body, `Images Microservice`.
pub open spec fn spec_index_body() -> Seq<u8> {
    seq![73u8, 109, 97, 103, 101, 115, 32, 77, 105, 99, 114, 111, 115, 101, 114, 118, 105, 99, 101]
}

/// The bytes of the diagnostic `Failed to create file`.
pub open spec fn spec_create_failed_body() -> Seq<u8> {
    seq![70u8, 97, 105, 108, 101, 100, 32, 116, 111, 32, 99, 114, 101, 97, 116, 101, 32, 102, 105, 108, 101]
}

/// The bytes of the diagnostic `Failed to write file`.
pub open spec fn spec_write_failed_body() -> Seq<u8> {
    seq![70u8, 97, 105, 108, 101, 100, 32, 116, 111, 32, 119, 114, 105, 116, 101, 32, 102, 105, 108, 101]
}

/// The bytes of the diagnostic `Failed to read file`.
pub open spec fn spec_read_failed_body() -> Seq<u8> {
    seq![70u8, 97, 105, 108, 101, 100, 32, 116, 111, 32, 114, 101, 97, 100, 32, 102, 105, 108, 101]
}

/// The bytes of the diagnostic `File not found`.
pub open spec fn spec_file_not_found_body() -> Seq<u8> {
    seq![70u8, 105, 108, 101, 32, 110, 111, 116, 32, 102, 111, 117, 110, 100]
}

/// The bytes of the diagnostic `Invalid download path`.
pub open spec fn spec_invalid_path_body() -> Seq<u8> {
    seq![73u8, 110, 118, 97, 108, 105, 100, 32, 100, 111, 119, 110, 108, 111, 97, 100, 32, 112, 97, 116, 104]
}

/// The bytes of the diagnostic `Not found`.
pub open spec fn spec_not_found_body() -> Seq<u8> {
    seq![78u8, 111, 116, 32, 102, 111, 117, 110, 100]
}

/// Builds the fixed index body.
pub fn index_body() -> (v: Vec<u8>)
    ensures
        v@ == spec_index_body(),
{
    let mut v: Vec<u8> = Vec::new();
    v.push(73);
    v.push(109);
    v.push(97);
    v.push(103);
    v.push(101);
    v.push(115);
    v.push(32);
    v.push(77);
    v.push(105);
    v.push(99);
    v.push(114);
    v.push(111);
    v.push(115);
    v.push(101);
    v.push(114);
    v.push(118);
    v.push(105);
    v.push(99);
    v.push(101);
    assert(v@ =~= spec_index_body());
    v
}

/// Builds the diagnostic `Failed to create file`.
pub fn create_failed_body() -> (v: Vec<u8>)
    ensures
        v@ == spec_create_failed_body(),
{
    let mut v: Vec<u8> = Vec::new();
    v.push(70);
    v.push(97);
    v.push(105);
    v.push(108);
    v.push(101);
    v.push(100);
    v.push(32);
    v.push(116);
    v.push(111);
    v.push(32);
    v.push(99);
    v.push(114);
    v.push(101);
    v.push(97);
    v.push(116);
    v.push(101);
    v.push(32);
    v.push(102);
    v.push(105);
    v.push(108);
    v.push(101);
    assert(v@ =~= spec_create_failed_body());
    v
}

/// Builds the diagnostic `Failed to write file`.
pub fn write_failed_body() -> (v: Vec<u8>)
    ensures
        v@ == spec_write_failed_body(),
{
    let mut v: Vec<u8> = Vec::new();
    v.push(70);
    v.push(97);
    v.push(105);
    v.push(108);
    v.push(101);
    v.push(100);
    v.push(32);
    v.push(116);
    v.push(111);
    v.push(32);
    v.push(119);
    v.push(114);
    v.push(105);
    v.push(116);
    v.push(101);
    v.push(32);
    v.push(102);
    v.push(105);
    v.push(108);
    v.push(101);
    assert(v@ =~= spec_write_failed_body());
    v
}

/// Builds the diagnostic `Failed to read file`.
pub fn read_failed_body() -> (v: Vec<u8>)
    ensures
        v@ == spec_read_failed_body(),
{
    let mut v: Vec<u8> = Vec::new();
    v.push(70);
    v.push(97);
    v.push(105);
    v.push(108);
    v.push(101);
    v.push(100);
    v.push(32);
    v.push(116);
    v.push(111);
    v.push(32);
    v.push(114);
    v.push(101);
    v.push(97);
    v.push(100);
    v.push(32);
    v.push(102);
    v.push(105);
    v.push(108);
    v.push(101);
    assert(v@ =~= spec_read_failed_body());
    v
}

/// Builds the diagnostic `File not found`.
pub fn file_not_found_body() -> (v: Vec<u8>)
    ensures
        v@ == spec_file_not_found_body(),
{
    let mut v: Vec<u8> = Vec::new();
    v.push(70);
    v.push(105);
    v.push(108);
    v.push(101);
    v.push(32);
    v.push(110);
    v.push(111);
    v.push(116);
    v.push(32);
    v.push(102);
    v.push(111);
    v.push(117);
    v.push(110);
    v.push(100);
    assert(v@ =~= spec_file_not_found_body());
    v
}

/// Builds the diagnostic `Invalid download path`.
pub fn invalid_path_body() -> (v: Vec<u8>)
    ensures
        v@ == spec_invalid_path_body(),
{
    let mut v: Vec<u8> = Vec::new();
    v.push(73);
    v.push(110);
    v.push(118);
    v.push(97);
    v.push(108);
    v.push(105);
    v.push(100);
    v.push(32);
    v.push(100);
    v.push(111);
    v.push(119);
    v.push(110);
    v.push(108);
    v.push(111);
    v.push(97);
    v.push(100);
    v.push(32);
    v.push(112);
    v.push(97);
    v.push(116);
    v.push(104);
    assert(v@ =~= spec_invalid_path_body());
    v
}

/// Builds the diagnostic `Not found`.
pub fn not_found_body() -> (v: Vec<u8>)
    ensures
        v@ == spec_not_found_body(),
{
    let mut v: Vec<u8> = Vec::new();
    v.push(78);
    v.push(111);
    v.push(116);
    v.push(32);
    v.push(102);
    v.push(111);
    v.push(117);
    v.push(110);
    v.push(100);
    assert(v@ =~= spec_not_found_body());
    v
}

/// The `200` answer to `GET /`.
pub fn index_response() -> (r: Response)
    ensures
        r.status == 200,
        r.body@ == spec_index_body(),
{
    Response { status: 200, body: index_body() }
}

/// The `200` answer to a fully stored upload: the body is exactly the
/// identifier, the caller's sole handle for retrieving the file later.
pub fn upload_ok_response(id: &[u8]) -> (r: Response)
    ensures
        r.status == 200,
        r.body@ == id@,
{
    Response { status: 200, body: copy_bytes(id) }
}

/// The `500` answer when the storage object could not be created.
pub fn upload_create_failed_response() -> (r: Response)
    ensures
        r.status == 500,
        r.body@ == spec_create_failed_body(),
{
    Response { status: 500, body: create_failed_body() }
}

/// The `500` answer when a body chunk could not be written to storage.
pub fn upload_write_failed_response() -> (r: Response)
    ensures
        r.status == 500,
        r.body@ == spec_write_failed_body(),
{
    Response { status: 500, body: write_failed_body() }
}

/// The `500` answer when a stored file exists but could not be read.
pub fn download_read_failed_response() -> (r: Response)
    ensures
        r.status == 500,
        r.body@ == spec_read_failed_body(),
{
    Response { status: 500, body: read_failed_body() }
}

/// The `404` answer to a download path that does not fit the pattern.
pub fn invalid_path_response() -> (r: Response)
    ensures
        r.status == 404,
        r.body@ == spec_invalid_path_body(),
{
    Response { status: 404, body: invalid_path_body() }
}

/// The `404` answer to a well-formed identifier with no stored file.
pub fn file_not_found_response() -> (r: Response)
    ensures
        r.status == 404,
        r.body@ == spec_file_not_found_body(),
{
    Response { status: 404, body: file_not_found_body() }
}

/// The `200` answer that serves stored bytes back.
pub fn file_response(data: Vec<u8>) -> (r: Response)
    ensures
        r.status == 200,
        r.body@ == data@,
{
    Response { status: 200, body: data }
}

/// The generic `404` answer to any unrecognized method or path.
pub fn fallback_response() -> (r: Response)
    ensures
        r.status == 404,
        r.body@ == spec_not_found_body(),
{
    Response { status: 404, body: not_found_body() }
}

} // verus!
