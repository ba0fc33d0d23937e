use images_service::Method;
use images_service::Route;
use images_service::ServiceError;
use images_service::Store;
use images_service::download_path_for;
use images_service::error::status_for_error;
use images_service::generate_identifier;
use images_service::handle_download;
use images_service::handle_request;
use images_service::handle_upload;
use images_service::handler::upload_with_id;
use images_service::other;
use images_service::parse_download_path;
use images_service::response::fallback_response;
use images_service::response::index_response;
use images_service::response::download_read_failed_response;
use images_service::response::upload_create_failed_response;
use images_service::response::upload_write_failed_response;
use images_service::route::route;

fn upload(store: &mut Store, body: &[u8]) -> (u16, Vec<u8>) {
    let chunks = vec![body.to_vec()];
    let r = handle_request(store, Method::Post, b"/upload", &chunks);
    (r.status, r.body)
}

fn download(store: &mut Store, path: &[u8]) -> (u16, Vec<u8>) {
    let chunks: Vec<Vec<u8>> = Vec::new();
    let r = handle_request(store, Method::Get, path, &chunks);
    (r.status, r.body)
}

#[test]
fn identifier_is_twenty_alphanumeric_bytes() {
    for _ in 0..50 {
        let id = generate_identifier();
        assert_eq!(id.len(), 20);
        assert!(id.iter().all(|b| b.is_ascii_alphanumeric()));
    }
}

#[test]
fn upload_then_download_round_trip() {
    let mut store = Store::new();
    let (status, id) = upload(&mut store, b"some stored bytes");
    assert_eq!(status, 200);
    assert_eq!(id.len(), 20);
    let path = download_path_for(&id);
    let (status, body) = download(&mut store, &path);
    assert_eq!(status, 200);
    assert_eq!(body, b"some stored bytes");
}

#[test]
fn round_trip_of_empty_body() {
    let mut store = Store::new();
    let chunks: Vec<Vec<u8>> = Vec::new();
    let r = handle_upload(&mut store, &chunks);
    assert_eq!(r.status, 200);
    let path = download_path_for(&r.body);
    let (status, body) = download(&mut store, &path);
    assert_eq!(status, 200);
    assert!(body.is_empty());
}

#[test]
fn round_trip_of_multi_megabyte_body_in_chunks() {
    let mut store = Store::new();
    let chunk: Vec<u8> = (0..65536u32).map(|i| (i % 251) as u8).collect();
    let chunks: Vec<Vec<u8>> = std::iter::repeat(chunk.clone()).take(48).collect();
    let expected: Vec<u8> = chunks.concat();
    assert!(expected.len() > 3_000_000);
    let r = handle_upload(&mut store, &chunks);
    assert_eq!(r.status, 200);
    let path = download_path_for(&r.body);
    let (status, body) = download(&mut store, &path);
    assert_eq!(status, 200);
    assert_eq!(body, expected);
}

#[test]
fn chunks_are_stored_in_arrival_order() {
    let mut store = Store::new();
    let chunks = vec![b"first ".to_vec(), b"second ".to_vec(), b"third".to_vec()];
    let r = handle_upload(&mut store, &chunks);
    assert_eq!(r.status, 200);
    let path = download_path_for(&r.body);
    let (status, body) = download(&mut store, &path);
    assert_eq!(status, 200);
    assert_eq!(body, b"first second third");
}

#[test]
fn invalid_download_paths_get_404() {
    let mut store = Store::new();
    let (status, _) = upload(&mut store, b"content");
    assert_eq!(status, 200);
    let bad: &[&[u8]] = &[
        b"/download/shortid",
        b"/download/AAAAAAAAAAAAAAAAAAAAA",
        b"/download/AAAAAAAAAAAAAAAAAAA!",
        b"/download/AAAA.AAAAAAAAAAAAAAA",
        b"/download/AAAAAAAAAAAAAAAAAAAA/",
        b"/download/AAAAAAAAAAAAAAAAAAAA/x",
        b"/download/../../etc/passwd",
        b"/download/",
        b"/download",
        b"/downloadAAAAAAAAAAAAAAAAAAAAx",
    ];
    for path in bad {
        assert!(parse_download_path(path).is_none());
        let r = handle_download(&store, path);
        assert_eq!(r.status, 404, "path {:?}", String::from_utf8_lossy(path));
        assert_eq!(r.body, b"Invalid download path");
    }
}

#[test]
fn absent_identifier_gets_404() {
    let mut store = Store::new();
    let (status, _) = upload(&mut store, b"content");
    assert_eq!(status, 200);
    let (status, body) = download(&mut store, b"/download/zzzzzzzzzzzzzzzzzzzz");
    assert_eq!(status, 404);
    assert_eq!(body, b"File not found");
}

#[test]
fn hundred_uploads_are_distinct_and_each_downloadable() {
    let mut store = Store::new();
    let mut ids: Vec<Vec<u8>> = Vec::new();
    for n in 0..100u32 {
        let content = format!("payload number {}", n).into_bytes();
        let (status, id) = upload(&mut store, &content);
        assert_eq!(status, 200);
        ids.push(id);
    }
    for i in 0..ids.len() {
        for j in 0..i {
            assert_ne!(ids[i], ids[j]);
        }
    }
    for (n, id) in ids.iter().enumerate() {
        let path = download_path_for(id);
        let (status, body) = download(&mut store, &path);
        assert_eq!(status, 200);
        assert_eq!(body, format!("payload number {}", n).into_bytes());
    }
}

#[test]
fn index_route_returns_fixed_body() {
    let mut store = Store::new();
    let (status, body) = download(&mut store, b"/");
    assert_eq!(status, 200);
    assert_eq!(body, b"Images Microservice");
}

#[test]
fn example_scenario() {
    let mut store = Store::new();
    let (status, id) = upload(&mut store, b"hello");
    assert_eq!(status, 200);
    assert_eq!(id.len(), 20);
    assert!(id.iter().all(|b| b.is_ascii_alphanumeric()));
    let path = download_path_for(&id);
    let (status, body) = download(&mut store, &path);
    assert_eq!(status, 200);
    assert_eq!(body, b"hello");
    let mut bad = path.clone();
    let last = bad.len() - 1;
    bad[last] = b'!';
    let (status, body) = download(&mut store, &bad);
    assert_eq!(status, 404);
    assert_eq!(body, b"Invalid download path");
}

#[test]
fn router_dispatch() {
    assert_eq!(route(Method::Get, b"/"), Route::Index);
    assert_eq!(route(Method::Post, b"/upload"), Route::Upload);
    assert_eq!(route(Method::Get, b"/download/AAAAAAAAAAAAAAAAAAAA"), Route::Download);
    assert_eq!(route(Method::Get, b"/download/anything"), Route::Download);
    assert_eq!(route(Method::Get, b"/upload"), Route::Fallback);
    assert_eq!(route(Method::Post, b"/"), Route::Fallback);
    assert_eq!(route(Method::Post, b"/download/AAAAAAAAAAAAAAAAAAAA"), Route::Fallback);
    assert_eq!(route(Method::Other, b"/upload"), Route::Fallback);
    assert_eq!(route(Method::Other, b"/"), Route::Fallback);
}

#[test]
fn unrecognized_requests_get_not_found_body() {
    let mut store = Store::new();
    let chunks: Vec<Vec<u8>> = Vec::new();
    let r = handle_request(&mut store, Method::Other, b"/upload", &chunks);
    assert_eq!(r.status, 404);
    assert_eq!(r.body, b"Not found");
    let r = handle_request(&mut store, Method::Get, b"/elsewhere", &chunks);
    assert_eq!(r.status, 404);
    assert_eq!(r.body, b"Not found");
}

#[test]
fn error_kinds_map_to_status_codes() {
    assert_eq!(status_for_error(ServiceError::BadRequest), Some(404));
    assert_eq!(status_for_error(ServiceError::NotFound), Some(404));
    assert_eq!(status_for_error(ServiceError::AlreadyExists), Some(500));
    assert_eq!(status_for_error(ServiceError::IoError), Some(500));
    assert_eq!(status_for_error(ServiceError::TransportError), None);
    assert_eq!(other(), ServiceError::IoError);
    assert_eq!(status_for_error(other()), Some(500));
}

#[test]
fn storage_create_is_create_or_fail() {
    let mut store = Store::new();
    let id = generate_identifier();
    assert!(store.create(&id, b"one".to_vec()).is_ok());
    assert_eq!(store.create(&id, b"two".to_vec()), Err(ServiceError::AlreadyExists));
    assert_eq!(store.open(&id).unwrap(), b"one");
    let missing = generate_identifier();
    assert_eq!(store.open(&missing), Err(ServiceError::NotFound));
}

#[test]
fn colliding_identifier_gets_500_and_stores_nothing() {
    let mut store = Store::new();
    let id = generate_identifier();
    let chunks = vec![b"original".to_vec()];
    let r = upload_with_id(&mut store, &id, &chunks);
    assert_eq!(r.status, 200);
    assert_eq!(r.body, id);
    let clash = vec![b"clobber attempt".to_vec()];
    let r = upload_with_id(&mut store, &id, &clash);
    assert_eq!(r.status, 500);
    assert_eq!(r.body, b"Failed to create file");
    assert_eq!(store.open(&id).unwrap(), b"original");
}

#[test]
fn parse_extracts_exactly_the_identifier() {
    let id = b"aB3kL9mQ2xT7vR1nP4zW";
    let path = download_path_for(id);
    assert_eq!(path, b"/download/aB3kL9mQ2xT7vR1nP4zW");
    assert_eq!(parse_download_path(&path).as_deref(), Some(&id[..]));
}

#[test]
fn fixed_responses_carry_their_diagnostics() {
    let r = index_response();
    assert_eq!((r.status, r.body.as_slice()), (200, &b"Images Microservice"[..]));
    let r = upload_create_failed_response();
    assert_eq!((r.status, r.body.as_slice()), (500, &b"Failed to create file"[..]));
    let r = upload_write_failed_response();
    assert_eq!((r.status, r.body.as_slice()), (500, &b"Failed to write file"[..]));
    let r = download_read_failed_response();
    assert_eq!((r.status, r.body.as_slice()), (500, &b"Failed to read file"[..]));
    let r = fallback_response();
    assert_eq!((r.status, r.body.as_slice()), (404, &b"Not found"[..]));
}
