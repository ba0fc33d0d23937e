//! A small file-hosting service core: uploads are stored under freshly
//! generated 20-character alphanumeric identifiers and served back on
//! `GET /download/<identifier>`.
//!
//! Everything here is pure logic over bytes: routing, identifier
//! generation, path validation, the storage model, and the handlers.
//! The transport and the real filesystem live outside this crate.

pub mod bytes;
pub mod error;
pub mod handler;
pub mod ident;
pub mod path;
pub mod response;
pub mod route;
pub mod store;

pub use error::ServiceError;
pub use error::other;
pub use handler::handle_download;
pub use handler::handle_request;
pub use handler::handle_upload;
pub use ident::generate_identifier;
pub use path::download_path_for;
pub use path::parse_download_path;
pub use response::Response;
pub use route::Method;
pub use route::Route;
pub use store::Store;
