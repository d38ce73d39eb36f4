//! A post-response middleware for routerify that stamps every response with
//! permissive cross-origin resource sharing (CORS) headers.

pub mod cors;
pub mod headers;
pub mod middleware;
pub mod scaffold;

pub use cors::{insert_cors_headers, CorsError};
pub use middleware::{enable_cors_all, enable_cors_all_middleware_handler};
