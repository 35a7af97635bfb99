//! The rules of the request middleware, apart from any HTTP framework.

pub mod auth_guard;
pub mod rate_limit;
pub mod request_size;
pub mod security_headers;
pub mod tenant_context;
