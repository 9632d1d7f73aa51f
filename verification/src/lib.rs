//! The request pipeline of a small operational HTTP service: correlation
//! identifiers, access-log lines, fallback responses, the static endpoints
//! and the shutdown state machine, each with a proved contract.

pub mod env;
pub mod fallback;
pub mod headers;
pub mod health;
pub mod json;
pub mod log_request;
pub mod request_id;
pub mod response;
pub mod shutdown;
pub mod text;
pub mod version;
