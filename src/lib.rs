//! Header injection policy: configuration model, header application,
//! lifecycle root and the host call bridge's encoding and decoding.
pub mod config;
pub mod http_context;
pub mod root_context;
pub mod flex_abi;
