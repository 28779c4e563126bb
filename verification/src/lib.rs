//! Verified core of a small web application: URL-safe Base64, password
//! hashing with HMAC-SHA512, the JSON-RPC router, the web error mapping
//! and the data model.

pub mod b64;
pub mod mac;
pub mod pwd;
pub mod crypt;
pub mod ctx;
mod text;
pub mod json;
pub mod model;
pub mod rpc;
pub mod token;
pub mod web;
