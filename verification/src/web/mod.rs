//! The web layer: its errors, what clients are told of them, and the
//! decisions of the authentication middleware.

pub mod error;
pub mod mw_auth;

pub use self::error::{ClientError, Error};
