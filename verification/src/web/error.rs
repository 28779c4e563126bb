//! The errors of the web layer and the status and error that a client is
//! shown for each.

use vstd::prelude::*;
use crate::{crypt, model, token};
use super::mw_auth::CtxExtError;

verus! {

/// HTTP 400 Bad Request.
pub const STATUS_BAD_REQUEST: u16 = 400;

/// HTTP 403 Forbidden.
pub const STATUS_FORBIDDEN: u16 = 403;

/// HTTP 500 Internal Server Error.
pub const STATUS_INTERNAL_SERVER_ERROR: u16 = 500;

/// The errors of the web layer.
#[derive(Debug)]
pub enum Error {
    // -- RPC
    RpcMethodUnknown(String),
    RpcMissingParams { rpc_method: String },
    RpcFailJsonParams { rpc_method: String },
    // -- Login
    LoginFailUsernameNotFound,
    LoginFailUserHasNoPwd { user_id: i64 },
    LoginFailPwdNotMatching { user_id: i64 },
    // -- CtxExtError
    CtxExt(CtxExtError),
    // -- Modules
    Model(model::Error),
    Pwd(crypt::Error),
    Token(token::Error),
    // -- External Modules
    SerdeJson(serde_json::Error),
}

/// The error that a client is shown.
#[allow(non_camel_case_types)]
#[derive(Debug)]
pub enum ClientError {
    LOGIN_FAIL,
    NO_AUTH,
    ENTITY_NOT_FOUND { entity: &'static str, id: i64 },
    SERVICE_ERROR,
}

/// The status and the client error for a web error: a failed login is
/// forbidden, so is a missing or bad authentication context; an entity that
/// is not found is a bad request that names it; anything else is a service
/// error.
pub open spec fn client_status_and_error_spec(e: Error) -> (u16, ClientError) {
    match e {
        Error::LoginFailUsernameNotFound
        | Error::LoginFailUserHasNoPwd { .. }
        | Error::LoginFailPwdNotMatching { .. } => (STATUS_FORBIDDEN, ClientError::LOGIN_FAIL),
        Error::CtxExt(_) => (STATUS_FORBIDDEN, ClientError::NO_AUTH),
        Error::Model(model::Error::EntityNotFound { entity, id }) => (
            STATUS_BAD_REQUEST,
            ClientError::ENTITY_NOT_FOUND { entity, id },
        ),
        _ => (STATUS_INTERNAL_SERVER_ERROR, ClientError::SERVICE_ERROR),
    }
}

/// What a client is shown, over every web error: exactly the three login
/// failures and the authentication-context errors are 403 Forbidden (login
/// failures as `LOGIN_FAIL`, context errors as `NO_AUTH`); exactly the model
/// errors are 400 Bad Request, naming the entity and id not found; every
/// other error, token, password, JSON and RPC errors among them, is a 500
/// `SERVICE_ERROR`.
pub proof fn lemma_client_status_and_error(e: Error)
    ensures
        (client_status_and_error_spec(e).0 == 403) <==> (e is LoginFailUsernameNotFound || e is LoginFailUserHasNoPwd
            || e is LoginFailPwdNotMatching || e is CtxExt),
        (client_status_and_error_spec(e).0 == 400) <==> (e is Model),
        (client_status_and_error_spec(e).0 == 500) <==> !(e is LoginFailUsernameNotFound || e is LoginFailUserHasNoPwd
            || e is LoginFailPwdNotMatching || e is CtxExt || e is Model),
        (e is LoginFailUsernameNotFound || e is LoginFailUserHasNoPwd
            || e is LoginFailPwdNotMatching) ==> (client_status_and_error_spec(e).1 is LOGIN_FAIL),
        (e is CtxExt) ==> (client_status_and_error_spec(e).1 is NO_AUTH),
        (e matches Error::Model(model::Error::EntityNotFound { entity, id }) ==> (client_status_and_error_spec(e).1
            == (ClientError::ENTITY_NOT_FOUND { entity, id }))),
        (e is Token || e is Pwd || e is SerdeJson || e is RpcMethodUnknown
            || e is RpcMissingParams || e is RpcFailJsonParams) ==> (client_status_and_error_spec(e).1 is SERVICE_ERROR),
{
}

impl Error {
    /// The HTTP status code and the client error for this error.
    pub fn client_status_and_error(&self) -> (res: (u16, ClientError))
        ensures
            res == client_status_and_error_spec(*self),
            (res.0 == 403) <==> (*self is LoginFailUsernameNotFound || *self is LoginFailUserHasNoPwd
                || *self is LoginFailPwdNotMatching || *self is CtxExt),
            (res.0 == 400) <==> (*self is Model),
            (res.0 == 500) <==> !(*self is LoginFailUsernameNotFound || *self is LoginFailUserHasNoPwd
                || *self is LoginFailPwdNotMatching || *self is CtxExt || *self is Model),
            (*self is LoginFailUsernameNotFound || *self is LoginFailUserHasNoPwd
                || *self is LoginFailPwdNotMatching) ==> (res.1 is LOGIN_FAIL),
            (*self is CtxExt) ==> (res.1 is NO_AUTH),
            (*self matches Error::Model(model::Error::EntityNotFound { entity, id }) ==> (res.1
                == (ClientError::ENTITY_NOT_FOUND { entity, id }))),
            (*self is Token || *self is Pwd || *self is SerdeJson || *self is RpcMethodUnknown
                || *self is RpcMissingParams || *self is RpcFailJsonParams) ==> (res.1 is SERVICE_ERROR),
    {
        match self {
            // -- Login
            Error::LoginFailUsernameNotFound
            | Error::LoginFailUserHasNoPwd { .. }
            | Error::LoginFailPwdNotMatching { .. } => (STATUS_FORBIDDEN, ClientError::LOGIN_FAIL),
            // -- Auth
            Error::CtxExt(_) => (STATUS_FORBIDDEN, ClientError::NO_AUTH),
            // -- Model
            Error::Model(model::Error::EntityNotFound { entity, id }) => (
                STATUS_BAD_REQUEST,
                ClientError::ENTITY_NOT_FOUND { entity: *entity, id: *id },
            ),
            // -- Fallback
            _ => (STATUS_INTERNAL_SERVER_ERROR, ClientError::SERVICE_ERROR),
        }
    }
}

impl From<CtxExtError> for Error {
    fn from(e: CtxExtError) -> (res: Self) {
        Error::CtxExt(e)
    }
}

impl vstd::std_specs::convert::FromSpecImpl<CtxExtError> for Error {
    open spec fn obeys_from_spec() -> bool {
        true
    }

    open spec fn from_spec(e: CtxExtError) -> Self {
        Error::CtxExt(e)
    }
}

impl From<model::Error> for Error {
    fn from(e: model::Error) -> (res: Self) {
        Error::Model(e)
    }
}

impl vstd::std_specs::convert::FromSpecImpl<model::Error> for Error {
    open spec fn obeys_from_spec() -> bool {
        true
    }

    open spec fn from_spec(e: model::Error) -> Self {
        Error::Model(e)
    }
}

impl From<crypt::Error> for Error {
    fn from(e: crypt::Error) -> (res: Self) {
        Error::Pwd(e)
    }
}

impl vstd::std_specs::convert::FromSpecImpl<crypt::Error> for Error {
    open spec fn obeys_from_spec() -> bool {
        true
    }

    open spec fn from_spec(e: crypt::Error) -> Self {
        Error::Pwd(e)
    }
}

impl From<token::Error> for Error {
    fn from(e: token::Error) -> (res: Self) {
        Error::Token(e)
    }
}

impl vstd::std_specs::convert::FromSpecImpl<token::Error> for Error {
    open spec fn obeys_from_spec() -> bool {
        true
    }

    open spec fn from_spec(e: token::Error) -> Self {
        Error::Token(e)
    }
}

impl From<serde_json::Error> for Error {
    fn from(e: serde_json::Error) -> (res: Self) {
        Error::SerdeJson(e)
    }
}

impl vstd::std_specs::convert::FromSpecImpl<serde_json::Error> for Error {
    open spec fn obeys_from_spec() -> bool {
        true
    }

    open spec fn from_spec(e: serde_json::Error) -> Self {
        Error::SerdeJson(e)
    }
}

} // verus!
