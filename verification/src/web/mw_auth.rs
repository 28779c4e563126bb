//! The decisions of the authentication middleware and of the context
//! extractor.

use vstd::prelude::*;
use super::error::Error;

verus! {

/// Why no authentication context could be had for a request.
#[derive(Debug, Clone)]
pub enum CtxExtError {
    TokenNotInCookie,
    CtxNotInRequestExt,
    CtxCreateFail(String),
}

/// Whether resolving the context must remove the authentication cookie:
/// whenever it failed for another reason than a missing token.
pub fn must_remove_auth_cookie<C>(result_ctx: &Result<C, CtxExtError>) -> (remove: bool)
    ensures
        remove <==> (result_ctx is Err && !(result_ctx matches Err(CtxExtError::TokenNotInCookie))),
{
    match result_ctx {
        Err(CtxExtError::TokenNotInCookie) => false,
        Err(_) => true,
        Ok(_) => false,
    }
}

/// The context that the request's extensions hold, or the web error for its
/// absence or for why it could not be resolved.
pub fn ctx_from_extension<C>(ext: Option<Result<C, CtxExtError>>) -> (res: Result<C, Error>)
    ensures
        match ext {
            None => res matches Err(Error::CtxExt(CtxExtError::CtxNotInRequestExt)),
            Some(Ok(ctx)) => res == Ok::<C, Error>(ctx),
            Some(Err(e)) => res matches Err(Error::CtxExt(e2)) && e2 == e,
        },
{
    match ext {
        None => Err(Error::CtxExt(CtxExtError::CtxNotInRequestExt)),
        Some(Ok(ctx)) => Ok(ctx),
        Some(Err(e)) => Err(Error::CtxExt(e)),
    }
}

/// A request goes on only with a context; otherwise its error is returned.
pub fn ctx_require<C>(ctx: Result<C, Error>) -> (res: Result<(), Error>)
    ensures
        match ctx {
            Ok(_) => res is Ok,
            Err(e) => res matches Err(e2) && e2 == e,
        },
{
    match ctx {
        Ok(_) => Ok(()),
        Err(e) => Err(e),
    }
}

} // verus!
