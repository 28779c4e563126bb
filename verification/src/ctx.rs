//! The request context: the user on whose behalf a request runs.

use vstd::prelude::*;

verus! {

/// The errors of making a context.
#[derive(Debug, PartialEq, Eq, Structural)]
pub enum Error {
    CtxCannotNewRootCtx,
}

/// The context of a request: the id of its user. The root context, id 0,
/// is only had from `root_ctx`.
#[derive(Clone, Debug)]
pub struct Ctx {
    user_id: i64,
}

impl View for Ctx {
    type V = i64;

    closed spec fn view(&self) -> i64 {
        self.user_id
    }
}

impl Ctx {
    /// The root context.
    pub fn root_ctx() -> (res: Self)
        ensures
            res@ == 0,
    {
        Ctx { user_id: 0 }
    }

    /// The context of the user `user_id`; refused for the root user 0.
    pub fn new(user_id: i64) -> (res: Result<Self, Error>)
        ensures
            user_id == 0 ==> res == Err::<Ctx, Error>(Error::CtxCannotNewRootCtx),
            user_id != 0 ==> (res matches Ok(c) && c@ == user_id),
    {
        if user_id == 0 {
            Err(Error::CtxCannotNewRootCtx)
        } else {
            Ok(Ctx { user_id })
        }
    }

    /// The id of the context's user.
    pub fn user_id(&self) -> (res: i64)
        ensures
            res == self@,
    {
        self.user_id
    }
}

} // verus!
