//! JSON-RPC: the request, its parameters, its errors and the router.

use vstd::prelude::*;
use crate::model;

pub mod params;
pub mod router;

verus! {

/// The errors of the RPC layer.
#[derive(Debug)]
pub enum Error {
    MissingCtx,
    RpcMethodUnknown(String),
    RpcIntoParamsMissing,
    Model(model::Error),
    SerdeJson(serde_json::Error),
}

impl From<model::Error> for Error {
    fn from(e: model::Error) -> (res: Self) {
        Error::Model(e)
    }
}

impl vstd::std_specs::convert::FromSpecImpl<model::Error> for Error {
    open spec fn obeys_from_spec() -> bool {
        true
    }

    open spec fn from_spec(e: model::Error) -> Self {
        Error::Model(e)
    }
}

impl From<serde_json::Error> for Error {
    fn from(e: serde_json::Error) -> (res: Self) {
        Error::SerdeJson(e)
    }
}

impl vstd::std_specs::convert::FromSpecImpl<serde_json::Error> for Error {
    open spec fn obeys_from_spec() -> bool {
        true
    }

    open spec fn from_spec(e: serde_json::Error) -> Self {
        Error::SerdeJson(e)
    }
}

} // verus!
