//! The parameters of RPC calls.

use vstd::prelude::*;
use modql::filter::ListOptions;
use super::Error;

verus! {

/// The parameters of any create call.
pub struct ParamsForCreate<D> {
    pub data: D,
}

/// The parameters of any update call.
pub struct ParamsForUpdate<D> {
    pub id: i64,
    pub data: D,
}

/// The parameters of any call on one entity.
pub struct ParamsIded {
    pub id: i64,
}

/// The options of a listing (`modql`), held opaque.
#[verifier::external_type_specification]
#[verifier::external_body]
pub struct ExListOptions(ListOptions);

/// The parameters of any list call: one filter or several, and the options.
pub struct ParamsList<F> {
    pub filters: Option<Vec<F>>,
    pub list_options: Option<ListOptions>,
}

/// Required parameters, from the result of parsing the request's params:
/// absent params are `RpcIntoParamsMissing`, and a parse error is kept.
pub fn params_required<T>(parsed: Option<Result<T, serde_json::Error>>) -> (res: Result<T, Error>)
    ensures
        match parsed {
            None => res matches Err(Error::RpcIntoParamsMissing),
            Some(Ok(v)) => res == Ok::<T, Error>(v),
            Some(Err(e)) => res matches Err(Error::SerdeJson(e2)) && e2 == e,
        },
{
    match parsed {
        None => Err(Error::RpcIntoParamsMissing),
        Some(Ok(v)) => Ok(v),
        Some(Err(e)) => Err(Error::SerdeJson(e)),
    }
}

/// Optional parameters, from the result of parsing the request's params:
/// absent params are `None`, and a parse error is kept.
pub fn params_optional<T>(parsed: Option<Result<T, serde_json::Error>>) -> (res: Result<
    Option<T>,
    Error,
>)
    ensures
        match parsed {
            None => res == Ok::<Option<T>, Error>(None),
            Some(Ok(v)) => res == Ok::<Option<T>, Error>(Some(v)),
            Some(Err(e)) => res matches Err(Error::SerdeJson(e2)) && e2 == e,
        },
{
    match parsed {
        None => Ok(None),
        Some(Ok(v)) => Ok(Some(v)),
        Some(Err(e)) => Err(Error::SerdeJson(e)),
    }
}

/// Parameters that have a default, from the result of parsing the request's
/// params: absent params are the default, and a parse error is kept.
pub fn params_or_default<T>(parsed: Option<Result<T, serde_json::Error>>, default: T) -> (res: Result<
    T,
    Error,
>)
    ensures
        match parsed {
            None => res == Ok::<T, Error>(default),
            Some(Ok(v)) => res == Ok::<T, Error>(v),
            Some(Err(e)) => res matches Err(Error::SerdeJson(e2)) && e2 == e,
        },
{
    match parsed {
        None => Ok(default),
        Some(Ok(v)) => Ok(v),
        Some(Err(e)) => Err(Error::SerdeJson(e)),
    }
}

} // verus!
