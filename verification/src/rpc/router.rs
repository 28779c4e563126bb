//! The RPC router: handlers by method name.

use vstd::prelude::*;
use vstd::hash_map::StringHashMap;
use super::Error;

verus! {

/// The raw JSON-RPC request object.
pub struct RpcRequest {
    pub id: Option<serde_json::Value>,
    pub method: String,
    pub params: Option<serde_json::Value>,
}

/// A handler that can be turned into the router's handler type. Each
/// implementation says, by `dyn_handler`, which handler it turns into.
pub trait RpcHandler<H>: Sized {
    /// The router handler that this handler turns into.
    spec fn dyn_handler(self) -> H;

    fn into_dyn(self) -> (res: H)
        ensures
            res == self.dyn_handler(),
    ;
}

/// A handler of the router's own type is added as it is.
impl<H> RpcHandler<H> for H {
    open spec fn dyn_handler(self) -> H {
        self
    }

    fn into_dyn(self) -> (res: H) {
        self
    }
}

/// Calls the handler that matches a method name. Routers compose with
/// `extend`.
#[verifier::reject_recursive_types(H)]
pub struct RpcRouter<H> {
    route_by_name: StringHashMap<H>,
}

impl<H> View for RpcRouter<H> {
    type V = Map<Seq<char>, H>;

    closed spec fn view(&self) -> Map<Seq<char>, H> {
        self.route_by_name@
    }
}

impl<H> RpcRouter<H> {
    /// A router with no route.
    pub fn new() -> (res: Self)
        ensures
            res@ == Map::<Seq<char>, H>::empty(),
    {
        RpcRouter { route_by_name: StringHashMap::new() }
    }

    /// Adds the handler under `name`, replacing one already there.
    pub fn add_dyn(self, name: &str, dyn_handler: H) -> (res: Self)
        ensures
            res@ == self@.insert(name@, dyn_handler),
    {
        let mut route_by_name = self.route_by_name;
        route_by_name.insert(name.to_owned(), dyn_handler);
        RpcRouter { route_by_name }
    }

    /// Adds a handler under `name`, turned into the router's handler type,
    /// replacing one already there.
    pub fn add<F: RpcHandler<H>>(self, name: &str, handler: F) -> (res: Self)
        ensures
            res@ == self@.insert(name@, handler.dyn_handler()),
    {
        self.add_dyn(name, handler.into_dyn())
    }

    /// Adds the routes of `other`; where both have a route for a name, the
    /// one of `other` is kept.
    pub fn extend(self, other: RpcRouter<H>) -> (res: Self)
        ensures
            res@ == self@.union_prefer_right(other@),
    {
        let mut route_by_name = self.route_by_name;
        route_by_name.union_prefer_right(other.route_by_name);
        RpcRouter { route_by_name }
    }

    /// The handler for `method`, or `RpcMethodUnknown` with the method's name.
    pub fn route(&self, method: &str) -> (res: Result<&H, Error>)
        ensures
            match res {
                Ok(h) => self@.contains_key(method@) && *h == self@[method@],
                Err(e) => !self@.contains_key(method@) && (e matches Error::RpcMethodUnknown(m)
                    && m@ == method@),
            },
    {
        match self.route_by_name.get(method) {
            Some(h) => Ok(h),
            None => Err(Error::RpcMethodUnknown(method.to_owned())),
        }
    }
}

/// A route that was added is found under its name with the handler that was
/// added, and adding it leaves the routes of other names as they were.
pub proof fn lemma_added_route_is_found<H>(router: RpcRouter<H>, name: Seq<char>, handler: H, method: Seq<char>)
    ensures
        router@.insert(name, handler).contains_key(name),
        router@.insert(name, handler)[name] == handler,
        method != name ==> (router@.insert(name, handler).contains_key(method) == router@.contains_key(
            method,
        )),
        method != name && router@.contains_key(method) ==> router@.insert(name, handler)[method]
            == router@[method],
{
}

/// After `extend`, a method goes to the handler of the added router where it
/// has one, else to that of the first router, and is unknown where neither
/// has one.
pub proof fn lemma_extended_routes<H>(first: RpcRouter<H>, second: RpcRouter<H>, method: Seq<char>)
    ensures
        second@.contains_key(method) ==> first@.union_prefer_right(second@).contains_key(method)
            && first@.union_prefer_right(second@)[method] == second@[method],
        !second@.contains_key(method) ==> (first@.union_prefer_right(second@).contains_key(method)
            == first@.contains_key(method)),
        !second@.contains_key(method) && first@.contains_key(method) ==> first@.union_prefer_right(
            second@,
        )[method] == first@[method],
{
}

} // verus!
