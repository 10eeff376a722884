//! The registry of routes: adding, merging and calling by name.

use crate::error::RpcError;
use crate::rpc_handler_wrapper::RpcHandlerWrapperTrait;
use serde_json::Value;
use vstd::hash_map::StringHashMap;
use vstd::prelude::*;

verus! {

/// A registry of routes by method name.
///
/// A router is built by a chain of [`RpcRouter::add`] and
/// [`RpcRouter::extend`], each of which takes the router and gives it back,
/// and is then only read. Its view is the map from method name to route.
#[verifier::reject_recursive_types(H)]
pub struct RpcRouter<H> {
    route_by_name: StringHashMap<H>,
}

impl<H> View for RpcRouter<H> {
    type V = Map<Seq<char>, H>;

    closed spec fn view(&self) -> Map<Seq<char>, H> {
        self.route_by_name@
    }
}

impl<H> RpcRouter<H> {
    /// A router without routes.
    pub fn new() -> (router: Self)
        ensures
            router@ == Map::<Seq<char>, H>::empty(),
    {
        RpcRouter { route_by_name: StringHashMap::new() }
    }

    /// Registers `erased_route` under `name`. A route that was registered
    /// under the same name before is replaced.
    pub fn add(self, name: &'static str, erased_route: H) -> (router: Self)
        ensures
            router@ == self@.insert(name@, erased_route),
    {
        let mut router = self;
        router.route_by_name.insert(name.to_owned(), erased_route);
        router
    }

    /// Merges the routes of `other_router` into this router. Where both have
    /// a route under one name, that of `other_router` stays.
    pub fn extend(self, other_router: RpcRouter<H>) -> (router: Self)
        ensures
            router@ == self@.union_prefer_right(other_router@),
    {
        let mut router = self;
        router.route_by_name.union_prefer_right(other_router.route_by_name);
        router
    }

    /// The route registered under `method`, or `MethodUnknown` with that name.
    pub fn route<E>(&self, method: &str) -> (found: Result<&H, RpcError<E>>)
        ensures
            self@.contains_key(method@) ==> found == Ok::<&H, RpcError<E>>(&self@[method@]),
            !self@.contains_key(method@) ==> (found matches Err(RpcError::MethodUnknown(name))
                && name@ == method@),
    {
        match self.route_by_name.get(method) {
            Some(route) => Ok(route),
            None => Err(RpcError::MethodUnknown(method.to_owned())),
        }
    }
}

/// Whether `result` is what a call of `method` may give on a router with
/// these `routes`: what the route registered under `method` may yield on the
/// same resources and payload, and `MethodUnknown` with the name that was
/// asked for where there is no such route.
pub open spec fn dispatches<B, E, H: RpcHandlerWrapperTrait<B, E>>(
    routes: Map<Seq<char>, H>,
    method: Seq<char>,
    params: Option<Value>,
    rpc_resources: B,
    result: Result<Value, RpcError<E>>,
) -> bool {
    if routes.contains_key(method) {
        routes[method].may_yield(rpc_resources, params, result)
    } else {
        result matches Err(RpcError::MethodUnknown(name)) && name@ == method
    }
}

/// A call of a name that has no route fails with `MethodUnknown` and that
/// name, whatever the payload and the resources are.
pub proof fn lemma_unregistered_method_is_unknown<B, E, H: RpcHandlerWrapperTrait<B, E>>(
    routes: Map<Seq<char>, H>,
    method: Seq<char>,
    params: Option<Value>,
    rpc_resources: B,
    result: Result<Value, RpcError<E>>,
)
    requires
        !routes.contains_key(method),
        dispatches(routes, method, params, rpc_resources, result),
    ensures
        result matches Err(RpcError::MethodUnknown(name)) && name@ == method,
{
}

/// On a router with one route, a call of that route's name gives what that
/// route yields, and a call of any other name is unknown.
pub proof fn lemma_single_route<B, E, H: RpcHandlerWrapperTrait<B, E>>(
    name: Seq<char>,
    route: H,
    method: Seq<char>,
    params: Option<Value>,
    rpc_resources: B,
    result: Result<Value, RpcError<E>>,
)
    ensures
        method == name ==> (dispatches(
            Map::<Seq<char>, H>::empty().insert(name, route),
            method,
            params,
            rpc_resources,
            result,
        ) <==> route.may_yield(rpc_resources, params, result)),
        method != name ==> (dispatches(
            Map::<Seq<char>, H>::empty().insert(name, route),
            method,
            params,
            rpc_resources,
            result,
        ) <==> (result matches Err(RpcError::MethodUnknown(unknown)) && unknown@ == method)),
{
}

/// Adding a route under a name that has one replaces it: the router is as
/// if only the second had been added, and a call of the name goes to the
/// second.
pub proof fn lemma_second_add_wins<B, E, H: RpcHandlerWrapperTrait<B, E>>(
    routes: Map<Seq<char>, H>,
    name: Seq<char>,
    first: H,
    second: H,
    params: Option<Value>,
    rpc_resources: B,
    result: Result<Value, RpcError<E>>,
)
    ensures
        routes.insert(name, first).insert(name, second) == routes.insert(name, second),
        dispatches(routes.insert(name, first).insert(name, second), name, params, rpc_resources, result)
            <==> second.may_yield(rpc_resources, params, result),
{
    assert(routes.insert(name, first).insert(name, second) =~= routes.insert(name, second));
}

/// Adding a route leaves the calls of every other name as they were.
pub proof fn lemma_add_keeps_other_names<B, E, H: RpcHandlerWrapperTrait<B, E>>(
    routes: Map<Seq<char>, H>,
    name: Seq<char>,
    route: H,
    method: Seq<char>,
    params: Option<Value>,
    rpc_resources: B,
    result: Result<Value, RpcError<E>>,
)
    requires
        method != name,
    ensures
        dispatches(routes.insert(name, route), method, params, rpc_resources, result) <==> dispatches(
            routes,
            method,
            params,
            rpc_resources,
            result,
        ),
{
}

/// After a router is extended by another, a name that the other has goes to
/// the other's route, also where the first had a route under that name. A
/// name that the other does not have is called as on the first.
pub proof fn lemma_extend_prefers_other<B, E, H: RpcHandlerWrapperTrait<B, E>>(
    routes: Map<Seq<char>, H>,
    other: Map<Seq<char>, H>,
    method: Seq<char>,
    params: Option<Value>,
    rpc_resources: B,
    result: Result<Value, RpcError<E>>,
)
    ensures
        other.contains_key(method) ==> (dispatches(
            routes.union_prefer_right(other),
            method,
            params,
            rpc_resources,
            result,
        ) <==> other[method].may_yield(rpc_resources, params, result)),
        !other.contains_key(method) ==> (dispatches(
            routes.union_prefer_right(other),
            method,
            params,
            rpc_resources,
            result,
        ) <==> dispatches(routes, method, params, rpc_resources, result)),
{
}

impl<H> RpcRouter<H> {
    /// Calls the route registered under `method` with `rpc_resources` and
    /// `params`, and gives its result as it is; `MethodUnknown` with the
    /// name where nothing is registered under `method`.
    pub fn call<B, E>(&self, method: &str, params: Option<Value>, rpc_resources: B) -> (result:
        Result<Value, RpcError<E>>) where H: RpcHandlerWrapperTrait<B, E>
        ensures
            dispatches(self@, method@, params, rpc_resources, result),
    {
        match self.route_by_name.get(method) {
            Some(route) => route.call(rpc_resources, params),
            None => Err(RpcError::MethodUnknown(method.to_owned())),
        }
    }
}

} // verus!
