//! The router: which announced calls are admitted, and what the others are told.
//!
//! Whoever watches the announcements hands each announced path to
//! [`RpcRouter::route`], creates the response broadcast at the path that the
//! route names, and then asks [`RpcRouter::accept`]. The response broadcast
//! comes first so that a call that is turned away can still be told why: its
//! response track is aborted with the code of the rejection.

use crate::config::{spec_broadcast_path, RpcRouterConfig};
use crate::error::{RpcPathErrorView, RpcServerError, RpcServerErrorView};
use crate::path::{
    lemma_request_path_round_trip, request_parts_readable, spec_full_path,
    spec_parse_request_path, spec_request_path, RpcRequestPath, RpcRequestPathView,
};
use crate::session::{spec_try_create, SessionGuard, SessionKey, SessionKeyView, SessionMap};
use crate::wire::RpcWireError;
use vstd::hash_map::StringHashMap;
use vstd::prelude::*;

verus! {

/// What the watcher of announcements saw.
#[derive(Debug, Clone, Copy, PartialEq, Eq, Structural)]
pub enum Announcement {
    /// A broadcast appeared.
    Appeared,
    /// A broadcast went away.
    Departed,
    /// The announcements ended.
    Closed,
}

/// What the router's loop does with an announcement.
#[derive(Debug, Clone, Copy, PartialEq, Eq, Structural)]
pub enum LoopStep {
    /// Treat the announced path as a new call.
    Handle,
    /// Go on with the next announcement.
    Skip,
    /// Leave the loop: the router is done.
    Shutdown,
}

/// What the loop does with `seen`: a broadcast that appears is a new call,
/// one that goes away needs nothing, since its call ends by itself, and
/// the end of the announcements ends the router.
pub open spec fn spec_loop_step(seen: Announcement) -> LoopStep {
    match seen {
        Announcement::Appeared => LoopStep::Handle,
        Announcement::Departed => LoopStep::Skip,
        Announcement::Closed => LoopStep::Shutdown,
    }
}

/// Where an announced call is answered.
#[derive(Debug, Clone, PartialEq, Eq)]
pub struct Route {
    /// The client that announced the call.
    pub client_id: String,
    /// The method that it calls, as `{package}.{service}/{method}`.
    pub grpc_path: String,
    /// The path of the response broadcast.
    pub response_path: String,
}

/// Why a call was turned away, and the code that its response track is aborted with.
#[derive(Debug, Clone, PartialEq, Eq)]
pub struct Rejection {
    /// The error for the router's own record.
    pub error: RpcServerError,
    /// The abort code for the caller.
    pub abort: u32,
}

/// The verdict on a call of `client_id` on `grpc_path`, given the methods that
/// have a handler and the calls that are live: the registry afterwards, and
/// either admission or the error and abort code of the rejection.
///
/// A method without handler is turned away first; then a call whose client
/// already has a live call on the method.
pub open spec fn spec_accept(
    handled: Set<Seq<char>>,
    live: Set<SessionKeyView>,
    client_id: Seq<char>,
    grpc_path: Seq<char>,
) -> (Set<SessionKeyView>, Result<(), (RpcServerErrorView, u32)>) {
    if !handled.contains(grpc_path) {
        (live, Err((RpcServerErrorView::NoHandler(grpc_path), RpcWireError::CODE_NO_HANDLER)))
    } else if !spec_try_create(live, (client_id, grpc_path)).1 {
        (
            live,
            Err(
                (
                    RpcServerErrorView::SessionAlreadyActive { client_id, grpc_path },
                    RpcWireError::CODE_SESSION_ALREADY_ACTIVE,
                ),
            ),
        )
    } else {
        (spec_try_create(live, (client_id, grpc_path)).0, Ok(()))
    }
}

/// A call that was admitted: where it is answered, who handles it, and its
/// place in the registry.
#[derive(Debug)]
pub struct Admitted<H> {
    /// The client, the method and the response broadcast of the call.
    pub route: Route,
    /// A clone of the handler that is registered for the method.
    pub handler: H,
    /// The guard of the call, to be given back when its handler ends.
    pub guard: SessionGuard,
}

/// An announcement that did not become a call.
#[derive(Debug, Clone, PartialEq, Eq)]
pub struct Refused {
    /// The error for the router's own record.
    pub error: RpcServerError,
    /// The code to abort the response track with; none where no response
    /// track exists, so that the caller cannot be told.
    pub abort: Option<u32>,
}

/// What becomes of an announcement.
pub enum Verdict {
    /// The call is live, for this client, on this method, answered at this path.
    Admitted { client_id: Seq<char>, grpc_path: Seq<char>, response_path: Seq<char> },
    /// The announcement is turned away with this error and this abort code.
    Refused { error: RpcServerErrorView, abort: Option<u32> },
}

/// The path at which the announcement `path` is answered under
/// `response_prefix`, if it follows the grammar.
pub open spec fn spec_response_path(response_prefix: Seq<char>, path: Seq<char>) -> Option<
    Seq<char>,
> {
    match spec_parse_request_path(path) {
        Ok(parts) => Some(
            spec_broadcast_path(response_prefix, parts.client_id, spec_full_path(parts.grpc_path)),
        ),
        Err(_) => None,
    }
}

/// What becomes of the announcement `path`, given the methods that have a
/// handler, the calls that are live, and whether the relay took the response
/// broadcast: the registry afterwards and the verdict.
///
/// In this order: a path that does not follow the grammar is an error, and
/// nothing is published for it. The response broadcast is created next, so
/// that every later rejection can be told to the caller; where the relay
/// refuses it, that is an error without a code. Then a method without handler
/// is turned away, then a call whose client already has a live call on the
/// method, each with its code. What is left is admitted.
pub open spec fn spec_handle_announcement(
    handled: Set<Seq<char>>,
    live: Set<SessionKeyView>,
    response_prefix: Seq<char>,
    path: Seq<char>,
    created: bool,
) -> (Set<SessionKeyView>, Verdict) {
    match spec_parse_request_path(path) {
        Err(text) => (
            live,
            Verdict::Refused {
                error: RpcServerErrorView::Path(RpcPathErrorView::Invalid(text)),
                abort: None,
            },
        ),
        Ok(parts) => {
            let client_id = parts.client_id;
            let grpc_path = spec_full_path(parts.grpc_path);
            let response_path = spec_broadcast_path(response_prefix, client_id, grpc_path);
            if !created {
                (
                    live,
                    Verdict::Refused {
                        error: RpcServerErrorView::BroadcastCreate(
                            "failed to create response broadcast at '"@ + response_path + "'"@,
                        ),
                        abort: None,
                    },
                )
            } else {
                match spec_accept(handled, live, client_id, grpc_path).1 {
                    Ok(_) => (
                        spec_accept(handled, live, client_id, grpc_path).0,
                        Verdict::Admitted { client_id, grpc_path, response_path },
                    ),
                    Err((error, code)) => (live, Verdict::Refused { error, abort: Some(code) }),
                }
            }
        },
    }
}

/// The router's state: the handlers by method, the live calls, the configuration.
#[verifier::reject_recursive_types(H)]
pub struct RpcRouter<H> {
    handlers: StringHashMap<H>,
    sessions: SessionMap,
    config: RpcRouterConfig,
}

impl<H> RpcRouter<H> {
    /// The handlers by method path.
    pub closed spec fn handlers(&self) -> Map<Seq<char>, H> {
        self.handlers@
    }

    /// The keys of the live calls.
    pub closed spec fn sessions(&self) -> Set<SessionKeyView> {
        self.sessions@
    }

    /// The configuration.
    pub closed spec fn settings(&self) -> RpcRouterConfig {
        self.config
    }

    /// A router without handlers and without live calls.
    pub fn new(config: RpcRouterConfig) -> (r: Self)
        ensures
            r.handlers() == Map::<Seq<char>, H>::empty(),
            r.sessions() == Set::<SessionKeyView>::empty(),
            r.settings() == config,
    {
        RpcRouter { handlers: StringHashMap::new(), sessions: SessionMap::new(), config }
    }

    /// The configuration.
    pub fn config(&self) -> (r: &RpcRouterConfig)
        ensures
            *r == self.settings(),
    {
        &self.config
    }

    /// Puts `handler` in charge of `grpc_path`, in place of an earlier one if
    /// there was one. This always succeeds.
    pub fn register(&mut self, grpc_path: &str, handler: H) -> (r: Result<(), RpcServerError>)
        ensures
            r is Ok,
            final(self).handlers() == old(self).handlers().insert(grpc_path@, handler),
            final(self).sessions() == old(self).sessions(),
            final(self).settings() == old(self).settings(),
    {
        self.handlers.insert(grpc_path.to_owned(), handler);
        Ok(())
    }

    /// Tells whether a handler is registered for `grpc_path`.
    pub fn has_handler(&self, grpc_path: &str) -> (r: bool)
        ensures
            r == self.handlers().contains_key(grpc_path@),
    {
        self.handlers.contains_key(grpc_path)
    }

    /// The handler that is registered for `grpc_path`.
    pub fn handler(&self, grpc_path: &str) -> (r: Option<&H>)
        ensures
            match r {
                Some(h) => self.handlers().contains_key(grpc_path@) && *h
                    == self.handlers()[grpc_path@],
                None => !self.handlers().contains_key(grpc_path@),
            },
    {
        self.handlers.get(grpc_path)
    }

    /// The number of live calls.
    pub fn active_sessions(&self) -> (n: usize)
        ensures
            n == self.sessions().len(),
    {
        self.sessions.len()
    }

    /// Tells whether `client_id` has a live call on `grpc_path`.
    pub fn has_session(&self, client_id: &str, grpc_path: &str) -> (r: bool)
        ensures
            r == self.sessions().contains((client_id@, grpc_path@)),
    {
        let key = SessionKey::new(client_id, grpc_path);
        self.sessions.contains(&key)
    }

    /// Checks the start of the loop. Where the router is configured with a
    /// client prefix, the announcements are narrowed to it, and `granted` tells
    /// whether the relay allowed that. A refused prefix is an error; without a
    /// prefix there is nothing to refuse.
    pub fn authorize(&self, granted: bool) -> (r: Result<(), RpcServerError>)
        ensures
            match self.settings().client_prefix {
                Some(prefix) if !granted => r matches Err(e) && e@
                    == RpcServerErrorView::Unauthorized(
                    "prefix '"@ + prefix@ + "' not authorized"@,
                ),
                _ => r is Ok,
            },
    {
        match &self.config.client_prefix {
            Some(prefix) => {
                if granted {
                    Ok(())
                } else {
                    Err(
                        RpcServerError::Unauthorized(
                            String::from_str("prefix '").concat(prefix.as_str()).concat(
                                "' not authorized",
                            ),
                        ),
                    )
                }
            },
            None => Ok(()),
        }
    }

    /// Starts the loop. Where the router is configured with a client
    /// prefix, `narrow` is handed the prefix and tells whether the relay
    /// allowed the announcements to be narrowed to it; a refusal is an error.
    /// Without a prefix `narrow` is not called and the router watches
    /// every announcement.
    pub fn start<F: FnOnce(&str) -> bool>(&self, narrow: F) -> (r: Result<(), RpcServerError>)
        requires
            forall|prefix: &str| narrow.requires((prefix,)),
        ensures
            match self.settings().client_prefix {
                Some(prefix) => exists|granted: bool, asked: &str|
                    {
                        &&& asked@ == prefix@
                        &&& #[trigger] narrow.ensures((asked,), granted)
                        &&& granted ==> r is Ok
                        &&& !granted ==> (r matches Err(e) && e@
                            == RpcServerErrorView::Unauthorized(
                            "prefix '"@ + prefix@ + "' not authorized"@,
                        ))
                    },
                None => r is Ok,
            },
    {
        let granted = match &self.config.client_prefix {
            Some(prefix) => {
                let asked = prefix.as_str();
                let granted = narrow(asked);
                granted
            },
            None => true,
        };
        self.authorize(granted)
    }

    /// What the loop does with an announcement.
    pub fn loop_step(seen: Announcement) -> (r: LoopStep)
        ensures
            r == spec_loop_step(seen),
    {
        match seen {
            Announcement::Appeared => LoopStep::Handle,
            Announcement::Departed => LoopStep::Skip,
            Announcement::Closed => LoopStep::Shutdown,
        }
    }

    /// Reads an announced path and names the response broadcast of the call:
    /// `{response_prefix}/{client_id}/{grpc_path}`. A path that does not
    /// follow the grammar is an error, and nothing is published for it.
    pub fn route(&self, path: &str) -> (r: Result<Route, RpcServerError>)
        ensures
            match spec_parse_request_path(path@) {
                Ok(parts) => r matches Ok(route) && route.client_id@ == parts.client_id
                    && route.grpc_path@ == spec_full_path(parts.grpc_path) && route.response_path@
                    == spec_broadcast_path(
                    self.settings().response_prefix@,
                    parts.client_id,
                    spec_full_path(parts.grpc_path),
                ),
                Err(text) => r matches Err(e) && e@ == RpcServerErrorView::Path(
                    RpcPathErrorView::Invalid(text),
                ),
            },
    {
        match RpcRequestPath::parse(path) {
            Ok(request) => {
                let grpc_path = request.grpc_path.full_path();
                let response_path = self.config.response_path(
                    request.client_id.as_str(),
                    grpc_path.as_str(),
                );
                Ok(Route { client_id: request.client_id, grpc_path, response_path })
            },
            Err(e) => Err(RpcServerError::Path(e)),
        }
    }

    /// The error for a response broadcast that the relay refused. The caller
    /// cannot be told, as there is no track to abort.
    pub fn broadcast_refused(route: &Route) -> (r: RpcServerError)
        ensures
            r@ == RpcServerErrorView::BroadcastCreate(
                "failed to create response broadcast at '"@ + route.response_path@ + "'"@,
            ),
    {
        RpcServerError::BroadcastCreate(
            String::from_str("failed to create response broadcast at '").concat(
                route.response_path.as_str(),
            ).concat("'"),
        )
    }

    /// Decides on a call whose response broadcast exists. The call is
    /// admitted, and entered in the registry, where its method has a handler
    /// and its client no live call on that method. Otherwise the registry
    /// stays as it is and the rejection names the code to abort the response
    /// track with.
    pub fn accept(&mut self, route: &Route) -> (r: Result<SessionGuard, Rejection>)
        ensures
            final(self).handlers() == old(self).handlers(),
            final(self).settings() == old(self).settings(),
            final(self).sessions() == spec_accept(
                old(self).handlers().dom(),
                old(self).sessions(),
                route.client_id@,
                route.grpc_path@,
            ).0,
            match r {
                Ok(guard) => spec_accept(
                    old(self).handlers().dom(),
                    old(self).sessions(),
                    route.client_id@,
                    route.grpc_path@,
                ).1 is Ok && guard@ == (route.client_id@, route.grpc_path@),
                Err(rejection) => spec_accept(
                    old(self).handlers().dom(),
                    old(self).sessions(),
                    route.client_id@,
                    route.grpc_path@,
                ).1 == Err::<(), (RpcServerErrorView, u32)>((rejection.error@, rejection.abort)),
            },
    {
        if !self.handlers.contains_key(route.grpc_path.as_str()) {
            return Err(
                Rejection {
                    error: RpcServerError::NoHandler(route.grpc_path.clone()),
                    abort: RpcWireError::CODE_NO_HANDLER,
                },
            );
        }
        let key = SessionKey::new(route.client_id.as_str(), route.grpc_path.as_str());
        match self.sessions.try_create(key) {
            Ok(guard) => Ok(guard),
            Err(error) => Err(
                Rejection { error, abort: RpcWireError::CODE_SESSION_ALREADY_ACTIVE },
            ),
        }
    }

    /// Handles the announcement of a call at `path`.
    ///
    /// `create_broadcast` is handed the path of the response broadcast and
    /// tells whether the relay took it. It is called once, and only for a path
    /// that follows the grammar, before the handler is looked up and the
    /// session is claimed. The verdict is that of [`spec_handle_announcement`]
    /// for what it returned.
    pub fn handle_announcement<F: FnOnce(&str) -> bool>(
        &mut self,
        path: &str,
        create_broadcast: F,
    ) -> (r: Result<Admitted<H>, Refused>) where H: Clone
        requires
            forall|response: &str| create_broadcast.requires((response,)),
        ensures
            final(self).handlers() == old(self).handlers(),
            final(self).settings() == old(self).settings(),
            exists|created: bool|
                {
                    &&& spec_response_path(
                        old(self).settings().response_prefix@,
                        path@,
                    ) matches Some(response_path) ==> exists|response: &str|
                        response@ == response_path && #[trigger] create_broadcast.ensures(
                            (response,),
                            created,
                        )
                    &&& final(self).sessions() == spec_handle_announcement(
                        old(self).handlers().dom(),
                        old(self).sessions(),
                        old(self).settings().response_prefix@,
                        path@,
                        created,
                    ).0
                    &&& #[trigger] spec_handle_announcement(
                        old(self).handlers().dom(),
                        old(self).sessions(),
                        old(self).settings().response_prefix@,
                        path@,
                        created,
                    ).1 == match r {
                        Ok(admitted) => Verdict::Admitted {
                            client_id: admitted.route.client_id@,
                            grpc_path: admitted.route.grpc_path@,
                            response_path: admitted.route.response_path@,
                        },
                        Err(refused) => Verdict::Refused {
                            error: refused.error@,
                            abort: refused.abort,
                        },
                    }
                    &&& r matches Ok(admitted) ==> {
                        &&& admitted.guard@ == (
                            admitted.route.client_id@,
                            admitted.route.grpc_path@,
                        )
                        &&& old(self).handlers().contains_key(admitted.route.grpc_path@)
                        &&& cloned(
                            old(self).handlers()[admitted.route.grpc_path@],
                            admitted.handler,
                        )
                    }
                },
    {
        let route = match self.route(path) {
            Ok(route) => route,
            Err(error) => {
                return Err(Refused { error, abort: None });
            },
        };
        let response = route.response_path.as_str();
        let created = create_broadcast(response);
        if !created {
            let error = Self::broadcast_refused(&route);
            assert(spec_handle_announcement(
                old(self).handlers().dom(),
                old(self).sessions(),
                old(self).settings().response_prefix@,
                path@,
                false,
            ).1 == (Verdict::Refused { error: error@, abort: None }));
            return Err(Refused { error, abort: None });
        }
        let handler = match self.handlers.get(route.grpc_path.as_str()) {
            Some(handler) => handler.clone(),
            None => {
                return Err(
                    Refused {
                        error: RpcServerError::NoHandler(route.grpc_path.clone()),
                        abort: Some(RpcWireError::CODE_NO_HANDLER),
                    },
                );
            },
        };
        let key = SessionKey::new(route.client_id.as_str(), route.grpc_path.as_str());
        match self.sessions.try_create(key) {
            Ok(guard) => Ok(Admitted { route, handler, guard }),
            Err(error) => Err(
                Refused { error, abort: Some(RpcWireError::CODE_SESSION_ALREADY_ACTIVE) },
            ),
        }
    }

    /// Ends the call of `guard`: it leaves the registry, and its client may
    /// call the method again at once.
    pub fn finish(&mut self, guard: SessionGuard)
        ensures
            final(self).handlers() == old(self).handlers(),
            final(self).settings() == old(self).settings(),
            final(self).sessions() == old(self).sessions().remove(guard@),
    {
        self.sessions.release(guard);
    }
}

/// A second registration under the same path replaces the first, and to
/// register the same handler again changes nothing.
pub proof fn lemma_register_overwrites<H>(
    handlers: Map<Seq<char>, H>,
    grpc_path: Seq<char>,
    first: H,
    second: H,
)
    ensures
        handlers.insert(grpc_path, first).insert(grpc_path, second) == handlers.insert(
            grpc_path,
            second,
        ),
        handlers.insert(grpc_path, first).insert(grpc_path, first) == handlers.insert(
            grpc_path,
            first,
        ),
        handlers.insert(grpc_path, first).contains_key(grpc_path),
{
}

/// What the verdicts on an announcement mean.
///
/// An announcement that is turned away leaves the registry as it was. One
/// that is admitted had a handler and no live call of its client on the
/// method, and is in the registry afterwards. A caller is told a code exactly
/// when its response broadcast was created: the code of the missing handler
/// where the method has none, else that of the live session.
pub proof fn lemma_verdicts(
    handled: Set<Seq<char>>,
    live: Set<SessionKeyView>,
    response_prefix: Seq<char>,
    path: Seq<char>,
    created: bool,
)
    ensures
        ({
            let (after, verdict) = spec_handle_announcement(
                handled,
                live,
                response_prefix,
                path,
                created,
            );
            &&& verdict is Refused ==> after == live
            &&& verdict matches Verdict::Admitted { client_id, grpc_path, response_path } ==> {
                &&& created
                &&& handled.contains(grpc_path)
                &&& !live.contains((client_id, grpc_path))
                &&& after == live.insert((client_id, grpc_path))
                &&& spec_response_path(response_prefix, path) == Some(response_path)
            }
            &&& verdict matches Verdict::Refused { error, abort } ==> {
                &&& abort is Some <==> created && spec_parse_request_path(path) is Ok
                &&& abort == Some(RpcWireError::CODE_NO_HANDLER) <==> error is NoHandler
                &&& abort == Some(RpcWireError::CODE_SESSION_ALREADY_ACTIVE) <==> error
                    is SessionAlreadyActive
                &&& error is NoHandler ==> !handled.contains(error->NoHandler_0)
                &&& error matches RpcServerErrorView::SessionAlreadyActive { client_id, grpc_path }
                    ==> live.contains((client_id, grpc_path)) && handled.contains(grpc_path)
            }
        }),
{
}

/// Client and router meet: a call that a client announces as
/// `{client_id}/{package}.{service}/{method}` is answered at
/// `{response_prefix}/{client_id}/{package}.{service}/{method}`, which is
/// where a client with that server prefix waits for it.
pub proof fn lemma_response_meets_client(response_prefix: Seq<char>, call: RpcRequestPathView)
    requires
        request_parts_readable(call),
    ensures
        spec_response_path(response_prefix, spec_request_path(call)) == Some(
            spec_broadcast_path(response_prefix, call.client_id, spec_full_path(call.grpc_path)),
        ),
{
    lemma_request_path_round_trip(call);
}

} // verus!
