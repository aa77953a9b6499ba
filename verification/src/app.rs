//! The route registry: per-(method, path) handlers, the ordered
//! middleware list, and the optional fallback handler.
//!
//! Handlers are identified by plain indices; the embedding application
//! keeps the actual handler functions in a table of its own and
//! registers each one here under its index.  Registration happens
//! before the accept loop starts; afterwards the registry is only read.

use crate::assoc::key_index;
use crate::assoc::lemma_key_index_is;
use crate::assoc::lemma_map_of_pairs_absent;
use crate::assoc::lemma_map_of_pairs_get;
use crate::assoc::lemma_map_of_pairs_update;
use crate::assoc::map_of_pairs;
use crate::method::Method;
use crate::text::str_eq;
use vstd::prelude::*;

verus! {

/// One registered route.
struct Route {
    method: Method,
    path: String,
    handler: usize,
}

/// Where a request goes: to the handler registered under exactly its
/// method and path, else to the fallback (which may be absent).
pub open spec fn spec_dispatch(
    routes: Map<(Method, Seq<char>), usize>,
    fallback: Option<usize>,
    method: Method,
    path: Seq<char>,
) -> Option<usize> {
    if routes.contains_key((method, path)) {
        Some(routes[(method, path)])
    } else {
        fallback
    }
}

/// The registry an application configures before it starts listening.
pub struct App {
    routes: Vec<Route>,
    middleware_count: usize,
    unknown: Option<usize>,
}

impl App {
    /// The route list in registration order: key and handler index.
    pub closed spec fn routes_list(&self) -> Seq<((Method, Seq<char>), usize)> {
        Seq::new(
            self.routes@.len(),
            |i: int| ((self.routes@[i].method, self.routes@[i].path@), self.routes@[i].handler),
        )
    }

    /// The route table as a map.
    pub closed spec fn routes_map(&self) -> Map<(Method, Seq<char>), usize> {
        map_of_pairs(self.routes_list())
    }

    /// How many middleware functions have been registered; they run in
    /// registration order under the indices `0 .. count`.
    pub closed spec fn middleware_total(&self) -> usize {
        self.middleware_count
    }

    /// The fallback handler, if one is installed.
    pub closed spec fn fallback_view(&self) -> Option<usize> {
        self.unknown
    }

    /// No two routes share a (method, path) key.
    pub open spec fn wf(&self) -> bool {
        forall|p: int, q: int|
            0 <= p < q < self.routes_list().len() ==> #[trigger] self.routes_list()[p].0
                != #[trigger] self.routes_list()[q].0
    }

    /// An empty registry: no routes, no middleware, no fallback.
    pub fn new() -> (r: App)
        ensures
            r.routes_map() == Map::<(Method, Seq<char>), usize>::empty(),
            r.routes_list() =~= Seq::<((Method, Seq<char>), usize)>::empty(),
            r.middleware_total() == 0,
            r.fallback_view() is None,
            r.wf(),
    {
        let r = App { routes: Vec::new(), middleware_count: 0, unknown: None };
        proof {
            assert(r.routes_list() =~= Seq::<((Method, Seq<char>), usize)>::empty());
        }
        r
    }

    /// Registers `handler` for exactly this method and path; a second
    /// registration under the same key overwrites the first.
    pub fn register(&mut self, method: Method, path: String, handler: usize)
        requires
            old(self).wf(),
        ensures
            final(self).wf(),
            final(self).routes_map() == old(self).routes_map().insert((method, path@), handler),
            final(self).middleware_total() == old(self).middleware_total(),
            final(self).fallback_view() == old(self).fallback_view(),
    {
        let ghost es0 = self.routes_list();
        let n = self.routes.len();
        let mut i: usize = 0;
        while i < n
            invariant
                i <= n,
                n == self.routes@.len(),
                self.routes_list() == es0,
                es0 == old(self).routes_list(),
                old(self).wf(),
                self.middleware_count == old(self).middleware_count,
                self.unknown == old(self).unknown,
                forall|j: int|
                    0 <= j < i ==> #[trigger] self.routes_list()[j].0 != (method, path@),
            decreases n - i,
        {
            let hit = self.routes[i].method == method && str_eq(
                self.routes[i].path.as_str(),
                path.as_str(),
            );
            if hit {
                proof {
                    lemma_key_index_is(es0, (method, path@), i as int);
                    lemma_map_of_pairs_update(es0, i as int, handler);
                }
                self.routes[i] = Route { method, path, handler };
                proof {
                    assert(self.routes_list() =~= es0.update(
                        i as int,
                        ((method, path@), handler),
                    ));
                }
                return ;
            }
            i = i + 1;
        }
        proof {
            lemma_key_index_is(es0, (method, path@), n as int);
            lemma_map_of_pairs_absent(es0, (method, path@));
        }
        self.routes.push(Route { method, path, handler });
        proof {
            assert(self.routes_list() =~= es0.push(((method, path@), handler)));
            assert(self.routes_list().drop_last() =~= es0);
        }
    }

    /// Registers a CONNECT route.
    pub fn connect(&mut self, path: String, handler: usize)
        requires
            old(self).wf(),
        ensures
            final(self).wf(),
            final(self).routes_map() == old(self).routes_map().insert(
                (Method::Connect, path@),
                handler,
            ),
            final(self).middleware_total() == old(self).middleware_total(),
            final(self).fallback_view() == old(self).fallback_view(),
    {
        self.register(Method::Connect, path, handler);
    }

    /// Registers a GET route.
    pub fn get(&mut self, path: String, handler: usize)
        requires
            old(self).wf(),
        ensures
            final(self).wf(),
            final(self).routes_map() == old(self).routes_map().insert(
                (Method::Get, path@),
                handler,
            ),
            final(self).middleware_total() == old(self).middleware_total(),
            final(self).fallback_view() == old(self).fallback_view(),
    {
        self.register(Method::Get, path, handler);
    }

    /// Registers a POST route.
    pub fn post(&mut self, path: String, handler: usize)
        requires
            old(self).wf(),
        ensures
            final(self).wf(),
            final(self).routes_map() == old(self).routes_map().insert(
                (Method::Post, path@),
                handler,
            ),
            final(self).middleware_total() == old(self).middleware_total(),
            final(self).fallback_view() == old(self).fallback_view(),
    {
        self.register(Method::Post, path, handler);
    }

    /// Registers a DELETE route.
    pub fn delete(&mut self, path: String, handler: usize)
        requires
            old(self).wf(),
        ensures
            final(self).wf(),
            final(self).routes_map() == old(self).routes_map().insert(
                (Method::Delete, path@),
                handler,
            ),
            final(self).middleware_total() == old(self).middleware_total(),
            final(self).fallback_view() == old(self).fallback_view(),
    {
        self.register(Method::Delete, path, handler);
    }

    /// Registers a HEAD route.
    pub fn head(&mut self, path: String, handler: usize)
        requires
            old(self).wf(),
        ensures
            final(self).wf(),
            final(self).routes_map() == old(self).routes_map().insert(
                (Method::Head, path@),
                handler,
            ),
            final(self).middleware_total() == old(self).middleware_total(),
            final(self).fallback_view() == old(self).fallback_view(),
    {
        self.register(Method::Head, path, handler);
    }

    /// Registers a PUT route.
    pub fn put(&mut self, path: String, handler: usize)
        requires
            old(self).wf(),
        ensures
            final(self).wf(),
            final(self).routes_map() == old(self).routes_map().insert(
                (Method::Put, path@),
                handler,
            ),
            final(self).middleware_total() == old(self).middleware_total(),
            final(self).fallback_view() == old(self).fallback_view(),
    {
        self.register(Method::Put, path, handler);
    }

    /// Registers a PATCH route.
    pub fn patch(&mut self, path: String, handler: usize)
        requires
            old(self).wf(),
        ensures
            final(self).wf(),
            final(self).routes_map() == old(self).routes_map().insert(
                (Method::Patch, path@),
                handler,
            ),
            final(self).middleware_total() == old(self).middleware_total(),
            final(self).fallback_view() == old(self).fallback_view(),
    {
        self.register(Method::Patch, path, handler);
    }

    /// Registers a TRACE route.
    pub fn trace(&mut self, path: String, handler: usize)
        requires
            old(self).wf(),
        ensures
            final(self).wf(),
            final(self).routes_map() == old(self).routes_map().insert(
                (Method::Trace, path@),
                handler,
            ),
            final(self).middleware_total() == old(self).middleware_total(),
            final(self).fallback_view() == old(self).fallback_view(),
    {
        self.register(Method::Trace, path, handler);
    }

    /// Registers an OPTIONS route.
    pub fn options(&mut self, path: String, handler: usize)
        requires
            old(self).wf(),
        ensures
            final(self).wf(),
            final(self).routes_map() == old(self).routes_map().insert(
                (Method::Options, path@),
                handler,
            ),
            final(self).middleware_total() == old(self).middleware_total(),
            final(self).fallback_view() == old(self).fallback_view(),
    {
        self.register(Method::Options, path, handler);
    }

    /// Appends a middleware slot and hands back its index; the
    /// application stores the middleware function under that index.
    pub fn use_middleware(&mut self) -> (id: usize)
        requires
            old(self).wf(),
            old(self).middleware_total() < usize::MAX,
        ensures
            final(self).wf(),
            id == old(self).middleware_total(),
            final(self).middleware_total() == old(self).middleware_total() + 1,
            final(self).routes_map() == old(self).routes_map(),
            final(self).routes_list() == old(self).routes_list(),
            final(self).fallback_view() == old(self).fallback_view(),
    {
        let id = self.middleware_count;
        self.middleware_count = self.middleware_count + 1;
        proof {
            assert(self.routes_list() =~= old(self).routes_list());
        }
        id
    }

    /// Installs the handler that answers when no exact route matches.
    pub fn set_fallback(&mut self, handler: usize)
        requires
            old(self).wf(),
        ensures
            final(self).wf(),
            final(self).fallback_view() == Some(handler),
            final(self).routes_map() == old(self).routes_map(),
            final(self).routes_list() == old(self).routes_list(),
            final(self).middleware_total() == old(self).middleware_total(),
    {
        self.unknown = Some(handler);
        proof {
            assert(self.routes_list() =~= old(self).routes_list());
        }
    }

    /// Looks up the handler registered under exactly this method and
    /// path: byte-for-byte equality, no normalization of any kind.
    pub fn resolve(&self, method: Method, path: &str) -> (r: Option<usize>)
        requires
            self.wf(),
        ensures
            match r {
                Some(h) => self.routes_map().contains_key((method, path@))
                    && self.routes_map()[(method, path@)] == h,
                None => !self.routes_map().contains_key((method, path@)),
            },
    {
        let n = self.routes.len();
        let mut i: usize = 0;
        while i < n
            invariant
                i <= n,
                n == self.routes@.len(),
                self.wf(),
                forall|j: int|
                    0 <= j < i ==> #[trigger] self.routes_list()[j].0 != (method, path@),
            decreases n - i,
        {
            let hit = self.routes[i].method == method && str_eq(self.routes[i].path.as_str(), path);
            if hit {
                proof {
                    lemma_map_of_pairs_get(self.routes_list(), i as int);
                }
                return Some(self.routes[i].handler);
            }
            i = i + 1;
        }
        proof {
            lemma_map_of_pairs_absent(self.routes_list(), (method, path@));
        }
        None
    }

    /// The handler a parsed request is dispatched to: the exact route
    /// if one is registered, else the fallback if one is installed,
    /// else none — in which case the request is silently dropped.
    pub fn dispatch_target(&self, method: Method, path: &str) -> (r: Option<usize>)
        requires
            self.wf(),
        ensures
            r == spec_dispatch(self.routes_map(), self.fallback_view(), method, path@),
    {
        match self.resolve(method, path) {
            Some(h) => Some(h),
            None => self.fallback(),
        }
    }

    /// How many middleware slots exist.
    pub fn middleware_len(&self) -> (r: usize)
        ensures
            r == self.middleware_total(),
    {
        self.middleware_count
    }

    /// The installed fallback handler, if any.
    pub fn fallback(&self) -> (r: Option<usize>)
        ensures
            r == self.fallback_view(),
    {
        self.unknown
    }
}

impl Default for App {
    /// Same as `App::new`.
    fn default() -> (r: Self)
        ensures
            r.routes_map() == Map::<(Method, Seq<char>), usize>::empty(),
            r.middleware_total() == 0,
            r.fallback_view() is None,
            r.wf(),
    {
        App::new()
    }
}

/// Exact-path routing: a request whose method and path were registered
/// goes to the registered handler; under the same method, a path that
/// was never registered goes to the fallback — absent a fallback, the
/// request draws no response at all.
pub proof fn lemma_routing(
    routes: Map<(Method, Seq<char>), usize>,
    fallback: Option<usize>,
    method: Method,
    path: Seq<char>,
    handler: usize,
    other: Seq<char>,
)
    requires
        routes.contains_key((method, path)),
        routes[(method, path)] == handler,
        !routes.contains_key((method, other)),
    ensures
        spec_dispatch(routes, fallback, method, path) == Some(handler),
        spec_dispatch(routes, fallback, method, other) == fallback,
{
}

/// Last write wins: registering the same (method, path) twice leaves
/// only the second handler reachable.
pub proof fn lemma_register_overwrites(
    routes: Map<(Method, Seq<char>), usize>,
    fallback: Option<usize>,
    method: Method,
    path: Seq<char>,
    first: usize,
    second: usize,
)
    ensures
        spec_dispatch(
            routes.insert((method, path), first).insert((method, path), second),
            fallback,
            method,
            path,
        ) == Some(second),
{
}

} // verus!
