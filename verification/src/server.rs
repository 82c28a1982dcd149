//! The routes of the HTTP app: the GraphQL endpoint, the Playground, the
//! subscription socket, the SDL dump and the liveness probe.

use vstd::prelude::*;

use crate::strings::{join2, owned};

verus! {

/// How a route is reached.
#[derive(PartialEq, Eq, Structural, Clone, Copy, Debug)]
pub enum RouteMethod {
    Get,
    Post,
    /// A WebSocket upgrade.
    WebSocket,
}

/// What a route serves.
#[derive(PartialEq, Eq, Structural, Clone, Copy, Debug)]
pub enum Endpoint {
    /// GraphQL query / mutation execution.
    Execute,
    /// The interactive GraphQL Playground.
    Playground,
    /// Subscriptions over WebSocket.
    Subscriptions,
    /// The schema SDL dump.
    Sdl,
    /// The liveness probe.
    Health,
}

/// One route of the app.
pub struct Route {
    pub path: String,
    pub method: RouteMethod,
    pub endpoint: Endpoint,
}

impl View for Route {
    type V = (Seq<char>, RouteMethod, Endpoint);

    open spec fn view(&self) -> (Seq<char>, RouteMethod, Endpoint) {
        (self.path@, self.method, self.endpoint)
    }
}

/// The route table of the app.
pub open spec fn route_table(playground_enabled: bool) -> Seq<(Seq<char>, RouteMethod, Endpoint)> {
    let execute = seq![("/graphql"@, RouteMethod::Post, Endpoint::Execute)];
    let playground = if playground_enabled {
        seq![("/graphql"@, RouteMethod::Get, Endpoint::Playground)]
    } else {
        Seq::empty()
    };
    execute + playground + seq![
        ("/graphql/ws"@, RouteMethod::WebSocket, Endpoint::Subscriptions),
        ("/graphql/sdl"@, RouteMethod::Get, Endpoint::Sdl),
        ("/healthz"@, RouteMethod::Get, Endpoint::Health),
    ]
}

fn route(path: &str, method: RouteMethod, endpoint: Endpoint) -> (r: Route)
    ensures
        r@ == (path@, method, endpoint),
{
    Route { path: owned(path), method, endpoint }
}

/// The routes the app mounts: POST `/graphql` executes operations, GET
/// `/graphql` serves the Playground when it is enabled, `/graphql/ws`
/// carries subscriptions, GET `/graphql/sdl` dumps the schema and GET
/// `/healthz` answers the liveness probe.
pub fn routes(playground_enabled: bool) -> (r: Vec<Route>)
    ensures
        r@.map_values(|x: Route| x@) == route_table(playground_enabled),
{
    let mut r: Vec<Route> = Vec::new();
    r.push(route("/graphql", RouteMethod::Post, Endpoint::Execute));
    if playground_enabled {
        r.push(route("/graphql", RouteMethod::Get, Endpoint::Playground));
    }
    r.push(route("/graphql/ws", RouteMethod::WebSocket, Endpoint::Subscriptions));
    r.push(route("/graphql/sdl", RouteMethod::Get, Endpoint::Sdl));
    r.push(route("/healthz", RouteMethod::Get, Endpoint::Health));
    assert(r@.map_values(|x: Route| x@) =~= route_table(playground_enabled));
    r
}

/// The Playground is served on GET `/graphql` exactly when it is enabled;
/// whether it is or not, operations are executed on POST `/graphql`,
/// subscriptions are carried on `/graphql/ws`, and the SDL and the liveness
/// probe are served.
pub proof fn lemma_playground_iff_enabled(playground_enabled: bool)
    ensures
        (exists|i: int|
            0 <= i < route_table(playground_enabled).len() && #[trigger] route_table(
                playground_enabled,
            )[i] == ("/graphql"@, RouteMethod::Get, Endpoint::Playground)) <==> playground_enabled,
        route_table(playground_enabled).contains(("/graphql"@, RouteMethod::Post, Endpoint::Execute)),
        route_table(playground_enabled).contains(
            ("/graphql/ws"@, RouteMethod::WebSocket, Endpoint::Subscriptions),
        ),
        route_table(playground_enabled).contains(("/graphql/sdl"@, RouteMethod::Get, Endpoint::Sdl)),
        route_table(playground_enabled).contains(("/healthz"@, RouteMethod::Get, Endpoint::Health)),
{
    let t = route_table(playground_enabled);
    if playground_enabled {
        assert(t[1] == ("/graphql"@, RouteMethod::Get, Endpoint::Playground));
        assert(t[0] == ("/graphql"@, RouteMethod::Post, Endpoint::Execute));
        assert(t[2] == ("/graphql/ws"@, RouteMethod::WebSocket, Endpoint::Subscriptions));
        assert(t[3] == ("/graphql/sdl"@, RouteMethod::Get, Endpoint::Sdl));
        assert(t[4] == ("/healthz"@, RouteMethod::Get, Endpoint::Health));
    } else {
        assert(t[0] == ("/graphql"@, RouteMethod::Post, Endpoint::Execute));
        assert(t[1] == ("/graphql/ws"@, RouteMethod::WebSocket, Endpoint::Subscriptions));
        assert(t[2] == ("/graphql/sdl"@, RouteMethod::Get, Endpoint::Sdl));
        assert(t[3] == ("/healthz"@, RouteMethod::Get, Endpoint::Health));
        assert(t.len() == 4);
    }
}

/// The routes that need the bearer token when one is configured: those of
/// the `/graphql` path, which execute operations and serve the Playground.
pub open spec fn guarded(endpoint: Endpoint) -> bool {
    endpoint == Endpoint::Execute || endpoint == Endpoint::Playground
}

/// Whether a route serving `endpoint` needs the bearer token.
pub fn requires_bearer(endpoint: Endpoint) -> (r: bool)
    ensures
        r == guarded(endpoint),
{
    match endpoint {
        Endpoint::Execute => true,
        Endpoint::Playground => true,
        _ => false,
    }
}

/// The bearer token is required exactly on the `/graphql` path.
pub proof fn lemma_bearer_guards_graphql_path(playground_enabled: bool)
    ensures
        forall|i: int|
            0 <= i < route_table(playground_enabled).len() ==> (#[trigger] route_table(
                playground_enabled,
            )[i].0 == "/graphql"@ <==> guarded(route_table(playground_enabled)[i].2)),
{
    reveal_strlit("/graphql");
    reveal_strlit("/graphql/ws");
    reveal_strlit("/graphql/sdl");
    reveal_strlit("/healthz");
    let t = route_table(playground_enabled);
    let g = "/graphql"@;
    assert("/graphql/ws"@.len() != g.len());
    assert("/graphql/sdl"@.len() != g.len());
    assert("/healthz"@ != g) by {
        assert("/healthz"@[1] != g[1]);
    }
    assert forall|i: int| 0 <= i < t.len() implies (#[trigger] t[i].0 == g <==> guarded(t[i].2)) by {
        if playground_enabled {
            assert(t[0] == (g, RouteMethod::Post, Endpoint::Execute));
            assert(t[1] == (g, RouteMethod::Get, Endpoint::Playground));
            assert(t[2] == ("/graphql/ws"@, RouteMethod::WebSocket, Endpoint::Subscriptions));
            assert(t[3] == ("/graphql/sdl"@, RouteMethod::Get, Endpoint::Sdl));
            assert(t[4] == ("/healthz"@, RouteMethod::Get, Endpoint::Health));
        } else {
            assert(t[0] == (g, RouteMethod::Post, Endpoint::Execute));
            assert(t[1] == ("/graphql/ws"@, RouteMethod::WebSocket, Endpoint::Subscriptions));
            assert(t[2] == ("/graphql/sdl"@, RouteMethod::Get, Endpoint::Sdl));
            assert(t[3] == ("/healthz"@, RouteMethod::Get, Endpoint::Health));
        }
    }
}

/// The `Authorization` header value that carries `token`.
pub open spec fn bearer_credential(token: Seq<char>) -> Seq<char> {
    "Bearer "@ + token
}

/// Whether a request to a guarded route is let through: always when no
/// token is configured; otherwise exactly when its `Authorization` header
/// is `Bearer ` followed by the token.
pub open spec fn authorized_spec(token: Option<Seq<char>>, authorization: Option<Seq<char>>) -> bool {
    match token {
        None => true,
        Some(t) => authorization == Some(bearer_credential(t)),
    }
}

/// Decides whether a request with the `Authorization` header value
/// `authorization` (if any) may reach a guarded route when the configured
/// bearer token is `token` (if any).
pub fn authorized(token: Option<&str>, authorization: Option<&str>) -> (r: bool)
    ensures
        r == authorized_spec(
            match token {
                Some(t) => Some(t@),
                None => None,
            },
            match authorization {
                Some(a) => Some(a@),
                None => None,
            },
        ),
{
    match token {
        None => true,
        Some(t) => match authorization {
            None => false,
            Some(a) => {
                let expected = join2("Bearer ", t);
                let given = owned(a);
                given == expected
            },
        },
    }
}

/// The answer to a request that `authorized` refuses: status 401.
pub fn unauthorized() -> (r: (u16, String))
    ensures
        r.0 == 401,
        r.1@ == "missing or invalid bearer token"@,
{
    (401, owned("missing or invalid bearer token"))
}

/// The answer of the liveness probe: status 200 with the body `ok`.
pub fn healthz() -> (r: (u16, String))
    ensures
        r.0 == 200,
        r.1@ == "ok"@,
{
    (200, owned("ok"))
}

/// Where the Playground sends operations and opens subscriptions.
pub struct PlaygroundConfig {
    pub endpoint: String,
    pub subscription_endpoint: String,
}

/// The HTML page that async-graphql's `playground_source` renders for a
/// Playground posting to `endpoint` and subscribing on `subscriptions`.
pub uninterp spec fn playground_page_text(endpoint: Seq<char>, subscriptions: Seq<char>) -> Seq<
    char,
>;

/// Calls `async_graphql::http::playground_source` on
/// `GraphQLPlaygroundConfig::new(endpoint).subscription_endpoint(subscriptions)`.
/// Claimed: the page is `playground_page_text(endpoint, subscriptions)`; the
/// source shows it is the page template with the config's JSON (no headers,
/// settings or title) and the default title filled in, so it depends on the
/// two endpoints alone.
#[verifier::external_body]
fn playground_source_for(endpoint: &str, subscriptions: &str) -> (r: String)
    ensures
        r@ == playground_page_text(endpoint@, subscriptions@),
{
    async_graphql::http::playground_source(
        async_graphql::http::GraphQLPlaygroundConfig::new(endpoint).subscription_endpoint(
            subscriptions,
        ),
    )
}

/// The Playground page served on GET `/graphql`: it posts operations to
/// `/graphql` and opens subscriptions on `/graphql/ws`.
pub fn playground_page() -> (r: String)
    ensures
        r@ == playground_page_text("/graphql"@, "/graphql/ws"@),
{
    let config = playground_config();
    playground_source_for(config.endpoint.as_str(), config.subscription_endpoint.as_str())
}

/// The Playground posts to `/graphql` and subscribes on `/graphql/ws`.
pub fn playground_config() -> (r: PlaygroundConfig)
    ensures
        r.endpoint@ == "/graphql"@,
        r.subscription_endpoint@ == "/graphql/ws"@,
{
    PlaygroundConfig { endpoint: owned("/graphql"), subscription_endpoint: owned("/graphql/ws") }
}

} // verus!
