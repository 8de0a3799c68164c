//! Route selection and response construction.
//!
//! The routing table is fixed: `GET /foo`, `GET /ip`, `GET /ws`, and a
//! fallback that resolves the request against a static file root. Routing is
//! pure selection; the serving layer performs the upgrade and the file I/O
//! and turns any failure of the latter into the generic error response.

use vstd::prelude::*;

use crate::addr::{spec_format_endpoint, format_endpoint, IpEndpoint};
use crate::text::{push_str, str_eq};

verus! {

/// The status code of a successful response.
pub const STATUS_OK: u16 = 200;

/// The status code of the generic server error response.
pub const STATUS_INTERNAL_SERVER_ERROR: u16 = 500;

/// The handler selected for a request.
#[derive(Clone, Copy, Debug, PartialEq, Eq, Structural)]
pub enum RouteDecision {
    /// `GET /foo`: the fixed greeting page.
    Foo,
    /// `GET /ip`: the peer-address echo.
    Ip,
    /// `GET /ws`: the WebSocket upgrade.
    Ws,
    /// Anything else: resolve against the static file root.
    Fallback,
}

/// A plain text response: a status code and a body.
#[derive(Clone, Debug)]
pub struct HttpResponse {
    pub status: u16,
    pub body: String,
}

/// First-match routing over the fixed table.
pub open spec fn spec_route(method: Seq<char>, path: Seq<char>) -> RouteDecision {
    if method == "GET"@ && path == "/foo"@ {
        RouteDecision::Foo
    } else if method == "GET"@ && path == "/ip"@ {
        RouteDecision::Ip
    } else if method == "GET"@ && path == "/ws"@ {
        RouteDecision::Ws
    } else {
        RouteDecision::Fallback
    }
}

/// Selects the handler for a request: exactly one, by first match.
pub fn route(method: &str, path: &str) -> (r: RouteDecision)
    ensures
        r == spec_route(method@, path@),
{
    if str_eq(method, "GET") {
        if str_eq(path, "/foo") {
            RouteDecision::Foo
        } else if str_eq(path, "/ip") {
            RouteDecision::Ip
        } else if str_eq(path, "/ws") {
            RouteDecision::Ws
        } else {
            RouteDecision::Fallback
        }
    } else {
        RouteDecision::Fallback
    }
}

/// The body of the greeting page.
pub open spec fn spec_foo_body() -> Seq<char> {
    "Hi from /foo"@
}

/// The body of the peer-address echo for peer `e`.
pub open spec fn spec_ip_body(e: IpEndpoint) -> Seq<char> {
    "Your address is "@ + spec_format_endpoint(e) + "."@
}

/// The body of the generic server error response.
pub open spec fn spec_error_body() -> Seq<char> {
    "Something went wrong..."@
}

/// The response of `GET /foo`.
pub fn foo_response() -> (r: HttpResponse)
    ensures
        r.status == STATUS_OK,
        r.body@ == spec_foo_body(),
{
    HttpResponse { status: STATUS_OK, body: "Hi from /foo".to_owned() }
}

/// The response of `GET /ip` for the connection's peer `e`.
pub fn ip_response(e: &IpEndpoint) -> (r: HttpResponse)
    ensures
        r.status == STATUS_OK,
        r.body@ == spec_ip_body(*e),
{
    let mut body = String::new();
    push_str(&mut body, "Your address is ");
    push_str(&mut body, format_endpoint(e).as_str());
    push_str(&mut body, ".");
    assert(body@ =~= spec_ip_body(*e));
    HttpResponse { status: STATUS_OK, body }
}

/// The response returned when resolving the fallback route against the
/// static file root fails for any reason; no detail is leaked.
pub fn fallback_error_response() -> (r: HttpResponse)
    ensures
        r.status == STATUS_INTERNAL_SERVER_ERROR,
        r.body@ == spec_error_body(),
{
    HttpResponse { status: STATUS_INTERNAL_SERVER_ERROR, body: "Something went wrong...".to_owned() }
}

/// What handling a request amounts to, before any I/O is done: a finished
/// response, a WebSocket upgrade, or a lookup in the static file root.
#[derive(Debug)]
pub enum HandlerOutcome {
    /// The response is complete; nothing else is consulted.
    Respond(HttpResponse),
    /// Upgrade the connection and start a WebSocket session.
    UpgradeWebSocket,
    /// Resolve the path against the static file root; on failure answer with
    /// [`fallback_error_response`].
    ServeStatic,
}

/// The abstract value of a [`HandlerOutcome`]: the response reduced to its
/// status and the characters of its body.
pub enum OutcomeModel {
    Respond { status: u16, body: Seq<char> },
    UpgradeWebSocket,
    ServeStatic,
}

/// The abstraction of an outcome.
pub open spec fn outcome_model(o: HandlerOutcome) -> OutcomeModel {
    match o {
        HandlerOutcome::Respond(r) => OutcomeModel::Respond { status: r.status, body: r.body@ },
        HandlerOutcome::UpgradeWebSocket => OutcomeModel::UpgradeWebSocket,
        HandlerOutcome::ServeStatic => OutcomeModel::ServeStatic,
    }
}

/// The outcome owed to a request, as a function of the method, the path and
/// the peer address alone.
pub open spec fn spec_handle(method: Seq<char>, path: Seq<char>, peer: IpEndpoint) -> OutcomeModel {
    match spec_route(method, path) {
        RouteDecision::Foo => OutcomeModel::Respond { status: 200, body: spec_foo_body() },
        RouteDecision::Ip => OutcomeModel::Respond { status: 200, body: spec_ip_body(peer) },
        RouteDecision::Ws => OutcomeModel::UpgradeWebSocket,
        RouteDecision::Fallback => OutcomeModel::ServeStatic,
    }
}

/// Handles one request up to the I/O boundary: selects the route and builds
/// the response where one is owed without I/O.
pub fn handle_request(method: &str, path: &str, peer: &IpEndpoint) -> (r: HandlerOutcome)
    ensures
        outcome_model(r) == spec_handle(method@, path@, *peer),
{
    match route(method, path) {
        RouteDecision::Foo => HandlerOutcome::Respond(foo_response()),
        RouteDecision::Ip => HandlerOutcome::Respond(ip_response(peer)),
        RouteDecision::Ws => HandlerOutcome::UpgradeWebSocket,
        RouteDecision::Fallback => HandlerOutcome::ServeStatic,
    }
}

/// Handling a request is stateless and deterministic: any two outcomes
/// produced for the same method, path and peer address are the same outcome.
/// Repeating a request any number of times therefore yields the same
/// response each time.
pub proof fn lemma_handling_idempotent(
    o1: HandlerOutcome,
    o2: HandlerOutcome,
    method: Seq<char>,
    path: Seq<char>,
    peer: IpEndpoint,
)
    requires
        outcome_model(o1) == spec_handle(method, path, peer),
        outcome_model(o2) == spec_handle(method, path, peer),
    ensures
        outcome_model(o1) == outcome_model(o2),
{
}

} // verus!
