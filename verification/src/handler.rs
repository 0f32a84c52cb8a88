//! The request pipeline around the adapters: what a POST body leads to
//! before the one outbound call, and what the upstream's outcome is turned
//! into afterwards. The outbound call itself is I/O and stays with the
//! caller; both halves here are pure and exactly specified.
use vstd::prelude::*;
use crate::adapters::{
    Route, call_spec, call_view, extract_upstream, opt_string_view, parse_inbound, read_inbound,
    success_body, unwrap_upstream, upstream_call, wrap_response, CallV, UpstreamCall,
};
use crate::cors::{opt_str_view, preflight, preflight_spec};
use crate::http::{headers_view, resp_view, HttpResponse, ResponseV};
use crate::json::{json_to_string, jview, JsonV};
use crate::outside::{json_parse, json_parsed};

verus! {

/// The process-wide configuration, read once by the caller and handed into
/// each handler: the preflight allow-list, the upstream bearer token, and
/// the version string.
#[derive(Debug, PartialEq, Eq)]
pub struct Config {
    pub cors_origin: String,
    pub api_token: Option<String>,
    pub version: String,
}

/// What a POST body leads to: an immediate reply, or the one outbound call.
#[derive(Debug, PartialEq, Eq)]
pub enum PostStep {
    Reply(HttpResponse),
    Call(UpstreamCall),
}

pub enum StepV {
    Reply(ResponseV),
    Call(CallV),
}

pub open spec fn step_view(s: PostStep) -> StepV {
    match s {
        PostStep::Reply(r) => StepV::Reply(resp_view(r)),
        PostStep::Call(c) => StepV::Call(call_view(c)),
    }
}

/// The one reply a malformed inbound body gets.
pub open spec fn bad_request_v() -> ResponseV {
    ResponseV { status: 400, headers: Seq::empty(), body: "Bad request"@ }
}

/// The reply an upstream failure gets: a structured 502 that leaks
/// nothing of the upstream exchange, neither its error body nor the
/// bearer token.
pub open spec fn bad_gateway_v() -> ResponseV {
    ResponseV { status: 502, headers: Seq::empty(), body: "Bad gateway"@ }
}

fn bad_request() -> (r: HttpResponse)
    ensures
        resp_view(r) == bad_request_v(),
{
    let r = HttpResponse { status: 400, headers: Vec::new(), body: String::from_str("Bad request") };
    proof {
        assert(headers_view(r.headers@) =~= Seq::<(Seq<char>, Seq<char>)>::empty());
    }
    r
}

fn bad_gateway() -> (r: HttpResponse)
    ensures
        resp_view(r) == bad_gateway_v(),
{
    let r = HttpResponse { status: 502, headers: Vec::new(), body: String::from_str("Bad gateway") };
    proof {
        assert(headers_view(r.headers@) =~= Seq::<(Seq<char>, Seq<char>)>::empty());
    }
    r
}

/// What a parsed POST body leads to: a 400 where the route's schema is not
/// met, else the route's outbound call, with no reply yet.
pub open spec fn prepare_from(route: Route, p: Option<JsonV>, tok: Option<Seq<char>>) -> StepV {
    match read_inbound(route, p) {
        None => StepV::Reply(bad_request_v()),
        Some(inb) => StepV::Call(call_spec(route, inb, tok)),
    }
}

/// `prepare_from`, applied to what the body text parses to.
pub open spec fn prepare_spec(route: Route, body: Seq<char>, tok: Option<Seq<char>>) -> StepV {
    prepare_from(route, json_parsed(body), tok)
}

/// Handles a POST body up to (but not into) the outbound call: no call is
/// attempted on a rejected body.
pub fn post_prepare(route: Route, body: &str, cfg: &Config) -> (r: PostStep)
    ensures
        step_view(r) == prepare_spec(route, body@, opt_string_view(cfg.api_token)),
{
    match json_parse(body) {
        None => PostStep::Reply(bad_request()),
        Some(j) => match parse_inbound(route, &j) {
            None => PostStep::Reply(bad_request()),
            Some(b) => PostStep::Call(upstream_call(route, &b, &cfg.api_token)),
        },
    }
}

/// The reply a successful upstream exchange is turned into: the wrapped
/// text, and a reply open to any origin.
pub open spec fn success_v(route: Route, text: Seq<char>) -> ResponseV {
    ResponseV {
        status: 200,
        headers: seq![("Access-Control-Allow-Origin"@, "*"@)],
        body: success_body(route, text),
    }
}

/// What an upstream reply with status `st` and parsed body `p` is turned
/// into: a 502 unless the status is a success and the body carries the
/// route's shape.
pub open spec fn finish_from(route: Route, st: int, p: Option<JsonV>) -> ResponseV {
    if !(200 <= st < 300) {
        bad_gateway_v()
    } else {
        match unwrap_upstream(route, p) {
            None => bad_gateway_v(),
            Some(t) => success_v(route, t),
        }
    }
}

pub open spec fn outcome_view(o: Option<(u16, String)>) -> Option<(int, Seq<char>)> {
    match o {
        Some((st, b)) => Some((st as int, b@)),
        None => None,
    }
}

/// `finish_from` over the raw outcome: `None` stands for a transport
/// failure, `Some` for a reply with its status and body text.
pub open spec fn finish_spec(route: Route, o: Option<(int, Seq<char>)>) -> ResponseV {
    match o {
        None => bad_gateway_v(),
        Some((st, b)) => finish_from(route, st, json_parsed(b)),
    }
}

/// Turns the outcome of the outbound call into the caller's reply.
pub fn post_finish(route: Route, outcome: Option<(u16, String)>) -> (r: HttpResponse)
    ensures
        resp_view(r) == finish_spec(route, outcome_view(outcome)),
{
    match outcome {
        None => bad_gateway(),
        Some((st, body)) => {
            if st < 200 || st >= 300 {
                return bad_gateway();
            }
            match json_parse(body.as_str()) {
                None => bad_gateway(),
                Some(j) => match extract_upstream(route, &j) {
                    None => bad_gateway(),
                    Some(text) => {
                        let rj = wrap_response(route, text);
                        let reply_body = json_to_string(&rj);
                        let mut headers: Vec<(String, String)> = Vec::new();
                        headers.push((
                            String::from_str("Access-Control-Allow-Origin"),
                            String::from_str("*"),
                        ));
                        let r = HttpResponse { status: 200, headers, body: reply_body };
                        proof {
                            assert(headers_view(r.headers@) =~= seq![
                                ("Access-Control-Allow-Origin"@, "*"@),
                            ]);
                        }
                        r
                    },
                },
            }
        },
    }
}

/// Answers `OPTIONS` on any of the POST routes.
pub fn handle_options(origin: Option<&str>, cfg: &Config) -> (r: HttpResponse)
    ensures
        resp_view(r) == preflight_spec(opt_str_view(origin), cfg.cors_origin@),
{
    preflight(origin, cfg.cors_origin.as_str())
}

/// Answers `GET /worker-version`: exactly the configured version string.
pub fn version_response(cfg: &Config) -> (r: HttpResponse)
    ensures
        resp_view(r) == (ResponseV { status: 200, headers: Seq::empty(), body: cfg.version@ }),
{
    let r = HttpResponse { status: 200, headers: Vec::new(), body: cfg.version.clone() };
    proof {
        assert(headers_view(r.headers@) =~= Seq::<(Seq<char>, Seq<char>)>::empty());
    }
    r
}

/// Answers `GET /`.
pub fn root_response() -> (r: HttpResponse)
    ensures
        resp_view(r) == (ResponseV {
            status: 200,
            headers: Seq::empty(),
            body: "Hello from Workers!"@,
        }),
{
    let r = HttpResponse {
        status: 200,
        headers: Vec::new(),
        body: String::from_str("Hello from Workers!"),
    };
    proof {
        assert(headers_view(r.headers@) =~= Seq::<(Seq<char>, Seq<char>)>::empty());
    }
    r
}

} // verus!
