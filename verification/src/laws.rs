//! The surface's general guarantees, stated over the same spec functions
//! the handlers' contracts use, and proved once for all inputs.
use vstd::prelude::*;
use crate::adapters::{
    all_have_field, bearer_value, read_inbound, response_field, route_url, unwrap_upstream, CallV,
    Route,
};
use crate::cors::{preflight_headers, preflight_spec, spec_split};
use crate::handler::{
    bad_request_v, finish_from, finish_spec, prepare_from, prepare_spec, success_v, StepV,
};
use crate::http::ResponseV;
use crate::json::{obj_lookup, str_field, JsonV};

verus! {

/// A valid `{"message": ...}` body on the generate or headline route builds
/// the outbound payload `{"inputs": message}` exactly, and a stubbed
/// upstream sequence of `generated_text` objects is answered with the first
/// element's text, wrapped in the route's reply shape.
pub proof fn lemma_generate_headline_adapter(
    route: Route,
    m: Seq<char>,
    elems: Seq<JsonV>,
    st: int,
    tok: Option<Seq<char>>,
)
    requires
        route == Route::Generate || route == Route::Headline,
        elems.len() > 0,
        all_have_field(elems, "generated_text"@),
        200 <= st < 300,
    ensures
        response_field(route) == "generated_text"@,
        prepare_from(route, Some(JsonV::Obj(seq![("message"@, JsonV::Str(m))])), tok)
            == StepV::Call(CallV {
            url: route_url(route),
            authorization: bearer_value(tok),
            payload: JsonV::Obj(seq![("inputs"@, JsonV::Str(m))]),
        }),
        unwrap_upstream(route, Some(JsonV::Arr(elems))) == str_field(elems[0], "generated_text"@),
        str_field(elems[0], "generated_text"@) is Some,
        finish_from(route, st, Some(JsonV::Arr(elems))) == success_v(
            route,
            str_field(elems[0], "generated_text"@)->0,
        ),
{
    let mems = seq![("message"@, JsonV::Str(m))];
    assert(obj_lookup(mems, "message"@) == Some(JsonV::Str(m)));
    assert(str_field(elems[0], "generated_text"@) is Some);
}

/// A valid `{"question", "context"}` body on the answer route builds the
/// nested outbound payload `{"inputs": {"question", "context"}}` exactly,
/// and the upstream's single `{"answer": ...}` object is answered with that
/// text verbatim: no sequence is unwrapped on this route.
pub proof fn lemma_answer_adapter(
    q: Seq<char>,
    c: Seq<char>,
    ans: Seq<char>,
    st: int,
    tok: Option<Seq<char>>,
)
    requires
        200 <= st < 300,
    ensures
        prepare_from(
            Route::Answer,
            Some(JsonV::Obj(seq![("question"@, JsonV::Str(q)), ("context"@, JsonV::Str(c))])),
            tok,
        ) == StepV::Call(CallV {
            url: route_url(Route::Answer),
            authorization: bearer_value(tok),
            payload: JsonV::Obj(
                seq![
                    (
                        "inputs"@,
                        JsonV::Obj(seq![("question"@, JsonV::Str(q)), ("context"@, JsonV::Str(c))]),
                    ),
                ],
            ),
        }),
        unwrap_upstream(Route::Answer, Some(JsonV::Obj(seq![("answer"@, JsonV::Str(ans))])))
            == Some(ans),
        finish_from(Route::Answer, st, Some(JsonV::Obj(seq![("answer"@, JsonV::Str(ans))])))
            == success_v(Route::Answer, ans),
{
    reveal_strlit("question");
    reveal_strlit("context");
    let mems = seq![("question"@, JsonV::Str(q)), ("context"@, JsonV::Str(c))];
    assert(obj_lookup(mems, "question"@) == Some(JsonV::Str(q)));
    assert("question"@.len() != "context"@.len());
    assert(mems.drop_first() =~= seq![("context"@, JsonV::Str(c))]);
    assert(obj_lookup(seq![("context"@, JsonV::Str(c))], "context"@) == Some(JsonV::Str(c)));
    assert(obj_lookup(mems, "context"@) == Some(JsonV::Str(c)));
}

/// A body that does not meet the route's schema is answered with exactly
/// 400 `Bad request`, and no outbound call is prepared.
pub proof fn lemma_rejected_body_no_call(route: Route, p: Option<JsonV>, tok: Option<Seq<char>>)
    requires
        read_inbound(route, p) is None,
    ensures
        prepare_from(route, p, tok) == StepV::Reply(bad_request_v()),
{
}

/// On the single-text routes, an object without a string `message` member
/// is answered with exactly 400 `Bad request`, and no outbound call is
/// prepared.
pub proof fn lemma_missing_message_rejected(
    route: Route,
    mems: Seq<(Seq<char>, JsonV)>,
    tok: Option<Seq<char>>,
)
    requires
        route != Route::Answer,
        match obj_lookup(mems, "message"@) {
            Some(v) => !(v is Str),
            None => true,
        },
    ensures
        prepare_from(route, Some(JsonV::Obj(mems)), tok) == StepV::Reply(bad_request_v()),
{
}

/// Every reply built from a successful upstream exchange is open to any
/// origin: its one header is `Access-Control-Allow-Origin: *`, whatever the
/// requester's origin was — the preflight alone is origin-gated.
pub proof fn lemma_success_open_to_any_origin(route: Route, st: int, p: Option<JsonV>)
    ensures
        finish_from(route, st, p).status == 200 ==> finish_from(route, st, p).headers == seq![
            ("Access-Control-Allow-Origin"@, "*"@),
        ],
{
}

/// A preflight is answered from the origin and the allow-list alone: a
/// listed origin is granted verbatim among the four headers, an unlisted
/// one gets the three constant headers only, and without an origin the
/// reply is a bare empty success.
pub proof fn lemma_preflight_cases(o: Seq<char>, allow: Seq<char>)
    ensures
        spec_split(allow).contains(o) ==> preflight_spec(Some(o), allow) == (ResponseV {
            status: 204,
            headers: preflight_headers(true, o),
            body: Seq::<char>::empty(),
        }),
        !spec_split(allow).contains(o) ==> preflight_spec(Some(o), allow) == (ResponseV {
            status: 204,
            headers: preflight_headers(false, o),
            body: Seq::<char>::empty(),
        }),
        preflight_spec(None, allow) == (ResponseV {
            status: 200,
            headers: Seq::<(Seq<char>, Seq<char>)>::empty(),
            body: Seq::<char>::empty(),
        }),
{
}

/// Both handler halves are functions of the inbound payload and the
/// upstream outcome alone: identical inputs lead to identical replies, so
/// repeating an exchange under a stubbed upstream gives byte-identical
/// responses.
pub proof fn lemma_repeat_identical(
    route: Route,
    b1: Seq<char>,
    b2: Seq<char>,
    tok1: Option<Seq<char>>,
    tok2: Option<Seq<char>>,
    o1: Option<(int, Seq<char>)>,
    o2: Option<(int, Seq<char>)>,
)
    requires
        b1 == b2,
        tok1 == tok2,
        o1 == o2,
    ensures
        prepare_spec(route, b1, tok1) == prepare_spec(route, b2, tok2),
        finish_spec(route, o1) == finish_spec(route, o2),
{
}

} // verus!
