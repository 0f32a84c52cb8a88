//! One adapter per route: each reads its inbound schema off a parsed body,
//! reshapes it into the upstream provider's payload, and names the field a
//! successful upstream reply is unwrapped from.
use vstd::prelude::*;
use crate::json::{Json, JsonV, get_str_field, json_text, jview, str_field};

verus! {

#[derive(Debug, Clone, Copy, PartialEq, Eq, Structural)]
pub enum Route {
    Generate,
    Answer,
    Headline,
    Summarize,
}

/// Inbound body of `/generate`, `/headline` and `/summarize`.
#[derive(Debug, PartialEq, Eq)]
pub struct GenerationRequest {
    pub message: String,
}

/// Inbound body of `/answer`.
#[derive(Debug, PartialEq, Eq)]
pub struct AnswerRequest {
    pub question: String,
    pub context: String,
}

/// Reply body of `/generate` and `/headline`.
#[derive(Debug, PartialEq, Eq)]
pub struct GenerationResponse {
    pub generated_text: String,
}

/// Reply body of `/answer`.
#[derive(Debug, PartialEq, Eq)]
pub struct AnswerResponse {
    pub answer: String,
}

/// Reply body of `/summarize`.
#[derive(Debug, PartialEq, Eq)]
pub struct SummarizeResponse {
    pub summary_text: String,
}

/// The two inbound shapes the surface knows.
#[derive(Debug, PartialEq, Eq)]
pub enum InboundBody {
    Single(GenerationRequest),
    Pair(AnswerRequest),
}

pub enum InboundV {
    Single(Seq<char>),
    Pair(Seq<char>, Seq<char>),
}

pub open spec fn inbound_view(b: InboundBody) -> InboundV {
    match b {
        InboundBody::Single(g) => InboundV::Single(g.message@),
        InboundBody::Pair(a) => InboundV::Pair(a.question@, a.context@),
    }
}

pub open spec fn opt_string_view(o: Option<String>) -> Option<Seq<char>> {
    match o {
        Some(s) => Some(s@),
        None => None,
    }
}

/// Each route's inbound schema, read off a parsed body: the required fields
/// must be present and be strings; anything else is rejected.
pub open spec fn read_inbound(route: Route, p: Option<JsonV>) -> Option<InboundV> {
    match p {
        None => None,
        Some(j) => match route {
            Route::Answer => match (str_field(j, "question"@), str_field(j, "context"@)) {
                (Some(q), Some(c)) => Some(InboundV::Pair(q, c)),
                _ => None,
            },
            _ => match str_field(j, "message"@) {
                Some(m) => Some(InboundV::Single(m)),
                None => None,
            },
        },
    }
}

/// Reads `route`'s inbound schema from a parsed body.
pub fn parse_inbound(route: Route, j: &Json) -> (r: Option<InboundBody>)
    ensures
        match r {
            Some(b) => read_inbound(route, Some(jview(*j))) == Some(inbound_view(b)),
            None => read_inbound(route, Some(jview(*j))) is None,
        },
{
    match route {
        Route::Answer => {
            let q = get_str_field(j, "question");
            let c = get_str_field(j, "context");
            match (q, c) {
                (Some(question), Some(context)) => Some(
                    InboundBody::Pair(AnswerRequest { question, context }),
                ),
                _ => None,
            }
        },
        _ => match get_str_field(j, "message") {
            Some(message) => Some(InboundBody::Single(GenerationRequest { message })),
            None => None,
        },
    }
}

/// The upstream payload built from an inbound body: `{"inputs": message}`
/// for the single-text routes, `{"inputs": {"question", "context"}}` for
/// answer.
pub open spec fn adapter_payload(inb: InboundV) -> JsonV {
    match inb {
        InboundV::Single(m) => JsonV::Obj(seq![("inputs"@, JsonV::Str(m))]),
        InboundV::Pair(q, c) => JsonV::Obj(
            seq![
                (
                    "inputs"@,
                    JsonV::Obj(
                        seq![("question"@, JsonV::Str(q)), ("context"@, JsonV::Str(c))],
                    ),
                ),
            ],
        ),
    }
}

/// Builds the upstream payload for an inbound body.
pub fn build_payload(b: &InboundBody) -> (r: Json)
    ensures
        jview(r) == adapter_payload(inbound_view(*b)),
{
    match b {
        InboundBody::Single(g) => {
            let mut mem: Vec<(String, Json)> = Vec::new();
            mem.push((String::from_str("inputs"), Json::Str(g.message.clone())));
            let ghost mems = mem@;
            let r = Json::Obj(mem);
            proof {
                reveal_with_fuel(jview, 3);
                assert(mems.len() == 1);
                assert(mems[0].0@ == "inputs"@);
                assert(jview(mems[0].1) == JsonV::Str(g.message@));
                assert(jview(r) is Obj);
                assert(jview(r)->Obj_0.len() == 1);
                assert(jview(r)->Obj_0[0] == (mems[0].0@, jview(mems[0].1)));
                assert(jview(r)->Obj_0 =~= seq![("inputs"@, JsonV::Str(g.message@))]);
                assert(adapter_payload(inbound_view(*b)) == JsonV::Obj(
                    seq![("inputs"@, JsonV::Str(g.message@))],
                ));
                assert(jview(r) == adapter_payload(inbound_view(*b)));
            }
            r
        },
        InboundBody::Pair(a) => {
            let mut inner: Vec<(String, Json)> = Vec::new();
            inner.push((String::from_str("question"), Json::Str(a.question.clone())));
            inner.push((String::from_str("context"), Json::Str(a.context.clone())));
            let ghost innerv = inner@;
            let mut mem: Vec<(String, Json)> = Vec::new();
            mem.push((String::from_str("inputs"), Json::Obj(inner)));
            let ghost mems = mem@;
            let r = Json::Obj(mem);
            proof {
                reveal_with_fuel(jview, 4);
                let ghost qc = JsonV::Obj(
                    seq![("question"@, JsonV::Str(a.question@)), ("context"@, JsonV::Str(a.context@))],
                );
                assert(innerv.len() == 2);
                assert(innerv[0].0@ == "question"@);
                assert(innerv[1].0@ == "context"@);
                assert(jview(innerv[0].1) == JsonV::Str(a.question@));
                assert(jview(innerv[1].1) == JsonV::Str(a.context@));
                assert(jview(mems[0].1)->Obj_0 =~= qc->Obj_0);
                assert(jview(mems[0].1) == qc);
                assert(jview(r)->Obj_0 =~= seq![("inputs"@, qc)]);
                assert(jview(r) == JsonV::Obj(seq![("inputs"@, qc)]));
                assert(adapter_payload(inbound_view(*b)) == JsonV::Obj(seq![("inputs"@, qc)]));
            }
            r
        },
    }
}

/// The fixed upstream address of each route.
pub open spec fn route_url(route: Route) -> Seq<char> {
    match route {
        Route::Generate => "https://api-inference.huggingface.co/models/EleutherAI/gpt-j-6B"@,
        Route::Answer => "https://api-inference.huggingface.co/models/deepset/roberta-base-squad2"@,
        Route::Headline => "https://api-inference.huggingface.co/models/Michau/t5-base-en-generate-headline"@,
        Route::Summarize => "https://api-inference.huggingface.co/models/facebook/bart-large-cnn"@,
    }
}

pub fn upstream_url(route: Route) -> (r: &'static str)
    ensures
        r@ == route_url(route),
{
    match route {
        Route::Generate => "https://api-inference.huggingface.co/models/EleutherAI/gpt-j-6B",
        Route::Answer => "https://api-inference.huggingface.co/models/deepset/roberta-base-squad2",
        Route::Headline => "https://api-inference.huggingface.co/models/Michau/t5-base-en-generate-headline",
        Route::Summarize => "https://api-inference.huggingface.co/models/facebook/bart-large-cnn",
    }
}

/// The field a route's reply carries its text in.
pub open spec fn response_field(route: Route) -> Seq<char> {
    match route {
        Route::Answer => "answer"@,
        Route::Summarize => "summary_text"@,
        _ => "generated_text"@,
    }
}

pub fn response_field_name(route: Route) -> (r: &'static str)
    ensures
        r@ == response_field(route),
{
    match route {
        Route::Answer => "answer",
        Route::Summarize => "summary_text",
        _ => "generated_text",
    }
}

/// The `Authorization` value of every outbound call. Without a configured
/// token an unresolved placeholder is sent in the bearer's place.
pub open spec fn bearer_value(tok: Option<Seq<char>>) -> Seq<char> {
    match tok {
        Some(t) => "Bearer "@ + t,
        None => "Bearer {API_TOKEN}"@,
    }
}

pub fn bearer(api_token: &Option<String>) -> (r: String)
    ensures
        r@ == bearer_value(opt_string_view(*api_token)),
{
    match api_token {
        Some(t) => String::from_str("Bearer ").concat(t.as_str()),
        None => String::from_str("Bearer {API_TOKEN}"),
    }
}

pub open spec fn all_have_field(a: Seq<JsonV>, k: Seq<char>) -> bool {
    forall|i: int| 0 <= i < a.len() ==> str_field(a[i], k) is Some
}

/// The text an upstream reply yields. `/answer` reads one object directly;
/// the other routes expect a non-empty array of objects each carrying the
/// route's field, and yield the first element's text.
pub open spec fn unwrap_upstream(route: Route, p: Option<JsonV>) -> Option<Seq<char>> {
    match p {
        None => None,
        Some(j) => match route {
            Route::Answer => str_field(j, "answer"@),
            _ => match j {
                JsonV::Arr(a) => if a.len() > 0 && all_have_field(a, response_field(route)) {
                    str_field(a[0], response_field(route))
                } else {
                    None
                },
                _ => None,
            },
        },
    }
}

/// Extracts the text from a parsed upstream reply.
pub fn extract_upstream(route: Route, j: &Json) -> (r: Option<String>)
    ensures
        match r {
            Some(s) => unwrap_upstream(route, Some(jview(*j))) == Some(s@),
            None => unwrap_upstream(route, Some(jview(*j))) is None,
        },
{
    match route {
        Route::Answer => get_str_field(j, "answer"),
        _ => {
            let key = response_field_name(route);
            match j {
                Json::Arr(a) => {
                    let ghost av = jview(*j)->Arr_0;
                    if a.len() == 0 {
                        return None;
                    }
                    let first = get_str_field(&a[0], key);
                    match first {
                        None => None,
                        Some(text) => {
                            let mut i: usize = 1;
                            while i < a.len()
                                invariant
                                    1 <= i <= a@.len(),
                                    *j == Json::Arr(*a),
                                    jview(*j) == JsonV::Arr(av),
                                    av.len() == a@.len(),
                                    forall|k: int| 0 <= k < a@.len() ==> av[k] == jview(a@[k]),
                                    key@ == response_field(route),
                                    route != Route::Answer,
                                    str_field(av[0], key@) == Some(text@),
                                    forall|k: int| 0 <= k < i ==> str_field(av[k], key@) is Some,
                                decreases a@.len() - i,
                            {
                                let f = get_str_field(&a[i], key);
                                if f.is_none() {
                                    proof {
                                        assert(str_field(av[i as int], key@) is None);
                                        assert(!all_have_field(av, response_field(route)));
                                    }
                                    return None;
                                }
                                i = i + 1;
                            }
                            proof {
                                assert(all_have_field(av, response_field(route)));
                            }
                            Some(text)
                        },
                    }
                },
                _ => None,
            }
        },
    }
}

/// What a route sends upstream: the fixed address, the bearer header value,
/// and the reshaped payload.
#[derive(Debug, PartialEq, Eq)]
pub struct UpstreamCall {
    pub url: String,
    pub authorization: String,
    pub payload: Json,
}

pub struct CallV {
    pub url: Seq<char>,
    pub authorization: Seq<char>,
    pub payload: JsonV,
}

pub open spec fn call_view(c: UpstreamCall) -> CallV {
    CallV { url: c.url@, authorization: c.authorization@, payload: jview(c.payload) }
}

pub open spec fn call_spec(route: Route, inb: InboundV, tok: Option<Seq<char>>) -> CallV {
    CallV {
        url: route_url(route),
        authorization: bearer_value(tok),
        payload: adapter_payload(inb),
    }
}

/// Builds the one outbound call a route makes for an inbound body.
pub fn upstream_call(route: Route, b: &InboundBody, api_token: &Option<String>) -> (r: UpstreamCall)
    ensures
        call_view(r) == call_spec(route, inbound_view(*b), opt_string_view(*api_token)),
{
    UpstreamCall {
        url: String::from_str(upstream_url(route)),
        authorization: bearer(api_token),
        payload: build_payload(b),
    }
}

/// The `/generate` adapter's outbound side: `{"inputs": message}` for the
/// text-generation model, with the bearer token attached.
pub fn generate(message: String, api_token: Option<String>) -> (r: UpstreamCall)
    ensures
        call_view(r) == call_spec(
            Route::Generate,
            InboundV::Single(message@),
            opt_string_view(api_token),
        ),
{
    let b = InboundBody::Single(GenerationRequest { message });
    upstream_call(Route::Generate, &b, &api_token)
}

/// The `/answer` adapter's outbound side: `{"inputs": {"question",
/// "context"}}` for the question-answering model.
pub fn answer(question: String, context: String, api_token: Option<String>) -> (r: UpstreamCall)
    ensures
        call_view(r) == call_spec(
            Route::Answer,
            InboundV::Pair(question@, context@),
            opt_string_view(api_token),
        ),
{
    let b = InboundBody::Pair(AnswerRequest { question, context });
    upstream_call(Route::Answer, &b, &api_token)
}

/// The `/headline` adapter's outbound side: the generate shape aimed at the
/// headline model.
pub fn headline(message: String, api_token: Option<String>) -> (r: UpstreamCall)
    ensures
        call_view(r) == call_spec(
            Route::Headline,
            InboundV::Single(message@),
            opt_string_view(api_token),
        ),
{
    let b = InboundBody::Single(GenerationRequest { message });
    upstream_call(Route::Headline, &b, &api_token)
}

/// The `/summarize` adapter's outbound side: the generate shape aimed at
/// the summarization model.
pub fn summarize(message: String, api_token: Option<String>) -> (r: UpstreamCall)
    ensures
        call_view(r) == call_spec(
            Route::Summarize,
            InboundV::Single(message@),
            opt_string_view(api_token),
        ),
{
    let b = InboundBody::Single(GenerationRequest { message });
    upstream_call(Route::Summarize, &b, &api_token)
}

/// The reply body sent back to the caller: the route's field naming the
/// extracted text.
pub open spec fn success_body(route: Route, text: Seq<char>) -> Seq<char> {
    json_text(JsonV::Obj(seq![(response_field(route), JsonV::Str(text))]))
}

/// An object of one string member.
fn single_member_obj(name: &'static str, text: String) -> (r: Json)
    ensures
        jview(r) == JsonV::Obj(seq![(name@, JsonV::Str(text@))]),
{
    let ghost t = text@;
    let mut mem: Vec<(String, Json)> = Vec::new();
    mem.push((String::from_str(name), Json::Str(text)));
    let ghost mems = mem@;
    let r = Json::Obj(mem);
    proof {
        reveal_with_fuel(jview, 3);
        assert(mems.len() == 1);
        assert(mems[0].0@ == name@);
        assert(jview(mems[0].1) == JsonV::Str(t));
        assert(jview(r)->Obj_0 =~= seq![(name@, JsonV::Str(t))]);
        assert(jview(r) == JsonV::Obj(seq![(name@, JsonV::Str(t))]));
    }
    r
}

impl GenerationResponse {
    /// The reply body `{"generated_text": ...}`.
    pub fn to_json(self) -> (r: Json)
        ensures
            jview(r) == JsonV::Obj(seq![("generated_text"@, JsonV::Str(self.generated_text@))]),
    {
        single_member_obj("generated_text", self.generated_text)
    }
}

impl AnswerResponse {
    /// The reply body `{"answer": ...}`.
    pub fn to_json(self) -> (r: Json)
        ensures
            jview(r) == JsonV::Obj(seq![("answer"@, JsonV::Str(self.answer@))]),
    {
        single_member_obj("answer", self.answer)
    }
}

impl SummarizeResponse {
    /// The reply body `{"summary_text": ...}`.
    pub fn to_json(self) -> (r: Json)
        ensures
            jview(r) == JsonV::Obj(seq![("summary_text"@, JsonV::Str(self.summary_text@))]),
    {
        single_member_obj("summary_text", self.summary_text)
    }
}

/// Wraps the extracted text in the route's reply shape.
pub fn wrap_response(route: Route, text: String) -> (r: Json)
    ensures
        jview(r) == JsonV::Obj(seq![(response_field(route), JsonV::Str(text@))]),
{
    match route {
        Route::Answer => AnswerResponse { answer: text }.to_json(),
        Route::Summarize => SummarizeResponse { summary_text: text }.to_json(),
        _ => GenerationResponse { generated_text: text }.to_json(),
    }
}

} // verus!
