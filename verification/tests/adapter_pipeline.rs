use inference_relay::adapters::{answer, bearer, generate, headline, summarize, Route};
use inference_relay::handler::{post_finish, post_prepare, Config, PostStep};
use inference_relay::json::json_to_string;

fn config() -> Config {
    Config {
        cors_origin: "https://example.com".to_string(),
        api_token: Some("sesame".to_string()),
        version: "0.0.9".to_string(),
    }
}

#[test]
fn generate_builds_inputs_payload() {
    let call = generate("hello there".to_string(), Some("tok".to_string()));
    assert_eq!(call.url, "https://api-inference.huggingface.co/models/EleutherAI/gpt-j-6B");
    assert_eq!(call.authorization, "Bearer tok");
    assert_eq!(json_to_string(&call.payload), "{\"inputs\":\"hello there\"}");
}

#[test]
fn headline_and_summarize_share_the_generate_shape() {
    let h = headline("m".to_string(), Some("tok".to_string()));
    let s = summarize("m".to_string(), Some("tok".to_string()));
    assert_eq!(
        h.url,
        "https://api-inference.huggingface.co/models/Michau/t5-base-en-generate-headline",
    );
    assert_eq!(s.url, "https://api-inference.huggingface.co/models/facebook/bart-large-cnn");
    assert_eq!(json_to_string(&h.payload), "{\"inputs\":\"m\"}");
    assert_eq!(json_to_string(&s.payload), "{\"inputs\":\"m\"}");
}

#[test]
fn answer_builds_nested_payload() {
    let call = answer("why?".to_string(), "because.".to_string(), Some("tok".to_string()));
    assert_eq!(call.url, "https://api-inference.huggingface.co/models/deepset/roberta-base-squad2");
    assert_eq!(
        json_to_string(&call.payload),
        "{\"inputs\":{\"question\":\"why?\",\"context\":\"because.\"}}",
    );
}

#[test]
fn bearer_without_token_keeps_placeholder() {
    assert_eq!(bearer(&None), "Bearer {API_TOKEN}");
    assert_eq!(bearer(&Some("abc".to_string())), "Bearer abc");
}

#[test]
fn prepare_valid_body_yields_call() {
    let step = post_prepare(Route::Generate, "{\"message\":\"hi\"}", &config());
    match step {
        PostStep::Call(call) => {
            assert_eq!(call.authorization, "Bearer sesame");
            assert_eq!(json_to_string(&call.payload), "{\"inputs\":\"hi\"}");
        },
        PostStep::Reply(r) => panic!("expected a call, got a reply with status {}", r.status),
    }
}

#[test]
fn prepare_missing_message_is_bad_request() {
    let step = post_prepare(Route::Generate, "{\"text\":\"hi\"}", &config());
    match step {
        PostStep::Reply(r) => {
            assert_eq!(r.status, 400);
            assert_eq!(r.body, "Bad request");
            assert!(r.headers.is_empty());
        },
        PostStep::Call(_) => panic!("a rejected body must not lead to a call"),
    }
}

#[test]
fn prepare_mistyped_message_is_bad_request() {
    let step = post_prepare(Route::Generate, "{\"message\": 5}", &config());
    assert!(matches!(step, PostStep::Reply(ref r) if r.status == 400));
}

#[test]
fn prepare_unparsable_body_is_bad_request() {
    let step = post_prepare(Route::Generate, "not json", &config());
    assert!(matches!(step, PostStep::Reply(ref r) if r.status == 400));
}

#[test]
fn prepare_answer_needs_both_fields() {
    let ok = post_prepare(Route::Answer, "{\"question\":\"q\",\"context\":\"c\"}", &config());
    assert!(matches!(ok, PostStep::Call(_)));
    let missing = post_prepare(Route::Answer, "{\"question\":\"q\"}", &config());
    assert!(matches!(missing, PostStep::Reply(ref r) if r.status == 400));
}

#[test]
fn finish_generate_unwraps_first_element() {
    let reply = post_finish(
        Route::Generate,
        Some((200, "[{\"generated_text\":\"out\"},{\"generated_text\":\"more\"}]".to_string())),
    );
    assert_eq!(reply.status, 200);
    assert_eq!(reply.body, "{\"generated_text\":\"out\"}");
    assert_eq!(
        reply.headers,
        vec![("Access-Control-Allow-Origin".to_string(), "*".to_string())],
    );
}

#[test]
fn finish_answer_reads_single_object() {
    let reply = post_finish(Route::Answer, Some((200, "{\"answer\":\"42\"}".to_string())));
    assert_eq!(reply.status, 200);
    assert_eq!(reply.body, "{\"answer\":\"42\"}");
}

#[test]
fn finish_summarize_uses_its_field() {
    let reply = post_finish(Route::Summarize, Some((200, "[{\"summary_text\":\"s\"}]".to_string())));
    assert_eq!(reply.status, 200);
    assert_eq!(reply.body, "{\"summary_text\":\"s\"}");
}

#[test]
fn finish_empty_sequence_is_bad_gateway() {
    let reply = post_finish(Route::Generate, Some((200, "[]".to_string())));
    assert_eq!(reply.status, 502);
    assert_eq!(reply.body, "Bad gateway");
    assert!(reply.headers.is_empty());
}

#[test]
fn finish_element_off_shape_is_bad_gateway() {
    let reply = post_finish(
        Route::Generate,
        Some((200, "[{\"generated_text\":\"a\"},{\"other\":1}]".to_string())),
    );
    assert_eq!(reply.status, 502);
}

#[test]
fn finish_non_success_status_is_bad_gateway() {
    let reply = post_finish(Route::Generate, Some((404, "[{\"generated_text\":\"a\"}]".to_string())));
    assert_eq!(reply.status, 502);
}

#[test]
fn finish_transport_failure_is_bad_gateway() {
    let reply = post_finish(Route::Answer, None);
    assert_eq!(reply.status, 502);
    assert_eq!(reply.body, "Bad gateway");
}

#[test]
fn finish_unparsable_upstream_body_is_bad_gateway() {
    let reply = post_finish(Route::Answer, Some((200, "<html>".to_string())));
    assert_eq!(reply.status, 502);
}

#[test]
fn repeated_identical_exchanges_give_identical_replies() {
    let cfg = config();
    let body = "{\"message\":\"same\"}";
    let upstream = "[{\"generated_text\":\"same out\"}]";
    let first_step = post_prepare(Route::Generate, body, &cfg);
    let second_step = post_prepare(Route::Generate, body, &cfg);
    assert_eq!(first_step, second_step);
    let first = post_finish(Route::Generate, Some((200, upstream.to_string())));
    let second = post_finish(Route::Generate, Some((200, upstream.to_string())));
    assert_eq!(first, second);
    assert_eq!(first.body, second.body);
}

#[test]
fn empty_message_is_valid_and_kept() {
    let call = generate(String::new(), None);
    assert_eq!(json_to_string(&call.payload), "{\"inputs\":\"\"}");
    let step = post_prepare(Route::Generate, "{\"message\":\"\"}", &config());
    assert!(matches!(step, PostStep::Call(_)));
}

#[test]
fn duplicate_inbound_keys_keep_the_last_value() {
    let step = post_prepare(Route::Generate, "{\"message\":\"a\",\"message\":\"b\"}", &config());
    match step {
        PostStep::Call(call) => assert_eq!(json_to_string(&call.payload), "{\"inputs\":\"b\"}"),
        PostStep::Reply(r) => panic!("expected a call, got status {}", r.status),
    }
}

#[test]
fn multibyte_text_passes_through_unescaped() {
    let reply = post_finish(
        Route::Generate,
        Some((200, "[{\"generated_text\":\"h\u{e9}llo w\u{f6}rld \u{2713}\"}]".to_string())),
    );
    assert_eq!(reply.status, 200);
    assert_eq!(reply.body, "{\"generated_text\":\"h\u{e9}llo w\u{f6}rld \u{2713}\"}");
}
