use inference_relay::cors::{origin_allowed, preflight, split_commas};
use inference_relay::handler::{handle_options, root_response, version_response, Config};

fn config() -> Config {
    Config {
        cors_origin: "https://a.example,https://b.example".to_string(),
        api_token: None,
        version: "2.4.0".to_string(),
    }
}

#[test]
fn splits_on_every_comma() {
    assert_eq!(split_commas("a,b,,c"), vec!["a", "b", "", "c"]);
    assert_eq!(split_commas(""), vec![""]);
    assert_eq!(split_commas("solo"), vec!["solo"]);
    assert_eq!(split_commas(","), vec!["", ""]);
}

#[test]
fn origin_must_match_an_entry_verbatim() {
    let allow = "https://a.example,https://b.example";
    assert!(origin_allowed("https://a.example", allow));
    assert!(origin_allowed("https://b.example", allow));
    assert!(!origin_allowed("https://a.example/", allow));
    assert!(!origin_allowed("a.example", allow));
    assert!(!origin_allowed("https://c.example", allow));
}

#[test]
fn preflight_grants_listed_origin() {
    let reply = handle_options(Some("https://b.example"), &config());
    assert_eq!(reply.status, 204);
    assert_eq!(reply.body, "");
    assert_eq!(
        reply.headers,
        vec![
            ("Access-Control-Allow-Headers".to_string(), "Content-Type".to_string()),
            ("Access-Control-Allow-Methods".to_string(), "POST".to_string()),
            ("Access-Control-Allow-Origin".to_string(), "https://b.example".to_string()),
            ("Access-Control-Max-Age".to_string(), "86400".to_string()),
        ],
    );
}

#[test]
fn preflight_withholds_grant_from_unlisted_origin() {
    let reply = preflight(Some("https://evil.example"), "https://a.example,https://b.example");
    assert_eq!(reply.status, 204);
    assert_eq!(
        reply.headers,
        vec![
            ("Access-Control-Allow-Headers".to_string(), "Content-Type".to_string()),
            ("Access-Control-Allow-Methods".to_string(), "POST".to_string()),
            ("Access-Control-Max-Age".to_string(), "86400".to_string()),
        ],
    );
}

#[test]
fn preflight_without_origin_is_a_bare_success() {
    let reply = preflight(None, "https://a.example");
    assert_eq!(reply.status, 200);
    assert!(reply.headers.is_empty());
    assert_eq!(reply.body, "");
}

#[test]
fn version_endpoint_returns_configured_string() {
    let reply = version_response(&config());
    assert_eq!(reply.status, 200);
    assert_eq!(reply.body, "2.4.0");
    assert!(reply.headers.is_empty());
}

#[test]
fn root_endpoint_greets() {
    let reply = root_response();
    assert_eq!(reply.status, 200);
    assert_eq!(reply.body, "Hello from Workers!");
}

#[test]
fn empty_allow_list_grants_only_the_empty_origin() {
    assert!(origin_allowed("", ""));
    assert!(!origin_allowed("https://a.example", ""));
}
