use prompt_gateway::configuration::LlmProvider;
use prompt_gateway::headers::header_get;
use prompt_gateway::headers::header_set;
use prompt_gateway::headers::process_request_headers;
use prompt_gateway::routing::LlmProviders;

fn provider(name: &str, key_header: &str, model: &str, default: bool) -> LlmProvider {
    LlmProvider {
        name: name.to_string(),
        provider: name.to_string(),
        access_key: Some(key_header.to_string()),
        model: model.to_string(),
        default: if default { Some(true) } else { None },
        stream: None,
        rate_limits: None,
    }
}

fn h(pairs: &[(&str, &str)]) -> Vec<(String, String)> {
    pairs.iter().map(|(k, v)| (k.to_string(), v.to_string())).collect()
}

#[test]
fn authorization_present_iff_api_key_was_inbound() {
    let providers = LlmProviders::try_new(vec![
        provider("openai", "x-openai-key", "gpt-4o", true),
        provider("mistral", "x-mistral-key", "mistral-large", false),
    ])
    .unwrap();

    // key present: a bearer token is synthesized
    let inbound = h(&[("x-openai-key", "sk-test-value"), ("content-length", "42")]);
    let out = process_request_headers(&inbound, &providers).unwrap();
    assert_eq!(
        header_get(&out.headers, "Authorization"),
        Some("Bearer sk-test-value".to_string())
    );

    // key absent: the stage fails and asks for a 400
    let inbound = h(&[("content-length", "42")]);
    assert!(process_request_headers(&inbound, &providers).is_err());
}

#[test]
fn every_provider_api_key_header_is_scrubbed() {
    let providers = LlmProviders::try_new(vec![
        provider("openai", "x-openai-key", "gpt-4o", true),
        provider("mistral", "x-mistral-key", "mistral-large", false),
    ])
    .unwrap();
    let inbound = h(&[
        ("x-openai-key", "sk-test-value"),
        ("x-mistral-key", "sk-test-value"),
        ("accept", "application/json"),
    ]);
    let out = process_request_headers(&inbound, &providers).unwrap();
    assert_eq!(header_get(&out.headers, "x-openai-key"), None);
    assert_eq!(header_get(&out.headers, "x-mistral-key"), None);
    assert_eq!(header_get(&out.headers, "accept"), Some("application/json".to_string()));
    assert_eq!(header_get(&out.headers, "content-length"), None);
}

#[test]
fn routing_header_names_the_selected_provider() {
    let providers = LlmProviders::try_new(vec![
        provider("mistral", "x-mistral-key", "mistral-large", false),
        provider("openai", "x-openai-key", "gpt-4o", true),
    ])
    .unwrap();

    // without the hint, the configured default is selected
    let inbound = h(&[("x-openai-key", "k"), ("x-mistral-key", "k2")]);
    let out = process_request_headers(&inbound, &providers).unwrap();
    assert_eq!(out.provider_index, 1);
    assert_eq!(header_get(&out.headers, "x-curve-llm-provider"), Some("openai".to_string()));

    // the hint header pins the first provider
    let inbound = h(&[
        ("x-curve-deterministic-provider", "1"),
        ("x-openai-key", "k"),
        ("x-mistral-key", "k2"),
    ]);
    let out = process_request_headers(&inbound, &providers).unwrap();
    assert_eq!(out.provider_index, 0);
    assert_eq!(header_get(&out.headers, "x-curve-llm-provider"), Some("mistral".to_string()));
}

#[test]
fn ratelimit_selector_is_a_two_hop_lookup() {
    let providers =
        LlmProviders::try_new(vec![provider("openai", "x-openai-key", "gpt-4o", true)]).unwrap();
    let inbound = h(&[
        ("x-openai-key", "k"),
        ("x-curve-ratelimit-selector", "x-user"),
        ("x-user", "alice"),
    ]);
    let out = process_request_headers(&inbound, &providers).unwrap();
    let selector = out.ratelimit_selector.unwrap();
    assert_eq!(selector.key, "x-user");
    assert_eq!(selector.value, Some("alice".to_string()));

    // the named header is absent: no selector is captured
    let inbound = h(&[("x-openai-key", "k"), ("x-curve-ratelimit-selector", "x-user")]);
    let out = process_request_headers(&inbound, &providers).unwrap();
    assert!(out.ratelimit_selector.is_none());
}

#[test]
fn plain_routing_path_is_pointed_at_chat_completions() {
    let mut headers = h(&[(":path", "/llmrouting"), (":method", "POST")]);
    prompt_gateway::headers::modify_path_header(&mut headers);
    assert_eq!(header_get(&headers, ":path"), Some("/v1/chat/completions".to_string()));

    let mut headers = h(&[(":path", "/v1/embeddings")]);
    prompt_gateway::headers::modify_path_header(&mut headers);
    assert_eq!(header_get(&headers, ":path"), Some("/v1/embeddings".to_string()));
}

#[test]
fn plain_routing_body_keeps_the_conversation() {
    let mut body = prompt_gateway::llm_backend::ChatCompletions {
        model: "client-model".to_string(),
        messages: vec![prompt_gateway::llm_backend::Message {
            role: "user".to_string(),
            content: "hello".to_string(),
        }],
    };
    body.set_model("gpt-3.5-turbo".to_string());
    assert_eq!(body.model, "gpt-3.5-turbo");
    assert_eq!(body.messages.len(), 1);
    assert_eq!(body.messages[0].content, "hello");
}

#[test]
fn header_set_replaces_and_removes() {
    let mut headers = h(&[("a", "1"), ("b", "2"), ("a", "3")]);
    header_set(&mut headers, "a", Some("9".to_string()));
    assert_eq!(header_get(&headers, "a"), Some("9".to_string()));
    assert_eq!(header_get(&headers, "b"), Some("2".to_string()));
    header_set(&mut headers, "b", None);
    assert_eq!(header_get(&headers, "b"), None);
    assert_eq!(header_get(&headers, "a"), Some("9".to_string()));
}
