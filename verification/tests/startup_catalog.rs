use prompt_gateway::common_types::EmbeddingType;
use prompt_gateway::configuration::Configuration;
use prompt_gateway::configuration::Listener;
use prompt_gateway::configuration::LlmProvider;
use prompt_gateway::configuration::MessageFormat;
use prompt_gateway::configuration::PromptTarget;
use prompt_gateway::filter_context::FilterContext;

fn provider(name: &str, default: bool) -> LlmProvider {
    LlmProvider {
        name: name.to_string(),
        provider: name.to_string(),
        access_key: Some(format!("{}-api-key", name)),
        model: "gpt-4o".to_string(),
        default: if default { Some(true) } else { None },
        stream: Some(true),
        rate_limits: None,
    }
}

fn target(name: &str, description: &str) -> PromptTarget {
    PromptTarget {
        name: name.to_string(),
        default: None,
        description: description.to_string(),
        endpoint: None,
        parameters: None,
        system_prompt: None,
        auto_llm_dispatch_on_response: None,
    }
}

fn config(providers: Vec<LlmProvider>, targets: Vec<PromptTarget>) -> Configuration {
    Configuration {
        version: "v0.1".to_string(),
        listener: Listener {
            address: "0.0.0.0".to_string(),
            port: 10000,
            message_format: MessageFormat::Huggingface,
        },
        endpoints: vec![],
        llm_providers: providers,
        overrides: None,
        system_prompt: None,
        prompt_guards: None,
        prompt_targets: targets,
        error_target: None,
        ratelimits: None,
        tracing: None,
    }
}

#[test]
fn configure_requires_exactly_one_default_provider() {
    let mut fc = FilterContext::new();
    let r = fc.on_configure(config(vec![provider("openai", false)], vec![]));
    assert!(r.is_err());

    let mut fc = FilterContext::new();
    let r = fc.on_configure(config(
        vec![provider("openai", true), provider("mistral", true)],
        vec![],
    ));
    assert!(r.is_err());

    let mut fc = FilterContext::new();
    let r = fc.on_configure(config(vec![provider("openai", true)], vec![]));
    assert!(r.is_ok());
}

#[test]
fn no_context_until_every_target_has_its_embedding() {
    let mut fc = FilterContext::new();
    fc.on_configure(config(
        vec![provider("openai", true)],
        vec![target("weather", "weather lookup"), target("reboot", "reboot a device")],
    ))
    .unwrap();

    let calls = fc.process_prompt_targets();
    assert_eq!(calls.len(), 2);
    assert!(fc.register_startup_callout(11, 0));
    assert!(fc.register_startup_callout(12, 1));

    // nothing admitted while the catalog is incomplete
    assert!(fc.create_http_context(1).is_none());

    fc.embedding_response_handler(11, Ok(vec![0, 1_000_000])).unwrap();
    assert!(!fc.is_published());
    assert!(fc.create_http_context(2).is_none());

    fc.embedding_response_handler(12, Ok(vec![1_000_000, 0])).unwrap();
    assert!(fc.is_published());
    let sc = fc.create_http_context(3);
    assert!(sc.is_some());
    assert_eq!(sc.unwrap().context_id(), 3);
}

#[test]
fn duplicate_embedding_for_a_filled_target_is_fatal() {
    let mut fc = FilterContext::new();
    fc.on_configure(config(
        vec![provider("openai", true)],
        vec![target("weather", "weather lookup"), target("reboot", "reboot a device")],
    ))
    .unwrap();
    fc.process_prompt_targets();
    assert!(fc.register_startup_callout(21, 0));
    // the host minted a token the root already holds: refused
    assert!(!fc.register_startup_callout(21, 1));
    assert!(fc.register_startup_callout(22, 0));

    fc.embedding_response_handler(21, Ok(vec![1, 2])).unwrap();
    // a second vector for the same (target, Description) pair is fatal
    let r = fc.embedding_response_handler(22, Ok(vec![3, 4]));
    assert!(r.is_err());
}

#[test]
fn embedding_decode_failure_is_fatal_at_startup() {
    let mut fc = FilterContext::new();
    fc.on_configure(config(vec![provider("openai", true)], vec![target("weather", "w")]))
        .unwrap();
    fc.process_prompt_targets();
    assert!(fc.register_startup_callout(31, 0));
    let r = fc.embedding_response_handler(31, Err("bad json".to_string()));
    assert!(r.is_err());
    assert!(!fc.is_published());
}

#[test]
fn empty_target_set_publishes_at_once() {
    let mut fc = FilterContext::new();
    fc.on_configure(config(vec![provider("openai", true)], vec![])).unwrap();
    assert!(fc.is_published());
    assert!(fc.create_http_context(1).is_some());
}

#[test]
fn startup_calls_carry_the_descriptions() {
    let mut fc = FilterContext::new();
    fc.on_configure(config(
        vec![provider("openai", true)],
        vec![target("weather", "weather lookup")],
    ))
    .unwrap();
    let calls = fc.process_prompt_targets();
    assert_eq!(calls.len(), 1);
    let call = &calls[0];
    assert_eq!(call.cluster, "model_server");
    assert_eq!(call.path, "/embeddings");
    match &call.body {
        prompt_gateway::stream_context::CallBody::Embeddings(e) => {
            assert_eq!(e.input, "weather lookup");
            assert_eq!(e.model, "text-embedding");
        }
        _ => panic!("expected an embeddings body"),
    }
}
