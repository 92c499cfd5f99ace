use prompt_gateway::common_types::IntOrString;
use prompt_gateway::common_types::ZeroShotClassificationResponse;
use prompt_gateway::configuration::Configuration;
use prompt_gateway::configuration::EndpointDetails;
use prompt_gateway::configuration::Listener;
use prompt_gateway::configuration::LlmProvider;
use prompt_gateway::configuration::MessageFormat;
use prompt_gateway::configuration::Method;
use prompt_gateway::configuration::PromptTarget;
use prompt_gateway::filter_context::FilterContext;
use prompt_gateway::open_ai::ChatCompletionsRequest;
use prompt_gateway::open_ai::ChatCompletionsResponse;
use prompt_gateway::open_ai::Choice;
use prompt_gateway::open_ai::FunctionCallDetail;
use prompt_gateway::open_ai::Message;
use prompt_gateway::open_ai::ToolCall;
use prompt_gateway::open_ai::Usage;
use prompt_gateway::stream_context::CallBody;
use prompt_gateway::stream_context::CommitOutcome;
use prompt_gateway::stream_context::EmbeddingsAction;
use prompt_gateway::stream_context::GateDecision;
use prompt_gateway::stream_context::RequestBodyAction;
use prompt_gateway::stream_context::RequestHeadersAction;
use prompt_gateway::stream_context::ResolverAction;
use prompt_gateway::stream_context::StreamContext;
use prompt_gateway::stream_context::ToolAction;
use prompt_gateway::stream_context::ZeroShotAction;

fn weather_target() -> PromptTarget {
    PromptTarget {
        name: "weather".to_string(),
        default: None,
        description: "weather lookup".to_string(),
        endpoint: Some(EndpointDetails {
            name: "app_server".to_string(),
            path: Some("/weather".to_string()),
            method: Some(Method::Post),
        }),
        parameters: None,
        system_prompt: Some("talk about the weather".to_string()),
        auto_llm_dispatch_on_response: None,
    }
}

fn config() -> Configuration {
    Configuration {
        version: "v0.1".to_string(),
        listener: Listener {
            address: "0.0.0.0".to_string(),
            port: 10000,
            message_format: MessageFormat::Huggingface,
        },
        endpoints: vec![],
        llm_providers: vec![LlmProvider {
            name: "openai".to_string(),
            provider: "openai".to_string(),
            access_key: Some("x-openai-key".to_string()),
            model: "gpt-4o".to_string(),
            default: Some(true),
            stream: Some(true),
            rate_limits: None,
        }],
        overrides: None,
        system_prompt: None,
        prompt_guards: None,
        prompt_targets: vec![weather_target()],
        error_target: None,
        ratelimits: None,
        tracing: None,
    }
}

/// A stream whose catalog holds `desc_vec` for `weather`, after a headers
/// and body stage for the given user turn.
fn stream_at_embedding_stage(desc_vec: Vec<i64>, messages: Vec<Message>) -> StreamContext {
    let mut fc = FilterContext::new();
    fc.on_configure(config()).unwrap();
    fc.process_prompt_targets();
    assert!(fc.register_startup_callout(1, 0));
    fc.embedding_response_handler(1, Ok(desc_vec)).unwrap();
    let mut sc = fc.create_http_context(7).unwrap();

    let inbound = vec![("x-openai-key".to_string(), "sk-test".to_string())];
    match sc.on_http_request_headers(&inbound) {
        RequestHeadersAction::Rewritten { .. } => {}
        RequestHeadersAction::SendError { .. } => panic!("headers stage failed"),
    }

    let req = ChatCompletionsRequest {
        model: "client-model".to_string(),
        messages,
        tools: None,
        stream: false,
        stream_options: None,
    };
    match sc.on_http_request_body(100, true, Some(Ok(req))) {
        RequestBodyAction::DispatchEmbeddings { .. } => {}
        _ => panic!("expected an embeddings dispatch"),
    }
    assert_eq!(sc.commit_dispatch(50), CommitOutcome::Committed);
    sc
}

fn user(content: &str) -> Message {
    Message { role: "user".to_string(), content: Some(content.to_string()), model: None, tool_calls: None }
}

fn zs(class: &str, score_micros: i64) -> ZeroShotClassificationResponse {
    ZeroShotClassificationResponse {
        predicted_class: class.to_string(),
        predicted_class_score: score_micros,
        scores: vec![(class.to_string(), score_micros)],
        model: "zero-shot-intent".to_string(),
    }
}

#[test]
fn passthrough_when_the_fused_score_is_below_threshold() {
    // catalog description [0, 1]; user embedding [1, 0]: similarity 0
    let mut sc = stream_at_embedding_stage(vec![0, 1_000_000], vec![user("hello")]);
    match sc.embeddings_handler(50, Ok(vec![1_000_000, 0])) {
        EmbeddingsAction::DispatchZeroShot { call } => match call.body {
            CallBody::ZeroShot(z) => {
                assert_eq!(z.input, "hello");
                assert_eq!(z.labels, vec!["weather".to_string()]);
            }
            _ => panic!("expected a zero-shot body"),
        },
        _ => panic!("expected a zero-shot dispatch"),
    }
    assert_eq!(sc.commit_dispatch(51), CommitOutcome::Committed);

    // fused = 0.7 * 0.2 + 0.3 * 0 = 0.14 < 0.5: pass through
    match sc.zero_shot_intent_detection_resp_handler(51, Ok(zs("weather", 200_000))) {
        ZeroShotAction::ResumeWithBody { body } => {
            // forwarded unchanged but for the model rewrite
            assert_eq!(body.model, "gpt-4o");
            assert_eq!(body.messages.len(), 1);
            assert_eq!(body.messages[0].content, Some("hello".to_string()));
            assert!(body.tools.is_none());
            assert!(!body.stream);
        }
        _ => panic!("expected a pass-through"),
    }
    assert_eq!(sc.active_callouts(), 0);
}

#[test]
fn matched_intent_runs_exactly_one_tool_call_and_synthesizes_the_body() {
    // catalog description equals the user embedding: similarity 1
    let mut sc = stream_at_embedding_stage(vec![1_000_000, 0], vec![user("hello")]);
    match sc.embeddings_handler(50, Ok(vec![1_000_000, 0])) {
        EmbeddingsAction::DispatchZeroShot { .. } => {}
        _ => panic!("expected a zero-shot dispatch"),
    }
    assert_eq!(sc.commit_dispatch(51), CommitOutcome::Committed);

    // fused = 0.7 * 0.9 + 0.3 * 1.0 = 0.93 >= 0.5: resolver
    match sc.zero_shot_intent_detection_resp_handler(51, Ok(zs("weather", 900_000))) {
        ZeroShotAction::DispatchResolver { call } => {
            assert_eq!(call.cluster, "curve_fc");
            assert_eq!(call.path, "/v1/chat/completions");
            match call.body {
                CallBody::Resolver(req) => {
                    assert_eq!(req.model, "gpt-3.5-turbo");
                    assert!(!req.stream);
                    let tools = req.tools.unwrap();
                    assert_eq!(tools.len(), 1);
                    assert_eq!(tools[0].function.name, "weather");
                    assert_eq!(tools[0].function.description, "weather lookup");
                }
                _ => panic!("expected a resolver body"),
            }
        }
        _ => panic!("expected a resolver dispatch"),
    }
    assert_eq!(sc.commit_dispatch(52), CommitOutcome::Committed);

    // the resolver picked one tool call
    let resolver_reply = ChatCompletionsResponse {
        usage: Usage { completion_tokens: 0 },
        choices: vec![Choice {
            finish_reason: "tool_calls".to_string(),
            index: 0,
            message: Message {
                role: "assistant".to_string(),
                content: None,
                model: None,
                tool_calls: Some(vec![ToolCall {
                    function: FunctionCallDetail {
                        name: "weather".to_string(),
                        arguments: vec![("city".to_string(), IntOrString::Text("Paris".to_string()))],
                    },
                }]),
            },
        }],
        model: "resolver".to_string(),
    };
    match sc.function_resolver_handler(52, Ok(resolver_reply)) {
        ResolverAction::DispatchTool { call } => {
            assert_eq!(call.cluster, "app_server");
            // POST keeps the path untouched and sends the arguments as body
            assert_eq!(call.path, "/weather");
            assert_eq!(call.method, Method::Post);
            match call.body {
                CallBody::Tool(Some(args)) => {
                    assert_eq!(args.len(), 1);
                    assert_eq!(args[0].0, "city");
                }
                _ => panic!("expected tool arguments"),
            }
        }
        _ => panic!("expected a tool dispatch"),
    }
    assert_eq!(sc.commit_dispatch(53), CommitOutcome::Committed);

    // 200 from the endpoint: the upstream body is synthesized
    match sc.function_call_response_handler(53, Some(200), "sunny".to_string()) {
        ToolAction::RateLimitGate { request, selector } => {
            assert!(selector.is_none());
            assert_eq!(request.model, "gpt-4o");
            assert!(request.tools.is_none());
            let ms = &request.messages;
            assert_eq!(ms.len(), 4);
            assert_eq!(ms[0].content, Some("hello".to_string()));
            assert_eq!(ms[1].role, "system");
            assert_eq!(ms[1].content, Some("talk about the weather".to_string()));
            assert_eq!(ms[2].role, "user");
            assert_eq!(ms[2].content, Some("sunny".to_string()));
            assert_eq!(ms[3].role, "user");
            assert_eq!(ms[3].content, Some("hello".to_string()));
        }
        _ => panic!("expected the rate-limit gate"),
    }
    match sc.gate_decision(None) {
        GateDecision::Proceed => {}
        GateDecision::Reject { .. } => panic!("no limiter was consulted"),
    }
    // no call left in flight: nothing else will be dispatched
    assert_eq!(sc.active_callouts(), 0);
}

#[test]
fn curve_assistant_continuity_bypasses_the_threshold() {
    // ongoing parameter collection: the second-to-last message was authored
    // by a Curve model; a low score still goes to the resolver
    let assistant = Message {
        role: "assistant".to_string(),
        content: Some("which city?".to_string()),
        model: Some("Curve-1".to_string()),
        tool_calls: None,
    };
    let mut sc = stream_at_embedding_stage(
        vec![0, 1_000_000],
        vec![assistant, user("Paris")],
    );
    match sc.embeddings_handler(50, Ok(vec![1_000_000, 0])) {
        EmbeddingsAction::DispatchZeroShot { .. } => {}
        _ => panic!("expected a zero-shot dispatch"),
    }
    assert_eq!(sc.commit_dispatch(51), CommitOutcome::Committed);
    match sc.zero_shot_intent_detection_resp_handler(51, Ok(zs("weather", 100_000))) {
        ZeroShotAction::DispatchResolver { .. } => {}
        _ => panic!("continuity should reach the resolver"),
    }
    assert_eq!(sc.commit_dispatch(52), CommitOutcome::Committed);

    // the resolver answers with a clarifying message instead of a tool call
    let reply = ChatCompletionsResponse {
        usage: Usage { completion_tokens: 0 },
        choices: vec![Choice {
            finish_reason: "stop".to_string(),
            index: 0,
            message: Message {
                role: "assistant".to_string(),
                content: Some("which country?".to_string()),
                model: None,
                tool_calls: None,
            },
        }],
        model: "resolver".to_string(),
    };
    match sc.function_resolver_handler(52, Ok(reply)) {
        ResolverAction::ReplyInline => {}
        _ => panic!("expected the dialogue to continue inline"),
    }
}

fn resolver_reply_with_one_call(args: Vec<(String, IntOrString)>) -> ChatCompletionsResponse {
    ChatCompletionsResponse {
        usage: Usage { completion_tokens: 0 },
        choices: vec![Choice {
            finish_reason: "tool_calls".to_string(),
            index: 0,
            message: Message {
                role: "assistant".to_string(),
                content: None,
                model: None,
                tool_calls: Some(vec![ToolCall {
                    function: FunctionCallDetail { name: "weather".to_string(), arguments: args },
                }]),
            },
        }],
        model: "resolver".to_string(),
    }
}

fn stream_at_tool_stage() -> StreamContext {
    let mut sc = stream_at_embedding_stage(vec![1_000_000, 0], vec![user("hello")]);
    match sc.embeddings_handler(50, Ok(vec![1_000_000, 0])) {
        EmbeddingsAction::DispatchZeroShot { .. } => {}
        _ => panic!("expected a zero-shot dispatch"),
    }
    assert_eq!(sc.commit_dispatch(51), CommitOutcome::Committed);
    match sc.zero_shot_intent_detection_resp_handler(51, Ok(zs("weather", 900_000))) {
        ZeroShotAction::DispatchResolver { .. } => {}
        _ => panic!("expected a resolver dispatch"),
    }
    assert_eq!(sc.commit_dispatch(52), CommitOutcome::Committed);
    let args = vec![("city".to_string(), IntOrString::Text("Paris".to_string()))];
    match sc.function_resolver_handler(52, Ok(resolver_reply_with_one_call(args))) {
        ResolverAction::DispatchTool { .. } => {}
        _ => panic!("expected a tool dispatch"),
    }
    assert_eq!(sc.commit_dispatch(53), CommitOutcome::Committed);
    sc
}

#[test]
fn failed_tool_endpoint_names_cluster_and_path() {
    let mut sc = stream_at_tool_stage();
    match sc.function_call_response_handler(53, Some(503), "oops".to_string()) {
        ToolAction::SendError { status, message } => {
            assert_eq!(status, 400);
            assert_eq!(
                message,
                "Error in function call response: cluster: app_server, path: /weather, status code: 503"
            );
        }
        _ => panic!("expected a 400 with a diagnostic"),
    }
    // no upstream forward happened, and nothing else is in flight
    assert_eq!(sc.active_callouts(), 0);
}

#[test]
fn non_post_tool_endpoints_take_a_query_string_and_no_body() {
    let mut cfg = config();
    cfg.prompt_targets[0].endpoint = Some(EndpointDetails {
        name: "app_server".to_string(),
        path: Some("/w".to_string()),
        method: Some(Method::Get),
    });
    let mut fc = FilterContext::new();
    fc.on_configure(cfg).unwrap();
    fc.process_prompt_targets();
    assert!(fc.register_startup_callout(1, 0));
    fc.embedding_response_handler(1, Ok(vec![1_000_000, 0])).unwrap();
    let mut sc = fc.create_http_context(7).unwrap();
    let inbound = vec![("x-openai-key".to_string(), "sk-test".to_string())];
    match sc.on_http_request_headers(&inbound) {
        RequestHeadersAction::Rewritten { .. } => {}
        RequestHeadersAction::SendError { .. } => panic!("headers stage failed"),
    }
    let req = ChatCompletionsRequest {
        model: String::new(),
        messages: vec![user("hello")],
        tools: None,
        stream: false,
        stream_options: None,
    };
    match sc.on_http_request_body(10, true, Some(Ok(req))) {
        RequestBodyAction::DispatchEmbeddings { .. } => {}
        _ => panic!("expected the embeddings dispatch"),
    }
    assert_eq!(sc.commit_dispatch(50), CommitOutcome::Committed);
    match sc.embeddings_handler(50, Ok(vec![1_000_000, 0])) {
        EmbeddingsAction::DispatchZeroShot { .. } => {}
        _ => panic!("expected a zero-shot dispatch"),
    }
    assert_eq!(sc.commit_dispatch(51), CommitOutcome::Committed);
    match sc.zero_shot_intent_detection_resp_handler(51, Ok(zs("weather", 900_000))) {
        ZeroShotAction::DispatchResolver { .. } => {}
        _ => panic!("expected a resolver dispatch"),
    }
    assert_eq!(sc.commit_dispatch(52), CommitOutcome::Committed);
    let args = vec![
        ("city".to_string(), IntOrString::Text("Paris".to_string())),
        ("days".to_string(), IntOrString::Integer(3)),
    ];
    match sc.function_resolver_handler(52, Ok(resolver_reply_with_one_call(args))) {
        ResolverAction::DispatchTool { call } => {
            assert_eq!(call.method, Method::Get);
            assert_eq!(call.path, "/w?city=Paris&days=3");
            match call.body {
                CallBody::Tool(None) => {}
                _ => panic!("a query-string invocation sends no body"),
            }
        }
        _ => panic!("expected a tool dispatch"),
    }
}

#[test]
fn duplicate_token_commit_is_refused() {
    let mut sc = stream_at_embedding_stage(vec![0, 1_000_000], vec![user("hello")]);
    match sc.embeddings_handler(50, Ok(vec![1_000_000, 0])) {
        EmbeddingsAction::DispatchZeroShot { .. } => {}
        _ => panic!("expected a zero-shot dispatch"),
    }
    // token 50 was just surrendered; re-using a live token is refused
    assert_eq!(sc.commit_dispatch(51), CommitOutcome::Committed);
    match sc.zero_shot_intent_detection_resp_handler(51, Ok(zs("weather", 900_000))) {
        ZeroShotAction::DispatchResolver { .. } => {}
        _ => panic!("expected a resolver dispatch"),
    }
    // nothing staged twice: a second commit finds no pending call
    assert_eq!(sc.commit_dispatch(60), CommitOutcome::Committed);
    assert_eq!(sc.commit_dispatch(61), CommitOutcome::NoPendingCall);
}
