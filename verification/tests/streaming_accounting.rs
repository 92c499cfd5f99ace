use prompt_gateway::configuration::Configuration;
use prompt_gateway::configuration::Listener;
use prompt_gateway::configuration::LlmProvider;
use prompt_gateway::configuration::MessageFormat;
use prompt_gateway::configuration::PromptTarget;
use prompt_gateway::filter_context::FilterContext;
use prompt_gateway::open_ai::ChatCompletionChunkResponse;
use prompt_gateway::open_ai::ChatCompletionsRequest;
use prompt_gateway::open_ai::ChatCompletionsResponse;
use prompt_gateway::open_ai::ChunkChoice;
use prompt_gateway::open_ai::Delta;
use prompt_gateway::open_ai::Message;
use prompt_gateway::open_ai::StreamOptions;
use prompt_gateway::open_ai::Usage;
use prompt_gateway::sse::extract_stream_data;
use prompt_gateway::sse::is_none_sentinel;
use prompt_gateway::stream_context::CommitOutcome;
use prompt_gateway::stream_context::EmbeddingsAction;
use prompt_gateway::stream_context::FullBodyAction;
use prompt_gateway::stream_context::RequestBodyAction;
use prompt_gateway::stream_context::RequestHeadersAction;
use prompt_gateway::stream_context::ResponseBodyDisposition;
use prompt_gateway::stream_context::StreamChunkAction;
use prompt_gateway::stream_context::StreamContext;
use prompt_gateway::stream_context::ZeroShotAction;

fn config() -> Configuration {
    Configuration {
        version: "v0.1".to_string(),
        listener: Listener {
            address: "0.0.0.0".to_string(),
            port: 10000,
            message_format: MessageFormat::Huggingface,
        },
        endpoints: vec![],
        llm_providers: vec![LlmProvider {
            name: "openai".to_string(),
            provider: "openai".to_string(),
            access_key: Some("x-openai-key".to_string()),
            model: "M".to_string(),
            default: Some(true),
            stream: Some(true),
            rate_limits: None,
        }],
        overrides: None,
        system_prompt: None,
        prompt_guards: None,
        prompt_targets: vec![PromptTarget {
            name: "weather".to_string(),
            default: None,
            description: "weather lookup".to_string(),
            endpoint: None,
            parameters: None,
            system_prompt: None,
            auto_llm_dispatch_on_response: None,
        }],
        error_target: None,
        ratelimits: None,
        tracing: None,
    }
}

fn stream(streaming: bool) -> StreamContext {
    let mut fc = FilterContext::new();
    fc.on_configure(config()).unwrap();
    fc.process_prompt_targets();
    assert!(fc.register_startup_callout(1, 0));
    fc.embedding_response_handler(1, Ok(vec![0, 1_000_000])).unwrap();
    let mut sc = fc.create_http_context(4).unwrap();
    let inbound = vec![("x-openai-key".to_string(), "sk-test".to_string())];
    match sc.on_http_request_headers(&inbound) {
        RequestHeadersAction::Rewritten { .. } => {}
        RequestHeadersAction::SendError { .. } => panic!("headers stage failed"),
    }
    let req = ChatCompletionsRequest {
        model: String::new(),
        messages: vec![Message {
            role: "user".to_string(),
            content: Some("hello".to_string()),
            model: None,
            tool_calls: None,
        }],
        tools: None,
        stream: streaming,
        stream_options: None,
    };
    match sc.on_http_request_body(10, true, Some(Ok(req))) {
        RequestBodyAction::DispatchEmbeddings { .. } => {}
        _ => panic!("expected the embeddings dispatch"),
    }
    sc
}

fn chunk(content: Option<&str>) -> ChatCompletionChunkResponse {
    ChatCompletionChunkResponse {
        model: "M".to_string(),
        choices: vec![ChunkChoice {
            delta: Delta { content: content.map(|c| c.to_string()) },
            finish_reason: None,
        }],
    }
}

#[test]
fn streaming_requests_force_usage_reporting() {
    let mut fc = FilterContext::new();
    fc.on_configure(config()).unwrap();
    fc.process_prompt_targets();
    assert!(fc.register_startup_callout(1, 0));
    fc.embedding_response_handler(1, Ok(vec![0, 1_000_000])).unwrap();
    let mut sc = fc.create_http_context(4).unwrap();
    let inbound = vec![("x-openai-key".to_string(), "sk-test".to_string())];
    match sc.on_http_request_headers(&inbound) {
        RequestHeadersAction::Rewritten { .. } => {}
        RequestHeadersAction::SendError { .. } => panic!("headers stage failed"),
    }
    let req = ChatCompletionsRequest {
        model: String::new(),
        messages: vec![Message {
            role: "user".to_string(),
            content: Some("hello".to_string()),
            model: None,
            tool_calls: None,
        }],
        tools: None,
        stream: true,
        stream_options: None,
    };
    match sc.on_http_request_body(10, true, Some(Ok(req))) {
        RequestBodyAction::DispatchEmbeddings { call } => {
            // the normalized body travels with the staged context; its
            // stream options are checked downstream on the forwarded body
            let _ = call;
        }
        _ => panic!("expected the embeddings dispatch"),
    }
    assert!(sc.streaming_response());
}

#[test]
fn forwarded_streaming_body_asserts_usage_reporting() {
    let mut sc = stream(true);
    assert_eq!(sc.commit_dispatch(50), CommitOutcome::Committed);
    match sc.embeddings_handler(50, Ok(vec![1_000_000, 0])) {
        EmbeddingsAction::DispatchZeroShot { .. } => {}
        _ => panic!("expected a zero-shot dispatch"),
    }
    assert_eq!(sc.commit_dispatch(51), CommitOutcome::Committed);
    let zs = prompt_gateway::common_types::ZeroShotClassificationResponse {
        predicted_class: "weather".to_string(),
        predicted_class_score: 100_000,
        scores: vec![("weather".to_string(), 100_000)],
        model: "m".to_string(),
    };
    match sc.zero_shot_intent_detection_resp_handler(51, Ok(zs)) {
        ZeroShotAction::ResumeWithBody { body } => {
            // inbound except the two normalizations: the provider's model,
            // and usage reporting forced on
            assert_eq!(body.model, "M");
            assert!(body.stream);
            assert_eq!(body.stream_options.map(|o| o.include_usage), Some(true));
            assert_eq!(body.messages.len(), 1);
            assert_eq!(body.messages[0].content, Some("hello".to_string()));
        }
        _ => panic!("expected a pass-through"),
    }
}

#[test]
fn sse_framing_yields_what_follows_the_marker() {
    assert_eq!(extract_stream_data(&b"data: {\"x\":1}".to_vec()), Some(b"{\"x\":1}".to_vec()));
    assert_eq!(
        extract_stream_data(&b"event: y\ndata: abc".to_vec()),
        Some(b"abc".to_vec())
    );
    assert_eq!(extract_stream_data(&b"no marker here".to_vec()), None);
    assert_eq!(extract_stream_data(&b"dat".to_vec()), None);
    assert!(is_none_sentinel(&b"[NONE]".to_vec()));
    assert!(!is_none_sentinel(&b"[DONE]".to_vec()));
}

#[test]
fn streaming_token_counter_sums_the_chunk_counts() {
    // two chunks of content "ab" and "cd", with tokenize(M, s) = len(s):
    // the counter ends at 4
    let mut sc = stream(true);
    assert_eq!(sc.response_tokens(), 0);
    assert_eq!(
        sc.response_body_disposition(false),
        ResponseBodyDisposition::ProcessStreamingChunk
    );
    match sc.on_streaming_chunk(true, Some(chunk(Some("ab"))), false, 2) {
        StreamChunkAction::Accounted => {}
        _ => panic!("expected the chunk to be accounted"),
    }
    match sc.on_streaming_chunk(true, Some(chunk(Some("cd"))), false, 2) {
        StreamChunkAction::Accounted => {}
        _ => panic!("expected the chunk to be accounted"),
    }
    assert_eq!(sc.response_tokens(), 4);

    // the sentinel and contentless chunks leave the counter alone
    match sc.on_streaming_chunk(true, None, true, 0) {
        StreamChunkAction::Ignored => {}
        _ => panic!("the sentinel is tolerated"),
    }
    match sc.on_streaming_chunk(true, Some(chunk(None)), false, 0) {
        StreamChunkAction::Ignored => {}
        _ => panic!("no content, nothing to count"),
    }
    assert_eq!(sc.response_tokens(), 4);

    // a frame with no marker, or an unparsable non-sentinel payload, is a 500
    match sc.on_streaming_chunk(false, None, false, 0) {
        StreamChunkAction::SendError { status, message } => {
            assert_eq!(status, 500);
            assert_eq!(message, "parsing error in streaming data");
        }
        _ => panic!("expected a 500"),
    }
    match sc.on_streaming_chunk(true, None, false, 0) {
        StreamChunkAction::SendError { status, .. } => assert_eq!(status, 500),
        _ => panic!("expected a 500"),
    }
    assert_eq!(sc.response_tokens(), 4);
}

#[test]
fn non_streaming_response_accounts_the_reported_usage() {
    let mut sc = stream(false);
    assert_eq!(sc.response_body_disposition(false), ResponseBodyDisposition::Pause);
    assert_eq!(
        sc.response_body_disposition(true),
        ResponseBodyDisposition::ProcessFullBody
    );
    let resp = ChatCompletionsResponse {
        usage: Usage { completion_tokens: 17 },
        choices: vec![],
        model: "M".to_string(),
    };
    match sc.on_response_body_full(Some(resp)) {
        FullBodyAction::Accounted => {}
        _ => panic!("expected the usage to be accounted"),
    }
    assert_eq!(sc.response_tokens(), 17);
    match sc.on_response_body_full(None) {
        FullBodyAction::SendError { status, .. } => assert_eq!(status, 500),
        _ => panic!("expected a 500"),
    }
}

#[test]
fn pass_through_responses_are_left_alone() {
    // before any chat-completion body was decoded, responses stream through
    let mut fc = FilterContext::new();
    fc.on_configure(config()).unwrap();
    fc.process_prompt_targets();
    assert!(fc.register_startup_callout(1, 0));
    fc.embedding_response_handler(1, Ok(vec![0, 1_000_000])).unwrap();
    let sc = fc.create_http_context(4).unwrap();
    assert_eq!(sc.response_body_disposition(false), ResponseBodyDisposition::PassThrough);
    assert_eq!(sc.response_body_disposition(true), ResponseBodyDisposition::PassThrough);
}
