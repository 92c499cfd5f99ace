use prompt_gateway::common_types::IntOrString;
use prompt_gateway::configuration::GuardOptions;
use prompt_gateway::configuration::GuardType;
use prompt_gateway::configuration::Listener;
use prompt_gateway::configuration::MessageFormat;
use prompt_gateway::configuration::OnExceptionDetails;
use prompt_gateway::configuration::Parameter;
use prompt_gateway::configuration::PromptGuards;
use prompt_gateway::configuration::PromptTarget;
use prompt_gateway::decimal::i32_to_string;
use prompt_gateway::decimal::u64_to_string;
use prompt_gateway::open_ai::ParameterType;
use prompt_gateway::score::cosine_similarity_micros;
use prompt_gateway::score::intent_match;
use prompt_gateway::stream_context::build_chat_completion_tools;
use prompt_gateway::stream_context::build_query_string;
use prompt_gateway::token_map::TokenMap;

#[test]
fn cosine_similarity_exact_values() {
    // identical unit vectors: one unit
    assert_eq!(cosine_similarity_micros(&vec![1_000_000, 0], &vec![1_000_000, 0]), 1_000_000);
    // orthogonal: zero
    assert_eq!(cosine_similarity_micros(&vec![1_000_000, 0], &vec![0, 1_000_000]), 0);
    // opposite: minus one unit
    assert_eq!(
        cosine_similarity_micros(&vec![1_000_000, 0], &vec![-1_000_000, 0]),
        -1_000_000
    );
    // a 3-4-5 unit vector against itself: still one unit
    assert_eq!(
        cosine_similarity_micros(&vec![600_000, 800_000], &vec![600_000, 800_000]),
        1_000_000
    );
    // a zero side yields zero
    assert_eq!(cosine_similarity_micros(&vec![1_000_000], &vec![0]), 0);
    assert_eq!(cosine_similarity_micros(&vec![], &vec![1_000_000]), 0);
    // 45 degrees: about 0.707, rounded down by the integer division
    let s = cosine_similarity_micros(&vec![1_000_000, 0], &vec![1_000_000, 1_000_000]);
    assert!(700_000 <= s && s <= 710_000);
}

#[test]
fn fusion_decision_is_the_exact_integer_form() {
    // 0.7 * 0.2 + 0.3 * 0.0 = 0.14 < 0.5
    assert!(!intent_match(200_000, 0, 500_000));
    // 0.7 * 0.9 + 0.3 * 0.8 = 0.87 >= 0.5
    assert!(intent_match(900_000, 800_000, 500_000));
    // exactly at the threshold counts as a match
    assert!(intent_match(500_000, 500_000, 500_000));
    // one millionth below does not
    assert!(!intent_match(500_000, 499_999, 500_000));
    // a negative similarity can pull the score below the line
    assert!(!intent_match(700_000, -1_000_000, 500_000));
}

#[test]
fn decimal_rendering() {
    assert_eq!(u64_to_string(0), "0");
    assert_eq!(u64_to_string(503), "503");
    assert_eq!(u64_to_string(1_000_000), "1000000");
    assert_eq!(i32_to_string(0), "0");
    assert_eq!(i32_to_string(42), "42");
    assert_eq!(i32_to_string(-42), "-42");
    assert_eq!(i32_to_string(i32::MIN), "-2147483648");
}

#[test]
fn query_strings_join_pairs_with_ampersands() {
    let args: Vec<(String, IntOrString)> = vec![
        ("city".to_string(), IntOrString::Text("Paris".to_string())),
        ("days".to_string(), IntOrString::Integer(3)),
    ];
    assert_eq!(build_query_string(&args), "city=Paris&days=3");
    let empty: Vec<(String, IntOrString)> = vec![];
    assert_eq!(build_query_string(&empty), "");
    let one: Vec<(String, IntOrString)> = vec![("n".to_string(), IntOrString::Integer(-7))];
    assert_eq!(build_query_string(&one), "n=-7");
}

#[test]
fn tools_advertise_every_target_with_typed_parameters() {
    let targets = vec![PromptTarget {
        name: "weather".to_string(),
        default: None,
        description: "weather lookup".to_string(),
        endpoint: None,
        parameters: Some(vec![Parameter {
            name: "city".to_string(),
            parameter_type: Some("str".to_string()),
            description: "the city".to_string(),
            required: Some(true),
            enum_values: None,
            default: None,
        }, Parameter {
            name: "days".to_string(),
            parameter_type: Some("int".to_string()),
            description: "how many days ahead".to_string(),
            required: None,
            enum_values: None,
            default: Some("1".to_string()),
        }]),
        system_prompt: None,
        auto_llm_dispatch_on_response: None,
    }];
    let tools = build_chat_completion_tools(&targets);
    assert_eq!(tools.len(), 1);
    let f = &tools[0].function;
    assert_eq!(f.name, "weather");
    assert_eq!(f.description, "weather lookup");
    assert_eq!(f.parameters.properties.len(), 2);
    assert_eq!(f.parameters.properties[0].0, "city");
    assert_eq!(f.parameters.properties[0].1.parameter_type, ParameterType::Str);
    assert_eq!(f.parameters.properties[1].0, "days");
    assert_eq!(f.parameters.properties[1].1.parameter_type, ParameterType::Int);
    assert_eq!(f.parameters.properties[1].1.default, Some("1".to_string()));
}

#[test]
fn parameter_types_fall_back_to_str() {
    assert_eq!(ParameterType::from_name(&"bool".to_string()), ParameterType::Bool);
    assert_eq!(ParameterType::from_name(&"int".to_string()), ParameterType::Int);
    assert_eq!(ParameterType::from_name(&"float".to_string()), ParameterType::Float);
    assert_eq!(ParameterType::from_name(&"list".to_string()), ParameterType::List);
    assert_eq!(ParameterType::from_name(&"dict".to_string()), ParameterType::Dict);
    assert_eq!(ParameterType::from_name(&"whatever".to_string()), ParameterType::Str);
}

#[test]
fn token_map_holds_each_token_once() {
    let mut m: TokenMap<u8> = TokenMap::new();
    assert!(m.insert(5, 10));
    assert!(!m.insert(5, 11));
    assert!(m.insert(6, 12));
    assert_eq!(m.len(), 2);
    assert!(m.contains(5));
    assert_eq!(m.remove(5), Some(10));
    assert_eq!(m.remove(5), None);
    assert!(!m.contains(5));
    assert_eq!(m.remove(6), Some(12));
    assert_eq!(m.len(), 0);
}

#[test]
fn jailbreak_message_lookup() {
    let guards = PromptGuards {
        input_guards: vec![(
            GuardType::Jailbreak,
            GuardOptions {
                on_exception: Some(OnExceptionDetails {
                    forward_to_error_target: None,
                    error_handler: None,
                    message: Some("custom words".to_string()),
                }),
            },
        )],
    };
    assert!(guards.has_jailbreak_guard());
    assert_eq!(guards.jailbreak_on_exception_message(), Some("custom words"));

    let bare = PromptGuards {
        input_guards: vec![(GuardType::Jailbreak, GuardOptions { on_exception: None })],
    };
    assert!(bare.has_jailbreak_guard());
    assert_eq!(bare.jailbreak_on_exception_message(), None);

    let none = PromptGuards { input_guards: vec![] };
    assert!(!none.has_jailbreak_guard());
    assert_eq!(none.jailbreak_on_exception_message(), None);
}

#[test]
fn listener_default_is_empty() {
    let l = Listener::default();
    assert_eq!(l.address, "");
    assert_eq!(l.port, 0);
    assert_eq!(l.message_format, MessageFormat::Huggingface);
}
