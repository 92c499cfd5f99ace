//! OpenAI-style chat-completion request and response records, including the
//! tool-calling schema handed to the function resolver.

use crate::common_types::IntOrString;
use vstd::prelude::*;
use vstd::string::StringExecFns;

verus! {

#[derive(Clone, Debug)]
pub struct StreamOptions {
    pub include_usage: bool,
}

/// One turn of the conversation. `model` names the service that authored an
/// assistant turn, where the backend reports it.
#[derive(Clone, Debug)]
pub struct Message {
    pub role: String,
    pub content: Option<String>,
    pub model: Option<String>,
    pub tool_calls: Option<Vec<ToolCall>>,
}

/// One tool invocation chosen by the function resolver.
#[derive(Clone, Debug)]
pub struct ToolCall {
    pub function: FunctionCallDetail,
}

/// The function name and arguments of one tool invocation. Arguments keep
/// the order in which the resolver sent them.
#[derive(Clone, Debug)]
pub struct FunctionCallDetail {
    pub name: String,
    pub arguments: Vec<(String, IntOrString)>,
}

#[derive(Clone, Debug, PartialEq, Eq, Structural)]
pub enum ToolType {
    Function,
}

#[derive(Clone, Debug, PartialEq, Eq, Structural)]
pub enum ParameterType {
    Bool,
    Int,
    Float,
    Str,
    List,
    Dict,
}

impl ParameterType {
    /// The parameter type named by a configured type string; unknown names
    /// fall back to `Str`, as does an absent type.
    pub fn from_name(name: &String) -> (r: ParameterType)
        ensures
            r == ParameterType::spec_from_name(name@),
    {
        if *name == String::from_str("bool") {
            ParameterType::Bool
        } else if *name == String::from_str("int") {
            ParameterType::Int
        } else if *name == String::from_str("float") {
            ParameterType::Float
        } else if *name == String::from_str("list") {
            ParameterType::List
        } else if *name == String::from_str("dict") {
            ParameterType::Dict
        } else {
            ParameterType::Str
        }
    }

    pub open spec fn spec_from_name(name: Seq<char>) -> ParameterType {
        if name == "bool"@ {
            ParameterType::Bool
        } else if name == "int"@ {
            ParameterType::Int
        } else if name == "float"@ {
            ParameterType::Float
        } else if name == "list"@ {
            ParameterType::List
        } else if name == "dict"@ {
            ParameterType::Dict
        } else {
            ParameterType::Str
        }
    }
}

/// One advertised tool parameter, as sent to the function resolver.
#[derive(Clone, Debug)]
pub struct FunctionParameter {
    pub parameter_type: ParameterType,
    pub description: String,
    pub required: Option<bool>,
    pub enum_values: Option<Vec<String>>,
    pub default: Option<String>,
}

/// The named parameters of one advertised tool.
#[derive(Clone, Debug)]
pub struct FunctionParameters {
    pub properties: Vec<(String, FunctionParameter)>,
}

/// One advertised tool: name, description and typed parameters.
#[derive(Clone, Debug)]
pub struct FunctionDefinition {
    pub name: String,
    pub description: String,
    pub parameters: FunctionParameters,
}

#[derive(Clone, Debug)]
pub struct ChatCompletionTool {
    pub tool_type: ToolType,
    pub function: FunctionDefinition,
}

/// The mathematical content of a tool argument value.
pub ghost enum IntOrStringView {
    Integer(int),
    Text(Seq<char>),
}

/// The mathematical content of one tool invocation.
pub ghost struct ToolCallView {
    pub name: Seq<char>,
    pub arguments: Seq<(Seq<char>, IntOrStringView)>,
}

/// The mathematical content of one conversation turn.
pub ghost struct MessageView {
    pub role: Seq<char>,
    pub content: Option<Seq<char>>,
    pub model: Option<Seq<char>>,
    pub tool_calls: Option<Seq<ToolCallView>>,
}

pub open spec fn int_or_string_view(v: IntOrString) -> IntOrStringView {
    match v {
        IntOrString::Integer(i) => IntOrStringView::Integer(i as int),
        IntOrString::Text(s) => IntOrStringView::Text(s@),
    }
}

pub open spec fn tool_call_view(t: ToolCall) -> ToolCallView {
    ToolCallView {
        name: t.function.name@,
        arguments: t.function.arguments@.map(
            |i: int, p: (String, IntOrString)| (p.0@, int_or_string_view(p.1)),
        ),
    }
}

pub open spec fn opt_string_view(v: Option<String>) -> Option<Seq<char>> {
    match v {
        Some(s) => Some(s@),
        None => None,
    }
}

pub open spec fn message_view(m: Message) -> MessageView {
    MessageView {
        role: m.role@,
        content: opt_string_view(m.content),
        model: opt_string_view(m.model),
        tool_calls: match m.tool_calls {
            Some(tc) => Some(tc@.map(|i: int, t: ToolCall| tool_call_view(t))),
            None => None,
        },
    }
}

/// The mathematical content of a conversation.
pub open spec fn messages_view(v: Seq<Message>) -> Seq<MessageView> {
    v.map(|i: int, m: Message| message_view(m))
}

fn clone_opt_string(v: &Option<String>) -> (r: Option<String>)
    ensures
        opt_string_view(r) == opt_string_view(*v),
{
    match v {
        Some(s) => Some(s.clone()),
        None => None,
    }
}

fn clone_int_or_string(v: &IntOrString) -> (r: IntOrString)
    ensures
        int_or_string_view(r) == int_or_string_view(*v),
{
    match v {
        IntOrString::Integer(i) => IntOrString::Integer(*i),
        IntOrString::Text(s) => IntOrString::Text(s.clone()),
    }
}

/// A copy of an ordered argument list with the same mathematical content.
pub fn clone_arguments(v: &Vec<(String, IntOrString)>) -> (r: Vec<(String, IntOrString)>)
    ensures
        r@.len() == v@.len(),
        forall|j: int|
            0 <= j < v@.len() ==> (#[trigger] r@[j]).0@ == v@[j].0@ && int_or_string_view(
                r@[j].1,
            ) == int_or_string_view(v@[j].1),
{
    let mut out: Vec<(String, IntOrString)> = Vec::new();
    let mut i: usize = 0;
    while i < v.len()
        invariant
            0 <= i <= v@.len(),
            out@.len() == i,
            forall|j: int|
                0 <= j < i ==> (#[trigger] out@[j]).0@ == v@[j].0@ && int_or_string_view(
                    out@[j].1,
                ) == int_or_string_view(v@[j].1),
        decreases v@.len() - i,
    {
        let pair = (v[i].0.clone(), clone_int_or_string(&v[i].1));
        out.push(pair);
        i = i + 1;
    }
    out
}

fn clone_tool_call(t: &ToolCall) -> (r: ToolCall)
    ensures
        tool_call_view(r) == tool_call_view(*t),
{
    let arguments = clone_arguments(&t.function.arguments);
    let r = ToolCall {
        function: FunctionCallDetail { name: t.function.name.clone(), arguments },
    };
    proof {
        assert(tool_call_view(r).arguments =~= tool_call_view(*t).arguments);
    }
    r
}

/// A copy of a message with the same mathematical content.
pub fn clone_message(m: &Message) -> (r: Message)
    ensures
        message_view(r) == message_view(*m),
{
    let tool_calls: Option<Vec<ToolCall>> = match &m.tool_calls {
        Some(tc) => {
            let mut out: Vec<ToolCall> = Vec::new();
            let n = tc.len();
            let mut i: usize = 0;
            while i < n
                invariant
                    0 <= i <= n,
                    n == tc@.len(),
                    out@.len() == i,
                    forall|j: int|
                        0 <= j < i ==> tool_call_view(#[trigger] out@[j]) == tool_call_view(
                            tc@[j],
                        ),
                decreases n - i,
            {
                let c = clone_tool_call(&tc[i]);
                out.push(c);
                i = i + 1;
            }
            Some(out)
        },
        None => None,
    };
    let r = Message {
        role: m.role.clone(),
        content: clone_opt_string(&m.content),
        model: clone_opt_string(&m.model),
        tool_calls,
    };
    proof {
        match (&r.tool_calls, &m.tool_calls) {
            (Some(a), Some(b)) => {
                assert(a@.map(|i: int, t: ToolCall| tool_call_view(t)) =~= b@.map(
                    |i: int, t: ToolCall| tool_call_view(t),
                ));
            },
            _ => {},
        }
    }
    r
}

/// A copy of a conversation with the same mathematical content.
pub fn clone_messages(v: &Vec<Message>) -> (r: Vec<Message>)
    ensures
        messages_view(r@) == messages_view(v@),
{
    let mut out: Vec<Message> = Vec::new();
    let n = v.len();
    let mut i: usize = 0;
    while i < n
        invariant
            0 <= i <= n,
            n == v@.len(),
            out@.len() == i,
            forall|j: int|
                0 <= j < i ==> message_view(#[trigger] out@[j]) == message_view(v@[j]),
        decreases n - i,
    {
        let m = clone_message(&v[i]);
        out.push(m);
        i = i + 1;
    }
    proof {
        assert(messages_view(out@) =~= messages_view(v@));
    }
    out
}

/// An OpenAI-style chat-completion request, as intercepted and as forwarded.
#[derive(Clone, Debug)]
pub struct ChatCompletionsRequest {
    pub model: String,
    pub messages: Vec<Message>,
    pub tools: Option<Vec<ChatCompletionTool>>,
    pub stream: bool,
    pub stream_options: Option<StreamOptions>,
}

#[derive(Clone, Debug)]
pub struct Choice {
    pub finish_reason: String,
    pub index: usize,
    pub message: Message,
}

#[derive(Clone, Debug)]
pub struct Usage {
    pub completion_tokens: usize,
}

/// A non-streaming chat-completion response.
#[derive(Clone, Debug)]
pub struct ChatCompletionsResponse {
    pub usage: Usage,
    pub choices: Vec<Choice>,
    pub model: String,
}

#[derive(Clone, Debug)]
pub struct Delta {
    pub content: Option<String>,
}

#[derive(Clone, Debug)]
pub struct ChunkChoice {
    pub delta: Delta,
    pub finish_reason: Option<String>,
}

/// One server-sent-events chunk of a streaming chat-completion response.
#[derive(Clone, Debug)]
pub struct ChatCompletionChunkResponse {
    pub model: String,
    pub choices: Vec<ChunkChoice>,
}

} // verus!
