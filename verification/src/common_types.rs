//! Records exchanged with the model server and the function resolver:
//! embedding requests, zero-shot classification, prompt-guard checks and the
//! tool-calling schema. Scores are fixed-point integers in millionths.

use crate::configuration::PromptTarget;
use vstd::prelude::*;

verus! {

/// The kind of text a catalog embedding was computed from.
#[derive(Clone, Copy, Debug, PartialEq, Eq, Structural)]
pub enum EmbeddingType {
    Name,
    Description,
}

/// A request to embed one prompt target, as carried through the startup
/// pipeline.
#[derive(Clone, Debug)]
pub struct EmbeddingRequest {
    pub prompt_target: PromptTarget,
}

/// The body of an embedding call: one input text and the model to use.
#[derive(Clone, Debug)]
pub struct CreateEmbeddingRequest {
    pub input: String,
    pub model: String,
}

/// A tool argument value: either an integer or a text.
#[derive(Clone, Debug)]
pub enum IntOrString {
    Integer(i32),
    Text(String),
}

/// One tool parameter, in the resolver's wire schema.
#[derive(Clone, Debug)]
pub struct ToolParameter {
    pub parameter_type: Option<String>,
    pub description: String,
    pub required: Option<bool>,
    pub enum_values: Option<Vec<String>>,
    pub default: Option<String>,
}

/// The named parameters of one tool, in the resolver's wire schema.
#[derive(Clone, Debug)]
pub struct ToolParameters {
    pub parameters_type: String,
    pub properties: Vec<(String, ToolParameter)>,
}

/// One tool, in the resolver's wire schema.
#[derive(Clone, Debug)]
pub struct ToolsDefinition {
    pub name: String,
    pub description: String,
    pub parameters: ToolParameters,
}

/// One resolved tool invocation: function name and ordered arguments.
#[derive(Clone, Debug)]
pub struct ToolCallDetail {
    pub name: String,
    pub arguments: Vec<(String, IntOrString)>,
}

/// A batch of resolved tool invocations.
#[derive(Clone, Debug)]
pub struct BoltFCToolsCall {
    pub tool_calls: Vec<ToolCallDetail>,
}

/// The body of a zero-shot classification call: the user turn and the
/// candidate labels (the prompt-target names).
#[derive(Clone, Debug)]
pub struct ZeroShotClassificationRequest {
    pub input: String,
    pub labels: Vec<String>,
    pub model: String,
}

/// A zero-shot classification reply. Scores count millionths of a unit.
#[derive(Clone, Debug)]
pub struct ZeroShotClassificationResponse {
    pub predicted_class: String,
    pub predicted_class_score: i64,
    pub scores: Vec<(String, i64)>,
    pub model: String,
}

#[derive(Clone, Debug, PartialEq, Eq, Structural)]
pub enum PromptGuardTask {
    Jailbreak,
}

/// The body of a prompt-guard call.
#[derive(Clone, Debug)]
pub struct PromptGuardRequest {
    pub input: String,
    pub task: PromptGuardTask,
}

/// A prompt-guard reply.
#[derive(Clone, Debug)]
pub struct PromptGuardResponse {
    pub jailbreak_verdict: Option<bool>,
}

} // verus!
