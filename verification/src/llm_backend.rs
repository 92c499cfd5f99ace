//! The minimal chat-completion shape used by the plain routing path, which
//! only rewrites the model name.

use vstd::prelude::*;

verus! {

#[derive(Clone, Debug)]
pub struct Message {
    pub role: String,
    pub content: String,
}

/// A chat-completion body reduced to what the routing path reads.
#[derive(Clone, Debug)]
pub struct ChatCompletions {
    pub model: String,
    pub messages: Vec<Message>,
}

impl ChatCompletions {
    /// Pins the body to the routed model; the conversation is untouched.
    pub fn set_model(&mut self, model: String)
        ensures
            final(self).model == model,
            final(self).messages == old(self).messages,
    {
        self.model = model;
    }
}

} // verus!
