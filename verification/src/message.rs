//! Model-facing message primitives.

use vstd::prelude::*;

verus! {

/// Role for a message visible to a model adapter.
#[derive(Clone, Copy, Debug, PartialEq, Eq, Structural)]
pub enum MessageRole {
    /// Stable operating contract and runtime rules.
    System,
    /// Human or upstream caller input.
    User,
    /// Model-authored message.
    Assistant,
    /// Tool result observation.
    Tool,
}

/// Message passed through the model boundary.
#[derive(Debug, PartialEq, Eq)]
pub struct Message {
    /// Message role.
    pub role: MessageRole,
    /// Plain text content. Richer content blocks belong above this core layer.
    pub content: String,
}

/// Spec view of a [`Message`].
pub struct MessageView {
    pub role: MessageRole,
    pub content: Seq<char>,
}

impl View for Message {
    type V = MessageView;

    open spec fn view(&self) -> MessageView {
        MessageView { role: self.role, content: self.content@ }
    }
}

impl Clone for Message {
    fn clone(&self) -> (r: Self)
        ensures
            r == *self,
    {
        Message { role: self.role, content: self.content.clone() }
    }
}

} // verus!
