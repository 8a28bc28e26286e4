//! Tool-call and tool-result boundary types.

use crate::ids::{ArtifactId, ToolCallId, ToolName};
use crate::json::{JsonValue, JsonView};
use crate::policy::EffectClass;
use vstd::prelude::*;

verus! {

/// A model-authored tool proposal before host validation.
#[derive(Debug, PartialEq)]
pub struct ToolProposal {
    /// Registered tool name requested by the model.
    pub tool: ToolName,
    /// JSON input to validate against the registered schema.
    pub input: JsonValue,
}

/// A host-validated tool invocation evaluated by policy.
#[derive(Debug, PartialEq)]
pub struct ToolCall {
    /// Stable call id assigned by the harness.
    pub id: ToolCallId,
    /// Registered tool name.
    pub tool: ToolName,
    /// Host/registry-declared effect class.
    pub effect: EffectClass,
    /// JSON input validated against the registered tool schema.
    pub input: JsonValue,
}

/// Controls which audience sees a tool result.
#[derive(Clone, Copy, Debug, PartialEq, Eq, Structural)]
pub enum ResultVisibility {
    /// Only model receives it.
    Model,
    /// Only user-facing transcript receives it.
    User,
    /// Model and user-facing transcript both receive it.
    Both,
}

/// Structured tool result; raw output should be kept as an artifact when large.
#[derive(Debug, PartialEq)]
pub struct ToolResult {
    /// Tool call this result answers.
    pub call_id: ToolCallId,
    /// Short model-usable summary.
    pub summary: String,
    /// Structured data result.
    pub data: JsonValue,
    /// Artifacts created or referenced by this result.
    pub artifacts: Vec<ArtifactId>,
    /// Visibility boundary for this result.
    pub visibility: ResultVisibility,
}

/// Spec view of a [`ToolProposal`].
pub struct ProposalView {
    pub tool: Seq<char>,
    pub input: JsonView,
}

/// Spec view of a [`ToolCall`].
pub struct CallView {
    pub id: Seq<char>,
    pub tool: Seq<char>,
    pub effect: EffectClass,
    pub input: JsonView,
}

/// Spec view of a [`ToolResult`].
pub struct ResultView {
    pub call_id: Seq<char>,
    pub summary: Seq<char>,
    pub data: JsonView,
    pub artifacts: Seq<Seq<char>>,
    pub visibility: ResultVisibility,
}

impl View for ToolProposal {
    type V = ProposalView;

    open spec fn view(&self) -> ProposalView {
        ProposalView { tool: self.tool@, input: self.input@ }
    }
}

impl View for ToolCall {
    type V = CallView;

    open spec fn view(&self) -> CallView {
        CallView { id: self.id@, tool: self.tool@, effect: self.effect, input: self.input@ }
    }
}

impl View for ToolResult {
    type V = ResultView;

    open spec fn view(&self) -> ResultView {
        ResultView {
            call_id: self.call_id@,
            summary: self.summary@,
            data: self.data@,
            artifacts: self.artifacts@.map_values(|a: ArtifactId| a@),
            visibility: self.visibility,
        }
    }
}

impl Clone for ToolProposal {
    fn clone(&self) -> (r: Self)
        ensures
            r@ == self@,
    {
        ToolProposal { tool: self.tool.clone(), input: self.input.clone() }
    }
}

impl Clone for ToolCall {
    fn clone(&self) -> (r: Self)
        ensures
            r@ == self@,
    {
        ToolCall {
            id: self.id.clone(),
            tool: self.tool.clone(),
            effect: self.effect,
            input: self.input.clone(),
        }
    }
}

impl Clone for ToolResult {
    fn clone(&self) -> (r: Self)
        ensures
            r@ == self@,
    {
        let artifacts = self.artifacts.clone();
        proof {
            assert(artifacts@ =~= self.artifacts@);
        }
        ToolResult {
            call_id: self.call_id.clone(),
            summary: self.summary.clone(),
            data: self.data.clone(),
            artifacts,
            visibility: self.visibility,
        }
    }
}

} // verus!
