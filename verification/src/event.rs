//! Durable harness event ledger types.

use crate::context::{ContextPack, PackView};
use crate::ids::{ActorId, AgentId, ModelName, RunId, ToolCallId, TurnId};
use crate::message::{Message, MessageView};
use crate::policy::{PolicyDecision, PolicyView};
use crate::tool::{CallView, ProposalView, ResultView, ToolCall, ToolProposal, ToolResult};
use vstd::prelude::*;

verus! {

/// Token usage reported by a model provider.
#[derive(Clone, Copy, Debug, PartialEq, Eq, Structural)]
pub struct ModelUsage {
    /// Prompt-side tokens used by the request.
    pub input_tokens: u32,
    /// Completion-side tokens emitted by the model.
    pub output_tokens: u32,
}

/// One durable event with host-supplied ordering metadata.
#[derive(Debug, PartialEq)]
pub struct RecordedEvent {
    /// Per-run sequence number, contiguous from zero.
    pub seq: u64,
    /// Host-supplied wall-clock timestamp in milliseconds since Unix epoch.
    pub occurred_at_ms: u64,
    /// Recorded run fact.
    pub event: HarnessEvent,
}

/// Durable event log entries. Transcript, metrics, replay, and audit views are derived from this log.
#[derive(Debug, PartialEq)]
pub enum HarnessEvent {
    /// Binds a fresh state machine to one run and agent.
    RunStarted {
        /// Durable run identifier shared by every later event.
        run_id: RunId,
        /// Agent identity selected by the host for this run.
        agent_id: AgentId,
    },
    /// Records the exact bounded context selected for a model turn.
    ContextBuilt {
        /// Run receiving the context.
        run_id: RunId,
        /// New turn identifier; accepted turn identifiers cannot be reused.
        turn_id: TurnId,
        /// Lane-labeled context that must pass budget validation.
        context: ContextPack,
    },
    /// Records prior turns omitted from the next model context.
    ContextCompacted {
        /// Run receiving the compacted context.
        run_id: RunId,
        /// Turn whose context will reflect the compaction.
        turn_id: TurnId,
        /// Estimated tokens before prior turns were dropped.
        estimated_tokens_before: u32,
        /// Estimated tokens after prior turns were dropped.
        estimated_tokens_after: u32,
        /// Zero-based first dropped prior-turn position.
        dropped_turn_start: u64,
        /// Exclusive end of the dropped prior-turn range.
        dropped_turn_end_exclusive: u64,
    },
    /// Records that a model request crossed the provider boundary.
    ModelRequested {
        /// Run making the request.
        run_id: RunId,
        /// Turn whose context is being submitted.
        turn_id: TurnId,
        /// Monotonic model step expected by the run state.
        step: u32,
        /// Host-selected model used for the request.
        model: ModelName,
    },
    /// Records that the pending model request returned no response.
    ModelFailed {
        /// Run that made the request.
        run_id: RunId,
        /// Turn of the pending model request.
        turn_id: TurnId,
        /// Model step of the pending request.
        step: u32,
        /// Durable host-reported failure reason.
        reason: String,
    },
    /// Records the normalized result returned by the pending model request.
    ModelResponded {
        /// Run receiving the response.
        run_id: RunId,
        /// Turn of the pending model request.
        turn_id: TurnId,
        /// Model step of the pending request.
        step: u32,
        /// Normalized model-authored message.
        output: Message,
        /// Unvalidated model proposals; an empty list concludes the turn.
        proposed_calls: Vec<ToolProposal>,
        /// Provider-reported model identity, when the provider reports one.
        served_model: Option<ModelName>,
        /// Provider-reported token usage, when known.
        usage: Option<ModelUsage>,
    },
    /// Records that the host rejected the whole pending proposal batch.
    ToolProposalsRejected {
        /// Run containing the proposals.
        run_id: RunId,
        /// Turn whose proposals were rejected.
        turn_id: TurnId,
        /// Durable, non-blank rejection reason.
        reason: String,
    },
    /// Records a model proposal after host validation and effect classification.
    ToolCallProposed {
        /// Run containing the proposal.
        run_id: RunId,
        /// Turn that produced the proposal.
        turn_id: TurnId,
        /// Host-validated call; its tool and input must match a pending proposal.
        call: ToolCall,
    },
    /// Records the policy decision for the pending validated call.
    PolicyEvaluated {
        /// Run containing the call.
        run_id: RunId,
        /// Pending call evaluated by policy.
        call_id: ToolCallId,
        /// Durable allow, approval, or denial decision.
        decision: PolicyDecision,
    },
    /// Records who granted a pending approval.
    ApprovalGranted {
        /// Run containing the call.
        run_id: RunId,
        /// Pending call approved for execution.
        call_id: ToolCallId,
        /// Human or host actor that granted approval.
        actor_id: ActorId,
    },
    /// Records who denied a pending approval and why.
    ApprovalDenied {
        /// Run containing the call.
        run_id: RunId,
        /// Pending call denied before execution.
        call_id: ToolCallId,
        /// Human or host actor that denied approval.
        actor_id: ActorId,
        /// Durable denial reason for audit and continuation context.
        reason: String,
    },
    /// Records that the host began executing the approved call.
    ToolStarted {
        /// Run containing the call.
        run_id: RunId,
        /// Approved call that crossed the execution boundary.
        call_id: ToolCallId,
    },
    /// Records the structured result returned by the running call.
    ToolFinished {
        /// Run containing the call.
        run_id: RunId,
        /// Result whose call id must match the running call.
        result: ToolResult,
    },
    /// Records that the running call failed without a result.
    ToolFailed {
        /// Run containing the call.
        run_id: RunId,
        /// Running call that failed.
        call_id: ToolCallId,
        /// Durable host-reported failure reason.
        reason: String,
    },
    /// Terminates a concluded turn as a successful run.
    RunFinished {
        /// Run that completed.
        run_id: RunId,
    },
    /// Terminates any started, nonterminal run as failed.
    RunFailed {
        /// Run that failed.
        run_id: RunId,
        /// Durable terminal failure reason.
        reason: String,
    },
}

/// Spec view of a [`HarnessEvent`]: identifiers and texts are viewed as characters.
#[allow(inconsistent_fields)]
pub enum EventView {
    RunStarted { run_id: Seq<char>, agent_id: Seq<char> },
    ContextBuilt { run_id: Seq<char>, turn_id: Seq<char>, context: PackView },
    ContextCompacted {
        run_id: Seq<char>,
        turn_id: Seq<char>,
        estimated_tokens_before: u32,
        estimated_tokens_after: u32,
        dropped_turn_start: u64,
        dropped_turn_end_exclusive: u64,
    },
    ModelRequested { run_id: Seq<char>, turn_id: Seq<char>, step: u32, model: Seq<char> },
    ModelFailed { run_id: Seq<char>, turn_id: Seq<char>, step: u32, reason: Seq<char> },
    ModelResponded {
        run_id: Seq<char>,
        turn_id: Seq<char>,
        step: u32,
        output: MessageView,
        proposed_calls: Seq<ProposalView>,
        served_model: Option<Seq<char>>,
        usage: Option<ModelUsage>,
    },
    ToolProposalsRejected { run_id: Seq<char>, turn_id: Seq<char>, reason: Seq<char> },
    ToolCallProposed { run_id: Seq<char>, turn_id: Seq<char>, call: CallView },
    PolicyEvaluated { run_id: Seq<char>, call_id: Seq<char>, decision: PolicyView },
    ApprovalGranted { run_id: Seq<char>, call_id: Seq<char>, actor_id: Seq<char> },
    ApprovalDenied {
        run_id: Seq<char>,
        call_id: Seq<char>,
        actor_id: Seq<char>,
        reason: Seq<char>,
    },
    ToolStarted { run_id: Seq<char>, call_id: Seq<char> },
    ToolFinished { run_id: Seq<char>, result: ResultView },
    ToolFailed { run_id: Seq<char>, call_id: Seq<char>, reason: Seq<char> },
    RunFinished { run_id: Seq<char> },
    RunFailed { run_id: Seq<char>, reason: Seq<char> },
}

/// Spec view of a [`RecordedEvent`].
pub struct RecordedView {
    pub seq: u64,
    pub occurred_at_ms: u64,
    pub event: EventView,
}

/// Views an optional model name.
pub open spec fn model_name_view(m: Option<ModelName>) -> Option<Seq<char>> {
    match m {
        Some(name) => Some(name@),
        None => None,
    }
}

impl View for HarnessEvent {
    type V = EventView;

    open spec fn view(&self) -> EventView {
        match self {
            HarnessEvent::RunStarted { run_id, agent_id } => EventView::RunStarted {
                run_id: run_id@,
                agent_id: agent_id@,
            },
            HarnessEvent::ContextBuilt { run_id, turn_id, context } => EventView::ContextBuilt {
                run_id: run_id@,
                turn_id: turn_id@,
                context: context@,
            },
            HarnessEvent::ContextCompacted {
                run_id,
                turn_id,
                estimated_tokens_before,
                estimated_tokens_after,
                dropped_turn_start,
                dropped_turn_end_exclusive,
            } => EventView::ContextCompacted {
                run_id: run_id@,
                turn_id: turn_id@,
                estimated_tokens_before: *estimated_tokens_before,
                estimated_tokens_after: *estimated_tokens_after,
                dropped_turn_start: *dropped_turn_start,
                dropped_turn_end_exclusive: *dropped_turn_end_exclusive,
            },
            HarnessEvent::ModelRequested { run_id, turn_id, step, model } =>
                EventView::ModelRequested {
                    run_id: run_id@,
                    turn_id: turn_id@,
                    step: *step,
                    model: model@,
                },
            HarnessEvent::ModelFailed { run_id, turn_id, step, reason } =>
                EventView::ModelFailed {
                    run_id: run_id@,
                    turn_id: turn_id@,
                    step: *step,
                    reason: reason@,
                },
            HarnessEvent::ModelResponded {
                run_id,
                turn_id,
                step,
                output,
                proposed_calls,
                served_model,
                usage,
            } => EventView::ModelResponded {
                run_id: run_id@,
                turn_id: turn_id@,
                step: *step,
                output: output@,
                proposed_calls: proposed_calls@.map_values(|p: ToolProposal| p@),
                served_model: model_name_view(*served_model),
                usage: *usage,
            },
            HarnessEvent::ToolProposalsRejected { run_id, turn_id, reason } =>
                EventView::ToolProposalsRejected {
                    run_id: run_id@,
                    turn_id: turn_id@,
                    reason: reason@,
                },
            HarnessEvent::ToolCallProposed { run_id, turn_id, call } =>
                EventView::ToolCallProposed { run_id: run_id@, turn_id: turn_id@, call: call@ },
            HarnessEvent::PolicyEvaluated { run_id, call_id, decision } =>
                EventView::PolicyEvaluated {
                    run_id: run_id@,
                    call_id: call_id@,
                    decision: decision@,
                },
            HarnessEvent::ApprovalGranted { run_id, call_id, actor_id } =>
                EventView::ApprovalGranted {
                    run_id: run_id@,
                    call_id: call_id@,
                    actor_id: actor_id@,
                },
            HarnessEvent::ApprovalDenied { run_id, call_id, actor_id, reason } =>
                EventView::ApprovalDenied {
                    run_id: run_id@,
                    call_id: call_id@,
                    actor_id: actor_id@,
                    reason: reason@,
                },
            HarnessEvent::ToolStarted { run_id, call_id } => EventView::ToolStarted {
                run_id: run_id@,
                call_id: call_id@,
            },
            HarnessEvent::ToolFinished { run_id, result } => EventView::ToolFinished {
                run_id: run_id@,
                result: result@,
            },
            HarnessEvent::ToolFailed { run_id, call_id, reason } => EventView::ToolFailed {
                run_id: run_id@,
                call_id: call_id@,
                reason: reason@,
            },
            HarnessEvent::RunFinished { run_id } => EventView::RunFinished { run_id: run_id@ },
            HarnessEvent::RunFailed { run_id, reason } => EventView::RunFailed {
                run_id: run_id@,
                reason: reason@,
            },
        }
    }
}

impl View for RecordedEvent {
    type V = RecordedView;

    open spec fn view(&self) -> RecordedView {
        RecordedView { seq: self.seq, occurred_at_ms: self.occurred_at_ms, event: self.event@ }
    }
}

impl EventView {
    /// The run that owns the event.
    pub open spec fn run_id(self) -> Seq<char> {
        match self {
            EventView::RunStarted { run_id, .. } => run_id,
            EventView::ContextBuilt { run_id, .. } => run_id,
            EventView::ContextCompacted { run_id, .. } => run_id,
            EventView::ModelRequested { run_id, .. } => run_id,
            EventView::ModelFailed { run_id, .. } => run_id,
            EventView::ModelResponded { run_id, .. } => run_id,
            EventView::ToolProposalsRejected { run_id, .. } => run_id,
            EventView::ToolCallProposed { run_id, .. } => run_id,
            EventView::PolicyEvaluated { run_id, .. } => run_id,
            EventView::ApprovalGranted { run_id, .. } => run_id,
            EventView::ApprovalDenied { run_id, .. } => run_id,
            EventView::ToolStarted { run_id, .. } => run_id,
            EventView::ToolFinished { run_id, .. } => run_id,
            EventView::ToolFailed { run_id, .. } => run_id,
            EventView::RunFinished { run_id } => run_id,
            EventView::RunFailed { run_id, .. } => run_id,
        }
    }

    /// The stable snake-case event name used in transition diagnostics.
    pub open spec fn name(self) -> Seq<char> {
        match self {
            EventView::RunStarted { .. } => "run_started"@,
            EventView::ContextBuilt { .. } => "context_built"@,
            EventView::ContextCompacted { .. } => "context_compacted"@,
            EventView::ModelRequested { .. } => "model_requested"@,
            EventView::ModelFailed { .. } => "model_failed"@,
            EventView::ModelResponded { .. } => "model_responded"@,
            EventView::ToolProposalsRejected { .. } => "tool_proposals_rejected"@,
            EventView::ToolCallProposed { .. } => "tool_call_proposed"@,
            EventView::PolicyEvaluated { .. } => "policy_evaluated"@,
            EventView::ApprovalGranted { .. } => "approval_granted"@,
            EventView::ApprovalDenied { .. } => "approval_denied"@,
            EventView::ToolStarted { .. } => "tool_started"@,
            EventView::ToolFinished { .. } => "tool_finished"@,
            EventView::ToolFailed { .. } => "tool_failed"@,
            EventView::RunFinished { .. } => "run_finished"@,
            EventView::RunFailed { .. } => "run_failed"@,
        }
    }
}

impl HarnessEvent {
    /// Returns the owning run id without validating event order or phase.
    pub fn run_id(&self) -> (r: &RunId)
        ensures
            r@ == self@.run_id(),
    {
        match self {
            HarnessEvent::RunStarted { run_id, .. } => run_id,
            HarnessEvent::ContextBuilt { run_id, .. } => run_id,
            HarnessEvent::ContextCompacted { run_id, .. } => run_id,
            HarnessEvent::ModelRequested { run_id, .. } => run_id,
            HarnessEvent::ModelFailed { run_id, .. } => run_id,
            HarnessEvent::ModelResponded { run_id, .. } => run_id,
            HarnessEvent::ToolProposalsRejected { run_id, .. } => run_id,
            HarnessEvent::ToolCallProposed { run_id, .. } => run_id,
            HarnessEvent::PolicyEvaluated { run_id, .. } => run_id,
            HarnessEvent::ApprovalGranted { run_id, .. } => run_id,
            HarnessEvent::ApprovalDenied { run_id, .. } => run_id,
            HarnessEvent::ToolStarted { run_id, .. } => run_id,
            HarnessEvent::ToolFinished { run_id, .. } => run_id,
            HarnessEvent::ToolFailed { run_id, .. } => run_id,
            HarnessEvent::RunFinished { run_id } => run_id,
            HarnessEvent::RunFailed { run_id, .. } => run_id,
        }
    }

    /// Returns the stable snake-case event name used in transition diagnostics.
    pub fn name(&self) -> (r: &'static str)
        ensures
            r@ == self@.name(),
    {
        match self {
            HarnessEvent::RunStarted { .. } => "run_started",
            HarnessEvent::ContextBuilt { .. } => "context_built",
            HarnessEvent::ContextCompacted { .. } => "context_compacted",
            HarnessEvent::ModelRequested { .. } => "model_requested",
            HarnessEvent::ModelFailed { .. } => "model_failed",
            HarnessEvent::ModelResponded { .. } => "model_responded",
            HarnessEvent::ToolProposalsRejected { .. } => "tool_proposals_rejected",
            HarnessEvent::ToolCallProposed { .. } => "tool_call_proposed",
            HarnessEvent::PolicyEvaluated { .. } => "policy_evaluated",
            HarnessEvent::ApprovalGranted { .. } => "approval_granted",
            HarnessEvent::ApprovalDenied { .. } => "approval_denied",
            HarnessEvent::ToolStarted { .. } => "tool_started",
            HarnessEvent::ToolFinished { .. } => "tool_finished",
            HarnessEvent::ToolFailed { .. } => "tool_failed",
            HarnessEvent::RunFinished { .. } => "run_finished",
            HarnessEvent::RunFailed { .. } => "run_failed",
        }
    }
}

impl Clone for HarnessEvent {
    fn clone(&self) -> (r: Self)
        ensures
            r@ == self@,
    {
        match self {
            HarnessEvent::RunStarted { run_id, agent_id } => HarnessEvent::RunStarted {
                run_id: run_id.clone(),
                agent_id: agent_id.clone(),
            },
            HarnessEvent::ContextBuilt { run_id, turn_id, context } => HarnessEvent::ContextBuilt {
                run_id: run_id.clone(),
                turn_id: turn_id.clone(),
                context: context.clone(),
            },
            HarnessEvent::ContextCompacted {
                run_id,
                turn_id,
                estimated_tokens_before,
                estimated_tokens_after,
                dropped_turn_start,
                dropped_turn_end_exclusive,
            } => HarnessEvent::ContextCompacted {
                run_id: run_id.clone(),
                turn_id: turn_id.clone(),
                estimated_tokens_before: *estimated_tokens_before,
                estimated_tokens_after: *estimated_tokens_after,
                dropped_turn_start: *dropped_turn_start,
                dropped_turn_end_exclusive: *dropped_turn_end_exclusive,
            },
            HarnessEvent::ModelRequested { run_id, turn_id, step, model } =>
                HarnessEvent::ModelRequested {
                    run_id: run_id.clone(),
                    turn_id: turn_id.clone(),
                    step: *step,
                    model: model.clone(),
                },
            HarnessEvent::ModelFailed { run_id, turn_id, step, reason } =>
                HarnessEvent::ModelFailed {
                    run_id: run_id.clone(),
                    turn_id: turn_id.clone(),
                    step: *step,
                    reason: reason.clone(),
                },
            HarnessEvent::ModelResponded {
                run_id,
                turn_id,
                step,
                output,
                proposed_calls,
                served_model,
                usage,
            } => {
                let calls = proposed_calls.clone();
                proof {
                    assert(calls@.map_values(|p: ToolProposal| p@) =~= proposed_calls@.map_values(
                        |p: ToolProposal| p@,
                    ));
                }
                HarnessEvent::ModelResponded {
                    run_id: run_id.clone(),
                    turn_id: turn_id.clone(),
                    step: *step,
                    output: output.clone(),
                    proposed_calls: calls,
                    served_model: served_model.clone(),
                    usage: *usage,
                }
            },
            HarnessEvent::ToolProposalsRejected { run_id, turn_id, reason } =>
                HarnessEvent::ToolProposalsRejected {
                    run_id: run_id.clone(),
                    turn_id: turn_id.clone(),
                    reason: reason.clone(),
                },
            HarnessEvent::ToolCallProposed { run_id, turn_id, call } =>
                HarnessEvent::ToolCallProposed {
                    run_id: run_id.clone(),
                    turn_id: turn_id.clone(),
                    call: call.clone(),
                },
            HarnessEvent::PolicyEvaluated { run_id, call_id, decision } =>
                HarnessEvent::PolicyEvaluated {
                    run_id: run_id.clone(),
                    call_id: call_id.clone(),
                    decision: decision.clone(),
                },
            HarnessEvent::ApprovalGranted { run_id, call_id, actor_id } =>
                HarnessEvent::ApprovalGranted {
                    run_id: run_id.clone(),
                    call_id: call_id.clone(),
                    actor_id: actor_id.clone(),
                },
            HarnessEvent::ApprovalDenied { run_id, call_id, actor_id, reason } =>
                HarnessEvent::ApprovalDenied {
                    run_id: run_id.clone(),
                    call_id: call_id.clone(),
                    actor_id: actor_id.clone(),
                    reason: reason.clone(),
                },
            HarnessEvent::ToolStarted { run_id, call_id } => HarnessEvent::ToolStarted {
                run_id: run_id.clone(),
                call_id: call_id.clone(),
            },
            HarnessEvent::ToolFinished { run_id, result } => HarnessEvent::ToolFinished {
                run_id: run_id.clone(),
                result: result.clone(),
            },
            HarnessEvent::ToolFailed { run_id, call_id, reason } => HarnessEvent::ToolFailed {
                run_id: run_id.clone(),
                call_id: call_id.clone(),
                reason: reason.clone(),
            },
            HarnessEvent::RunFinished { run_id } => HarnessEvent::RunFinished {
                run_id: run_id.clone(),
            },
            HarnessEvent::RunFailed { run_id, reason } => HarnessEvent::RunFailed {
                run_id: run_id.clone(),
                reason: reason.clone(),
            },
        }
    }
}

impl Clone for RecordedEvent {
    fn clone(&self) -> (r: Self)
        ensures
            r@ == self@,
    {
        RecordedEvent {
            seq: self.seq,
            occurred_at_ms: self.occurred_at_ms,
            event: self.event.clone(),
        }
    }
}

} // verus!
