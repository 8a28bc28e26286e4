//! Pure run state machine.

use crate::context::{ContextPack, PackView};
use crate::error::{Error, ErrorView};
use crate::event::{EventView, HarnessEvent, RecordedEvent, RecordedView};
use crate::ids::{
    is_blank, lemma_text_lt_total, lemma_text_lt_transitive, str_is_blank, str_lt,
    strictly_ordered, text_lt, RunId, ToolCallId, TurnId,
};
use crate::laws::{law_apply_preserves_invariant, reachable_invariant};
use crate::policy::{PolicyDecision, PolicyView};
use crate::json::json_equal;
use crate::tool::{CallView, ProposalView, ToolCall, ToolProposal};
use vstd::prelude::*;

verus! {

/// Host command requested by the run state machine.
#[derive(Debug, PartialEq)]
pub enum RunCommand {
    /// Ask the host to make a model request.
    RequestModel {
        /// Turn whose bounded context is ready.
        turn_id: TurnId,
        /// Monotonic model step to record with the request and response.
        step: u32,
        /// Validated context to submit to the model provider.
        context: ContextPack,
    },
    /// Ask the host to obtain approval for a tool call.
    AwaitApproval {
        /// Pending call requiring an approval decision.
        call_id: ToolCallId,
        /// Policy explanation to present to the approver.
        reason: String,
    },
    /// Ask the host to execute a validated tool call.
    ExecuteTool {
        /// Approved or policy-allowed call ready for execution.
        call: ToolCall,
    },
}

/// Current phase of one run.
#[derive(Debug, PartialEq)]
pub enum RunPhase {
    /// No `run_started` event has been applied.
    NotStarted,
    /// The run is waiting for context to be built for the next model turn.
    ReadyForContext,
    /// Context is built and the next command is a model request.
    ReadyToRequestModel {
        /// Turn whose context is ready.
        turn_id: TurnId,
        /// Monotonic model step expected in the request and response events.
        step: u32,
        /// Budget-validated context to send to the model.
        context: ContextPack,
    },
    /// A model request was recorded; the run is waiting for the response.
    AwaitingModelResponse {
        /// Turn awaiting a model response.
        turn_id: TurnId,
        /// Model step the response must match.
        step: u32,
        /// Budget-validated context retained if the request fails.
        context: ContextPack,
    },
    /// The model response contained at least one tool proposal.
    AwaitingToolCall {
        /// Turn that produced the proposals.
        turn_id: TurnId,
        /// Model-authored proposals awaiting host validation and classification.
        proposals: Vec<ToolProposal>,
    },
    /// A validated tool call is waiting for policy evaluation.
    AwaitingPolicy {
        /// Validated and effect-classified call to evaluate.
        call: ToolCall,
    },
    /// Policy requires approval before tool execution.
    AwaitingApproval {
        /// Call withheld until approval is recorded.
        call: ToolCall,
        /// Policy explanation for requiring approval.
        reason: String,
    },
    /// Policy denied the tool call; the turn is concluded and may continue or fail.
    PolicyDenied {
        /// Call rejected by policy.
        call_id: ToolCallId,
        /// Recorded policy explanation.
        reason: String,
    },
    /// An actor denied the pending approval; the turn is concluded and may continue or fail.
    ApprovalDenied {
        /// Call denied before execution.
        call_id: ToolCallId,
        /// Recorded approval denial explanation.
        reason: String,
    },
    /// The tool call may be executed.
    ReadyToExecuteTool {
        /// Policy-allowed or approved call ready for host execution.
        call: ToolCall,
    },
    /// Tool execution has started.
    ToolRunning {
        /// Call that crossed the host execution boundary.
        call_id: ToolCallId,
    },
    /// A tool failed; the turn is concluded and may continue or fail.
    ToolFailed {
        /// Call whose execution failed.
        call_id: ToolCallId,
        /// Recorded host failure explanation.
        reason: String,
    },
    /// The current turn completed successfully; the host may finish or continue.
    TurnConcluded,
    /// The run finished successfully.
    Finished,
    /// The run finished unsuccessfully.
    Failed {
        /// Durable terminal failure explanation.
        reason: String,
    },
}

/// Durable state derived by replaying one run's ordered event ledger.
///
/// The state machine performs no IO. Hosts inspect [`Self::pending_command`]
/// for requested effects and [`Self::pending_compaction_turn`] for the narrow
/// post-compaction context gate, then apply the resulting recorded event.
///
/// The turn and tool-call ids used so far are kept in ascending order, so two
/// states compare equal when they used the same ids, in whatever order.
#[derive(Debug, PartialEq)]
pub struct RunState {
    run_id: Option<RunId>,
    next_seq: u64,
    next_model_step: u32,
    used_turn_ids: Vec<TurnId>,
    used_tool_call_ids: Vec<ToolCallId>,
    pending_compaction_turn_id: Option<TurnId>,
    phase: RunPhase,
}

impl RunState {
    /// The used identifiers are kept in ascending order, so that two states
    /// that used the same identifiers hold equal lists.
    #[verifier::type_invariant]
    spec fn ids_in_order(self) -> bool {
        &&& strictly_ordered(turn_texts(self.used_turn_ids@))
        &&& strictly_ordered(call_texts(self.used_tool_call_ids@))
    }
}

/// Spec view of a [`RunCommand`].
#[allow(inconsistent_fields)]
pub enum CommandView {
    RequestModel { turn_id: Seq<char>, step: u32, context: PackView },
    AwaitApproval { call_id: Seq<char>, reason: Seq<char> },
    ExecuteTool { call: CallView },
}

/// Spec view of a [`RunPhase`].
#[allow(inconsistent_fields)]
pub enum PhaseView {
    NotStarted,
    ReadyForContext,
    ReadyToRequestModel { turn_id: Seq<char>, step: u32, context: PackView },
    AwaitingModelResponse { turn_id: Seq<char>, step: u32, context: PackView },
    AwaitingToolCall { turn_id: Seq<char>, proposals: Seq<ProposalView> },
    AwaitingPolicy { call: CallView },
    AwaitingApproval { call: CallView, reason: Seq<char> },
    PolicyDenied { call_id: Seq<char>, reason: Seq<char> },
    ApprovalDenied { call_id: Seq<char>, reason: Seq<char> },
    ReadyToExecuteTool { call: CallView },
    ToolRunning { call_id: Seq<char> },
    ToolFailed { call_id: Seq<char>, reason: Seq<char> },
    TurnConcluded,
    Finished,
    Failed { reason: Seq<char> },
}

/// Spec view of a [`RunState`]; the counters are unbounded here.
pub struct RunView {
    pub run_id: Option<Seq<char>>,
    pub next_seq: nat,
    pub next_model_step: nat,
    pub used_turn_ids: Set<Seq<char>>,
    pub used_tool_call_ids: Set<Seq<char>>,
    pub pending_compaction_turn: Option<Seq<char>>,
    pub phase: PhaseView,
}

impl View for RunCommand {
    type V = CommandView;

    open spec fn view(&self) -> CommandView {
        match self {
            RunCommand::RequestModel { turn_id, step, context } => CommandView::RequestModel {
                turn_id: turn_id@,
                step: *step,
                context: context@,
            },
            RunCommand::AwaitApproval { call_id, reason } => CommandView::AwaitApproval {
                call_id: call_id@,
                reason: reason@,
            },
            RunCommand::ExecuteTool { call } => CommandView::ExecuteTool { call: call@ },
        }
    }
}

impl View for RunPhase {
    type V = PhaseView;

    open spec fn view(&self) -> PhaseView {
        match self {
            RunPhase::NotStarted => PhaseView::NotStarted,
            RunPhase::ReadyForContext => PhaseView::ReadyForContext,
            RunPhase::ReadyToRequestModel { turn_id, step, context } =>
                PhaseView::ReadyToRequestModel {
                    turn_id: turn_id@,
                    step: *step,
                    context: context@,
                },
            RunPhase::AwaitingModelResponse { turn_id, step, context } =>
                PhaseView::AwaitingModelResponse {
                    turn_id: turn_id@,
                    step: *step,
                    context: context@,
                },
            RunPhase::AwaitingToolCall { turn_id, proposals } => PhaseView::AwaitingToolCall {
                turn_id: turn_id@,
                proposals: proposals@.map_values(|p: ToolProposal| p@),
            },
            RunPhase::AwaitingPolicy { call } => PhaseView::AwaitingPolicy { call: call@ },
            RunPhase::AwaitingApproval { call, reason } => PhaseView::AwaitingApproval {
                call: call@,
                reason: reason@,
            },
            RunPhase::PolicyDenied { call_id, reason } => PhaseView::PolicyDenied {
                call_id: call_id@,
                reason: reason@,
            },
            RunPhase::ApprovalDenied { call_id, reason } => PhaseView::ApprovalDenied {
                call_id: call_id@,
                reason: reason@,
            },
            RunPhase::ReadyToExecuteTool { call } => PhaseView::ReadyToExecuteTool {
                call: call@,
            },
            RunPhase::ToolRunning { call_id } => PhaseView::ToolRunning { call_id: call_id@ },
            RunPhase::ToolFailed { call_id, reason } => PhaseView::ToolFailed {
                call_id: call_id@,
                reason: reason@,
            },
            RunPhase::TurnConcluded => PhaseView::TurnConcluded,
            RunPhase::Finished => PhaseView::Finished,
            RunPhase::Failed { reason } => PhaseView::Failed { reason: reason@ },
        }
    }
}

/// Views an optional turn or run identifier.
pub open spec fn turn_view(t: Option<TurnId>) -> Option<Seq<char>> {
    match t {
        Some(id) => Some(id@),
        None => None,
    }
}

/// The texts of a list of turn ids, in list order.
pub open spec fn turn_texts(ids: Seq<TurnId>) -> Seq<Seq<char>> {
    ids.map_values(|t: TurnId| t@)
}

/// The texts of a list of tool-call ids, in list order.
pub open spec fn call_texts(ids: Seq<ToolCallId>) -> Seq<Seq<char>> {
    ids.map_values(|c: ToolCallId| c@)
}

/// Views an optional run identifier.
pub open spec fn run_id_view(r: Option<RunId>) -> Option<Seq<char>> {
    match r {
        Some(id) => Some(id@),
        None => None,
    }
}

impl View for RunState {
    type V = RunView;

    closed spec fn view(&self) -> RunView {
        RunView {
            run_id: run_id_view(self.run_id),
            next_seq: self.next_seq as nat,
            next_model_step: self.next_model_step as nat,
            used_turn_ids: turn_texts(self.used_turn_ids@).to_set(),
            used_tool_call_ids: call_texts(self.used_tool_call_ids@).to_set(),
            pending_compaction_turn: turn_view(self.pending_compaction_turn_id),
            phase: self.phase@,
        }
    }
}

// ---------------------------------------------------------------------------
// The transition relation.
// ---------------------------------------------------------------------------

impl PhaseView {
    /// The stable snake-case phase name used in transition diagnostics.
    pub open spec fn name(self) -> Seq<char> {
        match self {
            PhaseView::NotStarted => "not_started"@,
            PhaseView::ReadyForContext => "ready_for_context"@,
            PhaseView::ReadyToRequestModel { .. } => "ready_to_request_model"@,
            PhaseView::AwaitingModelResponse { .. } => "awaiting_model_response"@,
            PhaseView::AwaitingToolCall { .. } => "awaiting_tool_call"@,
            PhaseView::AwaitingPolicy { .. } => "awaiting_policy"@,
            PhaseView::AwaitingApproval { .. } => "awaiting_approval"@,
            PhaseView::PolicyDenied { .. } => "policy_denied"@,
            PhaseView::ApprovalDenied { .. } => "approval_denied"@,
            PhaseView::ReadyToExecuteTool { .. } => "ready_to_execute_tool"@,
            PhaseView::ToolRunning { .. } => "tool_running"@,
            PhaseView::ToolFailed { .. } => "tool_failed"@,
            PhaseView::TurnConcluded => "turn_concluded"@,
            PhaseView::Finished => "finished"@,
            PhaseView::Failed { .. } => "failed"@,
        }
    }

    /// A started, nonterminal phase: `run_failed` may close it.
    pub open spec fn can_fail(self) -> bool {
        !(self is NotStarted || self is Finished || self is Failed)
    }

    /// A phase in which the next turn's context may be compacted or built.
    pub open spec fn accepts_context(self) -> bool {
        ||| self is ReadyForContext
        ||| self is TurnConcluded
        ||| self is PolicyDenied
        ||| self is ApprovalDenied
        ||| self is ToolFailed
    }

    /// A terminal phase: the run is over.
    pub open spec fn is_terminal(self) -> bool {
        self is Finished || self is Failed
    }

    /// The host command a phase asks for, if any.
    pub open spec fn command(self) -> Option<CommandView> {
        match self {
            PhaseView::ReadyToRequestModel { turn_id, step, context } => Some(
                CommandView::RequestModel { turn_id, step, context },
            ),
            PhaseView::AwaitingApproval { call, reason } => Some(
                CommandView::AwaitApproval { call_id: call.id, reason },
            ),
            PhaseView::ReadyToExecuteTool { call } => Some(CommandView::ExecuteTool { call }),
            _ => None,
        }
    }
}

/// The rejection of an event that the phase does not accept.
pub open spec fn rejection(phase: PhaseView, event: EventView) -> ErrorView {
    ErrorView::InvalidTransition { phase: phase.name(), event: event.name() }
}

/// Whether a validated call matches one of the model's proposals: same tool,
/// and an input equal as JSON.
pub open spec fn proposed(proposals: Seq<ProposalView>, call: CallView) -> bool {
    exists|i: int|
        0 <= i < proposals.len() && #[trigger] proposals[i].tool == call.tool && json_equal(
            proposals[i].input,
            call.input,
        )
}

/// Starts a turn on built context: the turn id must be new and the context
/// must fit its budget.
pub open spec fn start_turn(s: RunView, turn_id: Seq<char>, context: PackView) -> Result<
    RunView,
    ErrorView,
> {
    if s.used_turn_ids.contains(turn_id) {
        Err(ErrorView::TurnReused { turn_id })
    } else if !context.within_budget() {
        Err(context.budget_check()->Err_0)
    } else {
        Ok(
            RunView {
                used_turn_ids: s.used_turn_ids.insert(turn_id),
                pending_compaction_turn: None,
                phase: PhaseView::ReadyToRequestModel {
                    turn_id,
                    step: s.next_model_step as u32,
                    context,
                },
                ..s
            },
        )
    }
}

/// `s` in a new phase.
pub open spec fn with_phase(s: RunView, phase: PhaseView) -> RunView {
    RunView { phase, ..s }
}

/// What one event does to a run, once the compaction gate has let it through.
pub open spec fn on_event(s: RunView, e: EventView) -> Result<RunView, ErrorView> {
    match e {
        EventView::RunStarted { run_id, .. } => match s.phase {
            PhaseView::NotStarted => Ok(
                RunView { run_id: Some(run_id), phase: PhaseView::ReadyForContext, ..s },
            ),
            _ => Err(rejection(s.phase, e)),
        },
        EventView::ContextBuilt { turn_id, context, .. } => if s.phase.accepts_context() {
            start_turn(s, turn_id, context)
        } else {
            Err(rejection(s.phase, e))
        },
        EventView::ContextCompacted {
            turn_id,
            dropped_turn_start,
            dropped_turn_end_exclusive,
            ..
        } => if !s.phase.accepts_context() {
            Err(rejection(s.phase, e))
        } else if !(dropped_turn_start < dropped_turn_end_exclusive) {
            Err(
                ErrorView::InvalidCompactionRange {
                    start: dropped_turn_start,
                    end_exclusive: dropped_turn_end_exclusive,
                },
            )
        } else if s.used_turn_ids.contains(turn_id) {
            Err(ErrorView::TurnReused { turn_id })
        } else {
            Ok(RunView { pending_compaction_turn: Some(turn_id), ..s })
        },
        EventView::ModelRequested { turn_id: actual_turn, step: actual_step, .. } => match s.phase {
            PhaseView::ReadyToRequestModel { turn_id, step, context } => if turn_id
                != actual_turn {
                Err(ErrorView::TurnMismatch { expected: turn_id, actual: actual_turn })
            } else if step != actual_step {
                Err(ErrorView::StepMismatch { expected: step, actual: actual_step })
            } else {
                Ok(with_phase(s, PhaseView::AwaitingModelResponse { turn_id, step, context }))
            },
            _ => Err(rejection(s.phase, e)),
        },
        EventView::ModelFailed { turn_id: actual_turn, step: actual_step, .. } => match s.phase {
            PhaseView::AwaitingModelResponse { turn_id, step, context } => if turn_id
                != actual_turn {
                Err(ErrorView::TurnMismatch { expected: turn_id, actual: actual_turn })
            } else if step != actual_step {
                Err(ErrorView::StepMismatch { expected: step, actual: actual_step })
            } else {
                Ok(with_phase(s, PhaseView::ReadyToRequestModel { turn_id, step, context }))
            },
            _ => Err(rejection(s.phase, e)),
        },
        EventView::ModelResponded {
            turn_id: actual_turn,
            step: actual_step,
            proposed_calls,
            ..
        } => match s.phase {
            PhaseView::AwaitingModelResponse { turn_id, step, .. } => if turn_id
                != actual_turn {
                Err(ErrorView::TurnMismatch { expected: turn_id, actual: actual_turn })
            } else if step != actual_step {
                Err(ErrorView::StepMismatch { expected: step, actual: actual_step })
            } else {
                Ok(
                    RunView {
                        next_model_step: s.next_model_step + 1,
                        phase: if proposed_calls.len() == 0 {
                            PhaseView::TurnConcluded
                        } else {
                            PhaseView::AwaitingToolCall { turn_id, proposals: proposed_calls }
                        },
                        ..s
                    },
                )
            },
            _ => Err(rejection(s.phase, e)),
        },
        EventView::ToolProposalsRejected { turn_id: actual_turn, reason, .. } => match s.phase {
            PhaseView::AwaitingToolCall { turn_id, .. } => if turn_id != actual_turn {
                Err(ErrorView::TurnMismatch { expected: turn_id, actual: actual_turn })
            } else if is_blank(reason) {
                Err(ErrorView::EmptyToolProposalsRejectionReason)
            } else {
                Ok(with_phase(s, PhaseView::TurnConcluded))
            },
            _ => Err(rejection(s.phase, e)),
        },
        EventView::ToolCallProposed { turn_id: actual_turn, call, .. } => match s.phase {
            PhaseView::AwaitingToolCall { turn_id, proposals } => if turn_id != actual_turn {
                Err(ErrorView::TurnMismatch { expected: turn_id, actual: actual_turn })
            } else if !proposed(proposals, call) {
                Err(ErrorView::UnproposedToolCall)
            } else if s.used_tool_call_ids.contains(call.id) {
                Err(ErrorView::ToolCallReused { call_id: call.id })
            } else {
                Ok(
                    RunView {
                        used_tool_call_ids: s.used_tool_call_ids.insert(call.id),
                        phase: PhaseView::AwaitingPolicy { call },
                        ..s
                    },
                )
            },
            _ => Err(rejection(s.phase, e)),
        },
        EventView::PolicyEvaluated { call_id, decision, .. } => match s.phase {
            PhaseView::AwaitingPolicy { call } => if call.id != call_id {
                Err(ErrorView::ToolCallMismatch { expected: call.id, actual: call_id })
            } else {
                Ok(
                    with_phase(
                        s,
                        match decision {
                            PolicyView::Allow => PhaseView::ReadyToExecuteTool { call },
                            PolicyView::RequireApproval { reason } => PhaseView::AwaitingApproval {
                                call,
                                reason,
                            },
                            PolicyView::Deny { reason } => PhaseView::PolicyDenied {
                                call_id: call.id,
                                reason,
                            },
                        },
                    ),
                )
            },
            _ => Err(rejection(s.phase, e)),
        },
        EventView::ApprovalGranted { call_id, .. } => match s.phase {
            PhaseView::AwaitingApproval { call, .. } => if call.id != call_id {
                Err(ErrorView::ToolCallMismatch { expected: call.id, actual: call_id })
            } else {
                Ok(with_phase(s, PhaseView::ReadyToExecuteTool { call }))
            },
            _ => Err(rejection(s.phase, e)),
        },
        EventView::ApprovalDenied { call_id, reason, .. } => match s.phase {
            PhaseView::AwaitingApproval { call, .. } => if call.id != call_id {
                Err(ErrorView::ToolCallMismatch { expected: call.id, actual: call_id })
            } else {
                Ok(with_phase(s, PhaseView::ApprovalDenied { call_id: call.id, reason }))
            },
            _ => Err(rejection(s.phase, e)),
        },
        EventView::ToolStarted { call_id, .. } => match s.phase {
            PhaseView::ReadyToExecuteTool { call } => if call.id != call_id {
                Err(ErrorView::ToolCallMismatch { expected: call.id, actual: call_id })
            } else {
                Ok(with_phase(s, PhaseView::ToolRunning { call_id: call.id }))
            },
            _ => Err(rejection(s.phase, e)),
        },
        EventView::ToolFinished { result, .. } => match s.phase {
            PhaseView::ToolRunning { call_id } => if call_id != result.call_id {
                Err(ErrorView::ToolCallMismatch { expected: call_id, actual: result.call_id })
            } else {
                Ok(with_phase(s, PhaseView::TurnConcluded))
            },
            _ => Err(rejection(s.phase, e)),
        },
        EventView::ToolFailed { call_id: actual_call, reason, .. } => match s.phase {
            PhaseView::ToolRunning { call_id } => if call_id != actual_call {
                Err(ErrorView::ToolCallMismatch { expected: call_id, actual: actual_call })
            } else {
                Ok(with_phase(s, PhaseView::ToolFailed { call_id, reason }))
            },
            _ => Err(rejection(s.phase, e)),
        },
        EventView::RunFinished { .. } => match s.phase {
            PhaseView::TurnConcluded => Ok(with_phase(s, PhaseView::Finished)),
            _ => Err(rejection(s.phase, e)),
        },
        EventView::RunFailed { reason, .. } => if s.phase.can_fail() {
            Ok(
                RunView {
                    pending_compaction_turn: None,
                    phase: PhaseView::Failed { reason },
                    ..s
                },
            )
        } else {
            Err(rejection(s.phase, e))
        },
    }
}

/// What one event does to a run: while a compaction is pending, only the
/// matching `context_built` or a `run_failed` gets through.
pub open spec fn transition(s: RunView, e: EventView) -> Result<RunView, ErrorView> {
    match s.pending_compaction_turn {
        Some(pending) => match e {
            EventView::ContextBuilt { turn_id, .. } => if pending != turn_id {
                Err(ErrorView::TurnMismatch { expected: pending, actual: turn_id })
            } else {
                on_event(s, e)
            },
            EventView::RunFailed { .. } => on_event(s, e),
            _ => Err(rejection(s.phase, e)),
        },
        None => on_event(s, e),
    }
}

/// What applying one recorded event does: the sequence number must be the
/// next one, the event must name the bound run, and the event must be a legal
/// transition; only then does the sequence advance.
pub open spec fn apply_record(s: RunView, r: RecordedView) -> Result<RunView, ErrorView> {
    if r.seq != s.next_seq {
        Err(ErrorView::SequenceMismatch { expected: s.next_seq as u64, actual: r.seq })
    } else if s.run_id is Some && s.run_id->0 != r.event.run_id() {
        Err(ErrorView::RunIdMismatch { expected: s.run_id->0, actual: r.event.run_id() })
    } else {
        match transition(s, r.event) {
            Ok(t) => Ok(RunView { next_seq: t.next_seq + 1, ..t }),
            Err(e) => Err(e),
        }
    }
}

/// The state before any event.
pub open spec fn initial_run() -> RunView {
    RunView {
        run_id: None,
        next_seq: 0,
        next_model_step: 0,
        used_turn_ids: Set::empty(),
        used_tool_call_ids: Set::empty(),
        pending_compaction_turn: None,
        phase: PhaseView::NotStarted,
    }
}

/// The counters of `s` fit their machine widths.
pub open spec fn counters_fit(s: RunView) -> bool {
    s.next_seq <= u64::MAX && s.next_model_step <= u32::MAX
}

/// Accepting `r` in `s` would not overflow a counter.
pub open spec fn apply_fits(s: RunView, r: RecordedView) -> bool {
    apply_record(s, r) matches Ok(t) ==> counters_fit(t)
}

/// How a fallible state update relates to the transition it implements: on
/// success the state becomes the successor, on failure it is left unchanged
/// and the error is the one the relation names.
pub open spec fn outcome(
    expected: Result<RunView, ErrorView>,
    r: Result<(), Error>,
    before: RunView,
    after: RunView,
) -> bool {
    match expected {
        Ok(t) => r is Ok && after == t,
        Err(e) => r matches Err(x) && x@ == e && after == before,
    }
}

// ---------------------------------------------------------------------------
// Executable state machine.
// ---------------------------------------------------------------------------

impl Clone for RunPhase {
    fn clone(&self) -> (r: Self)
        ensures
            r@ == self@,
    {
        match self {
            RunPhase::NotStarted => RunPhase::NotStarted,
            RunPhase::ReadyForContext => RunPhase::ReadyForContext,
            RunPhase::ReadyToRequestModel { turn_id, step, context } =>
                RunPhase::ReadyToRequestModel {
                    turn_id: turn_id.clone(),
                    step: *step,
                    context: context.clone(),
                },
            RunPhase::AwaitingModelResponse { turn_id, step, context } =>
                RunPhase::AwaitingModelResponse {
                    turn_id: turn_id.clone(),
                    step: *step,
                    context: context.clone(),
                },
            RunPhase::AwaitingToolCall { turn_id, proposals } => {
                let copied = clone_proposals(proposals);
                RunPhase::AwaitingToolCall { turn_id: turn_id.clone(), proposals: copied }
            },
            RunPhase::AwaitingPolicy { call } => RunPhase::AwaitingPolicy { call: call.clone() },
            RunPhase::AwaitingApproval { call, reason } => RunPhase::AwaitingApproval {
                call: call.clone(),
                reason: reason.clone(),
            },
            RunPhase::PolicyDenied { call_id, reason } => RunPhase::PolicyDenied {
                call_id: call_id.clone(),
                reason: reason.clone(),
            },
            RunPhase::ApprovalDenied { call_id, reason } => RunPhase::ApprovalDenied {
                call_id: call_id.clone(),
                reason: reason.clone(),
            },
            RunPhase::ReadyToExecuteTool { call } => RunPhase::ReadyToExecuteTool {
                call: call.clone(),
            },
            RunPhase::ToolRunning { call_id } => RunPhase::ToolRunning {
                call_id: call_id.clone(),
            },
            RunPhase::ToolFailed { call_id, reason } => RunPhase::ToolFailed {
                call_id: call_id.clone(),
                reason: reason.clone(),
            },
            RunPhase::TurnConcluded => RunPhase::TurnConcluded,
            RunPhase::Finished => RunPhase::Finished,
            RunPhase::Failed { reason } => RunPhase::Failed { reason: reason.clone() },
        }
    }
}

impl Clone for RunCommand {
    fn clone(&self) -> (r: Self)
        ensures
            r@ == self@,
    {
        match self {
            RunCommand::RequestModel { turn_id, step, context } => RunCommand::RequestModel {
                turn_id: turn_id.clone(),
                step: *step,
                context: context.clone(),
            },
            RunCommand::AwaitApproval { call_id, reason } => RunCommand::AwaitApproval {
                call_id: call_id.clone(),
                reason: reason.clone(),
            },
            RunCommand::ExecuteTool { call } => RunCommand::ExecuteTool { call: call.clone() },
        }
    }
}

/// Copies a proposal list, keeping every proposal's view.
fn clone_proposals(proposals: &Vec<ToolProposal>) -> (r: Vec<ToolProposal>)
    ensures
        r@.map_values(|p: ToolProposal| p@) == proposals@.map_values(|p: ToolProposal| p@),
{
    let copied = proposals.clone();
    proof {
        assert(copied@.map_values(|p: ToolProposal| p@) =~= proposals@.map_values(
            |p: ToolProposal| p@,
        ));
    }
    copied
}

impl RunPhase {
    /// Returns the stable snake-case phase name used in transition diagnostics.
    fn name(&self) -> (r: &'static str)
        ensures
            r@ == self@.name(),
    {
        match self {
            RunPhase::NotStarted => "not_started",
            RunPhase::ReadyForContext => "ready_for_context",
            RunPhase::ReadyToRequestModel { .. } => "ready_to_request_model",
            RunPhase::AwaitingModelResponse { .. } => "awaiting_model_response",
            RunPhase::AwaitingToolCall { .. } => "awaiting_tool_call",
            RunPhase::AwaitingPolicy { .. } => "awaiting_policy",
            RunPhase::AwaitingApproval { .. } => "awaiting_approval",
            RunPhase::PolicyDenied { .. } => "policy_denied",
            RunPhase::ApprovalDenied { .. } => "approval_denied",
            RunPhase::ReadyToExecuteTool { .. } => "ready_to_execute_tool",
            RunPhase::ToolRunning { .. } => "tool_running",
            RunPhase::ToolFailed { .. } => "tool_failed",
            RunPhase::TurnConcluded => "turn_concluded",
            RunPhase::Finished => "finished",
            RunPhase::Failed { .. } => "failed",
        }
    }

    /// Whether `run_failed` may close this phase.
    fn can_fail(&self) -> (r: bool)
        ensures
            r == self@.can_fail(),
    {
        match self {
            RunPhase::NotStarted | RunPhase::Finished | RunPhase::Failed { .. } => false,
            _ => true,
        }
    }

    /// Whether this phase accepts the next turn's context.
    fn accepts_context(&self) -> (r: bool)
        ensures
            r == self@.accepts_context(),
    {
        match self {
            RunPhase::ReadyForContext
            | RunPhase::TurnConcluded
            | RunPhase::PolicyDenied { .. }
            | RunPhase::ApprovalDenied { .. }
            | RunPhase::ToolFailed { .. } => true,
            _ => false,
        }
    }
}

/// The rejection of `event` by `phase`.
fn invalid(phase: &RunPhase, event: &HarnessEvent) -> (r: Error)
    ensures
        r@ == rejection(phase@, event@),
{
    Error::InvalidTransition { phase: phase.name(), event: event.name() }
}

fn ensure_turn(expected: &TurnId, actual: &TurnId) -> (r: Result<(), Error>)
    ensures
        r is Ok <==> expected@ == actual@,
        r matches Err(e) ==> e@ == (ErrorView::TurnMismatch {
            expected: expected@,
            actual: actual@,
        }),
{
    if *expected == *actual {
        return Ok(());
    }
    Err(Error::TurnMismatch { expected: expected.to_string(), actual: actual.to_string() })
}

fn contains_turn(used: &Vec<TurnId>, turn_id: &TurnId) -> (r: bool)
    ensures
        r == turn_texts(used@).contains(turn_id@),
{
    let ghost ids = turn_texts(used@);
    let mut i: usize = 0;
    while i < used.len()
        invariant
            ids == turn_texts(used@),
            i <= used.len(),
            forall|k: int| 0 <= k < i ==> ids[k] != turn_id@,
        decreases used.len() - i,
    {
        if used[i] == *turn_id {
            assert(ids[i as int] == turn_id@);
            return true;
        }
        i = i + 1;
    }
    false
}

fn contains_call(used: &Vec<ToolCallId>, call_id: &ToolCallId) -> (r: bool)
    ensures
        r == call_texts(used@).contains(call_id@),
{
    let ghost ids = call_texts(used@);
    let mut i: usize = 0;
    while i < used.len()
        invariant
            ids == call_texts(used@),
            i <= used.len(),
            forall|k: int| 0 <= k < i ==> ids[k] != call_id@,
        decreases used.len() - i,
    {
        if used[i] == *call_id {
            assert(ids[i as int] == call_id@);
            return true;
        }
        i = i + 1;
    }
    false
}

fn ensure_new_turn(used_turn_ids: &Vec<TurnId>, actual: &TurnId) -> (r: Result<(), Error>)
    ensures
        r is Ok <==> !turn_texts(used_turn_ids@).contains(actual@),
        r matches Err(e) ==> e@ == (ErrorView::TurnReused { turn_id: actual@ }),
{
    if contains_turn(used_turn_ids, actual) {
        return Err(Error::TurnReused { turn_id: actual.to_string() });
    }
    Ok(())
}

fn ensure_tool_proposals_rejection_reason(reason: &str) -> (r: Result<(), Error>)
    ensures
        r is Ok <==> !is_blank(reason@),
        r matches Err(e) ==> e@ == ErrorView::EmptyToolProposalsRejectionReason,
{
    if str_is_blank(reason) {
        return Err(Error::EmptyToolProposalsRejectionReason);
    }
    Ok(())
}

fn ensure_compaction_range(start: u64, end_exclusive: u64) -> (r: Result<(), Error>)
    ensures
        r is Ok <==> start < end_exclusive,
        r matches Err(e) ==> e@ == (ErrorView::InvalidCompactionRange { start, end_exclusive }),
{
    if start < end_exclusive {
        return Ok(());
    }
    Err(Error::InvalidCompactionRange { start, end_exclusive })
}

fn ensure_step(expected: u32, actual: u32) -> (r: Result<(), Error>)
    ensures
        r is Ok <==> expected == actual,
        r matches Err(e) ==> e@ == (ErrorView::StepMismatch { expected, actual }),
{
    if expected == actual {
        return Ok(());
    }
    Err(Error::StepMismatch { expected, actual })
}

fn ensure_call(expected: &ToolCallId, actual: &ToolCallId) -> (r: Result<(), Error>)
    ensures
        r is Ok <==> expected@ == actual@,
        r matches Err(e) ==> e@ == (ErrorView::ToolCallMismatch {
            expected: expected@,
            actual: actual@,
        }),
{
    if *expected == *actual {
        return Ok(());
    }
    Err(Error::ToolCallMismatch { expected: expected.to_string(), actual: actual.to_string() })
}

fn ensure_new_tool_call(used_tool_call_ids: &Vec<ToolCallId>, actual: &ToolCallId) -> (r: Result<
    (),
    Error,
>)
    ensures
        r is Ok <==> !call_texts(used_tool_call_ids@).contains(actual@),
        r matches Err(e) ==> e@ == (ErrorView::ToolCallReused { call_id: actual@ }),
{
    if contains_call(used_tool_call_ids, actual) {
        return Err(Error::ToolCallReused { call_id: actual.to_string() });
    }
    Ok(())
}

fn ensure_proposed(proposals: &Vec<ToolProposal>, call: &ToolCall) -> (r: Result<(), Error>)
    ensures
        r is Ok <==> proposed(proposals@.map_values(|p: ToolProposal| p@), call@),
        r matches Err(e) ==> e@ == ErrorView::UnproposedToolCall,
{
    let ghost ps = proposals@.map_values(|p: ToolProposal| p@);
    let mut i: usize = 0;
    while i < proposals.len()
        invariant
            ps == proposals@.map_values(|p: ToolProposal| p@),
            i <= proposals.len(),
            forall|k: int|
                0 <= k < i ==> !(ps[k].tool == call@.tool && json_equal(ps[k].input, call@.input)),
        decreases proposals.len() - i,
    {
        if proposals[i].tool == call.tool && proposals[i].input == call.input {
            assert(ps[i as int].tool == call@.tool && json_equal(ps[i as int].input, call@.input));
            return Ok(());
        }
        i = i + 1;
    }
    Err(Error::UnproposedToolCall)
}

/// Inserts a new turn id where the ascending order of texts puts it.
fn insert_turn_in_order(used: &mut Vec<TurnId>, id: TurnId)
    requires
        strictly_ordered(turn_texts(old(used)@)),
        !turn_texts(old(used)@).contains(id@),
    ensures
        strictly_ordered(turn_texts(final(used)@)),
        turn_texts(final(used)@).to_set() == turn_texts(old(used)@).to_set().insert(id@),
{
    let ghost vs = turn_texts(used@);
    let n = used.len();
    let mut p: usize = 0;
    let mut searching = true;
    while searching && p < n
        invariant
            vs == turn_texts(used@),
            n == vs.len(),
            p <= n,
            forall|k: int| 0 <= k < p ==> text_lt(#[trigger] vs[k], id@),
            !searching ==> p < n && !text_lt(vs[p as int], id@),
        decreases n - p + if searching { 1int } else { 0int },
    {
        if str_lt(used[p].as_str(), id.as_str()) {
            p = p + 1;
        } else {
            searching = false;
        }
    }
    proof {
        lemma_insert_keeps_order(vs, p as int, id@);
    }
    let ghost text = id@;
    used.insert(p, id);
    proof {
        assert(turn_texts(used@) =~= vs.insert(p as int, text));
    }
}

/// Inserts a new tool-call id where the ascending order of texts puts it.
fn insert_call_in_order(used: &mut Vec<ToolCallId>, id: ToolCallId)
    requires
        strictly_ordered(call_texts(old(used)@)),
        !call_texts(old(used)@).contains(id@),
    ensures
        strictly_ordered(call_texts(final(used)@)),
        call_texts(final(used)@).to_set() == call_texts(old(used)@).to_set().insert(id@),
{
    let ghost vs = call_texts(used@);
    let n = used.len();
    let mut p: usize = 0;
    let mut searching = true;
    while searching && p < n
        invariant
            vs == call_texts(used@),
            n == vs.len(),
            p <= n,
            forall|k: int| 0 <= k < p ==> text_lt(#[trigger] vs[k], id@),
            !searching ==> p < n && !text_lt(vs[p as int], id@),
        decreases n - p + if searching { 1int } else { 0int },
    {
        if str_lt(used[p].as_str(), id.as_str()) {
            p = p + 1;
        } else {
            searching = false;
        }
    }
    proof {
        lemma_insert_keeps_order(vs, p as int, id@);
    }
    let ghost text = id@;
    used.insert(p, id);
    proof {
        assert(call_texts(used@) =~= vs.insert(p as int, text));
    }
}

/// Inserting a new text after every smaller one and before every larger one
/// keeps a strictly ordered list strictly ordered, and adds just that text.
proof fn lemma_insert_keeps_order(vs: Seq<Seq<char>>, p: int, x: Seq<char>)
    requires
        strictly_ordered(vs),
        !vs.contains(x),
        0 <= p <= vs.len(),
        forall|k: int| 0 <= k < p ==> text_lt(#[trigger] vs[k], x),
        p < vs.len() ==> !text_lt(vs[p], x),
    ensures
        strictly_ordered(vs.insert(p, x)),
        vs.insert(p, x).to_set() == vs.to_set().insert(x),
{
    let ws = vs.insert(p, x);
    assert forall|m: int| p <= m < vs.len() implies text_lt(x, #[trigger] vs[m]) by {
        assert(vs[p] != x);
        lemma_text_lt_total(vs[p], x);
        if m > p {
            lemma_text_lt_transitive(x, vs[p], vs[m]);
        }
    }
    assert forall|i: int, j: int| 0 <= i < j < ws.len() implies text_lt(
        #[trigger] ws[i],
        #[trigger] ws[j],
    ) by {
        if j < p {
            assert(ws[i] == vs[i] && ws[j] == vs[j]);
        } else if j == p {
            assert(ws[i] == vs[i] && ws[j] == x);
        } else if i < p {
            assert(ws[i] == vs[i] && ws[j] == vs[j - 1]);
        } else if i == p {
            assert(ws[i] == x && ws[j] == vs[j - 1]);
        } else {
            assert(ws[i] == vs[i - 1] && ws[j] == vs[j - 1]);
        }
    }
    assert forall|a: Seq<char>| ws.contains(a) <==> vs.contains(a) || a == x by {
        if ws.contains(a) {
            let k = choose|k: int| 0 <= k < ws.len() && ws[k] == a;
            if k < p {
                assert(vs[k] == a);
            } else if k > p {
                assert(vs[k - 1] == a);
            }
        }
        if vs.contains(a) {
            let k = choose|k: int| 0 <= k < vs.len() && vs[k] == a;
            if k < p {
                assert(ws[k] == a);
            } else {
                assert(ws[k + 1] == a);
            }
        }
        if a == x {
            assert(ws[p] == x);
        }
    }
    assert(ws.to_set() =~= vs.to_set().insert(x));
}

/// Views an optional command.
pub open spec fn command_view(c: Option<RunCommand>) -> Option<CommandView> {
    match c {
        Some(command) => Some(command@),
        None => None,
    }
}

impl RunState {
    /// Creates an unbound state expecting sequence zero and `run_started`.
    pub fn new() -> (r: Self)
        ensures
            r@ == initial_run(),
            reachable_invariant(r@),
    {
        let r = RunState {
            run_id: None,
            next_seq: 0,
            next_model_step: 0,
            used_turn_ids: Vec::new(),
            used_tool_call_ids: Vec::new(),
            pending_compaction_turn_id: None,
            phase: RunPhase::NotStarted,
        };
        proof {
            assert(r@.used_turn_ids =~= Set::<Seq<char>>::empty());
            assert(r@.used_tool_call_ids =~= Set::<Seq<char>>::empty());
        }
        r
    }

    /// Returns the bound run id, or `None` before `run_started` is applied.
    pub fn run_id(&self) -> (r: Option<&RunId>)
        ensures
            match r {
                Some(id) => self@.run_id == Some(id@),
                None => self@.run_id is None,
            },
    {
        match &self.run_id {
            Some(id) => Some(id),
            None => None,
        }
    }

    /// Returns the next contiguous per-run sequence number.
    pub fn next_seq(&self) -> (r: u64)
        ensures
            r == self@.next_seq,
    {
        self.next_seq
    }

    /// Returns the phase derived from all successfully applied events.
    pub fn phase(&self) -> (r: &RunPhase)
        ensures
            r@ == self@.phase,
    {
        &self.phase
    }

    /// Returns the turn whose compacted context must be built next.
    ///
    /// After an accepted `context_compacted`, [`Self::phase`] remains the
    /// surrounding stable phase and [`Self::pending_command`] returns `None`.
    /// While this returns `Some`, only a matching `context_built` or a terminal
    /// `run_failed` can be accepted; either accepted event clears it.
    pub fn pending_compaction_turn(&self) -> (r: Option<&TurnId>)
        ensures
            match r {
                Some(id) => self@.pending_compaction_turn == Some(id@),
                None => self@.pending_compaction_turn is None,
            },
    {
        match &self.pending_compaction_turn_id {
            Some(id) => Some(id),
            None => None,
        }
    }

    /// Derives the pending host IO command without mutating run state.
    pub fn pending_command(&self) -> (r: Option<RunCommand>)
        ensures
            command_view(r) == self@.phase.command(),
    {
        match &self.phase {
            RunPhase::ReadyToRequestModel { turn_id, step, context } => Some(
                RunCommand::RequestModel {
                    turn_id: turn_id.clone(),
                    step: *step,
                    context: context.clone(),
                },
            ),
            RunPhase::AwaitingApproval { call, reason } => Some(
                RunCommand::AwaitApproval { call_id: call.id.clone(), reason: reason.clone() },
            ),
            RunPhase::ReadyToExecuteTool { call } => Some(
                RunCommand::ExecuteTool { call: call.clone() },
            ),
            _ => None,
        }
    }

    /// Validates and applies one event, advancing the sequence only on success.
    ///
    /// A rejected record leaves the state exactly as it was.
    pub fn apply(&mut self, record: &RecordedEvent) -> (r: Result<(), Error>)
        requires
            apply_fits(old(self)@, record@),
        ensures
            outcome(apply_record(old(self)@, record@), r, old(self)@, final(self)@),
            reachable_invariant(old(self)@) ==> reachable_invariant(final(self)@),
    {
        proof {
            use_type_invariant(&*self);
            if reachable_invariant(self@) {
                law_apply_preserves_invariant(self@, record@);
            }
        }
        if record.seq != self.next_seq {
            return Err(Error::SequenceMismatch { expected: self.next_seq, actual: record.seq });
        }
        match &self.run_id {
            Some(expected) => {
                let actual = record.event.run_id();
                if *actual != *expected {
                    return Err(
                        Error::RunIdMismatch {
                            expected: expected.to_string(),
                            actual: actual.to_string(),
                        },
                    );
                }
            },
            None => {},
        }
        proof {
            lemma_transition_keeps_seq(self@, record@.event);
        }
        self.apply_event(&record.event)?;
        proof {
            use_type_invariant(&*self);
        }
        self.next_seq = self.next_seq + 1;
        Ok(())
    }

    fn apply_event(&mut self, event: &HarnessEvent) -> (r: Result<(), Error>)
        requires
            transition(old(self)@, event@) matches Ok(t) ==> t.next_model_step <= u32::MAX,
        ensures
            outcome(transition(old(self)@, event@), r, old(self)@, final(self)@),
    {
        match &self.pending_compaction_turn_id {
            Some(expected) => match event {
                HarnessEvent::ContextBuilt { turn_id, .. } => {
                    ensure_turn(expected, turn_id)?;
                },
                HarnessEvent::RunFailed { .. } => {},
                _ => {
                    return Err(invalid(&self.phase, event));
                },
            },
            None => {},
        }
        match event {
            HarnessEvent::RunStarted { .. } => self.on_run_started(event),
            HarnessEvent::ContextBuilt { .. } => self.on_context_built(event),
            HarnessEvent::ContextCompacted { .. } => self.on_context_compacted(event),
            HarnessEvent::ModelRequested { .. } => self.on_model_requested(event),
            HarnessEvent::ModelFailed { .. } => self.on_model_failed(event),
            HarnessEvent::ModelResponded { .. } => self.on_model_responded(event),
            HarnessEvent::ToolProposalsRejected { .. } => self.on_proposals_rejected(event),
            HarnessEvent::ToolCallProposed { .. } => self.on_tool_call_proposed(event),
            HarnessEvent::PolicyEvaluated { .. } => self.on_policy_evaluated(event),
            HarnessEvent::ApprovalGranted { .. }
            | HarnessEvent::ApprovalDenied { .. } => self.on_approval(event),
            HarnessEvent::ToolStarted { .. }
            | HarnessEvent::ToolFinished { .. }
            | HarnessEvent::ToolFailed { .. } => self.on_tool_execution(event),
            HarnessEvent::RunFinished { .. }
            | HarnessEvent::RunFailed { .. } => self.on_run_end(event),
        }
    }

    fn on_run_started(&mut self, event: &HarnessEvent) -> (r: Result<(), Error>)
        requires
            event is RunStarted,
        ensures
            outcome(on_event(old(self)@, event@), r, old(self)@, final(self)@),
    {
        proof {
            use_type_invariant(&*self);
        }
        match (&self.phase, event) {
            (RunPhase::NotStarted, HarnessEvent::RunStarted { run_id, .. }) => {
                self.run_id = Some(run_id.clone());
                self.phase = RunPhase::ReadyForContext;
                Ok(())
            },
            _ => Err(invalid(&self.phase, event)),
        }
    }

    fn on_context_built(&mut self, event: &HarnessEvent) -> (r: Result<(), Error>)
        requires
            event is ContextBuilt,
        ensures
            outcome(on_event(old(self)@, event@), r, old(self)@, final(self)@),
    {
        proof {
            use_type_invariant(&*self);
        }
        match event {
            HarnessEvent::ContextBuilt { turn_id, context, .. } => {
                if !self.phase.accepts_context() {
                    return Err(invalid(&self.phase, event));
                }
                self.start_turn(turn_id, context)
            },
            _ => Ok(()),
        }
    }

    fn start_turn(&mut self, turn_id: &TurnId, context: &ContextPack) -> (r: Result<(), Error>)
        ensures
            outcome(start_turn(old(self)@, turn_id@, context@), r, old(self)@, final(self)@),
    {
        proof {
            use_type_invariant(&*self);
        }
        ensure_new_turn(&self.used_turn_ids, turn_id)?;
        context.validate_budget()?;
        let mut used = Vec::new();
        std::mem::swap(&mut used, &mut self.used_turn_ids);
        insert_turn_in_order(&mut used, turn_id.clone());
        self.used_turn_ids = used;
        self.phase = RunPhase::ReadyToRequestModel {
            turn_id: turn_id.clone(),
            step: self.next_model_step,
            context: context.clone(),
        };
        self.pending_compaction_turn_id = None;
        Ok(())
    }

    fn on_context_compacted(&mut self, event: &HarnessEvent) -> (r: Result<(), Error>)
        requires
            event is ContextCompacted,
        ensures
            outcome(on_event(old(self)@, event@), r, old(self)@, final(self)@),
    {
        proof {
            use_type_invariant(&*self);
        }
        match event {
            HarnessEvent::ContextCompacted {
                turn_id,
                dropped_turn_start,
                dropped_turn_end_exclusive,
                ..
            } => {
                if !self.phase.accepts_context() {
                    return Err(invalid(&self.phase, event));
                }
                ensure_compaction_range(*dropped_turn_start, *dropped_turn_end_exclusive)?;
                ensure_new_turn(&self.used_turn_ids, turn_id)?;
                self.pending_compaction_turn_id = Some(turn_id.clone());
                Ok(())
            },
            _ => Ok(()),
        }
    }

    fn on_model_requested(&mut self, event: &HarnessEvent) -> (r: Result<(), Error>)
        requires
            event is ModelRequested,
        ensures
            outcome(on_event(old(self)@, event@), r, old(self)@, final(self)@),
    {
        proof {
            use_type_invariant(&*self);
        }
        match (&self.phase, event) {
            (
                RunPhase::ReadyToRequestModel { turn_id, step, context },
                HarnessEvent::ModelRequested { turn_id: actual_turn, step: actual_step, .. },
            ) => {
                ensure_turn(turn_id, actual_turn)?;
                ensure_step(*step, *actual_step)?;
                let next = RunPhase::AwaitingModelResponse {
                    turn_id: turn_id.clone(),
                    step: *step,
                    context: context.clone(),
                };
                self.phase = next;
                Ok(())
            },
            _ => Err(invalid(&self.phase, event)),
        }
    }

    fn on_model_failed(&mut self, event: &HarnessEvent) -> (r: Result<(), Error>)
        requires
            event is ModelFailed,
        ensures
            outcome(on_event(old(self)@, event@), r, old(self)@, final(self)@),
    {
        proof {
            use_type_invariant(&*self);
        }
        match (&self.phase, event) {
            (
                RunPhase::AwaitingModelResponse { turn_id, step, context },
                HarnessEvent::ModelFailed { turn_id: actual_turn, step: actual_step, .. },
            ) => {
                ensure_turn(turn_id, actual_turn)?;
                ensure_step(*step, *actual_step)?;
                let next = RunPhase::ReadyToRequestModel {
                    turn_id: turn_id.clone(),
                    step: *step,
                    context: context.clone(),
                };
                self.phase = next;
                Ok(())
            },
            _ => Err(invalid(&self.phase, event)),
        }
    }

    fn on_model_responded(&mut self, event: &HarnessEvent) -> (r: Result<(), Error>)
        requires
            event is ModelResponded,
            on_event(old(self)@, event@) matches Ok(t) ==> t.next_model_step <= u32::MAX,
        ensures
            outcome(on_event(old(self)@, event@), r, old(self)@, final(self)@),
    {
        proof {
            use_type_invariant(&*self);
        }
        match (&self.phase, event) {
            (
                RunPhase::AwaitingModelResponse { turn_id, step, .. },
                HarnessEvent::ModelResponded {
                    turn_id: actual_turn,
                    step: actual_step,
                    proposed_calls,
                    ..
                },
            ) => {
                ensure_turn(turn_id, actual_turn)?;
                ensure_step(*step, *actual_step)?;
                let next = if proposed_calls.len() == 0 {
                    RunPhase::TurnConcluded
                } else {
                    RunPhase::AwaitingToolCall {
                        turn_id: turn_id.clone(),
                        proposals: clone_proposals(proposed_calls),
                    }
                };
                self.next_model_step = self.next_model_step + 1;
                self.phase = next;
                Ok(())
            },
            _ => Err(invalid(&self.phase, event)),
        }
    }

    fn on_proposals_rejected(&mut self, event: &HarnessEvent) -> (r: Result<(), Error>)
        requires
            event is ToolProposalsRejected,
        ensures
            outcome(on_event(old(self)@, event@), r, old(self)@, final(self)@),
    {
        proof {
            use_type_invariant(&*self);
        }
        match (&self.phase, event) {
            (
                RunPhase::AwaitingToolCall { turn_id, .. },
                HarnessEvent::ToolProposalsRejected { turn_id: actual_turn, reason, .. },
            ) => {
                ensure_turn(turn_id, actual_turn)?;
                ensure_tool_proposals_rejection_reason(reason.as_str())?;
                self.phase = RunPhase::TurnConcluded;
                Ok(())
            },
            _ => Err(invalid(&self.phase, event)),
        }
    }

    fn on_tool_call_proposed(&mut self, event: &HarnessEvent) -> (r: Result<(), Error>)
        requires
            event is ToolCallProposed,
        ensures
            outcome(on_event(old(self)@, event@), r, old(self)@, final(self)@),
    {
        proof {
            use_type_invariant(&*self);
        }
        match (&self.phase, event) {
            (
                RunPhase::AwaitingToolCall { turn_id, proposals },
                HarnessEvent::ToolCallProposed { turn_id: actual_turn, call, .. },
            ) => {
                ensure_turn(turn_id, actual_turn)?;
                ensure_proposed(proposals, call)?;
                ensure_new_tool_call(&self.used_tool_call_ids, &call.id)?;
                let mut used = Vec::new();
                std::mem::swap(&mut used, &mut self.used_tool_call_ids);
                insert_call_in_order(&mut used, call.id.clone());
                self.used_tool_call_ids = used;
                self.phase = RunPhase::AwaitingPolicy { call: call.clone() };
                Ok(())
            },
            _ => Err(invalid(&self.phase, event)),
        }
    }

    fn on_policy_evaluated(&mut self, event: &HarnessEvent) -> (r: Result<(), Error>)
        requires
            event is PolicyEvaluated,
        ensures
            outcome(on_event(old(self)@, event@), r, old(self)@, final(self)@),
    {
        proof {
            use_type_invariant(&*self);
        }
        match (&self.phase, event) {
            (
                RunPhase::AwaitingPolicy { call },
                HarnessEvent::PolicyEvaluated { call_id, decision, .. },
            ) => {
                ensure_call(&call.id, call_id)?;
                let next = match decision {
                    PolicyDecision::Allow => RunPhase::ReadyToExecuteTool { call: call.clone() },
                    PolicyDecision::RequireApproval { reason } => RunPhase::AwaitingApproval {
                        call: call.clone(),
                        reason: reason.clone(),
                    },
                    PolicyDecision::Deny { reason } => RunPhase::PolicyDenied {
                        call_id: call.id.clone(),
                        reason: reason.clone(),
                    },
                };
                self.phase = next;
                Ok(())
            },
            _ => Err(invalid(&self.phase, event)),
        }
    }

    fn on_approval(&mut self, event: &HarnessEvent) -> (r: Result<(), Error>)
        requires
            event is ApprovalGranted || event is ApprovalDenied,
        ensures
            outcome(on_event(old(self)@, event@), r, old(self)@, final(self)@),
    {
        proof {
            use_type_invariant(&*self);
        }
        match (&self.phase, event) {
            (RunPhase::AwaitingApproval { call, .. }, HarnessEvent::ApprovalGranted { call_id, .. }) => {
                ensure_call(&call.id, call_id)?;
                let next = RunPhase::ReadyToExecuteTool { call: call.clone() };
                self.phase = next;
                Ok(())
            },
            (
                RunPhase::AwaitingApproval { call, .. },
                HarnessEvent::ApprovalDenied { call_id, reason, .. },
            ) => {
                ensure_call(&call.id, call_id)?;
                let next = RunPhase::ApprovalDenied {
                    call_id: call.id.clone(),
                    reason: reason.clone(),
                };
                self.phase = next;
                Ok(())
            },
            _ => Err(invalid(&self.phase, event)),
        }
    }

    fn on_tool_execution(&mut self, event: &HarnessEvent) -> (r: Result<(), Error>)
        requires
            event is ToolStarted || event is ToolFinished || event is ToolFailed,
        ensures
            outcome(on_event(old(self)@, event@), r, old(self)@, final(self)@),
    {
        proof {
            use_type_invariant(&*self);
        }
        match (&self.phase, event) {
            (RunPhase::ReadyToExecuteTool { call }, HarnessEvent::ToolStarted { call_id, .. }) => {
                ensure_call(&call.id, call_id)?;
                let next = RunPhase::ToolRunning { call_id: call.id.clone() };
                self.phase = next;
                Ok(())
            },
            (RunPhase::ToolRunning { call_id }, HarnessEvent::ToolFinished { result, .. }) => {
                ensure_call(call_id, &result.call_id)?;
                self.phase = RunPhase::TurnConcluded;
                Ok(())
            },
            (
                RunPhase::ToolRunning { call_id },
                HarnessEvent::ToolFailed { call_id: actual_call, reason, .. },
            ) => {
                ensure_call(call_id, actual_call)?;
                let next = RunPhase::ToolFailed { call_id: call_id.clone(), reason: reason.clone() };
                self.phase = next;
                Ok(())
            },
            _ => Err(invalid(&self.phase, event)),
        }
    }

    fn on_run_end(&mut self, event: &HarnessEvent) -> (r: Result<(), Error>)
        requires
            event is RunFinished || event is RunFailed,
        ensures
            outcome(on_event(old(self)@, event@), r, old(self)@, final(self)@),
    {
        proof {
            use_type_invariant(&*self);
        }
        match event {
            HarnessEvent::RunFinished { .. } => match &self.phase {
                RunPhase::TurnConcluded => {
                    self.phase = RunPhase::Finished;
                    Ok(())
                },
                _ => Err(invalid(&self.phase, event)),
            },
            HarnessEvent::RunFailed { reason, .. } => {
                if !self.phase.can_fail() {
                    return Err(invalid(&self.phase, event));
                }
                self.pending_compaction_turn_id = None;
                self.phase = RunPhase::Failed { reason: reason.clone() };
                Ok(())
            },
            _ => Ok(()),
        }
    }
}

impl Clone for RunState {
    fn clone(&self) -> (r: Self)
        ensures
            r@ == self@,
    {
        proof {
            use_type_invariant(self);
        }
        let used_turn_ids = self.used_turn_ids.clone();
        let used_tool_call_ids = self.used_tool_call_ids.clone();
        proof {
            assert(used_turn_ids@ =~= self.used_turn_ids@);
            assert(used_tool_call_ids@ =~= self.used_tool_call_ids@);
        }
        RunState {
            run_id: self.run_id.clone(),
            next_seq: self.next_seq,
            next_model_step: self.next_model_step,
            used_turn_ids,
            used_tool_call_ids,
            pending_compaction_turn_id: self.pending_compaction_turn_id.clone(),
            phase: self.phase.clone(),
        }
    }
}

impl Default for RunState {
    fn default() -> (r: Self)
        ensures
            r@ == initial_run(),
    {
        RunState::new()
    }
}

/// A transition never touches the sequence counter; only [`RunState::apply`] advances it.
pub proof fn lemma_transition_keeps_seq(s: RunView, e: EventView)
    ensures
        transition(s, e) matches Ok(t) ==> t.next_seq == s.next_seq,
{
}

/// Replays a ledger from the initial state: the state after every record,
/// or the first rejection.
pub open spec fn replay(records: Seq<RecordedView>) -> Result<RunView, ErrorView>
    decreases records.len(),
{
    if records.len() == 0 {
        Ok(initial_run())
    } else {
        match replay(records.drop_last()) {
            Ok(s) => apply_record(s, records.last()),
            Err(e) => Err(e),
        }
    }
}

/// No accepted prefix of the ledger overflows a counter.
pub open spec fn replay_fits(records: Seq<RecordedView>) -> bool {
    forall|k: int|
        0 <= k <= records.len() ==> (#[trigger] replay(records.take(k)) matches Ok(s) ==> counters_fit(s))
}

/// Once a replay rejects a record, every longer replay of the same ledger
/// reports that same rejection.
pub proof fn lemma_replay_error_persists(records: Seq<RecordedView>, k: int, j: int)
    requires
        0 <= k <= j <= records.len(),
        replay(records.take(k)) is Err,
    ensures
        replay(records.take(j)) == replay(records.take(k)),
    decreases j - k,
{
    if j > k {
        lemma_replay_error_persists(records, k, j - 1);
        assert(records.take(j).drop_last() =~= records.take(j - 1));
    }
}

} // verus!
