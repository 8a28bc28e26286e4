//! Laws of the run state machine: what every accepted or rejected record
//! guarantees, stated over the transition relation that [`RunState::apply`]
//! implements exactly.
//!
//! [`RunState::apply`]: crate::run::RunState::apply

use crate::context::{tokens_total, FragmentView, PackView};
use crate::error::ErrorView;
use crate::event::{EventView, RecordedView};
use crate::json::json_equal;
use crate::projection::{ledger_entries, EntryView};
use crate::policy::PolicyView;
use crate::run::{
    apply_record, counters_fit, initial_run, proposed, rejection, replay, replay_fits, CommandView,
    PhaseView, RunView,
};
use vstd::prelude::*;

verus! {

/// The invariant every state reachable from [`initial_run`] satisfies.
pub open spec fn reachable_invariant(s: RunView) -> bool {
    &&& counters_fit(s)
    &&& (s.run_id is None <==> s.phase is NotStarted)
    &&& s.next_model_step <= s.next_seq
    &&& (s.pending_compaction_turn matches Some(turn) ==> s.phase.accepts_context()
        && !s.used_turn_ids.contains(turn))
    &&& (s.phase matches PhaseView::ReadyToRequestModel { turn_id, step, context } ==> {
        &&& context.within_budget()
        &&& step == s.next_model_step
        &&& s.used_turn_ids.contains(turn_id)
    })
    &&& (s.phase matches PhaseView::AwaitingModelResponse { turn_id, step, context } ==> {
        &&& context.within_budget()
        &&& step == s.next_model_step
        &&& s.used_turn_ids.contains(turn_id)
    })
}

/// A record that carries the run's next sequence number and names its bound
/// run (any run, before one is bound): what happens to it is decided by the
/// transition alone.
pub open spec fn addressed_to(s: RunView, r: RecordedView) -> bool {
    &&& r.seq == s.next_seq
    &&& (s.run_id matches Some(id) ==> id == r.event.run_id())
}

/// The initial state satisfies the reachable-state invariant.
pub proof fn law_initial_state_is_reachable()
    ensures
        reachable_invariant(initial_run()),
{
}

/// Applying any record to a reachable state yields a reachable state, unless
/// the record would overflow a counter (which [`RunState::apply`] refuses to be
/// called for): a requested context always fits its budget, its turn id is
/// recorded as used, and the pending model step is always the run's next step.
///
/// [`RunState::apply`]: crate::run::RunState::apply
pub proof fn law_apply_preserves_invariant(s: RunView, r: RecordedView)
    requires
        reachable_invariant(s),
    ensures
        apply_record(s, r) matches Ok(t) ==> (counters_fit(t) ==> reachable_invariant(t)),
{
    if let Ok(t) = apply_record(s, r) {
        if let EventView::ContextBuilt { turn_id, .. } = r.event {
            assert(t.used_turn_ids.contains(turn_id));
        }
    }
}

/// A record is accepted only with the next contiguous sequence number, and an
/// accepted record advances the sequence by exactly one; a gap or a repeat is
/// rejected with the expected and actual numbers.
pub proof fn law_sequence_is_contiguous(s: RunView, r: RecordedView)
    ensures
        apply_record(s, r) matches Ok(t) ==> r.seq == s.next_seq && t.next_seq == s.next_seq + 1,
        r.seq != s.next_seq ==> apply_record(s, r) == Err::<RunView, crate::error::ErrorView>(
            crate::error::ErrorView::SequenceMismatch { expected: s.next_seq as u64, actual: r.seq },
        ),
{
}

/// Once bound by `run_started`, the run id never changes, and every accepted
/// record names that run.
pub proof fn law_run_id_stays_bound(s: RunView, r: RecordedView)
    requires
        s.run_id is Some,
    ensures
        apply_record(s, r) matches Ok(t) ==> t.run_id == s.run_id && r.event.run_id()
            == s.run_id->0,
{
}

/// A finished or failed run emits no command and rejects every further record.
pub proof fn law_terminal_runs_are_closed(s: RunView, r: RecordedView)
    requires
        s.phase.is_terminal(),
    ensures
        apply_record(s, r) is Err,
        s.phase.command() is None,
        addressed_to(s, r) && s.pending_compaction_turn is None ==> apply_record(s, r)
            == Err::<RunView, ErrorView>(rejection(s.phase, r.event)),
{
}

/// Every started, nonterminal run can be closed by a matching `run_failed`,
/// which clears any pending compaction and leaves no command.
pub proof fn law_run_failed_closes_any_open_run(s: RunView, r: RecordedView)
    requires
        s.phase.can_fail(),
        r.seq == s.next_seq,
        r.event matches EventView::RunFailed { run_id, .. } && s.run_id == Some(run_id),
    ensures
        apply_record(s, r) matches Ok(t) && t.phase == (PhaseView::Failed {
            reason: r.event->RunFailed_reason,
        }) && t.pending_compaction_turn is None && t.phase.command() is None,
{
}

/// A `run_failed` is refused exactly where no run is open: before
/// `run_started` and after the run has finished or failed, with the phase and
/// event named, whatever compaction is pending.
pub proof fn law_run_failed_is_refused_only_without_an_open_run(s: RunView, r: RecordedView)
    requires
        addressed_to(s, r),
        r.event is RunFailed,
    ensures
        apply_record(s, r) is Ok <==> s.phase.can_fail(),
        !s.phase.can_fail() ==> apply_record(s, r) == Err::<RunView, ErrorView>(
            rejection(s.phase, r.event),
        ),
{
}

/// A tool becomes executable only through policy: either policy allowed the
/// call it evaluated, or an actor granted the approval policy asked for. The
/// executable call is the very call that was evaluated.
pub proof fn law_execution_is_policy_gated(s: RunView, r: RecordedView)
    ensures
        apply_record(s, r) matches Ok(t) ==> (t.phase matches PhaseView::ReadyToExecuteTool {
            call,
        } ==> {
            ||| (s.phase == (PhaseView::AwaitingPolicy { call }) && (r.event matches EventView::PolicyEvaluated { decision, .. } && decision == PolicyView::Allow))
            ||| (r.event is ApprovalGranted && (s.phase matches PhaseView::AwaitingApproval { call: pending, .. } && pending == call))
        }),
{
}

/// A policy or approval denial concludes the turn without any command: no
/// tool execution is ever requested for the denied call.
pub proof fn law_denials_emit_no_command(s: RunView)
    requires
        s.phase is PolicyDenied || s.phase is ApprovalDenied || s.phase is ToolFailed,
    ensures
        s.phase.command() is None,
        s.phase.accepts_context(),
{
}

/// In a reachable state, any model request the run asks for carries context
/// that passed budget validation.
pub proof fn law_requested_context_fits_budget(s: RunView)
    requires
        reachable_invariant(s),
    ensures
        s.phase.command() matches Some(CommandView::RequestModel { context, .. }) ==> context.within_budget(),
{
}

/// Turn ids are never reused: an accepted `context_built` or
/// `context_compacted` names a turn no earlier context used, only
/// `context_built` records a turn as used, and used turns are never forgotten.
pub proof fn law_turn_ids_are_fresh(s: RunView, r: RecordedView)
    ensures
        apply_record(s, r) matches Ok(t) ==> {
            &&& (r.event matches EventView::ContextBuilt { turn_id, .. } ==> !s.used_turn_ids.contains(turn_id) && t.used_turn_ids == s.used_turn_ids.insert(turn_id))
            &&& (r.event matches EventView::ContextCompacted { turn_id, .. } ==> !s.used_turn_ids.contains(turn_id))
            &&& (!(r.event is ContextBuilt) ==> t.used_turn_ids == s.used_turn_ids)
        },
{
}

/// Tool call ids are never reused across the run: an accepted validated call
/// carries an id no earlier call used, and it is then recorded as used.
pub proof fn law_tool_call_ids_are_fresh(s: RunView, r: RecordedView)
    ensures
        apply_record(s, r) matches Ok(t) ==> {
            &&& (r.event matches EventView::ToolCallProposed { call, .. } ==> !s.used_tool_call_ids.contains(call.id) && t.used_tool_call_ids == s.used_tool_call_ids.insert(call.id))
            &&& (!(r.event is ToolCallProposed) ==> t.used_tool_call_ids == s.used_tool_call_ids)
        },
{
}

/// Each turn consumes at most one validated call: a call is accepted only while
/// the turn awaits one, only if the model proposed its tool and input, and it
/// moves the run on to policy evaluation.
pub proof fn law_one_validated_call_per_turn(s: RunView, r: RecordedView)
    ensures
        apply_record(s, r) matches Ok(t) ==> (r.event matches EventView::ToolCallProposed { call, .. } ==> {
            &&& s.phase matches PhaseView::AwaitingToolCall { proposals, .. } && proposed(proposals, call)
            &&& t.phase == (PhaseView::AwaitingPolicy { call })
        }),
{
}

/// The model step advances by one on an accepted `model_responded` and on
/// nothing else.
pub proof fn law_model_step_advances_only_on_response(s: RunView, r: RecordedView)
    ensures
        apply_record(s, r) matches Ok(t) ==> t.next_model_step == if r.event is ModelResponded {
            s.next_model_step + 1
        } else {
            s.next_model_step
        },
{
}

/// An accepted `context_built` starts its turn at the run's next model step,
/// asking for a model request with exactly the built context.
pub proof fn law_context_starts_the_turn_at_the_next_step(s: RunView, r: RecordedView)
    requires
        r.event is ContextBuilt,
    ensures
        apply_record(s, r) matches Ok(t) ==> t.phase == (PhaseView::ReadyToRequestModel {
            turn_id: r.event->ContextBuilt_turn_id,
            step: s.next_model_step as u32,
            context: r.event->ContextBuilt_context,
        }),
{
}

/// The number of `model_responded` records in a ledger.
pub open spec fn response_count(records: Seq<RecordedView>) -> nat
    decreases records.len(),
{
    if records.len() == 0 {
        0
    } else {
        response_count(records.drop_last()) + if records.last().event is ModelResponded {
            1nat
        } else {
            0nat
        }
    }
}

/// The model step of a replayed run is the number of model responses it has
/// accepted: it runs on across turns, never restarts with a turn, and a failed
/// request does not count.
pub proof fn law_model_step_counts_responses(records: Seq<RecordedView>)
    ensures
        replay(records) matches Ok(s) ==> s.next_model_step == response_count(records),
    decreases records.len(),
{
    if records.len() > 0 {
        law_model_step_counts_responses(records.drop_last());
        if let Ok(s) = replay(records.drop_last()) {
            law_model_step_advances_only_on_response(s, records.last());
        }
    }
}

/// A model response must name the awaited turn, then the awaited step; an
/// accepted one concludes the turn when it proposes nothing, otherwise awaits
/// a call among its proposals, and in either case advances the model step.
pub proof fn law_model_response_checks_turn_then_step(s: RunView, r: RecordedView)
    requires
        addressed_to(s, r),
        s.pending_compaction_turn is None,
        s.phase is AwaitingModelResponse,
        r.event is ModelResponded,
    ensures
        ({
            let expected_turn = s.phase->AwaitingModelResponse_turn_id;
            let expected_step = s.phase->AwaitingModelResponse_step;
            let actual_turn = r.event->ModelResponded_turn_id;
            let actual_step = r.event->ModelResponded_step;
            let proposals = r.event->ModelResponded_proposed_calls;
            if actual_turn != expected_turn {
                apply_record(s, r) == Err::<RunView, ErrorView>(
                    ErrorView::TurnMismatch { expected: expected_turn, actual: actual_turn },
                )
            } else if actual_step != expected_step {
                apply_record(s, r) == Err::<RunView, ErrorView>(
                    ErrorView::StepMismatch { expected: expected_step, actual: actual_step },
                )
            } else {
                apply_record(s, r) matches Ok(t) && t.next_model_step == s.next_model_step + 1
                    && t.phase == if proposals.len() == 0 {
                    PhaseView::TurnConcluded
                } else {
                    PhaseView::AwaitingToolCall { turn_id: expected_turn, proposals }
                }
            }
        }),
{
}

/// A validated call must name the turn awaiting it, then match one of the
/// model's proposals, then carry an id the run has not used; an accepted call
/// awaits policy and its id is recorded as used.
pub proof fn law_tool_call_checks_turn_proposal_then_freshness(s: RunView, r: RecordedView)
    requires
        addressed_to(s, r),
        s.pending_compaction_turn is None,
        s.phase is AwaitingToolCall,
        r.event is ToolCallProposed,
    ensures
        ({
            let expected_turn = s.phase->AwaitingToolCall_turn_id;
            let proposals = s.phase->AwaitingToolCall_proposals;
            let actual_turn = r.event->ToolCallProposed_turn_id;
            let call = r.event->ToolCallProposed_call;
            if actual_turn != expected_turn {
                apply_record(s, r) == Err::<RunView, ErrorView>(
                    ErrorView::TurnMismatch { expected: expected_turn, actual: actual_turn },
                )
            } else if !proposed(proposals, call) {
                apply_record(s, r) == Err::<RunView, ErrorView>(ErrorView::UnproposedToolCall)
            } else if s.used_tool_call_ids.contains(call.id) {
                apply_record(s, r) == Err::<RunView, ErrorView>(
                    ErrorView::ToolCallReused { call_id: call.id },
                )
            } else {
                apply_record(s, r) matches Ok(t) && t.phase == (PhaseView::AwaitingPolicy { call })
                    && t.used_tool_call_ids == s.used_tool_call_ids.insert(call.id)
            }
        }),
{
}

/// A policy decision must name the call awaiting it; an accepted one leads to
/// execution, to an approval request with the policy's reason, or to a denial
/// with its reason.
pub proof fn law_policy_decision_picks_the_next_phase(s: RunView, r: RecordedView)
    requires
        addressed_to(s, r),
        s.pending_compaction_turn is None,
        s.phase is AwaitingPolicy,
        r.event is PolicyEvaluated,
    ensures
        ({
            let call = s.phase->AwaitingPolicy_call;
            let call_id = r.event->PolicyEvaluated_call_id;
            if call_id != call.id {
                apply_record(s, r) == Err::<RunView, ErrorView>(
                    ErrorView::ToolCallMismatch { expected: call.id, actual: call_id },
                )
            } else {
                apply_record(s, r) matches Ok(t) && t.phase == match r.event->PolicyEvaluated_decision {
                    PolicyView::Allow => PhaseView::ReadyToExecuteTool { call },
                    PolicyView::RequireApproval { reason } => PhaseView::AwaitingApproval {
                        call,
                        reason,
                    },
                    PolicyView::Deny { reason } => PhaseView::PolicyDenied {
                        call_id: call.id,
                        reason,
                    },
                }
            }
        }),
{
}

/// A model failure undoes the model request: after a request and its failure
/// the run is in the same phase as before the request and asks for the
/// identical model request, with the same turn, step and context.
pub proof fn law_model_failure_restores_the_request(
    s0: RunView,
    request: RecordedView,
    failure: RecordedView,
)
    requires
        request.event is ModelRequested,
        failure.event is ModelFailed,
        apply_record(s0, request) is Ok,
        apply_record(apply_record(s0, request)->Ok_0, failure) is Ok,
    ensures
        ({
            let s2 = apply_record(apply_record(s0, request)->Ok_0, failure)->Ok_0;
            &&& s2.phase == s0.phase
            &&& s2.phase.command() == s0.phase.command()
            &&& s2.next_model_step == s0.next_model_step
            &&& s2.next_seq == s0.next_seq + 2
            &&& s2 == RunView { next_seq: s0.next_seq + 2, ..s0 }
        }),
{
}

/// What the provider reports beside the proposals (the message text, the
/// served model identity, token usage) never affects run transitions.
pub proof fn law_response_metadata_does_not_change_state(
    s: RunView,
    r1: RecordedView,
    r2: RecordedView,
)
    requires
        r1.seq == r2.seq,
        r1.event matches EventView::ModelResponded { run_id, turn_id, step, proposed_calls, .. }
            && r2.event matches EventView::ModelResponded {
            run_id: run_id2,
            turn_id: turn_id2,
            step: step2,
            proposed_calls: proposed_calls2,
            ..
        } && run_id == run_id2 && turn_id == turn_id2 && step == step2 && proposed_calls
            == proposed_calls2,
    ensures
        apply_record(s, r1) == apply_record(s, r2),
{
}

/// The core never reads clocks: the host-supplied timestamp of a record has no
/// effect on whether or how it is applied.
pub proof fn law_timestamps_do_not_matter(s: RunView, r1: RecordedView, r2: RecordedView)
    requires
        r1.seq == r2.seq,
        r1.event == r2.event,
    ensures
        apply_record(s, r1) == apply_record(s, r2),
{
}

/// An accepted compaction leaves the phase (and so the pending command)
/// untouched and only records the turn whose context must come next.
pub proof fn law_compaction_keeps_phase(s: RunView, r: RecordedView)
    requires
        r.event is ContextCompacted,
    ensures
        apply_record(s, r) matches Ok(t) ==> {
            &&& t.phase == s.phase
            &&& t.phase.command() is None
            &&& t.pending_compaction_turn == Some(r.event->ContextCompacted_turn_id)
        },
{
}

/// While a compaction is pending, only the matching `context_built` or a
/// `run_failed` is accepted, and either clears the pending turn.
pub proof fn law_pending_compaction_gates_the_next_record(s: RunView, r: RecordedView)
    requires
        s.pending_compaction_turn is Some,
    ensures
        apply_record(s, r) matches Ok(t) ==> {
            &&& (r.event matches EventView::ContextBuilt { turn_id, .. } && turn_id == s.pending_compaction_turn->0) || r.event is RunFailed
            &&& t.pending_compaction_turn is None
        },
        addressed_to(s, r) && r.event is ContextBuilt && r.event->ContextBuilt_turn_id
            != s.pending_compaction_turn->0 ==> apply_record(s, r) == Err::<RunView, ErrorView>(
            ErrorView::TurnMismatch {
                expected: s.pending_compaction_turn->0,
                actual: r.event->ContextBuilt_turn_id,
            },
        ),
        addressed_to(s, r) && !(r.event is ContextBuilt) && !(r.event is RunFailed) ==> apply_record(
            s,
            r,
        ) == Err::<RunView, ErrorView>(rejection(s.phase, r.event)),
{
}

/// In every phase that accepts context, a compaction for a fresh turn with a
/// non-empty dropped range is accepted and keeps the phase; the matching
/// context, once within budget, is then accepted and starts that turn at the
/// run's next model step.
pub proof fn law_compaction_then_matching_context_starts_the_turn(
    s: RunView,
    compaction: RecordedView,
    built: RecordedView,
)
    requires
        s.pending_compaction_turn is None,
        s.phase.accepts_context(),
        addressed_to(s, compaction),
        compaction.event matches EventView::ContextCompacted {
            turn_id,
            dropped_turn_start,
            dropped_turn_end_exclusive,
            ..
        } && dropped_turn_start < dropped_turn_end_exclusive && !s.used_turn_ids.contains(turn_id),
        built.seq == s.next_seq + 1,
        built.event.run_id() == compaction.event.run_id(),
        built.event matches EventView::ContextBuilt { turn_id, context, .. } && turn_id
            == compaction.event->ContextCompacted_turn_id && context.within_budget(),
    ensures
        apply_record(s, compaction) matches Ok(t) && {
            &&& t.phase == s.phase
            &&& t.phase.command() is None
            &&& t.pending_compaction_turn == Some(compaction.event->ContextCompacted_turn_id)
            &&& apply_record(t, built) matches Ok(u) && u.pending_compaction_turn is None
                && u.phase == (PhaseView::ReadyToRequestModel {
                turn_id: built.event->ContextBuilt_turn_id,
                step: s.next_model_step as u32,
                context: built.event->ContextBuilt_context,
            })
        },
{
}

/// Every state a replay reaches satisfies the reachable-state invariant, so
/// the laws stated for reachable states hold of every replayed ledger.
pub proof fn law_replay_reaches_only_reachable_states(records: Seq<RecordedView>)
    requires
        replay_fits(records),
    ensures
        replay(records) matches Ok(s) ==> reachable_invariant(s),
    decreases records.len(),
{
    if records.len() > 0 {
        let prefix = records.drop_last();
        assert(replay_fits(prefix)) by {
            assert forall|k: int| 0 <= k <= prefix.len() implies (#[trigger] replay(prefix.take(k)) matches Ok(s) ==> counters_fit(s)) by {
                assert(prefix.take(k) =~= records.take(k));
            }
        }
        law_replay_reaches_only_reachable_states(prefix);
        assert(records.take(records.len() as int) =~= records);
        if let Ok(s) = replay(prefix) {
            law_apply_preserves_invariant(s, records.last());
        }
    }
}

/// A rejected ledger is rejected at its first bad record: the replay's error is
/// exactly what that record's application answers in the state every earlier
/// record produced.
pub proof fn law_replay_reports_the_first_rejection(records: Seq<RecordedView>)
    ensures
        replay(records) matches Err(e) ==> exists|k: int|
            0 <= k < records.len() && (#[trigger] replay(records.take(k)) matches Ok(s)
                && apply_record(s, records[k]) == Err::<RunView, crate::error::ErrorView>(e)),
    decreases records.len(),
{
    if records.len() > 0 {
        let prefix = records.drop_last();
        law_replay_reports_the_first_rejection(prefix);
        let last = records.len() - 1;
        assert(records.take(last) =~= prefix);
        if let Err(e) = replay(records) {
            match replay(prefix) {
                Ok(s) => {
                    assert(replay(records.take(last)) matches Ok(s) && apply_record(s, records[last]) == Err::<RunView, crate::error::ErrorView>(e));
                },
                Err(_) => {
                    let k = choose|k: int|
                        0 <= k < prefix.len() && (#[trigger] replay(prefix.take(k)) matches Ok(s)
                            && apply_record(s, prefix[k]) == Err::<RunView, crate::error::ErrorView>(e));
                    assert(prefix.take(k) =~= records.take(k));
                    assert(replay(records.take(k)) matches Ok(s) && apply_record(s, records[k]) == Err::<RunView, crate::error::ErrorView>(e));
                },
            }
        }
    }
}

/// A replay that accepts every record has counted each record once, and has
/// advanced the model step at most once per record.
pub proof fn law_replay_counts_records(records: Seq<RecordedView>)
    ensures
        replay(records) matches Ok(s) ==> s.next_seq == records.len() && s.next_model_step
            <= s.next_seq,
    decreases records.len(),
{
    if records.len() > 0 {
        law_replay_counts_records(records.drop_last());
    }
}

/// Any ledger of at most `u32::MAX` records replays without overflowing a
/// counter, so [`RunReadback::from_events`] may be called on it.
///
/// [`RunReadback::from_events`]: crate::projection::RunReadback::from_events
pub proof fn law_short_ledgers_fit(records: Seq<RecordedView>)
    requires
        records.len() <= u32::MAX,
    ensures
        replay_fits(records),
{
    assert forall|k: int| 0 <= k <= records.len() implies (#[trigger] replay(records.take(k)) matches Ok(s) ==> counters_fit(s)) by {
        law_replay_counts_records(records.take(k));
    }
}

/// A run finishes only from a concluded turn: an accepted `run_finished` was
/// applied in phase `TurnConcluded` and leaves the run `Finished`. A denied or
/// failed tool call concludes the turn without finishing the run: there a
/// `run_finished` is refused as an invalid transition naming the phase.
pub proof fn law_run_finishes_only_from_a_concluded_turn(s: RunView, r: RecordedView)
    requires
        r.event is RunFinished,
    ensures
        apply_record(s, r) matches Ok(t) ==> s.phase == PhaseView::TurnConcluded && t.phase
            == PhaseView::Finished,
        addressed_to(s, r) && s.pending_compaction_turn is None && (s.phase is PolicyDenied
            || s.phase is ApprovalDenied || s.phase is ToolFailed) ==> apply_record(s, r) == Err::<
            RunView,
            ErrorView,
        >(ErrorView::InvalidTransition { phase: s.phase.name(), event: "run_finished"@ }),
{
    reveal_strlit("run_finished");
}

/// A validated call is accepted only if the turn's model proposed the same
/// tool with a JSON-equal input; when no proposal has both, the call is
/// refused as unproposed.
pub proof fn law_accepted_call_matches_a_proposal_tool_and_input(s: RunView, r: RecordedView)
    requires
        r.event is ToolCallProposed,
    ensures
        apply_record(s, r) matches Ok(t) ==> (s.phase matches PhaseView::AwaitingToolCall {
            proposals,
            ..
        } && exists|i: int|
            0 <= i < proposals.len() && #[trigger] proposals[i].tool
                == r.event->ToolCallProposed_call.tool && json_equal(
                proposals[i].input,
                r.event->ToolCallProposed_call.input,
            )),
        addressed_to(s, r) && s.pending_compaction_turn is None && (s.phase matches PhaseView::AwaitingToolCall {
            turn_id,
            proposals,
        } && turn_id == r.event->ToolCallProposed_turn_id && forall|i: int|
            0 <= i < proposals.len() ==> !(#[trigger] proposals[i].tool
                == r.event->ToolCallProposed_call.tool && json_equal(
                proposals[i].input,
                r.event->ToolCallProposed_call.input,
            ))) ==> apply_record(s, r) == Err::<RunView, ErrorView>(ErrorView::UnproposedToolCall),
{
}

/// Only three phases ask the host for work: a model request only when context
/// is ready, an approval request only while approval is awaited, and a tool
/// execution only once policy (or an approver) let the call through. In every
/// other phase, awaiting policy included, there is no command.
pub proof fn law_commands_come_only_from_ready_phases(p: PhaseView)
    ensures
        p.command() is Some <==> (p is ReadyToRequestModel || p is AwaitingApproval
            || p is ReadyToExecuteTool),
        p is AwaitingPolicy ==> p.command() is None,
        p.command() matches Some(CommandView::ExecuteTool { call }) ==> p == (
        PhaseView::ReadyToExecuteTool { call }),
        p.command() matches Some(CommandView::RequestModel { turn_id, step, context }) ==> p == (
        PhaseView::ReadyToRequestModel { turn_id, step, context }),
        p.command() matches Some(CommandView::AwaitApproval { call_id, reason }) ==> (
        p matches PhaseView::AwaitingApproval { call, reason: r } && call.id == call_id && r
            == reason),
{
}

/// The token total of a pack is the plain sum of every fragment's estimate,
/// whatever its lane: nothing for no fragment, and each added fragment adds
/// exactly its own estimate.
pub proof fn law_every_fragment_counts_toward_the_total(fragments: Seq<FragmentView>, f: FragmentView)
    ensures
        tokens_total(Seq::<FragmentView>::empty()) == 0,
        tokens_total(fragments.push(f)) == tokens_total(fragments) + f.estimated_tokens,
{
    assert(fragments.push(f).drop_last() =~= fragments);
}

/// A pack whose fragment estimates sum above its budget fails validation,
/// reporting the sum (capped at `u32::MAX`) and the budget; one within budget
/// passes.
pub proof fn law_pack_over_budget_is_rejected(p: PackView)
    ensures
        tokens_total(p.fragments) > p.token_budget ==> !p.within_budget() && p.budget_check()
            == Err::<(), ErrorView>(
            ErrorView::ContextBudgetExceeded {
                used: if tokens_total(p.fragments) > u32::MAX {
                    u32::MAX
                } else {
                    tokens_total(p.fragments) as u32
                },
                budget: p.token_budget,
            },
        ),
        tokens_total(p.fragments) <= p.token_budget ==> p.within_budget() && p.budget_check()
            == Ok::<(), ErrorView>(()),
{
}

/// An accepted `context_built` reads back one context-fragment entry per
/// fragment of its context, in fragment order, after the entries of the
/// earlier records.
pub proof fn law_built_context_reads_back_every_fragment(records: Seq<RecordedView>, r: RecordedView)
    requires
        r.event is ContextBuilt,
    ensures
        ({
            let before = ledger_entries(records);
            let after = ledger_entries(records.push(r));
            let fragments = r.event->ContextBuilt_context.fragments;
            &&& after.len() == before.len() + fragments.len()
            &&& after.subrange(0, before.len() as int) == before
            &&& forall|k: int|
                0 <= k < fragments.len() ==> #[trigger] after[before.len() + k] == (
                EntryView::ContextFragment {
                    turn_id: r.event->ContextBuilt_turn_id,
                    fragment: fragments[k],
                })
        }),
{
    assert(records.push(r).drop_last() =~= records);
    assert(ledger_entries(records.push(r)).subrange(0, ledger_entries(records).len() as int)
        =~= ledger_entries(records));
}

} // verus!
