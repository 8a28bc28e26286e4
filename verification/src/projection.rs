//! Pure readback projections derived from recorded run events.

use crate::context::{ContextFragment, FragmentView};
use crate::error::Error;
use crate::event::{model_name_view, EventView, HarnessEvent, RecordedEvent, RecordedView};
use crate::ids::{ActorId, ModelName, ToolCallId, TurnId};
use crate::message::{Message, MessageView};
use crate::policy::{PolicyDecision, PolicyView};
use crate::run::{
    lemma_replay_error_persists, replay, replay_fits, PhaseView, RunPhase, RunState,
};
use crate::tool::{CallView, ResultView, ToolCall, ToolResult};
use vstd::prelude::*;

verus! {

/// Replay-validated readback for one run ledger.
#[derive(Debug, PartialEq)]
pub struct RunReadback {
    /// Chronological entries useful for replay output.
    pub entries: Vec<ReadbackEntry>,
    /// Final run phase after replaying all events.
    pub final_phase: RunPhase,
    /// Next expected sequence number after replay.
    pub next_seq: u64,
}

/// One deterministic readback entry projected from the ledger.
#[derive(Debug, PartialEq)]
pub enum ReadbackEntry {
    /// One host-built context fragment that entered a model turn.
    ContextFragment {
        /// Turn whose context held the fragment.
        turn_id: TurnId,
        /// The fragment as built.
        fragment: ContextFragment,
    },
    /// Model request that returned no response.
    ModelFailed {
        /// Turn of the failed request.
        turn_id: TurnId,
        /// Model step of the failed request.
        step: u32,
        /// Host-reported failure reason.
        reason: String,
    },
    /// Model response message.
    ModelMessage {
        /// Turn the model answered.
        turn_id: TurnId,
        /// The model-authored message.
        message: Message,
        /// Provider-reported identity of the model that served the response,
        /// when the provider reported one.
        served_model: Option<ModelName>,
    },
    /// The host rejected the whole proposal batch of a turn.
    ToolProposalsRejected {
        /// Turn whose proposals were rejected.
        turn_id: TurnId,
        /// Rejection reason.
        reason: String,
    },
    /// Host-validated tool call consumed for a turn.
    ToolCall {
        /// Turn that consumed the call.
        turn_id: TurnId,
        /// The validated call.
        call: ToolCall,
    },
    /// Structured tool result.
    ToolResult {
        /// The result, with its visibility metadata.
        result: ToolResult,
    },
    /// Policy denied a tool call before execution.
    PolicyDenied {
        /// Denied call.
        call_id: ToolCallId,
        /// Policy explanation.
        reason: String,
    },
    /// An actor granted a pending approval.
    ApprovalGranted {
        /// Approved call.
        call_id: ToolCallId,
        /// Actor that granted approval.
        actor_id: ActorId,
    },
    /// Approval denied a tool call before execution.
    ApprovalDenied {
        /// Denied call.
        call_id: ToolCallId,
        /// Actor that denied approval.
        actor_id: ActorId,
        /// Denial reason.
        reason: String,
    },
    /// Tool execution failed.
    ToolFailed {
        /// Failed call.
        call_id: ToolCallId,
        /// Host-reported failure reason.
        reason: String,
    },
}

/// Spec view of a [`ReadbackEntry`].
#[allow(inconsistent_fields)]
pub enum EntryView {
    ContextFragment { turn_id: Seq<char>, fragment: FragmentView },
    ModelFailed { turn_id: Seq<char>, step: u32, reason: Seq<char> },
    ModelMessage { turn_id: Seq<char>, message: MessageView, served_model: Option<Seq<char>> },
    ToolProposalsRejected { turn_id: Seq<char>, reason: Seq<char> },
    ToolCall { turn_id: Seq<char>, call: CallView },
    ToolResult { result: ResultView },
    PolicyDenied { call_id: Seq<char>, reason: Seq<char> },
    ApprovalGranted { call_id: Seq<char>, actor_id: Seq<char> },
    ApprovalDenied { call_id: Seq<char>, actor_id: Seq<char>, reason: Seq<char> },
    ToolFailed { call_id: Seq<char>, reason: Seq<char> },
}

/// Spec view of a [`RunReadback`].
pub struct ReadbackView {
    pub entries: Seq<EntryView>,
    pub final_phase: PhaseView,
    pub next_seq: u64,
}

impl View for ReadbackEntry {
    type V = EntryView;

    open spec fn view(&self) -> EntryView {
        match self {
            ReadbackEntry::ContextFragment { turn_id, fragment } => EntryView::ContextFragment {
                turn_id: turn_id@,
                fragment: fragment@,
            },
            ReadbackEntry::ModelFailed { turn_id, step, reason } => EntryView::ModelFailed {
                turn_id: turn_id@,
                step: *step,
                reason: reason@,
            },
            ReadbackEntry::ModelMessage { turn_id, message, served_model } =>
                EntryView::ModelMessage {
                    turn_id: turn_id@,
                    message: message@,
                    served_model: model_name_view(*served_model),
                },
            ReadbackEntry::ToolProposalsRejected { turn_id, reason } =>
                EntryView::ToolProposalsRejected { turn_id: turn_id@, reason: reason@ },
            ReadbackEntry::ToolCall { turn_id, call } => EntryView::ToolCall {
                turn_id: turn_id@,
                call: call@,
            },
            ReadbackEntry::ToolResult { result } => EntryView::ToolResult { result: result@ },
            ReadbackEntry::PolicyDenied { call_id, reason } => EntryView::PolicyDenied {
                call_id: call_id@,
                reason: reason@,
            },
            ReadbackEntry::ApprovalGranted { call_id, actor_id } => EntryView::ApprovalGranted {
                call_id: call_id@,
                actor_id: actor_id@,
            },
            ReadbackEntry::ApprovalDenied { call_id, actor_id, reason } =>
                EntryView::ApprovalDenied {
                    call_id: call_id@,
                    actor_id: actor_id@,
                    reason: reason@,
                },
            ReadbackEntry::ToolFailed { call_id, reason } => EntryView::ToolFailed {
                call_id: call_id@,
                reason: reason@,
            },
        }
    }
}

impl View for RunReadback {
    type V = ReadbackView;

    open spec fn view(&self) -> ReadbackView {
        ReadbackView {
            entries: self.entries@.map_values(|e: ReadbackEntry| e@),
            final_phase: self.final_phase@,
            next_seq: self.next_seq,
        }
    }
}

/// The readback entries one event contributes, in order.
pub open spec fn event_entries(e: EventView) -> Seq<EntryView> {
    match e {
        EventView::ContextBuilt { turn_id, context, .. } => context.fragments.map_values(
            |f: FragmentView| EntryView::ContextFragment { turn_id, fragment: f },
        ),
        EventView::ModelFailed { turn_id, step, reason, .. } => seq![
            EntryView::ModelFailed { turn_id, step, reason },
        ],
        EventView::ModelResponded { turn_id, output, served_model, .. } => seq![
            EntryView::ModelMessage { turn_id, message: output, served_model },
        ],
        EventView::ToolProposalsRejected { turn_id, reason, .. } => seq![
            EntryView::ToolProposalsRejected { turn_id, reason },
        ],
        EventView::ToolCallProposed { turn_id, call, .. } => seq![
            EntryView::ToolCall { turn_id, call },
        ],
        EventView::ToolFinished { result, .. } => seq![EntryView::ToolResult { result }],
        EventView::PolicyEvaluated { call_id, decision, .. } => match decision {
            PolicyView::Deny { reason } => seq![EntryView::PolicyDenied { call_id, reason }],
            _ => Seq::empty(),
        },
        EventView::ApprovalGranted { call_id, actor_id, .. } => seq![
            EntryView::ApprovalGranted { call_id, actor_id },
        ],
        EventView::ApprovalDenied { call_id, actor_id, reason, .. } => seq![
            EntryView::ApprovalDenied { call_id, actor_id, reason },
        ],
        EventView::ToolFailed { call_id, reason, .. } => seq![
            EntryView::ToolFailed { call_id, reason },
        ],
        _ => Seq::empty(),
    }
}

/// The readback entries of a whole ledger, in record order.
pub open spec fn ledger_entries(records: Seq<RecordedView>) -> Seq<EntryView>
    decreases records.len(),
{
    if records.len() == 0 {
        Seq::empty()
    } else {
        ledger_entries(records.drop_last()) + event_entries(records.last().event)
    }
}

/// Views a slice of records.
pub open spec fn records_view(events: Seq<RecordedEvent>) -> Seq<RecordedView> {
    events.map_values(|r: RecordedEvent| r@)
}

/// Appends the entries `event` contributes to `entries`.
fn collect_entry(event: &HarnessEvent, entries: &mut Vec<ReadbackEntry>)
    ensures
        final(entries)@.map_values(|e: ReadbackEntry| e@) == old(entries)@.map_values(
            |e: ReadbackEntry| e@,
        ) + event_entries(event@),
{
    let ghost before = old(entries)@.map_values(|e: ReadbackEntry| e@);
    match event {
        HarnessEvent::ContextBuilt { turn_id, context, .. } => {
            let ghost frags = context@.fragments;
            let ghost expected = event_entries(event@);
            let mut i: usize = 0;
            while i < context.fragments.len()
                invariant
                    frags == context@.fragments,
                    frags.len() == context.fragments@.len(),
                    expected == frags.map_values(
                        |f: FragmentView| EntryView::ContextFragment { turn_id: turn_id@, fragment: f },
                    ),
                    i <= context.fragments.len(),
                    entries@.map_values(|e: ReadbackEntry| e@) =~= before + expected.take(i as int),
                decreases context.fragments.len() - i,
            {
                let entry = ReadbackEntry::ContextFragment {
                    turn_id: turn_id.clone(),
                    fragment: context.fragments[i].clone(),
                };
                let ghost prev = entries@;
                assert(entry@ == expected[i as int]);
                entries.push(entry);
                proof {
                    assert(expected.take(i + 1) =~= expected.take(i as int).push(expected[i as int]));
                    assert(entries@.map_values(|e: ReadbackEntry| e@) =~= prev.map_values(
                        |e: ReadbackEntry| e@,
                    ).push(expected[i as int]));
                }
                i = i + 1;
            }
            proof {
                assert(expected.take(i as int) =~= expected);
            }
        },
        HarnessEvent::ModelFailed { turn_id, step, reason, .. } => {
            entries.push(
                ReadbackEntry::ModelFailed {
                    turn_id: turn_id.clone(),
                    step: *step,
                    reason: reason.clone(),
                },
            );
        },
        HarnessEvent::ModelResponded { turn_id, output, served_model, .. } => {
            entries.push(
                ReadbackEntry::ModelMessage {
                    turn_id: turn_id.clone(),
                    message: output.clone(),
                    served_model: served_model.clone(),
                },
            );
        },
        HarnessEvent::ToolProposalsRejected { turn_id, reason, .. } => {
            entries.push(
                ReadbackEntry::ToolProposalsRejected {
                    turn_id: turn_id.clone(),
                    reason: reason.clone(),
                },
            );
        },
        HarnessEvent::ToolCallProposed { turn_id, call, .. } => {
            entries.push(ReadbackEntry::ToolCall { turn_id: turn_id.clone(), call: call.clone() });
        },
        HarnessEvent::ToolFinished { result, .. } => {
            entries.push(ReadbackEntry::ToolResult { result: result.clone() });
        },
        HarnessEvent::PolicyEvaluated { call_id, decision: PolicyDecision::Deny { reason }, .. } => {
            entries.push(
                ReadbackEntry::PolicyDenied { call_id: call_id.clone(), reason: reason.clone() },
            );
        },
        HarnessEvent::ApprovalGranted { call_id, actor_id, .. } => {
            entries.push(
                ReadbackEntry::ApprovalGranted {
                    call_id: call_id.clone(),
                    actor_id: actor_id.clone(),
                },
            );
        },
        HarnessEvent::ApprovalDenied { call_id, actor_id, reason, .. } => {
            entries.push(
                ReadbackEntry::ApprovalDenied {
                    call_id: call_id.clone(),
                    actor_id: actor_id.clone(),
                    reason: reason.clone(),
                },
            );
        },
        HarnessEvent::ToolFailed { call_id, reason, .. } => {
            entries.push(
                ReadbackEntry::ToolFailed { call_id: call_id.clone(), reason: reason.clone() },
            );
        },
        _ => {},
    }
    proof {
        assert(entries@.map_values(|e: ReadbackEntry| e@) =~= before + event_entries(event@));
    }
}

impl RunReadback {
    /// Builds a readback by replay-validating the recorded events.
    ///
    /// An invalid ledger yields the first rejection, never a partial readback.
    pub fn from_events(events: &[RecordedEvent]) -> (r: Result<Self, Error>)
        requires
            replay_fits(records_view(events@)),
        ensures
            match replay(records_view(events@)) {
                Ok(s) => r matches Ok(readback) && readback@.entries == ledger_entries(
                    records_view(events@),
                ) && readback@.final_phase == s.phase && readback@.next_seq == s.next_seq,
                Err(e) => r matches Err(x) && x@ == e,
            },
    {
        let ghost records = records_view(events@);
        let mut state = RunState::new();
        let mut entries: Vec<ReadbackEntry> = Vec::new();
        let mut i: usize = 0;
        proof {
            assert(records.take(0) =~= Seq::<RecordedView>::empty());
            assert(entries@.map_values(|e: ReadbackEntry| e@) =~= Seq::<EntryView>::empty());
        }
        while i < events.len()
            invariant
                records == records_view(events@),
                records.len() == events@.len(),
                replay_fits(records),
                i <= events.len(),
                replay(records.take(i as int)) == Ok::<_, crate::error::ErrorView>(state@),
                entries@.map_values(|e: ReadbackEntry| e@) == ledger_entries(
                    records.take(i as int),
                ),
            decreases events.len() - i,
        {
            proof {
                assert(records.take(i + 1).drop_last() =~= records.take(i as int));
                assert(records.take(i + 1).last() == events@[i as int]@);
                assert(replay(records.take(i + 1)) matches Ok(s) ==> crate::run::counters_fit(s));
            }
            let applied = state.apply(&events[i]);
            match applied {
                Err(e) => {
                    proof {
                        lemma_replay_error_persists(records, i + 1, records.len() as int);
                        assert(records.take(records.len() as int) =~= records);
                    }
                    return Err(e);
                },
                Ok(()) => {},
            }
            collect_entry(&events[i].event, &mut entries);
            i = i + 1;
        }
        proof {
            assert(records.take(i as int) =~= records);
        }
        let final_phase = state.phase().clone();
        let next_seq = state.next_seq();
        Ok(RunReadback { entries, final_phase, next_seq })
    }
}

} // verus!
