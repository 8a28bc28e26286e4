//! Error types shared across the kernel modules.

use vstd::prelude::*;

verus! {

/// Core error type for the harness primitives.
#[allow(inconsistent_fields)]
#[derive(Debug, PartialEq, Eq)]
pub enum Error {
    /// Identifier constructor received an empty value.
    EmptyIdentifier(&'static str),
    /// A token budget would be exceeded.
    ContextBudgetExceeded {
        /// Estimated tokens, saturated at `u32::MAX` for reporting.
        used: u32,
        /// Maximum tokens allowed by the context pack.
        budget: u32,
    },
    /// A recorded event sequence number was not the expected next value.
    SequenceMismatch {
        /// Next contiguous sequence number required by the run state.
        expected: u64,
        /// Sequence number carried by the rejected record.
        actual: u64,
    },
    /// An event for one run was applied to another run.
    RunIdMismatch {
        /// Run already bound to the state machine.
        expected: String,
        /// Run named by the rejected event.
        actual: String,
    },
    /// An event was not legal in the current run phase.
    InvalidTransition {
        /// Stable diagnostic name of the phase that rejected the event.
        phase: &'static str,
        /// Stable diagnostic name of the rejected event.
        event: &'static str,
    },
    /// A model response or failure did not match the pending model request.
    StepMismatch {
        /// Step of the pending model request.
        expected: u32,
        /// Step carried by the rejected event.
        actual: u32,
    },
    /// A turn-scoped event did not match the pending turn.
    TurnMismatch {
        /// Turn currently awaiting the event.
        expected: String,
        /// Turn named by the rejected event.
        actual: String,
    },
    /// A new turn reused a turn id already accepted in this run.
    TurnReused {
        /// Reused turn identifier.
        turn_id: String,
    },
    /// A tool event did not match the pending tool call.
    ToolCallMismatch {
        /// Tool call currently awaiting the event.
        expected: String,
        /// Tool call named by the rejected event.
        actual: String,
    },
    /// A validated tool call reused a call id already accepted in this run.
    ToolCallReused {
        /// Reused tool call identifier.
        call_id: String,
    },
    /// A validated tool call did not match any pending model proposal.
    UnproposedToolCall,
    /// A compaction record named an empty or reversed prior-turn range.
    InvalidCompactionRange {
        /// Zero-based first dropped prior-turn position.
        start: u64,
        /// Exclusive end of the dropped prior-turn range.
        end_exclusive: u64,
    },
    /// A whole-batch proposal rejection carried a blank reason.
    EmptyToolProposalsRejectionReason,
}

/// Spec view of [`Error`]: every text field is viewed as its characters.
#[allow(inconsistent_fields)]
pub enum ErrorView {
    EmptyIdentifier(Seq<char>),
    ContextBudgetExceeded { used: u32, budget: u32 },
    SequenceMismatch { expected: u64, actual: u64 },
    RunIdMismatch { expected: Seq<char>, actual: Seq<char> },
    InvalidTransition { phase: Seq<char>, event: Seq<char> },
    StepMismatch { expected: u32, actual: u32 },
    TurnMismatch { expected: Seq<char>, actual: Seq<char> },
    TurnReused { turn_id: Seq<char> },
    ToolCallMismatch { expected: Seq<char>, actual: Seq<char> },
    ToolCallReused { call_id: Seq<char> },
    UnproposedToolCall,
    InvalidCompactionRange { start: u64, end_exclusive: u64 },
    EmptyToolProposalsRejectionReason,
}

impl View for Error {
    type V = ErrorView;

    open spec fn view(&self) -> ErrorView {
        match self {
            Error::EmptyIdentifier(name) => ErrorView::EmptyIdentifier(name@),
            Error::ContextBudgetExceeded { used, budget } => ErrorView::ContextBudgetExceeded {
                used: *used,
                budget: *budget,
            },
            Error::SequenceMismatch { expected, actual } => ErrorView::SequenceMismatch {
                expected: *expected,
                actual: *actual,
            },
            Error::RunIdMismatch { expected, actual } => ErrorView::RunIdMismatch {
                expected: expected@,
                actual: actual@,
            },
            Error::InvalidTransition { phase, event } => ErrorView::InvalidTransition {
                phase: phase@,
                event: event@,
            },
            Error::StepMismatch { expected, actual } => ErrorView::StepMismatch {
                expected: *expected,
                actual: *actual,
            },
            Error::TurnMismatch { expected, actual } => ErrorView::TurnMismatch {
                expected: expected@,
                actual: actual@,
            },
            Error::TurnReused { turn_id } => ErrorView::TurnReused { turn_id: turn_id@ },
            Error::ToolCallMismatch { expected, actual } => ErrorView::ToolCallMismatch {
                expected: expected@,
                actual: actual@,
            },
            Error::ToolCallReused { call_id } => ErrorView::ToolCallReused { call_id: call_id@ },
            Error::UnproposedToolCall => ErrorView::UnproposedToolCall,
            Error::InvalidCompactionRange { start, end_exclusive } =>
                ErrorView::InvalidCompactionRange { start: *start, end_exclusive: *end_exclusive },
            Error::EmptyToolProposalsRejectionReason =>
                ErrorView::EmptyToolProposalsRejectionReason,
        }
    }
}

} // verus!
