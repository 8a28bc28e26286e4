//! Typed harness primitives for disciplined, replayable agent execution.
//!
//! The crate is a small kernel, not an agent app. It models runs, context
//! packs, tool calls, policy decisions, and event-log entries. Every side
//! effect is typed, policy-gated, and recorded; the run state machine performs
//! no IO and is proved to implement its transition relation exactly.

pub mod context;
pub mod error;
pub mod event;
pub mod ids;
pub mod json;
pub mod laws;
pub mod message;
pub mod policy;
pub mod projection;
pub mod run;
pub mod tool;

pub use context::{ContextFragment, ContextLane, ContextPack};
pub use error::Error;
pub use event::{HarnessEvent, ModelUsage, RecordedEvent};
pub use ids::{ActorId, AgentId, ArtifactId, ModelName, RunId, ToolCallId, ToolName, TurnId};
pub use json::{JsonNumber, JsonValue};
pub use message::{Message, MessageRole};
pub use policy::{EffectClass, PolicyDecision};
pub use projection::{ReadbackEntry, RunReadback};
pub use run::{RunCommand, RunPhase, RunState};
pub use tool::{ResultVisibility, ToolCall, ToolProposal, ToolResult};
