//! Policy primitives for evaluating proposed side effects.

use vstd::prelude::*;

verus! {

/// High-level class of effect a tool may produce.
#[derive(Clone, Copy, Debug, PartialEq, Eq, Structural)]
pub enum EffectClass {
    /// Reads local or remote state without mutation.
    ReadOnly,
    /// Mutates files in an explicit workspace.
    WorkspaceWrite,
    /// Performs network IO without an external irreversible side effect.
    Network,
    /// Sends, publishes, charges, deploys, deletes, or otherwise affects the world.
    ExternalSideEffect,
    /// Requests access to credentials, secrets, or protected material.
    SecretAccess,
}

/// Policy decision for a proposed model or tool action.
#[derive(Debug, PartialEq, Eq)]
pub enum PolicyDecision {
    /// Action may proceed.
    Allow,
    /// Action may proceed only after approval.
    RequireApproval {
        /// Explanation presented to the approver and retained in run state.
        reason: String,
    },
    /// Action must not proceed.
    Deny {
        /// Durable explanation for rejecting the action.
        reason: String,
    },
}

/// Spec view of a [`PolicyDecision`].
#[allow(inconsistent_fields)]
pub enum PolicyView {
    Allow,
    RequireApproval { reason: Seq<char> },
    Deny { reason: Seq<char> },
}

impl View for PolicyDecision {
    type V = PolicyView;

    open spec fn view(&self) -> PolicyView {
        match self {
            PolicyDecision::Allow => PolicyView::Allow,
            PolicyDecision::RequireApproval { reason } => PolicyView::RequireApproval {
                reason: reason@,
            },
            PolicyDecision::Deny { reason } => PolicyView::Deny { reason: reason@ },
        }
    }
}

impl Clone for PolicyDecision {
    fn clone(&self) -> (r: Self)
        ensures
            r == *self,
    {
        match self {
            PolicyDecision::Allow => PolicyDecision::Allow,
            PolicyDecision::RequireApproval { reason } => PolicyDecision::RequireApproval {
                reason: reason.clone(),
            },
            PolicyDecision::Deny { reason } => PolicyDecision::Deny { reason: reason.clone() },
        }
    }
}

/// The fail-closed baseline decision for each effect class: reads are
/// allowed, workspace writes and network access need approval, external
/// side effects and secret access are denied.
pub open spec fn baseline_policy(effect: EffectClass) -> PolicyView {
    match effect {
        EffectClass::ReadOnly => PolicyView::Allow,
        EffectClass::WorkspaceWrite | EffectClass::Network => PolicyView::RequireApproval {
            reason: "mutable or networked tool call requires explicit policy allowance"@,
        },
        EffectClass::ExternalSideEffect | EffectClass::SecretAccess => PolicyView::Deny {
            reason: "external side effects and secret access fail closed by default"@,
        },
    }
}

impl EffectClass {
    /// Returns the fail-closed baseline decision for this effect class.
    pub fn default_policy(&self) -> (r: PolicyDecision)
        ensures
            r@ == baseline_policy(*self),
    {
        match self {
            EffectClass::ReadOnly => PolicyDecision::Allow,
            EffectClass::WorkspaceWrite | EffectClass::Network => PolicyDecision::RequireApproval {
                reason: "mutable or networked tool call requires explicit policy allowance".to_owned(),
            },
            EffectClass::ExternalSideEffect | EffectClass::SecretAccess => PolicyDecision::Deny {
                reason: "external side effects and secret access fail closed by default".to_owned(),
            },
        }
    }
}

} // verus!
