//! Baseline effect policy.

use platonic_core::{EffectClass, PolicyDecision};

#[test]
fn external_side_effects_fail_closed_by_default() {
    assert!(matches!(
        EffectClass::ExternalSideEffect.default_policy(),
        PolicyDecision::Deny { .. }
    ));
}

#[test]
fn read_only_is_allowed_by_default() {
    assert!(matches!(
        EffectClass::ReadOnly.default_policy(),
        PolicyDecision::Allow
    ));
}

#[test]
fn every_effect_class_has_its_baseline_decision() {
    let approval = PolicyDecision::RequireApproval {
        reason: "mutable or networked tool call requires explicit policy allowance".into(),
    };
    let denial = PolicyDecision::Deny {
        reason: "external side effects and secret access fail closed by default".into(),
    };
    assert_eq!(EffectClass::ReadOnly.default_policy(), PolicyDecision::Allow);
    assert_eq!(EffectClass::WorkspaceWrite.default_policy(), approval);
    assert_eq!(EffectClass::Network.default_policy(), approval);
    assert_eq!(EffectClass::ExternalSideEffect.default_policy(), denial);
    assert_eq!(EffectClass::SecretAccess.default_policy(), denial);
}
