//! Context assembly primitives with lane labels and budget validation.

use crate::error::{Error, ErrorView};
use vstd::prelude::*;

verus! {

/// Lane accounting for context assembly.
#[derive(Clone, Copy, Debug, PartialEq, Eq, Structural)]
pub enum ContextLane {
    /// Stable system contract.
    SystemContract,
    /// Current user task.
    CurrentTask,
    /// Selected tool schemas only.
    ToolSchemas,
    /// Recent turns preserved verbatim.
    RecentTurns,
    /// Retrieved memories or project facts.
    RetrievedContext,
    /// Artifact summaries instead of raw large blobs.
    ArtifactSummary,
    /// Runtime policy and approval constraints.
    Policy,
}

/// One accountable context fragment.
#[derive(Debug, PartialEq, Eq)]
pub struct ContextFragment {
    /// Context lane this fragment belongs to.
    pub lane: ContextLane,
    /// Human-readable source path, URL, event id, or synthetic label.
    pub source: String,
    /// Text injected into the model prompt.
    pub content: String,
    /// Estimated token count used for budget checks.
    pub estimated_tokens: u32,
}

/// A bounded prompt/context bundle.
#[derive(Debug, PartialEq, Eq)]
pub struct ContextPack {
    /// Maximum allowed prompt tokens for this pack.
    pub token_budget: u32,
    /// Context fragments selected for the next model call.
    pub fragments: Vec<ContextFragment>,
}

/// Spec view of a [`ContextFragment`].
pub struct FragmentView {
    pub lane: ContextLane,
    pub source: Seq<char>,
    pub content: Seq<char>,
    pub estimated_tokens: u32,
}

/// Spec view of a [`ContextPack`].
pub struct PackView {
    pub token_budget: u32,
    pub fragments: Seq<FragmentView>,
}

impl View for ContextFragment {
    type V = FragmentView;

    open spec fn view(&self) -> FragmentView {
        FragmentView {
            lane: self.lane,
            source: self.source@,
            content: self.content@,
            estimated_tokens: self.estimated_tokens,
        }
    }
}

impl View for ContextPack {
    type V = PackView;

    open spec fn view(&self) -> PackView {
        PackView {
            token_budget: self.token_budget,
            fragments: self.fragments@.map_values(|f: ContextFragment| f@),
        }
    }
}

impl Clone for ContextFragment {
    fn clone(&self) -> (r: Self)
        ensures
            r == *self,
    {
        ContextFragment {
            lane: self.lane,
            source: self.source.clone(),
            content: self.content.clone(),
            estimated_tokens: self.estimated_tokens,
        }
    }
}

impl Clone for ContextPack {
    fn clone(&self) -> (r: Self)
        ensures
            r@ == self@,
    {
        let fragments = self.fragments.clone();
        proof {
            assert(fragments@ =~= self.fragments@);
        }
        ContextPack { token_budget: self.token_budget, fragments }
    }
}

/// Sum of the fragments' estimated tokens, without any bound.
pub open spec fn tokens_total(fragments: Seq<FragmentView>) -> nat
    decreases fragments.len(),
{
    if fragments.len() == 0 {
        0
    } else {
        tokens_total(fragments.drop_last()) + fragments.last().estimated_tokens as nat
    }
}

/// `n` saturated at `cap`.
pub open spec fn saturate(n: nat, cap: nat) -> nat {
    if n <= cap {
        n
    } else {
        cap
    }
}

impl PackView {
    /// Sum of all fragment estimates.
    pub open spec fn total_tokens(self) -> nat {
        tokens_total(self.fragments)
    }

    /// Whether the fragment estimates fit in the declared budget.
    pub open spec fn within_budget(self) -> bool {
        self.total_tokens() <= self.token_budget
    }

    /// What budget validation answers for this pack.
    pub open spec fn budget_check(self) -> Result<(), ErrorView> {
        if self.within_budget() {
            Ok(())
        } else {
            Err(
                ErrorView::ContextBudgetExceeded {
                    used: saturate(self.total_tokens(), u32::MAX as nat) as u32,
                    budget: self.token_budget,
                },
            )
        }
    }
}

impl ContextPack {
    /// Sums fragment estimates, saturating at [`u32::MAX`].
    pub fn estimated_tokens(&self) -> (r: u32)
        ensures
            r == saturate(self@.total_tokens(), u32::MAX as nat),
    {
        let total = self.estimated_tokens_u64();
        if total > 0xffff_ffffu64 {
            u32::MAX
        } else {
            total as u32
        }
    }

    /// Sums fragment estimates in 64 bits, saturating at [`u64::MAX`].
    fn estimated_tokens_u64(&self) -> (r: u64)
        ensures
            r == saturate(self@.total_tokens(), u64::MAX as nat),
    {
        let ghost frags = self@.fragments;
        let mut total: u64 = 0;
        let mut i: usize = 0;
        while i < self.fragments.len()
            invariant
                frags == self@.fragments,
                frags.len() == self.fragments@.len(),
                i <= self.fragments.len(),
                total == saturate(tokens_total(frags.take(i as int)), u64::MAX as nat),
            decreases self.fragments.len() - i,
        {
            let add = self.fragments[i].estimated_tokens as u64;
            proof {
                assert(frags.take(i + 1).drop_last() =~= frags.take(i as int));
                assert(frags.take(i + 1).last() == frags[i as int]);
            }
            if total > u64::MAX - add {
                total = u64::MAX;
            } else {
                total = total + add;
            }
            i = i + 1;
        }
        proof {
            assert(frags.take(i as int) =~= frags);
        }
        total
    }

    /// Rejects a fragment sum that exceeds the declared token budget.
    pub fn validate_budget(&self) -> (r: Result<(), Error>)
        ensures
            r is Ok <==> self@.within_budget(),
            r matches Err(e) ==> Err::<(), ErrorView>(e@) == self@.budget_check(),
    {
        let used = self.estimated_tokens_u64();
        if used > self.token_budget as u64 {
            let reported: u32 = if used > 0xffff_ffffu64 {
                u32::MAX
            } else {
                used as u32
            };
            return Err(Error::ContextBudgetExceeded { used: reported, budget: self.token_budget });
        }
        Ok(())
    }
}

} // verus!
