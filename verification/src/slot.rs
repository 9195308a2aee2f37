//! The single-assignment cell that holds a task's aggregated result: the
//! first terminal outcome committed to it wins, every later commit is a
//! no-op.

use crate::outcome::{ClaimOutcome, OutcomeKind};
use vstd::prelude::*;

verus! {

/// Whether an outcome of this kind ends a task.
pub open spec fn is_terminal(kind: OutcomeKind) -> bool {
    kind != OutcomeKind::Transient
}

/// The content of a cell after a commit of `outcome` to a cell that held
/// `before`.
pub open spec fn committed(
    before: Option<(OutcomeKind, Seq<char>)>,
    outcome: (OutcomeKind, Seq<char>),
) -> Option<(OutcomeKind, Seq<char>)> {
    if before is None && is_terminal(outcome.0) {
        Some(outcome)
    } else {
        before
    }
}

/// Whether a commit of `outcome` to a cell that held `before` is the one
/// that fills it.
pub open spec fn commit_wins(
    before: Option<(OutcomeKind, Seq<char>)>,
    outcome: (OutcomeKind, Seq<char>),
) -> bool {
    before is None && is_terminal(outcome.0)
}

/// The content of a cell after the commits of `outcomes`, in order, to a
/// cell that held `before`.
pub open spec fn committed_all(
    before: Option<(OutcomeKind, Seq<char>)>,
    outcomes: Seq<(OutcomeKind, Seq<char>)>,
) -> Option<(OutcomeKind, Seq<char>)>
    decreases outcomes.len(),
{
    if outcomes.len() == 0 {
        before
    } else {
        committed(committed_all(before, outcomes.drop_last()), outcomes.last())
    }
}

/// How many of the commits of `outcomes`, in order, to a cell that held
/// `before` filled it.
pub open spec fn wins_among(
    before: Option<(OutcomeKind, Seq<char>)>,
    outcomes: Seq<(OutcomeKind, Seq<char>)>,
) -> nat
    decreases outcomes.len(),
{
    if outcomes.len() == 0 {
        0
    } else {
        let earlier = outcomes.drop_last();
        wins_among(before, earlier) + if commit_wins(
            committed_all(before, earlier),
            outcomes.last(),
        ) {
            1nat
        } else {
            0nat
        }
    }
}

/// Whether some outcome of the sequence is terminal.
pub open spec fn has_terminal(outcomes: Seq<(OutcomeKind, Seq<char>)>) -> bool {
    exists|i: int| 0 <= i < outcomes.len() && is_terminal(#[trigger] outcomes[i].0)
}

/// The first terminal outcome of a task, or nothing yet.
#[derive(Debug, PartialEq, Eq)]
pub struct AggregatedResult {
    value: Option<ClaimOutcome>,
}

impl View for AggregatedResult {
    type V = Option<(OutcomeKind, Seq<char>)>;

    closed spec fn view(&self) -> Option<(OutcomeKind, Seq<char>)> {
        match self.value {
            Some(o) => Some(o@),
            None => None,
        }
    }
}

impl AggregatedResult {
    /// Every cell holds nothing or a terminal outcome.
    #[verifier::type_invariant]
    spec fn holds_terminal(self) -> bool {
        self.value matches Some(o) ==> is_terminal(o@.0)
    }

    /// An empty cell.
    pub fn new() -> (r: Self)
        ensures
            r@ is None,
    {
        AggregatedResult { value: None }
    }

    /// Whether nothing was committed yet.
    pub fn is_empty(&self) -> (b: bool)
        ensures
            b == (self@ is None),
    {
        self.value.is_none()
    }

    /// The outcome that the cell holds.
    pub fn get(&self) -> (o: Option<ClaimOutcome>)
        ensures
            o is Some == self@ is Some,
            o matches Some(v) ==> self@ == Some(v@) && is_terminal(v@.0),
    {
        proof {
            use_type_invariant(self);
        }
        match &self.value {
            Some(v) => Some(v.clone()),
            None => None,
        }
    }

    /// Commits an outcome: it is stored if the cell is empty and the outcome
    /// is terminal, and dropped otherwise. Returns whether it was stored.
    pub fn commit(&mut self, outcome: ClaimOutcome) -> (won: bool)
        ensures
            final(self)@ == committed(old(self)@, outcome@),
            won == commit_wins(old(self)@, outcome@),
    {
        let terminal = match outcome.kind() {
            OutcomeKind::Transient => false,
            _ => true,
        };
        if self.value.is_none() && terminal {
            self.value = Some(outcome);
            true
        } else {
            false
        }
    }
}

/// A cell that holds an outcome keeps it through any further commits.
pub proof fn lemma_filled_stays(
    before: Option<(OutcomeKind, Seq<char>)>,
    outcomes: Seq<(OutcomeKind, Seq<char>)>,
)
    requires
        before is Some,
    ensures
        committed_all(before, outcomes) == before,
        wins_among(before, outcomes) == 0,
    decreases outcomes.len(),
{
    if outcomes.len() > 0 {
        lemma_filled_stays(before, outcomes.drop_last());
    }
}

/// However many outcomes are committed to an empty cell, and whatever they
/// are, at most one commit fills it; exactly one does if any of them is
/// terminal, and the cell then holds the first terminal one.
pub proof fn lemma_commit_at_most_once(outcomes: Seq<(OutcomeKind, Seq<char>)>)
    ensures
        wins_among(None, outcomes) <= 1,
        wins_among(None, outcomes) == 1 <==> has_terminal(outcomes),
        has_terminal(outcomes) <==> committed_all(None, outcomes) is Some,
        has_terminal(outcomes) ==> exists|i: int|
            0 <= i < outcomes.len() && is_terminal(#[trigger] outcomes[i].0) && committed_all(
                None,
                outcomes,
            ) == Some(outcomes[i]) && forall|j: int| 0 <= j < i ==> !is_terminal(outcomes[j].0),
    decreases outcomes.len(),
{
    if outcomes.len() > 0 {
        let earlier = outcomes.drop_last();
        lemma_commit_at_most_once(earlier);
        if has_terminal(earlier) {
            let i = choose|i: int|
                0 <= i < earlier.len() && is_terminal(#[trigger] earlier[i].0) && committed_all(
                    None,
                    earlier,
                ) == Some(earlier[i]) && forall|j: int| 0 <= j < i ==> !is_terminal(earlier[j].0);
            assert(outcomes[i] == earlier[i]);
            assert(is_terminal(outcomes[i].0));
            assert forall|j: int| 0 <= j < i implies !is_terminal(outcomes[j].0) by {
                assert(outcomes[j] == earlier[j]);
            }
        } else {
            assert(committed_all(None, earlier) is None);
            if is_terminal(outcomes.last().0) {
                let i = outcomes.len() - 1;
                assert(is_terminal(outcomes[i].0));
                assert forall|j: int| 0 <= j < i implies !is_terminal(outcomes[j].0) by {
                    assert(outcomes[j] == earlier[j]);
                }
            } else {
                assert forall|i: int| 0 <= i < outcomes.len() implies !is_terminal(
                    #[trigger] outcomes[i].0,
                ) by {
                    if i < earlier.len() {
                        assert(outcomes[i] == earlier[i]);
                    }
                }
            }
        }
    }
}

} // verus!
