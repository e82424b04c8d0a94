//! Automatic turn admission of retained asynchronous results: what a
//! contributor is asked, and what it answers.

use vstd::prelude::*;

verus! {

/// One retained asynchronous result considered for automatic turn admission.
pub struct AsyncResultAdmissionCandidate<'a, E> {
    /// Queue-local identity used to select the retained result.
    pub id: u64,
    /// Frozen extension metadata from the turn that launched the async work.
    pub origin_turn_store: &'a E,
}

/// Context supplied for one atomic decision over all pending results.
pub struct AsyncResultAdmissionInput<'a, E> {
    /// All retained results awaiting automatic delivery.
    pub candidates: &'a [AsyncResultAdmissionCandidate<'a, E>],
    /// Extension metadata for the destination thread.
    pub thread_store: &'a E,
}

/// One contributor's batch admission decision.
pub struct AsyncResultAdmissionDecision<P> {
    /// Candidate identities this contributor prevents from starting a turn.
    pub denied_ids: Vec<u64>,
    /// Optional guard held until the admitted start is committed or cancelled.
    pub permit: Option<P>,
}

impl<P> AsyncResultAdmissionDecision<P> {
    /// Denies nothing and holds no permit.
    pub fn allow_all() -> (decision: Self)
        ensures
            decision.denied_ids@.len() == 0,
            decision.permit is None,
    {
        AsyncResultAdmissionDecision { denied_ids: Vec::new(), permit: Option::None }
    }
}

/// Decides which retained asynchronous results may start a model turn.
pub trait AsyncResultAdmissionContributor<E, P> {
    fn decide(&self, input: AsyncResultAdmissionInput<'_, E>) -> AsyncResultAdmissionDecision<P>;
}

} // verus!
