//! The remote candidates that arrived before they could be applied.

use crate::message::{Candidate, CandidateView};
use crate::session::{actions_view, applying, Action, ActionView};
use vstd::prelude::*;

verus! {

/// The model of a list of candidates.
pub open spec fn candidates_view(candidates: Seq<Candidate>) -> Seq<CandidateView> {
    candidates.map_values(|c: Candidate| c@)
}

/// Candidates in the order in which they arrived. Nothing is left out and
/// nothing is merged: a candidate that arrives twice waits twice.
pub struct CandidateBuffer {
    items: Vec<Candidate>,
}

impl View for CandidateBuffer {
    type V = Seq<CandidateView>;

    closed spec fn view(&self) -> Seq<CandidateView> {
        candidates_view(self.items@)
    }
}

impl CandidateBuffer {
    /// An empty buffer.
    pub fn new() -> (buffer: Self)
        ensures
            buffer@ == Seq::<CandidateView>::empty(),
    {
        let buffer = CandidateBuffer { items: Vec::new() };
        assert(buffer@ =~= Seq::<CandidateView>::empty());
        buffer
    }

    /// How many candidates wait.
    pub fn len(&self) -> (n: usize)
        ensures
            n == self@.len(),
    {
        self.items.len()
    }

    /// Appends a candidate behind those that wait.
    pub fn push(&mut self, candidate: Candidate)
        ensures
            final(self)@ == old(self)@.push(candidate@),
    {
        self.items.push(candidate);
        assert(self@ =~= old(self)@.push(candidate@));
    }

    /// Drops what waits.
    pub fn clear(&mut self)
        ensures
            final(self)@ == Seq::<CandidateView>::empty(),
    {
        self.items = Vec::new();
        assert(self@ =~= Seq::<CandidateView>::empty());
    }

    /// Empties the buffer into a list of actions: behind what the list
    /// holds, one application for each candidate that waited, first come
    /// first.
    pub fn drain_into(&mut self, actions: &mut Vec<Action>)
        ensures
            final(self)@ == Seq::<CandidateView>::empty(),
            actions_view(final(actions)@) == actions_view(old(actions)@) + applying(old(self)@),
    {
        let ghost before = actions_view(actions@);
        let mut i: usize = 0;
        while i < self.items.len()
            invariant
                0 <= i <= self.items.len(),
                self.items == old(self).items,
                actions_view(actions@) == before + applying(self@.take(i as int)),
            decreases self.items.len() - i,
        {
            let candidate = self.items[i].clone();
            let ghost earlier = actions@;
            actions.push(Action::AddIceCandidate(candidate));
            assert(candidate@ == self@[i as int]);
            assert(actions_view(actions@) =~= actions_view(earlier).push(
                ActionView::AddIceCandidate(candidate@),
            ));
            assert(self@.take(i + 1) =~= self@.take(i as int).push(self@[i as int]));
            assert(applying(self@.take(i + 1)) =~= applying(self@.take(i as int)).push(
                ActionView::AddIceCandidate(self@[i as int]),
            ));
            assert(actions_view(actions@) =~= before + applying(self@.take(i + 1)));
            i += 1;
        }
        assert(self@.take(i as int) =~= self@);
        self.clear();
    }
}

} // verus!
