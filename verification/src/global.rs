use vstd::prelude::*;
use crate::proposal::AdminId;

verus! {

/// The governance record of one treasury: the registered council, the
/// approval threshold, and the current round's tally.
///
/// `threshold` is taken verbatim from the caller; nothing here enforces
/// `threshold <= admins.len()`, so a threshold above the council size makes
/// withdrawal permanently impossible until the registry is reset.
pub struct GlobalState {
    pub admins: Vec<AdminId>,
    pub threshold: usize,
    pub favourable_votes: usize,
    pub is_voted: bool,
}

/// The mathematical model of a [`GlobalState`]: the same fields with the
/// council as a sequence.
#[verifier::ext_equal]
pub struct StateModel {
    pub admins: Seq<AdminId>,
    pub threshold: usize,
    pub favourable_votes: usize,
    pub is_voted: bool,
}

impl View for GlobalState {
    type V = StateModel;

    open spec fn view(&self) -> StateModel {
        StateModel {
            admins: self.admins@,
            threshold: self.threshold,
            favourable_votes: self.favourable_votes,
            is_voted: self.is_voted,
        }
    }
}

/// The state after the council and threshold are replaced: the new values are
/// stored verbatim and the tally is cleared, whatever `prior` held. Every
/// mutation of the council or threshold goes through this one transition, so
/// no stale tally can survive a council change.
pub open spec fn spec_store(prior: StateModel, admins: Seq<AdminId>, threshold: usize) -> StateModel {
    StateModel { admins, threshold, favourable_votes: 0, is_voted: false }
}

/// The state after the tally alone is cleared: the council and threshold stay,
/// the round's tally is forgotten.
pub open spec fn spec_reset_tally(m: StateModel) -> StateModel {
    StateModel { admins: m.admins, threshold: m.threshold, favourable_votes: 0, is_voted: false }
}

impl GlobalState {
    /// Replaces the council and threshold verbatim (no deduplication, no
    /// bound against the council size) and clears the tally atomically.
    pub fn store(&mut self, admins: Vec<AdminId>, threshold: usize)
        ensures
            final(self)@ == spec_store(old(self)@, admins@, threshold),
    {
        self.admins = admins;
        self.threshold = threshold;
        self.reset();
    }

    /// Zeroes the round's tally: no votes counted, no round tallied. The
    /// council and threshold are untouched.
    pub fn reset(&mut self)
        ensures
            final(self)@ == spec_reset_tally(old(self)@),
    {
        self.favourable_votes = 0;
        self.is_voted = false;
    }
}

} // verus!
