use vstd::prelude::*;
use crate::global::{GlobalState, StateModel, spec_store};
use crate::proposal::AdminId;

verus! {

/// Creates the governance record for a fresh treasury: the council and
/// threshold are stored verbatim and the tally starts cleared. Whether storage
/// already exists for the treasury is the persistence collaborator's concern;
/// replacing a live registry is [`reset_global_state`], not this.
pub fn initialize(admins: Vec<AdminId>, threshold: usize) -> (s: GlobalState)
    ensures
        s@ == (StateModel { admins: admins@, threshold, favourable_votes: 0, is_voted: false }),
{
    GlobalState { admins, threshold, favourable_votes: 0, is_voted: false }
}

/// Replaces the council and threshold of a live registry and unconditionally
/// clears the tally, starting a new round. Who may invoke this is the
/// caller's concern; the core performs no authorization check of its own.
pub fn reset_global_state(global_state: &mut GlobalState, admins: Vec<AdminId>, threshold: usize)
    ensures
        final(global_state)@ == spec_store(old(global_state)@, admins@, threshold),
{
    global_state.store(admins, threshold);
}

} // verus!
