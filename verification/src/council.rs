use vstd::prelude::*;
use crate::errors::CustomError;
use crate::global::{GlobalState, StateModel};
use crate::proposal::{AdminId, Proposal, Proposals};

verus! {

/// How many of the first `n` positions pair a registered administrator with a
/// batch entry naming the same administrator.
pub open spec fn matching_prefix(admins: Seq<AdminId>, batch: Seq<Proposal>, n: int) -> nat
    decreases n,
{
    if n <= 0 {
        0
    } else {
        matching_prefix(admins, batch, n - 1)
            + (if admins[n - 1] == batch[n - 1].admin { 1nat } else { 0nat })
    }
}

/// The number of positions where the council and the batch name the same
/// administrator: a positional, index-aligned comparison over the zipped
/// prefix of the two sequences, not a set-membership one.
pub open spec fn spec_matching(admins: Seq<AdminId>, batch: Seq<Proposal>) -> nat {
    matching_prefix(
        admins,
        batch,
        if admins.len() <= batch.len() { admins.len() as int } else { batch.len() as int },
    )
}

/// How many of the first `n` batch entries approve the withdrawal.
pub open spec fn favourable_prefix(batch: Seq<Proposal>, n: int) -> nat
    decreases n,
{
    if n <= 0 {
        0
    } else {
        favourable_prefix(batch, n - 1) + (if batch[n - 1].can_withdraw { 1nat } else { 0nat })
    }
}

/// The number of affirmative votes in the whole batch.
pub open spec fn spec_favourable(batch: Seq<Proposal>) -> nat {
    favourable_prefix(batch, batch.len() as int)
}

/// The cast-vote transition on the model: the state after the call and the
/// operation's result.
///
/// A batch is rejected, and the state untouched, when the round is already
/// tallied (`VoteAlreadyCasted`), when some registered administrator has no
/// positionally matching entry (`NotAllVoters`), or when the batch holds
/// entries beyond the registered administrators (`OutsiderVote`). Otherwise
/// the affirmative votes of the whole batch become the round's tally and the
/// round is marked tallied.
pub open spec fn spec_cast_vote(m: StateModel, batch: Seq<Proposal>) -> (StateModel, Result<
    usize,
    CustomError,
>) {
    if m.is_voted {
        (m, Err(CustomError::VoteAlreadyCasted))
    } else if spec_matching(m.admins, batch) != m.admins.len() {
        (m, Err(CustomError::NotAllVoters))
    } else if spec_matching(m.admins, batch) != batch.len() {
        (m, Err(CustomError::OutsiderVote))
    } else {
        (
            StateModel {
                admins: m.admins,
                threshold: m.threshold,
                favourable_votes: spec_favourable(batch) as usize,
                is_voted: true,
            },
            Ok(spec_favourable(batch) as usize),
        )
    }
}

/// Counts the positions where the council and the batch name the same
/// administrator.
fn matching_count(admins: &Vec<AdminId>, batch: &Vec<Proposal>) -> (m: usize)
    ensures
        m as nat == spec_matching(admins@, batch@),
        m <= admins@.len(),
{
    let n: usize = if admins.len() <= batch.len() { admins.len() } else { batch.len() };
    let mut m: usize = 0;
    let mut i: usize = 0;
    while i < n
        invariant
            i <= n,
            n <= admins@.len(),
            n <= batch@.len(),
            (n as int == admins@.len() || n as int == batch@.len()),
            m <= i,
            m as nat == matching_prefix(admins@, batch@, i as int),
        decreases n - i,
    {
        if admins[i].id == batch[i].admin.id {
            m = m + 1;
        }
        i = i + 1;
    }
    m
}

/// Counts the affirmative votes over the whole batch.
fn favourable_count(batch: &Vec<Proposal>) -> (c: usize)
    ensures
        c as nat == spec_favourable(batch@),
        c <= batch@.len(),
{
    let mut c: usize = 0;
    let mut i: usize = 0;
    while i < batch.len()
        invariant
            i <= batch@.len(),
            c <= i,
            c as nat == favourable_prefix(batch@, i as int),
        decreases batch@.len() - i,
    {
        if batch[i].can_withdraw {
            c = c + 1;
        }
        i = i + 1;
    }
    c
}

/// Validates and tallies one round's vote batch against the registry in one
/// atomic step, returning the recorded count of affirmative votes.
///
/// Exactly the checks of [`spec_cast_vote`] are made, in that order; the first
/// failing one aborts with its error and the registry untouched. On success
/// the tally holds the affirmative votes of the whole batch and the round is
/// marked tallied.
pub fn cast_vote(global_state: &mut GlobalState, votings: Proposals) -> (r: Result<
    usize,
    CustomError,
>)
    ensures
        final(global_state)@ == spec_cast_vote(old(global_state)@, votings@).0,
        r == spec_cast_vote(old(global_state)@, votings@).1,
{
    if global_state.is_voted {
        return Err(CustomError::VoteAlreadyCasted);
    }
    let matching = matching_count(&global_state.admins, &votings.proposals);
    if matching != global_state.admins.len() {
        return Err(CustomError::NotAllVoters);
    }
    if matching != votings.proposals.len() {
        return Err(CustomError::OutsiderVote);
    }
    let favourable = favourable_count(&votings.proposals);
    global_state.favourable_votes = favourable;
    global_state.is_voted = true;
    Ok(favourable)
}

} // verus!
