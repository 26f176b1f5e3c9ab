use vstd::prelude::*;
use crate::council::spec_cast_vote;
use crate::errors::CustomError;
use crate::global::{StateModel, spec_store};
use crate::proposal::{AdminId, Proposal};
use crate::treasury::{spec_can_deposit, spec_can_withdraw};

verus! {

/// Law: resetting the registry is idempotent. From any prior state, a second
/// reset with the same council and threshold returns exactly the state the
/// first produced, and after each reset the tally is cleared.
pub proof fn lemma_reset_idempotent(m: StateModel, admins: Seq<AdminId>, threshold: usize)
    ensures
        spec_store(spec_store(m, admins, threshold), admins, threshold) == spec_store(
            m,
            admins,
            threshold,
        ),
        spec_store(m, admins, threshold).favourable_votes == 0,
        !spec_store(m, admins, threshold).is_voted,
{
}

/// Law: a round is tallied at most once. While a tally is already recorded,
/// casting any batch fails with `VoteAlreadyCasted` and leaves the registry —
/// `favourable_votes` included — exactly as it was.
pub proof fn lemma_single_tally(m: StateModel, batch: Seq<Proposal>)
    requires
        m.is_voted,
    ensures
        spec_cast_vote(m, batch).1 == Err::<usize, CustomError>(CustomError::VoteAlreadyCasted),
        spec_cast_vote(m, batch).0 == m,
{
}

/// Law: no partial tally survives a failure. Whenever casting a batch fails,
/// for any reason, the registry is exactly what it was before.
pub proof fn lemma_no_partial_tally(m: StateModel, batch: Seq<Proposal>)
    ensures
        spec_cast_vote(m, batch).1 is Err ==> spec_cast_vote(m, batch).0 == m,
{
}

/// Law: the tally is independent of the threshold. Two registries that agree
/// on everything but the threshold accept and reject the same batches, return
/// the same results, and record the same count.
pub proof fn lemma_tally_independent_of_threshold(
    m1: StateModel,
    m2: StateModel,
    batch: Seq<Proposal>,
)
    requires
        m1.admins == m2.admins,
        m1.favourable_votes == m2.favourable_votes,
        m1.is_voted == m2.is_voted,
    ensures
        spec_cast_vote(m1, batch).1 == spec_cast_vote(m2, batch).1,
        spec_cast_vote(m1, batch).0.favourable_votes == spec_cast_vote(m2, batch).0.favourable_votes,
        spec_cast_vote(m1, batch).0.is_voted == spec_cast_vote(m2, batch).0.is_voted,
{
}

/// Law: the funds gate is independent of the votes. With the threshold met but
/// the treasury balance short, withdrawal fails with `InsufficientFunds` —
/// never `ThresholdNotMet`.
pub proof fn lemma_funds_gate_independent_of_votes(m: StateModel, treasury_balance: u64, amount: u64)
    requires
        m.favourable_votes >= m.threshold,
        treasury_balance < amount,
    ensures
        spec_can_withdraw(treasury_balance, amount, m) == Err::<(), CustomError>(
            CustomError::InsufficientFunds,
        ),
{
}

/// Law: a funded withdrawal is gated by the threshold alone. With the balance
/// sufficient, withdrawal is authorized exactly when the recorded tally has
/// reached the threshold, and fails with `ThresholdNotMet` otherwise.
pub proof fn lemma_threshold_gate(m: StateModel, treasury_balance: u64, amount: u64)
    requires
        treasury_balance >= amount,
    ensures
        m.favourable_votes >= m.threshold ==> spec_can_withdraw(treasury_balance, amount, m)
            == Ok::<(), CustomError>(()),
        m.favourable_votes < m.threshold ==> spec_can_withdraw(treasury_balance, amount, m)
            == Err::<(), CustomError>(CustomError::ThresholdNotMet),
{
}

/// Law: deposits are unconditional on governance. The deposit gate consults no
/// registry state, so whatever `m` holds — tallied or not, any count, any
/// threshold — a sufficient source balance is accepted.
pub proof fn lemma_deposit_unconditional(m: StateModel, source_balance: u64, amount: u64)
    requires
        source_balance >= amount,
    ensures
        spec_can_deposit(source_balance, amount) == Ok::<(), CustomError>(()),
{
}

} // verus!
