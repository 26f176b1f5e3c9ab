use vstd::prelude::*;
use crate::errors::CustomError;
use crate::global::{GlobalState, StateModel};

verus! {

/// The deposit decision: permitted exactly when the source holds the amount.
/// No governance state is consulted — deposits need no authorization.
pub open spec fn spec_can_deposit(source_balance: u64, amount: u64) -> Result<(), CustomError> {
    if source_balance >= amount {
        Ok(())
    } else {
        Err(CustomError::InsufficientFunds)
    }
}

/// The withdrawal decision: the funds check comes first, then the vote check.
/// A round's approval is durable — once `favourable_votes` reaches the
/// threshold, every withdrawal attempt is authorized until the tally is reset.
pub open spec fn spec_can_withdraw(
    treasury_balance: u64,
    amount: u64,
    m: StateModel,
) -> Result<(), CustomError> {
    if treasury_balance < amount {
        Err(CustomError::InsufficientFunds)
    } else if m.favourable_votes < m.threshold {
        Err(CustomError::ThresholdNotMet)
    } else {
        Ok(())
    }
}

/// Decides whether a deposit of `amount` from an account holding
/// `source_balance` is permitted. Fails with `InsufficientFunds` exactly when
/// the balance is short; the registry plays no part in the decision.
pub fn can_deposit(source_balance: u64, amount: u64) -> (r: Result<(), CustomError>)
    ensures
        r == spec_can_deposit(source_balance, amount),
{
    if source_balance >= amount {
        Ok(())
    } else {
        Err(CustomError::InsufficientFunds)
    }
}

/// Decides whether a withdrawal of `amount` from a treasury holding
/// `treasury_balance` is authorized under `global_state`. Fails with
/// `InsufficientFunds` exactly when the balance is short, else with
/// `ThresholdNotMet` exactly when the tally is below the threshold. The tally
/// is read, never consumed.
pub fn can_withdraw(treasury_balance: u64, amount: u64, global_state: &GlobalState) -> (r: Result<
    (),
    CustomError,
>)
    ensures
        r == spec_can_withdraw(treasury_balance, amount, global_state@),
{
    if treasury_balance < amount {
        return Err(CustomError::InsufficientFunds);
    }
    if global_state.favourable_votes < global_state.threshold {
        return Err(CustomError::ThresholdNotMet);
    }
    Ok(())
}

} // verus!
