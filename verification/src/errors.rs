use vstd::prelude::*;

verus! {

/// Every way a governance or treasury operation can fail. Each error is
/// terminal: the failing operation leaves no partial side effect behind.
#[derive(Clone, Copy, Debug, PartialEq, Eq, Structural)]
pub enum CustomError {
    /// The vote batch lacks a positionally matching entry for some
    /// registered administrator.
    NotAllVoters,
    /// A withdrawal was attempted before the tally reached the threshold.
    ThresholdNotMet,
    /// A vote batch was submitted while the current round is already tallied.
    VoteAlreadyCasted,
    /// The requested amount exceeds the relevant account balance.
    InsufficientFunds,
    /// The vote batch holds entries beyond the registered administrators.
    OutsiderVote,
}

} // verus!
