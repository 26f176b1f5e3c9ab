use multisig_transaction::{
    can_deposit, can_withdraw, cast_vote, initialize, AdminId, CustomError, Proposal, Proposals,
};

fn admin(id: u64) -> AdminId {
    AdminId { id }
}

fn vote(id: u64, can_withdraw: bool) -> Proposal {
    Proposal {
        admin: admin(id),
        can_withdraw,
    }
}

#[test]
fn deposit_needs_only_balance() {
    assert_eq!(can_deposit(100, 40), Ok(()));
    assert_eq!(can_deposit(40, 40), Ok(()));
    assert_eq!(can_deposit(39, 40), Err(CustomError::InsufficientFunds));
    assert_eq!(can_deposit(0, 0), Ok(()));
}

#[test]
fn deposit_unconditional_on_governance() {
    // Freshly initialized, nothing voted: deposits go through.
    let gs = initialize(vec![admin(1)], 1);
    assert!(!gs.is_voted);
    assert_eq!(can_deposit(50, 50), Ok(()));
    // Round tallied with zero approvals: deposits still go through.
    let mut gs = initialize(vec![admin(1)], 1);
    let batch = Proposals {
        proposals: vec![vote(1, false)],
    };
    assert_eq!(cast_vote(&mut gs, batch), Ok(0));
    assert!(gs.is_voted);
    assert_eq!(gs.favourable_votes, 0);
    assert_eq!(can_deposit(50, 50), Ok(()));
}

#[test]
fn withdraw_authorized_after_quorum() {
    let mut gs = initialize(vec![admin(1), admin(2), admin(3)], 2);
    let batch = Proposals {
        proposals: vec![vote(1, true), vote(2, false), vote(3, true)],
    };
    assert_eq!(cast_vote(&mut gs, batch), Ok(2));
    assert_eq!(can_withdraw(100, 60, &gs), Ok(()));
    // The approval is durable: a second withdrawal is authorized too.
    assert_eq!(can_withdraw(40, 40, &gs), Ok(()));
}

#[test]
fn withdraw_below_threshold_is_rejected() {
    let mut gs = initialize(vec![admin(1), admin(2), admin(3)], 3);
    let batch = Proposals {
        proposals: vec![vote(1, true), vote(2, false), vote(3, true)],
    };
    // The tally does not consult the threshold...
    assert_eq!(cast_vote(&mut gs, batch), Ok(2));
    // ...but the withdrawal gate does.
    assert_eq!(
        can_withdraw(100, 60, &gs),
        Err(CustomError::ThresholdNotMet)
    );
}

#[test]
fn funds_gate_wins_over_vote_gate() {
    let mut gs = initialize(vec![admin(1), admin(2)], 1);
    let batch = Proposals {
        proposals: vec![vote(1, true), vote(2, true)],
    };
    assert_eq!(cast_vote(&mut gs, batch), Ok(2));
    // Threshold met, balance short: the funds error is reported, never the
    // threshold one.
    assert_eq!(
        can_withdraw(30, 60, &gs),
        Err(CustomError::InsufficientFunds)
    );
}

#[test]
fn withdraw_reports_funds_error_first_when_both_fail() {
    let gs = initialize(vec![admin(1)], 1);
    assert_eq!(
        can_withdraw(5, 10, &gs),
        Err(CustomError::InsufficientFunds)
    );
    assert_eq!(can_withdraw(10, 10, &gs), Err(CustomError::ThresholdNotMet));
}

#[test]
fn zero_threshold_authorizes_without_votes() {
    let gs = initialize(vec![admin(1)], 0);
    assert_eq!(can_withdraw(10, 10, &gs), Ok(()));
}
