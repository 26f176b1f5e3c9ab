use vstd::prelude::*;

verus! {

/// An administrator identity: opaque beyond equality. The council and the
/// entries of a vote batch are identified by values of this type.
#[derive(Clone, Copy, Debug, PartialEq, Eq, Structural)]
pub struct AdminId {
    pub id: u64,
}

/// One administrator's vote for the current round: the voter's identity and
/// whether the administrator approves the pending withdrawal.
#[derive(Clone, Copy, Debug, PartialEq, Eq, Structural)]
pub struct Proposal {
    pub admin: AdminId,
    pub can_withdraw: bool,
}

/// A vote batch: the ordered votes submitted together for one round. Each
/// entry is expected to sit at the same position as the administrator it
/// belongs to in the registered council.
#[derive(Clone, Debug)]
pub struct Proposals {
    pub proposals: Vec<Proposal>,
}

impl View for Proposals {
    type V = Seq<Proposal>;

    open spec fn view(&self) -> Seq<Proposal> {
        self.proposals@
    }
}

} // verus!
