//! A threshold-governed treasury: a shared fund controlled by a fixed council
//! of administrators. A withdrawal is authorized only after a quorum of
//! affirmative votes has been tallied in the current voting round; deposits
//! need no authorization. The governance record, the voting engine and the
//! treasury gates are verified; the ledger that actually holds balances and
//! moves funds is a collaborator outside this crate.

pub mod council;
pub mod errors;
pub mod global;
pub mod laws;
pub mod lifecycle;
pub mod proposal;
pub mod treasury;

pub use council::cast_vote;
pub use errors::CustomError;
pub use global::GlobalState;
pub use lifecycle::{initialize, reset_global_state};
pub use proposal::{AdminId, Proposal, Proposals};
pub use treasury::{can_deposit, can_withdraw};
