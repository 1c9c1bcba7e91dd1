use vstd::prelude::*;

verus! {

/// Every way a governance call can fail. Each failure aborts the call and
/// leaves the state unchanged.
#[derive(Debug, Clone, PartialEq, Eq)]
pub enum Error {
    /// `min_support` was zero.
    MinSupportNotPositive,
    /// A member account, or an action's destination, is not a well-formed account id.
    InvalidAccount { account: String },
    /// `min_duration < 2` or `max_duration <= min_duration`.
    InvalidDurationBounds,
    /// `min_bond` does not exceed the storage price of one byte.
    BondTooSmall { price: u128 },
    /// The voting start is not strictly after the current block.
    StartNotInFuture,
    /// The voting duration lies outside `[min, max]`.
    InvalidDuration { min: u32, max: u32 },
    /// `execute_before` is not after the end of voting.
    ExecuteWindowInvalid,
    /// The caller is not a committee member.
    Unauthorized { account: String },
    /// The attached payment does not cover the storage deposit.
    InsufficientDeposit { required: u128, given: u128 },
    /// No proposal has this index.
    ProposalNotFound,
    /// The current block lies outside the voting window.
    VotingNotActive,
    /// The caller has already voted on this proposal.
    AlreadyVoted,
    /// A tally would exceed the range of `u32`.
    TallyOverflow,
    /// Execution is only allowed in blocks `from ..= to`.
    ExecutionWindowViolated { from: u64, to: u64 },
    /// The support for the proposal is below the quorum.
    InsufficientSupport { got: u32, min_support: u32 },
    /// The proposal does not have a strict majority.
    ProposalRejected { votes_for: u32, votes_against: u32 },
    /// The proposal was executed before.
    AlreadyExecuted,
}

} // verus!
