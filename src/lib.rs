//! A multi-signer proposal governance engine.
//!
//! A fixed committee of weighted voters creates proposals, votes on them inside
//! a bounded window of blocks, and executes a winning proposal's effect exactly
//! once. The host (current block, caller, attached payment, storage metering)
//! is passed in explicitly, so every operation here is a pure state transition.
use vstd::prelude::*;

pub mod account;
pub mod config;
pub mod context;
pub mod error;
pub mod proposal;

use crate::config::{
    find_member, is_member, lemma_voter_of, power_sum, settings_acceptable,
    settings_error_is, validate_settings, voter_of, Settings,
};
use crate::context::{storage_byte_cost, storage_price, Context};
use crate::error::Error;
use crate::proposal::{Action, NewProposal, Proposal, ProposalOut, Voter};

verus! {

/// The governance engine: the fixed settings and the append-only list of
/// proposals, indexed from 0.
#[derive(Debug)]
pub struct Contract {
    pub settings: Settings,
    /// the index the next proposal gets
    pub next_idx: u32,
    pub proposals: Vec<Proposal>,
}

/// The deposit owed for storage that grew by `grown` bytes: its price, and
/// at least `min_bond` when the call creates a proposal.
pub open spec fn required_deposit(grown: int, check_bond: bool, min_bond: u128) -> int {
    if check_bond && grown * storage_price() < min_bond {
        min_bond as int
    } else {
        grown * storage_price()
    }
}

/// Counting a member's vote keeps the tallies equal to the summed power of
/// the accounts that voted.
pub proof fn lemma_vote_keeps_tally(
    members: Seq<Voter>,
    before: Proposal,
    after: Proposal,
    account: Seq<char>,
    vote_yes: bool,
)
    requires
        is_member(members, account),
        before.votes_for + before.votes_against == power_sum(members, before.voters@),
        Proposal::counted(before, after, voter_of(members, account), vote_yes),
    ensures
        after.votes_for + after.votes_against == power_sum(members, after.voters@),
{
    lemma_voter_of(members, account);
    assert(after.voters@.drop_last() =~= before.voters@);
}

impl Contract {
    /// The tallies of `p` add up to the power of the accounts that voted on it.
    pub open spec fn tally_matches(&self, p: Proposal) -> bool {
        p.votes_for + p.votes_against == power_sum(self.settings.members@, p.voters@)
    }

    /// The invariant that every reachable state keeps.
    pub open spec fn wf(&self) -> bool {
        &&& self.settings.well_formed()
        &&& self.next_idx == self.proposals@.len()
        &&& forall|i: int|
            0 <= i < self.proposals@.len() ==> (#[trigger] self.proposals@[i]).well_formed()
                && self.tally_matches(self.proposals@[i])
    }

    /// Creates the engine for the committee `members`, with `ctx`'s caller as
    /// its deployer.
    pub fn new(
        ctx: &Context,
        members: Vec<Voter>,
        min_support: u32,
        min_duration: u32,
        max_duration: u32,
        min_bond: u128,
    ) -> (r: Result<Contract, Error>)
        ensures
            r is Ok <==> settings_acceptable(
                members@,
                min_support,
                min_duration,
                max_duration,
                min_bond,
            ),
            r matches Err(e) ==> settings_error_is(
                members@,
                min_support,
                min_duration,
                max_duration,
                min_bond,
                e,
            ),
            r matches Ok(c) ==> {
                &&& c.wf()
                &&& c.settings == (Settings {
                    deployer_id: ctx.predecessor_account_id,
                    members,
                    min_support,
                    min_duration,
                    max_duration,
                    min_bond,
                })
                &&& c.proposals@.len() == 0
            },
    {
        match validate_settings(
            ctx.predecessor_account_id.clone(),
            members,
            min_support,
            min_duration,
            max_duration,
            min_bond,
        ) {
            Ok(settings) => Ok(Contract { settings, next_idx: 0, proposals: Vec::new() }),
            Err(e) => Err(e),
        }
    }

    /// Adds the proposal that `p` describes, as the caller of `ctx`, and
    /// returns its index. Anyone may call; the deposit is settled by
    /// `refund_storage` afterwards.
    pub fn add_proposal(&mut self, ctx: &Context, p: NewProposal) -> (r: Result<u32, Error>)
        requires
            old(self).wf(),
            old(self).next_idx < u32::MAX,
        ensures
            final(self).wf(),
            match p.creation_error(
                ctx.block_index,
                old(self).settings.min_duration,
                old(self).settings.max_duration,
            ) {
                Some(e) => r == Err::<u32, Error>(e) && *final(self) == *old(self),
                None => {
                    &&& r == Ok::<u32, Error>(old(self).next_idx)
                    &&& final(self).settings == old(self).settings
                    &&& final(self).next_idx == old(self).next_idx + 1
                    &&& final(self).proposals@.drop_last() == old(self).proposals@
                    &&& final(self).proposals@.len() == old(self).proposals@.len() + 1
                    &&& p.describes(*ctx, final(self).proposals@.last())
                },
            },
    {
        match p.into_proposal(ctx, self.settings.min_duration, self.settings.max_duration) {
            Ok(q) => {
                assert(q.voters@ =~= Seq::<String>::empty());
                self.proposals.push(q);
                self.next_idx = self.next_idx + 1;
                assert(self.proposals@.drop_last() =~= old(self).proposals@);
                assert forall|i: int| 0 <= i < self.proposals@.len() implies (#[trigger] self.proposals@[i]).well_formed()
                    && self.tally_matches(self.proposals@[i]) by {
                    if i < old(self).proposals@.len() {
                        assert(self.proposals@[i] == old(self).proposals@[i]);
                    }
                }
                Ok(self.next_idx - 1)
            },
            Err(e) => Err(e),
        }
    }

    /// Casts the vote of `ctx`'s caller on proposal `proposal_id`: for it when
    /// `vote_yes`, against it otherwise. Only members vote, once each, inside
    /// the voting window.
    pub fn vote(&mut self, ctx: &Context, proposal_id: u32, vote_yes: bool) -> (r: Result<(), Error>)
        requires
            old(self).wf(),
        ensures
            final(self).wf(),
            final(self).settings == old(self).settings,
            final(self).next_idx == old(self).next_idx,
            !is_member(old(self).settings.members@, ctx.predecessor_account_id@) ==> {
                &&& r == Err::<(), Error>(Error::Unauthorized { account: ctx.predecessor_account_id })
                &&& *final(self) == *old(self)
            },
            is_member(old(self).settings.members@, ctx.predecessor_account_id@)
                && proposal_id >= old(self).next_idx ==> {
                &&& r == Err::<(), Error>(Error::ProposalNotFound)
                &&& *final(self) == *old(self)
            },
            is_member(old(self).settings.members@, ctx.predecessor_account_id@) && proposal_id
                < old(self).next_idx ==> {
                let voter = voter_of(old(self).settings.members@, ctx.predecessor_account_id@);
                let before = old(self).proposals@[proposal_id as int];
                match before.vote_error(ctx.block_index, voter, vote_yes) {
                    Some(e) => {
                        &&& r == Err::<(), Error>(e)
                        &&& final(self).proposals@ == old(self).proposals@
                    },
                    None => {
                        &&& r is Ok
                        &&& final(self).proposals@ == old(self).proposals@.update(
                            proposal_id as int,
                            final(self).proposals@[proposal_id as int],
                        )
                        &&& Proposal::counted(
                            before,
                            final(self).proposals@[proposal_id as int],
                            voter,
                            vote_yes,
                        )
                    },
                }
            },
    {
        let k = match find_member(&self.settings.members, &ctx.predecessor_account_id) {
            Some(k) => k,
            None => {
                return Err(Error::Unauthorized { account: ctx.predecessor_account_id.clone() });
            },
        };
        if proposal_id >= self.next_idx {
            return Err(Error::ProposalNotFound);
        }
        let idx = proposal_id as usize;
        let ghost members = self.settings.members@;
        let ghost a = ctx.predecessor_account_id@;
        let voter = &self.settings.members[k];
        let res = self.proposals[idx].vote(ctx.block_index, voter, vote_yes);
        proof {
            let q = self.proposals@[idx as int];
            let before = old(self).proposals@[idx as int];
            assert(self.proposals@ =~= old(self).proposals@.update(idx as int, q));
            if res is Ok {
                lemma_vote_keeps_tally(members, before, q, a, vote_yes);
            }
            assert forall|i: int| 0 <= i < self.proposals@.len() implies (#[trigger] self.proposals@[i]).well_formed()
                && self.tally_matches(self.proposals@[i]) by {
                if i != idx {
                    assert(self.proposals@[i] == old(self).proposals@[i]);
                }
            }
        }
        res
    }

    /// Executes proposal `proposal_id` at `ctx`'s block and returns the
    /// effect to request. Anyone may call.
    pub fn execute(&mut self, ctx: &Context, proposal_id: u32) -> (r: Result<Action, Error>)
        requires
            old(self).wf(),
        ensures
            final(self).wf(),
            final(self).settings == old(self).settings,
            final(self).next_idx == old(self).next_idx,
            proposal_id >= old(self).next_idx ==> {
                &&& r == Err::<Action, Error>(Error::ProposalNotFound)
                &&& final(self).proposals@ == old(self).proposals@
            },
            proposal_id < old(self).next_idx ==> {
                let before = old(self).proposals@[proposal_id as int];
                match before.execute_error(ctx.block_index, old(self).settings.min_support) {
                    Some(e) => {
                        &&& r == Err::<Action, Error>(e)
                        &&& final(self).proposals@ == old(self).proposals@
                    },
                    None => {
                        &&& r == Ok::<Action, Error>(before.action)
                        &&& final(self).proposals@ == old(self).proposals@.update(
                            proposal_id as int,
                            Proposal { executed: true, ..before },
                        )
                    },
                }
            },
    {
        if proposal_id >= self.next_idx {
            return Err(Error::ProposalNotFound);
        }
        let idx = proposal_id as usize;
        let min_support = self.settings.min_support;
        let res = self.proposals[idx].execute(ctx.block_index, min_support);
        proof {
            let q = self.proposals@[idx as int];
            assert(self.proposals@ =~= old(self).proposals@.update(idx as int, q));
            assert forall|i: int| 0 <= i < self.proposals@.len() implies (#[trigger] self.proposals@[i]).well_formed()
                && self.tally_matches(self.proposals@[i]) by {
                if i != idx {
                    assert(self.proposals@[i] == old(self).proposals@[i]);
                }
            }
        }
        res
    }

    /// The public view of proposal `proposal_id`.
    pub fn proposal(&self, proposal_id: u32) -> (r: Result<ProposalOut, Error>)
        requires
            self.wf(),
        ensures
            proposal_id >= self.next_idx ==> r == Err::<ProposalOut, Error>(Error::ProposalNotFound),
            proposal_id < self.next_idx ==> (r matches Ok(o) && o.projects(
                self.proposals@[proposal_id as int],
            )),
    {
        if proposal_id >= self.next_idx {
            return Err(Error::ProposalNotFound);
        }
        let p = &self.proposals[proposal_id as usize];
        Ok(
            ProposalOut {
                action: p.action.cloned(),
                description: p.description.clone(),
                voting_start: p.voting_start,
                voting_end: p.voting_end,
                votes_for: p.votes_for,
                votes_against: p.votes_against,
                execute_before: p.execute_before,
                executed: p.executed,
            },
        )
    }

    /// Settles the payment of `ctx` against the storage that a call moved
    /// from `initial_storage` to `current_storage` bytes, and returns the
    /// amount to give back to the caller. `check_bond` marks a call that
    /// creates a proposal, which owes at least `min_bond`.
    pub fn refund_storage(
        &self,
        ctx: &Context,
        initial_storage: u64,
        current_storage: u64,
        check_bond: bool,
    ) -> (r: Result<u128, Error>)
        requires
            current_storage <= initial_storage ==> ctx.attached_deposit + (initial_storage
                - current_storage) * storage_price() <= u128::MAX,
        ensures
            current_storage > initial_storage ==> {
                let required = required_deposit(
                    current_storage - initial_storage,
                    check_bond,
                    self.settings.min_bond,
                );
                if required <= ctx.attached_deposit {
                    r == Ok::<u128, Error>((ctx.attached_deposit - required) as u128)
                } else {
                    r == Err::<u128, Error>(
                        Error::InsufficientDeposit {
                            required: required as u128,
                            given: ctx.attached_deposit,
                        },
                    )
                }
            },
            current_storage <= initial_storage ==> r == Ok::<u128, Error>(
                (ctx.attached_deposit + (initial_storage - current_storage) * storage_price()) as u128,
            ),
    {
        let price = storage_byte_cost();
        let attached_deposit = ctx.attached_deposit;
        if current_storage > initial_storage {
            let grown = (current_storage - initial_storage) as u128;
            assert(grown * price <= u64::MAX * storage_price()) by (nonlinear_arith)
                requires
                    grown <= u64::MAX,
                    price == storage_price(),
            ;
            let mut required_deposit = grown * price;
            if check_bond && required_deposit < self.settings.min_bond {
                required_deposit = self.settings.min_bond;
            }
            if required_deposit > attached_deposit {
                return Err(
                    Error::InsufficientDeposit { required: required_deposit, given: attached_deposit },
                );
            }
            Ok(attached_deposit - required_deposit)
        } else {
            let freed = (initial_storage - current_storage) as u128;
            Ok(attached_deposit + freed * price)
        }
    }
}

} // verus!
