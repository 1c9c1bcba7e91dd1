use vstd::prelude::*;

use crate::account::{account_id_valid, assert_valid_account};
use crate::context::Context;
use crate::error::Error;

verus! {

/// A committee member and its voting weight.
#[derive(Clone, Debug, PartialEq, Eq)]
pub struct Voter {
    pub account: String,
    /// voting power, expected in `1..=10000`
    pub power: u16,
}

/// The effect a proposal requests once it is executed.
#[derive(Clone, Debug, PartialEq, Eq)]
pub enum Action {
    /// Send `amount` to `dest`.
    Transfer { dest: String, amount: u128 },
    /// Delete this account, sending what is left to `dest`.
    Delete { dest: String },
}

impl Action {
    /// The account that receives the effect.
    pub open spec fn dest_of(self) -> String {
        match self {
            Action::Transfer { dest, .. } => dest,
            Action::Delete { dest } => dest,
        }
    }

    /// The account that receives the effect.
    pub fn dest(&self) -> (r: &String)
        ensures
            *r == self.dest_of(),
    {
        match self {
            Action::Transfer { dest, .. } => dest,
            Action::Delete { dest } => dest,
        }
    }

    /// An equal copy of this action.
    pub fn cloned(&self) -> (r: Action)
        ensures
            r == *self,
    {
        match self {
            Action::Transfer { dest, amount } => Action::Transfer { dest: dest.clone(), amount: *amount },
            Action::Delete { dest } => Action::Delete { dest: dest.clone() },
        }
    }
}
/// One governance item and its voting record.
#[derive(Debug)]
pub struct Proposal {
    pub proposer: String,
    pub description: String,
    pub action: Action,
    /// accounts that have voted, in the order of their votes
    pub voters: Vec<String>,
    /// first block of the voting window
    pub voting_start: u64,
    /// last block of the voting window
    pub voting_end: u64,
    pub votes_for: u32,
    pub votes_against: u32,
    /// last block in which the proposal can be executed
    pub execute_before: u64,
    pub executed: bool,
}

impl Proposal {
    /// Whether the account `a` has voted on this proposal.
    pub open spec fn has_voted(&self, a: Seq<char>) -> bool {
        exists|i: int| 0 <= i < self.voters@.len() && (#[trigger] self.voters@[i])@ == a
    }

    /// No account appears twice among the voters.
    pub open spec fn voters_distinct(&self) -> bool {
        forall|i: int, j: int|
            0 <= i < j < self.voters@.len() ==> (#[trigger] self.voters@[i])@ != (#[trigger] self.voters@[j])@
    }

    /// The invariant that every reachable proposal keeps.
    pub open spec fn well_formed(&self) -> bool {
        &&& self.voting_start < self.voting_end < self.execute_before
        &&& self.voters_distinct()
    }

    /// Whether block `now` lies in the voting window.
    pub open spec fn voting_active(&self, now: u64) -> bool {
        self.voting_start <= now <= self.voting_end
    }

    /// Whether block `now` lies after the voting window and not after the deadline.
    pub open spec fn execution_open(&self, now: u64) -> bool {
        self.voting_end < now <= self.execute_before
    }

    /// The tally that a vote with choice `yes` adds to.
    pub open spec fn tally(&self, yes: bool) -> u32 {
        if yes {
            self.votes_for
        } else {
            self.votes_against
        }
    }

    /// Why `voter` cannot vote `yes` at block `now`, if anything prevents it.
    pub open spec fn vote_error(&self, now: u64, voter: Voter, yes: bool) -> Option<Error> {
        if self.has_voted(voter.account@) {
            Some(Error::AlreadyVoted)
        } else if !self.voting_active(now) {
            Some(Error::VotingNotActive)
        } else if self.tally(yes) + voter.power > u32::MAX {
            Some(Error::TallyOverflow)
        } else {
            None
        }
    }

    /// `new` is `old` with the vote of `voter` for choice `yes` counted.
    pub open spec fn counted(old: Proposal, new: Proposal, voter: Voter, yes: bool) -> bool {
        &&& new.voters@ == old.voters@.push(voter.account)
        &&& new.votes_for == if yes { old.votes_for + voter.power } else { old.votes_for as int }
        &&& new.votes_against == if yes { old.votes_against as int } else { old.votes_against + voter.power }
        &&& new == (Proposal {
            voters: new.voters,
            votes_for: new.votes_for,
            votes_against: new.votes_against,
            ..old
        })
    }

    /// Why the proposal cannot be executed at block `now` under quorum
    /// `min_support`, if anything prevents it.
    pub open spec fn execute_error(&self, now: u64, min_support: u32) -> Option<Error> {
        if !self.execution_open(now) {
            Some(Error::ExecutionWindowViolated {
                from: (self.voting_end + 1) as u64,
                to: self.execute_before,
            })
        } else if self.votes_for < min_support {
            Some(Error::InsufficientSupport { got: self.votes_for, min_support })
        } else if self.votes_for <= self.votes_against {
            Some(Error::ProposalRejected {
                votes_for: self.votes_for,
                votes_against: self.votes_against,
            })
        } else if self.executed {
            Some(Error::AlreadyExecuted)
        } else {
            None
        }
    }

    /// Counts the vote of `voter` for choice `vote_yes` at block `now`.
    ///
    /// A repeated vote fails whatever the choice; so does a vote outside the
    /// window `voting_start ..= voting_end`.
    pub fn vote(&mut self, now: u64, voter: &Voter, vote_yes: bool) -> (r: Result<(), Error>)
        requires
            old(self).voters_distinct(),
        ensures
            final(self).voters_distinct(),
            match old(self).vote_error(now, *voter, vote_yes) {
                Some(e) => r == Err::<(), Error>(e) && *final(self) == *old(self),
                None => r is Ok && Proposal::counted(*old(self), *final(self), *voter, vote_yes),
            },
    {
        let mut i: usize = 0;
        while i < self.voters.len()
            invariant
                *self == *old(self),
                self.voters_distinct(),
                i <= self.voters@.len(),
                forall|j: int| 0 <= j < i ==> (#[trigger] self.voters@[j])@ != voter.account@,
            decreases self.voters@.len() - i,
        {
            if self.voters[i] == voter.account {
                return Err(Error::AlreadyVoted);
            }
            i = i + 1;
        }
        if !(self.voting_start <= now && now <= self.voting_end) {
            return Err(Error::VotingNotActive);
        }
        let p: u32 = voter.power as u32;
        if vote_yes {
            match self.votes_for.checked_add(p) {
                Some(v) => {
                    self.votes_for = v;
                },
                None => {
                    return Err(Error::TallyOverflow);
                },
            }
        } else {
            match self.votes_against.checked_add(p) {
                Some(v) => {
                    self.votes_against = v;
                },
                None => {
                    return Err(Error::TallyOverflow);
                },
            }
        }
        self.voters.push(voter.account.clone());
        Ok(())
    }

    /// Marks the proposal executed at block `now` under quorum `min_support`
    /// and returns the effect to request.
    ///
    /// Succeeds only strictly after the voting window and not after
    /// `execute_before`, with at least `min_support` in favour, more in favour
    /// than against, and only once.
    pub fn execute(&mut self, now: u64, min_support: u32) -> (r: Result<Action, Error>)
        requires
            old(self).well_formed(),
        ensures
            match old(self).execute_error(now, min_support) {
                Some(e) => r == Err::<Action, Error>(e) && *final(self) == *old(self),
                None => r == Ok::<Action, Error>(old(self).action) && *final(self) == (Proposal {
                    executed: true,
                    ..*old(self)
                }),
            },
    {
        if !(self.voting_end < now && now <= self.execute_before) {
            return Err(
                Error::ExecutionWindowViolated { from: self.voting_end + 1, to: self.execute_before },
            );
        }
        if self.votes_for < min_support {
            return Err(Error::InsufficientSupport { got: self.votes_for, min_support });
        }
        if self.votes_for <= self.votes_against {
            return Err(
                Error::ProposalRejected {
                    votes_for: self.votes_for,
                    votes_against: self.votes_against,
                },
            );
        }
        if self.executed {
            return Err(Error::AlreadyExecuted);
        }
        self.executed = true;
        Ok(self.action.cloned())
    }
}
/// Once a vote of an account is counted, every further vote of that account
/// is refused as a repeated vote, whatever its block and its choice.
pub proof fn lemma_vote_at_most_once(
    before: Proposal,
    after: Proposal,
    voter: Voter,
    vote_yes: bool,
    again: Voter,
    now: u64,
    again_yes: bool,
)
    requires
        Proposal::counted(before, after, voter, vote_yes),
        again.account@ == voter.account@,
    ensures
        after.vote_error(now, again, again_yes) == Some(Error::AlreadyVoted),
{
    assert(after.voters@[after.voters@.len() - 1] == voter.account);
}

/// A proposal that was executed refuses every later execution in its window
/// as already executed, and so never yields a second effect.
pub proof fn lemma_execute_once(before: Proposal, now: u64, min_support: u32, later: u64)
    requires
        before.execute_error(now, min_support) is None,
        before.execution_open(later),
    ensures
        (Proposal { executed: true, ..before }).execute_error(later, min_support) == Some(
            Error::AlreadyExecuted,
        ),
{
}

/// The arguments of a request to create a proposal.
#[derive(Clone, Debug)]
pub struct NewProposal {
    pub action: Action,
    pub description: String,
    /// block in which voting starts
    pub voting_start: u64,
    /// voting duration in number of blocks
    pub voting_duration: u32,
    /// last block in which the proposal can be executed; must be after
    /// `voting_start + voting_duration`
    pub execute_before: u64,
}

impl NewProposal {
    /// Why this request is refused at block `now` under the duration bounds
    /// `min_duration ..= max_duration`, if it is.
    pub open spec fn creation_error(
        &self,
        now: u64,
        min_duration: u32,
        max_duration: u32,
    ) -> Option<Error> {
        if !account_id_valid(self.action.dest_of()@) {
            Some(Error::InvalidAccount { account: self.action.dest_of() })
        } else if self.voting_start <= now {
            Some(Error::StartNotInFuture)
        } else if !(min_duration <= self.voting_duration <= max_duration) {
            Some(Error::InvalidDuration { min: min_duration, max: max_duration })
        } else if self.execute_before <= self.voting_start + self.voting_duration {
            Some(Error::ExecuteWindowInvalid)
        } else {
            None
        }
    }

    /// `p` is the fresh proposal, without votes, that this request made in `ctx`.
    pub open spec fn describes(self, ctx: Context, p: Proposal) -> bool {
        &&& p.well_formed()
        &&& p.proposer == ctx.predecessor_account_id
        &&& p.description == self.description
        &&& p.action == self.action
        &&& p.voters@.len() == 0
        &&& p.voting_start == self.voting_start
        &&& p.voting_end == self.voting_start + self.voting_duration
        &&& p.execute_before == self.execute_before
        &&& p.votes_for == 0
        &&& p.votes_against == 0
        &&& !p.executed
    }

    /// Validates the request at the block and for the caller of `ctx`, and
    /// builds the proposal it describes, with no votes yet.
    pub fn into_proposal(
        &self,
        ctx: &Context,
        min_duration: u32,
        max_duration: u32,
    ) -> (r: Result<Proposal, Error>)
        requires
            2 <= min_duration,
        ensures
            match self.creation_error(ctx.block_index, min_duration, max_duration) {
                Some(e) => r == Err::<Proposal, Error>(e),
                None => r is Ok,
            },
            r matches Ok(p) ==> self.describes(*ctx, p),
    {
        if let Err(e) = assert_valid_account(self.action.dest()) {
            return Err(e);
        }
        let voting_start = self.voting_start;
        let execute_before = self.execute_before;
        if voting_start <= ctx.block_index {
            return Err(Error::StartNotInFuture);
        }
        if !(min_duration <= self.voting_duration && self.voting_duration <= max_duration) {
            return Err(Error::InvalidDuration { min: min_duration, max: max_duration });
        }
        let voting_end = match voting_start.checked_add(self.voting_duration as u64) {
            Some(e) => e,
            None => {
                return Err(Error::ExecuteWindowInvalid);
            },
        };
        if execute_before <= voting_end {
            return Err(Error::ExecuteWindowInvalid);
        }
        Ok(
            Proposal {
                proposer: ctx.predecessor_account_id.clone(),
                description: self.description.clone(),
                action: self.action.cloned(),
                voters: Vec::new(),
                voting_start,
                voting_end,
                votes_for: 0,
                votes_against: 0,
                execute_before,
                executed: false,
            },
        )
    }
}

/// The public projection of a proposal.
#[derive(Debug, PartialEq, Eq)]
pub struct ProposalOut {
    pub action: Action,
    pub description: String,
    /// first block of the voting window
    pub voting_start: u64,
    /// last block of the voting window
    pub voting_end: u64,
    pub votes_for: u32,
    pub votes_against: u32,
    pub execute_before: u64,
    pub executed: bool,
}

impl ProposalOut {
    /// Whether `self` is the projection of `p`.
    pub open spec fn projects(self, p: Proposal) -> bool {
        self == (ProposalOut {
            action: p.action,
            description: p.description,
            voting_start: p.voting_start,
            voting_end: p.voting_end,
            votes_for: p.votes_for,
            votes_against: p.votes_against,
            execute_before: p.execute_before,
            executed: p.executed,
        })
    }
}

impl From<Proposal> for ProposalOut {
    fn from(p: Proposal) -> (r: ProposalOut) {
        ProposalOut {
            action: p.action,
            description: p.description,
            voting_start: p.voting_start,
            voting_end: p.voting_end,
            votes_for: p.votes_for,
            votes_against: p.votes_against,
            execute_before: p.execute_before,
            executed: p.executed,
        }
    }
}

impl vstd::std_specs::convert::FromSpecImpl<Proposal> for ProposalOut {
    open spec fn obeys_from_spec() -> bool {
        true
    }

    open spec fn from_spec(p: Proposal) -> ProposalOut {
        ProposalOut {
            action: p.action,
            description: p.description,
            voting_start: p.voting_start,
            voting_end: p.voting_end,
            votes_for: p.votes_for,
            votes_against: p.votes_against,
            execute_before: p.execute_before,
            executed: p.executed,
        }
    }
}

} // verus!
