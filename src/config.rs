use vstd::prelude::*;

use crate::account::{account_id_valid, assert_valid_account};
use crate::context::{storage_byte_cost, storage_price};
use crate::error::Error;
use crate::proposal::Voter;

verus! {

/// The committee configuration, fixed once the contract is created.
#[derive(Debug)]
pub struct Settings {
    pub deployer_id: String,
    /// the committee, in order
    pub members: Vec<Voter>,
    /// minimum support (in power) a proposal needs to pass
    pub min_support: u32,
    /// bounds of a proposal's voting duration, in blocks
    pub min_duration: u32,
    pub max_duration: u32,
    /// minimum payment for creating a proposal, storage fees included
    pub min_bond: u128,
}

impl Settings {
    /// The bounds that construction checks.
    pub open spec fn well_formed(&self) -> bool {
        &&& self.min_support > 0
        &&& 2 <= self.min_duration < self.max_duration
        &&& self.min_bond > storage_price()
    }
}

/// Whether `a` is the account of some member.
pub open spec fn is_member(members: Seq<Voter>, a: Seq<char>) -> bool {
    exists|i: int| 0 <= i < members.len() && (#[trigger] members[i]).account@ == a
}

/// The first member whose account is `a`.
pub open spec fn voter_of(members: Seq<Voter>, a: Seq<char>) -> Voter
    recommends
        is_member(members, a),
    decreases members.len(),
{
    if members.len() == 0 {
        arbitrary()
    } else if members[0].account@ == a {
        members[0]
    } else {
        voter_of(members.drop_first(), a)
    }
}

/// The voting power of account `a`: that of its first entry in the
/// committee, nothing for an outsider.
pub open spec fn power_of(members: Seq<Voter>, a: Seq<char>) -> int {
    if is_member(members, a) {
        voter_of(members, a).power as int
    } else {
        0
    }
}

/// The summed power of the accounts in `voters`.
pub open spec fn power_sum(members: Seq<Voter>, voters: Seq<String>) -> int
    decreases voters.len(),
{
    if voters.len() == 0 {
        0
    } else {
        power_sum(members, voters.drop_last()) + power_of(members, voters.last()@)
    }
}

/// The first member with account `a` is a member with that account.
pub proof fn lemma_voter_of(members: Seq<Voter>, a: Seq<char>)
    requires
        is_member(members, a),
    ensures
        voter_of(members, a).account@ == a,
        members.contains(voter_of(members, a)),
    decreases members.len(),
{
    if members[0].account@ != a {
        let i = choose|i: int| 0 <= i < members.len() && (#[trigger] members[i]).account@ == a;
        assert(members.drop_first()[i - 1] == members[i]);
        lemma_voter_of(members.drop_first(), a);
        let v = voter_of(members.drop_first(), a);
        let j = choose|j: int| 0 <= j < members.drop_first().len() && members.drop_first()[j] == v;
        assert(members[j + 1] == v);
    } else {
        assert(members[0] == voter_of(members, a));
    }
}

/// Finds the first member whose account is `a`.
pub fn find_member(members: &Vec<Voter>, a: &String) -> (r: Option<usize>)
    ensures
        r is None <==> !is_member(members@, a@),
        r matches Some(i) ==> i < members@.len() && members@[i as int] == voter_of(members@, a@),
{
    let mut i: usize = 0;
    assert(members@.subrange(0, members@.len() as int) =~= members@);
    while i < members.len()
        invariant
            i <= members@.len(),
            forall|j: int| 0 <= j < i ==> (#[trigger] members@[j]).account@ != a@,
            voter_of(members@, a@) == voter_of(members@.subrange(i as int, members@.len() as int), a@),
        decreases members@.len() - i,
    {
        let ghost rest = members@.subrange(i as int, members@.len() as int);
        assert(rest[0] == members@[i as int]);
        if members[i].account == *a {
            return Some(i);
        }
        assert(rest.drop_first() =~= members@.subrange(i + 1, members@.len() as int));
        i = i + 1;
    }
    None
}

/// Every member's account is a well-formed account id.
pub open spec fn accounts_valid(members: Seq<Voter>) -> bool {
    forall|i: int| 0 <= i < members.len() ==> account_id_valid((#[trigger] members[i]).account@)
}

/// Whether a committee configuration passes every check.
pub open spec fn settings_acceptable(
    members: Seq<Voter>,
    min_support: u32,
    min_duration: u32,
    max_duration: u32,
    min_bond: u128,
) -> bool {
    &&& min_support > 0
    &&& accounts_valid(members)
    &&& 2 <= min_duration < max_duration
    &&& min_bond > storage_price()
}

/// Whether `e` is the error that the first failing check on a committee
/// configuration reports.
pub open spec fn settings_error_is(
    members: Seq<Voter>,
    min_support: u32,
    min_duration: u32,
    max_duration: u32,
    min_bond: u128,
    e: Error,
) -> bool {
    if min_support == 0 {
        e == Error::MinSupportNotPositive
    } else if !accounts_valid(members) {
        exists|k: int|
            0 <= k < members.len() && !account_id_valid(members[k].account@) && accounts_valid(
                members.take(k),
            ) && e == (Error::InvalidAccount { account: members[k].account })
    } else if !(2 <= min_duration < max_duration) {
        e == Error::InvalidDurationBounds
    } else if min_bond <= storage_price() {
        e == (Error::BondTooSmall { price: storage_price() as u128 })
    } else {
        false
    }
}

/// Checks the committee configuration and records `deployer_id` as its
/// creator.
pub fn validate_settings(
    deployer_id: String,
    members: Vec<Voter>,
    min_support: u32,
    min_duration: u32,
    max_duration: u32,
    min_bond: u128,
) -> (r: Result<Settings, Error>)
    ensures
        r is Ok <==> settings_acceptable(members@, min_support, min_duration, max_duration, min_bond),
        r matches Ok(s) ==> s == (Settings {
            deployer_id,
            members,
            min_support,
            min_duration,
            max_duration,
            min_bond,
        }) && s.well_formed(),
        r matches Err(e) ==> settings_error_is(
            members@,
            min_support,
            min_duration,
            max_duration,
            min_bond,
            e,
        ),
{
    if min_support == 0 {
        return Err(Error::MinSupportNotPositive);
    }
    let mut i: usize = 0;
    while i < members.len()
        invariant
            min_support > 0,
            i <= members@.len(),
            accounts_valid(members@.take(i as int)),
        decreases members@.len() - i,
    {
        if let Err(e) = assert_valid_account(&members[i].account) {
            assert(!account_id_valid(members@[i as int].account@));
            return Err(e);
        }
        assert(members@.take(i + 1) =~= members@.take(i as int).push(members@[i as int]));
        i = i + 1;
    }
    assert(members@.take(members@.len() as int) =~= members@);
    if !(min_duration >= 2 && max_duration > min_duration) {
        return Err(Error::InvalidDurationBounds);
    }
    let price = storage_byte_cost();
    if min_bond <= price {
        return Err(Error::BondTooSmall { price });
    }
    Ok(Settings { deployer_id, members, min_support, min_duration, max_duration, min_bond })
}

} // verus!
