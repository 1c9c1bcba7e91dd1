use multisig::account::assert_valid_account;
use multisig::context::Context;
use multisig::error::Error;
use multisig::proposal::{Action, NewProposal, Proposal, Voter};
use multisig::Contract;

const PRICE: u128 = 10_000_000_000_000_000_000;
const BOND: u128 = PRICE * 20;

fn at(who: &str, deposit: u128, block: u64) -> Context {
    Context { block_index: block, predecessor_account_id: who.to_string(), attached_deposit: deposit }
}

fn committee() -> Vec<Voter> {
    vec![
        Voter { account: "alice".to_string(), power: 2 },
        Voter { account: "bob".to_string(), power: 3 },
        Voter { account: "charlie".to_string(), power: 4 },
    ]
}

fn engine(min_support: u32) -> Contract {
    Contract::new(&at("deployer", 0, 0), committee(), min_support, 10, 20, BOND).unwrap()
}

fn request(start: u64, duration: u32, execute_before: u64) -> NewProposal {
    NewProposal {
        action: Action::Transfer { dest: "danny".to_string(), amount: 3000 },
        description: "transfer to danny".to_string(),
        voting_start: start,
        voting_duration: duration,
        execute_before,
    }
}

fn engine_with_proposal(min_support: u32) -> Contract {
    let mut c = engine(min_support);
    assert_eq!(c.add_proposal(&at("alice", BOND, 1), request(10, 20, 100)), Ok(0));
    c
}

#[test]
fn committee_scenario_executes_once() {
    let mut c = engine_with_proposal(5);
    assert_eq!(c.vote(&at("alice", 0, 10), 0, true), Ok(()));
    assert_eq!(c.vote(&at("bob", 0, 11), 0, false), Ok(()));
    assert_eq!(c.vote(&at("charlie", 0, 12), 0, true), Ok(()));
    let p = c.proposal(0).unwrap();
    assert_eq!((p.votes_for, p.votes_against), (6, 3));
    assert_eq!(p.voting_end, 30);
    assert_eq!(
        c.execute(&at("eugene", 0, 31), 0),
        Ok(Action::Transfer { dest: "danny".to_string(), amount: 3000 })
    );
    assert!(c.proposal(0).unwrap().executed);
    assert_eq!(c.execute(&at("eugene", 0, 32), 0), Err(Error::AlreadyExecuted));
}

#[test]
fn tallies_add_up_to_voters_power() {
    let mut c = engine_with_proposal(5);
    assert_eq!(c.vote(&at("bob", 0, 10), 0, false), Ok(()));
    assert_eq!(c.vote(&at("charlie", 0, 30), 0, false), Ok(()));
    let p = c.proposal(0).unwrap();
    assert_eq!(p.votes_for, 0);
    assert_eq!(p.votes_against, 7);
    assert_eq!(c.proposals[0].voters, vec!["bob".to_string(), "charlie".to_string()]);
}

#[test]
fn second_vote_refused_whatever_the_choice() {
    let mut c = engine_with_proposal(5);
    assert_eq!(c.vote(&at("alice", 0, 10), 0, true), Ok(()));
    assert_eq!(c.vote(&at("alice", 0, 11), 0, true), Err(Error::AlreadyVoted));
    assert_eq!(c.vote(&at("alice", 0, 12), 0, false), Err(Error::AlreadyVoted));
    assert_eq!(c.vote(&at("alice", 0, 31), 0, false), Err(Error::AlreadyVoted));
    let p = c.proposal(0).unwrap();
    assert_eq!((p.votes_for, p.votes_against), (2, 0));
}

#[test]
fn vote_window_is_inclusive() {
    let mut c = engine_with_proposal(5);
    assert_eq!(c.vote(&at("alice", 0, 9), 0, true), Err(Error::VotingNotActive));
    assert_eq!(c.vote(&at("alice", 0, 10), 0, true), Ok(()));
    assert_eq!(c.vote(&at("bob", 0, 30), 0, true), Ok(()));
    assert_eq!(c.vote(&at("charlie", 0, 31), 0, true), Err(Error::VotingNotActive));
}

#[test]
fn non_member_is_refused_before_lookup() {
    let mut c = engine_with_proposal(5);
    assert_eq!(
        c.vote(&at("danny", 0, 12), 7, true),
        Err(Error::Unauthorized { account: "danny".to_string() })
    );
    assert_eq!(c.vote(&at("alice", 0, 12), 7, true), Err(Error::ProposalNotFound));
}

#[test]
fn execute_at_window_edges() {
    let mut c = engine_with_proposal(5);
    assert_eq!(c.vote(&at("alice", 0, 10), 0, true), Ok(()));
    assert_eq!(c.vote(&at("bob", 0, 10), 0, true), Ok(()));
    assert!(c.execute(&at("eugene", 0, 100), 0).is_ok());

    let mut d = engine_with_proposal(5);
    assert_eq!(d.vote(&at("charlie", 0, 10), 0, true), Ok(()));
    assert_eq!(d.vote(&at("alice", 0, 10), 0, true), Ok(()));
    assert!(d.execute(&at("eugene", 0, 31), 0).is_ok());
    assert_eq!(d.execute(&at("eugene", 0, 101), 0), Err(Error::ExecutionWindowViolated { from: 31, to: 100 }));
}

#[test]
fn execute_needs_strict_majority() {
    let mut c = engine_with_proposal(2);
    assert_eq!(c.vote(&at("alice", 0, 10), 0, true), Ok(()));
    assert_eq!(c.vote(&at("charlie", 0, 10), 0, false), Ok(()));
    assert_eq!(
        c.execute(&at("eugene", 0, 40), 0),
        Err(Error::ProposalRejected { votes_for: 2, votes_against: 4 })
    );
    assert!(!c.proposal(0).unwrap().executed);
}

#[test]
fn delete_action_is_the_effect() {
    let mut c = engine(2);
    let mut p = request(10, 10, 50);
    p.action = Action::Delete { dest: "fargo".to_string() };
    assert_eq!(c.add_proposal(&at("bob", BOND, 3), p), Ok(0));
    assert_eq!(c.vote(&at("bob", 0, 15), 0, true), Ok(()));
    assert_eq!(c.execute(&at("bob", 0, 21), 0), Ok(Action::Delete { dest: "fargo".to_string() }));
}

#[test]
fn indices_are_dense() {
    let mut c = engine(5);
    for i in 0..3u32 {
        assert_eq!(c.add_proposal(&at("zed", BOND, 1), request(10, 20, 100)), Ok(i));
    }
    assert_eq!(c.next_idx, 3);
    assert_eq!(c.proposal(3).err(), Some(Error::ProposalNotFound));
}

#[test]
fn creation_errors() {
    let mut c = engine(5);
    assert_eq!(c.add_proposal(&at("alice", BOND, 10), request(10, 20, 100)), Err(Error::StartNotInFuture));
    assert_eq!(
        c.add_proposal(&at("alice", BOND, 1), request(10, 9, 100)),
        Err(Error::InvalidDuration { min: 10, max: 20 })
    );
    assert_eq!(
        c.add_proposal(&at("alice", BOND, 1), request(10, 21, 100)),
        Err(Error::InvalidDuration { min: 10, max: 20 })
    );
    assert_eq!(c.add_proposal(&at("alice", BOND, 1), request(10, 20, 30)), Err(Error::ExecuteWindowInvalid));
    assert_eq!(
        c.add_proposal(&at("alice", BOND, 1), request(u64::MAX - 5, 10, u64::MAX)),
        Err(Error::ExecuteWindowInvalid)
    );
    let mut bad = request(10, 20, 100);
    bad.action = Action::Transfer { dest: "Danny".to_string(), amount: 1 };
    assert_eq!(
        c.add_proposal(&at("alice", BOND, 1), bad),
        Err(Error::InvalidAccount { account: "Danny".to_string() })
    );
    assert_eq!(c.next_idx, 0);
    assert_eq!(c.add_proposal(&at("alice", BOND, 1), request(10, 20, 31)), Ok(0));
    let p = c.proposal(0).unwrap();
    assert!(p.voting_start < p.voting_end && p.voting_end < p.execute_before);
    assert_eq!(c.proposals[0].proposer, "alice".to_string());
}

#[test]
fn constructor_rejects_malformed_member() {
    let mut members = committee();
    members.push(Voter { account: "Bad..Name".to_string(), power: 1 });
    members.push(Voter { account: "x".to_string(), power: 1 });
    let r = Contract::new(&at("deployer", 0, 0), members, 5, 10, 20, BOND);
    assert_eq!(r.err(), Some(Error::InvalidAccount { account: "Bad..Name".to_string() }));
    let ok = Contract::new(&at("deployer", 0, 0), committee(), 5, 10, 20, PRICE + 1).unwrap();
    assert_eq!(ok.settings.deployer_id, "deployer".to_string());
    assert_eq!(
        Contract::new(&at("deployer", 0, 0), committee(), 5, 10, 20, PRICE).err(),
        Some(Error::BondTooSmall { price: PRICE })
    );
}

#[test]
fn account_check() {
    assert_eq!(assert_valid_account(&"alice.near".to_string()), Ok(()));
    assert_eq!(assert_valid_account(&"a-b_c".to_string()), Ok(()));
    assert_eq!(
        assert_valid_account(&"a".to_string()),
        Err(Error::InvalidAccount { account: "a".to_string() })
    );
    assert_eq!(
        assert_valid_account(&"alice.".to_string()),
        Err(Error::InvalidAccount { account: "alice.".to_string() })
    );
}

#[test]
fn creation_deposit_is_at_least_the_bond() {
    let c = engine(5);
    // 5 bytes cost less than the bond: the bond is owed
    assert_eq!(c.refund_storage(&at("alice", BOND + 7, 1), 100, 105, true), Ok(7));
    assert_eq!(
        c.refund_storage(&at("alice", BOND - 1, 1), 100, 105, true),
        Err(Error::InsufficientDeposit { required: BOND, given: BOND - 1 })
    );
    // 30 bytes cost more than the bond
    assert_eq!(c.refund_storage(&at("alice", PRICE * 31, 1), 100, 130, true), Ok(PRICE));
    assert_eq!(
        c.refund_storage(&at("alice", BOND, 1), 100, 130, true),
        Err(Error::InsufficientDeposit { required: PRICE * 30, given: BOND })
    );
}

#[test]
fn other_calls_owe_the_storage_price() {
    let c = engine(5);
    assert_eq!(c.refund_storage(&at("alice", PRICE, 1), 100, 101, false), Ok(0));
    assert_eq!(c.refund_storage(&at("alice", BOND, 1), 100, 101, false), Ok(BOND - PRICE));
    assert_eq!(c.refund_storage(&at("alice", 5, 1), 100, 100, false), Ok(5));
    assert_eq!(c.refund_storage(&at("alice", 5, 1), 100, 98, true), Ok(5 + 2 * PRICE));
}

#[test]
fn tally_overflow_is_refused() {
    let mut p = Proposal {
        proposer: "alice".to_string(),
        description: String::new(),
        action: Action::Delete { dest: "bob".to_string() },
        voters: Vec::new(),
        voting_start: 10,
        voting_end: 20,
        votes_for: u32::MAX - 1,
        votes_against: 0,
        execute_before: 30,
        executed: false,
    };
    let v = Voter { account: "carol".to_string(), power: 2 };
    assert_eq!(p.vote(15, &v, true), Err(Error::TallyOverflow));
    assert_eq!(p.vote(15, &v, false), Ok(()));
    assert_eq!(p.votes_against, 2);
}
