use cw_dao::contract::{
    execute, execute_close, execute_execute, execute_propose, execute_receive,
    execute_questions, execute_update_config, execute_vote, instantiate,
};
use cw_dao::error::{ContractError, PlatformError};
use cw_dao::expiration::{BlockInfo, Duration, Expiration};
use cw_dao::msg::{
    ContractInfo, Cw20ReceiveMsg, Env, ExecuteMsg, InstantiateMsg, MessageInfo, QueryMsg,
};
use cw_dao::outside::{Answers, Question};
use cw_dao::proposal::{Status, Vote};
use cw_dao::query::{
    list_proposals, list_votes, query, query_proposal, query_vote, reverse_proposals,
};
use cw_dao::records::{execute_records, query_records, Records};
use cw_dao::state::Dao;
use cw_dao::table::BallotKey;
use cw_dao::threshold::{votes_needed, Decimal, Threshold};

const PERCENT: u128 = 10_000_000_000_000_000;

fn env_at(height: u64) -> Env {
    Env {
        block: BlockInfo { height, time: 0 },
        contract: ContractInfo { address: "dao".to_string() },
    }
}

fn info(sender: &str) -> MessageInfo {
    MessageInfo { sender: sender.to_string() }
}

fn quorum() -> Threshold {
    Threshold::ThresholdQuorum {
        threshold: Decimal { atomics: 51 * PERCENT },
        quorum: Decimal { atomics: 10 * PERCENT },
    }
}

fn set_up() -> Dao {
    let mut dao = Dao::new();
    let msg = InstantiateMsg {
        cw20_addr: "token".to_string(),
        threshold: quorum(),
        max_voting_period: Duration::Height(100),
        proposal_deposit_amount: 10,
        proposal_deposit_token_address: "deposit".to_string(),
    };
    instantiate(&mut dao, msg, Some("token".to_string()), Some("deposit".to_string())).unwrap();
    dao
}

fn propose(dao: &mut Dao, sender: &str) {
    execute_propose(
        dao,
        &env_at(1),
        &info(sender),
        "title".to_string(),
        "description".to_string(),
        vec![],
        None,
        Some(1),
        Ok(100),
    )
    .unwrap();
}

fn weight_of_ballots(dao: &Dao, id: u64, vote: Vote) -> u128 {
    let mut sum = 0;
    for row in 0..dao.ballots.len() {
        if dao.ballots.key_at(row).proposal_id == id && dao.ballots.record_at(row).vote == vote {
            sum += dao.ballots.record_at(row).weight;
        }
    }
    sum
}

#[test]
fn votes_are_what_the_ballots_add_up_to() {
    let mut dao = set_up();
    propose(&mut dao, "alice");
    propose(&mut dao, "bob");
    let cast = [
        (1, "a", Vote::Yes, 3),
        (2, "a", Vote::No, 4),
        (1, "b", Vote::Yes, 5),
        (2, "b", Vote::Yes, 6),
        (1, "c", Vote::Abstain, 7),
        (2, "c", Vote::Veto, 8),
    ];
    for (id, voter, vote, weight) in cast {
        execute_vote(&mut dao, &env_at(2), &info(voter), id, vote, Some(weight)).unwrap();
        for id in [1, 2] {
            let votes = dao.proposals.get(&id).unwrap().votes;
            assert_eq!(votes.yes, weight_of_ballots(&dao, id, Vote::Yes));
            assert_eq!(votes.no, weight_of_ballots(&dao, id, Vote::No));
            assert_eq!(votes.abstain, weight_of_ballots(&dao, id, Vote::Abstain));
            assert_eq!(votes.veto, weight_of_ballots(&dao, id, Vote::Veto));
        }
    }
    assert_eq!(dao.proposals.get(&1).unwrap().votes.yes, 8);
    assert_eq!(dao.proposals.get(&2).unwrap().votes.yes, 6);
}

#[test]
fn one_vote_for_good() {
    let mut dao = set_up();
    propose(&mut dao, "alice");
    execute_vote(&mut dao, &env_at(2), &info("bob"), 1, Vote::No, Some(3)).unwrap();
    propose(&mut dao, "carol");
    execute_vote(&mut dao, &env_at(3), &info("carol"), 1, Vote::Abstain, Some(3)).unwrap();
    assert_eq!(
        execute_vote(&mut dao, &env_at(4), &info("bob"), 1, Vote::Yes, Some(1000)),
        Err(ContractError::AlreadyVoted)
    );
    let read = query_vote(&dao, 1, "bob".to_string(), Ok("bob".to_string())).unwrap().vote.unwrap();
    assert_eq!((read.vote, read.weight), (Vote::No, 3));
    execute_vote(&mut dao, &env_at(4), &info("bob"), 2, Vote::Yes, Some(1)).unwrap();
}

#[test]
fn proposals_read_back_what_was_handed_in() {
    let mut dao = set_up();
    propose(&mut dao, "alice");
    let shown = query_proposal(&dao, &env_at(1), 1, Ok(100)).unwrap();
    assert_eq!(shown.title, "title");
    assert_eq!(shown.description, "description");
    assert_eq!(shown.proposer, "alice");
    assert_eq!(shown.status, Status::Open);
    assert_eq!(shown.threshold, quorum().to_response(100));
    assert_eq!(shown.deposit_amount, 10);
    assert_eq!(shown.deposit_token_address, "deposit");
}

#[test]
fn passed_stays_passed_until_executed() {
    let mut dao = set_up();
    propose(&mut dao, "alice");
    execute_vote(&mut dao, &env_at(2), &info("bob"), 1, Vote::Yes, Some(51)).unwrap();
    propose(&mut dao, "carol");
    assert_eq!(
        execute_close(&mut dao, &env_at(1_000_000), &info("zoe"), 1),
        Err(ContractError::WrongCloseStatus)
    );
    execute_update_config(
        &mut dao,
        &env_at(1_000_000),
        &info("dao"),
        Threshold::AbsolutePercentage { percentage: Decimal { atomics: 100 * PERCENT } },
        Duration::Height(1),
        0,
        "deposit".to_string(),
        Some("deposit".to_string()),
    )
    .unwrap();
    assert_eq!(dao.proposals.get(&1).unwrap().status, Status::Passed);
    assert_eq!(dao.proposals.get(&1).unwrap().threshold, quorum());
    assert_eq!(dao.proposals.get(&1).unwrap().deposit.amount, 10);
    assert!(execute_execute(&mut dao, &info("zoe"), 1).is_ok());
    assert!(execute_execute(&mut dao, &info("zoe"), 1).is_err());
}

#[test]
fn rejected_is_never_executed() {
    let mut dao = set_up();
    propose(&mut dao, "alice");
    execute_close(&mut dao, &env_at(101), &info("zoe"), 1).unwrap();
    assert_eq!(
        execute_vote(&mut dao, &env_at(50), &info("bob"), 1, Vote::Yes, Some(51)),
        Err(ContractError::NotOpen)
    );
    assert_eq!(
        execute_execute(&mut dao, &info("zoe"), 1),
        Err(ContractError::WrongExecuteStatus)
    );
}

#[test]
fn receiving_again_changes_nothing() {
    let wrapper = Cw20ReceiveMsg { sender: "x".to_string(), amount: 1, msg: vec![] };
    let mut once = set_up();
    execute_receive(&mut once, &info("coin"), &wrapper).unwrap();
    let mut twice = set_up();
    execute_receive(&mut twice, &info("coin"), &wrapper).unwrap();
    execute_receive(&mut twice, &info("coin"), &wrapper).unwrap();
    assert_eq!(once, twice);
}

#[test]
fn what_has_ended_stays_ended() {
    for end in [Expiration::AtHeight(5), Expiration::AtTime(500)] {
        assert!(end.is_expired(&BlockInfo { height: 5, time: 500 }));
        assert!(end.is_expired(&BlockInfo { height: 6, time: 501 }));
    }
}

#[test]
fn shares_grow_with_the_weight() {
    for p in [1, PERCENT, 33 * PERCENT, 51 * PERCENT + 7, 100 * PERCENT] {
        let share = Decimal { atomics: p };
        let mut last = 0;
        for weight in 0..200u128 {
            let needed = votes_needed(weight, &share);
            assert!(last <= needed && needed <= weight);
            last = needed;
        }
    }
    assert_eq!(votes_needed(123_456, &Decimal { atomics: 100 * PERCENT }), 123_456);
}

#[test]
fn listing_back_visits_every_proposal_once() {
    let mut dao = set_up();
    for _ in 0..11 {
        propose(&mut dao, "alice");
    }
    let mut seen: Vec<u64> = vec![];
    let mut start = None;
    loop {
        let page = reverse_proposals(&dao, &env_at(1), start, Some(3)).unwrap();
        if page.proposals.is_empty() {
            break;
        }
        start = page.proposals.last().map(|proposal| proposal.id);
        seen.extend(page.proposals.iter().map(|proposal| proposal.id));
    }
    assert_eq!(seen, (1..=11).rev().collect::<Vec<u64>>());
}

#[test]
fn listing_on_visits_every_voter_once() {
    let mut dao = set_up();
    propose(&mut dao, "alice");
    let voters = ["m", "c", "x", "a", "q", "b", "z"];
    for voter in voters {
        execute_vote(&mut dao, &env_at(2), &info(voter), 1, Vote::No, Some(1)).unwrap();
    }
    let mut seen: Vec<String> = vec![];
    let mut start: Option<String> = None;
    loop {
        let address = match &start {
            Some(voter) => Ok(voter.clone()),
            None => Err(PlatformError::GenericErr { msg: "none".to_string() }),
        };
        let page = list_votes(&dao, 1, start.clone(), address, Some(2)).unwrap();
        if page.votes.is_empty() {
            break;
        }
        start = page.votes.last().map(|vote| vote.voter.clone());
        seen.extend(page.votes.into_iter().map(|vote| vote.voter));
    }
    assert_eq!(seen, ["a", "b", "c", "m", "q", "x", "z"]);
}

#[test]
fn only_what_was_asked_counts() {
    let noisy = || {
        let mut answers = Answers::unasked();
        answers.balance = Some(9);
        answers.total_supply = Ok(1);
        answers.address = Ok("elsewhere".to_string());
        answers.token_balances = vec![1, 2, 3];
        answers
    };
    let mut quiet_dao = set_up();
    let mut noisy_dao = set_up();
    propose(&mut quiet_dao, "alice");
    propose(&mut noisy_dao, "alice");
    let vote = || ExecuteMsg::Vote { proposal_id: 1, vote: Vote::Yes };
    let mut answers = Answers::unasked();
    answers.balance_at_height = Some(2);
    let quiet = execute(&mut quiet_dao, &env_at(2), &info("bob"), vote(), answers);
    let mut answers = noisy();
    answers.balance_at_height = Some(2);
    let loud = execute(&mut noisy_dao, &env_at(2), &info("bob"), vote(), answers);
    assert_eq!(quiet, loud);
    assert_eq!(quiet_dao, noisy_dao);
}

#[test]
fn voting_token_stays_first_in_the_list() {
    let mut dao = set_up();
    let wrapper = Cw20ReceiveMsg { sender: "x".to_string(), amount: 1, msg: vec![] };
    for token in ["aaa", "token", "zzz", "aaa"] {
        execute_receive(&mut dao, &info(token), &wrapper).unwrap();
    }
    let listed = vec!["token".to_string(), "aaa".to_string(), "zzz".to_string()];
    assert_eq!(dao.treasury_tokens, Some(listed));
}

#[test]
fn end_of_voting_reads_back() {
    let wishes = [
        (None, Expiration::AtHeight(101)),
        (Some(Expiration::AtHeight(7)), Expiration::AtHeight(7)),
        (Some(Expiration::AtHeight(500)), Expiration::AtHeight(101)),
        (Some(Expiration::Never), Expiration::AtHeight(101)),
    ];
    for (latest, end) in wishes {
        let mut dao = set_up();
        execute_propose(
            &mut dao,
            &env_at(1),
            &info("alice"),
            "title".to_string(),
            "description".to_string(),
            vec![],
            latest,
            Some(1),
            Ok(100),
        )
        .unwrap();
        assert_eq!(query_proposal(&dao, &env_at(1), 1, Ok(100)).unwrap().expires, end);
    }
}

#[test]
fn voting_and_closing_exclude_each_other() {
    for height in [1, 100, 101, 102, 1000] {
        let mut voted = set_up();
        propose(&mut voted, "alice");
        let mut closed = set_up();
        propose(&mut closed, "alice");
        let vote = execute_vote(&mut voted, &env_at(height), &info("bob"), 1, Vote::No, Some(1));
        let close = execute_close(&mut closed, &env_at(height), &info("bob"), 1);
        if height < 101 {
            assert!(vote.is_ok());
            assert_eq!(close, Err(ContractError::NotExpired));
        } else {
            assert_eq!(vote, Err(ContractError::Expired));
            assert!(close.is_ok());
        }
    }
}

#[test]
fn voting_power_is_that_at_the_start() {
    let mut poor = set_up();
    propose(&mut poor, "alice");
    let mut rich = set_up();
    propose(&mut rich, "alice");
    let vote = || ExecuteMsg::Vote { proposal_id: 1, vote: Vote::Veto };
    let height = Question::BalanceAtHeight {
        token: "token".to_string(),
        holder: "bob".to_string(),
        height: 1,
    };
    assert_eq!(execute_questions(&poor, &info("bob"), &vote()), vec![height]);
    let mut answers = Answers::unasked();
    answers.balance_at_height = Some(3);
    let left = execute(&mut poor, &env_at(9), &info("bob"), vote(), answers);
    let mut answers = Answers::unasked();
    answers.balance_at_height = Some(3);
    answers.balance = Some(1_000_000);
    let right = execute(&mut rich, &env_at(9), &info("bob"), vote(), answers);
    assert!(left.is_ok());
    assert_eq!(left, right);
    assert_eq!(poor, rich);
    assert_eq!(poor.load_proposal(1).unwrap().votes.veto, 3);
    let key = BallotKey { proposal_id: 1, voter: "bob".to_string() };
    assert_eq!(poor.ballots.get(&key).unwrap().weight, 3);
}

/// The state without its proposals and ballots.
fn base_of(dao: &Dao) -> Dao {
    let mut part = Dao::new();
    part.config = dao.config.clone();
    part.treasury_tokens = dao.treasury_tokens.clone();
    part.proposal_count = dao.proposal_count;
    part
}

#[test]
fn votes_on_a_part_of_the_state() {
    let mut whole = set_up();
    for proposer in ["alice", "bob", "carol"] {
        propose(&mut whole, proposer);
    }
    execute_vote(&mut whole, &env_at(2), &info("bob"), 1, Vote::Yes, Some(5)).unwrap();
    let vote = || ExecuteMsg::Vote { proposal_id: 2, vote: Vote::No };
    let voter = "bob".to_string();
    assert_eq!(
        execute_records(&info("bob"), &vote()),
        vec![Records::Proposal { id: 2 }, Records::Ballot { proposal_id: 2, voter }]
    );
    let close = ExecuteMsg::Close { proposal_id: 3 };
    assert_eq!(execute_records(&info("bob"), &close), vec![Records::Proposal { id: 3 }]);
    let mut part = base_of(&whole);
    part.proposals.insert(2, whole.load_proposal(2).unwrap());
    let answers = || {
        let mut answers = Answers::unasked();
        answers.balance_at_height = Some(4);
        answers
    };
    let on_part = execute(&mut part, &env_at(3), &info("bob"), vote(), answers());
    let on_whole = execute(&mut whole, &env_at(3), &info("bob"), vote(), answers());
    assert!(on_part.is_ok());
    assert_eq!(on_part, on_whole);
    assert_eq!(part.load_proposal(2), whole.load_proposal(2));
    let key = BallotKey { proposal_id: 2, voter: "bob".to_string() };
    assert_eq!(part.ballots.get(&key), whole.ballots.get(&key));
}

#[test]
fn pages_from_a_part_of_the_state() {
    let mut whole = set_up();
    for _ in 0..9 {
        propose(&mut whole, "alice");
    }
    let msg = || QueryMsg::ListProposals { start_after: Some(3), limit: Some(2) };
    assert_eq!(
        query_records(&msg(), &Answers::unasked()),
        vec![Records::ProposalsAfter { start: Some(3), limit: 2 }]
    );
    let mut part = base_of(&whole);
    for id in [4, 5] {
        part.proposals.insert(id, whole.load_proposal(id).unwrap());
    }
    let env = env_at(2);
    assert_eq!(
        query(&part, &env, msg(), Answers::unasked()),
        query(&whole, &env, msg(), Answers::unasked())
    );
    let page = list_proposals(&part, &env, Some(3), Some(2)).unwrap();
    assert_eq!(page.proposals.iter().map(|shown| shown.id).collect::<Vec<u64>>(), vec![4, 5]);
    let back = QueryMsg::ReverseProposals { start_before: None, limit: Some(50) };
    assert_eq!(
        query_records(&back, &Answers::unasked()),
        vec![Records::ProposalsBefore { start: None, limit: 30 }]
    );
    let mut answers = Answers::unasked();
    answers.address = Ok("bob".to_string());
    let start_after = Some("Bob".to_string());
    let votes = QueryMsg::ListVotes { proposal_id: 1, start_after, limit: None };
    assert_eq!(
        query_records(&votes, &answers),
        vec![Records::BallotsAfter { proposal_id: 1, after: Some("bob".to_string()), limit: 10 }]
    );
    assert_eq!(query_records(&votes, &Answers::unasked()), vec![]);
}

#[test]
fn only_what_was_asked_is_shown() {
    let mut dao = set_up();
    propose(&mut dao, "alice");
    execute_vote(&mut dao, &env_at(2), &info("bob"), 1, Vote::Yes, Some(5)).unwrap();
    let noisy = || {
        let mut answers = Answers::unasked();
        answers.address = Ok("carol".to_string());
        answers.balance = Some(9);
        answers.balance_at_height = Some(8);
        answers.total_supply = Ok(7);
        answers.token_balances = vec![6, 6];
        answers
    };
    let env = env_at(3);
    let unasked = [
        || QueryMsg::GetConfig,
        || QueryMsg::Cw20TokenList,
        || QueryMsg::ListProposals { start_after: None, limit: None },
        || QueryMsg::ReverseProposals { start_before: None, limit: None },
        || QueryMsg::ListVotes { proposal_id: 1, start_after: None, limit: None },
    ];
    for msg in unasked {
        assert_eq!(
            query(&dao, &env, msg(), noisy()),
            query(&dao, &env, msg(), Answers::unasked())
        );
    }
    let mut quiet = Answers::unasked();
    quiet.total_supply = Ok(7);
    assert_eq!(
        query(&dao, &env, QueryMsg::Threshold, noisy()),
        query(&dao, &env, QueryMsg::Threshold, quiet)
    );
    let vote = || QueryMsg::Vote { proposal_id: 1, voter: "Carol".to_string() };
    let mut quiet = Answers::unasked();
    quiet.address = Ok("carol".to_string());
    assert_eq!(query(&dao, &env, vote(), noisy()), query(&dao, &env, vote(), quiet));
}

#[test]
fn deposit_is_taken_and_carried_out_without_fail() {
    let mut dao = set_up();
    let response = execute_propose(
        &mut dao,
        &env_at(1),
        &info("alice"),
        "title".to_string(),
        "description".to_string(),
        vec![],
        None,
        Some(1),
        Ok(100),
    )
    .unwrap();
    assert_eq!(response.messages.len(), 1);
    execute_vote(&mut dao, &env_at(2), &info("bob"), 1, Vote::Yes, Some(60)).unwrap();
    let response = execute_execute(&mut dao, &info("zoe"), 1).unwrap();
    assert_eq!(response.messages.len(), 1);
    let stored = dao.load_proposal(1).unwrap();
    assert_eq!(stored.status, Status::Executed);
    assert_eq!(dao.config.unwrap().cw20_addr, "token");
}
