use cw_dao::contract::{execute_propose, execute_receive, execute_vote, instantiate};
use cw_dao::error::{PlatformError, Record};
use cw_dao::expiration::{BlockInfo, Duration, Expiration};
use cw_dao::msg::{
    Coin, ContractInfo, CosmosMsg, Cw20ReceiveMsg, Env, InstantiateMsg, MessageInfo, QueryMsg,
};
use cw_dao::outside::{Answers, Question};
use cw_dao::proposal::{Status, Vote};
use cw_dao::query::{
    list_proposals, list_votes, map_proposal, page_size, query, query_all_balances, query_config,
    query_cw20_token_list, query_fits, query_proposal, query_questions, query_threshold, query_vote,
    query_voter, reverse_proposals, voter_question, Cw20CoinVerified, ProposalListResponse,
    QueryResponse, VoteInfo, VoteListResponse, VoteResponse, VoterResponse,
};
use cw_dao::state::{id_key, Dao};
use cw_dao::threshold::{Decimal, Threshold, ThresholdResponse};

const PERCENT: u128 = 10_000_000_000_000_000;

fn rule() -> Threshold {
    Threshold::AbsolutePercentage { percentage: Decimal { atomics: 50 * PERCENT } }
}

fn shown(total_weight: u128) -> ThresholdResponse {
    ThresholdResponse::AbsolutePercentage {
        percentage: Decimal { atomics: 50 * PERCENT },
        total_weight,
    }
}

fn env_at(height: u64) -> Env {
    Env {
        block: BlockInfo { height, time: 0 },
        contract: ContractInfo { address: "dao".to_string() },
    }
}

fn info(sender: &str) -> MessageInfo {
    MessageInfo { sender: sender.to_string() }
}

fn generic<T>(msg: &str) -> Result<T, PlatformError> {
    Err(PlatformError::GenericErr { msg: msg.to_string() })
}

fn set_up(proposals: u64) -> Dao {
    let mut dao = Dao::new();
    let msg = InstantiateMsg {
        cw20_addr: "Token".to_string(),
        threshold: rule(),
        max_voting_period: Duration::Height(100),
        proposal_deposit_amount: 0,
        proposal_deposit_token_address: "Deposit".to_string(),
    };
    instantiate(&mut dao, msg, Some("token".to_string()), Some("deposit".to_string())).unwrap();
    for i in 0..proposals {
        execute_propose(
            &mut dao,
            &env_at(i),
            &info("alice"),
            format!("title {}", i + 1),
            "d".to_string(),
            vec![CosmosMsg::Other { json: vec![1] }],
            None,
            Some(1),
            Ok(100),
        )
        .unwrap();
    }
    dao
}

fn ids(page: &ProposalListResponse) -> Vec<u64> {
    page.proposals.iter().map(|proposal| proposal.id).collect()
}

fn names(page: &VoteListResponse) -> Vec<String> {
    page.votes.iter().map(|vote| vote.voter.clone()).collect()
}

#[test]
fn threshold_query() {
    let dao = set_up(0);
    assert_eq!(query_threshold(&dao, Ok(77)), Ok(shown(77)));
    assert_eq!(query_threshold(&dao, generic("x")), generic("x"));
    assert_eq!(
        query_threshold(&Dao::new(), Ok(77)),
        Err(PlatformError::NotFound { record: Record::Config })
    );
}

#[test]
fn proposal_query_uses_the_supply_of_now() {
    let dao = set_up(2);
    let answer = query_proposal(&dao, &env_at(50), 2, Ok(400)).unwrap();
    assert_eq!(answer.id, 2);
    assert_eq!(answer.title, "title 2");
    assert_eq!(answer.description, "d");
    assert_eq!(answer.proposer, "alice");
    assert_eq!(answer.msgs, vec![CosmosMsg::Other { json: vec![1] }]);
    assert_eq!(answer.status, Status::Open);
    assert_eq!(answer.expires, Expiration::AtHeight(101));
    assert_eq!(answer.threshold, shown(400));
    assert_eq!(answer.deposit_amount, 0);
    assert_eq!(answer.deposit_token_address, "deposit");
    let answer = query_proposal(&dao, &env_at(101), 2, Ok(400)).unwrap();
    assert_eq!(answer.status, Status::Rejected);
    assert_eq!(
        query_proposal(&dao, &env_at(50), 3, generic("x")),
        Err(PlatformError::NotFound { record: Record::Proposal })
    );
    assert_eq!(query_proposal(&dao, &env_at(50), 1, generic("x")), generic("x"));
}

#[test]
fn config_and_token_queries() {
    let mut dao = set_up(0);
    assert_eq!(query_config(&dao).unwrap().config.cw20_addr, "token");
    let wrapper = Cw20ReceiveMsg { sender: "x".to_string(), amount: 1, msg: vec![] };
    execute_receive(&mut dao, &info("coin"), &wrapper).unwrap();
    assert_eq!(query_cw20_token_list(&dao).unwrap().token_list, ["token", "coin"]);
    let empty = Dao::new();
    assert_eq!(query_config(&empty), Err(PlatformError::NotFound { record: Record::Config }));
    assert_eq!(
        query_cw20_token_list(&empty),
        Err(PlatformError::NotFound { record: Record::TreasuryTokens })
    );
}

#[test]
fn vote_query_reads_back() {
    let mut dao = set_up(2);
    execute_vote(&mut dao, &env_at(5), &info("bob"), 1, Vote::Veto, Some(9)).unwrap();
    assert_eq!(
        query_vote(&dao, 1, "BOB".to_string(), Ok("bob".to_string())),
        Ok(VoteResponse {
            vote: Some(VoteInfo { voter: "BOB".to_string(), vote: Vote::Veto, weight: 9 })
        })
    );
    assert_eq!(
        query_vote(&dao, 2, "bob".to_string(), Ok("bob".to_string())),
        Ok(VoteResponse { vote: None })
    );
    assert_eq!(
        query_vote(&dao, 1, "carol".to_string(), Ok("carol".to_string())),
        Ok(VoteResponse { vote: None })
    );
    assert_eq!(query_vote(&dao, 1, "?".to_string(), generic("bad")), generic("bad"));
}

#[test]
fn voter_query() {
    let dao = set_up(0);
    assert_eq!(
        query_voter(&dao, Ok("bob".to_string()), Some(3)),
        Ok(VoterResponse { weight: Some(3) })
    );
    assert_eq!(
        query_voter(&dao, Ok("bob".to_string()), None),
        Ok(VoterResponse { weight: Some(0) })
    );
    assert_eq!(query_voter(&dao, generic("bad"), Some(3)), generic("bad"));
    assert_eq!(
        query_voter(&Dao::new(), Ok("bob".to_string()), Some(3)),
        Err(PlatformError::NotFound { record: Record::Config })
    );
    assert_eq!(
        voter_question(&dao, &Ok("bob".to_string())),
        Some(Question::Balance { token: "token".to_string(), holder: "bob".to_string() })
    );
    assert_eq!(voter_question(&dao, &generic("bad")), None);
    assert_eq!(voter_question(&Dao::new(), &Ok("bob".to_string())), None);
}

#[test]
fn all_balances_query() {
    let mut dao = set_up(0);
    let wrapper = Cw20ReceiveMsg { sender: "x".to_string(), amount: 1, msg: vec![] };
    execute_receive(&mut dao, &info("coin"), &wrapper).unwrap();
    let native = vec![Coin { denom: "ustars".to_string(), amount: 4 }];
    let answer = query_all_balances(&dao, Ok(native.clone()), &vec![10, 20]).unwrap();
    assert_eq!(answer.native, native);
    assert_eq!(
        answer.cw20,
        vec![
            Cw20CoinVerified { address: "token".to_string(), amount: 10 },
            Cw20CoinVerified { address: "coin".to_string(), amount: 20 },
        ]
    );
    assert_eq!(query_all_balances(&dao, generic("x"), &vec![]), generic("x"));
    assert_eq!(
        query_all_balances(&Dao::new(), Ok(vec![]), &vec![]),
        Err(PlatformError::NotFound { record: Record::TreasuryTokens })
    );
    let mut answers = Answers::unasked();
    answers.native_balances = Ok(vec![]);
    assert!(!query_fits(&dao, &QueryMsg::AllBalances, &answers));
    answers.token_balances = vec![1, 2];
    assert!(query_fits(&dao, &QueryMsg::AllBalances, &answers));
    assert!(query_fits(&dao, &QueryMsg::Threshold, &Answers::unasked()));
}

#[test]
fn page_sizes() {
    assert_eq!(page_size(None), 10);
    assert_eq!(page_size(Some(0)), 0);
    assert_eq!(page_size(Some(29)), 29);
    assert_eq!(page_size(Some(30)), 30);
    assert_eq!(page_size(Some(31)), 30);
    assert_eq!(page_size(Some(u32::MAX)), 30);
}

#[test]
fn proposals_in_pages() {
    let dao = set_up(35);
    let page = list_proposals(&dao, &env_at(1), None, None).unwrap();
    assert_eq!(ids(&page), (1..=10).collect::<Vec<u64>>());
    let page = list_proposals(&dao, &env_at(1), Some(10), Some(3)).unwrap();
    assert_eq!(ids(&page), [11, 12, 13]);
    let page = list_proposals(&dao, &env_at(1), None, Some(100)).unwrap();
    assert_eq!(ids(&page), (1..=30).collect::<Vec<u64>>());
    let page = list_proposals(&dao, &env_at(1), Some(30), Some(100)).unwrap();
    assert_eq!(ids(&page), (31..=35).collect::<Vec<u64>>());
    let page = list_proposals(&dao, &env_at(1), Some(35), None).unwrap();
    assert!(page.proposals.is_empty());
    let page = list_proposals(&dao, &env_at(1), None, Some(0)).unwrap();
    assert!(page.proposals.is_empty());
    let page = list_proposals(&dao, &env_at(101), None, Some(2)).unwrap();
    assert_eq!(page.proposals[0].status, Status::Rejected);
    assert_eq!(page.proposals[0].threshold, shown(100));
    assert_eq!(page.proposals[1].title, "title 2");
}

#[test]
fn proposals_in_reverse_pages() {
    let dao = set_up(12);
    let page = reverse_proposals(&dao, &env_at(1), None, None).unwrap();
    assert_eq!(ids(&page), (3..=12).rev().collect::<Vec<u64>>());
    let page = reverse_proposals(&dao, &env_at(1), Some(3), None).unwrap();
    assert_eq!(ids(&page), [2, 1]);
    let page = reverse_proposals(&dao, &env_at(1), Some(100), Some(1)).unwrap();
    assert_eq!(ids(&page), [12]);
    let page = reverse_proposals(&dao, &env_at(1), Some(1), None).unwrap();
    assert!(page.proposals.is_empty());
    let all = list_proposals(&dao, &env_at(1), None, Some(30)).unwrap();
    let mut back = reverse_proposals(&dao, &env_at(1), None, Some(30)).unwrap();
    back.proposals.reverse();
    assert_eq!(back, all);
}

#[test]
fn reading_on_visits_every_proposal_once() {
    let dao = set_up(17);
    let mut seen: Vec<u64> = vec![];
    let mut start = None;
    loop {
        let page = ids(&list_proposals(&dao, &env_at(1), start, Some(4)).unwrap());
        if page.is_empty() {
            break;
        }
        start = page.last().copied();
        seen.extend(page);
    }
    assert_eq!(seen, (1..=17).collect::<Vec<u64>>());
}

#[test]
fn votes_in_pages() {
    let mut dao = set_up(3);
    for voter in ["dave", "bob", "erin", "carol", "al"] {
        execute_vote(&mut dao, &env_at(3), &info(voter), 2, Vote::No, Some(2)).unwrap();
    }
    execute_vote(&mut dao, &env_at(3), &info("zed"), 1, Vote::No, Some(2)).unwrap();
    execute_vote(&mut dao, &env_at(3), &info("aaa"), 3, Vote::Yes, Some(4)).unwrap();
    let unasked = || generic::<String>("not asked");
    let page = list_votes(&dao, 2, None, unasked(), None).unwrap();
    assert_eq!(names(&page), ["al", "bob", "carol", "dave", "erin"]);
    assert_eq!(page.votes[0], VoteInfo { voter: "al".to_string(), vote: Vote::No, weight: 2 });
    let page = list_votes(&dao, 2, None, unasked(), Some(2)).unwrap();
    assert_eq!(names(&page), ["al", "bob"]);
    let start = Some("BOB".to_string());
    let page = list_votes(&dao, 2, start, Ok("bob".to_string()), Some(2)).unwrap();
    assert_eq!(names(&page), ["carol", "dave"]);
    let start = Some("x".to_string());
    let page = list_votes(&dao, 2, start, Ok("cz".to_string()), None).unwrap();
    assert_eq!(names(&page), ["dave", "erin"]);
    let page = list_votes(&dao, 3, None, unasked(), None).unwrap();
    assert_eq!(names(&page), ["aaa"]);
    let page = list_votes(&dao, 9, None, unasked(), None).unwrap();
    assert!(page.votes.is_empty());
    let start = Some("x".to_string());
    assert_eq!(list_votes(&dao, 2, start, generic("bad"), None), generic("bad"));
}

#[test]
fn query_dispatches_every_message() {
    let mut dao = set_up(2);
    execute_vote(&mut dao, &env_at(3), &info("bob"), 2, Vote::No, Some(2)).unwrap();
    let env = env_at(4);
    let answers = || {
        let mut answers = Answers::unasked();
        answers.total_supply = Ok(55);
        answers.address = Ok("bob".to_string());
        answers.balance = Some(6);
        answers.native_balances = Ok(vec![]);
        answers.token_balances = vec![8];
        answers
    };
    assert_eq!(
        query(&dao, &env, QueryMsg::Threshold, answers()),
        Ok(QueryResponse::Threshold(shown(55)))
    );
    assert_eq!(
        query(&dao, &env, QueryMsg::Proposal { proposal_id: 1 }, answers()),
        Ok(QueryResponse::Proposal(query_proposal(&dao, &env, 1, Ok(55)).unwrap()))
    );
    let msg = QueryMsg::Vote { proposal_id: 2, voter: "Bob".to_string() };
    assert_eq!(
        query(&dao, &env, msg, answers()),
        Ok(QueryResponse::Vote(VoteResponse {
            vote: Some(VoteInfo { voter: "Bob".to_string(), vote: Vote::No, weight: 2 })
        }))
    );
    let msg = QueryMsg::ListProposals { start_after: Some(1), limit: None };
    assert_eq!(
        query(&dao, &env, msg, answers()),
        Ok(QueryResponse::Proposals(list_proposals(&dao, &env, Some(1), None).unwrap()))
    );
    let msg = QueryMsg::ReverseProposals { start_before: None, limit: Some(1) };
    assert_eq!(
        query(&dao, &env, msg, answers()),
        Ok(QueryResponse::Proposals(reverse_proposals(&dao, &env, None, Some(1)).unwrap()))
    );
    let msg = QueryMsg::ListVotes { proposal_id: 2, start_after: None, limit: None };
    assert_eq!(
        query(&dao, &env, msg, answers()),
        Ok(QueryResponse::Votes(VoteListResponse {
            votes: vec![VoteInfo { voter: "bob".to_string(), vote: Vote::No, weight: 2 }]
        }))
    );
    assert_eq!(
        query(&dao, &env, QueryMsg::Voter { address: "Bob".to_string() }, answers()),
        Ok(QueryResponse::Voter(VoterResponse { weight: Some(6) }))
    );
    assert!(matches!(
        query(&dao, &env, QueryMsg::AllBalances, answers()),
        Ok(QueryResponse::AllBalances(all)) if all.cw20[0].amount == 8
    ));
    assert_eq!(
        query(&dao, &env, QueryMsg::GetConfig, answers()),
        Ok(QueryResponse::Config(query_config(&dao).unwrap()))
    );
    assert_eq!(
        query(&dao, &env, QueryMsg::Cw20TokenList, answers()),
        Ok(QueryResponse::TokenList(query_cw20_token_list(&dao).unwrap()))
    );
    assert_eq!(
        query(&dao, &env, QueryMsg::Proposal { proposal_id: 7 }, answers()),
        Err(PlatformError::NotFound { record: Record::Proposal })
    );
}

#[test]
fn query_asks_what_it_needs() {
    let dao = set_up(1);
    let env = env_at(1);
    let supply = vec![Question::TotalSupply { token: "token".to_string() }];
    assert_eq!(query_questions(&dao, &env, &QueryMsg::Threshold), supply);
    assert_eq!(query_questions(&dao, &env, &QueryMsg::Proposal { proposal_id: 1 }), supply);
    assert_eq!(query_questions(&Dao::new(), &env, &QueryMsg::Threshold), vec![]);
    let address = vec![Question::Address { input: "Bob".to_string() }];
    let msg = QueryMsg::Vote { proposal_id: 1, voter: "Bob".to_string() };
    assert_eq!(query_questions(&dao, &env, &msg), address);
    let msg = QueryMsg::Voter { address: "Bob".to_string() };
    assert_eq!(query_questions(&dao, &env, &msg), address);
    let msg = QueryMsg::ListVotes {
        proposal_id: 1,
        start_after: Some("Bob".to_string()),
        limit: None,
    };
    assert_eq!(query_questions(&dao, &env, &msg), address);
    let msg = QueryMsg::ListVotes { proposal_id: 1, start_after: None, limit: None };
    assert_eq!(query_questions(&dao, &env, &msg), vec![]);
    assert_eq!(
        query_questions(&dao, &env, &QueryMsg::AllBalances),
        vec![
            Question::NativeBalances { holder: "dao".to_string() },
            Question::Balance { token: "token".to_string(), holder: "dao".to_string() },
        ]
    );
    assert_eq!(query_questions(&dao, &env, &QueryMsg::GetConfig), vec![]);
}

#[test]
fn proposals_from_reads() {
    let dao = set_up(2);
    let block = BlockInfo { height: 3, time: 0 };
    let record = || dao.load_proposal(2).unwrap();
    let response = map_proposal(&block, Ok((vec![0, 0, 0, 0, 0, 0, 1, 2], record()))).unwrap();
    assert_eq!(response.id, 258);
    assert_eq!(response.threshold, shown(record().total_weight));
    let listed = list_proposals(&dao, &env_at(3), Some(1), None).unwrap();
    let first = listed.proposals.into_iter().next().unwrap();
    assert_eq!(map_proposal(&block, Ok((id_key(2), record()))), Ok(first));
    assert_eq!(
        map_proposal(&block, Ok((vec![1, 2], record()))),
        generic("Corrupted data found. 8 byte expected.")
    );
    assert_eq!(map_proposal(&block, generic("unreadable")), generic("unreadable"));
}

#[test]
fn errors_from_outside_come_back_as_they_came() {
    let dao = set_up(1);
    let failed = || cosmwasm_std::StdError::parse_err("TokenInfo", "not a token");
    assert_eq!(
        query_threshold(&dao, Err(PlatformError::Outside(failed()))),
        Err(PlatformError::Outside(failed()))
    );
}
