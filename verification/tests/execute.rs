use cw_dao::contract::{
    choose_expiration, execute, execute_close, execute_execute, execute_fits, execute_propose,
    execute_questions, execute_receive, execute_response, execute_update_config, execute_vote,
    get_balance, get_balance_at_height, get_deposit_message, get_proposal_deposit_refund_message,
    get_total_supply, instantiate, instantiate_questions, propose_response, CONTRACT_NAME,
    CONTRACT_VERSION,
};
use cw_dao::error::{ContractError, PlatformError, Record};
use cw_dao::expiration::{BlockInfo, Duration, Expiration};
use cw_dao::msg::{
    Coin, ContractInfo, CosmosMsg, Cw20ReceiveMsg, Env, ExecuteMsg, InstantiateMsg, MessageInfo,
    Response,
};
use cw_dao::outside::{Answers, Question};
use cw_dao::proposal::{ProposalDeposit, Status, Vote, Votes};
use cw_dao::state::Dao;
use cw_dao::table::BallotKey;
use cw_dao::threshold::{Decimal, Threshold};
use cw_dao::token::call_token;

const PERCENT: u128 = 10_000_000_000_000_000;

fn percent(p: u128) -> Decimal {
    Decimal { atomics: p * PERCENT }
}

fn env_at(height: u64) -> Env {
    Env {
        block: BlockInfo { height, time: height * 5_000_000_000 },
        contract: ContractInfo { address: "dao".to_string() },
    }
}

fn info(sender: &str) -> MessageInfo {
    MessageInfo { sender: sender.to_string() }
}

fn quorum() -> Threshold {
    Threshold::ThresholdQuorum { threshold: percent(51), quorum: percent(10) }
}

fn setup_msg(threshold: Threshold, deposit: u128) -> InstantiateMsg {
    InstantiateMsg {
        cw20_addr: "Token".to_string(),
        threshold,
        max_voting_period: Duration::Height(100),
        proposal_deposit_amount: deposit,
        proposal_deposit_token_address: "Deposit".to_string(),
    }
}

fn set_up(threshold: Threshold, deposit: u128) -> Dao {
    let mut dao = Dao::new();
    let answer = instantiate(
        &mut dao,
        setup_msg(threshold, deposit),
        Some("token".to_string()),
        Some("deposit".to_string()),
    );
    assert_eq!(answer, Ok(Response { messages: vec![], attributes: vec![] }));
    dao
}

fn payload() -> Vec<CosmosMsg> {
    vec![
        CosmosMsg::Other { json: vec![1, 2, 3] },
        CosmosMsg::WasmExecute {
            contract_addr: "other".to_string(),
            msg: vec![4, 5],
            funds: vec![Coin { denom: "ustars".to_string(), amount: 7 }],
        },
    ]
}

fn propose(dao: &mut Dao, height: u64, supply: u128) -> Result<Response, ContractError> {
    execute_propose(
        dao,
        &env_at(height),
        &info("alice"),
        "Pay".to_string(),
        "Pay someone".to_string(),
        payload(),
        None,
        Some(5),
        Ok(supply),
    )
}

fn note(response: &Response, key: &str) -> String {
    for attribute in &response.attributes {
        if attribute.key == key {
            return attribute.value.clone();
        }
    }
    panic!("no such attribute")
}

fn status(dao: &Dao, id: u64) -> Status {
    dao.proposals.get(&id).unwrap().status
}

#[test]
fn instantiate_stores_config_and_token() {
    let dao = set_up(quorum(), 10);
    let config = dao.config.as_ref().unwrap();
    assert_eq!(config.cw20_addr, "token");
    assert_eq!(config.threshold, quorum());
    assert_eq!(config.max_voting_period, Duration::Height(100));
    assert_eq!(config.proposal_deposit.amount, 10);
    assert_eq!(config.proposal_deposit.token_address, "deposit");
    assert_eq!(dao.treasury_tokens, Some(vec!["token".to_string()]));
    let version = dao.version.unwrap();
    assert_eq!(version.contract, CONTRACT_NAME);
    assert_eq!(version.version, CONTRACT_VERSION);
    assert_eq!(CONTRACT_NAME, "crates.io:sg_dao");
}

#[test]
fn instantiate_refuses_bad_addresses() {
    let mut dao = Dao::new();
    let answer = instantiate(&mut dao, setup_msg(quorum(), 0), None, None);
    assert_eq!(answer, Err(ContractError::InvalidCw20 { addr: "Token".to_string() }));
    let answer = instantiate(&mut dao, setup_msg(quorum(), 0), Some("token".to_string()), None);
    assert_eq!(answer, Err(ContractError::InvalidCw20 { addr: "Deposit".to_string() }));
    assert_eq!(dao, Dao::new());
}

#[test]
fn instantiate_refuses_bad_thresholds() {
    let mut dao = Dao::new();
    let zero = Threshold::AbsolutePercentage { percentage: percent(0) };
    let answer = instantiate(
        &mut dao,
        setup_msg(zero, 0),
        Some("token".to_string()),
        Some("deposit".to_string()),
    );
    assert_eq!(answer, Err(ContractError::ZeroThreshold));
    assert!(dao.config.is_none());
    assert_eq!(dao.treasury_tokens, Some(vec!["token".to_string()]));
    let much = Threshold::ThresholdQuorum { threshold: percent(50), quorum: percent(101) };
    let answer = instantiate(
        &mut dao,
        setup_msg(much, 0),
        Some("token".to_string()),
        Some("deposit".to_string()),
    );
    assert_eq!(answer, Err(ContractError::UnreachableThreshold));
}

#[test]
fn instantiate_asks_for_both_addresses() {
    assert_eq!(
        instantiate_questions(&setup_msg(quorum(), 0)),
        vec![
            Question::Address { input: "Token".to_string() },
            Question::Address { input: "Deposit".to_string() },
        ]
    );
}

#[test]
fn receive_lists_each_token_once() {
    let mut dao = set_up(quorum(), 0);
    let wrapper = Cw20ReceiveMsg { sender: "bob".to_string(), amount: 1, msg: vec![] };
    for token in ["other", "token", "other", "third"] {
        let answer = execute_receive(&mut dao, &info(token), &wrapper);
        assert_eq!(answer, Ok(Response { messages: vec![], attributes: vec![] }));
    }
    assert_eq!(
        dao.treasury_tokens,
        Some(vec!["token".to_string(), "other".to_string(), "third".to_string()])
    );
}

#[test]
fn receive_needs_a_list() {
    let mut dao = Dao::new();
    let wrapper = Cw20ReceiveMsg { sender: "bob".to_string(), amount: 1, msg: vec![] };
    assert_eq!(
        execute_receive(&mut dao, &info("token"), &wrapper),
        Err(ContractError::Std(PlatformError::NotFound { record: Record::TreasuryTokens }))
    );
}

#[test]
fn propose_stores_a_proposal() {
    let mut dao = set_up(quorum(), 0);
    let response = propose(&mut dao, 12, 100).unwrap();
    assert!(response.messages.is_empty());
    assert_eq!(note(&response, "action"), "propose");
    assert_eq!(note(&response, "sender"), "alice");
    assert_eq!(note(&response, "proposal_id"), "1");
    assert_eq!(note(&response, "status"), "Open");
    let proposal = dao.proposals.get(&1).unwrap();
    assert_eq!(proposal.title, "Pay");
    assert_eq!(proposal.description, "Pay someone");
    assert_eq!(proposal.proposer, "alice");
    assert_eq!(proposal.start_height, 12);
    assert_eq!(proposal.expires, Expiration::AtHeight(112));
    assert_eq!(proposal.msgs, payload());
    assert_eq!(proposal.votes, Votes { yes: 0, no: 0, abstain: 0, veto: 0 });
    assert_eq!(proposal.total_weight, 100);
    assert_eq!(proposal.threshold, quorum());
    let mut last = response;
    for _ in 0..10 {
        last = propose(&mut dao, 13, 100).unwrap();
    }
    assert_eq!(note(&last, "proposal_id"), "11");
    assert_eq!(dao.proposal_count, 11);
    assert_eq!(dao.proposals.len(), 11);
}

#[test]
fn propose_takes_the_deposit() {
    let mut dao = set_up(quorum(), 10);
    let response = propose(&mut dao, 12, 100).unwrap();
    assert_eq!(
        response.messages,
        vec![CosmosMsg::WasmExecute {
            contract_addr: "deposit".to_string(),
            msg: br#"{"transfer_from":{"owner":"alice","recipient":"dao","amount":"10"}}"#.to_vec(),
            funds: vec![],
        }]
    );
}

#[test]
fn propose_refusals() {
    let mut dao = Dao::new();
    assert_eq!(
        propose(&mut dao, 12, 100),
        Err(ContractError::Std(PlatformError::NotFound { record: Record::Config }))
    );
    dao = set_up(quorum(), 0);
    for balance in [None, Some(0)] {
        let answer = execute_propose(
            &mut dao,
            &env_at(1),
            &info("alice"),
            "t".to_string(),
            "d".to_string(),
            vec![],
            None,
            balance,
            Ok(100),
        );
        assert_eq!(answer, Err(ContractError::Unauthorized));
    }
    let answer = execute_propose(
        &mut dao,
        &env_at(1),
        &info("alice"),
        "t".to_string(),
        "d".to_string(),
        vec![],
        Some(Expiration::AtTime(9)),
        Some(1),
        Ok(100),
    );
    assert_eq!(answer, Err(ContractError::WrongExpiration));
    let answer = execute_propose(
        &mut dao,
        &env_at(1),
        &info("alice"),
        "t".to_string(),
        "d".to_string(),
        vec![],
        None,
        Some(1),
        Err(PlatformError::GenericErr { msg: "no supply".to_string() }),
    );
    assert_eq!(
        answer,
        Err(ContractError::Std(PlatformError::GenericErr { msg: "no supply".to_string() }))
    );
    assert_eq!(dao, set_up(quorum(), 0));
}

#[test]
fn propose_expiration_is_capped() {
    let max = Expiration::AtHeight(100);
    assert_eq!(choose_expiration(None, max), Some(max));
    assert_eq!(choose_expiration(Some(Expiration::AtHeight(99)), max), Some(Expiration::AtHeight(99)));
    assert_eq!(choose_expiration(Some(max), max), Some(max));
    assert_eq!(choose_expiration(Some(Expiration::AtHeight(101)), max), Some(max));
    assert_eq!(choose_expiration(Some(Expiration::Never), max), Some(max));
    assert_eq!(choose_expiration(Some(Expiration::AtTime(1)), max), None);
    let max = Expiration::AtTime(50);
    assert_eq!(choose_expiration(Some(Expiration::AtTime(51)), max), Some(max));
    assert_eq!(choose_expiration(Some(Expiration::AtTime(49)), max), Some(Expiration::AtTime(49)));
    assert_eq!(choose_expiration(Some(Expiration::AtHeight(1)), max), None);
}

#[test]
fn propose_with_no_period_is_rejected_at_once() {
    let mut dao = set_up(quorum(), 0);
    let response = execute_propose(
        &mut dao,
        &env_at(30),
        &info("alice"),
        "t".to_string(),
        "d".to_string(),
        vec![],
        Some(Expiration::AtHeight(30)),
        Some(1),
        Ok(100),
    )
    .unwrap();
    assert_eq!(note(&response, "status"), "Rejected");
    assert_eq!(status(&dao, 1), Status::Rejected);
}

fn unwritable() -> PlatformError {
    PlatformError::Outside(cosmwasm_std::StdError::serialize_err("Cw20ExecuteMsg", "full"))
}

#[test]
fn odd_accounts_still_have_their_deposits_returned() {
    let some = ProposalDeposit { amount: 7, token_address: "deposit".to_string() };
    let odd = "a\"b\\c\n\u{1}\u{e9}\u{1f600}".to_string();
    let messages = get_proposal_deposit_refund_message(&odd, &some).unwrap();
    let json = "{\"transfer\":{\"recipient\":\"a\\\"b\\\\c\\n\\u0001\u{e9}\u{1f600}\",\"amount\":\"7\"}}";
    assert_eq!(
        messages,
        vec![CosmosMsg::WasmExecute {
            contract_addr: "deposit".to_string(),
            msg: json.as_bytes().to_vec(),
            funds: vec![],
        }]
    );
}

#[test]
fn propose_response_for_given_messages() {
    let response = propose_response(Ok(payload()), &info("bob"), 1234567890, Status::Pending).unwrap();
    assert_eq!(response.messages, payload());
    assert_eq!(note(&response, "proposal_id"), "1234567890");
    assert_eq!(note(&response, "status"), "Pending");
    assert_eq!(
        propose_response(Err(unwritable()), &info("bob"), 1, Status::Open),
        Err(ContractError::Std(unwritable()))
    );
}

#[test]
fn deposit_and_refund_messages() {
    let none = ProposalDeposit { amount: 0, token_address: "deposit".to_string() };
    assert_eq!(get_deposit_message(&env_at(1), &info("alice"), &none), Ok(vec![]));
    assert_eq!(get_proposal_deposit_refund_message(&"alice".to_string(), &none), Ok(vec![]));
    let some = ProposalDeposit { amount: u128::MAX, token_address: "deposit".to_string() };
    assert_eq!(
        get_deposit_message(&env_at(1), &info("alice"), &some),
        Ok(vec![CosmosMsg::WasmExecute {
            contract_addr: "deposit".to_string(),
            msg: format!(
                "{{\"transfer_from\":{{\"owner\":\"alice\",\"recipient\":\"dao\",\"amount\":\"{}\"}}}}",
                u128::MAX
            )
            .into_bytes(),
            funds: vec![],
        }])
    );
    assert_eq!(
        get_proposal_deposit_refund_message(&"alice".to_string(), &some),
        Ok(vec![CosmosMsg::WasmExecute {
            contract_addr: "deposit".to_string(),
            msg: format!(
                "{{\"transfer\":{{\"recipient\":\"alice\",\"amount\":\"{}\"}}}}",
                u128::MAX
            )
            .into_bytes(),
            funds: vec![],
        }])
    );
}

#[test]
fn token_calls_for_given_bytes() {
    assert_eq!(
        call_token(&"t".to_string(), vec![9]),
        vec![CosmosMsg::WasmExecute { contract_addr: "t".to_string(), msg: vec![9], funds: vec![] }]
    );
}

#[test]
fn vote_is_counted() {
    let mut dao = set_up(quorum(), 0);
    propose(&mut dao, 12, 100).unwrap();
    let response =
        execute_vote(&mut dao, &env_at(13), &info("bob"), 1, Vote::No, Some(20)).unwrap();
    assert_eq!(note(&response, "action"), "vote");
    assert_eq!(note(&response, "sender"), "bob");
    assert_eq!(note(&response, "proposal_id"), "1");
    assert_eq!(note(&response, "status"), "Open");
    execute_vote(&mut dao, &env_at(13), &info("carol"), 1, Vote::Abstain, Some(3)).unwrap();
    execute_vote(&mut dao, &env_at(13), &info("dave"), 1, Vote::Veto, Some(4)).unwrap();
    let response =
        execute_vote(&mut dao, &env_at(14), &info("erin"), 1, Vote::Yes, Some(51)).unwrap();
    assert_eq!(note(&response, "status"), "Passed");
    assert_eq!(dao.proposals.get(&1).unwrap().votes, Votes { yes: 51, no: 20, abstain: 3, veto: 4 });
    assert_eq!(status(&dao, 1), Status::Passed);
    let key = BallotKey { proposal_id: 1, voter: "carol".to_string() };
    assert_eq!(dao.ballots.get(&key).unwrap().weight, 3);
    assert_eq!(dao.ballots.get(&key).unwrap().vote, Vote::Abstain);
    assert_eq!(dao.ballots.len(), 4);
}

#[test]
fn vote_refusals() {
    let mut dao = set_up(quorum(), 0);
    assert_eq!(
        execute_vote(&mut dao, &env_at(13), &info("bob"), 1, Vote::Yes, Some(1)),
        Err(ContractError::Std(PlatformError::NotFound { record: Record::Proposal }))
    );
    propose(&mut dao, 12, 100).unwrap();
    assert_eq!(
        execute_vote(&mut dao, &env_at(112), &info("bob"), 1, Vote::Yes, Some(1)),
        Err(ContractError::Expired)
    );
    for balance in [None, Some(0)] {
        assert_eq!(
            execute_vote(&mut dao, &env_at(111), &info("bob"), 1, Vote::Yes, balance),
            Err(ContractError::Unauthorized)
        );
    }
    execute_vote(&mut dao, &env_at(111), &info("bob"), 1, Vote::No, Some(1)).unwrap();
    assert_eq!(
        execute_vote(&mut dao, &env_at(111), &info("bob"), 1, Vote::Yes, Some(9)),
        Err(ContractError::AlreadyVoted)
    );
    assert_eq!(dao.proposals.get(&1).unwrap().votes, Votes { yes: 0, no: 1, abstain: 0, veto: 0 });
    execute_vote(&mut dao, &env_at(111), &info("carol"), 1, Vote::Yes, Some(60)).unwrap();
    assert_eq!(
        execute_vote(&mut dao, &env_at(111), &info("dave"), 1, Vote::Yes, Some(1)),
        Err(ContractError::NotOpen)
    );
    dao.config = None;
    propose(&mut dao, 12, 100).unwrap_err();
}

#[test]
fn vote_needs_the_rules_last() {
    let mut dao = set_up(quorum(), 0);
    propose(&mut dao, 12, 100).unwrap();
    dao.config = None;
    assert_eq!(
        execute_vote(&mut dao, &env_at(13), &info("bob"), 1, Vote::Yes, None),
        Err(ContractError::Std(PlatformError::NotFound { record: Record::Config }))
    );
}

#[test]
fn execute_carries_out_once() {
    let mut dao = set_up(quorum(), 10);
    propose(&mut dao, 12, 100).unwrap();
    assert_eq!(
        execute_execute(&mut dao, &info("zoe"), 1),
        Err(ContractError::WrongExecuteStatus)
    );
    execute_vote(&mut dao, &env_at(13), &info("bob"), 1, Vote::Yes, Some(51)).unwrap();
    let response = execute_execute(&mut dao, &info("zoe"), 1).unwrap();
    let mut expected = vec![CosmosMsg::WasmExecute {
        contract_addr: "deposit".to_string(),
        msg: br#"{"transfer":{"recipient":"alice","amount":"10"}}"#.to_vec(),
        funds: vec![],
    }];
    expected.append(&mut payload());
    assert_eq!(response.messages, expected);
    assert_eq!(note(&response, "action"), "execute");
    assert_eq!(note(&response, "sender"), "zoe");
    assert_eq!(note(&response, "proposal_id"), "1");
    assert_eq!(status(&dao, 1), Status::Executed);
    assert_eq!(
        execute_execute(&mut dao, &info("zoe"), 1),
        Err(ContractError::WrongExecuteStatus)
    );
    assert_eq!(
        execute_execute(&mut dao, &info("zoe"), 2),
        Err(ContractError::Std(PlatformError::NotFound { record: Record::Proposal }))
    );
}

#[test]
fn execute_response_for_given_messages() {
    let refund = vec![CosmosMsg::Other { json: vec![0] }];
    let response = execute_response(Ok(refund), payload(), &info("zoe"), 7).unwrap();
    assert_eq!(response.messages.len(), 3);
    assert_eq!(response.messages[0], CosmosMsg::Other { json: vec![0] });
    assert_eq!(response.messages[1..], payload()[..]);
    assert_eq!(
        execute_response(Err(unwritable()), vec![], &info("zoe"), 7),
        Err(ContractError::Std(unwritable()))
    );
}

#[test]
fn refund_follows_the_deposit_that_was_taken() {
    let mut dao = set_up(quorum(), 10);
    propose(&mut dao, 12, 100).unwrap();
    execute_update_config(
        &mut dao,
        &env_at(13),
        &info("dao"),
        Threshold::AbsolutePercentage { percentage: percent(90) },
        Duration::Time(60),
        99,
        "Elsewhere".to_string(),
        Some("elsewhere".to_string()),
    )
    .unwrap();
    execute_vote(&mut dao, &env_at(13), &info("bob"), 1, Vote::Yes, Some(51)).unwrap();
    let response = execute_execute(&mut dao, &info("zoe"), 1).unwrap();
    assert_eq!(
        response.messages[0],
        CosmosMsg::WasmExecute {
            contract_addr: "deposit".to_string(),
            msg: br#"{"transfer":{"recipient":"alice","amount":"10"}}"#.to_vec(),
            funds: vec![],
        }
    );
}

#[test]
fn close_rejects_what_is_out_of_time() {
    let mut dao = set_up(quorum(), 0);
    propose(&mut dao, 12, 100).unwrap();
    assert_eq!(
        execute_close(&mut dao, &env_at(111), &info("zoe"), 1),
        Err(ContractError::NotExpired)
    );
    let response = execute_close(&mut dao, &env_at(112), &info("zoe"), 1).unwrap();
    assert_eq!(note(&response, "action"), "close");
    assert_eq!(note(&response, "sender"), "zoe");
    assert_eq!(note(&response, "proposal_id"), "1");
    assert!(response.messages.is_empty());
    assert_eq!(status(&dao, 1), Status::Rejected);
    assert_eq!(
        execute_close(&mut dao, &env_at(112), &info("zoe"), 1),
        Err(ContractError::WrongCloseStatus)
    );
    assert_eq!(
        execute_execute(&mut dao, &info("zoe"), 1),
        Err(ContractError::WrongExecuteStatus)
    );
    assert_eq!(
        execute_close(&mut dao, &env_at(112), &info("zoe"), 5),
        Err(ContractError::Std(PlatformError::NotFound { record: Record::Proposal }))
    );
}

#[test]
fn close_refuses_passed_and_executed() {
    let mut dao = set_up(quorum(), 0);
    propose(&mut dao, 12, 100).unwrap();
    execute_vote(&mut dao, &env_at(13), &info("bob"), 1, Vote::Yes, Some(51)).unwrap();
    assert_eq!(
        execute_close(&mut dao, &env_at(500), &info("zoe"), 1),
        Err(ContractError::WrongCloseStatus)
    );
    execute_execute(&mut dao, &info("zoe"), 1).unwrap();
    assert_eq!(
        execute_close(&mut dao, &env_at(500), &info("zoe"), 1),
        Err(ContractError::WrongCloseStatus)
    );
}

#[test]
fn update_config_is_for_the_contract_alone() {
    let mut dao = set_up(quorum(), 10);
    let before = set_up(quorum(), 10);
    let rule = Threshold::AbsolutePercentage { percentage: percent(90) };
    let attempt = |dao: &mut Dao, sender: &str, rule: Threshold, addr: Option<String>| {
        execute_update_config(
            dao,
            &env_at(1),
            &info(sender),
            rule,
            Duration::Time(60),
            99,
            "Elsewhere".to_string(),
            addr,
        )
    };
    assert_eq!(attempt(&mut dao, "alice", rule, None), Err(ContractError::Unauthorized));
    let zero = Threshold::AbsolutePercentage { percentage: percent(0) };
    assert_eq!(attempt(&mut dao, "dao", zero, None), Err(ContractError::ZeroThreshold));
    assert_eq!(
        attempt(&mut dao, "dao", rule, None),
        Err(ContractError::InvalidCw20 { addr: "Elsewhere".to_string() })
    );
    assert_eq!(dao, before);
    let response = attempt(&mut dao, "dao", rule, Some("elsewhere".to_string())).unwrap();
    assert_eq!(note(&response, "action"), "update_config");
    assert_eq!(note(&response, "sender"), "dao");
    let config = dao.config.as_ref().unwrap();
    assert_eq!(config.threshold, rule);
    assert_eq!(config.max_voting_period, Duration::Time(60));
    assert_eq!(config.proposal_deposit.amount, 99);
    assert_eq!(config.proposal_deposit.token_address, "elsewhere");
    assert_eq!(config.cw20_addr, "token");
    let mut empty = Dao::new();
    assert_eq!(
        attempt(&mut empty, "dao", rule, Some("elsewhere".to_string())),
        Err(ContractError::Std(PlatformError::NotFound { record: Record::Config }))
    );
}

#[test]
fn balances_default_to_nothing() {
    let dao = set_up(quorum(), 0);
    assert_eq!(get_balance(&dao, Some(3)), Ok(3));
    assert_eq!(get_balance(&dao, None), Ok(0));
    assert_eq!(get_balance_at_height(&dao, Some(4)), Ok(4));
    assert_eq!(get_balance_at_height(&dao, None), Ok(0));
    assert_eq!(get_total_supply(&dao, Ok(5)), Ok(5));
    assert_eq!(
        get_total_supply(&dao, Err(PlatformError::GenericErr { msg: "x".to_string() })),
        Err(PlatformError::GenericErr { msg: "x".to_string() })
    );
    let empty = Dao::new();
    let missing = || PlatformError::NotFound { record: Record::Config };
    assert_eq!(get_balance(&empty, Some(3)), Err(missing()));
    assert_eq!(get_balance_at_height(&empty, Some(3)), Err(missing()));
    assert_eq!(get_total_supply(&empty, Ok(3)), Err(missing()));
}

#[test]
fn execute_dispatches_every_message() {
    let mut dao = set_up(quorum(), 0);
    let mut answers = Answers::unasked();
    answers.balance = Some(5);
    answers.total_supply = Ok(100);
    let msg = ExecuteMsg::Propose {
        title: "t".to_string(),
        description: "d".to_string(),
        msgs: payload(),
        latest: Some(Expiration::AtHeight(40)),
    };
    assert!(execute_fits(&dao, &env_at(1), &info("alice"), &msg, &answers));
    let response = execute(&mut dao, &env_at(1), &info("alice"), msg, answers).unwrap();
    assert_eq!(note(&response, "action"), "propose");
    assert_eq!(dao.proposals.get(&1).unwrap().expires, Expiration::AtHeight(40));

    let mut answers = Answers::unasked();
    answers.balance_at_height = Some(51);
    let msg = ExecuteMsg::Vote { proposal_id: 1, vote: Vote::Yes };
    assert!(execute_fits(&dao, &env_at(2), &info("bob"), &msg, &answers));
    let response = execute(&mut dao, &env_at(2), &info("bob"), msg, answers).unwrap();
    assert_eq!(note(&response, "status"), "Passed");

    let msg = ExecuteMsg::Close { proposal_id: 1 };
    let answer = execute(&mut dao, &env_at(50), &info("bob"), msg, Answers::unasked());
    assert_eq!(answer, Err(ContractError::WrongCloseStatus));

    let msg = ExecuteMsg::Execute { proposal_id: 1 };
    let response = execute(&mut dao, &env_at(50), &info("bob"), msg, Answers::unasked()).unwrap();
    assert_eq!(response.messages, payload());

    let msg = ExecuteMsg::Receive(Cw20ReceiveMsg { sender: "x".to_string(), amount: 1, msg: vec![] });
    execute(&mut dao, &env_at(50), &info("coin"), msg, Answers::unasked()).unwrap();
    assert_eq!(dao.treasury_tokens, Some(vec!["token".to_string(), "coin".to_string()]));

    let mut answers = Answers::unasked();
    answers.address = Ok("elsewhere".to_string());
    let msg = ExecuteMsg::UpdateConfig {
        threshold: quorum(),
        max_voting_period: Duration::Height(1),
        proposal_deposit_amount: 3,
        proposal_deposit_token_address: "Elsewhere".to_string(),
    };
    execute(&mut dao, &env_at(50), &info("dao"), msg, answers).unwrap();
    assert_eq!(dao.config.unwrap().proposal_deposit.token_address, "elsewhere");
}

#[test]
fn execute_asks_what_it_needs() {
    let mut dao = set_up(quorum(), 0);
    propose(&mut dao, 12, 100).unwrap();
    let msg = ExecuteMsg::Propose {
        title: "t".to_string(),
        description: "d".to_string(),
        msgs: vec![],
        latest: None,
    };
    assert_eq!(
        execute_questions(&dao, &info("alice"), &msg),
        vec![
            Question::Balance { token: "token".to_string(), holder: "alice".to_string() },
            Question::TotalSupply { token: "token".to_string() },
        ]
    );
    assert_eq!(execute_questions(&Dao::new(), &info("alice"), &msg), vec![]);
    let msg = ExecuteMsg::Vote { proposal_id: 1, vote: Vote::No };
    assert_eq!(
        execute_questions(&dao, &info("bob"), &msg),
        vec![Question::BalanceAtHeight {
            token: "token".to_string(),
            holder: "bob".to_string(),
            height: 12,
        }]
    );
    let msg = ExecuteMsg::Vote { proposal_id: 2, vote: Vote::No };
    assert_eq!(execute_questions(&dao, &info("bob"), &msg), vec![]);
    let msg = ExecuteMsg::UpdateConfig {
        threshold: quorum(),
        max_voting_period: Duration::Height(1),
        proposal_deposit_amount: 3,
        proposal_deposit_token_address: "Elsewhere".to_string(),
    };
    assert_eq!(
        execute_questions(&dao, &info("dao"), &msg),
        vec![Question::Address { input: "Elsewhere".to_string() }]
    );
    let msg = ExecuteMsg::Close { proposal_id: 1 };
    assert_eq!(execute_questions(&dao, &info("bob"), &msg), vec![]);
}

#[test]
fn execute_knows_what_does_not_fit() {
    let mut dao = set_up(quorum(), 0);
    let msg = ExecuteMsg::Propose {
        title: "t".to_string(),
        description: "d".to_string(),
        msgs: vec![],
        latest: None,
    };
    let mut answers = Answers::unasked();
    answers.balance = Some(5);
    answers.total_supply = Ok(100);
    let late = Env {
        block: BlockInfo { height: u64::MAX - 99, time: 0 },
        contract: ContractInfo { address: "dao".to_string() },
    };
    assert!(!execute_fits(&dao, &late, &info("alice"), &msg, &answers));
    dao.proposal_count = u64::MAX;
    assert!(!execute_fits(&dao, &env_at(1), &info("alice"), &msg, &answers));
    answers.balance = None;
    assert!(execute_fits(&dao, &late, &info("alice"), &msg, &answers));

    let mut dao = set_up(quorum(), 0);
    propose(&mut dao, 12, 100).unwrap();
    let msg = ExecuteMsg::Vote { proposal_id: 1, vote: Vote::Abstain };
    answers.balance_at_height = Some(101);
    assert!(!execute_fits(&dao, &env_at(13), &info("bob"), &msg, &answers));
    answers.balance_at_height = Some(100);
    assert!(execute_fits(&dao, &env_at(13), &info("bob"), &msg, &answers));
    execute_vote(&mut dao, &env_at(13), &info("carol"), 1, Vote::No, Some(u128::MAX)).unwrap();
    let msg = ExecuteMsg::Vote { proposal_id: 1, vote: Vote::No };
    answers.balance_at_height = Some(1);
    assert!(!execute_fits(&dao, &env_at(13), &info("bob"), &msg, &answers));
}

#[test]
fn refused_messages_change_nothing() {
    let mut dao = set_up(quorum(), 10);
    propose(&mut dao, 12, 100).unwrap();
    let mut same = set_up(quorum(), 10);
    propose(&mut same, 12, 100).unwrap();
    for msg in [
        ExecuteMsg::Vote { proposal_id: 1, vote: Vote::Yes },
        ExecuteMsg::Execute { proposal_id: 1 },
        ExecuteMsg::Close { proposal_id: 1 },
        ExecuteMsg::Close { proposal_id: 9 },
    ] {
        assert!(execute(&mut dao, &env_at(13), &info("bob"), msg, Answers::unasked()).is_err());
    }
    assert_eq!(dao, same);
}
