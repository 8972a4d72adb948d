//! The messages that change the state.
use crate::error::{
    contract_result, ContractError, ContractErrorView, PlatformError, PlatformErrorView, Record,
};
use crate::expiration::{compare_expirations, BlockInfo, Duration, Expiration};
use crate::msg::{
    CosmosMsg, CosmosMsgView, Cw20ReceiveMsg, Env, ExecuteMsg, InstantiateMsg, MessageInfo,
    Response, ResponseView,
};
use crate::outside::{Answers, Question, QuestionView};
use crate::proposal::{
    status_name, Ballot, Proposal, ProposalDeposit, ProposalDepositView, ProposalView, Status, Vote,
    Votes,
};
use crate::state::{Config, ConfigView, ContractVersion, ContractVersionView, Dao, DaoView};
use crate::table::BallotKey;
use crate::text::{decimal, decimal_text};
use crate::threshold::Threshold;
use crate::token::{
    messages_result, token_call, token_message, token_msg_encoding, TokenMsg, TokenMsgView,
};
use crate::views::{contains_text, lemma_views_push, option_view, views};
use std::cmp::Ordering;
use vstd::prelude::*;

verus! {

/// The name that the contract stores beside its version.
pub const CONTRACT_NAME: &'static str = "crates.io:sg_dao";

/// The version that the contract stores.
pub const CONTRACT_VERSION: &'static str = "0.1.0";

// ---------------------------------------------------------------------------------------------
// Setting up
// ---------------------------------------------------------------------------------------------

/// The address of a token, or the refusal of what was given for it.
pub open spec fn token_or_invalid(given: Seq<char>, address: Option<Seq<char>>) -> Result<
    Seq<char>,
    ContractErrorView,
> {
    match address {
        Some(token) => Ok(token),
        None => Err(ContractErrorView::InvalidCw20 { addr: given }),
    }
}

/// What `instantiate` returns: a refusal of the first address that is none, then of a threshold
/// that cannot be met.
pub open spec fn instantiate_result(
    msg: InstantiateMsg,
    cw20_addr: Option<Seq<char>>,
    deposit_addr: Option<Seq<char>>,
) -> Result<ResponseView, ContractErrorView> {
    if cw20_addr is None {
        Err(ContractErrorView::InvalidCw20 { addr: msg.cw20_addr@ })
    } else if deposit_addr is None {
        Err(ContractErrorView::InvalidCw20 { addr: msg.proposal_deposit_token_address@ })
    } else {
        match msg.threshold.refusal() {
            Some(error) => Err(error),
            None => Ok(ResponseView::empty()),
        }
    }
}

/// What `instantiate` leaves behind: nothing new while an address is none; else the list of tokens
/// and the version, and the rules too if the threshold can be met.
pub open spec fn instantiate_state(
    dao: DaoView,
    msg: InstantiateMsg,
    cw20_addr: Option<Seq<char>>,
    deposit_addr: Option<Seq<char>>,
) -> DaoView {
    match (cw20_addr, deposit_addr) {
        (Some(token), Some(deposit_token)) => DaoView {
            treasury_tokens: Some(seq![token]),
            version: Some(
                ContractVersionView { contract: CONTRACT_NAME@, version: CONTRACT_VERSION@ },
            ),
            config: if msg.threshold.valid() {
                Some(
                    ConfigView {
                        threshold: msg.threshold,
                        max_voting_period: msg.max_voting_period,
                        cw20_addr: token,
                        proposal_deposit: ProposalDepositView {
                            amount: msg.proposal_deposit_amount,
                            token_address: deposit_token,
                        },
                    },
                )
            } else {
                dao.config
            },
            ..dao
        },
        _ => dao,
    }
}

/// The address of a token, or the refusal of what was given for it.
fn check_token(given: &String, address: Option<String>) -> (token: Result<String, ContractError>)
    ensures
        contract_result(token) == token_or_invalid(given@, option_view(address)),
{
    match address {
        Some(token) => Ok(token),
        None => Err(ContractError::InvalidCw20 { addr: given.clone() }),
    }
}

/// Sets the contract up. `cw20_addr` and `deposit_addr` are what the chain made of the two
/// addresses in `msg`, if they are addresses.
pub fn instantiate(
    dao: &mut Dao,
    msg: InstantiateMsg,
    cw20_addr: Option<String>,
    deposit_addr: Option<String>,
) -> (result: Result<Response, ContractError>)
    requires
        old(dao).wf(),
    ensures
        final(dao).wf(),
        contract_result(result) == instantiate_result(
            msg,
            option_view(cw20_addr),
            option_view(deposit_addr),
        ),
        final(dao)@ == instantiate_state(
            old(dao)@,
            msg,
            option_view(cw20_addr),
            option_view(deposit_addr),
        ),
{
    let cw20_addr = match check_token(&msg.cw20_addr, cw20_addr) {
        Ok(token) => token,
        Err(error) => return Err(error),
    };
    let deposit_addr = match check_token(&msg.proposal_deposit_token_address, deposit_addr) {
        Ok(token) => token,
        Err(error) => return Err(error),
    };
    let mut tokens: Vec<String> = Vec::new();
    tokens.push(cw20_addr.clone());
    proof {
        assert(views(tokens@) =~= seq![cw20_addr@]);
    }
    dao.treasury_tokens = Some(tokens);
    dao.version = Some(
        ContractVersion {
            contract: CONTRACT_NAME.to_owned(),
            version: CONTRACT_VERSION.to_owned(),
        },
    );
    match msg.threshold.validate() {
        Ok(()) => {},
        Err(error) => return Err(error),
    }
    dao.config = Some(
        Config {
            threshold: msg.threshold,
            max_voting_period: msg.max_voting_period,
            cw20_addr,
            proposal_deposit: ProposalDeposit {
                amount: msg.proposal_deposit_amount,
                token_address: deposit_addr,
            },
        },
    );
    Ok(Response::new())
}

// ---------------------------------------------------------------------------------------------
// Receiving tokens
// ---------------------------------------------------------------------------------------------

/// A list of tokens with one more, unless it is there already.
pub open spec fn with_token(tokens: Seq<Seq<char>>, token: Seq<char>) -> Seq<Seq<char>> {
    if tokens.contains(token) {
        tokens
    } else {
        tokens.push(token)
    }
}

/// What `execute_receive` returns.
pub open spec fn receive_result(dao: DaoView) -> Result<ResponseView, ContractErrorView> {
    match dao.treasury_tokens {
        Some(_) => Ok(ResponseView::empty()),
        None => Err(ContractError::missing(Record::TreasuryTokens)),
    }
}

/// What `execute_receive` leaves behind.
pub open spec fn receive_state(dao: DaoView, sender: Seq<char>) -> DaoView {
    match dao.treasury_tokens {
        Some(tokens) => DaoView { treasury_tokens: Some(with_token(tokens, sender)), ..dao },
        None => dao,
    }
}

/// Notes the token contract that sends tokens in the list of tokens.
pub fn execute_receive(dao: &mut Dao, info: &MessageInfo, _wrapper: &Cw20ReceiveMsg) -> (result: Result<
    Response,
    ContractError,
>)
    requires
        old(dao).wf(),
    ensures
        final(dao).wf(),
        contract_result(result) == receive_result(old(dao)@),
        final(dao)@ == receive_state(old(dao)@, info.sender@),
{
    let mut token_list = match dao.load_treasury_tokens() {
        Ok(tokens) => tokens,
        Err(error) => return Err(ContractError::Std(error)),
    };
    if !contains_text(&token_list, &info.sender) {
        proof {
            lemma_views_push(token_list@, info.sender);
        }
        token_list.push(info.sender.clone());
        dao.treasury_tokens = Some(token_list);
    }
    Ok(Response::new())
}

// ---------------------------------------------------------------------------------------------
// Answers of the token contract
// ---------------------------------------------------------------------------------------------

/// The weight behind an answer: nothing if there was none.
pub open spec fn weight_of(answer: Option<u128>) -> u128 {
    match answer {
        Some(weight) => weight,
        None => 0,
    }
}

/// A weight from the token contract, which takes knowing the token.
pub open spec fn weight_or_missing(dao: DaoView, answer: Option<u128>) -> Result<u128, PlatformErrorView> {
    match dao.config {
        Some(_) => Ok(weight_of(answer)),
        None => Err(PlatformError::missing(Record::Config)),
    }
}

/// The supply from the token contract, which takes knowing the token.
pub open spec fn supply_or_missing(dao: DaoView, answer: Result<u128, PlatformErrorView>) -> Result<
    u128,
    PlatformErrorView,
> {
    match dao.config {
        Some(_) => answer,
        None => Err(PlatformError::missing(Record::Config)),
    }
}

/// The view of an answer that is a number.
pub open spec fn number_result(answer: Result<u128, PlatformError>) -> Result<u128, PlatformErrorView> {
    match answer {
        Ok(number) => Ok(number),
        Err(error) => Err(error@),
    }
}

/// The supply of the voting token, as `answer` gives it.
pub fn get_total_supply(dao: &Dao, answer: Result<u128, PlatformError>) -> (supply: Result<
    u128,
    PlatformError,
>)
    ensures
        number_result(supply) == supply_or_missing(dao@, number_result(answer)),
{
    match dao.load_config() {
        Ok(_) => answer,
        Err(error) => Err(error),
    }
}

/// What an account holds of the voting token: as much as `answer` says, and nothing without one.
pub fn get_balance(dao: &Dao, answer: Option<u128>) -> (balance: Result<u128, PlatformError>)
    ensures
        number_result(balance) == weight_or_missing(dao@, answer),
{
    match dao.load_config() {
        Ok(_) => Ok(answer.unwrap_or(0)),
        Err(error) => Err(error),
    }
}

/// What an account held of the voting token at a height: as much as `answer` says, and nothing
/// without one.
pub fn get_balance_at_height(dao: &Dao, answer: Option<u128>) -> (balance: Result<u128, PlatformError>)
    ensures
        number_result(balance) == weight_or_missing(dao@, answer),
{
    match dao.load_config() {
        Ok(_) => Ok(answer.unwrap_or(0)),
        Err(error) => Err(error),
    }
}

// ---------------------------------------------------------------------------------------------
// Proposing
// ---------------------------------------------------------------------------------------------

/// The messages that take a deposit from the sender: none if there is nothing to take.
pub open spec fn deposit_messages(
    contract: Seq<char>,
    sender: Seq<char>,
    deposit: ProposalDepositView,
) -> Seq<CosmosMsgView> {
    if deposit.amount == 0 {
        Seq::empty()
    } else {
        token_call(
            deposit.token_address,
            token_msg_encoding(
                TokenMsgView::TransferFrom { owner: sender, recipient: contract, amount: deposit.amount },
            ),
        )
    }
}

/// The messages that return a deposit to the proposer: none if there is nothing to return.
pub open spec fn refund_messages(proposer: Seq<char>, deposit: ProposalDepositView) -> Seq<CosmosMsgView> {
    if deposit.amount == 0 {
        Seq::empty()
    } else {
        token_call(
            deposit.token_address,
            token_msg_encoding(TokenMsgView::Transfer { recipient: proposer, amount: deposit.amount }),
        )
    }
}

/// The messages that take a deposit from the sender.
pub fn get_deposit_message(env: &Env, info: &MessageInfo, config: &ProposalDeposit) -> (messages: Result<
    Vec<CosmosMsg>,
    PlatformError,
>)
    ensures
        messages matches Ok(list) && views(list@) == deposit_messages(
            env.contract.address@,
            info.sender@,
            config@,
        ),
{
    if config.amount == 0 {
        let none: Vec<CosmosMsg> = Vec::new();
        proof {
            assert(views(none@) =~= Seq::empty());
        }
        return Ok(none);
    }
    let transfer = TokenMsg::TransferFrom {
        owner: info.sender.clone(),
        recipient: env.contract.address.clone(),
        amount: config.amount,
    };
    token_message(&config.token_address, &transfer)
}

/// The messages that return a deposit to the proposer.
pub fn get_proposal_deposit_refund_message(proposer: &String, config: &ProposalDeposit) -> (messages: Result<
    Vec<CosmosMsg>,
    PlatformError,
>)
    ensures
        messages matches Ok(list) && views(list@) == refund_messages(proposer@, config@),
{
    if config.amount == 0 {
        let none: Vec<CosmosMsg> = Vec::new();
        proof {
            assert(views(none@) =~= Seq::empty());
        }
        return Ok(none);
    }
    let transfer = TokenMsg::Transfer { recipient: proposer.clone(), amount: config.amount };
    token_message(&config.token_address, &transfer)
}

/// When voting ends: at the wish of the proposer, but no later than `max`; at `max` without a
/// wish. A wish that cannot be held against `max` gives no end.
pub open spec fn chosen_expiration(latest: Option<Expiration>, max: Expiration) -> Option<Expiration> {
    match latest {
        None => Some(max),
        Some(wish) => match wish.order(max) {
            None => None,
            Some(Ordering::Greater) => Some(max),
            Some(_) => Some(wish),
        },
    }
}

/// When voting ends, if the wish of the proposer can be held against `max`.
pub fn choose_expiration(latest: Option<Expiration>, max: Expiration) -> (end: Option<Expiration>)
    ensures
        end == chosen_expiration(latest, max),
{
    let wish = latest.unwrap_or(max);
    match compare_expirations(&wish, &max) {
        Some(Ordering::Greater) => Some(max),
        Some(_) => Some(wish),
        None => None,
    }
}

/// What the proposer hands in.
pub struct Draft {
    pub title: Seq<char>,
    pub description: Seq<char>,
    pub msgs: Seq<CosmosMsgView>,
    pub latest: Option<Expiration>,
}

/// Why a draft does not become a proposal, if it does not.
pub open spec fn propose_refusal(
    dao: DaoView,
    block: BlockInfo,
    latest: Option<Expiration>,
    balance: Option<u128>,
    total_supply: Result<u128, PlatformErrorView>,
) -> Option<ContractErrorView> {
    match dao.config {
        None => Some(ContractError::missing(Record::Config)),
        Some(config) => {
            if weight_of(balance) == 0 {
                Some(ContractErrorView::Unauthorized)
            } else if chosen_expiration(latest, config.max_voting_period.end_after(block)) is None {
                Some(ContractErrorView::WrongExpiration)
            } else {
                match total_supply {
                    Ok(_) => None,
                    Err(error) => Some(ContractErrorView::Std(error)),
                }
            }
        },
    }
}

/// The proposal that a draft becomes, before any vote and as of `block`.
pub open spec fn new_proposal(
    config: ConfigView,
    block: BlockInfo,
    proposer: Seq<char>,
    draft: Draft,
    total_weight: u128,
) -> ProposalView {
    (ProposalView {
        title: draft.title,
        description: draft.description,
        proposer,
        start_height: block.height,
        expires: chosen_expiration(draft.latest, config.max_voting_period.end_after(block))->0,
        msgs: draft.msgs,
        status: Status::Open,
        votes: Votes::none(),
        threshold: config.threshold,
        total_weight,
        deposit: config.proposal_deposit,
    }).updated(block)
}

/// The identifier of the next proposal.
pub open spec fn next_proposal_id(dao: DaoView) -> u64 {
    (dao.proposal_count + 1) as u64
}

/// What `execute_propose` leaves behind: the proposal under the next identifier.
pub open spec fn propose_state(
    dao: DaoView,
    block: BlockInfo,
    sender: Seq<char>,
    draft: Draft,
    balance: Option<u128>,
    total_supply: Result<u128, PlatformErrorView>,
) -> DaoView {
    if propose_refusal(dao, block, draft.latest, balance, total_supply) is Some {
        dao
    } else {
        let id = next_proposal_id(dao);
        DaoView { proposal_count: id, ..dao }.with_proposal(
            id,
            new_proposal(dao.config->0, block, sender, draft, total_supply->Ok_0),
        )
    }
}

/// The answer to a proposal that was stored: the messages that take the deposit, if they could be
/// made, and notes on the proposal.
pub open spec fn propose_answer(
    deposit_msg: Result<Seq<CosmosMsgView>, PlatformErrorView>,
    sender: Seq<char>,
    id: u64,
    status: Status,
) -> Result<ResponseView, ContractErrorView> {
    match deposit_msg {
        Err(error) => Err(ContractErrorView::Std(error)),
        Ok(messages) => Ok(
            ResponseView::empty().with_messages(messages).with_attribute(
                "action"@,
                "propose"@,
            ).with_attribute("sender"@, sender).with_attribute(
                "proposal_id"@,
                decimal(id as nat),
            ).with_attribute("status"@, status_name(status)),
        ),
    }
}

/// What `execute_propose` returns: the messages that take the deposit, and notes on the proposal.
pub open spec fn propose_result(
    dao: DaoView,
    block: BlockInfo,
    contract: Seq<char>,
    sender: Seq<char>,
    draft: Draft,
    balance: Option<u128>,
    total_supply: Result<u128, PlatformErrorView>,
) -> Result<ResponseView, ContractErrorView> {
    match propose_refusal(dao, block, draft.latest, balance, total_supply) {
        Some(error) => Err(error),
        None => {
            let config = dao.config->0;
            let proposal = new_proposal(config, block, sender, draft, total_supply->Ok_0);
            propose_answer(
                Ok(deposit_messages(contract, sender, config.proposal_deposit)),
                sender,
                next_proposal_id(dao),
                proposal.status,
            )
        },
    }
}

/// Answers to a proposal that was stored under `id`, given the messages that take the deposit.
pub fn propose_response(
    deposit_msg: Result<Vec<CosmosMsg>, PlatformError>,
    info: &MessageInfo,
    id: u64,
    status: Status,
) -> (result: Result<Response, ContractError>)
    ensures
        contract_result(result) == propose_answer(
            messages_result(deposit_msg),
            info.sender@,
            id,
            status,
        ),
{
    let deposit_msg = match deposit_msg {
        Ok(messages) => messages,
        Err(error) => return Err(ContractError::Std(error)),
    };
    Ok(
        Response::new().add_messages(deposit_msg).add_attribute(
            "action",
            "propose".to_owned(),
        ).add_attribute("sender", info.sender.clone()).add_attribute(
            "proposal_id",
            decimal_text(id),
        ).add_attribute("status", status.name()),
    )
}

/// What `execute_propose` asks for: for someone who may propose, that the longest voting period
/// ends at a point that can be written down, and, if there is a proposal to store, that there is
/// an identifier left for it.
pub open spec fn propose_in_range(
    dao: DaoView,
    block: BlockInfo,
    latest: Option<Expiration>,
    balance: Option<u128>,
    total_supply: Result<u128, PlatformErrorView>,
) -> bool {
    &&& dao.config matches Some(config) ==> weight_of(balance) > 0
        ==> config.max_voting_period.fits_after(block)
    &&& propose_refusal(dao, block, latest, balance, total_supply) is None ==> dao.proposal_count
        < u64::MAX
}

/// Stores a proposal. `balance` is what the sender holds of the voting token now, and
/// `total_supply` how much there is of it.
pub fn execute_propose(
    dao: &mut Dao,
    env: &Env,
    info: &MessageInfo,
    title: String,
    description: String,
    msgs: Vec<CosmosMsg>,
    latest: Option<Expiration>,
    balance: Option<u128>,
    total_supply: Result<u128, PlatformError>,
) -> (result: Result<Response, ContractError>)
    requires
        old(dao).wf(),
        propose_in_range(old(dao)@, env.block, latest, balance, number_result(total_supply)),
    ensures
        final(dao).wf(),
        contract_result(result) == propose_result(
            old(dao)@,
            env.block,
            env.contract.address@,
            info.sender@,
            (Draft { title: title@, description: description@, msgs: views(msgs@), latest }),
            balance,
            number_result(total_supply),
        ),
        final(dao)@ == propose_state(
            old(dao)@,
            env.block,
            info.sender@,
            (Draft { title: title@, description: description@, msgs: views(msgs@), latest }),
            balance,
            number_result(total_supply),
        ),
{
    let cfg = match dao.load_config() {
        Ok(config) => config,
        Err(error) => return Err(ContractError::Std(error)),
    };
    let power: u128 = match get_balance(dao, balance) {
        Ok(balance) => balance,
        Err(error) => return Err(ContractError::Std(error)),
    };
    if power == 0 {
        return Err(ContractError::Unauthorized);
    }
    let max_expires = cfg.max_voting_period.after(&env.block);
    let expires = match choose_expiration(latest, max_expires) {
        Some(expires) => expires,
        None => return Err(ContractError::WrongExpiration),
    };
    let total_supply: u128 = match get_total_supply(dao, total_supply) {
        Ok(supply) => supply,
        Err(error) => return Err(ContractError::Std(error)),
    };
    let mut prop = Proposal {
        title,
        description,
        proposer: info.sender.clone(),
        start_height: env.block.height,
        expires,
        msgs,
        status: Status::Open,
        votes: Votes { yes: 0, no: 0, abstain: 0, veto: 0 },
        threshold: cfg.threshold,
        total_weight: total_supply,
        deposit: cfg.proposal_deposit.clone(),
    };
    prop.update_status(&env.block);
    let status = prop.status;
    let id: u64 = dao.next_id();
    dao.proposals.insert(id, prop);
    propose_response(get_deposit_message(env, info, &cfg.proposal_deposit), info, id, status)
}

// ---------------------------------------------------------------------------------------------
// Voting
// ---------------------------------------------------------------------------------------------

/// Why a vote is not counted, if it is not.
pub open spec fn vote_refusal(
    dao: DaoView,
    block: BlockInfo,
    sender: Seq<char>,
    proposal_id: u64,
    balance: Option<u128>,
) -> Option<ContractErrorView> {
    if !dao.proposals.dom().contains(proposal_id) {
        Some(ContractError::missing(Record::Proposal))
    } else if dao.proposals[proposal_id].status != Status::Open {
        Some(ContractErrorView::NotOpen)
    } else if dao.proposals[proposal_id].expires.reached(block) {
        Some(ContractErrorView::Expired)
    } else if dao.config is None {
        Some(ContractError::missing(Record::Config))
    } else if weight_of(balance) == 0 {
        Some(ContractErrorView::Unauthorized)
    } else if dao.ballots.dom().contains((proposal_id, sender)) {
        Some(ContractErrorView::AlreadyVoted)
    } else {
        None
    }
}

/// A proposal after a vote in `block`.
pub open spec fn voted_proposal(
    proposal: ProposalView,
    block: BlockInfo,
    vote: Vote,
    weight: u128,
) -> ProposalView {
    ProposalView { votes: proposal.votes.with_vote(vote, weight), ..proposal }.updated(block)
}

/// What `execute_vote` leaves behind: the ballot, and the proposal with the vote counted.
pub open spec fn vote_state(
    dao: DaoView,
    block: BlockInfo,
    sender: Seq<char>,
    proposal_id: u64,
    vote: Vote,
    balance: Option<u128>,
) -> DaoView {
    if vote_refusal(dao, block, sender, proposal_id, balance) is Some {
        dao
    } else {
        let weight = weight_of(balance);
        DaoView {
            ballots: dao.ballots.insert((proposal_id, sender), Ballot { weight, vote }),
            ..dao
        }.with_proposal(
            proposal_id,
            voted_proposal(dao.proposals[proposal_id], block, vote, weight),
        )
    }
}

/// What `execute_vote` returns.
pub open spec fn vote_result(
    dao: DaoView,
    block: BlockInfo,
    sender: Seq<char>,
    proposal_id: u64,
    vote: Vote,
    balance: Option<u128>,
) -> Result<ResponseView, ContractErrorView> {
    match vote_refusal(dao, block, sender, proposal_id, balance) {
        Some(error) => Err(error),
        None => {
            let proposal = voted_proposal(
                dao.proposals[proposal_id],
                block,
                vote,
                weight_of(balance),
            );
            Ok(
                ResponseView::empty().with_attribute("action"@, "vote"@).with_attribute(
                    "sender"@,
                    sender,
                ).with_attribute("proposal_id"@, decimal(proposal_id as nat)).with_attribute(
                    "status"@,
                    status_name(proposal.status),
                ),
            )
        },
    }
}

/// What `execute_vote` asks for: if the vote is to be counted, that there is room for it.
pub open spec fn vote_in_range(
    dao: DaoView,
    block: BlockInfo,
    sender: Seq<char>,
    proposal_id: u64,
    vote: Vote,
    balance: Option<u128>,
) -> bool {
    vote_refusal(dao, block, sender, proposal_id, balance) is None
        ==> dao.proposals[proposal_id].votes.has_room(
        vote,
        weight_of(balance),
        dao.proposals[proposal_id].threshold,
        dao.proposals[proposal_id].total_weight,
    )
}

/// Counts a vote. `balance` is what the sender held of the voting token when the proposal was
/// made.
pub fn execute_vote(
    dao: &mut Dao,
    env: &Env,
    info: &MessageInfo,
    proposal_id: u64,
    vote: Vote,
    balance: Option<u128>,
) -> (result: Result<Response, ContractError>)
    requires
        old(dao).wf(),
        vote_in_range(old(dao)@, env.block, info.sender@, proposal_id, vote, balance),
    ensures
        final(dao).wf(),
        contract_result(result) == vote_result(
            old(dao)@,
            env.block,
            info.sender@,
            proposal_id,
            vote,
            balance,
        ),
        final(dao)@ == vote_state(old(dao)@, env.block, info.sender@, proposal_id, vote, balance),
{
    let mut prop = match dao.load_proposal(proposal_id) {
        Ok(proposal) => proposal,
        Err(error) => return Err(ContractError::Std(error)),
    };
    if prop.status != Status::Open {
        return Err(ContractError::NotOpen);
    }
    if prop.expires.is_expired(&env.block) {
        return Err(ContractError::Expired);
    }
    let vote_power: u128 = match get_balance_at_height(dao, balance) {
        Ok(balance) => balance,
        Err(error) => return Err(ContractError::Std(error)),
    };
    if vote_power == 0 {
        return Err(ContractError::Unauthorized);
    }
    let key = BallotKey { proposal_id, voter: info.sender.clone() };
    if dao.ballots.get(&key).is_some() {
        return Err(ContractError::AlreadyVoted);
    }
    dao.ballots.insert(key, Ballot { weight: vote_power, vote });
    prop.votes.add_vote(vote, vote_power);
    prop.update_status(&env.block);
    let status = prop.status;
    dao.proposals.insert(proposal_id, prop);
    Ok(
        Response::new().add_attribute("action", "vote".to_owned()).add_attribute(
            "sender",
            info.sender.clone(),
        ).add_attribute("proposal_id", decimal_text(proposal_id)).add_attribute(
            "status",
            status.name(),
        ),
    )
}

// ---------------------------------------------------------------------------------------------
// Carrying out and closing
// ---------------------------------------------------------------------------------------------

/// Why a proposal is not carried out, if it is not.
pub open spec fn execute_refusal(dao: DaoView, proposal_id: u64) -> Option<ContractErrorView> {
    if !dao.proposals.dom().contains(proposal_id) {
        Some(ContractError::missing(Record::Proposal))
    } else if dao.proposals[proposal_id].status != Status::Passed {
        Some(ContractErrorView::WrongExecuteStatus)
    } else {
        None
    }
}

/// What `execute_execute` leaves behind: the proposal marked as carried out.
pub open spec fn execute_proposal_state(dao: DaoView, proposal_id: u64) -> DaoView {
    if execute_refusal(dao, proposal_id) is Some {
        dao
    } else {
        dao.with_proposal(proposal_id, dao.proposals[proposal_id].with_status(Status::Executed))
    }
}

/// The answer to a proposal that is carried out: the messages that return the deposit, if they
/// could be made, then those of the proposal.
pub open spec fn execute_answer(
    refund_msg: Result<Seq<CosmosMsgView>, PlatformErrorView>,
    msgs: Seq<CosmosMsgView>,
    sender: Seq<char>,
    proposal_id: u64,
) -> Result<ResponseView, ContractErrorView> {
    match refund_msg {
        Err(error) => Err(ContractErrorView::Std(error)),
        Ok(refund) => Ok(
            ResponseView::empty().with_messages(refund).with_messages(msgs).with_attribute(
                "action"@,
                "execute"@,
            ).with_attribute("sender"@, sender).with_attribute(
                "proposal_id"@,
                decimal(proposal_id as nat),
            ),
        ),
    }
}

/// What `execute_execute` returns: the messages that return the deposit, then those of the
/// proposal, in their order.
pub open spec fn execute_proposal_result(dao: DaoView, sender: Seq<char>, proposal_id: u64) -> Result<
    ResponseView,
    ContractErrorView,
> {
    match execute_refusal(dao, proposal_id) {
        Some(error) => Err(error),
        None => {
            let proposal = dao.proposals[proposal_id];
            execute_answer(
                Ok(refund_messages(proposal.proposer, proposal.deposit)),
                proposal.msgs,
                sender,
                proposal_id,
            )
        },
    }
}

/// Answers to a proposal that is carried out, given the messages that return the deposit.
pub fn execute_response(
    refund_msg: Result<Vec<CosmosMsg>, PlatformError>,
    msgs: Vec<CosmosMsg>,
    info: &MessageInfo,
    proposal_id: u64,
) -> (result: Result<Response, ContractError>)
    ensures
        contract_result(result) == execute_answer(
            messages_result(refund_msg),
            views(msgs@),
            info.sender@,
            proposal_id,
        ),
{
    let refund_msg = match refund_msg {
        Ok(messages) => messages,
        Err(error) => return Err(ContractError::Std(error)),
    };
    Ok(
        Response::new().add_messages(refund_msg).add_messages(msgs).add_attribute(
            "action",
            "execute".to_owned(),
        ).add_attribute("sender", info.sender.clone()).add_attribute(
            "proposal_id",
            decimal_text(proposal_id),
        ),
    )
}

/// Carries out a proposal that has passed, at whatever time.
pub fn execute_execute(dao: &mut Dao, info: &MessageInfo, proposal_id: u64) -> (result: Result<
    Response,
    ContractError,
>)
    requires
        old(dao).wf(),
    ensures
        final(dao).wf(),
        contract_result(result) == execute_proposal_result(old(dao)@, info.sender@, proposal_id),
        final(dao)@ == execute_proposal_state(old(dao)@, proposal_id),
{
    let prop = match dao.load_proposal(proposal_id) {
        Ok(proposal) => proposal,
        Err(error) => return Err(ContractError::Std(error)),
    };
    if prop.status != Status::Passed {
        return Err(ContractError::WrongExecuteStatus);
    }
    let mut done = prop.clone();
    done.status = Status::Executed;
    dao.proposals.insert(proposal_id, done);
    let refund_msg = get_proposal_deposit_refund_message(&prop.proposer, &prop.deposit);
    execute_response(refund_msg, prop.msgs, info, proposal_id)
}

/// Why a proposal is not closed, if it is not.
pub open spec fn close_refusal(dao: DaoView, block: BlockInfo, proposal_id: u64) -> Option<
    ContractErrorView,
> {
    if !dao.proposals.dom().contains(proposal_id) {
        Some(ContractError::missing(Record::Proposal))
    } else {
        let proposal = dao.proposals[proposal_id];
        if proposal.status == Status::Executed || proposal.status == Status::Rejected
            || proposal.status == Status::Passed {
            Some(ContractErrorView::WrongCloseStatus)
        } else if !proposal.expires.reached(block) {
            Some(ContractErrorView::NotExpired)
        } else {
            None
        }
    }
}

/// What `execute_close` leaves behind: the proposal marked as rejected.
pub open spec fn close_state(dao: DaoView, block: BlockInfo, proposal_id: u64) -> DaoView {
    if close_refusal(dao, block, proposal_id) is Some {
        dao
    } else {
        dao.with_proposal(proposal_id, dao.proposals[proposal_id].with_status(Status::Rejected))
    }
}

/// What `execute_close` returns.
pub open spec fn close_result(
    dao: DaoView,
    block: BlockInfo,
    sender: Seq<char>,
    proposal_id: u64,
) -> Result<ResponseView, ContractErrorView> {
    match close_refusal(dao, block, proposal_id) {
        Some(error) => Err(error),
        None => Ok(
            ResponseView::empty().with_attribute("action"@, "close"@).with_attribute(
                "sender"@,
                sender,
            ).with_attribute("proposal_id"@, decimal(proposal_id as nat)),
        ),
    }
}

/// Rejects a proposal whose time is over.
pub fn execute_close(dao: &mut Dao, env: &Env, info: &MessageInfo, proposal_id: u64) -> (result: Result<
    Response,
    ContractError,
>)
    requires
        old(dao).wf(),
    ensures
        final(dao).wf(),
        contract_result(result) == close_result(old(dao)@, env.block, info.sender@, proposal_id),
        final(dao)@ == close_state(old(dao)@, env.block, proposal_id),
{
    let mut prop = match dao.load_proposal(proposal_id) {
        Ok(proposal) => proposal,
        Err(error) => return Err(ContractError::Std(error)),
    };
    if prop.status == Status::Executed || prop.status == Status::Rejected || prop.status
        == Status::Passed {
        return Err(ContractError::WrongCloseStatus);
    }
    if !prop.expires.is_expired(&env.block) {
        return Err(ContractError::NotExpired);
    }
    prop.status = Status::Rejected;
    dao.proposals.insert(proposal_id, prop);
    Ok(
        Response::new().add_attribute("action", "close".to_owned()).add_attribute(
            "sender",
            info.sender.clone(),
        ).add_attribute("proposal_id", decimal_text(proposal_id)),
    )
}

// ---------------------------------------------------------------------------------------------
// Changing the rules
// ---------------------------------------------------------------------------------------------

/// The rules that are to be in force, but for the voting token.
pub struct NewRules {
    pub threshold: Threshold,
    pub max_voting_period: Duration,
    pub proposal_deposit_amount: u128,
    pub proposal_deposit_token_address: Seq<char>,
}

/// Why the rules are not changed, if they are not.
pub open spec fn update_config_refusal(
    dao: DaoView,
    contract: Seq<char>,
    sender: Seq<char>,
    rules: NewRules,
    deposit_addr: Option<Seq<char>>,
) -> Option<ContractErrorView> {
    if contract != sender {
        Some(ContractErrorView::Unauthorized)
    } else if rules.threshold.refusal() is Some {
        rules.threshold.refusal()
    } else if deposit_addr is None {
        Some(ContractErrorView::InvalidCw20 { addr: rules.proposal_deposit_token_address })
    } else if dao.config is None {
        Some(ContractError::missing(Record::Config))
    } else {
        None
    }
}

/// What `execute_update_config` leaves behind: the new rules, with the voting token as it was.
pub open spec fn update_config_state(
    dao: DaoView,
    contract: Seq<char>,
    sender: Seq<char>,
    rules: NewRules,
    deposit_addr: Option<Seq<char>>,
) -> DaoView {
    if update_config_refusal(dao, contract, sender, rules, deposit_addr) is Some {
        dao
    } else {
        DaoView {
            config: Some(
                ConfigView {
                    threshold: rules.threshold,
                    max_voting_period: rules.max_voting_period,
                    proposal_deposit: ProposalDepositView {
                        amount: rules.proposal_deposit_amount,
                        token_address: deposit_addr->0,
                    },
                    cw20_addr: dao.config->0.cw20_addr,
                },
            ),
            ..dao
        }
    }
}

/// What `execute_update_config` returns.
pub open spec fn update_config_result(
    dao: DaoView,
    contract: Seq<char>,
    sender: Seq<char>,
    rules: NewRules,
    deposit_addr: Option<Seq<char>>,
) -> Result<ResponseView, ContractErrorView> {
    match update_config_refusal(dao, contract, sender, rules, deposit_addr) {
        Some(error) => Err(error),
        None => Ok(
            ResponseView::empty().with_attribute("action"@, "update_config"@).with_attribute(
                "sender"@,
                sender,
            ),
        ),
    }
}

/// Changes the rules, which only the contract itself may do. `deposit_addr` is what the chain made
/// of the address of the deposit's token, if it is an address.
pub fn execute_update_config(
    dao: &mut Dao,
    env: &Env,
    info: &MessageInfo,
    threshold: Threshold,
    max_voting_period: Duration,
    proposal_deposit_amount: u128,
    proposal_deposit_token_address: String,
    deposit_addr: Option<String>,
) -> (result: Result<Response, ContractError>)
    requires
        old(dao).wf(),
    ensures
        final(dao).wf(),
        contract_result(result) == update_config_result(
            old(dao)@,
            env.contract.address@,
            info.sender@,
            (NewRules {
                threshold,
                max_voting_period,
                proposal_deposit_amount,
                proposal_deposit_token_address: proposal_deposit_token_address@,
            }),
            option_view(deposit_addr),
        ),
        final(dao)@ == update_config_state(
            old(dao)@,
            env.contract.address@,
            info.sender@,
            (NewRules {
                threshold,
                max_voting_period,
                proposal_deposit_amount,
                proposal_deposit_token_address: proposal_deposit_token_address@,
            }),
            option_view(deposit_addr),
        ),
{
    if env.contract.address != info.sender {
        return Err(ContractError::Unauthorized);
    }
    match threshold.validate() {
        Ok(()) => {},
        Err(error) => return Err(error),
    }
    let deposit_addr = match check_token(&proposal_deposit_token_address, deposit_addr) {
        Ok(token) => token,
        Err(error) => return Err(error),
    };
    let mut config = match dao.load_config() {
        Ok(config) => config,
        Err(error) => return Err(ContractError::Std(error)),
    };
    config.threshold = threshold;
    config.max_voting_period = max_voting_period;
    config.proposal_deposit = ProposalDeposit {
        amount: proposal_deposit_amount,
        token_address: deposit_addr,
    };
    dao.config = Some(config);
    Ok(
        Response::new().add_attribute("action", "update_config".to_owned()).add_attribute(
            "sender",
            info.sender.clone(),
        ),
    )
}

// ---------------------------------------------------------------------------------------------
// All messages
// ---------------------------------------------------------------------------------------------

/// The address in an answer, if there is one.
pub open spec fn address_of(answer: Result<String, PlatformError>) -> Option<Seq<char>> {
    match answer {
        Ok(address) => Some(address@),
        Err(_) => None,
    }
}

/// What `execute` asks for: what the message at hand asks for.
pub open spec fn execute_in_range(
    dao: DaoView,
    env: Env,
    info: MessageInfo,
    msg: ExecuteMsg,
    answers: Answers,
) -> bool {
    match msg {
        ExecuteMsg::Propose { title, description, msgs, latest } => propose_in_range(
            dao,
            env.block,
            latest,
            answers.balance,
            number_result(answers.total_supply),
        ),
        ExecuteMsg::Vote { proposal_id, vote } => vote_in_range(
            dao,
            env.block,
            info.sender@,
            proposal_id,
            vote,
            answers.balance_at_height,
        ),
        _ => true,
    }
}

/// What `execute` leaves behind.
pub open spec fn execute_state(
    dao: DaoView,
    env: Env,
    info: MessageInfo,
    msg: ExecuteMsg,
    answers: Answers,
) -> DaoView {
    match msg {
        ExecuteMsg::Propose { title, description, msgs, latest } => propose_state(
            dao,
            env.block,
            info.sender@,
            Draft { title: title@, description: description@, msgs: views(msgs@), latest },
            answers.balance,
            number_result(answers.total_supply),
        ),
        ExecuteMsg::Vote { proposal_id, vote } => vote_state(
            dao,
            env.block,
            info.sender@,
            proposal_id,
            vote,
            answers.balance_at_height,
        ),
        ExecuteMsg::Execute { proposal_id } => execute_proposal_state(dao, proposal_id),
        ExecuteMsg::Close { proposal_id } => close_state(dao, env.block, proposal_id),
        ExecuteMsg::Receive(_) => receive_state(dao, info.sender@),
        ExecuteMsg::UpdateConfig {
            threshold,
            max_voting_period,
            proposal_deposit_amount,
            proposal_deposit_token_address,
        } => update_config_state(
            dao,
            env.contract.address@,
            info.sender@,
            NewRules {
                threshold,
                max_voting_period,
                proposal_deposit_amount,
                proposal_deposit_token_address: proposal_deposit_token_address@,
            },
            address_of(answers.address),
        ),
    }
}

/// What `execute` returns.
pub open spec fn execute_result(
    dao: DaoView,
    env: Env,
    info: MessageInfo,
    msg: ExecuteMsg,
    answers: Answers,
) -> Result<ResponseView, ContractErrorView> {
    match msg {
        ExecuteMsg::Propose { title, description, msgs, latest } => propose_result(
            dao,
            env.block,
            env.contract.address@,
            info.sender@,
            Draft { title: title@, description: description@, msgs: views(msgs@), latest },
            answers.balance,
            number_result(answers.total_supply),
        ),
        ExecuteMsg::Vote { proposal_id, vote } => vote_result(
            dao,
            env.block,
            info.sender@,
            proposal_id,
            vote,
            answers.balance_at_height,
        ),
        ExecuteMsg::Execute { proposal_id } => execute_proposal_result(
            dao,
            info.sender@,
            proposal_id,
        ),
        ExecuteMsg::Close { proposal_id } => close_result(
            dao,
            env.block,
            info.sender@,
            proposal_id,
        ),
        ExecuteMsg::Receive(_) => receive_result(dao),
        ExecuteMsg::UpdateConfig {
            threshold,
            max_voting_period,
            proposal_deposit_amount,
            proposal_deposit_token_address,
        } => update_config_result(
            dao,
            env.contract.address@,
            info.sender@,
            NewRules {
                threshold,
                max_voting_period,
                proposal_deposit_amount,
                proposal_deposit_token_address: proposal_deposit_token_address@,
            },
            address_of(answers.address),
        ),
    }
}

/// Handles a message, with the answers to the questions that it raises.
pub fn execute(dao: &mut Dao, env: &Env, info: &MessageInfo, msg: ExecuteMsg, answers: Answers) -> (result:
    Result<Response, ContractError>)
    requires
        old(dao).wf(),
        execute_in_range(old(dao)@, *env, *info, msg, answers),
    ensures
        final(dao).wf(),
        contract_result(result) == execute_result(old(dao)@, *env, *info, msg, answers),
        final(dao)@ == execute_state(old(dao)@, *env, *info, msg, answers),
{
    match msg {
        ExecuteMsg::Propose { title, description, msgs, latest } => execute_propose(
            dao,
            env,
            info,
            title,
            description,
            msgs,
            latest,
            answers.balance,
            answers.total_supply,
        ),
        ExecuteMsg::Vote { proposal_id, vote } => execute_vote(
            dao,
            env,
            info,
            proposal_id,
            vote,
            answers.balance_at_height,
        ),
        ExecuteMsg::Execute { proposal_id } => execute_execute(dao, info, proposal_id),
        ExecuteMsg::Close { proposal_id } => execute_close(dao, env, info, proposal_id),
        ExecuteMsg::Receive(wrapper) => execute_receive(dao, info, &wrapper),
        ExecuteMsg::UpdateConfig {
            threshold,
            max_voting_period,
            proposal_deposit_amount,
            proposal_deposit_token_address,
        } => execute_update_config(
            dao,
            env,
            info,
            threshold,
            max_voting_period,
            proposal_deposit_amount,
            proposal_deposit_token_address,
            answers.address.ok(),
        ),
    }
}

/// Whether a proposal can be stored, if it is not refused.
pub fn propose_fits(
    dao: &Dao,
    block: &BlockInfo,
    latest: Option<Expiration>,
    balance: Option<u128>,
    total_supply: &Result<u128, PlatformError>,
) -> (fits: bool)
    ensures
        fits == propose_in_range(dao@, *block, latest, balance, number_result(*total_supply)),
{
    match &dao.config {
        None => true,
        Some(config) => {
            if balance.unwrap_or(0) == 0 {
                true
            } else if !config.max_voting_period.can_be_added_to(block) {
                false
            } else if choose_expiration(latest, config.max_voting_period.after(block)).is_none() {
                true
            } else if total_supply.is_err() {
                true
            } else {
                dao.proposal_count < u64::MAX
            }
        },
    }
}

/// Whether a vote can be counted, if it is not refused.
pub fn vote_fits(
    dao: &Dao,
    block: &BlockInfo,
    sender: &String,
    proposal_id: u64,
    vote: Vote,
    balance: Option<u128>,
) -> (fits: bool)
    requires
        dao.wf(),
    ensures
        fits == vote_in_range(dao@, *block, sender@, proposal_id, vote, balance),
{
    match dao.proposals.get(&proposal_id) {
        None => true,
        Some(prop) => {
            let weight: u128 = balance.unwrap_or(0);
            let key = BallotKey { proposal_id, voter: sender.clone() };
            proof {
                assert(dao@.proposals.dom().contains(proposal_id));
            }
            if prop.status != Status::Open || prop.expires.is_expired(block) || dao.config.is_none()
                || weight == 0 || dao.ballots.get(&key).is_some() {
                true
            } else {
                prop.votes.can_add_vote(vote, weight, &prop.threshold, prop.total_weight)
            }
        },
    }
}

/// Whether `execute` can handle a message: every number that it comes to can be written down.
pub fn execute_fits(dao: &Dao, env: &Env, info: &MessageInfo, msg: &ExecuteMsg, answers: &Answers) -> (fits:
    bool)
    requires
        dao.wf(),
    ensures
        fits == execute_in_range(dao@, *env, *info, *msg, *answers),
{
    match msg {
        ExecuteMsg::Propose { latest, .. } => propose_fits(
            dao,
            &env.block,
            *latest,
            answers.balance,
            &answers.total_supply,
        ),
        ExecuteMsg::Vote { proposal_id, vote } => vote_fits(
            dao,
            &env.block,
            &info.sender,
            *proposal_id,
            *vote,
            answers.balance_at_height,
        ),
        _ => true,
    }
}

/// What has to be asked before `instantiate`.
pub open spec fn instantiate_asks(msg: InstantiateMsg) -> Seq<QuestionView> {
    seq![
        QuestionView::Address { input: msg.cw20_addr@ },
        QuestionView::Address { input: msg.proposal_deposit_token_address@ },
    ]
}

/// What has to be asked before `execute`: for a proposal, what the sender holds of the voting token
/// and how much there is of it; for a vote, what the sender held when the proposal was made; for
/// new rules, whether the deposit's token is an address.
pub open spec fn execute_asks(dao: DaoView, info: MessageInfo, msg: ExecuteMsg) -> Seq<QuestionView> {
    match (msg, dao.config) {
        (ExecuteMsg::Propose { .. }, Some(config)) => seq![
            QuestionView::Balance { token: config.cw20_addr, holder: info.sender@ },
            QuestionView::TotalSupply { token: config.cw20_addr },
        ],
        (ExecuteMsg::Vote { proposal_id, .. }, Some(config)) => {
            if dao.proposals.dom().contains(proposal_id) {
                seq![
                    QuestionView::BalanceAtHeight {
                        token: config.cw20_addr,
                        holder: info.sender@,
                        height: dao.proposals[proposal_id].start_height,
                    },
                ]
            } else {
                Seq::empty()
            }
        },
        (ExecuteMsg::UpdateConfig { proposal_deposit_token_address, .. }, _) => seq![
            QuestionView::Address { input: proposal_deposit_token_address@ },
        ],
        _ => Seq::empty(),
    }
}

/// What has to be asked before `instantiate`, in the order of its arguments.
pub fn instantiate_questions(msg: &InstantiateMsg) -> (questions: Vec<Question>)
    ensures
        views(questions@) == instantiate_asks(*msg),
{
    let mut questions: Vec<Question> = Vec::new();
    questions.push(Question::Address { input: msg.cw20_addr.clone() });
    questions.push(Question::Address { input: msg.proposal_deposit_token_address.clone() });
    proof {
        assert(views(questions@) =~= instantiate_asks(*msg));
    }
    questions
}

/// What has to be asked before `execute`.
pub fn execute_questions(dao: &Dao, info: &MessageInfo, msg: &ExecuteMsg) -> (questions: Vec<Question>)
    requires
        dao.wf(),
    ensures
        views(questions@) == execute_asks(dao@, *info, *msg),
{
    let mut questions: Vec<Question> = Vec::new();
    match msg {
        ExecuteMsg::Propose { .. } => {
            if let Some(config) = &dao.config {
                questions.push(
                    Question::Balance { token: config.cw20_addr.clone(), holder: info.sender.clone() },
                );
                questions.push(Question::TotalSupply { token: config.cw20_addr.clone() });
            }
        },
        ExecuteMsg::Vote { proposal_id, .. } => {
            if let Some(config) = &dao.config {
                if let Some(proposal) = dao.proposals.get(proposal_id) {
                    questions.push(
                        Question::BalanceAtHeight {
                            token: config.cw20_addr.clone(),
                            holder: info.sender.clone(),
                            height: proposal.start_height,
                        },
                    );
                }
            }
        },
        ExecuteMsg::UpdateConfig { proposal_deposit_token_address, .. } => {
            questions.push(Question::Address { input: proposal_deposit_token_address.clone() });
        },
        _ => {},
    }
    proof {
        assert(views(questions@) =~= execute_asks(dao@, *info, *msg));
    }
    questions
}

} // verus!
