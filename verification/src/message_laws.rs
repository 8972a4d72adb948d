//! What each message does, told by what is handed in, what comes back, and how the state differs
//! before and after.
use crate::contract::{
    close_result, close_state, deposit_messages, execute_answer, execute_asks, execute_in_range,
    execute_proposal_result, execute_proposal_state, execute_result, execute_state,
    instantiate_asks, instantiate_result, instantiate_state, propose_answer, propose_result,
    propose_state, receive_result, receive_state, refund_messages, supply_or_missing,
    update_config_result, update_config_state, vote_in_range, vote_result, vote_state,
    weight_or_missing, Draft, NewRules,
};
use crate::error::{ContractErrorView, PlatformErrorView, Record};
use crate::expiration::{BlockInfo, Expiration};
use crate::laws::law_execute_is_its_handler;
use crate::msg::{CosmosMsgView, Env, ExecuteMsg, InstantiateMsg, MessageInfo, ResponseView};
use crate::outside::{Answers, QuestionView};
use crate::proposal::{carried, ProposalDepositView, ProposalView, Status, Vote};
use crate::rule_laws::{
    cast, cast_in_all, end_of_voting, law_counting, law_room, law_status_in_a_block, law_time,
    law_what_carries, law_which_rules_are_adopted, period_fits, sound_share, stands, time_is_up,
    wins,
};
use crate::state::DaoView;
use crate::text::decimal;
use crate::threshold::Threshold;
use crate::token::{token_msg_encoding, TokenMsgView};
use crate::views::views;
use vstd::prelude::*;

verus! {

// ---------------------------------------------------------------------------------------------
// Words for what is compared
// ---------------------------------------------------------------------------------------------

/// Nothing differs but proposals and ballots.
pub open spec fn rest_is_same(before: DaoView, after: DaoView) -> bool {
    &&& after.version == before.version
    &&& after.config == before.config
    &&& after.treasury_tokens == before.treasury_tokens
}

/// No proposal differs but one, which both or only the later state holds.
pub open spec fn others_are_same(before: DaoView, after: DaoView, id: u64) -> bool {
    &&& after.proposals.dom().contains(id)
    &&& forall|other: u64|
        other != id ==> (#[trigger] after.proposals.dom().contains(other)
            <==> before.proposals.dom().contains(other)) && (before.proposals.dom().contains(other)
            ==> after.proposals[other] == before.proposals[other])
}

/// A proposal says the same, apart from its votes and its status.
pub open spec fn says_the_same(before: ProposalView, after: ProposalView) -> bool {
    &&& after.title == before.title
    &&& after.description == before.description
    &&& after.proposer == before.proposer
    &&& after.start_height == before.start_height
    &&& after.expires == before.expires
    &&& after.msgs == before.msgs
    &&& after.threshold == before.threshold
    &&& after.total_weight == before.total_weight
    &&& after.deposit == before.deposit
}

/// A response notes one thing under one key, in one place.
pub open spec fn notes(response: ResponseView, i: int, key: Seq<char>, value: Seq<char>) -> bool {
    &&& i < response.attributes.len()
    &&& response.attributes[i].key == key
    &&& response.attributes[i].value == value
}

/// The name of a status, as it is noted.
pub open spec fn named(status: Status) -> Seq<char> {
    match status {
        Status::Pending => "Pending"@,
        Status::Open => "Open"@,
        Status::Rejected => "Rejected"@,
        Status::Passed => "Passed"@,
        Status::Executed => "Executed"@,
    }
}

/// The refusal for a record that is not there.
pub open spec fn no_record(record: Record) -> ContractErrorView {
    ContractErrorView::Std(PlatformErrorView::NotFound { record })
}

/// There is an answer, and it is more than nothing.
pub open spec fn holds_some(balance: Option<u128>) -> bool {
    balance matches Some(amount) && amount > 0
}

// ---------------------------------------------------------------------------------------------
// Deposits
// ---------------------------------------------------------------------------------------------

/// These messages are one call of a token contract, with this encoded message and no funds.
pub open spec fn is_call(messages: Seq<CosmosMsgView>, token: Seq<char>, msg: TokenMsgView) -> bool {
    &&& messages.len() == 1
    &&& messages[0] matches CosmosMsgView::WasmExecute { contract_addr, msg: bytes, funds }
    &&& contract_addr == token
    &&& bytes == token_msg_encoding(msg)
    &&& funds.len() == 0
}

/// A deposit of nothing takes no message. Any other takes one call of its token: on proposing, to
/// move the amount from the sender to the contract; on carrying out, to move the same amount to the
/// proposer.
pub proof fn law_deposit_messages(
    contract: Seq<char>,
    account: Seq<char>,
    deposit: ProposalDepositView,
)
    ensures
        deposit.amount == 0 ==> deposit_messages(contract, account, deposit).len() == 0
            && refund_messages(account, deposit).len() == 0,
        deposit.amount > 0 ==> is_call(
            deposit_messages(contract, account, deposit),
            deposit.token_address,
            TokenMsgView::TransferFrom {
                owner: account,
                recipient: contract,
                amount: deposit.amount,
            },
        ),
        deposit.amount > 0 ==> is_call(
            refund_messages(account, deposit),
            deposit.token_address,
            TokenMsgView::Transfer { recipient: account, amount: deposit.amount },
        ),
{
}

// ---------------------------------------------------------------------------------------------
// Setting up
// ---------------------------------------------------------------------------------------------

/// Setting up succeeds just when both token addresses are addresses and the shares of the rule are
/// sound. Then the rules are those of the message, with the addresses as the chain writes them, and
/// the list holds the voting token alone. Proposals, ballots and their count are never touched.
pub proof fn law_setting_up(
    dao: DaoView,
    msg: InstantiateMsg,
    cw20_addr: Option<Seq<char>>,
    deposit_addr: Option<Seq<char>>,
)
    ensures
        ({
            let result = instantiate_result(msg, cw20_addr, deposit_addr);
            let after = instantiate_state(dao, msg, cw20_addr, deposit_addr);
            let sound = match msg.threshold {
                Threshold::AbsolutePercentage { percentage } => sound_share(percentage),
                Threshold::ThresholdQuorum { threshold, quorum } => sound_share(threshold)
                    && sound_share(quorum),
            };
            &&& result is Ok <==> cw20_addr is Some && deposit_addr is Some && sound
            &&& after.proposals == dao.proposals
            &&& after.ballots == dao.ballots
            &&& after.proposal_count == dao.proposal_count
            &&& result matches Ok(response) ==> {
                &&& response.messages.len() == 0
                &&& response.attributes.len() == 0
                &&& after.config matches Some(config)
                &&& config.threshold == msg.threshold
                &&& config.max_voting_period == msg.max_voting_period
                &&& Some(config.cw20_addr) == cw20_addr
                &&& config.proposal_deposit.amount == msg.proposal_deposit_amount
                &&& Some(config.proposal_deposit.token_address) == deposit_addr
            }
            &&& result is Err ==> after.config == dao.config
            &&& cw20_addr is Some && deposit_addr is Some ==> {
                &&& after.treasury_tokens matches Some(tokens)
                &&& tokens.len() == 1
                &&& Some(tokens[0]) == cw20_addr
                &&& after.version matches Some(version)
                &&& version.contract == "crates.io:sg_dao"@
                &&& version.version == "0.1.0"@
            }
            &&& cw20_addr is None || deposit_addr is None ==> after == dao
            &&& cw20_addr is None ==> result == Err::<ResponseView, _>(
                ContractErrorView::InvalidCw20 { addr: msg.cw20_addr@ },
            )
            &&& cw20_addr is Some && deposit_addr is None ==> result == Err::<ResponseView, _>(
                ContractErrorView::InvalidCw20 { addr: msg.proposal_deposit_token_address@ },
            )
            &&& cw20_addr is Some && deposit_addr is Some && !sound ==> (result matches Err(error)
                && Some(error) == msg.threshold.refusal())
        }),
{
    law_which_rules_are_adopted(msg.threshold);
}

// ---------------------------------------------------------------------------------------------
// Receiving tokens
// ---------------------------------------------------------------------------------------------

/// Receiving tokens puts the sender at the end of the list, unless it is on it; the list is the only
/// thing that changes. Without a list it is refused.
pub proof fn law_receiving(dao: DaoView, sender: Seq<char>)
    ensures
        ({
            let after = receive_state(dao, sender);
            match dao.treasury_tokens {
                None => receive_result(dao) == Err::<ResponseView, _>(
                    no_record(Record::TreasuryTokens),
                ) && after == dao,
                Some(tokens) => {
                    &&& receive_result(dao) matches Ok(response)
                    &&& response.messages.len() == 0
                    &&& response.attributes.len() == 0
                    &&& after.treasury_tokens matches Some(list)
                    &&& list.contains(sender)
                    &&& tokens.contains(sender) ==> list == tokens
                    &&& !tokens.contains(sender) ==> list.len() == tokens.len() + 1 && list.last()
                        == sender && list.drop_last() == tokens
                    &&& after.version == dao.version
                    &&& after.config == dao.config
                    &&& after.proposal_count == dao.proposal_count
                    &&& after.proposals == dao.proposals
                    &&& after.ballots == dao.ballots
                },
            }
        }),
{
    if let Some(tokens) = dao.treasury_tokens {
        if !tokens.contains(sender) {
            let list = tokens.push(sender);
            assert(list[tokens.len() as int] == sender);
            assert(list.drop_last() =~= tokens);
        }
    }
}

/// What an account holds is what the token contract says, and nothing where it says nothing; the
/// supply is what the token contract says, error or not. Without rules there is no token to ask.
pub proof fn law_answers_are_believed(
    dao: DaoView,
    balance: Option<u128>,
    supply: Result<u128, PlatformErrorView>,
)
    ensures
        dao.config is Some ==> {
            &&& supply_or_missing(dao, supply) == supply
            &&& weight_or_missing(dao, balance) matches Ok(weight)
            &&& balance is Some ==> balance == Some(weight)
            &&& balance is None ==> weight == 0
        },
        dao.config is None ==> {
            &&& supply_or_missing(dao, supply) == Err::<u128, _>(
                PlatformErrorView::NotFound { record: Record::Config },
            )
            &&& weight_or_missing(dao, balance) == Err::<u128, _>(
                PlatformErrorView::NotFound { record: Record::Config },
            )
        },
{
}

// ---------------------------------------------------------------------------------------------
// Proposing
// ---------------------------------------------------------------------------------------------

/// A draft becomes a proposal just when there are rules, the sender holds some of the voting token,
/// the wish for the end of voting can be held against the longest period, and the supply is known.
/// The first of these that fails is the refusal, and then nothing changes.
pub proof fn law_who_may_propose(
    dao: DaoView,
    block: BlockInfo,
    contract: Seq<char>,
    sender: Seq<char>,
    draft: Draft,
    balance: Option<u128>,
    total_supply: Result<u128, PlatformErrorView>,
)
    requires
        holds_some(balance) ==> (dao.config matches Some(config) ==> period_fits(
            config.max_voting_period,
            block,
        )),
    ensures
        ({
            let result = propose_result(dao, block, contract, sender, draft, balance, total_supply);
            let after = propose_state(dao, block, sender, draft, balance, total_supply);
            let end = end_of_voting(dao.config->0.max_voting_period, block, draft.latest);
            &&& result is Ok <==> dao.config is Some && holds_some(balance) && end is Some
                && total_supply is Ok
            &&& result is Err ==> after == dao
            &&& dao.config is None ==> result == Err::<ResponseView, _>(no_record(Record::Config))
            &&& dao.config is Some && !holds_some(balance) ==> result == Err::<ResponseView, _>(
                ContractErrorView::Unauthorized,
            )
            &&& dao.config is Some && holds_some(balance) && end is None ==> result == Err::<
                ResponseView,
                _,
            >(ContractErrorView::WrongExpiration)
            &&& dao.config is Some && holds_some(balance) && end is Some ==> (
            total_supply matches Err(error) ==> result == Err::<ResponseView, _>(
                ContractErrorView::Std(error),
            ))
        }),
{
    if let Some(config) = dao.config {
        law_time(
            config.max_voting_period,
            block,
            draft.latest,
            Expiration::Never,
            Expiration::Never,
        );
    }
}

/// A draft that is accepted is stored under the next number, as it was handed in: by the sender, from
/// this height on, until the end that was chosen, with no votes, under the threshold and for the
/// deposit of the rules, and with the whole supply as total weight, whatever the deposit. It is open,
/// unless no vote at all is already enough or no time at all is left. Nothing else changes.
pub proof fn law_what_is_proposed(
    dao: DaoView,
    block: BlockInfo,
    contract: Seq<char>,
    sender: Seq<char>,
    draft: Draft,
    balance: Option<u128>,
    total_supply: Result<u128, PlatformErrorView>,
)
    requires
        dao.config matches Some(config) && period_fits(config.max_voting_period, block),
        dao.proposal_count < u64::MAX,
        propose_result(dao, block, contract, sender, draft, balance, total_supply) is Ok,
    ensures
        ({
            let after = propose_state(dao, block, sender, draft, balance, total_supply);
            let config = dao.config->0;
            let id = after.proposal_count;
            let made = after.proposals[id];
            &&& id == dao.proposal_count + 1
            &&& rest_is_same(dao, after)
            &&& others_are_same(dao, after, id)
            &&& after.ballots == dao.ballots
            &&& made.title == draft.title
            &&& made.description == draft.description
            &&& made.msgs == draft.msgs
            &&& made.proposer == sender
            &&& made.start_height == block.height
            &&& Some(made.expires) == end_of_voting(config.max_voting_period, block, draft.latest)
            &&& Ok::<u128, PlatformErrorView>(made.total_weight) == total_supply
            &&& made.threshold == config.threshold
            &&& made.deposit == config.proposal_deposit
            &&& cast_in_all(made.votes) == 0
            &&& made.status == stands(
                Status::Open,
                config.threshold,
                made.votes,
                made.total_weight,
                time_is_up(made.expires, block),
            )
        }),
{
    let after = propose_state(dao, block, sender, draft, balance, total_supply);
    let config = dao.config->0;
    let made = after.proposals[after.proposal_count];
    law_time(config.max_voting_period, block, draft.latest, made.expires, made.expires);
    let fresh = made.with_status(Status::Open);
    law_status_in_a_block(fresh, block);
}

/// A draft that is accepted is answered with the messages that take the deposit, the sender, the
/// number of the proposal and its status.
pub proof fn law_answer_to_a_proposal(
    dao: DaoView,
    block: BlockInfo,
    contract: Seq<char>,
    sender: Seq<char>,
    draft: Draft,
    balance: Option<u128>,
    total_supply: Result<u128, PlatformErrorView>,
)
    requires
        propose_result(dao, block, contract, sender, draft, balance, total_supply) is Ok,
    ensures
        ({
            let response = propose_result(
                dao,
                block,
                contract,
                sender,
                draft,
                balance,
                total_supply,
            )->Ok_0;
            let after = propose_state(dao, block, sender, draft, balance, total_supply);
            let deposit = dao.config->0.proposal_deposit;
            &&& deposit.amount == 0 ==> response.messages.len() == 0
            &&& deposit.amount > 0 ==> is_call(
                response.messages,
                deposit.token_address,
                TokenMsgView::TransferFrom {
                    owner: sender,
                    recipient: contract,
                    amount: deposit.amount,
                },
            )
            &&& response.attributes.len() == 4
            &&& notes(response, 0, "action"@, "propose"@)
            &&& notes(response, 1, "sender"@, sender)
            &&& notes(response, 2, "proposal_id"@, decimal(after.proposal_count as nat))
            &&& notes(
                response,
                3,
                "status"@,
                named(after.proposals[after.proposal_count].status),
            )
        }),
{
    law_deposit_messages(contract, sender, dao.config->0.proposal_deposit);
}

/// Messages that take a deposit are passed on as they are, with three notes and the status; an error
/// in their place is passed on as well. So it is with messages that return a deposit, which come
/// before those of the proposal.
pub proof fn law_answers_pass_messages_on(
    made: Result<Seq<CosmosMsgView>, PlatformErrorView>,
    msgs: Seq<CosmosMsgView>,
    sender: Seq<char>,
    id: u64,
    status: Status,
)
    ensures
        match made {
            Err(error) => {
                &&& propose_answer(made, sender, id, status) == Err::<ResponseView, _>(
                    ContractErrorView::Std(error),
                )
                &&& execute_answer(made, msgs, sender, id) == Err::<ResponseView, _>(
                    ContractErrorView::Std(error),
                )
            },
            Ok(messages) => {
                &&& propose_answer(made, sender, id, status) matches Ok(proposed)
                &&& proposed.messages == messages
                &&& proposed.attributes.len() == 4
                &&& notes(proposed, 0, "action"@, "propose"@)
                &&& notes(proposed, 1, "sender"@, sender)
                &&& notes(proposed, 2, "proposal_id"@, decimal(id as nat))
                &&& notes(proposed, 3, "status"@, named(status))
                &&& execute_answer(made, msgs, sender, id) matches Ok(executed)
                &&& executed.messages == messages + msgs
                &&& executed.attributes.len() == 3
                &&& notes(executed, 0, "action"@, "execute"@)
                &&& notes(executed, 1, "sender"@, sender)
                &&& notes(executed, 2, "proposal_id"@, decimal(id as nat))
            },
        },
{
    if let Ok(messages) = made {
        assert(propose_answer(made, sender, id, status)->Ok_0.messages =~= messages);
        assert(execute_answer(made, msgs, sender, id)->Ok_0.messages =~= messages + msgs);
    }
}

// ---------------------------------------------------------------------------------------------
// Voting
// ---------------------------------------------------------------------------------------------

/// A vote is counted just when there is a proposal under the number, it is open, its time is not up,
/// there are rules, the sender held some of the voting token, and has not voted on it. The first of
/// these that fails is the refusal, and then nothing changes.
pub proof fn law_who_may_vote(
    dao: DaoView,
    block: BlockInfo,
    sender: Seq<char>,
    proposal_id: u64,
    vote: Vote,
    balance: Option<u128>,
)
    ensures
        ({
            let result = vote_result(dao, block, sender, proposal_id, vote, balance);
            let after = vote_state(dao, block, sender, proposal_id, vote, balance);
            let there = dao.proposals.dom().contains(proposal_id);
            let open = there && dao.proposals[proposal_id].status == Status::Open;
            let late = time_is_up(dao.proposals[proposal_id].expires, block);
            let voted = dao.ballots.dom().contains((proposal_id, sender));
            &&& result is Ok <==> open && !late && dao.config is Some && holds_some(balance) && !voted
            &&& result is Err ==> after == dao
            &&& !there ==> result == Err::<ResponseView, _>(no_record(Record::Proposal))
            &&& there && !open ==> result == Err::<ResponseView, _>(ContractErrorView::NotOpen)
            &&& open && late ==> result == Err::<ResponseView, _>(ContractErrorView::Expired)
            &&& open && !late && dao.config is None ==> result == Err::<ResponseView, _>(
                no_record(Record::Config),
            )
            &&& open && !late && dao.config is Some && !holds_some(balance) ==> result == Err::<
                ResponseView,
                _,
            >(ContractErrorView::Unauthorized)
            &&& open && !late && dao.config is Some && holds_some(balance) && voted ==> result
                == Err::<ResponseView, _>(ContractErrorView::AlreadyVoted)
        }),
{
}

/// A vote that is counted leaves a ballot with its answer and its weight under the sender, adds the
/// weight to its own answer and to no other, and changes nothing else but the status of the proposal.
pub proof fn law_what_a_vote_does(
    dao: DaoView,
    block: BlockInfo,
    sender: Seq<char>,
    proposal_id: u64,
    vote: Vote,
    balance: Option<u128>,
)
    requires
        vote_result(dao, block, sender, proposal_id, vote, balance) is Ok,
        cast(dao.proposals[proposal_id].votes, vote) + balance->0 <= u128::MAX,
    ensures
        ({
            let after = vote_state(dao, block, sender, proposal_id, vote, balance);
            let (then, now) = (dao.proposals[proposal_id], after.proposals[proposal_id]);
            let key = (proposal_id, sender);
            &&& rest_is_same(dao, after)
            &&& after.proposal_count == dao.proposal_count
            &&& others_are_same(dao, after, proposal_id)
            &&& says_the_same(then, now)
            &&& forall|answer: Vote|
                cast(now.votes, answer) == #[trigger] cast(then.votes, answer) + if answer == vote {
                    balance->0 as int
                } else {
                    0
                }
            &&& after.ballots.dom().contains(key)
            &&& after.ballots[key].vote == vote
            &&& Some(after.ballots[key].weight) == balance
            &&& forall|other: (u64, Seq<char>)|
                other != key ==> (#[trigger] after.ballots.dom().contains(other)
                    <==> dao.ballots.dom().contains(other)) && (dao.ballots.dom().contains(other)
                    ==> after.ballots[other] == dao.ballots[other])
        }),
{
    law_counting(dao.proposals[proposal_id].votes, vote, balance->0);
}

/// Every vote that is counted settles the status, whatever its answer: the proposal has passed just
/// when its votes now win before the end of voting, and is open otherwise.
pub proof fn law_every_vote_settles_the_status(
    dao: DaoView,
    block: BlockInfo,
    sender: Seq<char>,
    proposal_id: u64,
    vote: Vote,
    balance: Option<u128>,
)
    requires
        vote_result(dao, block, sender, proposal_id, vote, balance) is Ok,
    ensures
        ({
            let after = vote_state(dao, block, sender, proposal_id, vote, balance);
            let now = after.proposals[proposal_id];
            &&& now.status == Status::Passed <==> wins(
                now.threshold,
                now.votes,
                now.total_weight,
                false,
            )
            &&& now.status == Status::Passed <==> carried(
                now.threshold,
                now.votes,
                now.total_weight,
                false,
            )
            &&& now.status == Status::Passed || now.status == Status::Open
            &&& execute_proposal_result(after, sender, proposal_id) is Ok <==> wins(
                now.threshold,
                now.votes,
                now.total_weight,
                false,
            )
        }),
{
    let after = vote_state(dao, block, sender, proposal_id, vote, balance);
    let now = after.proposals[proposal_id];
    law_status_in_a_block(now.with_status(Status::Open), block);
    law_what_carries(now.threshold, now.votes, now.total_weight, false);
    law_who_may_vote(dao, block, sender, proposal_id, vote, balance);
    assert(now.status == now.with_status(Status::Open).updated(block).status);
}

/// A vote that is counted is answered with the sender, the number of the proposal and its status
/// afterwards, and with no messages.
pub proof fn law_answer_to_a_vote(
    dao: DaoView,
    block: BlockInfo,
    sender: Seq<char>,
    proposal_id: u64,
    vote: Vote,
    balance: Option<u128>,
)
    requires
        vote_result(dao, block, sender, proposal_id, vote, balance) is Ok,
    ensures
        ({
            let response = vote_result(dao, block, sender, proposal_id, vote, balance)->Ok_0;
            let after = vote_state(dao, block, sender, proposal_id, vote, balance);
            &&& response.messages.len() == 0
            &&& response.attributes.len() == 4
            &&& notes(response, 0, "action"@, "vote"@)
            &&& notes(response, 1, "sender"@, sender)
            &&& notes(response, 2, "proposal_id"@, decimal(proposal_id as nat))
            &&& notes(response, 3, "status"@, named(after.proposals[proposal_id].status))
        }),
{
}

/// Two votes on a proposal by two accounts leave the same ballots and the same count in either order,
/// and the proposal passes in either order or in neither, as long as neither alone makes it pass.
pub proof fn law_votes_in_either_order(
    dao: DaoView,
    block: BlockInfo,
    id: u64,
    first: Seq<char>,
    first_vote: Vote,
    first_balance: Option<u128>,
    second: Seq<char>,
    second_vote: Vote,
    second_balance: Option<u128>,
)
    requires
        first != second,
        vote_in_range(dao, block, first, id, first_vote, first_balance),
        vote_in_range(dao, block, second, id, second_vote, second_balance),
        ({
            let one = vote_state(dao, block, first, id, first_vote, first_balance);
            let other = vote_state(dao, block, second, id, second_vote, second_balance);
            &&& vote_result(dao, block, first, id, first_vote, first_balance) is Ok
            &&& vote_result(dao, block, second, id, second_vote, second_balance) is Ok
            &&& one.proposals[id].status == Status::Open
            &&& other.proposals[id].status == Status::Open
            &&& vote_in_range(one, block, second, id, second_vote, second_balance)
            &&& vote_in_range(other, block, first, id, first_vote, first_balance)
        }),
    ensures
        ({
            let one = vote_state(dao, block, first, id, first_vote, first_balance);
            let other = vote_state(dao, block, second, id, second_vote, second_balance);
            vote_state(one, block, second, id, second_vote, second_balance) == vote_state(
                other,
                block,
                first,
                id,
                first_vote,
                first_balance,
            )
        }),
{
    let one = vote_state(dao, block, first, id, first_vote, first_balance);
    let other = vote_state(dao, block, second, id, second_vote, second_balance);
    let left = vote_state(one, block, second, id, second_vote, second_balance);
    let right = vote_state(other, block, first, id, first_vote, first_balance);
    assert(left.ballots =~= right.ballots);
    assert(left.proposals[id].votes == right.proposals[id].votes);
    assert(left.proposals =~= right.proposals);
}

// ---------------------------------------------------------------------------------------------
// Carrying out and closing
// ---------------------------------------------------------------------------------------------

/// A proposal is carried out just when there is one under the number and it has passed; anything else
/// is refused and changes nothing. Then it is marked as carried out and nothing else changes, and the
/// answer is the messages that return the deposit to the proposer, followed by all messages of the
/// proposal in their order.
pub proof fn law_carrying_out(dao: DaoView, sender: Seq<char>, proposal_id: u64)
    ensures
        ({
            let result = execute_proposal_result(dao, sender, proposal_id);
            let after = execute_proposal_state(dao, proposal_id);
            let there = dao.proposals.dom().contains(proposal_id);
            let then = dao.proposals[proposal_id];
            &&& result is Ok <==> there && then.status == Status::Passed
            &&& !there ==> result == Err::<ResponseView, _>(no_record(Record::Proposal))
            &&& there && then.status != Status::Passed ==> result == Err::<ResponseView, _>(
                ContractErrorView::WrongExecuteStatus,
            )
            &&& result is Err ==> after == dao
            &&& result matches Ok(response) ==> {
                let now = after.proposals[proposal_id];
                let n = response.messages.len() - then.msgs.len();
                &&& now.status == Status::Executed
                &&& now.votes == then.votes
                &&& says_the_same(then, now)
                &&& rest_is_same(dao, after)
                &&& after.proposal_count == dao.proposal_count
                &&& others_are_same(dao, after, proposal_id)
                &&& after.ballots == dao.ballots
                &&& n >= 0
                &&& response.messages.skip(n) == then.msgs
                &&& then.deposit.amount == 0 ==> n == 0
                &&& then.deposit.amount > 0 ==> is_call(
                    response.messages.take(n),
                    then.deposit.token_address,
                    TokenMsgView::Transfer {
                        recipient: then.proposer,
                        amount: then.deposit.amount,
                    },
                )
                &&& response.attributes.len() == 3
                &&& notes(response, 0, "action"@, "execute"@)
                &&& notes(response, 1, "sender"@, sender)
                &&& notes(response, 2, "proposal_id"@, decimal(proposal_id as nat))
            }
        }),
{
    let then = dao.proposals[proposal_id];
    let refund = refund_messages(then.proposer, then.deposit);
    law_deposit_messages(Seq::empty(), then.proposer, then.deposit);
    if let Ok(response) = execute_proposal_result(dao, sender, proposal_id) {
        let n = response.messages.len() - then.msgs.len();
        assert(response.messages =~= refund + then.msgs);
        assert(response.messages.skip(n) =~= then.msgs);
        assert(response.messages.take(n) =~= refund);
    }
}

/// A proposal is closed just when there is one under the number, it has neither passed nor been
/// rejected nor carried out, and its time is up. Then it is rejected, whatever its votes, and nothing
/// else changes. So it cannot be closed again, nor voted on, nor carried out.
pub proof fn law_closing_rejects(
    dao: DaoView,
    block: BlockInfo,
    sender: Seq<char>,
    proposal_id: u64,
    vote: Vote,
    balance: Option<u128>,
)
    ensures
        ({
            let result = close_result(dao, block, sender, proposal_id);
            let after = close_state(dao, block, proposal_id);
            let there = dao.proposals.dom().contains(proposal_id);
            let then = dao.proposals[proposal_id];
            let unsettled = then.status == Status::Open || then.status == Status::Pending;
            &&& result is Ok <==> there && unsettled && time_is_up(then.expires, block)
            &&& !there ==> result == Err::<ResponseView, _>(no_record(Record::Proposal))
            &&& there && !unsettled ==> result == Err::<ResponseView, _>(
                ContractErrorView::WrongCloseStatus,
            )
            &&& there && unsettled && !time_is_up(then.expires, block) ==> result == Err::<
                ResponseView,
                _,
            >(ContractErrorView::NotExpired)
            &&& result is Err ==> after == dao
            &&& result matches Ok(response) ==> {
                let now = after.proposals[proposal_id];
                &&& now.status == Status::Rejected
                &&& now.votes == then.votes
                &&& says_the_same(then, now)
                &&& rest_is_same(dao, after)
                &&& after.proposal_count == dao.proposal_count
                &&& others_are_same(dao, after, proposal_id)
                &&& after.ballots == dao.ballots
                &&& response.messages.len() == 0
                &&& response.attributes.len() == 3
                &&& notes(response, 0, "action"@, "close"@)
                &&& notes(response, 1, "sender"@, sender)
                &&& notes(response, 2, "proposal_id"@, decimal(proposal_id as nat))
                &&& close_result(after, block, sender, proposal_id) == Err::<ResponseView, _>(
                    ContractErrorView::WrongCloseStatus,
                )
                &&& vote_result(after, block, sender, proposal_id, vote, balance) == Err::<
                    ResponseView,
                    _,
                >(ContractErrorView::NotOpen)
                &&& execute_proposal_result(after, sender, proposal_id) == Err::<ResponseView, _>(
                    ContractErrorView::WrongExecuteStatus,
                )
            }
        }),
{
}

// ---------------------------------------------------------------------------------------------
// Changing the rules
// ---------------------------------------------------------------------------------------------

/// The rules are changed just when the contract itself asks for it, the shares of the new rule are
/// sound, the deposit's token is an address and there are rules. Then all of them are those that were
/// handed in, but for the voting token, which stays, and nothing else changes.
pub proof fn law_changing_the_rules(
    dao: DaoView,
    contract: Seq<char>,
    sender: Seq<char>,
    rules: NewRules,
    deposit_addr: Option<Seq<char>>,
)
    ensures
        ({
            let result = update_config_result(dao, contract, sender, rules, deposit_addr);
            let after = update_config_state(dao, contract, sender, rules, deposit_addr);
            let itself = sender == contract;
            let sound = match rules.threshold {
                Threshold::AbsolutePercentage { percentage } => sound_share(percentage),
                Threshold::ThresholdQuorum { threshold, quorum } => sound_share(threshold)
                    && sound_share(quorum),
            };
            &&& result is Ok <==> itself && sound && deposit_addr is Some && dao.config is Some
            &&& result is Err ==> after == dao
            &&& !itself ==> result == Err::<ResponseView, _>(ContractErrorView::Unauthorized)
            &&& itself && !sound ==> (result matches Err(error) && Some(error)
                == rules.threshold.refusal())
            &&& itself && sound && deposit_addr is None ==> result == Err::<ResponseView, _>(
                ContractErrorView::InvalidCw20 { addr: rules.proposal_deposit_token_address },
            )
            &&& itself && sound && deposit_addr is Some && dao.config is None ==> result == Err::<
                ResponseView,
                _,
            >(no_record(Record::Config))
            &&& result matches Ok(response) ==> {
                &&& after.config matches Some(config)
                &&& config.threshold == rules.threshold
                &&& config.max_voting_period == rules.max_voting_period
                &&& config.proposal_deposit.amount == rules.proposal_deposit_amount
                &&& Some(config.proposal_deposit.token_address) == deposit_addr
                &&& config.cw20_addr == dao.config->0.cw20_addr
                &&& after.version == dao.version
                &&& after.treasury_tokens == dao.treasury_tokens
                &&& after.proposal_count == dao.proposal_count
                &&& after.proposals == dao.proposals
                &&& after.ballots == dao.ballots
                &&& response.messages.len() == 0
                &&& response.attributes.len() == 2
                &&& notes(response, 0, "action"@, "update_config"@)
                &&& notes(response, 1, "sender"@, sender)
            }
        }),
{
    law_which_rules_are_adopted(rules.threshold);
}

// ---------------------------------------------------------------------------------------------
// Limits and questions
// ---------------------------------------------------------------------------------------------

/// A message can be handled unless a number runs over: the end of the longest period for someone who
/// may propose, the number of a proposal that is to be stored, or a count that is to be added to.
pub proof fn law_what_can_be_handled(
    dao: DaoView,
    env: Env,
    info: MessageInfo,
    msg: ExecuteMsg,
    answers: Answers,
)
    ensures
        ({
            let fits = execute_in_range(dao, env, info, msg, answers);
            match msg {
                ExecuteMsg::Propose { latest, .. } => {
                    let may = dao.config is Some && holds_some(answers.balance);
                    let period = dao.config->0.max_voting_period;
                    &&& may && !period_fits(period, env.block) ==> !fits
                    &&& may && period_fits(period, env.block) ==> (fits <==> (end_of_voting(
                        period,
                        env.block,
                        latest,
                    ) is Some && answers.total_supply is Ok ==> dao.proposal_count < u64::MAX))
                    &&& !may ==> fits
                },
                ExecuteMsg::Vote { proposal_id, vote } => {
                    let held = answers.balance_at_height;
                    let then = dao.proposals[proposal_id];
                    let counted = vote_result(
                        dao,
                        env.block,
                        info.sender@,
                        proposal_id,
                        vote,
                        held,
                    ) is Ok;
                    &&& !counted ==> fits
                    &&& counted ==> (fits <==> {
                        &&& cast(then.votes, vote) + held->0 <= u128::MAX
                        &&& vote == Vote::Abstain ==> then.votes.abstain + held->0
                            <= then.total_weight
                        &&& then.threshold is ThresholdQuorum ==> cast_in_all(then.votes) + held->0
                            <= u128::MAX
                    })
                },
                _ => fits,
            }
        }),
{
    match msg {
        ExecuteMsg::Propose { latest, .. } => {
            if let Some(config) = dao.config {
                law_time(
                    config.max_voting_period,
                    env.block,
                    latest,
                    Expiration::Never,
                    Expiration::Never,
                );
            }
        },
        ExecuteMsg::Vote { proposal_id, vote } => {
            let held = answers.balance_at_height;
            let then = dao.proposals[proposal_id];
            law_who_may_vote(dao, env.block, info.sender@, proposal_id, vote, held);
            if held is Some {
                law_room(then.votes, vote, held->0, then.threshold, then.total_weight);
            }
        },
        _ => {},
    }
}

/// Before setting up, the two token addresses are asked about, the voting token first. Before a
/// proposal, what the sender holds of the voting token now, and its supply; before a vote, what the
/// sender held of it at the height at which the proposal was made; before new rules, the address of
/// the deposit's token. Nothing else is asked.
pub proof fn law_what_is_asked(
    dao: DaoView,
    setup: InstantiateMsg,
    info: MessageInfo,
    msg: ExecuteMsg,
)
    ensures
        ({
            let asked = instantiate_asks(setup);
            &&& asked.len() == 2
            &&& asked[0] matches QuestionView::Address { input }
            &&& input == setup.cw20_addr@
            &&& asked[1] matches QuestionView::Address { input }
            &&& input == setup.proposal_deposit_token_address@
        }),
        ({
            let asked = execute_asks(dao, info, msg);
            match msg {
                ExecuteMsg::Propose { .. } if dao.config is Some => {
                    &&& asked.len() == 2
                    &&& asked[0] matches QuestionView::Balance { token, holder }
                    &&& token == dao.config->0.cw20_addr
                    &&& holder == info.sender@
                    &&& asked[1] matches QuestionView::TotalSupply { token }
                    &&& token == dao.config->0.cw20_addr
                },
                ExecuteMsg::Vote { proposal_id, .. } if dao.config is Some
                    && dao.proposals.dom().contains(proposal_id) => {
                    &&& asked.len() == 1
                    &&& asked[0] matches QuestionView::BalanceAtHeight { token, holder, height }
                    &&& token == dao.config->0.cw20_addr
                    &&& holder == info.sender@
                    &&& height == dao.proposals[proposal_id].start_height
                },
                ExecuteMsg::UpdateConfig { proposal_deposit_token_address, .. } => {
                    &&& asked.len() == 1
                    &&& asked[0] matches QuestionView::Address { input }
                    &&& input == proposal_deposit_token_address@
                },
                _ => asked.len() == 0,
            }
        }),
{
}

/// The draft is what the message holds, piece by piece, and the supply is what was answered.
pub open spec fn is_handed_in(
    msg: ExecuteMsg,
    answers: Answers,
    draft: Draft,
    supply: Result<u128, PlatformErrorView>,
) -> bool {
    &&& msg matches ExecuteMsg::Propose { title, description, msgs, latest }
    &&& draft.title == title@
    &&& draft.description == description@
    &&& draft.msgs.len() == msgs@.len()
    &&& forall|i: int| 0 <= i < msgs@.len() ==> #[trigger] draft.msgs[i] == msgs@[i]@
    &&& draft.latest == latest
    &&& match answers.total_supply {
        Ok(amount) => supply == Ok::<u128, PlatformErrorView>(amount),
        Err(error) => supply == Err::<u128, PlatformErrorView>(error@),
    }
}

/// A message does what its own handler does with what the message holds and what was answered: a
/// proposal with the balance of now and the supply, a vote with the balance at a height, new rules
/// with the address, if there is one.
pub proof fn law_messages_reach_their_handlers(
    dao: DaoView,
    env: Env,
    info: MessageInfo,
    msg: ExecuteMsg,
    answers: Answers,
    draft: Draft,
    supply: Result<u128, PlatformErrorView>,
)
    ensures
        ({
            let result = execute_result(dao, env, info, msg, answers);
            let after = execute_state(dao, env, info, msg, answers);
            let (block, contract, sender) = (env.block, env.contract.address@, info.sender@);
            match msg {
                ExecuteMsg::Propose { .. } => is_handed_in(msg, answers, draft, supply) ==> {
                    &&& result == propose_result(
                        dao,
                        block,
                        contract,
                        sender,
                        draft,
                        answers.balance,
                        supply,
                    )
                    &&& after == propose_state(dao, block, sender, draft, answers.balance, supply)
                },
                ExecuteMsg::Vote { proposal_id, vote } => {
                    let held = answers.balance_at_height;
                    &&& result == vote_result(dao, block, sender, proposal_id, vote, held)
                    &&& after == vote_state(dao, block, sender, proposal_id, vote, held)
                },
                ExecuteMsg::Execute { proposal_id } => {
                    &&& result == execute_proposal_result(dao, sender, proposal_id)
                    &&& after == execute_proposal_state(dao, proposal_id)
                },
                ExecuteMsg::Close { proposal_id } => {
                    &&& result == close_result(dao, block, sender, proposal_id)
                    &&& after == close_state(dao, block, proposal_id)
                },
                ExecuteMsg::Receive(_) => {
                    &&& result == receive_result(dao)
                    &&& after == receive_state(dao, sender)
                },
                ExecuteMsg::UpdateConfig {
                    threshold,
                    max_voting_period,
                    proposal_deposit_amount,
                    proposal_deposit_token_address,
                } => {
                    let rules = NewRules {
                        threshold,
                        max_voting_period,
                        proposal_deposit_amount,
                        proposal_deposit_token_address: proposal_deposit_token_address@,
                    };
                    let address = match answers.address {
                        Ok(token) => Some(token@),
                        Err(_) => None,
                    };
                    &&& result == update_config_result(dao, contract, sender, rules, address)
                    &&& after == update_config_state(dao, contract, sender, rules, address)
                },
            }
        }),
{
    law_execute_is_its_handler(dao, env, info, msg, answers);
    if let ExecuteMsg::Propose { msgs, .. } = msg {
        if is_handed_in(msg, answers, draft, supply) {
            assert(draft.msgs =~= views(msgs@));
        }
    }
}

} // verus!
