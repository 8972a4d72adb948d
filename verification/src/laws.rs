//! What holds of the contract from one message to the next.
use crate::contract::{
    address_of, chosen_expiration, close_refusal, close_result, close_state, deposit_messages,
    execute_asks, execute_in_range, execute_proposal_result, execute_proposal_state,
    execute_refusal, execute_result, execute_state, instantiate_state, next_proposal_id,
    number_result, propose_in_range, propose_refusal, propose_result, propose_state, receive_result,
    receive_state, refund_messages, update_config_refusal, update_config_result,
    update_config_state, vote_in_range, vote_refusal, vote_result, vote_state, weight_of,
    with_token, Draft, NewRules,
};
use crate::error::{std_result, ContractError, ContractErrorView, PlatformErrorView, Record};
use crate::expiration::{BlockInfo, Duration, Expiration};
use crate::msg::{Env, ExecuteMsg, InstantiateMsg, MessageInfo, QueryMsg, ResponseView};
use crate::outside::{Answers, QuestionView};
use crate::proposal::{carried, Ballot, ProposalView, Status, Vote, Votes};
use crate::query::{
    all_balances_result, coins_result, is_query_result, proposal_result, query_asks, query_in_range,
    vote_query_result, voter_ask, QueryResponseView, VoteInfoView,
};
use crate::state::DaoView;
use crate::threshold::{divide_up, share_of, Decimal, Threshold, DECIMAL_ONE, PRECISION_FACTOR};
use crate::views::views;
use std::cmp::Ordering;
use vstd::prelude::*;

verus! {

// ---------------------------------------------------------------------------------------------
// Ballots and votes
// ---------------------------------------------------------------------------------------------

/// The weight that one ballot adds to an answer on a proposal.
pub open spec fn counted(key: (u64, Seq<char>), ballot: Ballot, proposal_id: u64, vote: Vote) -> nat {
    if key.0 == proposal_id && ballot.vote == vote {
        ballot.weight as nat
    } else {
        0
    }
}

/// The weight of all ballots with an answer on a proposal.
pub open spec fn tally(ballots: Map<(u64, Seq<char>), Ballot>, proposal_id: u64, vote: Vote) -> nat
    decreases ballots.dom().len(),
    when ballots.dom().finite()
{
    if ballots.dom().len() == 0 {
        0
    } else {
        let key = ballots.dom().choose();
        counted(key, ballots[key], proposal_id, vote) + tally(ballots.remove(key), proposal_id, vote)
    }
}

/// A ballot can be taken out of a tally.
proof fn lemma_tally_remove(
    ballots: Map<(u64, Seq<char>), Ballot>,
    key: (u64, Seq<char>),
    proposal_id: u64,
    vote: Vote,
)
    requires
        ballots.dom().finite(),
        ballots.dom().contains(key),
    ensures
        tally(ballots, proposal_id, vote) == counted(key, ballots[key], proposal_id, vote) + tally(
            ballots.remove(key),
            proposal_id,
            vote,
        ),
    decreases ballots.dom().len(),
{
    let first = ballots.dom().choose();
    if first != key {
        lemma_tally_remove(ballots.remove(first), key, proposal_id, vote);
        lemma_tally_remove(ballots.remove(key), first, proposal_id, vote);
        assert(ballots.remove(first).remove(key) =~= ballots.remove(key).remove(first));
    }
}

/// A new ballot adds its weight to the tally.
proof fn lemma_tally_insert(
    ballots: Map<(u64, Seq<char>), Ballot>,
    key: (u64, Seq<char>),
    ballot: Ballot,
    proposal_id: u64,
    vote: Vote,
)
    requires
        ballots.dom().finite(),
        !ballots.dom().contains(key),
    ensures
        ballots.insert(key, ballot).dom().finite(),
        tally(ballots.insert(key, ballot), proposal_id, vote) == tally(ballots, proposal_id, vote)
            + counted(key, ballot, proposal_id, vote),
{
    let after = ballots.insert(key, ballot);
    lemma_tally_remove(after, key, proposal_id, vote);
    assert(after.remove(key) =~= ballots);
}

/// Without ballots on a proposal there is nothing to tally.
proof fn lemma_tally_none(
    ballots: Map<(u64, Seq<char>), Ballot>,
    proposal_id: u64,
    vote: Vote,
)
    requires
        ballots.dom().finite(),
        forall|key: (u64, Seq<char>)| #[trigger]
            ballots.dom().contains(key) ==> key.0 != proposal_id,
    ensures
        tally(ballots, proposal_id, vote) == 0,
    decreases ballots.dom().len(),
{
    if ballots.dom().len() != 0 {
        let key = ballots.dom().choose();
        assert(ballots.dom().contains(key));
        lemma_tally_none(ballots.remove(key), proposal_id, vote);
    }
}

// ---------------------------------------------------------------------------------------------
// What every message keeps
// ---------------------------------------------------------------------------------------------

/// The proposals are numbered from one on without a gap.
pub open spec fn numbered(dao: DaoView) -> bool {
    forall|id: u64| #[trigger]
        dao.proposals.dom().contains(id) <==> 1 <= id <= dao.proposal_count
}

/// Each ballot carries some weight and is for a proposal that there is.
pub open spec fn ballots_in_place(dao: DaoView) -> bool {
    &&& dao.ballots.dom().finite()
    &&& forall|key: (u64, Seq<char>)| #[trigger]
        dao.ballots.dom().contains(key) ==> dao.ballots[key].weight > 0
            && dao.proposals.dom().contains(key.0)
}

/// The votes of each proposal are what its ballots add up to, answer by answer.
pub open spec fn votes_match_ballots(dao: DaoView) -> bool {
    forall|id: u64, vote: Vote|
        dao.proposals.dom().contains(id) ==> (#[trigger] dao.proposals[id].votes.weight_for(vote))
            as nat == tally(dao.ballots, id, vote)
}

/// Where there are rules there is a list of tokens, which starts with the voting token and holds
/// none twice.
pub open spec fn tokens_in_place(dao: DaoView) -> bool {
    &&& dao.treasury_tokens matches Some(tokens) ==> tokens.no_duplicates()
    &&& dao.config matches Some(config) ==> (dao.treasury_tokens matches Some(tokens)
        && tokens.len() > 0 && tokens[0] == config.cw20_addr)
}

/// A state that the contract can get into.
pub open spec fn consistent(dao: DaoView) -> bool {
    &&& dao.wf()
    &&& numbered(dao)
    &&& ballots_in_place(dao)
    &&& votes_match_ballots(dao)
    &&& tokens_in_place(dao)
}

/// Setting the contract up, successfully or not, leaves a consistent state.
pub proof fn law_setup_is_consistent(
    msg: InstantiateMsg,
    cw20_addr: Option<Seq<char>>,
    deposit_addr: Option<Seq<char>>,
)
    ensures
        consistent(instantiate_state(DaoView::empty(), msg, cw20_addr, deposit_addr)),
{
}

/// Every message leaves a consistent state consistent: the votes of each proposal stay what its
/// ballots add up to, proposals stay numbered without a gap, and the list of tokens starts with the
/// voting token and holds none twice.
pub proof fn law_execute_keeps_consistent(
    dao: DaoView,
    env: Env,
    info: MessageInfo,
    msg: ExecuteMsg,
    answers: Answers,
)
    requires
        consistent(dao),
        execute_in_range(dao, env, info, msg, answers),
    ensures
        consistent(execute_state(dao, env, info, msg, answers)),
{
    let after = execute_state(dao, env, info, msg, answers);
    match msg {
        ExecuteMsg::Propose { title, description, msgs, latest } => {
            lemma_propose_keeps_consistent(
                dao,
                env.block,
                info.sender@,
                Draft { title: title@, description: description@, msgs: views(msgs@), latest },
                answers.balance,
                number_result(answers.total_supply),
            );
        },
        ExecuteMsg::Vote { proposal_id, vote } => {
            let sender = info.sender@;
            let balance = answers.balance_at_height;
            if vote_refusal(dao, env.block, sender, proposal_id, balance) is None {
                let key = (proposal_id, sender);
                let ballot = Ballot { weight: weight_of(balance), vote };
                assert forall|id: u64, answer: Vote|
                    after.proposals.dom().contains(id) implies (
                #[trigger] after.proposals[id].votes.weight_for(answer)) as nat == tally(
                    after.ballots,
                    id,
                    answer,
                ) by {
                    lemma_tally_insert(dao.ballots, key, ballot, id, answer);
                    assert(dao.proposals[id].votes.weight_for(answer) as nat == tally(
                        dao.ballots,
                        id,
                        answer,
                    ));
                }
                assert(after.proposals[proposal_id].wf());
            }
        },
        ExecuteMsg::Execute { proposal_id } => {
            lemma_status_change_keeps_votes(dao, after, proposal_id);
        },
        ExecuteMsg::Close { proposal_id } => {
            lemma_status_change_keeps_votes(dao, after, proposal_id);
        },
        ExecuteMsg::Receive(_) => {},
        ExecuteMsg::UpdateConfig { .. } => {},
    }
}

/// A new proposal leaves a consistent state consistent.
proof fn lemma_propose_keeps_consistent(
    dao: DaoView,
    block: BlockInfo,
    sender: Seq<char>,
    draft: Draft,
    balance: Option<u128>,
    total_supply: Result<u128, PlatformErrorView>,
)
    requires
        consistent(dao),
        propose_in_range(dao, block, draft.latest, balance, total_supply),
    ensures
        consistent(propose_state(dao, block, sender, draft, balance, total_supply)),
{
    let after = propose_state(dao, block, sender, draft, balance, total_supply);
    if propose_refusal(dao, block, draft.latest, balance, total_supply) is None {
        let id = next_proposal_id(dao);
        assert(!dao.proposals.dom().contains(id));
        assert forall|other: u64, vote: Vote| after.proposals.dom().contains(other) implies (
        #[trigger] after.proposals[other].votes.weight_for(vote)) as nat == tally(
            after.ballots,
            other,
            vote,
        ) by {
            if other == id {
                lemma_tally_none(dao.ballots, id, vote);
            } else {
                assert(dao.proposals[other].votes.weight_for(vote) as nat == tally(
                    dao.ballots,
                    other,
                    vote,
                ));
            }
        }
    }
}

/// A proposal with another status has the same votes.
proof fn lemma_status_change_keeps_votes(dao: DaoView, after: DaoView, id: u64)
    requires
        votes_match_ballots(dao),
        after == dao || exists|status: Status|
            dao.proposals.dom().contains(id) && after == dao.with_proposal(
                id,
                #[trigger] dao.proposals[id].with_status(status),
            ),
    ensures
        votes_match_ballots(after),
{
    assert forall|other: u64, vote: Vote| after.proposals.dom().contains(other) implies (
    #[trigger] after.proposals[other].votes.weight_for(vote)) as nat == tally(
        after.ballots,
        other,
        vote,
    ) by {
        assert(dao.proposals[other].votes.weight_for(vote) as nat == tally(dao.ballots, other, vote));
    }
}

// ---------------------------------------------------------------------------------------------
// Any number of messages
// ---------------------------------------------------------------------------------------------

/// A message with all that it is handled with.
pub struct Step {
    pub env: Env,
    pub info: MessageInfo,
    pub msg: ExecuteMsg,
    pub answers: Answers,
}

/// What is left behind after one message after the other.
pub open spec fn run(dao: DaoView, steps: Seq<Step>) -> DaoView
    decreases steps.len(),
{
    if steps.len() == 0 {
        dao
    } else {
        let step = steps.last();
        execute_state(run(dao, steps.drop_last()), step.env, step.info, step.msg, step.answers)
    }
}

/// Each message can be handled in its turn.
pub open spec fn run_in_range(dao: DaoView, steps: Seq<Step>) -> bool
    decreases steps.len(),
{
    steps.len() > 0 ==> {
        let step = steps.last();
        &&& run_in_range(dao, steps.drop_last())
        &&& execute_in_range(
            run(dao, steps.drop_last()),
            step.env,
            step.info,
            step.msg,
            step.answers,
        )
    }
}

/// However many messages come, a consistent state stays consistent.
pub proof fn law_always_consistent(dao: DaoView, steps: Seq<Step>)
    requires
        consistent(dao),
        run_in_range(dao, steps),
    ensures
        consistent(run(dao, steps)),
    decreases steps.len(),
{
    if steps.len() > 0 {
        let step = steps.last();
        law_always_consistent(dao, steps.drop_last());
        law_execute_keeps_consistent(
            run(dao, steps.drop_last()),
            step.env,
            step.info,
            step.msg,
            step.answers,
        );
    }
}

// ---------------------------------------------------------------------------------------------
// Refusals
// ---------------------------------------------------------------------------------------------

/// Why a message is refused, if it is.
pub open spec fn refusal(
    dao: DaoView,
    env: Env,
    info: MessageInfo,
    msg: ExecuteMsg,
    answers: Answers,
) -> Option<ContractErrorView> {
    match msg {
        ExecuteMsg::Propose { latest, .. } => propose_refusal(
            dao,
            env.block,
            latest,
            answers.balance,
            number_result(answers.total_supply),
        ),
        ExecuteMsg::Vote { proposal_id, .. } => vote_refusal(
            dao,
            env.block,
            info.sender@,
            proposal_id,
            answers.balance_at_height,
        ),
        ExecuteMsg::Execute { proposal_id } => execute_refusal(dao, proposal_id),
        ExecuteMsg::Close { proposal_id } => close_refusal(dao, env.block, proposal_id),
        ExecuteMsg::Receive(_) => match dao.treasury_tokens {
            Some(_) => None,
            None => Some(ContractError::missing(Record::TreasuryTokens)),
        },
        ExecuteMsg::UpdateConfig {
            threshold,
            max_voting_period,
            proposal_deposit_amount,
            proposal_deposit_token_address,
        } => update_config_refusal(
            dao,
            env.contract.address@,
            info.sender@,
            NewRules {
                threshold,
                max_voting_period,
                proposal_deposit_amount,
                proposal_deposit_token_address: proposal_deposit_token_address@,
            },
            address_of(answers.address),
        ),
    }
}

/// A message that is refused gets the refusal for an answer and changes nothing. One that is not
/// refused succeeds.
pub proof fn law_refused_changes_nothing(
    dao: DaoView,
    env: Env,
    info: MessageInfo,
    msg: ExecuteMsg,
    answers: Answers,
)
    ensures
        match refusal(dao, env, info, msg, answers) {
            Some(error) => {
                &&& execute_result(dao, env, info, msg, answers) == Err::<ResponseView, _>(error)
                &&& execute_state(dao, env, info, msg, answers) == dao
            },
            None => execute_result(dao, env, info, msg, answers) is Ok,
        },
{
}

/// A message is handled as its own handler handles it: within the same limits, with the same answer
/// and the same state left behind.
pub proof fn law_execute_is_its_handler(
    dao: DaoView,
    env: Env,
    info: MessageInfo,
    msg: ExecuteMsg,
    answers: Answers,
)
    ensures
        ({
            let result = execute_result(dao, env, info, msg, answers);
            let state = execute_state(dao, env, info, msg, answers);
            let in_range = execute_in_range(dao, env, info, msg, answers);
            let (block, contract, sender) = (env.block, env.contract.address@, info.sender@);
            match msg {
                ExecuteMsg::Propose { title, description, msgs, latest } => {
                    let draft = Draft {
                        title: title@,
                        description: description@,
                        msgs: views(msgs@),
                        latest,
                    };
                    let balance = answers.balance;
                    let supply = number_result(answers.total_supply);
                    &&& result == propose_result(
                        dao,
                        block,
                        contract,
                        sender,
                        draft,
                        balance,
                        supply,
                    )
                    &&& state == propose_state(dao, block, sender, draft, balance, supply)
                    &&& in_range == propose_in_range(dao, block, latest, balance, supply)
                },
                ExecuteMsg::Vote { proposal_id, vote } => {
                    let held = answers.balance_at_height;
                    &&& result == vote_result(dao, block, sender, proposal_id, vote, held)
                    &&& state == vote_state(dao, block, sender, proposal_id, vote, held)
                    &&& in_range == vote_in_range(dao, block, sender, proposal_id, vote, held)
                },
                ExecuteMsg::Execute { proposal_id } => {
                    &&& result == execute_proposal_result(dao, sender, proposal_id)
                    &&& state == execute_proposal_state(dao, proposal_id)
                    &&& in_range
                },
                ExecuteMsg::Close { proposal_id } => {
                    &&& result == close_result(dao, block, sender, proposal_id)
                    &&& state == close_state(dao, block, proposal_id)
                    &&& in_range
                },
                ExecuteMsg::Receive(_) => {
                    &&& result == receive_result(dao)
                    &&& state == receive_state(dao, sender)
                    &&& in_range
                },
                ExecuteMsg::UpdateConfig {
                    threshold,
                    max_voting_period,
                    proposal_deposit_amount,
                    proposal_deposit_token_address,
                } => {
                    let rules = NewRules {
                        threshold,
                        max_voting_period,
                        proposal_deposit_amount,
                        proposal_deposit_token_address: proposal_deposit_token_address@,
                    };
                    let address = address_of(answers.address);
                    &&& result == update_config_result(dao, contract, sender, rules, address)
                    &&& state == update_config_state(dao, contract, sender, rules, address)
                    &&& in_range
                },
            }
        }),
{
}

// ---------------------------------------------------------------------------------------------
// Voting
// ---------------------------------------------------------------------------------------------

/// A ballot that was cast is never withdrawn and never changed, whatever message comes.
pub proof fn law_ballots_are_kept(
    dao: DaoView,
    env: Env,
    info: MessageInfo,
    msg: ExecuteMsg,
    answers: Answers,
    key: (u64, Seq<char>),
)
    requires
        dao.ballots.dom().contains(key),
    ensures
        execute_state(dao, env, info, msg, answers).ballots.dom().contains(key),
        execute_state(dao, env, info, msg, answers).ballots[key] == dao.ballots[key],
{
}

/// Whoever has voted on a proposal cannot vote on it again, whatever the token contract says.
pub proof fn law_one_vote_each(
    dao: DaoView,
    block: BlockInfo,
    sender: Seq<char>,
    proposal_id: u64,
    vote: Vote,
    balance: Option<u128>,
)
    requires
        dao.ballots.dom().contains((proposal_id, sender)),
    ensures
        vote_refusal(dao, block, sender, proposal_id, balance) is Some,
        vote_state(dao, block, sender, proposal_id, vote, balance) == dao,
{
}

/// A vote has the weight that the sender held when the proposal was made: that is what is asked for,
/// and what the sender holds at any other time changes nothing, neither the answer, nor the ballot,
/// nor the count.
pub proof fn law_voting_power_is_settled(
    dao: DaoView,
    env: Env,
    info: MessageInfo,
    proposal_id: u64,
    vote: Vote,
    left: Answers,
    right: Answers,
)
    requires
        left.balance_at_height == right.balance_at_height,
    ensures
        ({
            let msg = ExecuteMsg::Vote { proposal_id, vote };
            let after = execute_state(dao, env, info, msg, left);
            &&& execute_in_range(dao, env, info, msg, left) == execute_in_range(
                dao,
                env,
                info,
                msg,
                right,
            )
            &&& execute_result(dao, env, info, msg, left) == execute_result(
                dao,
                env,
                info,
                msg,
                right,
            )
            &&& after == execute_state(dao, env, info, msg, right)
            &&& dao.config is Some && dao.proposals.dom().contains(proposal_id) ==> execute_asks(
                dao,
                info,
                msg,
            ) == seq![
                QuestionView::BalanceAtHeight {
                    token: dao.config->0.cw20_addr,
                    holder: info.sender@,
                    height: dao.proposals[proposal_id].start_height,
                },
            ]
            &&& execute_result(dao, env, info, msg, left) is Ok
                ==> after.ballots[(proposal_id, info.sender@)] == (Ballot {
                weight: weight_of(left.balance_at_height),
                vote,
            })
        }),
{
}

/// At any time an open proposal can either be voted on or be closed, and not both: a vote that is in
/// order is too late just when the proposal can be closed, and the proposal cannot be closed yet just
/// when the vote is counted.
pub proof fn law_voting_and_closing_exclude_each_other(
    dao: DaoView,
    block: BlockInfo,
    voter: Seq<char>,
    proposal_id: u64,
    balance: Option<u128>,
)
    requires
        dao.config is Some,
        dao.proposals.dom().contains(proposal_id),
        dao.proposals[proposal_id].status == Status::Open,
        !dao.ballots.dom().contains((proposal_id, voter)),
        weight_of(balance) > 0,
    ensures
        vote_refusal(dao, block, voter, proposal_id, balance) is None <==> close_refusal(
            dao,
            block,
            proposal_id,
        ) == Some(ContractErrorView::NotExpired),
        vote_refusal(dao, block, voter, proposal_id, balance) == Some(ContractErrorView::Expired)
            <==> close_refusal(dao, block, proposal_id) is None,
        vote_refusal(dao, block, voter, proposal_id, balance) is None <==> close_refusal(
            dao,
            block,
            proposal_id,
        ) is Some,
{
}

/// A vote that was counted can be read back, under the voter's address however it is given; what
/// others voted, and what was voted on other proposals, reads as before.
pub proof fn law_votes_read_back(
    dao: DaoView,
    block: BlockInfo,
    sender: Seq<char>,
    proposal_id: u64,
    vote: Vote,
    balance: Option<u128>,
    asked_id: u64,
    voter: Seq<char>,
    account: Seq<char>,
)
    requires
        vote_refusal(dao, block, sender, proposal_id, balance) is None,
    ensures
        ({
            let after = vote_state(dao, block, sender, proposal_id, vote, balance);
            let read = vote_query_result(after, asked_id, voter, Ok(account));
            if asked_id == proposal_id && account == sender {
                read == Ok::<_, PlatformErrorView>(
                    Some(VoteInfoView { voter, vote, weight: weight_of(balance) }),
                )
            } else {
                read == vote_query_result(dao, asked_id, voter, Ok(account))
            }
        }),
{
}

/// A vote adds its weight to its own answer on its own proposal, and to nothing else.
pub proof fn law_vote_counts_once(
    dao: DaoView,
    block: BlockInfo,
    sender: Seq<char>,
    proposal_id: u64,
    vote: Vote,
    balance: Option<u128>,
    id: u64,
    answer: Vote,
)
    requires
        vote_in_range(dao, block, sender, proposal_id, vote, balance),
        vote_refusal(dao, block, sender, proposal_id, balance) is None,
        dao.proposals.dom().contains(id),
    ensures
        ({
            let after = vote_state(dao, block, sender, proposal_id, vote, balance);
            after.proposals[id].votes.weight_for(answer) == dao.proposals[id].votes.weight_for(answer)
                + if id == proposal_id && answer == vote {
                weight_of(balance) as int
            } else {
                0
            }
        }),
{
}

// ---------------------------------------------------------------------------------------------
// The life of a proposal
// ---------------------------------------------------------------------------------------------

/// A new proposal gets an identifier that none has had, and leaves all others as they are.
pub proof fn law_identifiers_are_new(
    dao: DaoView,
    block: BlockInfo,
    sender: Seq<char>,
    draft: Draft,
    balance: Option<u128>,
    total_supply: Result<u128, PlatformErrorView>,
)
    requires
        numbered(dao),
        propose_in_range(dao, block, draft.latest, balance, total_supply),
        propose_refusal(dao, block, draft.latest, balance, total_supply) is None,
    ensures
        ({
            let after = propose_state(dao, block, sender, draft, balance, total_supply);
            let id = next_proposal_id(dao);
            &&& id == dao.proposal_count + 1
            &&& !dao.proposals.dom().contains(id)
            &&& after.proposals.dom() == dao.proposals.dom().insert(id)
            &&& forall|other: u64| #[trigger]
                dao.proposals.dom().contains(other) ==> after.proposals[other] == dao.proposals[other]
        }),
{
    let after = propose_state(dao, block, sender, draft, balance, total_supply);
    assert(after.proposals.dom() =~= dao.proposals.dom().insert(next_proposal_id(dao)));
}

/// A proposal that was accepted can be read back with what was handed in, in the same block: voting
/// on it ends when the proposer wished, as far as the rules allow.
pub proof fn law_proposals_read_back(
    dao: DaoView,
    block: BlockInfo,
    sender: Seq<char>,
    draft: Draft,
    balance: Option<u128>,
    total_supply: Result<u128, PlatformErrorView>,
)
    requires
        propose_refusal(dao, block, draft.latest, balance, total_supply) is None,
    ensures
        ({
            let after = propose_state(dao, block, sender, draft, balance, total_supply);
            let id = next_proposal_id(dao);
            let config = dao.config->0;
            &&& proposal_result(after, block, id, total_supply) matches Ok(shown)
            &&& shown.id == id
            &&& shown.title == draft.title
            &&& shown.description == draft.description
            &&& shown.proposer == sender
            &&& shown.msgs == draft.msgs
            &&& shown.status == after.proposals[id].status
            &&& Some(shown.expires) == chosen_expiration(
                draft.latest,
                config.max_voting_period.end_after(block),
            )
            &&& shown.threshold == config.threshold.response(total_supply->Ok_0)
            &&& shown.deposit_amount == config.proposal_deposit.amount
            &&& shown.deposit_token_address == config.proposal_deposit.token_address
        }),
{
}

/// What a proposal says, apart from its votes and its status.
pub open spec fn same_content(left: ProposalView, right: ProposalView) -> bool {
    &&& left.title == right.title
    &&& left.description == right.description
    &&& left.proposer == right.proposer
    &&& left.start_height == right.start_height
    &&& left.expires == right.expires
    &&& left.msgs == right.msgs
    &&& left.threshold == right.threshold
    &&& left.total_weight == right.total_weight
    &&& left.deposit == right.deposit
}

/// A status can be followed by another: a proposal that is being voted on passes or is rejected,
/// one that has passed is carried out, and that is all.
pub open spec fn may_follow(before: Status, after: Status) -> bool {
    ||| after == before
    ||| before == Status::Pending && after == Status::Rejected
    ||| before == Status::Open && (after == Status::Passed || after == Status::Rejected)
    ||| before == Status::Passed && after == Status::Executed
}

/// No message removes a proposal or changes what it says, and its status only moves on: whatever
/// was rejected or carried out stays so.
pub proof fn law_proposals_move_on(
    dao: DaoView,
    env: Env,
    info: MessageInfo,
    msg: ExecuteMsg,
    answers: Answers,
    id: u64,
)
    requires
        numbered(dao),
        execute_in_range(dao, env, info, msg, answers),
        dao.proposals.dom().contains(id),
    ensures
        ({
            let after = execute_state(dao, env, info, msg, answers);
            &&& after.proposals.dom().contains(id)
            &&& same_content(dao.proposals[id], after.proposals[id])
            &&& may_follow(dao.proposals[id].status, after.proposals[id].status)
        }),
{
}

/// A proposal passes only by a vote that is cast on it, and is carried out only by the message that
/// asks for it; its votes change only by a vote that is cast on it.
pub proof fn law_who_moves_a_proposal(
    dao: DaoView,
    env: Env,
    info: MessageInfo,
    msg: ExecuteMsg,
    answers: Answers,
    id: u64,
)
    requires
        numbered(dao),
        execute_in_range(dao, env, info, msg, answers),
        dao.proposals.dom().contains(id),
    ensures
        ({
            let before = dao.proposals[id];
            let after = execute_state(dao, env, info, msg, answers).proposals[id];
            let voted_on = msg matches ExecuteMsg::Vote { proposal_id, .. } && proposal_id == id;
            &&& before.votes != after.votes ==> voted_on
            &&& before.status != after.status && after.status == Status::Passed ==> voted_on
                && after.passed(env.block)
            &&& before.status != after.status && after.status == Status::Executed ==> msg
                == ExecuteMsg::Execute { proposal_id: id }
            &&& before.status != after.status && after.status == Status::Rejected ==> msg
                == ExecuteMsg::Close { proposal_id: id } && before.expires.reached(env.block)
        }),
{
}

/// A proposal that has passed can be carried out at any time, by anyone; that answers with the
/// messages that return the deposit, followed by its own, and marks it as carried out.
pub proof fn law_passed_can_be_executed(dao: DaoView, sender: Seq<char>, proposal_id: u64)
    requires
        dao.proposals.dom().contains(proposal_id),
        dao.proposals[proposal_id].status == Status::Passed,
    ensures
        ({
            let proposal = dao.proposals[proposal_id];
            &&& execute_proposal_result(dao, sender, proposal_id) matches Ok(response)
            &&& response.messages == refund_messages(proposal.proposer, proposal.deposit)
                + proposal.msgs
            &&& execute_proposal_state(dao, proposal_id).proposals[proposal_id].status
                == Status::Executed
        }),
{
    let proposal = dao.proposals[proposal_id];
    let refund = refund_messages(proposal.proposer, proposal.deposit);
    let response = execute_proposal_result(dao, sender, proposal_id)->Ok_0;
    assert(response.messages =~= refund + proposal.msgs);
}

/// A status can come after another, sooner or later.
pub open spec fn may_come_after(before: Status, after: Status) -> bool {
    may_follow(before, after) || (before == Status::Open && after == Status::Executed)
}

/// However many messages come, no proposal is removed, none says anything else than at first, and
/// none goes back to a status that it has left.
pub proof fn law_proposals_are_kept(dao: DaoView, steps: Seq<Step>, id: u64)
    requires
        consistent(dao),
        run_in_range(dao, steps),
        dao.proposals.dom().contains(id),
    ensures
        run(dao, steps).proposals.dom().contains(id),
        same_content(dao.proposals[id], run(dao, steps).proposals[id]),
        may_come_after(dao.proposals[id].status, run(dao, steps).proposals[id].status),
    decreases steps.len(),
{
    if steps.len() > 0 {
        let step = steps.last();
        let so_far = run(dao, steps.drop_last());
        law_proposals_are_kept(dao, steps.drop_last(), id);
        law_always_consistent(dao, steps.drop_last());
        law_proposals_move_on(so_far, step.env, step.info, step.msg, step.answers, id);
    }
}

/// A proposal is carried out at most once: after an attempt that succeeded, and however many
/// messages later, every further attempt is refused, so that its messages go out only once and the
/// deposit is returned only once.
pub proof fn law_executed_once(
    dao: DaoView,
    proposal_id: u64,
    steps: Seq<Step>,
    sender: Seq<char>,
)
    requires
        consistent(dao),
        execute_refusal(dao, proposal_id) is None,
        run_in_range(execute_proposal_state(dao, proposal_id), steps),
    ensures
        execute_proposal_result(
            run(execute_proposal_state(dao, proposal_id), steps),
            sender,
            proposal_id,
        ) == Err::<ResponseView, _>(ContractErrorView::WrongExecuteStatus),
{
    let done = execute_proposal_state(dao, proposal_id);
    lemma_status_change_keeps_votes(dao, done, proposal_id);
    law_proposals_are_kept(done, steps, proposal_id);
}

/// A proposal that was rejected is never carried out, however many messages later.
pub proof fn law_rejected_is_never_executed(
    dao: DaoView,
    proposal_id: u64,
    steps: Seq<Step>,
    sender: Seq<char>,
)
    requires
        consistent(dao),
        run_in_range(dao, steps),
        dao.proposals.dom().contains(proposal_id),
        dao.proposals[proposal_id].status == Status::Rejected,
    ensures
        execute_proposal_result(run(dao, steps), sender, proposal_id) == Err::<ResponseView, _>(
            ContractErrorView::WrongExecuteStatus,
        ),
{
    law_proposals_are_kept(dao, steps, proposal_id);
}

/// Whoever has voted on a proposal is never again counted on it, however many messages later and
/// whatever the token contract says, and the vote can still be read as it was cast.
pub proof fn law_one_vote_for_good(
    dao: DaoView,
    block: BlockInfo,
    sender: Seq<char>,
    proposal_id: u64,
    vote: Vote,
    balance: Option<u128>,
    steps: Seq<Step>,
    later_block: BlockInfo,
    later_balance: Option<u128>,
)
    requires
        vote_refusal(dao, block, sender, proposal_id, balance) is None,
    ensures
        ({
            let voted = vote_state(dao, block, sender, proposal_id, vote, balance);
            let later = run(voted, steps);
            &&& vote_refusal(later, later_block, sender, proposal_id, later_balance) is Some
            &&& vote_query_result(later, proposal_id, sender, Ok(sender)) == Ok::<
                _,
                PlatformErrorView,
            >(Some(VoteInfoView { voter: sender, vote, weight: weight_of(balance) }))
        }),
{
    let voted = vote_state(dao, block, sender, proposal_id, vote, balance);
    lemma_run_keeps_ballot(voted, steps, (proposal_id, sender));
}

/// However many messages come, a ballot stays as it was cast.
proof fn lemma_run_keeps_ballot(dao: DaoView, steps: Seq<Step>, key: (u64, Seq<char>))
    requires
        dao.ballots.dom().contains(key),
    ensures
        run(dao, steps).ballots.dom().contains(key),
        run(dao, steps).ballots[key] == dao.ballots[key],
    decreases steps.len(),
{
    if steps.len() > 0 {
        let step = steps.last();
        lemma_run_keeps_ballot(dao, steps.drop_last(), key);
        law_ballots_are_kept(
            run(dao, steps.drop_last()),
            step.env,
            step.info,
            step.msg,
            step.answers,
            key,
        );
    }
}

/// A proposal is answered with the message that takes the deposit that the rules ask for, and no
/// other.
pub proof fn law_deposit_is_taken(
    dao: DaoView,
    block: BlockInfo,
    contract: Seq<char>,
    sender: Seq<char>,
    draft: Draft,
    balance: Option<u128>,
    total_supply: Result<u128, PlatformErrorView>,
)
    requires
        propose_refusal(dao, block, draft.latest, balance, total_supply) is None,
    ensures
        propose_result(dao, block, contract, sender, draft, balance, total_supply) matches Ok(
            response,
        ) && response.messages == deposit_messages(contract, sender, dao.config->0.proposal_deposit),
{
    let response = propose_result(
        dao,
        block,
        contract,
        sender,
        draft,
        balance,
        total_supply,
    )->Ok_0;
    assert(response.messages =~= deposit_messages(
        contract,
        sender,
        dao.config->0.proposal_deposit,
    ));
}

/// The deposit that is returned is the one that was asked for: the same amount of the same token,
/// to the account that made the proposal, however many messages later and whatever the rules are by
/// then.
pub proof fn law_deposit_is_returned(
    dao: DaoView,
    block: BlockInfo,
    sender: Seq<char>,
    draft: Draft,
    balance: Option<u128>,
    total_supply: Result<u128, PlatformErrorView>,
    steps: Seq<Step>,
)
    requires
        consistent(dao),
        propose_in_range(dao, block, draft.latest, balance, total_supply),
        propose_refusal(dao, block, draft.latest, balance, total_supply) is None,
        run_in_range(propose_state(dao, block, sender, draft, balance, total_supply), steps),
    ensures
        ({
            let proposed = propose_state(dao, block, sender, draft, balance, total_supply);
            let proposal = run(proposed, steps).proposals[next_proposal_id(dao)];
            refund_messages(proposal.proposer, proposal.deposit) == refund_messages(
                sender,
                dao.config->0.proposal_deposit,
            )
        }),
{
    let proposed = propose_state(dao, block, sender, draft, balance, total_supply);
    lemma_propose_keeps_consistent(dao, block, sender, draft, balance, total_supply);
    law_proposals_are_kept(proposed, steps, next_proposal_id(dao));
}

// ---------------------------------------------------------------------------------------------
// The rules
// ---------------------------------------------------------------------------------------------

/// The rules change only by a message that the contract sends itself, and the voting token never
/// changes.
pub proof fn law_who_changes_the_rules(
    dao: DaoView,
    env: Env,
    info: MessageInfo,
    msg: ExecuteMsg,
    answers: Answers,
)
    ensures
        ({
            let after = execute_state(dao, env, info, msg, answers);
            &&& after.config != dao.config ==> msg is UpdateConfig && info.sender@
                == env.contract.address@
            &&& (dao.config is Some <==> after.config is Some)
            &&& dao.config is Some ==> after.config->0.cw20_addr == dao.config->0.cw20_addr
        }),
{
}

/// New rules are in force at once, and leave every proposal and every ballot as it is.
pub proof fn law_new_rules(
    dao: DaoView,
    contract: Seq<char>,
    sender: Seq<char>,
    rules: NewRules,
    deposit_addr: Option<Seq<char>>,
)
    requires
        update_config_refusal(dao, contract, sender, rules, deposit_addr) is None,
    ensures
        ({
            let after = update_config_state(dao, contract, sender, rules, deposit_addr);
            &&& after.proposals == dao.proposals
            &&& after.ballots == dao.ballots
            &&& after.config_or_missing() matches Ok(config)
            &&& config.threshold == rules.threshold
            &&& config.max_voting_period == rules.max_voting_period
            &&& config.proposal_deposit.amount == rules.proposal_deposit_amount
            &&& Some(config.proposal_deposit.token_address) == deposit_addr
        }),
{
}

// ---------------------------------------------------------------------------------------------
// The list of tokens
// ---------------------------------------------------------------------------------------------

/// The list of tokens only grows at its end, and only by the sender of a message that tokens have
/// come.
pub proof fn law_tokens_are_kept(
    dao: DaoView,
    env: Env,
    info: MessageInfo,
    msg: ExecuteMsg,
    answers: Answers,
)
    ensures
        ({
            let after = execute_state(dao, env, info, msg, answers);
            match dao.treasury_tokens {
                None => after.treasury_tokens is None,
                Some(tokens) => after.treasury_tokens == Some(
                    if msg is Receive {
                        with_token(tokens, info.sender@)
                    } else {
                        tokens
                    },
                ),
            }
        }),
{
}

/// However many messages come, the voting token stays the one the contract was set up with, and the
/// list of tokens starts with all that it held at first, in the same order.
pub proof fn law_tokens_stay(dao: DaoView, steps: Seq<Step>)
    ensures
        dao.config is Some <==> run(dao, steps).config is Some,
        dao.config is Some ==> run(dao, steps).config->0.cw20_addr == dao.config->0.cw20_addr,
        dao.treasury_tokens is Some <==> run(dao, steps).treasury_tokens is Some,
        dao.treasury_tokens is Some ==> (dao.treasury_tokens->0).is_prefix_of(
            run(dao, steps).treasury_tokens->0,
        ),
    decreases steps.len(),
{
    if steps.len() > 0 {
        let step = steps.last();
        let so_far = run(dao, steps.drop_last());
        law_tokens_stay(dao, steps.drop_last());
        law_who_changes_the_rules(so_far, step.env, step.info, step.msg, step.answers);
        law_tokens_are_kept(so_far, step.env, step.info, step.msg, step.answers);
    }
}

/// Receiving tokens from the same contract again changes nothing.
pub proof fn law_receive_is_idempotent(dao: DaoView, sender: Seq<char>)
    ensures
        receive_state(receive_state(dao, sender), sender) == receive_state(dao, sender),
        dao.treasury_tokens is Some ==> (receive_state(dao, sender).treasury_tokens->0).contains(sender),
{
    if let Some(tokens) = dao.treasury_tokens {
        if !tokens.contains(sender) {
            assert(tokens.push(sender)[tokens.len() as int] == sender);
        }
    }
}

// ---------------------------------------------------------------------------------------------
// Time
// ---------------------------------------------------------------------------------------------

/// Voting on a proposal never ends later than the longest voting period allows, and without a wish
/// it ends just then.
pub proof fn law_voting_ends_in_time(
    period: Duration,
    block: BlockInfo,
    latest: Option<Expiration>,
)
    requires
        period.fits_after(block),
    ensures
        ({
            let max = period.end_after(block);
            &&& chosen_expiration(latest, max) matches Some(end) ==> (end.order(max) == Some(
                Ordering::Less,
            ) || end == max)
            &&& latest is None ==> chosen_expiration(latest, max) == Some(max)
            &&& chosen_expiration(latest, max) is None <==> (latest matches Some(wish)
                && wish.order(max) is None)
        }),
{
}

/// What has ended stays ended in every later block.
pub proof fn law_time_does_not_run_back(end: Expiration, block: BlockInfo, later: BlockInfo)
    requires
        end.reached(block),
        later.height >= block.height,
        later.time >= block.time,
    ensures
        end.reached(later),
{
}

/// Updating the status a second time in a block changes nothing, and after the end of voting no
/// proposal is open.
pub proof fn law_status_settles(proposal: ProposalView, block: BlockInfo)
    ensures
        proposal.updated(block).updated(block) == proposal.updated(block),
        proposal.updated(block).status_at(block) == proposal.status_at(block),
        proposal.expires.reached(block) ==> proposal.status_at(block) != Status::Open,
{
}

// ---------------------------------------------------------------------------------------------
// Thresholds
// ---------------------------------------------------------------------------------------------

/// A share of more is no less, and a share is never more than the whole.
pub proof fn law_shares_grow(less: int, more: int, percentage: Decimal)
    requires
        0 <= less <= more,
        percentage.atomics <= DECIMAL_ONE,
    ensures
        share_of(less, percentage) <= share_of(more, percentage),
        0 <= share_of(more, percentage) <= more,
{
    let p = percentage.atomics as int;
    let g = PRECISION_FACTOR as int;
    assert(0 <= less * p <= more * p <= more * g * g) by (nonlinear_arith)
        requires
            0 <= less <= more,
            0 <= p <= 1_000_000_000_000_000_000,
            g == 1_000_000_000,
    ;
    assert(0 <= less * p / g <= more * p / g <= more * g) by (nonlinear_arith)
        requires
            0 <= less * p <= more * p <= more * g * g,
            g == 1_000_000_000,
    ;
    let (x, y) = (less * p / g, more * p / g);
    assert(divide_up(x, g) <= divide_up(y, g));
    assert(0 <= divide_up(y, g) <= more) by (nonlinear_arith)
        requires
            0 <= y <= more * g,
            g == 1_000_000_000,
    ;
}

/// The share that is the whole takes everything.
pub proof fn law_whole_share(weight: int)
    requires
        0 <= weight,
    ensures
        share_of(weight, Decimal { atomics: DECIMAL_ONE }) == weight,
{
    let g = PRECISION_FACTOR as int;
    let p = DECIMAL_ONE as int;
    assert(weight * p / g == weight * g) by (nonlinear_arith)
        requires
            p == 1_000_000_000_000_000_000,
            g == 1_000_000_000,
    ;
    assert(divide_up(weight * g, g) == weight) by (nonlinear_arith)
        requires
            g == 1_000_000_000,
    ;
}

/// `later` are the votes of `earlier` with further votes of up to the total weight.
pub open spec fn votes_came_in(earlier: Votes, later: Votes, total_weight: u128) -> bool {
    &&& earlier.yes <= later.yes
    &&& earlier.no <= later.no
    &&& earlier.abstain <= later.abstain
    &&& earlier.veto <= later.veto
    &&& later.sum() <= total_weight
}

/// A proposal that is carried before voting is over stays carried whatever votes come in, up to
/// the total weight, and is still carried when voting is over.
pub proof fn law_early_pass_is_safe(
    threshold: Threshold,
    earlier: Votes,
    later: Votes,
    total_weight: u128,
    voting_over: bool,
)
    requires
        threshold.valid(),
        carried(threshold, earlier, total_weight, false),
        votes_came_in(earlier, later, total_weight),
    ensures
        carried(threshold, later, total_weight, voting_over),
{
    match threshold {
        Threshold::AbsolutePercentage { percentage } => {
            law_shares_grow(
                total_weight - later.abstain,
                total_weight - earlier.abstain,
                percentage,
            );
        },
        Threshold::ThresholdQuorum { threshold, quorum } => {
            law_shares_grow(
                total_weight - later.abstain,
                total_weight - earlier.abstain,
                threshold,
            );
            law_shares_grow(later.sum() - later.abstain, total_weight - later.abstain, threshold);
        },
    }
}

// ---------------------------------------------------------------------------------------------
// Questions
// ---------------------------------------------------------------------------------------------

/// The answers agree on everything that was asked.
pub open spec fn agree_on(asked: Seq<QuestionView>, left: Answers, right: Answers) -> bool {
    forall|i: int|
        0 <= i < asked.len() ==> match #[trigger] asked[i] {
            QuestionView::Address { .. } => left.address == right.address,
            QuestionView::Balance { .. } => left.balance == right.balance,
            QuestionView::BalanceAtHeight { .. } => left.balance_at_height == right.balance_at_height,
            QuestionView::TotalSupply { .. } => left.total_supply == right.total_supply,
            QuestionView::NativeBalances { .. } => left.native_balances == right.native_balances,
        }
}

/// What a message does follows from the answers to what was asked for it, and from no others.
pub proof fn law_only_what_was_asked_counts(
    dao: DaoView,
    env: Env,
    info: MessageInfo,
    msg: ExecuteMsg,
    left: Answers,
    right: Answers,
)
    requires
        agree_on(execute_asks(dao, info, msg), left, right),
    ensures
        execute_in_range(dao, env, info, msg, left) == execute_in_range(dao, env, info, msg, right),
        execute_result(dao, env, info, msg, left) == execute_result(dao, env, info, msg, right),
        execute_state(dao, env, info, msg, left) == execute_state(dao, env, info, msg, right),
{
    let asked = execute_asks(dao, info, msg);
    match msg {
        ExecuteMsg::Propose { .. } => {
            if dao.config is Some {
                assert(asked[0] is Balance);
                assert(asked[1] is TotalSupply);
            }
        },
        ExecuteMsg::Vote { proposal_id, .. } => {
            if dao.config is Some && dao.proposals.dom().contains(proposal_id) {
                assert(asked[0] is BalanceAtHeight);
            }
        },
        ExecuteMsg::UpdateConfig { .. } => {
            assert(asked[0] is Address);
        },
        _ => {},
    }
}

/// The answers to a query agree on everything that was asked. The balances that are asked for
/// beforehand are those of the contract's own tokens; that of a voter is asked for afterwards.
pub open spec fn agree_on_query(
    asked: Seq<QuestionView>,
    asked_after: Option<QuestionView>,
    left: Answers,
    right: Answers,
) -> bool {
    &&& forall|i: int|
        0 <= i < asked.len() ==> match #[trigger] asked[i] {
            QuestionView::Address { .. } => left.address == right.address,
            QuestionView::Balance { .. } => left.token_balances@ == right.token_balances@,
            QuestionView::BalanceAtHeight { .. } => left.balance_at_height == right.balance_at_height,
            QuestionView::TotalSupply { .. } => left.total_supply == right.total_supply,
            QuestionView::NativeBalances { .. } => left.native_balances == right.native_balances,
        }
    &&& asked_after is Some ==> left.balance == right.balance
}

/// What has to be asked once the first questions are answered: for a voter, what the account holds.
pub open spec fn query_asks_after(dao: DaoView, msg: QueryMsg, answers: Answers) -> Option<QuestionView> {
    if msg is Voter {
        voter_ask(dao, std_result(answers.address))
    } else {
        None
    }
}

/// What a query returns follows from the answers to what was asked for it, and from no others.
pub proof fn law_only_what_was_asked_is_shown(
    dao: DaoView,
    env: Env,
    msg: QueryMsg,
    left: Answers,
    right: Answers,
    response: Result<QueryResponseView, PlatformErrorView>,
)
    requires
        agree_on_query(query_asks(dao, env, msg), query_asks_after(dao, msg, left), left, right),
    ensures
        is_query_result(dao, env, msg, left, response) == is_query_result(
            dao,
            env,
            msg,
            right,
            response,
        ),
        (dao.treasury_tokens matches Some(tokens) ==> tokens.len() > 0) ==> query_in_range(
            dao,
            msg,
            left,
        ) == query_in_range(dao, msg, right),
{
    let asked = query_asks(dao, env, msg);
    match msg {
        QueryMsg::Threshold => {
            if dao.config is Some {
                assert(asked[0] is TotalSupply);
            }
        },
        QueryMsg::Proposal { .. } => {
            if dao.config is Some {
                assert(asked[0] is TotalSupply);
            }
        },
        QueryMsg::Vote { .. } => {
            assert(asked[0] is Address);
        },
        QueryMsg::ListVotes { start_after, .. } => {
            if start_after is Some {
                assert(asked[0] is Address);
            }
        },
        QueryMsg::Voter { .. } => {
            assert(asked[0] is Address);
        },
        QueryMsg::AllBalances => {
            assert(asked[0] is NativeBalances);
            if let Some(tokens) = dao.treasury_tokens {
                if tokens.len() > 0 {
                    assert(asked[1] is Balance);
                } else {
                    let native = coins_result(left.native_balances);
                    let shown = all_balances_result(dao, native, left.token_balances@);
                    let other = all_balances_result(dao, native, right.token_balances@);
                    if native is Ok {
                        assert(shown->Ok_0.cw20 =~= other->Ok_0.cw20);
                    }
                }
            }
        },
        _ => {},
    }
}

} // verus!
