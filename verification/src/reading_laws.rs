//! What each query shows, told by what is stored, what is asked and what is answered.
use crate::contract::{close_result, close_state, vote_result, vote_state};
use crate::error::{PlatformError, PlatformErrorView, Record};
use crate::expiration::BlockInfo;
use crate::message_laws::law_who_may_vote;
use crate::msg::{CoinView, Env, ExecuteMsg, MessageInfo, QueryMsg};
use crate::outside::{Answers, QuestionView};
use crate::proposal::{Proposal, ProposalView, Status, Vote};
use crate::query::{
    all_balances_result, ascending, by_text, descending, ids_after, ids_before, is_proposal_page,
    is_query_result, is_reverse_proposal_page, is_vote_list, is_vote_page, mapped_proposal,
    proposal_result, query_asks, query_in_range, shown_ids, shown_proposal, shown_voters,
    threshold_result, vote_query_result, voter_ask, voter_result, voters_after, voters_of,
    ProposalResponseView, QueryResponseView, VoteInfoView,
};
use crate::records::{execute_reads, query_reads, RecordsView};
use crate::rule_laws::{
    law_keys, law_order_of_texts, law_status_in_a_block, stands, stands_before, time_is_up, wins,
};
use crate::state::DaoView;
use crate::threshold::ThresholdResponse;
use crate::views::views;
use vstd::prelude::*;

verus! {

// ---------------------------------------------------------------------------------------------
// Single records
// ---------------------------------------------------------------------------------------------

/// The error for a record that is not there.
pub open spec fn not_there(record: Record) -> PlatformErrorView {
    PlatformErrorView::NotFound { record }
}

/// The weight that a threshold is shown with.
pub open spec fn weight_shown(shown: ThresholdResponse) -> u128 {
    match shown {
        ThresholdResponse::AbsolutePercentage { total_weight, .. } => total_weight,
        ThresholdResponse::ThresholdQuorum { total_weight, .. } => total_weight,
    }
}

/// The rules and the list of tokens are shown as they are stored, and an error says that they are
/// not there.
pub proof fn law_what_is_stored_is_shown(dao: DaoView)
    ensures
        match dao.config {
            Some(config) => dao.config_or_missing() matches Ok(shown) && shown == config,
            None => dao.config_or_missing() matches Err(error) && error == not_there(Record::Config),
        },
        match dao.treasury_tokens {
            Some(tokens) => dao.tokens_or_missing() matches Ok(shown) && shown == tokens,
            None => dao.tokens_or_missing() matches Err(error) && error == not_there(
                Record::TreasuryTokens,
            ),
        },
{
}

/// The threshold for new proposals is shown with the supply of the token; without rules, or without
/// a supply, the error is.
pub proof fn law_threshold_shown(dao: DaoView, supply: Result<u128, PlatformErrorView>)
    ensures
        match (dao.config, supply) {
            (None, _) => threshold_result(dao, supply) == Err::<ThresholdResponse, _>(
                not_there(Record::Config),
            ),
            (Some(_), Err(error)) => threshold_result(dao, supply) == Err::<ThresholdResponse, _>(
                error,
            ),
            (Some(config), Ok(amount)) => threshold_result(dao, supply) matches Ok(shown) && shown
                == config.threshold.response(amount) && weight_shown(shown) == amount,
        },
{
}

/// A proposal is shown in a block: all that was handed in, as it was; its threshold with a weight;
/// and the status where it stands in that block, which is what an update would store.
pub open spec fn shows(
    shown: ProposalResponseView,
    id: u64,
    stored: ProposalView,
    block: BlockInfo,
    weight: u128,
) -> bool {
    &&& shown.id == id
    &&& shown.title == stored.title
    &&& shown.description == stored.description
    &&& shown.proposer == stored.proposer
    &&& shown.msgs == stored.msgs
    &&& shown.expires == stored.expires
    &&& shown.deposit_amount == stored.deposit.amount
    &&& shown.deposit_token_address == stored.deposit.token_address
    &&& shown.threshold == stored.threshold.response(weight)
    &&& weight_shown(shown.threshold) == weight
    &&& shown.status == stored.updated(block).status
    &&& shown.status == stands(
        stored.status,
        stored.threshold,
        stored.votes,
        stored.total_weight,
        time_is_up(stored.expires, block),
    )
}

/// One proposal is shown with the supply of now; if there is none, no rules or no supply, the error
/// is.
pub proof fn law_proposal_shown(
    dao: DaoView,
    block: BlockInfo,
    id: u64,
    supply: Result<u128, PlatformErrorView>,
)
    ensures
        ({
            let result = proposal_result(dao, block, id, supply);
            let there = dao.proposals.dom().contains(id);
            &&& result is Ok <==> there && dao.config is Some && supply is Ok
            &&& result matches Ok(shown) ==> shows(shown, id, dao.proposals[id], block, supply->Ok_0)
            &&& !there ==> result == Err::<ProposalResponseView, _>(not_there(Record::Proposal))
            &&& there && dao.config is None ==> result == Err::<ProposalResponseView, _>(
                not_there(Record::Config),
            )
            &&& there && dao.config is Some ==> (supply matches Err(error) ==> result == Err::<
                ProposalResponseView,
                _,
            >(error))
        }),
{
    law_status_in_a_block(dao.proposals[id], block);
}

/// A proposal that was left open is shown after the end of voting as passed if its votes won, and as
/// rejected if they did not, and never as open; one that was closed is shown as rejected from then
/// on, however its votes stand.
pub proof fn law_shown_after_the_end(
    dao: DaoView,
    block: BlockInfo,
    later: BlockInfo,
    sender: Seq<char>,
    id: u64,
    weight: u128,
)
    requires
        dao.proposals.dom().contains(id),
        dao.proposals[id].status == Status::Open,
        time_is_up(dao.proposals[id].expires, block),
    ensures
        ({
            let stored = dao.proposals[id];
            let shown = shown_proposal(id, stored, block, weight);
            let closed = close_state(dao, block, id).proposals[id];
            &&& shown.status == Status::Passed <==> wins(
                stored.threshold,
                stored.votes,
                stored.total_weight,
                true,
            )
            &&& shown.status == Status::Passed || shown.status == Status::Rejected
            &&& close_result(dao, block, sender, id) is Ok
            &&& shown_proposal(id, closed, later, weight).status == Status::Rejected
        }),
{
    law_status_in_a_block(dao.proposals[id], block);
}

/// A read that failed is an error, and so is a key that is no number. Any other read is shown under
/// the number in its key, its threshold with the proposal's own total weight.
pub proof fn law_reads_are_shown(
    block: BlockInfo,
    item: Result<(Vec<u8>, Proposal), PlatformError>,
)
    ensures
        match item {
            Err(error) => mapped_proposal(block, item) == Err::<ProposalResponseView, _>(error@),
            Ok((key, record)) => {
                &&& key@.len() != 8 ==> mapped_proposal(block, item) == Err::<
                    ProposalResponseView,
                    _,
                >(
                    PlatformErrorView::GenericErr {
                        msg: "Corrupted data found. 8 byte expected."@,
                    },
                )
                &&& key@.len() == 8 ==> {
                    &&& mapped_proposal(block, item) matches Ok(shown)
                    &&& shows(shown, shown.id, record@, block, record@.total_weight)
                    &&& shown.id == key@[0] * 0x100_0000_0000_0000 + key@[1] * 0x1_0000_0000_0000
                        + key@[2] * 0x100_0000_0000 + key@[3] * 0x1_0000_0000 + key@[4]
                        * 0x100_0000 + key@[5] * 0x1_0000 + key@[6] * 0x100 + key@[7]
                }
            },
        },
{
    if let Ok((key, record)) = item {
        law_keys(key@);
        law_status_in_a_block(record@, block);
    }
}

/// The vote of an account is shown as it was cast, under the name by which it was asked for; an
/// account that has not voted has none, and what is no account is an error.
pub proof fn law_vote_shown(
    dao: DaoView,
    proposal_id: u64,
    voter: Seq<char>,
    address: Result<Seq<char>, PlatformErrorView>,
)
    ensures
        match address {
            Err(error) => vote_query_result(dao, proposal_id, voter, address) == Err::<
                Option<VoteInfoView>,
                _,
            >(error),
            Ok(account) => {
                let key = (proposal_id, account);
                &&& vote_query_result(dao, proposal_id, voter, address) matches Ok(found)
                &&& found is Some <==> dao.ballots.dom().contains(key)
                &&& found matches Some(shown) ==> {
                    &&& shown.voter == voter
                    &&& shown.vote == dao.ballots[key].vote
                    &&& shown.weight == dao.ballots[key].weight
                }
            },
        },
{
}

/// What a voter holds is what the token contract says, or nothing; what is no account is an error,
/// and so is asking without rules.
pub proof fn law_voter_shown(
    dao: DaoView,
    address: Result<Seq<char>, PlatformErrorView>,
    balance: Option<u128>,
)
    ensures
        ({
            let result = voter_result(dao, address, balance);
            &&& address matches Err(error) ==> result == Err::<Option<u128>, _>(error)
            &&& address is Ok && dao.config is None ==> result == Err::<Option<u128>, _>(
                not_there(Record::Config),
            )
            &&& address is Ok && dao.config is Some ==> {
                &&& result matches Ok(shown)
                &&& shown matches Some(weight)
                &&& balance is Some ==> balance == Some(weight)
                &&& balance is None ==> weight == 0
            }
        }),
{
}

/// What the contract holds is shown as it was answered: the native tokens, and one amount for each
/// token of the list, in its order.
pub proof fn law_holdings_shown(
    dao: DaoView,
    native: Result<Seq<CoinView>, PlatformErrorView>,
    balances: Seq<u128>,
)
    ensures
        ({
            let result = all_balances_result(dao, native, balances);
            &&& result is Ok <==> native is Ok && dao.treasury_tokens is Some
            &&& native matches Err(error) ==> (result matches Err(returned) && returned == error)
            &&& native is Ok && dao.treasury_tokens is None ==> (result matches Err(returned)
                && returned == not_there(Record::TreasuryTokens))
            &&& result matches Ok(shown) ==> {
                let tokens = dao.treasury_tokens->0;
                &&& shown.native == native->Ok_0
                &&& shown.cw20.len() == tokens.len()
                &&& forall|i: int|
                    0 <= i < tokens.len() ==> (#[trigger] shown.cw20[i]).address == tokens[i]
                        && shown.cw20[i].amount == balances[i]
            }
        }),
{
}

// ---------------------------------------------------------------------------------------------
// Pages
// ---------------------------------------------------------------------------------------------

/// What a page holds at most: ten if nothing is said, and never more than thirty.
pub open spec fn most(limit: Option<u32>) -> int {
    match limit {
        None => 10,
        Some(number) => if number > 30 {
            30
        } else {
            number as int
        },
    }
}

/// A page of proposals holds those with the lowest numbers after the start, ascending, as many as fit:
/// whatever is left out comes after all that is on a full page. Each is shown as it stands in the
/// block, its threshold with its own total weight.
pub proof fn law_page_of_proposals(
    dao: DaoView,
    block: BlockInfo,
    start: Option<u64>,
    limit: Option<u32>,
    page: Seq<ProposalResponseView>,
    left_out: u64,
)
    requires
        is_proposal_page(dao, block, start, limit, page),
    ensures
        page.len() <= most(limit),
        forall|i: int, j: int|
            0 <= i < j < page.len() ==> (#[trigger] page[i]).id < (#[trigger] page[j]).id,
        forall|i: int|
            0 <= i < page.len() ==> dao.proposals.dom().contains((#[trigger] page[i]).id) && (
            start matches Some(number) ==> page[i].id > number) && shows(
                page[i],
                page[i].id,
                dao.proposals[page[i].id],
                block,
                dao.proposals[page[i].id].total_weight,
            ),
        ({
            &&& dao.proposals.dom().contains(left_out)
            &&& start matches Some(number) ==> left_out > number
            &&& forall|i: int| 0 <= i < page.len() ==> (#[trigger] page[i]).id != left_out
        }) ==> page.len() == most(limit) && forall|i: int|
            0 <= i < page.len() ==> (#[trigger] page[i]).id < left_out,
{
    let ids = shown_ids(page);
    assert(forall|i: int| 0 <= i < page.len() ==> ids[i] == (#[trigger] page[i]).id);
    assert forall|i: int, j: int| 0 <= i < j < page.len() implies (#[trigger] page[i]).id < (
    #[trigger] page[j]).id by {
        assert(ascending()(ids[i], ids[j]));
    }
    assert forall|i: int| 0 <= i < page.len() implies dao.proposals.dom().contains(
        (#[trigger] page[i]).id,
    ) && (start matches Some(number) ==> page[i].id > number) && shows(
        page[i],
        page[i].id,
        dao.proposals[page[i].id],
        block,
        dao.proposals[page[i].id].total_weight,
    ) by {
        assert(dao.proposals.dom().contains(ids[i]) && ids_after(start)(ids[i]));
        law_status_in_a_block(dao.proposals[page[i].id], block);
    }
    if dao.proposals.dom().contains(left_out) && ids_after(start)(left_out)
        && forall|i: int| 0 <= i < page.len() ==> (#[trigger] page[i]).id != left_out {
        assert(!ids.contains(left_out));
        assert forall|i: int| 0 <= i < page.len() implies (#[trigger] page[i]).id < left_out by {
            assert(ascending()(ids[i], left_out));
        }
    }
}

/// Listed backwards, a page holds the proposals with the highest numbers before the start, descending,
/// as many as fit, shown in the same way.
pub proof fn law_page_of_proposals_backwards(
    dao: DaoView,
    block: BlockInfo,
    start: Option<u64>,
    limit: Option<u32>,
    page: Seq<ProposalResponseView>,
    left_out: u64,
)
    requires
        is_reverse_proposal_page(dao, block, start, limit, page),
    ensures
        page.len() <= most(limit),
        forall|i: int, j: int|
            0 <= i < j < page.len() ==> (#[trigger] page[i]).id > (#[trigger] page[j]).id,
        forall|i: int|
            0 <= i < page.len() ==> dao.proposals.dom().contains((#[trigger] page[i]).id) && (
            start matches Some(number) ==> page[i].id < number) && shows(
                page[i],
                page[i].id,
                dao.proposals[page[i].id],
                block,
                dao.proposals[page[i].id].total_weight,
            ),
        ({
            &&& dao.proposals.dom().contains(left_out)
            &&& start matches Some(number) ==> left_out < number
            &&& forall|i: int| 0 <= i < page.len() ==> (#[trigger] page[i]).id != left_out
        }) ==> page.len() == most(limit) && forall|i: int|
            0 <= i < page.len() ==> (#[trigger] page[i]).id > left_out,
{
    let ids = shown_ids(page);
    assert(forall|i: int| 0 <= i < page.len() ==> ids[i] == (#[trigger] page[i]).id);
    assert forall|i: int, j: int| 0 <= i < j < page.len() implies (#[trigger] page[i]).id > (
    #[trigger] page[j]).id by {
        assert(descending()(ids[i], ids[j]));
    }
    assert forall|i: int| 0 <= i < page.len() implies dao.proposals.dom().contains(
        (#[trigger] page[i]).id,
    ) && (start matches Some(number) ==> page[i].id < number) && shows(
        page[i],
        page[i].id,
        dao.proposals[page[i].id],
        block,
        dao.proposals[page[i].id].total_weight,
    ) by {
        assert(dao.proposals.dom().contains(ids[i]) && ids_before(start)(ids[i]));
        law_status_in_a_block(dao.proposals[page[i].id], block);
    }
    if dao.proposals.dom().contains(left_out) && ids_before(start)(left_out)
        && forall|i: int| 0 <= i < page.len() ==> (#[trigger] page[i]).id != left_out {
        assert(!ids.contains(left_out));
        assert forall|i: int| 0 <= i < page.len() implies (#[trigger] page[i]).id > left_out by {
            assert(descending()(ids[i], left_out));
        }
    }
}

/// A page of votes holds the accounts that have voted on the proposal and come first after the start,
/// in the order of their bytes, as many as fit. Each vote is listed as it was cast: with the voter,
/// the answer and the weight that asking for that account's vote shows.
pub proof fn law_page_of_votes(
    dao: DaoView,
    proposal_id: u64,
    start: Option<Seq<char>>,
    limit: Option<u32>,
    page: Seq<VoteInfoView>,
    left_out: Seq<char>,
)
    requires
        is_vote_page(dao, proposal_id, start, limit, page),
    ensures
        page.len() <= most(limit),
        forall|i: int, j: int|
            0 <= i < j < page.len() ==> stands_before(
                (#[trigger] page[i]).voter,
                (#[trigger] page[j]).voter,
            ),
        forall|i: int|
            0 <= i < page.len() ==> dao.ballots.dom().contains(
                (proposal_id, (#[trigger] page[i]).voter),
            ) && (start matches Some(account) ==> stands_before(account, page[i].voter))
                && page[i].vote == dao.ballots[(proposal_id, page[i].voter)].vote && page[i].weight
                == dao.ballots[(proposal_id, page[i].voter)].weight && vote_query_result(
                dao,
                proposal_id,
                page[i].voter,
                Ok(page[i].voter),
            ) == Ok::<_, PlatformErrorView>(Some(page[i])),
        ({
            &&& dao.ballots.dom().contains((proposal_id, left_out))
            &&& start matches Some(account) ==> stands_before(account, left_out)
            &&& forall|i: int| 0 <= i < page.len() ==> (#[trigger] page[i]).voter != left_out
        }) ==> page.len() == most(limit) && forall|i: int|
            0 <= i < page.len() ==> stands_before((#[trigger] page[i]).voter, left_out),
{
    let voters = shown_voters(page);
    let keys = voters_of(dao, proposal_id);
    assert(forall|i: int| 0 <= i < page.len() ==> voters[i] == (#[trigger] page[i]).voter);
    assert forall|i: int, j: int| 0 <= i < j < page.len() implies stands_before(
        (#[trigger] page[i]).voter,
        (#[trigger] page[j]).voter,
    ) by {
        assert(by_text()(voters[i], voters[j]));
        law_order_of_texts(page[i].voter, page[j].voter);
    }
    assert forall|i: int| 0 <= i < page.len() implies dao.ballots.dom().contains(
        (proposal_id, (#[trigger] page[i]).voter),
    ) && (start matches Some(account) ==> stands_before(account, page[i].voter)) by {
        assert(keys.contains(voters[i]) && voters_after(start)(voters[i]));
        if let Some(account) = start {
            law_order_of_texts(account, page[i].voter);
        }
    }
    if let Some(account) = start {
        law_order_of_texts(account, left_out);
    }
    if dao.ballots.dom().contains((proposal_id, left_out)) && voters_after(start)(
        left_out,
    ) && forall|i: int| 0 <= i < page.len() ==> (#[trigger] page[i]).voter != left_out {
        assert(keys.contains(left_out));
        assert(!voters.contains(left_out));
        assert forall|i: int| 0 <= i < page.len() implies stands_before(
            (#[trigger] page[i]).voter,
            left_out,
        ) by {
            assert(by_text()(voters[i], left_out));
            law_order_of_texts(page[i].voter, left_out);
        }
    }
}

/// After a vote was counted, every page of votes on that proposal that holds the sender shows the
/// sender with the answer and the weight of that vote, and every other account as before.
pub proof fn law_votes_are_listed_as_cast(
    dao: DaoView,
    block: BlockInfo,
    sender: Seq<char>,
    proposal_id: u64,
    vote: Vote,
    balance: Option<u128>,
    start: Option<Seq<char>>,
    limit: Option<u32>,
    page: Seq<VoteInfoView>,
    i: int,
)
    requires
        vote_result(dao, block, sender, proposal_id, vote, balance) is Ok,
        is_vote_page(
            vote_state(dao, block, sender, proposal_id, vote, balance),
            proposal_id,
            start,
            limit,
            page,
        ),
        0 <= i < page.len(),
    ensures
        page[i].voter == sender ==> page[i].vote == vote && Some(page[i].weight) == balance,
        page[i].voter != sender ==> {
            let key = (proposal_id, page[i].voter);
            &&& dao.ballots.dom().contains(key)
            &&& page[i].vote == dao.ballots[key].vote
            &&& page[i].weight == dao.ballots[key].weight
        },
{
    let after = vote_state(dao, block, sender, proposal_id, vote, balance);
    law_page_of_votes(after, proposal_id, start, limit, page, sender);
    law_who_may_vote(dao, block, sender, proposal_id, vote, balance);
}

/// A list of votes starts after the account that was asked for, as the chain writes it; without one
/// it starts with the first, and what is no account is an error.
pub proof fn law_where_votes_start(
    dao: DaoView,
    proposal_id: u64,
    asked: Option<Seq<char>>,
    address: Result<Seq<char>, PlatformErrorView>,
    limit: Option<u32>,
    list: Result<Seq<VoteInfoView>, PlatformErrorView>,
)
    requires
        is_vote_list(dao, proposal_id, asked, address, limit, list),
    ensures
        match (asked, address) {
            (None, _) => list matches Ok(page) && is_vote_page(dao, proposal_id, None, limit, page),
            (Some(_), Ok(account)) => list matches Ok(page) && is_vote_page(
                dao,
                proposal_id,
                Some(account),
                limit,
                page,
            ),
            (Some(_), Err(error)) => list == Err::<Seq<VoteInfoView>, _>(error),
        },
{
}

// ---------------------------------------------------------------------------------------------
// All queries
// ---------------------------------------------------------------------------------------------

/// The view of an answer that is a text, as it stands.
pub open spec fn text_in(answer: Result<String, PlatformError>) -> Result<Seq<char>, PlatformErrorView> {
    match answer {
        Ok(text) => Ok(text@),
        Err(error) => Err(error@),
    }
}

/// The view of an answer that is a number, as it stands.
pub open spec fn number_in_answer(answer: Result<u128, PlatformError>) -> Result<
    u128,
    PlatformErrorView,
> {
    match answer {
        Ok(number) => Ok(number),
        Err(error) => Err(error@),
    }
}

/// A query is answered with what is shown for its message, in the variant for that message, or with
/// the error in its place.
pub proof fn law_queries_show_what_they_ask_for(
    dao: DaoView,
    env: Env,
    msg: QueryMsg,
    answers: Answers,
    response: Result<QueryResponseView, PlatformErrorView>,
    native: Result<Seq<CoinView>, PlatformErrorView>,
)
    requires
        is_query_result(dao, env, msg, answers, response),
        match (answers.native_balances, native) {
            (Ok(list), Ok(coins)) => coins.len() == list@.len() && forall|i: int|
                0 <= i < coins.len() ==> #[trigger] coins[i] == list@[i]@,
            (Err(failed), Err(error)) => error == failed@,
            _ => false,
        },
    ensures
        ({
            let supply = number_in_answer(answers.total_supply);
            let address = text_in(answers.address);
            match msg {
                QueryMsg::Threshold => match threshold_result(dao, supply) {
                    Ok(value) => response == Ok::<_, PlatformErrorView>(
                        QueryResponseView::Threshold(value),
                    ),
                    Err(error) => response == Err::<QueryResponseView, _>(error),
                },
                QueryMsg::Proposal { proposal_id } => match proposal_result(
                    dao,
                    env.block,
                    proposal_id,
                    supply,
                ) {
                    Ok(value) => response == Ok::<_, PlatformErrorView>(
                        QueryResponseView::Proposal(value),
                    ),
                    Err(error) => response == Err::<QueryResponseView, _>(error),
                },
                QueryMsg::Vote { proposal_id, voter } => match vote_query_result(
                    dao,
                    proposal_id,
                    voter@,
                    address,
                ) {
                    Ok(value) => response == Ok::<_, PlatformErrorView>(
                        QueryResponseView::Vote(value),
                    ),
                    Err(error) => response == Err::<QueryResponseView, _>(error),
                },
                QueryMsg::ListProposals { start_after, limit } => response matches Ok(
                    QueryResponseView::Proposals(page),
                ) && is_proposal_page(dao, env.block, start_after, limit, page),
                QueryMsg::ReverseProposals { start_before, limit } => response matches Ok(
                    QueryResponseView::Proposals(page),
                ) && is_reverse_proposal_page(dao, env.block, start_before, limit, page),
                QueryMsg::ListVotes { proposal_id, start_after, limit } => {
                    let asked = match start_after {
                        Some(account) => Some(account@),
                        None => None,
                    };
                    match response {
                        Ok(answer) => answer is Votes && is_vote_list(
                            dao,
                            proposal_id,
                            asked,
                            address,
                            limit,
                            Ok(answer->Votes_0),
                        ),
                        Err(error) => is_vote_list(
                            dao,
                            proposal_id,
                            asked,
                            address,
                            limit,
                            Err(error),
                        ),
                    }
                },
                QueryMsg::Voter { .. } => match voter_result(dao, address, answers.balance) {
                    Ok(value) => response == Ok::<_, PlatformErrorView>(
                        QueryResponseView::Voter(value),
                    ),
                    Err(error) => response == Err::<QueryResponseView, _>(error),
                },
                QueryMsg::AllBalances => match all_balances_result(
                    dao,
                    native,
                    answers.token_balances@,
                ) {
                    Ok(value) => response == Ok::<_, PlatformErrorView>(
                        QueryResponseView::AllBalances(value),
                    ),
                    Err(error) => response == Err::<QueryResponseView, _>(error),
                },
                QueryMsg::GetConfig => match dao.config {
                    Some(config) => response == Ok::<_, PlatformErrorView>(
                        QueryResponseView::Config(config),
                    ),
                    None => response == Err::<QueryResponseView, _>(not_there(Record::Config)),
                },
                QueryMsg::Cw20TokenList => match dao.treasury_tokens {
                    Some(tokens) => response == Ok::<_, PlatformErrorView>(
                        QueryResponseView::TokenList(tokens),
                    ),
                    None => response == Err::<QueryResponseView, _>(
                        not_there(Record::TreasuryTokens),
                    ),
                },
            }
        }),
{
    if let (Ok(list), Ok(coins)) = (answers.native_balances, native) {
        assert(coins =~= views(list@));
    }
}

/// Before a query, the supply is asked for where a threshold is shown, an address where one is given,
/// and the holdings where they are shown: the native tokens first, then each token in the order of the
/// list. What a voter holds is asked for once the address is known. Nothing else is asked, and every
/// query but that for the holdings can be answered whatever the answers are.
pub proof fn law_what_queries_ask(dao: DaoView, env: Env, msg: QueryMsg, answers: Answers)
    ensures
        ({
            let asked = query_asks(dao, env, msg);
            let contract = env.contract.address@;
            match msg {
                QueryMsg::Threshold if dao.config is Some => {
                    &&& asked.len() == 1
                    &&& asked[0] matches QuestionView::TotalSupply { token }
                    &&& token == dao.config->0.cw20_addr
                },
                QueryMsg::Proposal { .. } if dao.config is Some => {
                    &&& asked.len() == 1
                    &&& asked[0] matches QuestionView::TotalSupply { token }
                    &&& token == dao.config->0.cw20_addr
                },
                QueryMsg::Vote { voter, .. } => {
                    &&& asked.len() == 1
                    &&& asked[0] matches QuestionView::Address { input }
                    &&& input == voter@
                },
                QueryMsg::ListVotes { start_after: Some(start), .. } => {
                    &&& asked.len() == 1
                    &&& asked[0] matches QuestionView::Address { input }
                    &&& input == start@
                },
                QueryMsg::Voter { address } => {
                    &&& asked.len() == 1
                    &&& asked[0] matches QuestionView::Address { input }
                    &&& input == address@
                },
                QueryMsg::AllBalances => {
                    &&& asked.len() == 1 + match dao.treasury_tokens {
                        Some(tokens) => tokens.len() as int,
                        None => 0,
                    }
                    &&& asked[0] matches QuestionView::NativeBalances { holder }
                    &&& holder == contract
                    &&& forall|i: int|
                        1 <= i < asked.len() ==> (#[trigger] asked[i]) == (QuestionView::Balance {
                            token: dao.treasury_tokens->0[i - 1],
                            holder: contract,
                        })
                },
                _ => asked.len() == 0,
            }
        }),
        match (dao.config, text_in(answers.address)) {
            (Some(config), Ok(account)) => voter_ask(dao, text_in(answers.address)) matches Some(
                QuestionView::Balance { token, holder },
            ) && token == config.cw20_addr && holder == account,
            _ => voter_ask(dao, text_in(answers.address)) is None,
        },
        query_in_range(dao, msg, answers) <==> (msg is AllBalances && answers.native_balances is Ok
            && dao.treasury_tokens is Some ==> answers.token_balances@.len()
            == dao.treasury_tokens->0.len()),
{
}

/// Only what a message is about is read: the proposal it names, for a vote the ballot of the sender,
/// for a query the record or the page it asks for.
pub proof fn law_what_is_read(
    info: MessageInfo,
    msg: ExecuteMsg,
    query: QueryMsg,
    answers: Answers,
    i: int,
)
    ensures
        0 <= i < execute_reads(info, msg).len() ==> match (msg, execute_reads(info, msg)[i]) {
            (ExecuteMsg::Vote { proposal_id, .. }, RecordsView::Proposal { id }) => id == proposal_id,
            (
                ExecuteMsg::Vote { proposal_id, .. },
                RecordsView::Ballot { proposal_id: id, voter },
            ) => id == proposal_id && voter == info.sender@,
            (ExecuteMsg::Execute { proposal_id }, RecordsView::Proposal { id }) => id == proposal_id,
            (ExecuteMsg::Close { proposal_id }, RecordsView::Proposal { id }) => id == proposal_id,
            _ => false,
        },
        0 <= i < query_reads(query, answers).len() ==> match (query, query_reads(query, answers)[i]) {
            (QueryMsg::Proposal { proposal_id }, RecordsView::Proposal { id }) => id == proposal_id,
            (
                QueryMsg::Vote { proposal_id, .. },
                RecordsView::Ballot { proposal_id: id, voter },
            ) => id == proposal_id && text_in(answers.address) == Ok::<_, PlatformErrorView>(voter),
            (
                QueryMsg::ListProposals { start_after, limit },
                RecordsView::ProposalsAfter { start, limit: number },
            ) => start == start_after && number == most(limit),
            (
                QueryMsg::ReverseProposals { start_before, limit },
                RecordsView::ProposalsBefore { start, limit: number },
            ) => start == start_before && number == most(limit),
            (
                QueryMsg::ListVotes { proposal_id, start_after, limit },
                RecordsView::BallotsAfter { proposal_id: id, after, limit: number },
            ) => {
                &&& id == proposal_id
                &&& number == most(limit)
                &&& start_after is None ==> after is None
                &&& start_after is Some ==> (after matches Some(account) && text_in(
                    answers.address,
                ) == Ok::<_, PlatformErrorView>(account))
            },
            _ => false,
        },
{
}

} // verus!
