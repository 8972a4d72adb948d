//! What a value says is what it holds, piece by piece.
use crate::contract::{address_of, number_result};
use crate::error::{
    contract_result, std_result, ContractError, ContractErrorView, PlatformError, PlatformErrorView,
};
use crate::msg::{Attribute, Coin, CosmosMsg, CosmosMsgView, Response};
use crate::outside::{Question, QuestionView};
use crate::proposal::{Proposal, ProposalDeposit};
use crate::query::{
    coins_result, plain_result, AllBalancesResponse, ConfigResponse, Cw20CoinVerified,
    ProposalListResponse, ProposalResponse, QueryResponse, QueryResponseView, TokenListResponse,
    VoteInfo, VoteListResponse, VoteResponse, VoterResponse,
};
use crate::records::{Records, RecordsView};
use crate::state::{Config, Dao};
use crate::table::BallotKey;
use crate::token::{messages_result, TokenMsg, TokenMsgView};
use crate::views::{option_view, views};
use vstd::prelude::*;

verus! {

/// A list says what each of its elements says, in the same order.
pub proof fn law_lists_say_what_they_hold<T: View>(items: Seq<T>)
    ensures
        views(items).len() == items.len(),
        forall|i: int| 0 <= i < items.len() ==> #[trigger] views(items)[i] == items[i]@,
{
}

/// What may be missing says what it holds, or that it is missing; a result says what its value or its
/// error says, and success stays success.
pub proof fn law_results_say_what_they_hold<T: View>(
    item: Option<T>,
    value: Result<T, PlatformError>,
    outcome: Result<T, ContractError>,
    plain: Result<T, PlatformError>,
    number: Result<u128, PlatformError>,
    text: Result<String, PlatformError>,
)
    ensures
        match item {
            Some(inner) => option_view(item) == Some(inner@),
            None => option_view(item) is None,
        },
        match value {
            Ok(inner) => std_result(value) == Ok::<T::V, PlatformErrorView>(inner@),
            Err(error) => std_result(value) == Err::<T::V, PlatformErrorView>(error@),
        },
        match outcome {
            Ok(inner) => contract_result(outcome) == Ok::<T::V, ContractErrorView>(inner@),
            Err(error) => contract_result(outcome) == Err::<T::V, ContractErrorView>(error@),
        },
        match plain {
            Ok(inner) => plain_result(plain) == Ok::<T, PlatformErrorView>(inner),
            Err(error) => plain_result(plain) == Err::<T, PlatformErrorView>(error@),
        },
        match number {
            Ok(inner) => number_result(number) == Ok::<u128, PlatformErrorView>(inner),
            Err(error) => number_result(number) == Err::<u128, PlatformErrorView>(error@),
        },
        match text {
            Ok(inner) => address_of(text) == Some(inner@),
            Err(_) => address_of(text) is None,
        },
{
}

/// A result that holds a list says what the elements say, or what the error says.
pub proof fn law_listed_results_say_what_they_hold(
    messages: Result<Vec<CosmosMsg>, PlatformError>,
    coins: Result<Vec<Coin>, PlatformError>,
)
    ensures
        match (messages, messages_result(messages)) {
            (Ok(list), Ok(seen)) => seen.len() == list@.len() && forall|i: int|
                0 <= i < seen.len() ==> #[trigger] seen[i] == list@[i]@,
            (Err(error), Err(seen)) => seen == error@,
            _ => false,
        },
        match (coins, coins_result(coins)) {
            (Ok(list), Ok(seen)) => seen.len() == list@.len() && forall|i: int|
                0 <= i < seen.len() ==> #[trigger] seen[i] == list@[i]@,
            (Err(error), Err(seen)) => seen == error@,
            _ => false,
        },
{
}

/// A question says about which token, account, height or input it asks.
pub proof fn law_questions_say_what_they_hold(question: Question)
    ensures
        match (question, question@) {
            (Question::Address { input }, QuestionView::Address { input: seen }) => seen == input@,
            (
                Question::Balance { token, holder },
                QuestionView::Balance { token: seen, holder: account },
            ) => seen == token@ && account == holder@,
            (
                Question::BalanceAtHeight { token, holder, height },
                QuestionView::BalanceAtHeight { token: seen, holder: account, height: at },
            ) => seen == token@ && account == holder@ && at == height,
            (Question::TotalSupply { token }, QuestionView::TotalSupply { token: seen }) => seen
                == token@,
            (Question::NativeBalances { holder }, QuestionView::NativeBalances { holder: account }) => {
                account == holder@
            },
            _ => false,
        },
{
}

/// A request for records says which records.
pub proof fn law_records_say_what_they_hold(records: Records)
    ensures
        match (records, records@) {
            (Records::Proposal { id }, RecordsView::Proposal { id: seen }) => seen == id,
            (
                Records::Ballot { proposal_id, voter },
                RecordsView::Ballot { proposal_id: seen, voter: account },
            ) => seen == proposal_id && account == voter@,
            (
                Records::ProposalsAfter { start, limit },
                RecordsView::ProposalsAfter { start: seen, limit: most },
            ) => seen == start && most == limit,
            (
                Records::ProposalsBefore { start, limit },
                RecordsView::ProposalsBefore { start: seen, limit: most },
            ) => seen == start && most == limit,
            (
                Records::BallotsAfter { proposal_id, after, limit },
                RecordsView::BallotsAfter { proposal_id: seen, after: account, limit: most },
            ) => {
                &&& seen == proposal_id
                &&& most == limit
                &&& after is Some <==> account is Some
                &&& after matches Some(voter) ==> account == Some(voter@)
            },
            _ => false,
        },
{
}

/// A token message says whose tokens go to whom, and how many. A message for the chain says what is
/// called, with what.
pub proof fn law_outgoing_messages_say_what_they_hold(token: TokenMsg, msg: CosmosMsg)
    ensures
        match (token, token@) {
            (
                TokenMsg::Transfer { recipient, amount },
                TokenMsgView::Transfer { recipient: to, amount: sum },
            ) => to == recipient@ && sum == amount,
            (
                TokenMsg::TransferFrom { owner, recipient, amount },
                TokenMsgView::TransferFrom { owner: from, recipient: to, amount: sum },
            ) => from == owner@ && to == recipient@ && sum == amount,
            _ => false,
        },
        match (msg, msg@) {
            (
                CosmosMsg::WasmExecute { contract_addr, msg: bytes, funds },
                CosmosMsgView::WasmExecute { contract_addr: called, msg: sent, funds: coins },
            ) => {
                &&& called == contract_addr@
                &&& sent == bytes@
                &&& coins.len() == funds@.len()
                &&& forall|i: int|
                    0 <= i < coins.len() ==> (#[trigger] coins[i]).denom == funds@[i].denom@
                        && coins[i].amount == funds@[i].amount
            },
            (CosmosMsg::Other { json }, CosmosMsgView::Other { json: sent }) => sent == json@,
            _ => false,
        },
{
}

/// A response says which messages go out and which notes are attached, in their order.
pub proof fn law_responses_say_what_they_hold(response: Response, note: Attribute, coin: Coin)
    ensures
        response@.messages.len() == response.messages@.len(),
        forall|i: int|
            0 <= i < response.messages@.len() ==> #[trigger] response@.messages[i]
                == response.messages@[i]@,
        response@.attributes.len() == response.attributes@.len(),
        forall|i: int|
            0 <= i < response.attributes@.len() ==> #[trigger] response@.attributes[i]
                == response.attributes@[i]@,
        note@.key == note.key@,
        note@.value == note.value@,
        coin@.denom == coin.denom@,
        coin@.amount == coin.amount,
{
}

/// Each error says what it is and nothing else.
pub proof fn law_errors_say_what_they_are(platform: PlatformError, error: ContractError)
    ensures
        match (platform, platform@) {
            (
                PlatformError::NotFound { record },
                PlatformErrorView::NotFound { record: seen },
            ) => seen == record,
            (PlatformError::GenericErr { msg }, PlatformErrorView::GenericErr { msg: seen }) => seen
                == msg@,
            (PlatformError::Outside(inner), PlatformErrorView::Outside(seen)) => seen == inner,
            _ => false,
        },
        match (error, error@) {
            (ContractError::Std(inner), ContractErrorView::Std(seen)) => seen == inner@,
            (ContractError::Unauthorized, ContractErrorView::Unauthorized) => true,
            (ContractError::ZeroThreshold, ContractErrorView::ZeroThreshold) => true,
            (ContractError::UnreachableThreshold, ContractErrorView::UnreachableThreshold) => true,
            (ContractError::WrongExpiration, ContractErrorView::WrongExpiration) => true,
            (ContractError::NotOpen, ContractErrorView::NotOpen) => true,
            (ContractError::Expired, ContractErrorView::Expired) => true,
            (ContractError::NotExpired, ContractErrorView::NotExpired) => true,
            (ContractError::AlreadyVoted, ContractErrorView::AlreadyVoted) => true,
            (ContractError::WrongExecuteStatus, ContractErrorView::WrongExecuteStatus) => true,
            (ContractError::WrongCloseStatus, ContractErrorView::WrongCloseStatus) => true,
            (ContractError::InvalidCw20 { addr }, ContractErrorView::InvalidCw20 { addr: seen }) => {
                seen == addr@
            },
            _ => false,
        },
{
}

/// A proposal and its deposit say all that they hold.
pub proof fn law_proposals_say_what_they_hold(proposal: Proposal, deposit: ProposalDeposit)
    ensures
        proposal@.title == proposal.title@,
        proposal@.description == proposal.description@,
        proposal@.proposer == proposal.proposer@,
        proposal@.start_height == proposal.start_height,
        proposal@.expires == proposal.expires,
        proposal@.msgs.len() == proposal.msgs@.len(),
        forall|i: int|
            0 <= i < proposal.msgs@.len() ==> #[trigger] proposal@.msgs[i] == proposal.msgs@[i]@,
        proposal@.status == proposal.status,
        proposal@.votes == proposal.votes,
        proposal@.threshold == proposal.threshold,
        proposal@.total_weight == proposal.total_weight,
        proposal@.deposit == proposal.deposit@,
        deposit@.amount == deposit.amount,
        deposit@.token_address == deposit.token_address@,
{
}

/// The rules and the state say all that they hold.
pub proof fn law_state_says_what_it_holds(config: Config, dao: Dao, key: BallotKey)
    ensures
        config@.threshold == config.threshold,
        config@.max_voting_period == config.max_voting_period,
        config@.cw20_addr == config.cw20_addr@,
        config@.proposal_deposit.amount == config.proposal_deposit.amount,
        config@.proposal_deposit.token_address == config.proposal_deposit.token_address@,
        key@.0 == key.proposal_id,
        key@.1 == key.voter@,
        dao@.proposal_count == dao.proposal_count,
        dao@.proposals == dao.proposals@,
        dao@.ballots == dao.ballots@,
        match dao.config {
            Some(rules) => dao@.config == Some(rules@),
            None => dao@.config is None,
        },
        match dao.version {
            Some(version) => dao@.version matches Some(seen) && seen.contract == version.contract@
                && seen.version == version.version@,
            None => dao@.version is None,
        },
        match dao.treasury_tokens {
            Some(tokens) => dao@.treasury_tokens matches Some(seen) && seen.len() == tokens@.len()
                && forall|i: int| 0 <= i < seen.len() ==> #[trigger] seen[i] == tokens@[i]@,
            None => dao@.treasury_tokens is None,
        },
{
}

/// What is shown says all that it holds.
pub proof fn law_answers_say_what_they_hold(
    proposal: ProposalResponse,
    proposals: ProposalListResponse,
    vote: VoteInfo,
    votes: VoteListResponse,
    found: VoteResponse,
    voter: VoterResponse,
    rules: ConfigResponse,
    tokens: TokenListResponse,
    coin: Cw20CoinVerified,
    holdings: AllBalancesResponse,
)
    ensures
        proposal@.id == proposal.id,
        proposal@.title == proposal.title@,
        proposal@.description == proposal.description@,
        proposal@.proposer == proposal.proposer@,
        proposal@.msgs.len() == proposal.msgs@.len(),
        forall|i: int|
            0 <= i < proposal.msgs@.len() ==> #[trigger] proposal@.msgs[i] == proposal.msgs@[i]@,
        proposal@.status == proposal.status,
        proposal@.expires == proposal.expires,
        proposal@.threshold == proposal.threshold,
        proposal@.deposit_amount == proposal.deposit_amount,
        proposal@.deposit_token_address == proposal.deposit_token_address@,
        proposals@.len() == proposals.proposals@.len(),
        forall|i: int|
            0 <= i < proposals@.len() ==> #[trigger] proposals@[i] == proposals.proposals@[i]@,
        vote@.voter == vote.voter@,
        vote@.vote == vote.vote,
        vote@.weight == vote.weight,
        votes@.len() == votes.votes@.len(),
        forall|i: int| 0 <= i < votes@.len() ==> #[trigger] votes@[i] == votes.votes@[i]@,
        match found.vote {
            Some(cast) => found@ == Some(cast@),
            None => found@ is None,
        },
        voter@ == voter.weight,
        rules@ == rules.config@,
        tokens@.len() == tokens.token_list@.len(),
        forall|i: int| 0 <= i < tokens@.len() ==> #[trigger] tokens@[i] == tokens.token_list@[i]@,
        coin@.address == coin.address@,
        coin@.amount == coin.amount,
        holdings@.native.len() == holdings.native@.len(),
        forall|i: int|
            0 <= i < holdings@.native.len() ==> #[trigger] holdings@.native[i]
                == holdings.native@[i]@,
        holdings@.cw20.len() == holdings.cw20@.len(),
        forall|i: int|
            0 <= i < holdings@.cw20.len() ==> #[trigger] holdings@.cw20[i] == holdings.cw20@[i]@,
{
}

/// The answer to a query says what it holds, in its own variant.
pub proof fn law_query_answers_say_what_they_hold(answer: QueryResponse)
    ensures
        match (answer, answer@) {
            (QueryResponse::Threshold(inner), QueryResponseView::Threshold(seen)) => seen == inner,
            (QueryResponse::Proposal(inner), QueryResponseView::Proposal(seen)) => seen == inner@,
            (QueryResponse::Vote(inner), QueryResponseView::Vote(seen)) => seen == inner@,
            (QueryResponse::Proposals(inner), QueryResponseView::Proposals(seen)) => seen == inner@,
            (QueryResponse::Votes(inner), QueryResponseView::Votes(seen)) => seen == inner@,
            (QueryResponse::Voter(inner), QueryResponseView::Voter(seen)) => seen == inner@,
            (QueryResponse::AllBalances(inner), QueryResponseView::AllBalances(seen)) => seen
                == inner@,
            (QueryResponse::Config(inner), QueryResponseView::Config(seen)) => seen == inner@,
            (QueryResponse::TokenList(inner), QueryResponseView::TokenList(seen)) => seen == inner@,
            _ => false,
        },
{
}

} // verus!
