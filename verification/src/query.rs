//! The messages that read the state.
use crate::contract::{
    get_balance, get_total_supply, number_result, supply_or_missing, weight_or_missing,
};
use crate::error::{std_result, PlatformError, PlatformErrorView};
use crate::expiration::{BlockInfo, Expiration};
use crate::msg::{Coin, CoinView, CosmosMsg, CosmosMsgView, Env, QueryMsg};
use crate::order::{is_page, text_before};
use crate::outside::{Answers, Question, QuestionView};
use crate::proposal::{Proposal, ProposalView, Status, Vote};
use crate::state::{id_key, parse_id, parsed_id, Config, ConfigView, Dao, DaoView};
use crate::table::{BallotKey, Key, Table};
use crate::threshold::ThresholdResponse;
use crate::views::{lemma_views_push, option_view, views};
use vstd::prelude::*;
use vstd::utf8::encode_utf8;

verus! {

/// The most that one page holds.
pub const MAX_LIMIT: u32 = 30;

/// What a page holds if nothing is said.
pub const DEFAULT_LIMIT: u32 = 10;

/// A proposal as it is shown.
#[derive(Debug, PartialEq, Eq)]
pub struct ProposalResponse {
    pub id: u64,
    pub title: String,
    pub description: String,
    pub proposer: String,
    pub msgs: Vec<CosmosMsg>,
    pub status: Status,
    pub expires: Expiration,
    pub threshold: ThresholdResponse,
    pub deposit_amount: u128,
    pub deposit_token_address: String,
}

/// What a `ProposalResponse` says.
#[verifier::ext_equal]
pub struct ProposalResponseView {
    pub id: u64,
    pub title: Seq<char>,
    pub description: Seq<char>,
    pub proposer: Seq<char>,
    pub msgs: Seq<CosmosMsgView>,
    pub status: Status,
    pub expires: Expiration,
    pub threshold: ThresholdResponse,
    pub deposit_amount: u128,
    pub deposit_token_address: Seq<char>,
}

impl View for ProposalResponse {
    type V = ProposalResponseView;

    open spec fn view(&self) -> ProposalResponseView {
        ProposalResponseView {
            id: self.id,
            title: self.title@,
            description: self.description@,
            proposer: self.proposer@,
            msgs: views(self.msgs@),
            status: self.status,
            expires: self.expires,
            threshold: self.threshold,
            deposit_amount: self.deposit_amount,
            deposit_token_address: self.deposit_token_address@,
        }
    }
}

/// Some of the proposals.
#[derive(Debug, PartialEq, Eq)]
pub struct ProposalListResponse {
    pub proposals: Vec<ProposalResponse>,
}

impl View for ProposalListResponse {
    type V = Seq<ProposalResponseView>;

    open spec fn view(&self) -> Seq<ProposalResponseView> {
        views(self.proposals@)
    }
}

/// A vote as it is shown.
#[derive(Debug, PartialEq, Eq)]
pub struct VoteInfo {
    pub voter: String,
    pub vote: Vote,
    pub weight: u128,
}

/// What a `VoteInfo` says.
pub struct VoteInfoView {
    pub voter: Seq<char>,
    pub vote: Vote,
    pub weight: u128,
}

impl View for VoteInfo {
    type V = VoteInfoView;

    open spec fn view(&self) -> VoteInfoView {
        VoteInfoView { voter: self.voter@, vote: self.vote, weight: self.weight }
    }
}

/// The vote of one account, if it has voted.
#[derive(Debug, PartialEq, Eq)]
pub struct VoteResponse {
    pub vote: Option<VoteInfo>,
}

impl View for VoteResponse {
    type V = Option<VoteInfoView>;

    open spec fn view(&self) -> Option<VoteInfoView> {
        option_view(self.vote)
    }
}

/// Some of the votes on a proposal.
#[derive(Debug, PartialEq, Eq)]
pub struct VoteListResponse {
    pub votes: Vec<VoteInfo>,
}

impl View for VoteListResponse {
    type V = Seq<VoteInfoView>;

    open spec fn view(&self) -> Seq<VoteInfoView> {
        views(self.votes@)
    }
}

/// What an account can put behind a vote.
#[derive(Debug, PartialEq, Eq)]
pub struct VoterResponse {
    pub weight: Option<u128>,
}

impl View for VoterResponse {
    type V = Option<u128>;

    open spec fn view(&self) -> Option<u128> {
        self.weight
    }
}

/// The rules.
#[derive(Debug, PartialEq, Eq)]
pub struct ConfigResponse {
    pub config: Config,
}

impl View for ConfigResponse {
    type V = ConfigView;

    open spec fn view(&self) -> ConfigView {
        self.config@
    }
}

/// The tokens the contract may hold.
#[derive(Debug, PartialEq, Eq)]
pub struct TokenListResponse {
    pub token_list: Vec<String>,
}

impl View for TokenListResponse {
    type V = Seq<Seq<char>>;

    open spec fn view(&self) -> Seq<Seq<char>> {
        views(self.token_list@)
    }
}

/// An amount of a token.
#[derive(Debug, PartialEq, Eq)]
pub struct Cw20CoinVerified {
    pub address: String,
    pub amount: u128,
}

/// What a `Cw20CoinVerified` says.
pub struct Cw20CoinVerifiedView {
    pub address: Seq<char>,
    pub amount: u128,
}

impl View for Cw20CoinVerified {
    type V = Cw20CoinVerifiedView;

    open spec fn view(&self) -> Cw20CoinVerifiedView {
        Cw20CoinVerifiedView { address: self.address@, amount: self.amount }
    }
}

/// What the contract holds.
#[derive(Debug, PartialEq, Eq)]
pub struct AllBalancesResponse {
    pub native: Vec<Coin>,
    pub cw20: Vec<Cw20CoinVerified>,
}

/// What an `AllBalancesResponse` says.
#[verifier::ext_equal]
pub struct AllBalancesView {
    pub native: Seq<CoinView>,
    pub cw20: Seq<Cw20CoinVerifiedView>,
}

impl View for AllBalancesResponse {
    type V = AllBalancesView;

    open spec fn view(&self) -> AllBalancesView {
        AllBalancesView { native: views(self.native@), cw20: views(self.cw20@) }
    }
}

/// The answer to a query.
#[derive(Debug, PartialEq, Eq)]
pub enum QueryResponse {
    Threshold(ThresholdResponse),
    Proposal(ProposalResponse),
    Vote(VoteResponse),
    Proposals(ProposalListResponse),
    Votes(VoteListResponse),
    Voter(VoterResponse),
    AllBalances(AllBalancesResponse),
    Config(ConfigResponse),
    TokenList(TokenListResponse),
}

/// What a `QueryResponse` says.
#[verifier::ext_equal]
pub enum QueryResponseView {
    Threshold(ThresholdResponse),
    Proposal(ProposalResponseView),
    Vote(Option<VoteInfoView>),
    Proposals(Seq<ProposalResponseView>),
    Votes(Seq<VoteInfoView>),
    Voter(Option<u128>),
    AllBalances(AllBalancesView),
    Config(ConfigView),
    TokenList(Seq<Seq<char>>),
}

impl View for QueryResponse {
    type V = QueryResponseView;

    open spec fn view(&self) -> QueryResponseView {
        match *self {
            QueryResponse::Threshold(response) => QueryResponseView::Threshold(response),
            QueryResponse::Proposal(response) => QueryResponseView::Proposal(response@),
            QueryResponse::Vote(response) => QueryResponseView::Vote(response@),
            QueryResponse::Proposals(response) => QueryResponseView::Proposals(response@),
            QueryResponse::Votes(response) => QueryResponseView::Votes(response@),
            QueryResponse::Voter(response) => QueryResponseView::Voter(response@),
            QueryResponse::AllBalances(response) => QueryResponseView::AllBalances(response@),
            QueryResponse::Config(response) => QueryResponseView::Config(response@),
            QueryResponse::TokenList(response) => QueryResponseView::TokenList(response@),
        }
    }
}

// ---------------------------------------------------------------------------------------------
// Single records
// ---------------------------------------------------------------------------------------------

/// What `query_threshold` returns: the rule for new proposals, with the supply of the token.
pub open spec fn threshold_result(dao: DaoView, total_supply: Result<u128, PlatformErrorView>) -> Result<
    ThresholdResponse,
    PlatformErrorView,
> {
    match supply_or_missing(dao, total_supply) {
        Ok(supply) => Ok(dao.config->0.threshold.response(supply)),
        Err(error) => Err(error),
    }
}

/// The view of a result that has no view of its own.
pub open spec fn plain_result<T>(result: Result<T, PlatformError>) -> Result<T, PlatformErrorView> {
    match result {
        Ok(value) => Ok(value),
        Err(error) => Err(error@),
    }
}

/// The rule for new proposals. `total_supply` is how much there is of the voting token.
pub fn query_threshold(dao: &Dao, total_supply: Result<u128, PlatformError>) -> (response: Result<
    ThresholdResponse,
    PlatformError,
>)
    ensures
        plain_result(response) == threshold_result(dao@, number_result(total_supply)),
{
    let cfg = match dao.load_config() {
        Ok(config) => config,
        Err(error) => return Err(error),
    };
    match get_total_supply(dao, total_supply) {
        Ok(supply) => Ok(cfg.threshold.to_response(supply)),
        Err(error) => Err(error),
    }
}

/// A proposal as it is shown in `block`, its threshold held against `total_weight`.
pub open spec fn shown_proposal(
    id: u64,
    proposal: ProposalView,
    block: BlockInfo,
    total_weight: u128,
) -> ProposalResponseView {
    ProposalResponseView {
        id,
        title: proposal.title,
        description: proposal.description,
        proposer: proposal.proposer,
        msgs: proposal.msgs,
        status: proposal.status_at(block),
        expires: proposal.expires,
        threshold: proposal.threshold.response(total_weight),
        deposit_amount: proposal.deposit.amount,
        deposit_token_address: proposal.deposit.token_address,
    }
}

/// Shows a proposal.
fn show_proposal(id: u64, prop: Proposal, block: &BlockInfo, total_weight: u128) -> (response:
    ProposalResponse)
    requires
        prop@.wf(),
    ensures
        response@ == shown_proposal(id, prop@, *block, total_weight),
{
    let status = prop.current_status(block);
    let threshold = prop.threshold.to_response(total_weight);
    ProposalResponse {
        id,
        title: prop.title,
        description: prop.description,
        proposer: prop.proposer,
        msgs: prop.msgs,
        status,
        expires: prop.expires,
        threshold,
        deposit_amount: prop.deposit.amount,
        deposit_token_address: prop.deposit.token_address,
    }
}

/// What `query_proposal` returns: the proposal, its threshold held against the supply of the token
/// as it is now.
pub open spec fn proposal_result(
    dao: DaoView,
    block: BlockInfo,
    id: u64,
    total_supply: Result<u128, PlatformErrorView>,
) -> Result<ProposalResponseView, PlatformErrorView> {
    match dao.proposal_or_missing(id) {
        Err(error) => Err(error),
        Ok(proposal) => match supply_or_missing(dao, total_supply) {
            Err(error) => Err(error),
            Ok(supply) => Ok(shown_proposal(id, proposal, block, supply)),
        },
    }
}

/// One proposal. `total_supply` is how much there is of the voting token.
pub fn query_proposal(dao: &Dao, env: &Env, id: u64, total_supply: Result<u128, PlatformError>) -> (response:
    Result<ProposalResponse, PlatformError>)
    requires
        dao.wf(),
    ensures
        std_result(response) == proposal_result(dao@, env.block, id, number_result(total_supply)),
{
    let prop = match dao.load_proposal(id) {
        Ok(proposal) => proposal,
        Err(error) => return Err(error),
    };
    match get_total_supply(dao, total_supply) {
        Ok(supply) => Ok(show_proposal(id, prop, &env.block, supply)),
        Err(error) => Err(error),
    }
}

/// The rules.
pub fn query_config(dao: &Dao) -> (response: Result<ConfigResponse, PlatformError>)
    ensures
        std_result(response) == dao@.config_or_missing(),
{
    match dao.load_config() {
        Ok(config) => Ok(ConfigResponse { config }),
        Err(error) => Err(error),
    }
}

/// The tokens the contract may hold.
pub fn query_cw20_token_list(dao: &Dao) -> (response: Result<TokenListResponse, PlatformError>)
    ensures
        std_result(response) == dao@.tokens_or_missing(),
{
    match dao.load_treasury_tokens() {
        Ok(token_list) => Ok(TokenListResponse { token_list }),
        Err(error) => Err(error),
    }
}

/// What `query_vote` returns: the ballot under the address that the chain made of `voter`, shown
/// under `voter` as it was given.
pub open spec fn vote_query_result(
    dao: DaoView,
    proposal_id: u64,
    voter: Seq<char>,
    address: Result<Seq<char>, PlatformErrorView>,
) -> Result<Option<VoteInfoView>, PlatformErrorView> {
    match address {
        Err(error) => Err(error),
        Ok(account) => if dao.ballots.dom().contains((proposal_id, account)) {
            let ballot = dao.ballots[(proposal_id, account)];
            Ok(Some(VoteInfoView { voter, vote: ballot.vote, weight: ballot.weight }))
        } else {
            Ok(None)
        },
    }
}

/// The vote of one account. `address` is what the chain made of `voter`.
pub fn query_vote(
    dao: &Dao,
    proposal_id: u64,
    voter: String,
    address: Result<String, PlatformError>,
) -> (response: Result<VoteResponse, PlatformError>)
    requires
        dao.wf(),
    ensures
        std_result(response) == vote_query_result(dao@, proposal_id, voter@, std_result(address)),
{
    let voter_addr = match address {
        Ok(address) => address,
        Err(error) => return Err(error),
    };
    let key = BallotKey { proposal_id, voter: voter_addr };
    let vote = match dao.ballots.get(&key) {
        Some(ballot) => Some(VoteInfo { voter, vote: ballot.vote, weight: ballot.weight }),
        None => None,
    };
    Ok(VoteResponse { vote })
}

/// What `query_voter` returns: what the account holds of the voting token, if it is one.
pub open spec fn voter_result(
    dao: DaoView,
    address: Result<Seq<char>, PlatformErrorView>,
    balance: Option<u128>,
) -> Result<Option<u128>, PlatformErrorView> {
    match address {
        Err(error) => Err(error),
        Ok(_) => match weight_or_missing(dao, balance) {
            Err(error) => Err(error),
            Ok(weight) => Ok(Some(weight)),
        },
    }
}

/// What an account can put behind a vote. `address` is what the chain made of the account's
/// address, and `balance` what the account holds of the voting token.
pub fn query_voter(dao: &Dao, address: Result<String, PlatformError>, balance: Option<u128>) -> (response:
    Result<VoterResponse, PlatformError>)
    ensures
        std_result(response) == voter_result(dao@, std_result(address), balance),
{
    match address {
        Ok(_) => {},
        Err(error) => return Err(error),
    }
    match get_balance(dao, balance) {
        Ok(weight) => Ok(VoterResponse { weight: Some(weight) }),
        Err(error) => Err(error),
    }
}

/// The view of a list of coins, or of the error in its place.
pub open spec fn coins_result(coins: Result<Vec<Coin>, PlatformError>) -> Result<
    Seq<CoinView>,
    PlatformErrorView,
> {
    match coins {
        Ok(list) => Ok(views(list@)),
        Err(error) => Err(error@),
    }
}

/// What `query_all_balances` returns: the native tokens, and the amount of each token in the list.
pub open spec fn all_balances_result(
    dao: DaoView,
    native: Result<Seq<CoinView>, PlatformErrorView>,
    token_balances: Seq<u128>,
) -> Result<AllBalancesView, PlatformErrorView> {
    match native {
        Err(error) => Err(error),
        Ok(coins) => match dao.tokens_or_missing() {
            Err(error) => Err(error),
            Ok(tokens) => Ok(
                AllBalancesView {
                    native: coins,
                    cw20: Seq::new(
                        tokens.len(),
                        |i: int|
                            Cw20CoinVerifiedView { address: tokens[i], amount: token_balances[i] },
                    ),
                },
            ),
        },
    }
}

/// What `query_all_balances` asks for: a balance for each token in the list.
pub open spec fn all_balances_in_range(
    dao: DaoView,
    native: Result<Seq<CoinView>, PlatformErrorView>,
    token_balances: Seq<u128>,
) -> bool {
    native is Ok ==> (dao.treasury_tokens matches Some(tokens) ==> token_balances.len()
        == tokens.len())
}

/// What the contract holds. `native` are its native tokens, and `token_balances` what it holds of
/// each token in its list, in the order of the list.
pub fn query_all_balances(
    dao: &Dao,
    native: Result<Vec<Coin>, PlatformError>,
    token_balances: &Vec<u128>,
) -> (response: Result<AllBalancesResponse, PlatformError>)
    requires
        all_balances_in_range(dao@, coins_result(native), token_balances@),
    ensures
        std_result(response) == all_balances_result(dao@, coins_result(native), token_balances@),
{
    let native_balances = match native {
        Ok(coins) => coins,
        Err(error) => return Err(error),
    };
    let tokens = match dao.load_treasury_tokens() {
        Ok(tokens) => tokens,
        Err(error) => return Err(error),
    };
    let mut cw20_balances: Vec<Cw20CoinVerified> = Vec::new();
    let mut i: usize = 0;
    while i < tokens.len()
        invariant
            i <= tokens.len(),
            tokens.len() == token_balances.len(),
            cw20_balances.len() == i,
            forall|j: int|
                0 <= j < i ==> (#[trigger] cw20_balances[j])@ == (Cw20CoinVerifiedView {
                    address: tokens[j]@,
                    amount: token_balances[j],
                }),
        decreases tokens.len() - i,
    {
        cw20_balances.push(
            Cw20CoinVerified { address: tokens[i].clone(), amount: token_balances[i] },
        );
        i += 1;
    }
    let response = AllBalancesResponse { native: native_balances, cw20: cw20_balances };
    proof {
        let expected = all_balances_result(dao@, coins_result(native), token_balances@)->Ok_0;
        assert(response@.cw20 =~= expected.cw20);
    }
    Ok(response)
}

// ---------------------------------------------------------------------------------------------
// Pages
// ---------------------------------------------------------------------------------------------

/// How many records a page holds at most.
pub open spec fn page_limit(limit: Option<u32>) -> nat {
    let wanted = match limit {
        Some(number) => number as nat,
        None => DEFAULT_LIMIT as nat,
    };
    if wanted < MAX_LIMIT {
        wanted
    } else {
        MAX_LIMIT as nat
    }
}

/// How many records a page holds at most.
pub fn page_size(limit: Option<u32>) -> (size: usize)
    ensures
        size == page_limit(limit),
{
    let wanted: u32 = limit.unwrap_or(DEFAULT_LIMIT);
    if wanted < MAX_LIMIT {
        wanted as usize
    } else {
        MAX_LIMIT as usize
    }
}

/// What `map_proposal` returns: the error of a failed read; else the proposal under the identifier
/// in its key, its threshold held against its own total weight.
pub open spec fn mapped_proposal(
    block: BlockInfo,
    item: Result<(Vec<u8>, Proposal), PlatformError>,
) -> Result<ProposalResponseView, PlatformErrorView> {
    match item {
        Err(error) => Err(error@),
        Ok((key, prop)) => match parsed_id(key@) {
            Err(error) => Err(error),
            Ok(id) => Ok(shown_proposal(id as u64, prop@, block, prop@.total_weight)),
        },
    }
}

/// A proposal as it is shown in a list, from a read of its key and its record.
pub fn map_proposal(block: &BlockInfo, item: Result<(Vec<u8>, Proposal), PlatformError>) -> (response:
    Result<ProposalResponse, PlatformError>)
    requires
        item matches Ok((_, prop)) ==> prop@.wf(),
    ensures
        std_result(response) == mapped_proposal(*block, item),
{
    let (key, prop) = match item {
        Ok(read) => read,
        Err(error) => return Err(error),
    };
    let total_weight: u128 = prop.total_weight;
    match parse_id(&key) {
        Ok(id) => Ok(show_proposal(id, prop, block, total_weight)),
        Err(error) => Err(error),
    }
}

/// The identifiers of the proposals that are shown, in order.
pub open spec fn shown_ids(page: Seq<ProposalResponseView>) -> Seq<u64> {
    Seq::new(page.len(), |i: int| page[i].id)
}

/// Each proposal on the page is one of the state, as it stands in `block`.
pub open spec fn shows_proposals(
    dao: DaoView,
    block: BlockInfo,
    page: Seq<ProposalResponseView>,
) -> bool {
    forall|i: int|
        0 <= i < page.len() ==> #[trigger] page[i] == shown_proposal(
            page[i].id,
            dao.proposals[page[i].id],
            block,
            dao.proposals[page[i].id].total_weight,
        )
}

/// The order of identifiers, from the first proposal on.
pub open spec fn ascending() -> spec_fn(u64, u64) -> bool {
    |a: u64, b: u64| a < b
}

/// The order of identifiers, from the last proposal back.
pub open spec fn descending() -> spec_fn(u64, u64) -> bool {
    |a: u64, b: u64| a > b
}

/// The identifiers after a given one; all without one.
pub open spec fn ids_after(start_after: Option<u64>) -> spec_fn(u64) -> bool {
    |id: u64| start_after matches Some(start) ==> id > start
}

/// The identifiers before a given one; all without one.
pub open spec fn ids_before(start_before: Option<u64>) -> spec_fn(u64) -> bool {
    |id: u64| start_before matches Some(end) ==> id < end
}

/// The page that `list_proposals` returns: the proposals that come first after `start_after`.
pub open spec fn is_proposal_page(
    dao: DaoView,
    block: BlockInfo,
    start_after: Option<u64>,
    limit: Option<u32>,
    page: Seq<ProposalResponseView>,
) -> bool {
    &&& is_page(
        dao.proposals.dom(),
        ascending(),
        ids_after(start_after),
        page_limit(limit),
        shown_ids(page),
    )
    &&& shows_proposals(dao, block, page)
}

/// The page that `reverse_proposals` returns: the proposals that come last before `start_before`,
/// the last one first.
pub open spec fn is_reverse_proposal_page(
    dao: DaoView,
    block: BlockInfo,
    start_before: Option<u64>,
    limit: Option<u32>,
    page: Seq<ProposalResponseView>,
) -> bool {
    &&& is_page(
        dao.proposals.dom(),
        descending(),
        ids_before(start_before),
        page_limit(limit),
        shown_ids(page),
    )
    &&& shows_proposals(dao, block, page)
}

/// The row that comes `i` rows after the first, or before it.
spec fn walk(back: bool, first: int, i: int) -> int {
    if back {
        first - i
    } else {
        first + i
    }
}

/// The proposals in the rows from `first` on, or from `first` back, are shown on the page.
spec fn shows_rows(
    entries: Seq<(u64, ProposalView)>,
    back: bool,
    first: int,
    block: BlockInfo,
    page: Seq<ProposalResponseView>,
) -> bool {
    forall|i: int|
        0 <= i < page.len() ==> 0 <= walk(back, first, i) < entries.len() && (#[trigger] page[i])
            == shown_proposal(
            entries[walk(back, first, i)].0,
            entries[walk(back, first, i)].1,
            block,
            entries[walk(back, first, i)].1.total_weight,
        )
}

/// The identifiers up from `start`, or down from it, as `back` says.
spec fn walk_admits(back: bool, start: Option<u64>) -> spec_fn(u64) -> bool {
    if back {
        ids_before(start)
    } else {
        ids_after(start)
    }
}

/// The order of identifiers up, or down, as `back` says.
spec fn walk_order(back: bool) -> spec_fn(u64, u64) -> bool {
    if back {
        descending()
    } else {
        ascending()
    }
}

/// Rows shown one after the other, from the first that is let through until the page is full or
/// there are no more, are a page.
proof fn lemma_rows_are_a_page(
    table: Table<u64, Proposal>,
    back: bool,
    first: int,
    start: Option<u64>,
    block: BlockInfo,
    limit: nat,
    page: Seq<ProposalResponseView>,
)
    requires
        table.wf(),
        shows_rows(table.entries(), back, first, block, page),
        forall|row: int|
            0 <= row < table.entries().len() ==> walk_admits(back, start)(
                (#[trigger] table.entries()[row]).0,
            ) == (if back {
                row <= first
            } else {
                row >= first
            }),
        page.len() <= limit,
        page.len() == limit || !(0 <= walk(back, first, page.len() as int) < table.entries().len()),
        back ==> first < table.entries().len(),
        !back ==> first >= 0,
    ensures
        is_page(table@.dom(), walk_order(back), walk_admits(back, start), limit, shown_ids(page)),
        forall|i: int|
            0 <= i < page.len() ==> #[trigger] page[i] == shown_proposal(
                page[i].id,
                table@[page[i].id],
                block,
                table@[page[i].id].total_weight,
            ),
{
    let entries = table.entries();
    let ids = shown_ids(page);
    let n = page.len() as int;
    let before = walk_order(back);
    let admits = walk_admits(back, start);
    assert forall|i: int| 0 <= i < n implies #[trigger] ids[i] == entries[walk(back, first, i)].0
        && page[i].id == ids[i] && table@.dom().contains(ids[i]) && table@[ids[i]]
        == entries[walk(back, first, i)].1 && admits(ids[i]) by {
        let row = walk(back, first, i);
        assert(page[i].id == entries[row].0);
        assert(table.holds(ids[i], row));
        table.lemma_one_row(ids[i], row);
    }
    assert forall|i: int| 0 <= i < n implies #[trigger] page[i] == shown_proposal(
        page[i].id,
        table@[page[i].id],
        block,
        table@[page[i].id].total_weight,
    ) by {
        assert(ids[i] == page[i].id);
    }
    assert forall|i: int, j: int| 0 <= i < j < n implies before(ids[i], ids[j]) by {
        let (left, right) = (walk(back, first, i), walk(back, first, j));
        assert(page[i].id == entries[left].0);
        assert(page[j].id == entries[right].0);
        if back {
            assert(u64::before(entries[right].0, entries[left].0));
        } else {
            assert(u64::before(entries[left].0, entries[right].0));
        }
    }
    assert forall|k: u64| #[trigger]
        table@.dom().contains(k) && admits(k) && !ids.contains(k) implies n == limit && (
    forall|i: int| 0 <= i < n ==> before(#[trigger] ids[i], k)) by {
        let at = choose|at: int| table.holds(k, at);
        let i = if back {
            first - at
        } else {
            at - first
        };
        assert(admits(entries[at].0));
        if i < n {
            assert(ids[i] == k);
            assert(ids.contains(k));
        }
        assert(n == limit);
        assert forall|j: int| 0 <= j < n implies before(#[trigger] ids[j], k) by {
            let row = walk(back, first, j);
            assert(page[j].id == entries[row].0);
            if back {
                assert(u64::before(entries[at].0, entries[row].0));
            } else {
                assert(u64::before(entries[row].0, entries[at].0));
            }
        }
    }
}

/// The proposal in a row, read with its key.
fn read_row(dao: &Dao, row: usize) -> (item: Result<(Vec<u8>, Proposal), PlatformError>)
    requires
        dao.wf(),
        row < dao.proposals.entries().len(),
    ensures
        item matches Ok((key, prop)) && parsed_id(key@) == Ok::<nat, PlatformErrorView>(
            dao.proposals.entries()[row as int].0 as nat,
        ) && prop@ == dao.proposals.entries()[row as int].1 && prop@.wf(),
{
    proof {
        let id = dao.proposals.entries()[row as int].0;
        assert(dao.proposals.holds(id, row as int));
        dao.proposals.lemma_one_row(id, row as int);
        assert(dao@.proposals.dom().contains(id));
    }
    Ok((id_key(*dao.proposals.key_at(row)), dao.proposals.record_at(row).clone()))
}

/// A page of proposals, in the order in which they were made.
pub fn list_proposals(dao: &Dao, env: &Env, start_after: Option<u64>, limit: Option<u32>) -> (response:
    Result<ProposalListResponse, PlatformError>)
    requires
        dao.wf(),
    ensures
        response matches Ok(list) && is_proposal_page(dao@, env.block, start_after, limit, list@),
{
    let size: usize = page_size(limit);
    let first: usize = match start_after {
        Some(start) => dao.proposals.first_after(&start),
        None => 0,
    };
    let mut proposals: Vec<ProposalResponse> = Vec::new();
    let mut row: usize = first;
    while row < dao.proposals.len() && proposals.len() < size
        invariant
            dao.wf(),
            first <= row <= dao.proposals.entries().len(),
            proposals.len() == row - first,
            proposals.len() <= size,
            shows_rows(
                dao.proposals.entries(),
                false,
                first as int,
                env.block,
                views(proposals@),
            ),
        decreases dao.proposals.entries().len() - row,
    {
        let ghost so_far = proposals@;
        match map_proposal(&env.block, read_row(dao, row)) {
            Ok(response) => {
                proof {
                    lemma_views_push(so_far, response);
                }
                proposals.push(response);
            },
            Err(error) => return Err(error),
        }
        row += 1;
    }
    proof {
        lemma_rows_are_a_page(
            dao.proposals,
            false,
            first as int,
            start_after,
            env.block,
            page_limit(limit),
            views(proposals@),
        );
    }
    Ok(ProposalListResponse { proposals })
}

/// A page of proposals, the latest first.
pub fn reverse_proposals(dao: &Dao, env: &Env, start_before: Option<u64>, limit: Option<u32>) -> (response:
    Result<ProposalListResponse, PlatformError>)
    requires
        dao.wf(),
    ensures
        response matches Ok(list) && is_reverse_proposal_page(
            dao@,
            env.block,
            start_before,
            limit,
            list@,
        ),
{
    let size: usize = page_size(limit);
    let end: usize = match start_before {
        Some(start) => dao.proposals.first_from(&start),
        None => dao.proposals.len(),
    };
    let mut proposals: Vec<ProposalResponse> = Vec::new();
    let mut row: usize = end;
    while row > 0 && proposals.len() < size
        invariant
            dao.wf(),
            row <= end <= dao.proposals.entries().len(),
            proposals.len() == end - row,
            proposals.len() <= size,
            shows_rows(dao.proposals.entries(), true, end - 1, env.block, views(proposals@)),
        decreases row,
    {
        row -= 1;
        let ghost so_far = proposals@;
        match map_proposal(&env.block, read_row(dao, row)) {
            Ok(response) => {
                proof {
                    lemma_views_push(so_far, response);
                }
                proposals.push(response);
            },
            Err(error) => return Err(error),
        }
    }
    proof {
        lemma_rows_are_a_page(
            dao.proposals,
            true,
            end - 1,
            start_before,
            env.block,
            page_limit(limit),
            views(proposals@),
        );
    }
    Ok(ProposalListResponse { proposals })
}

/// The accounts that have voted on a proposal.
pub open spec fn voters_of(dao: DaoView, proposal_id: u64) -> Set<Seq<char>> {
    Set::new(|voter: Seq<char>| dao.ballots.dom().contains((proposal_id, voter)))
}

/// The voters that are shown, in order.
pub open spec fn shown_voters(page: Seq<VoteInfoView>) -> Seq<Seq<char>> {
    Seq::new(page.len(), |i: int| page[i].voter)
}

/// The order of accounts.
pub open spec fn by_text() -> spec_fn(Seq<char>, Seq<char>) -> bool {
    |a: Seq<char>, b: Seq<char>| text_before(a, b)
}

/// The accounts after a given one; all without one.
pub open spec fn voters_after(start_after: Option<Seq<char>>) -> spec_fn(Seq<char>) -> bool {
    |voter: Seq<char>| start_after matches Some(start) ==> text_before(start, voter)
}

/// A vote is shown as it was cast.
pub open spec fn shows_vote(dao: DaoView, proposal_id: u64, shown: VoteInfoView) -> bool {
    shown == (VoteInfoView {
        voter: shown.voter,
        vote: dao.ballots[(proposal_id, shown.voter)].vote,
        weight: dao.ballots[(proposal_id, shown.voter)].weight,
    })
}

/// The page that `list_votes` returns: the votes of the accounts that come first after
/// `start_after`.
pub open spec fn is_vote_page(
    dao: DaoView,
    proposal_id: u64,
    start_after: Option<Seq<char>>,
    limit: Option<u32>,
    page: Seq<VoteInfoView>,
) -> bool {
    &&& is_page(
        voters_of(dao, proposal_id),
        by_text(),
        voters_after(start_after),
        page_limit(limit),
        shown_voters(page),
    )
    &&& forall|i: int|
        0 <= i < page.len() ==> shows_vote(dao, proposal_id, #[trigger] page[i])
}

/// Where `list_votes` starts: after the address that the chain made of `start_after`, if one is
/// given.
pub open spec fn votes_start(
    start_after: Option<Seq<char>>,
    address: Result<Seq<char>, PlatformErrorView>,
) -> Result<Option<Seq<char>>, PlatformErrorView> {
    match start_after {
        None => Ok(None),
        Some(_) => match address {
            Ok(account) => Ok(Some(account)),
            Err(error) => Err(error),
        },
    }
}

/// What `list_votes` returns.
pub open spec fn is_vote_list(
    dao: DaoView,
    proposal_id: u64,
    start_after: Option<Seq<char>>,
    address: Result<Seq<char>, PlatformErrorView>,
    limit: Option<u32>,
    response: Result<Seq<VoteInfoView>, PlatformErrorView>,
) -> bool {
    match votes_start(start_after, address) {
        Err(error) => response == Err::<Seq<VoteInfoView>, _>(error),
        Ok(start) => response matches Ok(page) && is_vote_page(
            dao,
            proposal_id,
            start,
            limit,
            page,
        ),
    }
}

/// A page of votes on a proposal, in the order of the accounts. `address` is what the chain made
/// of `start_after`, if that is given.
pub fn list_votes(
    dao: &Dao,
    proposal_id: u64,
    start_after: Option<String>,
    address: Result<String, PlatformError>,
    limit: Option<u32>,
) -> (response: Result<VoteListResponse, PlatformError>)
    requires
        dao.wf(),
    ensures
        is_vote_list(
            dao@,
            proposal_id,
            option_view(start_after),
            std_result(address),
            limit,
            std_result(response),
        ),
{
    let size: usize = page_size(limit);
    let start: Option<String> = match start_after {
        None => None,
        Some(_) => match address {
            Ok(account) => Some(account),
            Err(error) => return Err(error),
        },
    };
    let ghost from = option_view(start);
    let ghost entries = dao.ballots.entries();
    let first: usize = match start {
        Some(account) => {
            dao.ballots.first_after(&BallotKey { proposal_id, voter: account })
        },
        None => {
            dao.ballots.first_from(&BallotKey { proposal_id, voter: String::new() })
        },
    };
    proof {
        lemma_nothing_before_empty();
        assert forall|i: int| 0 <= i < first implies (#[trigger] entries[i]).0.0 < proposal_id || (
        entries[i].0.0 == proposal_id && !voters_after(from)(entries[i].0.1)) by {
        }
        assert forall|i: int| first <= i < entries.len() implies (#[trigger] entries[i]).0.0
            >= proposal_id && (entries[i].0.0 == proposal_id ==> voters_after(from)(
            entries[i].0.1,
        )) by {
        }
    }
    let mut votes: Vec<VoteInfo> = Vec::new();
    let mut row: usize = first;
    while row < dao.ballots.len() && votes.len() < size && dao.ballots.key_at(row).proposal_id
        == proposal_id
        invariant
            dao.wf(),
            entries == dao.ballots.entries(),
            first <= row <= entries.len(),
            votes.len() == row - first,
            votes.len() <= size,
            forall|i: int| first <= i < row ==> (#[trigger] entries[i]).0.0 == proposal_id,
            forall|i: int|
                0 <= i < votes.len() ==> (#[trigger] votes[i])@ == (VoteInfoView {
                    voter: entries[first + i].0.1,
                    vote: entries[first + i].1.vote,
                    weight: entries[first + i].1.weight,
                }),
        decreases entries.len() - row,
    {
        let key = dao.ballots.key_at(row);
        let ballot = dao.ballots.record_at(row);
        votes.push(
            VoteInfo { voter: key.voter.clone(), vote: ballot.vote, weight: ballot.weight },
        );
        row += 1;
    }
    proof {
        let page = views(votes@);
        let voters = shown_voters(page);
        let n = page.len();
        let keys = voters_of(dao@, proposal_id);
        assert forall|i: int| 0 <= i < n implies #[trigger] voters[i] == entries[first + i].0.1
            && keys.contains(voters[i]) && dao@.ballots[(proposal_id, voters[i])] == entries[first
            + i].1 && voters_after(from)(voters[i]) by {
            assert(votes[i]@ == page[i]);
            assert(entries[first + i].0 == (proposal_id, voters[i]));
            assert(dao.ballots.holds((proposal_id, voters[i]), first + i));
            dao.ballots.lemma_one_row((proposal_id, voters[i]), first + i);
        }
        assert forall|i: int| 0 <= i < page.len() implies shows_vote(
            dao@,
            proposal_id,
            #[trigger] page[i],
        ) by {
            assert(votes[i]@ == page[i]);
            assert(voters[i] == page[i].voter);
        }
        assert forall|i: int, j: int| 0 <= i < j < n implies by_text()(voters[i], voters[j]) by {
            assert(BallotKey::before(entries[first + i].0, entries[first + j].0));
            assert(entries[first + i].0.0 == proposal_id);
            assert(entries[first + j].0.0 == proposal_id);
        }
        assert forall|k: Seq<char>| #[trigger]
            keys.contains(k) && voters_after(from)(k) && !voters.contains(k) implies n
            == page_limit(limit) && (forall|i: int|
            0 <= i < n ==> by_text()(#[trigger] voters[i], k)) by {
            let at = choose|at: int| dao.ballots.holds((proposal_id, k), at);
            assert(entries[at].0 == (proposal_id, k));
            if first <= at < first + n {
                assert(voters[at - first] == k);
            }
            assert(at >= first + n);
            if n < size {
                assert(row < entries.len());
                assert(entries[row as int].0.0 != proposal_id);
                if at > row {
                    assert(BallotKey::before(entries[row as int].0, entries[at].0));
                }
            }
            assert forall|i: int| 0 <= i < n implies by_text()(#[trigger] voters[i], k) by {
                assert(BallotKey::before(entries[first + i].0, entries[at].0));
                assert(entries[first + i].0.0 == proposal_id);
            }
        }
    }
    Ok(VoteListResponse { votes })
}

/// No text comes before the empty one.
proof fn lemma_nothing_before_empty()
    ensures
        forall|text: Seq<char>| !#[trigger] text_before(text, Seq::empty()),
{
    assert(encode_utf8(Seq::empty()).len() == 0);
}

// ---------------------------------------------------------------------------------------------
// All queries
// ---------------------------------------------------------------------------------------------

/// What `query` asks for: what the query at hand asks for.
pub open spec fn query_in_range(dao: DaoView, msg: QueryMsg, answers: Answers) -> bool {
    msg is AllBalances ==> all_balances_in_range(
        dao,
        coins_result(answers.native_balances),
        answers.token_balances@,
    )
}

/// A result of `query` that carries the result of another query, in the variant that `wrap` makes.
pub open spec fn answered<T>(
    result: Result<T, PlatformErrorView>,
    wrap: spec_fn(T) -> QueryResponseView,
) -> Result<QueryResponseView, PlatformErrorView> {
    match result {
        Ok(value) => Ok(wrap(value)),
        Err(error) => Err(error),
    }
}

/// What `query` returns: what the query at hand returns, in the variant for it.
pub open spec fn is_query_result(
    dao: DaoView,
    env: Env,
    msg: QueryMsg,
    answers: Answers,
    response: Result<QueryResponseView, PlatformErrorView>,
) -> bool {
    match msg {
        QueryMsg::Threshold => response == answered(
            threshold_result(dao, number_result(answers.total_supply)),
            |value: ThresholdResponse| QueryResponseView::Threshold(value),
        ),
        QueryMsg::Proposal { proposal_id } => response == answered(
            proposal_result(dao, env.block, proposal_id, number_result(answers.total_supply)),
            |value: ProposalResponseView| QueryResponseView::Proposal(value),
        ),
        QueryMsg::Vote { proposal_id, voter } => response == answered(
            vote_query_result(dao, proposal_id, voter@, std_result(answers.address)),
            |value: Option<VoteInfoView>| QueryResponseView::Vote(value),
        ),
        QueryMsg::ListProposals { start_after, limit } => response matches Ok(
            QueryResponseView::Proposals(page),
        ) && is_proposal_page(dao, env.block, start_after, limit, page),
        QueryMsg::ReverseProposals { start_before, limit } => response matches Ok(
            QueryResponseView::Proposals(page),
        ) && is_reverse_proposal_page(dao, env.block, start_before, limit, page),
        QueryMsg::ListVotes { proposal_id, start_after, limit } => {
            &&& response matches Ok(answer) ==> answer is Votes
            &&& is_vote_list(
                dao,
                proposal_id,
                option_view(start_after),
                std_result(answers.address),
                limit,
                match response {
                    Ok(answer) => Ok(answer->Votes_0),
                    Err(error) => Err(error),
                },
            )
        },
        QueryMsg::Voter { address } => response == answered(
            voter_result(dao, std_result(answers.address), answers.balance),
            |value: Option<u128>| QueryResponseView::Voter(value),
        ),
        QueryMsg::AllBalances => response == answered(
            all_balances_result(
                dao,
                coins_result(answers.native_balances),
                answers.token_balances@,
            ),
            |value: AllBalancesView| QueryResponseView::AllBalances(value),
        ),
        QueryMsg::GetConfig => response == answered(
            dao.config_or_missing(),
            |value: ConfigView| QueryResponseView::Config(value),
        ),
        QueryMsg::Cw20TokenList => response == answered(
            dao.tokens_or_missing(),
            |value: Seq<Seq<char>>| QueryResponseView::TokenList(value),
        ),
    }
}

/// Answers a query, with the answers to the questions that it raises.
pub fn query(dao: &Dao, env: &Env, msg: QueryMsg, answers: Answers) -> (response: Result<
    QueryResponse,
    PlatformError,
>)
    requires
        dao.wf(),
        query_in_range(dao@, msg, answers),
    ensures
        is_query_result(dao@, *env, msg, answers, std_result(response)),
{
    match msg {
        QueryMsg::Threshold => match query_threshold(dao, answers.total_supply) {
            Ok(response) => Ok(QueryResponse::Threshold(response)),
            Err(error) => Err(error),
        },
        QueryMsg::Proposal { proposal_id } => {
            match query_proposal(dao, env, proposal_id, answers.total_supply) {
                Ok(response) => Ok(QueryResponse::Proposal(response)),
                Err(error) => Err(error),
            }
        },
        QueryMsg::Vote { proposal_id, voter } => {
            match query_vote(dao, proposal_id, voter, answers.address) {
                Ok(response) => Ok(QueryResponse::Vote(response)),
                Err(error) => Err(error),
            }
        },
        QueryMsg::ListProposals { start_after, limit } => {
            match list_proposals(dao, env, start_after, limit) {
                Ok(response) => Ok(QueryResponse::Proposals(response)),
                Err(error) => Err(error),
            }
        },
        QueryMsg::ReverseProposals { start_before, limit } => {
            match reverse_proposals(dao, env, start_before, limit) {
                Ok(response) => Ok(QueryResponse::Proposals(response)),
                Err(error) => Err(error),
            }
        },
        QueryMsg::ListVotes { proposal_id, start_after, limit } => {
            match list_votes(dao, proposal_id, start_after, answers.address, limit) {
                Ok(response) => Ok(QueryResponse::Votes(response)),
                Err(error) => Err(error),
            }
        },
        QueryMsg::Voter { .. } => match query_voter(dao, answers.address, answers.balance) {
            Ok(response) => Ok(QueryResponse::Voter(response)),
            Err(error) => Err(error),
        },
        QueryMsg::AllBalances => {
            match query_all_balances(dao, answers.native_balances, &answers.token_balances) {
                Ok(response) => Ok(QueryResponse::AllBalances(response)),
                Err(error) => Err(error),
            }
        },
        QueryMsg::GetConfig => match query_config(dao) {
            Ok(response) => Ok(QueryResponse::Config(response)),
            Err(error) => Err(error),
        },
        QueryMsg::Cw20TokenList => match query_cw20_token_list(dao) {
            Ok(response) => Ok(QueryResponse::TokenList(response)),
            Err(error) => Err(error),
        },
    }
}

/// Whether `query` has an answer for each token that it has to show.
pub fn query_fits(dao: &Dao, msg: &QueryMsg, answers: &Answers) -> (fits: bool)
    ensures
        fits == query_in_range(dao@, *msg, *answers),
{
    match msg {
        QueryMsg::AllBalances => match (&answers.native_balances, &dao.treasury_tokens) {
            (Ok(_), Some(tokens)) => answers.token_balances.len() == tokens.len(),
            _ => true,
        },
        _ => true,
    }
}

/// How much there is of the voting token, if that is known.
pub open spec fn supply_asks(dao: DaoView) -> Seq<QuestionView> {
    match dao.config {
        Some(config) => seq![QuestionView::TotalSupply { token: config.cw20_addr }],
        None => Seq::empty(),
    }
}

/// What the contract holds: its native tokens, then each token in its list.
pub open spec fn holding_asks(dao: DaoView, contract: Seq<char>) -> Seq<QuestionView> {
    seq![QuestionView::NativeBalances { holder: contract }] + match dao.treasury_tokens {
        Some(tokens) => Seq::new(
            tokens.len(),
            |i: int| QuestionView::Balance { token: tokens[i], holder: contract },
        ),
        None => Seq::empty(),
    }
}

/// What has to be asked before `query`. What a voter holds is asked after that, by
/// `voter_question`.
pub open spec fn query_asks(dao: DaoView, env: Env, msg: QueryMsg) -> Seq<QuestionView> {
    match msg {
        QueryMsg::Threshold => supply_asks(dao),
        QueryMsg::Proposal { .. } => supply_asks(dao),
        QueryMsg::Vote { voter, .. } => seq![QuestionView::Address { input: voter@ }],
        QueryMsg::ListVotes { start_after: Some(start), .. } => seq![
            QuestionView::Address { input: start@ },
        ],
        QueryMsg::Voter { address } => seq![QuestionView::Address { input: address@ }],
        QueryMsg::AllBalances => holding_asks(dao, env.contract.address@),
        _ => Seq::empty(),
    }
}

/// What has to be asked before `query`.
pub fn query_questions(dao: &Dao, env: &Env, msg: &QueryMsg) -> (questions: Vec<Question>)
    ensures
        views(questions@) == query_asks(dao@, *env, *msg),
{
    let mut questions: Vec<Question> = Vec::new();
    match msg {
        QueryMsg::Threshold => {
            if let Some(config) = &dao.config {
                questions.push(Question::TotalSupply { token: config.cw20_addr.clone() });
            }
        },
        QueryMsg::Proposal { .. } => {
            if let Some(config) = &dao.config {
                questions.push(Question::TotalSupply { token: config.cw20_addr.clone() });
            }
        },
        QueryMsg::Vote { voter, .. } => {
            questions.push(Question::Address { input: voter.clone() });
        },
        QueryMsg::ListVotes { start_after, .. } => {
            if let Some(start) = start_after {
                questions.push(Question::Address { input: start.clone() });
            }
        },
        QueryMsg::Voter { address } => {
            questions.push(Question::Address { input: address.clone() });
        },
        QueryMsg::AllBalances => {
            questions.push(Question::NativeBalances { holder: env.contract.address.clone() });
            if let Some(tokens) = &dao.treasury_tokens {
                let mut i: usize = 0;
                while i < tokens.len()
                    invariant
                        i <= tokens.len(),
                        questions.len() == i + 1,
                        questions[0]@ == (QuestionView::NativeBalances {
                            holder: env.contract.address@,
                        }),
                        forall|j: int|
                            0 <= j < i ==> (#[trigger] questions[j + 1])@ == (
                            QuestionView::Balance {
                                token: tokens[j]@,
                                holder: env.contract.address@,
                            }),
                    decreases tokens.len() - i,
                {
                    questions.push(
                        Question::Balance {
                            token: tokens[i].clone(),
                            holder: env.contract.address.clone(),
                        },
                    );
                    i += 1;
                }
                proof {
                    let asked = holding_asks(dao@, env.contract.address@);
                    assert forall|j: int| 0 <= j < asked.len() implies views(questions@)[j]
                        == asked[j] by {
                        if j > 0 {
                            assert(questions[(j - 1) + 1]@ == asked[j]);
                        }
                    }
                }
            }
        },
        _ => {},
    }
    proof {
        assert(views(questions@) =~= query_asks(dao@, *env, *msg));
    }
    questions
}

/// What a voter holds, once the chain has said how the account is written.
pub open spec fn voter_ask(dao: DaoView, address: Result<Seq<char>, PlatformErrorView>) -> Option<
    QuestionView,
> {
    match (dao.config, address) {
        (Some(config), Ok(account)) => Some(
            QuestionView::Balance { token: config.cw20_addr, holder: account },
        ),
        _ => None,
    }
}

/// What has to be asked before the query for a voter, once the chain has said how the account is
/// written.
pub fn voter_question(dao: &Dao, address: &Result<String, PlatformError>) -> (question: Option<Question>)
    ensures
        option_view(question) == voter_ask(dao@, std_result(*address)),
{
    match (&dao.config, address) {
        (Some(config), Ok(account)) => Some(
            Question::Balance { token: config.cw20_addr.clone(), holder: account.clone() },
        ),
        _ => None,
    }
}

} // verus!
