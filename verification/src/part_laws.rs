//! What holds of a part of the state: to handle a message, it is enough to read what the message is
//! about.
use crate::contract::{
    execute_asks, execute_in_range, execute_result, execute_state, instantiate_state,
};
use crate::error::{std_result, PlatformErrorView};
use crate::expiration::BlockInfo;
use crate::msg::{Env, ExecuteMsg, InstantiateMsg, MessageInfo, QueryMsg};
use crate::order::is_page;
use crate::outside::Answers;
use crate::page_laws::{law_page_is_unique, law_page_of_a_part, law_page_orders};
use crate::query::{
    ascending, by_text, descending, ids_after, ids_before, is_proposal_page, is_query_result,
    is_reverse_proposal_page, is_vote_page, page_limit, query_asks, query_in_range, shown_ids,
    shown_voters, shows_vote, voters_after, voters_of, votes_start, ProposalResponseView, QueryResponseView,
    VoteInfoView,
};
use crate::records::{
    execute_reads, holds_all, holds_page, holds_records, part_of, query_reads, written_back,
    RecordsView,
};
use crate::state::DaoView;
use crate::views::option_view;
use vstd::prelude::*;

verus! {

/// Setting the contract up can be done on a part of the state.
pub proof fn law_setup_on_a_part(
    whole: DaoView,
    part: DaoView,
    msg: InstantiateMsg,
    cw20_addr: Option<Seq<char>>,
    deposit_addr: Option<Seq<char>>,
)
    requires
        part_of(part, whole),
    ensures
        written_back(whole, instantiate_state(part, msg, cw20_addr, deposit_addr))
            == instantiate_state(whole, msg, cw20_addr, deposit_addr),
{
    lemma_written_back(whole, part);
}

/// A part that is not changed changes nothing when it is written back.
proof fn lemma_written_back(whole: DaoView, part: DaoView)
    requires
        part_of(part, whole),
    ensures
        whole.proposals.union_prefer_right(part.proposals) == whole.proposals,
        whole.ballots.union_prefer_right(part.ballots) == whole.ballots,
        written_back(whole, part) == whole,
{
    assert(whole.proposals.union_prefer_right(part.proposals) =~= whole.proposals);
    assert(whole.ballots.union_prefer_right(part.ballots) =~= whole.ballots);
}

/// A message can be handled on a part of the state that holds what the message reads: it raises the
/// same questions, gets the same answer, and once the part is written back, the whole is what it
/// would have become.
pub proof fn law_execute_on_a_part(
    whole: DaoView,
    part: DaoView,
    env: Env,
    info: MessageInfo,
    msg: ExecuteMsg,
    answers: Answers,
)
    requires
        part_of(part, whole),
        holds_all(part, whole, execute_reads(info, msg)),
    ensures
        execute_asks(part, info, msg) == execute_asks(whole, info, msg),
        execute_in_range(part, env, info, msg, answers) == execute_in_range(
            whole,
            env,
            info,
            msg,
            answers,
        ),
        execute_result(part, env, info, msg, answers) == execute_result(
            whole,
            env,
            info,
            msg,
            answers,
        ),
        written_back(whole, execute_state(part, env, info, msg, answers)) == execute_state(
            whole,
            env,
            info,
            msg,
            answers,
        ),
{
    let reads = execute_reads(info, msg);
    lemma_written_back(whole, part);
    match msg {
        ExecuteMsg::Vote { proposal_id, .. } => {
            assert(holds_records(part, whole, reads[0]));
            assert(holds_records(part, whole, reads[1]));
        },
        ExecuteMsg::Execute { proposal_id } => {
            assert(holds_records(part, whole, reads[0]));
        },
        ExecuteMsg::Close { proposal_id } => {
            assert(holds_records(part, whole, reads[0]));
        },
        _ => {},
    }
    let now = execute_state(part, env, info, msg, answers);
    let then = execute_state(whole, env, info, msg, answers);
    assert(whole.proposals.union_prefer_right(now.proposals) =~= then.proposals);
    assert(whole.ballots.union_prefer_right(now.ballots) =~= then.ballots);
}

/// A query can be answered from a part of the state that holds what the query reads: it raises the
/// same questions, and its answer is the answer of the whole.
pub proof fn law_query_on_a_part(
    whole: DaoView,
    part: DaoView,
    env: Env,
    msg: QueryMsg,
    answers: Answers,
    response: Result<QueryResponseView, PlatformErrorView>,
)
    requires
        part_of(part, whole),
        holds_all(part, whole, query_reads(msg, answers)),
        is_query_result(part, env, msg, answers, response),
    ensures
        query_asks(part, env, msg) == query_asks(whole, env, msg),
        query_in_range(part, msg, answers) == query_in_range(whole, msg, answers),
        is_query_result(whole, env, msg, answers, response),
{
    let reads = query_reads(msg, answers);
    assert(reads.len() > 0 ==> holds_records(part, whole, reads[0]));
    match msg {
        QueryMsg::ListProposals { start_after, limit } => {
            assert(reads[0] is ProposalsAfter);
            lemma_proposals_of_a_part(
                whole,
                part,
                env.block,
                start_after,
                limit,
                response->Ok_0->Proposals_0,
            );
        },
        QueryMsg::ReverseProposals { start_before, limit } => {
            assert(reads[0] is ProposalsBefore);
            lemma_reverse_proposals_of_a_part(
                whole,
                part,
                env.block,
                start_before,
                limit,
                response->Ok_0->Proposals_0,
            );
        },
        QueryMsg::ListVotes { proposal_id, start_after, limit } => {
            let from = votes_start(option_view(start_after), std_result(answers.address));
            if let Ok(start) = from {
                assert(reads[0] is BallotsAfter);
                lemma_votes_of_a_part(
                    whole,
                    part,
                    proposal_id,
                    start,
                    limit,
                    response->Ok_0->Votes_0,
                );
            }
        },
        QueryMsg::Proposal { proposal_id } => {
            assert(reads[0] is Proposal);
        },
        QueryMsg::Vote { proposal_id, voter } => {
            if answers.address is Ok {
                assert(reads[0] is Ballot);
            }
        },
        _ => {},
    }
}

/// A page of the proposals in a part that holds the page of the whole is that page.
proof fn lemma_proposals_of_a_part(
    whole: DaoView,
    part: DaoView,
    block: BlockInfo,
    start: Option<u64>,
    limit: Option<u32>,
    page: Seq<ProposalResponseView>,
)
    requires
        part_of(part, whole),
        holds_records(
            part,
            whole,
            RecordsView::ProposalsAfter { start, limit: page_limit(limit) },
        ),
        is_proposal_page(part, block, start, limit, page),
    ensures
        is_proposal_page(whole, block, start, limit, page),
{
    let (keys, some) = (whole.proposals.dom(), part.proposals.dom());
    let size = page_limit(limit);
    let ids = choose|ids: Seq<u64>|
        is_page(keys, ascending(), ids_after(start), size, ids) && #[trigger] holds_page(some, ids);
    law_page_orders(some, Set::empty());
    law_page_of_a_part(keys, some, ascending(), ids_after(start), size, ids);
    law_page_is_unique(some, ascending(), ids_after(start), size, ids, shown_ids(page));
    lemma_same_records(whole, part, page);
}

/// The same holds of proposals listed from the last one back.
proof fn lemma_reverse_proposals_of_a_part(
    whole: DaoView,
    part: DaoView,
    block: BlockInfo,
    start: Option<u64>,
    limit: Option<u32>,
    page: Seq<ProposalResponseView>,
)
    requires
        part_of(part, whole),
        holds_records(
            part,
            whole,
            RecordsView::ProposalsBefore { start, limit: page_limit(limit) },
        ),
        is_reverse_proposal_page(part, block, start, limit, page),
    ensures
        is_reverse_proposal_page(whole, block, start, limit, page),
{
    let (keys, some) = (whole.proposals.dom(), part.proposals.dom());
    let size = page_limit(limit);
    let ids = choose|ids: Seq<u64>|
        is_page(keys, descending(), ids_before(start), size, ids) && #[trigger] holds_page(
            some,
            ids,
        );
    law_page_orders(some, Set::empty());
    law_page_of_a_part(keys, some, descending(), ids_before(start), size, ids);
    law_page_is_unique(some, descending(), ids_before(start), size, ids, shown_ids(page));
    lemma_same_records(whole, part, page);
}

/// The proposals on a page of a part are those of the whole.
proof fn lemma_same_records(whole: DaoView, part: DaoView, page: Seq<ProposalResponseView>)
    requires
        part_of(part, whole),
        forall|i: int|
            0 <= i < shown_ids(page).len() ==> part.proposals.dom().contains(
                #[trigger] shown_ids(page)[i],
            ),
    ensures
        forall|i: int|
            0 <= i < page.len() ==> part.proposals[(#[trigger] page[i]).id]
                == whole.proposals[page[i].id],
{
    assert forall|i: int| 0 <= i < page.len() implies part.proposals[(#[trigger] page[i]).id]
        == whole.proposals[page[i].id] by {
        assert(shown_ids(page)[i] == page[i].id);
        assert(part.proposals.dom().contains(page[i].id));
        assert(whole.proposals.dom().contains(page[i].id));
    }
}

/// A page of the votes in a part that holds the page of the whole is that page.
proof fn lemma_votes_of_a_part(
    whole: DaoView,
    part: DaoView,
    proposal_id: u64,
    start: Option<Seq<char>>,
    limit: Option<u32>,
    page: Seq<VoteInfoView>,
)
    requires
        part_of(part, whole),
        holds_records(
            part,
            whole,
            RecordsView::BallotsAfter { proposal_id, after: start, limit: page_limit(limit) },
        ),
        is_vote_page(part, proposal_id, start, limit, page),
    ensures
        is_vote_page(whole, proposal_id, start, limit, page),
{
    let (keys, some) = (voters_of(whole, proposal_id), voters_of(part, proposal_id));
    let size = page_limit(limit);
    let voters = choose|voters: Seq<Seq<char>>|
        is_page(keys, by_text(), voters_after(start), size, voters) && #[trigger] holds_page(
            some,
            voters,
        );
    law_page_orders(Set::empty(), some);
    law_page_of_a_part(keys, some, by_text(), voters_after(start), size, voters);
    law_page_is_unique(some, by_text(), voters_after(start), size, voters, shown_voters(page));
    assert forall|i: int| 0 <= i < page.len() implies shows_vote(
        whole,
        proposal_id,
        #[trigger] page[i],
    ) by {
        assert(shown_voters(page)[i] == page[i].voter);
        assert(some.contains(shown_voters(page)[i]));
        assert(part.ballots.dom().contains((proposal_id, page[i].voter)));
    }
}

} // verus!
