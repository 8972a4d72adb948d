//! What has to be read from the store before a message can be handled.
use crate::error::std_result;
use crate::msg::{ExecuteMsg, MessageInfo, QueryMsg};
use crate::order::is_page;
use crate::outside::Answers;
use crate::query::{
    ascending, by_text, descending, ids_after, ids_before, page_limit, page_size, voters_after,
    voters_of, votes_start,
};
use crate::state::DaoView;
use crate::views::{option_view, views};
use vstd::prelude::*;

verus! {

/// Some of the proposals or ballots in the store.
#[derive(Debug, PartialEq, Eq)]
pub enum Records {
    /// The proposal under an identifier, if there is one.
    Proposal { id: u64 },
    /// The ballot of an account on a proposal, if there is one.
    Ballot { proposal_id: u64, voter: String },
    /// The first proposals after one, or from the first on.
    ProposalsAfter { start: Option<u64>, limit: usize },
    /// The last proposals before one, or from the last back.
    ProposalsBefore { start: Option<u64>, limit: usize },
    /// The first ballots on a proposal after an account, or from the first on.
    BallotsAfter { proposal_id: u64, after: Option<String>, limit: usize },
}

/// What `Records` says.
pub enum RecordsView {
    Proposal { id: u64 },
    Ballot { proposal_id: u64, voter: Seq<char> },
    ProposalsAfter { start: Option<u64>, limit: nat },
    ProposalsBefore { start: Option<u64>, limit: nat },
    BallotsAfter { proposal_id: u64, after: Option<Seq<char>>, limit: nat },
}

impl View for Records {
    type V = RecordsView;

    open spec fn view(&self) -> RecordsView {
        match *self {
            Records::Proposal { id } => RecordsView::Proposal { id },
            Records::Ballot { proposal_id, voter } => RecordsView::Ballot {
                proposal_id,
                voter: voter@,
            },
            Records::ProposalsAfter { start, limit } => RecordsView::ProposalsAfter {
                start,
                limit: limit as nat,
            },
            Records::ProposalsBefore { start, limit } => RecordsView::ProposalsBefore {
                start,
                limit: limit as nat,
            },
            Records::BallotsAfter { proposal_id, after, limit } => RecordsView::BallotsAfter {
                proposal_id,
                after: option_view(after),
                limit: limit as nat,
            },
        }
    }
}

/// `part` is what the contract remembers, with only some of the proposals and ballots. The version
/// may be left out.
pub open spec fn part_of(part: DaoView, whole: DaoView) -> bool {
    &&& part.version is None || part.version == whole.version
    &&& part.config == whole.config
    &&& part.treasury_tokens == whole.treasury_tokens
    &&& part.proposal_count == whole.proposal_count
    &&& part.proposals.submap_of(whole.proposals)
    &&& part.ballots.submap_of(whole.ballots)
}

/// The part holds every key of a page.
pub open spec fn holds_page<K>(keys: Set<K>, page: Seq<K>) -> bool {
    forall|i: int| 0 <= i < page.len() ==> keys.contains(#[trigger] page[i])
}

/// The part holds these records of the whole.
pub open spec fn holds_records(part: DaoView, whole: DaoView, records: RecordsView) -> bool {
    match records {
        RecordsView::Proposal { id } => whole.proposals.dom().contains(id)
            ==> part.proposals.dom().contains(id),
        RecordsView::Ballot { proposal_id, voter } => whole.ballots.dom().contains(
            (proposal_id, voter),
        ) ==> part.ballots.dom().contains((proposal_id, voter)),
        RecordsView::ProposalsAfter { start, limit } => exists|page: Seq<u64>|
            is_page(whole.proposals.dom(), ascending(), ids_after(start), limit, page)
                && #[trigger] holds_page(part.proposals.dom(), page),
        RecordsView::ProposalsBefore { start, limit } => exists|page: Seq<u64>|
            is_page(whole.proposals.dom(), descending(), ids_before(start), limit, page)
                && #[trigger] holds_page(part.proposals.dom(), page),
        RecordsView::BallotsAfter { proposal_id, after, limit } => exists|page: Seq<Seq<char>>|
            is_page(voters_of(whole, proposal_id), by_text(), voters_after(after), limit, page)
                && #[trigger] holds_page(voters_of(part, proposal_id), page),
    }
}

/// The part holds all of these records.
pub open spec fn holds_all(part: DaoView, whole: DaoView, records: Seq<RecordsView>) -> bool {
    forall|i: int| 0 <= i < records.len() ==> holds_records(part, whole, #[trigger] records[i])
}

/// What `execute` reads of the proposals and ballots: the proposal that the message names, and for
/// a vote the ballot of the sender.
pub open spec fn execute_reads(info: MessageInfo, msg: ExecuteMsg) -> Seq<RecordsView> {
    match msg {
        ExecuteMsg::Vote { proposal_id, .. } => seq![
            RecordsView::Proposal { id: proposal_id },
            RecordsView::Ballot { proposal_id, voter: info.sender@ },
        ],
        ExecuteMsg::Execute { proposal_id } => seq![RecordsView::Proposal { id: proposal_id }],
        ExecuteMsg::Close { proposal_id } => seq![RecordsView::Proposal { id: proposal_id }],
        _ => Seq::empty(),
    }
}

/// What `query` reads of the proposals and ballots: the one that the query names, or those on the
/// page that it asks for.
pub open spec fn query_reads(msg: QueryMsg, answers: Answers) -> Seq<RecordsView> {
    match msg {
        QueryMsg::Proposal { proposal_id } => seq![RecordsView::Proposal { id: proposal_id }],
        QueryMsg::Vote { proposal_id, .. } => match answers.address {
            Ok(voter) => seq![RecordsView::Ballot { proposal_id, voter: voter@ }],
            Err(_) => Seq::empty(),
        },
        QueryMsg::ListProposals { start_after, limit } => seq![
            RecordsView::ProposalsAfter { start: start_after, limit: page_limit(limit) },
        ],
        QueryMsg::ReverseProposals { start_before, limit } => seq![
            RecordsView::ProposalsBefore { start: start_before, limit: page_limit(limit) },
        ],
        QueryMsg::ListVotes { proposal_id, start_after, limit } => match votes_start(
            option_view(start_after),
            std_result(answers.address),
        ) {
            Ok(start) => seq![
                RecordsView::BallotsAfter { proposal_id, after: start, limit: page_limit(limit) },
            ],
            Err(_) => Seq::empty(),
        },
        _ => Seq::empty(),
    }
}

/// What has to be read before `execute`.
pub fn execute_records(info: &MessageInfo, msg: &ExecuteMsg) -> (records: Vec<Records>)
    ensures
        views(records@) == execute_reads(*info, *msg),
{
    let mut records: Vec<Records> = Vec::new();
    match msg {
        ExecuteMsg::Vote { proposal_id, .. } => {
            records.push(Records::Proposal { id: *proposal_id });
            records.push(
                Records::Ballot { proposal_id: *proposal_id, voter: info.sender.clone() },
            );
        },
        ExecuteMsg::Execute { proposal_id } => {
            records.push(Records::Proposal { id: *proposal_id });
        },
        ExecuteMsg::Close { proposal_id } => {
            records.push(Records::Proposal { id: *proposal_id });
        },
        _ => {},
    }
    proof {
        assert(views(records@) =~= execute_reads(*info, *msg));
    }
    records
}

/// What has to be read before `query`, once its questions are answered.
pub fn query_records(msg: &QueryMsg, answers: &Answers) -> (records: Vec<Records>)
    ensures
        views(records@) == query_reads(*msg, *answers),
{
    let mut records: Vec<Records> = Vec::new();
    match msg {
        QueryMsg::Proposal { proposal_id } => {
            records.push(Records::Proposal { id: *proposal_id });
        },
        QueryMsg::Vote { proposal_id, .. } => {
            if let Ok(voter) = &answers.address {
                records.push(Records::Ballot { proposal_id: *proposal_id, voter: voter.clone() });
            }
        },
        QueryMsg::ListProposals { start_after, limit } => {
            records.push(
                Records::ProposalsAfter { start: *start_after, limit: page_size(*limit) },
            );
        },
        QueryMsg::ReverseProposals { start_before, limit } => {
            records.push(
                Records::ProposalsBefore { start: *start_before, limit: page_size(*limit) },
            );
        },
        QueryMsg::ListVotes { proposal_id, start_after, limit } => {
            let limit: usize = page_size(*limit);
            match (start_after, &answers.address) {
                (None, _) => {
                    records.push(
                        Records::BallotsAfter { proposal_id: *proposal_id, after: None, limit },
                    );
                },
                (Some(_), Ok(voter)) => {
                    let after = Some(voter.clone());
                    records.push(
                        Records::BallotsAfter { proposal_id: *proposal_id, after, limit },
                    );
                },
                (Some(_), Err(_)) => {},
            }
        },
        _ => {},
    }
    proof {
        assert(views(records@) =~= query_reads(*msg, *answers));
    }
    records
}

/// The whole after a part of it has been changed and written back, record by record. What the part
/// does not hold stays as it is.
pub open spec fn written_back(whole: DaoView, part: DaoView) -> DaoView {
    DaoView {
        version: if part.version is Some {
            part.version
        } else {
            whole.version
        },
        config: if part.config is Some {
            part.config
        } else {
            whole.config
        },
        treasury_tokens: if part.treasury_tokens is Some {
            part.treasury_tokens
        } else {
            whole.treasury_tokens
        },
        proposal_count: part.proposal_count,
        proposals: whole.proposals.union_prefer_right(part.proposals),
        ballots: whole.ballots.union_prefer_right(part.ballots),
    }
}

} // verus!
