//! Proposals, votes, and what becomes of them.
use crate::expiration::{BlockInfo, Expiration};
use crate::msg::{copy_msgs, CosmosMsg, CosmosMsgView};
use crate::threshold::{share_of, votes_needed, Threshold};
use crate::views::views;
use vstd::prelude::*;

verus! {

/// Where a proposal stands.
#[derive(Clone, Copy, Debug, PartialEq, Eq, Structural)]
pub enum Status {
    /// Created, but voting has not begun.
    Pending,
    /// Votes are taken.
    Open,
    /// Voted down, or out of time.
    Rejected,
    /// Approved, but not carried out.
    Passed,
    /// Carried out.
    Executed,
}

/// The name of a status.
pub open spec fn status_name(status: Status) -> Seq<char> {
    match status {
        Status::Pending => "Pending"@,
        Status::Open => "Open"@,
        Status::Rejected => "Rejected"@,
        Status::Passed => "Passed"@,
        Status::Executed => "Executed"@,
    }
}

impl Status {
    /// The name of the status.
    pub fn name(&self) -> (name: String)
        ensures
            name@ == status_name(*self),
    {
        match self {
            Status::Pending => "Pending".to_owned(),
            Status::Open => "Open".to_owned(),
            Status::Rejected => "Rejected".to_owned(),
            Status::Passed => "Passed".to_owned(),
            Status::Executed => "Executed".to_owned(),
        }
    }
}

/// What a voter says.
#[derive(Clone, Copy, Debug, PartialEq, Eq, Structural)]
pub enum Vote {
    Yes,
    No,
    Abstain,
    Veto,
}

/// A vote that was cast.
#[derive(Clone, Copy, Debug, PartialEq, Eq, Structural)]
pub struct Ballot {
    pub weight: u128,
    pub vote: Vote,
}

impl View for Ballot {
    type V = Ballot;

    open spec fn view(&self) -> Ballot {
        *self
    }
}

/// The weight that was cast for each answer.
#[derive(Clone, Copy, Debug, PartialEq, Eq, Structural)]
pub struct Votes {
    pub yes: u128,
    pub no: u128,
    pub abstain: u128,
    pub veto: u128,
}

impl Votes {
    /// The weight that was cast for one answer.
    pub open spec fn weight_for(self, vote: Vote) -> u128 {
        match vote {
            Vote::Yes => self.yes,
            Vote::No => self.no,
            Vote::Abstain => self.abstain,
            Vote::Veto => self.veto,
        }
    }

    /// All weight that was cast.
    pub open spec fn sum(self) -> int {
        self.yes + self.no + self.abstain + self.veto
    }

    /// No weight at all.
    pub open spec fn none() -> Votes {
        Votes { yes: 0, no: 0, abstain: 0, veto: 0 }
    }

    /// The votes with `weight` more for one answer.
    pub open spec fn with_vote(self, vote: Vote, weight: u128) -> Votes {
        match vote {
            Vote::Yes => Votes { yes: (self.yes + weight) as u128, ..self },
            Vote::No => Votes { no: (self.no + weight) as u128, ..self },
            Vote::Abstain => Votes { abstain: (self.abstain + weight) as u128, ..self },
            Vote::Veto => Votes { veto: (self.veto + weight) as u128, ..self },
        }
    }

    /// The votes can be held against a rule: where the rule asks how much was cast in all, that can
    /// be written down.
    pub open spec fn countable(self, threshold: Threshold) -> bool {
        threshold is ThresholdQuorum ==> self.sum() <= u128::MAX
    }

    /// There is room for `weight` more for one answer: it can be written down, the votes can still
    /// be held against the rule, and abstentions do not exceed the total weight.
    pub open spec fn has_room(
        self,
        vote: Vote,
        weight: u128,
        threshold: Threshold,
        total_weight: u128,
    ) -> bool {
        &&& self.weight_for(vote) + weight <= u128::MAX
        &&& threshold is ThresholdQuorum ==> self.sum() + weight <= u128::MAX
        &&& vote == Vote::Abstain ==> self.abstain + weight <= total_weight
    }

    /// All weight that was cast, if that can be written down.
    pub fn checked_total(&self) -> (total: Option<u128>)
        ensures
            match total {
                Some(sum) => sum == self.sum(),
                None => self.sum() > u128::MAX,
            },
    {
        match self.yes.checked_add(self.no) {
            None => None,
            Some(two) => match two.checked_add(self.abstain) {
                None => None,
                Some(three) => three.checked_add(self.veto),
            },
        }
    }

    /// All weight that was cast.
    pub fn total(&self) -> (total: u128)
        requires
            self.sum() <= u128::MAX,
        ensures
            total == self.sum(),
    {
        self.yes + self.no + self.abstain + self.veto
    }

    /// Whether the votes can be held against a rule.
    pub fn can_be_counted(&self, threshold: &Threshold) -> (countable: bool)
        ensures
            countable == self.countable(*threshold),
    {
        match threshold {
            Threshold::AbsolutePercentage { .. } => true,
            Threshold::ThresholdQuorum { .. } => self.checked_total().is_some(),
        }
    }

    /// Whether there is room for the weight.
    pub fn can_add_vote(
        &self,
        vote: Vote,
        weight: u128,
        threshold: &Threshold,
        total_weight: u128,
    ) -> (room: bool)
        ensures
            room == self.has_room(vote, weight, *threshold, total_weight),
    {
        let cast: u128 = match vote {
            Vote::Yes => self.yes,
            Vote::No => self.no,
            Vote::Abstain => self.abstain,
            Vote::Veto => self.veto,
        };
        if weight > u128::MAX - cast {
            return false;
        }
        if vote == Vote::Abstain && cast + weight > total_weight {
            return false;
        }
        match threshold {
            Threshold::AbsolutePercentage { .. } => true,
            Threshold::ThresholdQuorum { .. } => match self.checked_total() {
                Some(sum) => weight <= u128::MAX - sum,
                None => false,
            },
        }
    }

    /// Counts a vote.
    pub fn add_vote(&mut self, vote: Vote, weight: u128)
        requires
            old(self).weight_for(vote) + weight <= u128::MAX,
        ensures
            *final(self) == old(self).with_vote(vote, weight),
            final(self).sum() == old(self).sum() + weight,
    {
        match vote {
            Vote::Yes => {
                self.yes = self.yes + weight;
            },
            Vote::No => {
                self.no = self.no + weight;
            },
            Vote::Abstain => {
                self.abstain = self.abstain + weight;
            },
            Vote::Veto => {
                self.veto = self.veto + weight;
            },
        }
    }
}

/// What a proposer puts down, and in which token.
#[derive(Debug, PartialEq, Eq)]
pub struct ProposalDeposit {
    pub amount: u128,
    pub token_address: String,
}

/// What a `ProposalDeposit` says.
pub struct ProposalDepositView {
    pub amount: u128,
    pub token_address: Seq<char>,
}

impl View for ProposalDeposit {
    type V = ProposalDepositView;

    open spec fn view(&self) -> ProposalDepositView {
        ProposalDepositView { amount: self.amount, token_address: self.token_address@ }
    }
}

impl Clone for ProposalDeposit {
    fn clone(&self) -> (copy: Self)
        ensures
            copy@ == self@,
    {
        ProposalDeposit { amount: self.amount, token_address: self.token_address.clone() }
    }
}

/// Something to be voted on.
#[derive(Debug, PartialEq, Eq)]
pub struct Proposal {
    pub title: String,
    pub description: String,
    pub proposer: String,
    pub start_height: u64,
    pub expires: Expiration,
    /// What to carry out if the proposal passes.
    pub msgs: Vec<CosmosMsg>,
    pub status: Status,
    pub votes: Votes,
    pub threshold: Threshold,
    /// The weight of everyone who may vote.
    pub total_weight: u128,
    pub deposit: ProposalDeposit,
}

/// What a `Proposal` says.
#[verifier::ext_equal]
pub struct ProposalView {
    pub title: Seq<char>,
    pub description: Seq<char>,
    pub proposer: Seq<char>,
    pub start_height: u64,
    pub expires: Expiration,
    pub msgs: Seq<CosmosMsgView>,
    pub status: Status,
    pub votes: Votes,
    pub threshold: Threshold,
    pub total_weight: u128,
    pub deposit: ProposalDepositView,
}

impl View for Proposal {
    type V = ProposalView;

    open spec fn view(&self) -> ProposalView {
        ProposalView {
            title: self.title@,
            description: self.description@,
            proposer: self.proposer@,
            start_height: self.start_height,
            expires: self.expires,
            msgs: views(self.msgs@),
            status: self.status,
            votes: self.votes,
            threshold: self.threshold,
            total_weight: self.total_weight,
            deposit: self.deposit@,
        }
    }
}

/// The votes carry the proposal: they reach what the threshold asks for. As long as votes can
/// still come in, all weight that has not been cast counts as cast against it.
pub open spec fn carried(
    threshold: Threshold,
    votes: Votes,
    total_weight: u128,
    voting_over: bool,
) -> bool {
    match threshold {
        Threshold::AbsolutePercentage { percentage } => votes.yes >= share_of(
            total_weight - votes.abstain,
            percentage,
        ),
        Threshold::ThresholdQuorum { threshold, quorum } => {
            let voting = if voting_over {
                votes.sum()
            } else {
                total_weight as int
            };
            &&& votes.sum() >= share_of(total_weight as int, quorum)
            &&& votes.yes >= share_of(voting - votes.abstain, threshold)
        },
    }
}

impl ProposalView {
    /// The threshold is one that can be met, and the votes can be counted.
    pub open spec fn wf(self) -> bool {
        &&& self.threshold.valid()
        &&& self.votes.countable(self.threshold)
        &&& self.votes.abstain <= self.total_weight
    }

    /// The votes carry the proposal, as of `block`.
    pub open spec fn passed(self, block: BlockInfo) -> bool {
        carried(self.threshold, self.votes, self.total_weight, self.expires.reached(block))
    }

    /// Where the proposal stands as of `block`: an open one passes as soon as its votes carry it,
    /// and is rejected if its time is over and they do not. Any other status stays.
    pub open spec fn status_at(self, block: BlockInfo) -> Status {
        if self.status != Status::Open {
            self.status
        } else if self.passed(block) {
            Status::Passed
        } else if self.expires.reached(block) {
            Status::Rejected
        } else {
            Status::Open
        }
    }

    /// The proposal with its status as of `block`.
    pub open spec fn updated(self, block: BlockInfo) -> ProposalView {
        ProposalView { status: self.status_at(block), ..self }
    }

    /// The proposal with another status.
    pub open spec fn with_status(self, status: Status) -> ProposalView {
        ProposalView { status, ..self }
    }
}

impl Clone for Proposal {
    fn clone(&self) -> (copy: Self)
        ensures
            copy@ == self@,
    {
        Proposal {
            title: self.title.clone(),
            description: self.description.clone(),
            proposer: self.proposer.clone(),
            start_height: self.start_height,
            expires: self.expires,
            msgs: copy_msgs(&self.msgs),
            status: self.status,
            votes: self.votes,
            threshold: self.threshold,
            total_weight: self.total_weight,
            deposit: self.deposit.clone(),
        }
    }
}

impl Proposal {
    /// Whether the threshold can be met and the votes can be counted.
    pub fn is_well_formed(&self) -> (well_formed: bool)
        ensures
            well_formed == self@.wf(),
    {
        self.threshold.is_valid() && self.votes.can_be_counted(&self.threshold)
            && self.votes.abstain <= self.total_weight
    }

    /// Whether the votes carry the proposal.
    pub fn is_passed(&self, block: &BlockInfo) -> (passed: bool)
        requires
            self@.wf(),
        ensures
            passed == self@.passed(*block),
    {
        match self.threshold {
            Threshold::AbsolutePercentage { percentage } => {
                self.votes.yes >= votes_needed(self.total_weight - self.votes.abstain, &percentage)
            },
            Threshold::ThresholdQuorum { threshold, quorum } => {
                if self.votes.total() < votes_needed(self.total_weight, &quorum) {
                    false
                } else if self.expires.is_expired(block) {
                    let opinions: u128 = self.votes.total() - self.votes.abstain;
                    self.votes.yes >= votes_needed(opinions, &threshold)
                } else {
                    let possible_opinions: u128 = self.total_weight - self.votes.abstain;
                    self.votes.yes >= votes_needed(possible_opinions, &threshold)
                }
            },
        }
    }

    /// Where the proposal stands in this block.
    pub fn current_status(&self, block: &BlockInfo) -> (status: Status)
        requires
            self@.wf(),
        ensures
            status == self@.status_at(*block),
    {
        let mut status = self.status;
        if status == Status::Open && self.is_passed(block) {
            status = Status::Passed;
        }
        if status == Status::Open && self.expires.is_expired(block) {
            status = Status::Rejected;
        }
        status
    }

    /// Sets the status to where the proposal stands in this block.
    pub fn update_status(&mut self, block: &BlockInfo)
        requires
            old(self)@.wf(),
        ensures
            final(self)@ == old(self)@.updated(*block),
    {
        self.status = self.current_status(block);
    }
}

} // verus!
