//! What the rules of voting come to, in plain numbers: when votes are enough, when time is up, where
//! a proposal stands, and how numbers and keys are written.
use crate::contract::chosen_expiration;
use crate::error::{ContractErrorView, PlatformErrorView};
use crate::expiration::{BlockInfo, Duration, Expiration};
use crate::order::text_before;
use crate::proposal::{carried, status_name, ProposalView, Status, Vote, Votes};
use crate::state::parsed_id;
use crate::text::{decimal, digit};
use crate::threshold::{share_of, Decimal, Threshold, ThresholdResponse};
use std::cmp::Ordering;
use vstd::prelude::*;
use vstd::utf8::encode_utf8;

verus! {

// ---------------------------------------------------------------------------------------------
// Enough votes
// ---------------------------------------------------------------------------------------------

/// So many votes make up a share of a weight: multiplied out, they are no less, but for what lies
/// beyond the ninth place. A share is given in units of ten to the power of minus eighteen.
pub open spec fn makes_up(votes: int, weight: int, share: u128) -> bool {
    (votes * 1_000_000_000 + 1) * 1_000_000_000 > weight * share
}

/// The number of votes that a share asks for is the least that makes up the share.
pub proof fn law_share_is_the_least(votes: int, weight: int, share: Decimal)
    ensures
        votes >= share_of(weight, share) <==> makes_up(votes, weight, share.atomics),
        makes_up(share_of(weight, share), weight, share.atomics),
        !makes_up(share_of(weight, share) - 1, weight, share.atomics),
{
    let product = weight * share.atomics;
    assert(share_of(weight, share) == (product / 1_000_000_000 + 1_000_000_000 - 1) / 1_000_000_000);
}

/// All that was cast, answer by answer.
pub open spec fn cast_in_all(votes: Votes) -> int {
    votes.yes + votes.no + votes.abstain + votes.veto
}

/// The votes win: where a share of all weight is asked for, the yes votes make up that share of all
/// weight that does not abstain. Where a turnout is asked for too, all votes together make up that
/// share of all weight; and the yes votes make up theirs of what does not abstain, among all votes
/// cast once voting is over, and among all weight before that.
pub open spec fn wins(threshold: Threshold, votes: Votes, total_weight: u128, voting_over: bool) -> bool {
    match threshold {
        Threshold::AbsolutePercentage { percentage } => makes_up(
            votes.yes as int,
            total_weight - votes.abstain,
            percentage.atomics,
        ),
        Threshold::ThresholdQuorum { threshold, quorum } => makes_up(
            cast_in_all(votes),
            total_weight as int,
            quorum.atomics,
        ) && makes_up(
            votes.yes as int,
            if voting_over {
                cast_in_all(votes) - votes.abstain
            } else {
                total_weight - votes.abstain
            },
            threshold.atomics,
        ),
    }
}

/// A proposal is carried just when its votes win.
pub proof fn law_what_carries(
    threshold: Threshold,
    votes: Votes,
    total_weight: u128,
    voting_over: bool,
)
    ensures
        carried(threshold, votes, total_weight, voting_over) <==> wins(
            threshold,
            votes,
            total_weight,
            voting_over,
        ),
{
    let (total, cast) = (total_weight as int, cast_in_all(votes));
    let (yes, away) = (votes.yes as int, votes.abstain as int);
    match threshold {
        Threshold::AbsolutePercentage { percentage } => {
            law_share_is_the_least(yes, total - away, percentage);
        },
        Threshold::ThresholdQuorum { threshold, quorum } => {
            law_share_is_the_least(cast, total, quorum);
            law_share_is_the_least(yes, cast - away, threshold);
            law_share_is_the_least(yes, total - away, threshold);
        },
    }
}

/// Before the end of voting, more yes votes never lose a proposal that was carried.
pub proof fn law_yes_never_hurts(
    threshold: Threshold,
    votes: Votes,
    more: Votes,
    total_weight: u128,
)
    requires
        more.yes >= votes.yes,
        more.no == votes.no,
        more.abstain == votes.abstain,
        more.veto == votes.veto,
    ensures
        carried(threshold, votes, total_weight, false) ==> carried(
            threshold,
            more,
            total_weight,
            false,
        ),
{
    law_what_carries(threshold, votes, total_weight, false);
    law_what_carries(threshold, more, total_weight, false);
}

/// A share is above nothing and at most the whole.
pub open spec fn sound_share(share: Decimal) -> bool {
    0 < share.atomics <= 1_000_000_000_000_000_000
}

/// A rule is adopted just when all its shares are above nothing and at most the whole. The first
/// share that is not decides how it is refused.
pub proof fn law_which_rules_are_adopted(rule: Threshold)
    ensures
        match rule {
            Threshold::AbsolutePercentage { percentage: first } => {
                &&& rule.valid() <==> sound_share(first)
                &&& first.atomics == 0 ==> rule.refusal() == Some(ContractErrorView::ZeroThreshold)
                &&& first.atomics > 1_000_000_000_000_000_000 ==> rule.refusal() == Some(
                    ContractErrorView::UnreachableThreshold,
                )
            },
            Threshold::ThresholdQuorum { threshold: first, quorum: second } => {
                &&& rule.valid() <==> sound_share(first) && sound_share(second)
                &&& first.atomics == 0 || (sound_share(first) && second.atomics == 0)
                    ==> rule.refusal() == Some(ContractErrorView::ZeroThreshold)
                &&& first.atomics > 1_000_000_000_000_000_000 || (sound_share(first)
                    && second.atomics > 1_000_000_000_000_000_000) ==> rule.refusal() == Some(
                    ContractErrorView::UnreachableThreshold,
                )
            },
        },
        rule.valid() <==> rule.refusal() is None,
{
}

/// A rule is shown with its own shares and the weight it is held against.
pub proof fn law_rules_are_shown(rule: Threshold, weight: u128)
    ensures
        match (rule, rule.response(weight)) {
            (
                Threshold::AbsolutePercentage { percentage },
                ThresholdResponse::AbsolutePercentage { percentage: shown, total_weight },
            ) => shown == percentage && total_weight == weight,
            (
                Threshold::ThresholdQuorum { threshold, quorum },
                ThresholdResponse::ThresholdQuorum { threshold: shown, quorum: turnout, total_weight },
            ) => shown == threshold && turnout == quorum && total_weight == weight,
            _ => false,
        },
{
}

// ---------------------------------------------------------------------------------------------
// Counting
// ---------------------------------------------------------------------------------------------

/// What was cast for an answer.
pub open spec fn cast(votes: Votes, answer: Vote) -> u128 {
    match answer {
        Vote::Yes => votes.yes,
        Vote::No => votes.no,
        Vote::Abstain => votes.abstain,
        Vote::Veto => votes.veto,
    }
}

/// Counting a vote adds its weight to its own answer and to no other, and so to the sum.
pub proof fn law_counting(votes: Votes, vote: Vote, weight: u128)
    requires
        cast(votes, vote) + weight <= u128::MAX,
    ensures
        forall|answer: Vote|
            cast(votes.with_vote(vote, weight), answer) == #[trigger] cast(votes, answer)
                + if answer == vote {
                weight as int
            } else {
                0
            },
        cast_in_all(votes.with_vote(vote, weight)) == cast_in_all(votes) + weight,
        forall|answer: Vote| votes.weight_for(answer) == #[trigger] cast(votes, answer),
        votes.sum() == cast_in_all(votes),
        forall|answer: Vote| #[trigger] cast(Votes::none(), answer) == 0,
{
}

/// There is room for a vote just when its own answer does not run over, abstentions stay within the
/// total weight, and, where a turnout is asked for, neither does the sum of all answers. Votes
/// without an overrun are well formed, and stay so.
pub proof fn law_room(
    votes: Votes,
    vote: Vote,
    weight: u128,
    threshold: Threshold,
    total_weight: u128,
)
    ensures
        votes.has_room(vote, weight, threshold, total_weight) <==> {
            &&& cast(votes, vote) + weight <= u128::MAX
            &&& vote == Vote::Abstain ==> votes.abstain + weight <= total_weight
            &&& threshold is ThresholdQuorum ==> cast_in_all(votes) + weight <= u128::MAX
        },
        votes.countable(threshold) <==> (threshold is ThresholdQuorum ==> cast_in_all(votes)
            <= u128::MAX),
{
}

/// A stored proposal is well formed just when its shares are sound, its votes can be added up if its
/// rule asks for that, and no more abstains than there is.
pub proof fn law_well_formed(proposal: ProposalView)
    ensures
        proposal.wf() <==> {
            &&& match proposal.threshold {
                Threshold::AbsolutePercentage { percentage } => sound_share(percentage),
                Threshold::ThresholdQuorum { threshold, quorum } => sound_share(threshold)
                    && sound_share(quorum) && cast_in_all(proposal.votes) <= u128::MAX,
            }
            &&& proposal.votes.abstain <= proposal.total_weight
        },
{
}

// ---------------------------------------------------------------------------------------------
// Time
// ---------------------------------------------------------------------------------------------

/// The block has come to the point in time.
pub open spec fn time_is_up(end: Expiration, block: BlockInfo) -> bool {
    ||| end matches Expiration::AtHeight(height) && height <= block.height
    ||| end matches Expiration::AtTime(time) && time <= block.time
}

/// The end of voting: the longest period from the block on, or an earlier point that is wished for.
/// A wish by height cannot be held against a period in seconds, nor one by time against a period in
/// blocks.
pub open spec fn end_of_voting(
    period: Duration,
    block: BlockInfo,
    wish: Option<Expiration>,
) -> Option<Expiration> {
    match period {
        Duration::Height(blocks) => match wish {
            Some(Expiration::AtTime(_)) => None,
            Some(Expiration::AtHeight(height)) if height <= block.height + blocks => Some(
                Expiration::AtHeight(height),
            ),
            _ => Some(Expiration::AtHeight((block.height + blocks) as u64)),
        },
        Duration::Time(seconds) => match wish {
            Some(Expiration::AtHeight(_)) => None,
            Some(Expiration::AtTime(time)) if time <= block.time + seconds * 1_000_000_000 => Some(
                Expiration::AtTime(time),
            ),
            _ => Some(Expiration::AtTime((block.time + seconds * 1_000_000_000) as u64)),
        },
    }
}

/// The end of the longest period can be written down.
pub open spec fn period_fits(period: Duration, block: BlockInfo) -> bool {
    match period {
        Duration::Height(blocks) => block.height + blocks <= u64::MAX,
        Duration::Time(seconds) => block.time + seconds * 1_000_000_000 <= u64::MAX,
    }
}

/// When time is up, where a period ends, how two points compare, and which end of voting is chosen.
pub proof fn law_time(
    period: Duration,
    block: BlockInfo,
    wish: Option<Expiration>,
    left: Expiration,
    right: Expiration,
)
    ensures
        left.reached(block) <==> time_is_up(left, block),
        period.fits_after(block) <==> period_fits(period, block),
        period_fits(period, block) ==> Some(period.end_after(block)) == end_of_voting(
            period,
            block,
            None,
        ),
        period_fits(period, block) ==> chosen_expiration(wish, period.end_after(block))
            == end_of_voting(period, block, wish),
        left.order(right) == Some(Ordering::Equal) <==> left == right,
        left.order(right) == Some(Ordering::Less) <==> right.order(left) == Some(Ordering::Greater),
        left.order(right) is None <==> (left is AtHeight && right is AtTime) || (left is AtTime
            && right is AtHeight),
        left.order(right) == Some(Ordering::Less) && time_is_up(right, block) ==> time_is_up(
            left,
            block,
        ),
{
}

/// Voting ends as soon as the wish of the proposer or the longest period is up, whichever comes
/// first; there is no end only if the two cannot be compared.
pub proof fn law_chosen_end(wish: Option<Expiration>, max: Expiration, block: BlockInfo)
    ensures
        match (wish, chosen_expiration(wish, max)) {
            (None, Some(end)) => end == max,
            (Some(point), Some(end)) => {
                &&& end == point || end == max
                &&& time_is_up(end, block) <==> time_is_up(point, block) || time_is_up(max, block)
            },
            (Some(point), None) => (point is AtHeight && max is AtTime) || (point is AtTime && max
                is AtHeight),
            (None, None) => false,
        },
        wish matches Some(point) && ((point is AtHeight && max is AtTime) || (point is AtTime && max
            is AtHeight)) ==> chosen_expiration(wish, max) is None,
{
}

/// Whatever can be compared and is not later in the order is reached no later, in any block.
pub proof fn law_order_is_the_order_of_ends(left: Expiration, right: Expiration)
    requires
        left.order(right) is Some,
    ensures
        left.order(right) != Some(Ordering::Greater) <==> forall|block: BlockInfo|
            #[trigger] time_is_up(right, block) ==> time_is_up(left, block),
{
    if left.order(right) == Some(Ordering::Greater) {
        let block = match right {
            Expiration::AtHeight(height) => BlockInfo { height, time: 0 },
            Expiration::AtTime(time) => BlockInfo { height: 0, time },
            Expiration::Never => BlockInfo { height: 0, time: 0 },
        };
        assert(time_is_up(right, block) && !time_is_up(left, block));
    }
}

// ---------------------------------------------------------------------------------------------
// Where a proposal stands
// ---------------------------------------------------------------------------------------------

/// Where a proposal with these votes stands in a block: an open one passes once its votes win and is
/// rejected if they do not by the end of voting; every other status stays.
pub open spec fn stands(
    status: Status,
    threshold: Threshold,
    votes: Votes,
    total_weight: u128,
    voting_over: bool,
) -> Status {
    if status == Status::Open && wins(threshold, votes, total_weight, voting_over) {
        Status::Passed
    } else if status == Status::Open && voting_over {
        Status::Rejected
    } else {
        status
    }
}

/// The status that a proposal has in a block, and that updating it stores, is where it stands;
/// nothing but the status is changed by that.
pub proof fn law_status_in_a_block(proposal: ProposalView, block: BlockInfo)
    ensures
        ({
            let status = stands(
                proposal.status,
                proposal.threshold,
                proposal.votes,
                proposal.total_weight,
                time_is_up(proposal.expires, block),
            );
            let updated = proposal.updated(block);
            &&& proposal.status_at(block) == status
            &&& updated.status == status
            &&& updated.title == proposal.title
            &&& updated.description == proposal.description
            &&& updated.proposer == proposal.proposer
            &&& updated.start_height == proposal.start_height
            &&& updated.expires == proposal.expires
            &&& updated.msgs == proposal.msgs
            &&& updated.votes == proposal.votes
            &&& updated.threshold == proposal.threshold
            &&& updated.total_weight == proposal.total_weight
            &&& updated.deposit == proposal.deposit
        }),
{
    law_what_carries(
        proposal.threshold,
        proposal.votes,
        proposal.total_weight,
        proposal.expires.reached(block),
    );
    law_time(Duration::Height(0), block, None, proposal.expires, proposal.expires);
}

/// Each status has its own name.
pub proof fn law_status_names(status: Status)
    ensures
        status_name(status) == match status {
            Status::Pending => "Pending"@,
            Status::Open => "Open"@,
            Status::Rejected => "Rejected"@,
            Status::Passed => "Passed"@,
            Status::Executed => "Executed"@,
        },
{
}

// ---------------------------------------------------------------------------------------------
// Numbers, keys and texts
// ---------------------------------------------------------------------------------------------

/// The number that a text of digits stands for.
pub open spec fn number_in(text: Seq<char>) -> int
    decreases text.len(),
{
    if text.len() == 0 {
        0
    } else {
        10 * number_in(text.drop_last()) + (text.last() as int - 48)
    }
}

/// A number that is written out reads as that number, in digits alone, and starts with a zero only
/// if it is zero.
pub proof fn law_numbers_read_back(n: nat)
    ensures
        number_in(decimal(n)) == n,
        decimal(n).len() > 0,
        forall|i: int| 0 <= i < decimal(n).len() ==> 48 <= (#[trigger] decimal(n)[i]) as int <= 57,
        decimal(n)[0] == '0' ==> n == 0,
    decreases n,
{
    reveal_strlit("0123456789");
    assert(forall|d: nat| d < 10 ==> (#[trigger] digit(d)) as int == 48 + d);
    reveal_with_fuel(number_in, 2);
    if n < 10 {
        assert(decimal(n).drop_last() =~= Seq::empty());
    } else {
        let upper = decimal(n / 10);
        law_numbers_read_back(n / 10);
        assert(decimal(n).drop_last() =~= upper);
        assert(decimal(n).last() == digit(n % 10));
        assert(decimal(n)[0] == upper[0]);
    }
}

/// A key of eight bytes stands for the number that these bytes are the digits of, in base 256. A key
/// of another length stands for none.
pub proof fn law_keys(key: Seq<u8>)
    ensures
        key.len() == 8 ==> parsed_id(key) == Ok::<nat, PlatformErrorView>(
            (key[0] * 0x100_0000_0000_0000 + key[1] * 0x1_0000_0000_0000 + key[2] * 0x100_0000_0000
                + key[3] * 0x1_0000_0000 + key[4] * 0x100_0000 + key[5] * 0x1_0000 + key[6] * 0x100
                + key[7]) as nat,
        ),
        key.len() != 8 ==> parsed_id(key) == Err::<nat, _>(
            PlatformErrorView::GenericErr { msg: "Corrupted data found. 8 byte expected."@ },
        ),
{
    reveal_with_fuel(crate::state::big_endian, 9);
    if key.len() == 8 {
        assert(key.drop_last() =~= key.take(7));
        assert(key.take(7).drop_last() =~= key.take(6));
        assert(key.take(6).drop_last() =~= key.take(5));
        assert(key.take(5).drop_last() =~= key.take(4));
        assert(key.take(4).drop_last() =~= key.take(3));
        assert(key.take(3).drop_last() =~= key.take(2));
        assert(key.take(2).drop_last() =~= key.take(1));
        assert(key.take(1).drop_last() =~= key.take(0));
    }
}

/// One text stands before another in the order of accounts: its bytes are the start of the other's,
/// or smaller where they first differ.
pub open spec fn stands_before(left: Seq<char>, right: Seq<char>) -> bool {
    let (a, b) = (encode_utf8(left), encode_utf8(right));
    exists|n: int|
        0 <= n <= a.len() && n < b.len() && #[trigger] a.take(n) == b.take(n) && (n == a.len() || a[n]
            < b[n])
}

/// The order of accounts is that of their bytes.
pub proof fn law_order_of_texts(left: Seq<char>, right: Seq<char>)
    ensures
        text_before(left, right) <==> stands_before(left, right),
{
    let (a, b) = (encode_utf8(left), encode_utf8(right));
    if text_before(left, right) {
        let n = choose|n: int| crate::order::smaller_at(a, b, n);
        assert(a.take(n) =~= b.take(n));
    }
    if stands_before(left, right) {
        let n = choose|n: int|
            0 <= n <= a.len() && n < b.len() && #[trigger] a.take(n) == b.take(n) && (n == a.len()
                || a[n] < b[n]);
        assert forall|i: int| 0 <= i < n implies a[i] == b[i] by {
            assert(a.take(n)[i] == b.take(n)[i]);
        }
        assert(crate::order::smaller_at(a, b, n));
    }
}

} // verus!
