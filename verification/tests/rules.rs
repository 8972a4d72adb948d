use cw_dao::error::{ContractError, PlatformError};
use cw_dao::expiration::{BlockInfo, Duration, Expiration};
use cw_dao::proposal::{Proposal, ProposalDeposit, Status, Vote, Votes};
use cw_dao::state::{id_key, parse_id};
use cw_dao::table::{BallotKey, Key, Table};
use cw_dao::text::decimal_text;
use cw_dao::threshold::{votes_needed, Decimal, Threshold, ThresholdResponse};

const PERCENT: u128 = 10_000_000_000_000_000;

fn percent(p: u128) -> Decimal {
    Decimal { atomics: p * PERCENT }
}

fn block(height: u64) -> BlockInfo {
    BlockInfo { height, time: 0 }
}

fn proposal(threshold: Threshold, votes: Votes, total_weight: u128, expires: u64) -> Proposal {
    Proposal {
        title: String::new(),
        description: String::new(),
        proposer: "alice".to_string(),
        start_height: 1,
        expires: Expiration::AtHeight(expires),
        msgs: vec![],
        status: Status::Open,
        votes,
        threshold,
        total_weight,
        deposit: ProposalDeposit { amount: 0, token_address: "t".to_string() },
    }
}

fn votes(yes: u128, no: u128, abstain: u128, veto: u128) -> Votes {
    Votes { yes, no, abstain, veto }
}

#[test]
fn votes_needed_rounds_up() {
    assert_eq!(votes_needed(3, &percent(1)), 1);
    assert_eq!(votes_needed(10, &percent(15)), 2);
    assert_eq!(votes_needed(37283, &percent(65)), 24234);
    assert_eq!(votes_needed(4, &percent(25)), 1);
    assert_eq!(votes_needed(20, &percent(75)), 15);
    assert_eq!(votes_needed(0, &percent(75)), 0);
    // two thirds, rounded up in the last place, of three is two
    assert_eq!(votes_needed(3, &Decimal { atomics: 666_666_666_666_666_667 }), 2);
    assert_eq!(votes_needed(u128::MAX, &percent(100)), u128::MAX);
    assert_eq!(votes_needed(u128::MAX, &percent(50)), u128::MAX / 2 + 1);
}

#[test]
fn threshold_validation() {
    let rule = |p| Threshold::AbsolutePercentage { percentage: Decimal { atomics: p } };
    assert_eq!(rule(0).validate(), Err(ContractError::ZeroThreshold));
    assert_eq!(rule(1).validate(), Ok(()));
    assert_eq!(rule(100 * PERCENT).validate(), Ok(()));
    assert_eq!(rule(100 * PERCENT + 1).validate(), Err(ContractError::UnreachableThreshold));
    let both = |t, q| Threshold::ThresholdQuorum { threshold: percent(t), quorum: percent(q) };
    assert_eq!(both(0, 101).validate(), Err(ContractError::ZeroThreshold));
    assert_eq!(both(101, 0).validate(), Err(ContractError::UnreachableThreshold));
    assert_eq!(both(50, 0).validate(), Err(ContractError::ZeroThreshold));
    assert_eq!(both(50, 101).validate(), Err(ContractError::UnreachableThreshold));
    assert_eq!(both(50, 30).validate(), Ok(()));
    assert!(both(50, 30).is_valid());
}

#[test]
fn threshold_response_carries_the_weight() {
    assert_eq!(
        Threshold::AbsolutePercentage { percentage: percent(5) }.to_response(8),
        ThresholdResponse::AbsolutePercentage { percentage: percent(5), total_weight: 8 }
    );
    assert_eq!(
        Threshold::ThresholdQuorum { threshold: percent(5), quorum: percent(6) }.to_response(9),
        ThresholdResponse::ThresholdQuorum {
            threshold: percent(5),
            quorum: percent(6),
            total_weight: 9
        }
    );
}

#[test]
fn absolute_percentage_leaves_out_abstentions() {
    let rule = Threshold::AbsolutePercentage { percentage: percent(50) };
    // 15 less 5 abstentions leaves 10, of which half is 5
    assert!(proposal(rule, votes(5, 0, 5, 0), 15, 9).is_passed(&block(1)));
    assert!(!proposal(rule, votes(4, 0, 5, 0), 15, 9).is_passed(&block(1)));
    assert!(!proposal(rule, votes(7, 0, 0, 0), 15, 9).is_passed(&block(20)));
    assert!(proposal(rule, votes(8, 7, 0, 0), 15, 9).is_passed(&block(20)));
}

#[test]
fn quorum_counts_only_cast_votes_after_the_end() {
    let rule = Threshold::ThresholdQuorum { threshold: percent(51), quorum: percent(40) };
    // 30 total: quorum is 12
    let few = proposal(rule, votes(11, 0, 0, 0), 30, 9);
    assert!(!few.is_passed(&block(1)));
    assert!(!few.is_passed(&block(9)));
    let some = proposal(rule, votes(7, 3, 2, 0), 30, 9);
    assert!(!some.is_passed(&block(1)));
    assert!(some.is_passed(&block(9)));
    let many = proposal(rule, votes(15, 3, 2, 0), 30, 9);
    assert!(many.is_passed(&block(1)));
    let vetoed = proposal(rule, votes(7, 3, 0, 4), 30, 9);
    assert!(!vetoed.is_passed(&block(9)));
}

#[test]
fn status_follows_votes_and_time() {
    let rule = Threshold::ThresholdQuorum { threshold: percent(51), quorum: percent(40) };
    let mut open = proposal(rule, votes(1, 0, 0, 0), 30, 9);
    assert_eq!(open.current_status(&block(8)), Status::Open);
    assert_eq!(open.current_status(&block(9)), Status::Rejected);
    open.update_status(&block(8));
    assert_eq!(open.status, Status::Open);
    open.update_status(&block(9));
    assert_eq!(open.status, Status::Rejected);
    open.update_status(&block(8));
    assert_eq!(open.status, Status::Rejected);
    let mut late = proposal(rule, votes(7, 3, 2, 0), 30, 9);
    assert_eq!(late.current_status(&block(9)), Status::Passed);
    late.status = Status::Executed;
    assert_eq!(late.current_status(&block(9)), Status::Executed);
    late.status = Status::Pending;
    assert_eq!(late.current_status(&block(9)), Status::Pending);
}

#[test]
fn early_pass_outlasts_later_votes() {
    let rule = Threshold::ThresholdQuorum { threshold: percent(51), quorum: percent(40) };
    assert!(proposal(rule, votes(16, 0, 0, 0), 30, 9).is_passed(&block(1)));
    for (no, abstain, veto) in [(14, 0, 0), (0, 14, 0), (0, 0, 14), (5, 5, 4)] {
        let later = proposal(rule, votes(16, no, abstain, veto), 30, 9);
        assert!(later.is_passed(&block(1)));
        assert!(later.is_passed(&block(9)));
    }
}

#[test]
fn well_formed_proposals() {
    let rule = Threshold::AbsolutePercentage { percentage: percent(50) };
    assert!(proposal(rule, votes(1, 2, 3, 4), 3, 9).is_well_formed());
    assert!(!proposal(rule, votes(1, 2, 3, 4), 2, 9).is_well_formed());
    assert!(proposal(rule, votes(u128::MAX, 1, 0, 0), 2, 9).is_well_formed());
    assert!(proposal(rule, votes(u128::MAX - 2, 1, 1, 1), 2, 9).is_well_formed());
    let quorum = Threshold::ThresholdQuorum { threshold: percent(50), quorum: percent(10) };
    assert!(proposal(quorum, votes(u128::MAX - 2, 1, 1, 0), 2, 9).is_well_formed());
    assert!(!proposal(quorum, votes(u128::MAX, 1, 0, 0), 2, 9).is_well_formed());
    assert!(!proposal(quorum, votes(u128::MAX - 2, 1, 1, 1), 2, 9).is_well_formed());
    let none = Threshold::AbsolutePercentage { percentage: percent(0) };
    assert!(!proposal(none, votes(0, 0, 0, 0), 2, 9).is_well_formed());
}

#[test]
fn adding_votes() {
    let mut tally = votes(0, 0, 0, 0);
    tally.add_vote(Vote::Yes, 1);
    tally.add_vote(Vote::No, 2);
    tally.add_vote(Vote::Abstain, 3);
    tally.add_vote(Vote::Veto, 4);
    tally.add_vote(Vote::Yes, 5);
    assert_eq!(tally, votes(6, 2, 3, 4));
    assert_eq!(tally.total(), 15);
    assert_eq!(tally.checked_total(), Some(15));
    assert_eq!(votes(u128::MAX, 0, 0, 1).checked_total(), None);
    let share = Threshold::AbsolutePercentage { percentage: percent(50) };
    let quorum = Threshold::ThresholdQuorum { threshold: percent(50), quorum: percent(10) };
    for rule in [share, quorum] {
        assert!(tally.can_add_vote(Vote::Abstain, 7, &rule, 10));
        assert!(!tally.can_add_vote(Vote::Abstain, 8, &rule, 10));
        assert!(tally.can_add_vote(Vote::Yes, u128::MAX - 15, &rule, 10));
    }
    assert!(tally.can_add_vote(Vote::Yes, u128::MAX - 6, &share, 10));
    assert!(!tally.can_add_vote(Vote::Yes, u128::MAX - 5, &share, 10));
    assert!(!tally.can_add_vote(Vote::Yes, u128::MAX - 14, &quorum, 10));
}

#[test]
fn expirations() {
    let now = BlockInfo { height: 10, time: 500 };
    assert!(Expiration::AtHeight(10).is_expired(&now));
    assert!(!Expiration::AtHeight(11).is_expired(&now));
    assert!(Expiration::AtTime(500).is_expired(&now));
    assert!(!Expiration::AtTime(501).is_expired(&now));
    assert!(!Expiration::Never.is_expired(&now));
}

#[test]
fn durations() {
    let now = BlockInfo { height: 10, time: 500 };
    assert_eq!(Duration::Height(7).after(&now), Expiration::AtHeight(17));
    assert_eq!(Duration::Time(2).after(&now), Expiration::AtTime(2_000_000_500));
    assert!(Duration::Height(u64::MAX - 10).can_be_added_to(&now));
    assert!(!Duration::Height(u64::MAX - 9).can_be_added_to(&now));
    assert!(Duration::Time((u64::MAX - 500) / 1_000_000_000).can_be_added_to(&now));
    assert!(!Duration::Time((u64::MAX - 500) / 1_000_000_000 + 1).can_be_added_to(&now));
    let last = Duration::Time((u64::MAX - 500) / 1_000_000_000).after(&now);
    assert!(!last.is_expired(&now));
}

#[test]
fn status_names() {
    let names: Vec<String> = [
        Status::Pending,
        Status::Open,
        Status::Rejected,
        Status::Passed,
        Status::Executed,
    ]
    .iter()
    .map(|status| status.name())
    .collect();
    assert_eq!(names, ["Pending", "Open", "Rejected", "Passed", "Executed"]);
    for status in [Status::Pending, Status::Open, Status::Executed] {
        assert_eq!(status.name(), format!("{:?}", status));
    }
}

#[test]
fn numbers_in_decimal() {
    for number in [0u64, 7, 9, 10, 11, 99, 100, 1_234_567_890, u64::MAX] {
        assert_eq!(decimal_text(number), format!("{}", number));
    }
}

#[test]
fn identifiers_from_keys() {
    assert_eq!(parse_id(&vec![0, 0, 0, 0, 0, 0, 1, 2]), Ok(258));
    assert_eq!(parse_id(&vec![255; 8]), Ok(u64::MAX));
    for number in [0u64, 1, 0x0102030405060708, u64::MAX - 1] {
        assert_eq!(id_key(number), number.to_be_bytes().to_vec());
        assert_eq!(parse_id(&id_key(number)), Ok(number));
    }
    let corrupted = || PlatformError::GenericErr {
        msg: "Corrupted data found. 8 byte expected.".to_string(),
    };
    assert_eq!(parse_id(&vec![1, 2, 3]), Err(corrupted()));
    assert_eq!(parse_id(&vec![0; 9]), Err(corrupted()));
}

#[test]
fn ballot_keys_are_ordered_as_bytes() {
    let key = |proposal_id, voter: &str| BallotKey { proposal_id, voter: voter.to_string() };
    assert!(key(1, "z").is_before(&key(2, "a")));
    assert!(key(1, "a").is_before(&key(1, "b")));
    assert!(key(1, "").is_before(&key(1, "a")));
    assert!(key(1, "ab").is_before(&key(1, "abc")));
    assert!(!key(1, "abc").is_before(&key(1, "ab")));
    assert!(!key(1, "a").is_before(&key(1, "a")));
    assert!(key(1, "Z").is_before(&key(1, "a")));
    assert!(key(1, "z").is_before(&key(1, "\u{e9}")));
    assert!(key(1, "\u{ffff}").is_before(&key(1, "\u{10000}")));
}

#[test]
fn tables_keep_their_order() {
    let mut table: Table<u64, cw_dao::proposal::Ballot> = Table::new();
    let ballot = |weight| cw_dao::proposal::Ballot { weight, vote: Vote::Yes };
    for key in [5u64, 1, 9, 3, 7, 3] {
        table.insert(key, ballot(key as u128));
    }
    table.insert(9, ballot(90));
    assert_eq!(table.len(), 5);
    let keys: Vec<u64> = (0..5).map(|row| *table.key_at(row)).collect();
    assert_eq!(keys, [1, 3, 5, 7, 9]);
    assert_eq!(table.get(&9), Some(&ballot(90)));
    assert_eq!(table.get(&4), None);
    assert_eq!(table.first_from(&3), 1);
    assert_eq!(table.first_after(&3), 2);
    assert_eq!(table.first_from(&4), 2);
    assert_eq!(table.first_after(&4), 2);
    assert_eq!(table.first_from(&10), 5);
    assert_eq!(table.first_after(&0), 0);
    assert_eq!(table.record_at(0), &ballot(1));
}
