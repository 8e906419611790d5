use realm256::decimal::{Decimal, ATTOS_PER_UNIT};
use realm256::error::DaoError;
use realm256::proposal::Status;
use realm256::tally::{lookup_stake, quorum_outcome, tally_outcome, vote_weight, StakeEntry};
use realm256::time::Instant;
use realm256::vote::{Address, Vote, VoteTally};

fn units(n: u64) -> Decimal {
    Decimal::from_units(n)
}

fn attos(n: u128) -> Decimal {
    Decimal::from_attos(n)
}

fn who(n: u128) -> Address {
    Address { hi: 0, lo: n }
}

#[test]
fn from_units_scales_by_ten_to_the_eighteenth() {
    assert_eq!(units(0).attos, 0);
    assert_eq!(units(1).attos, 1_000_000_000_000_000_000);
    assert_eq!(units(200).attos, 200 * ATTOS_PER_UNIT);
    assert_eq!(units(u64::MAX).attos, (u64::MAX as u128) * ATTOS_PER_UNIT);
}

#[test]
fn whole_units_only_without_fraction() {
    assert_eq!(units(7).whole_units(), Some(7));
    assert_eq!(attos(0).whole_units(), Some(0));
    assert_eq!(attos(ATTOS_PER_UNIT + 1).whole_units(), None);
    assert_eq!(attos(1).whole_units(), None);
}

#[test]
fn checked_add_reports_overflow() {
    assert_eq!(units(2).checked_add(units(3)), Some(units(5)));
    assert_eq!(attos(u128::MAX).checked_add(attos(0)), Some(attos(u128::MAX)));
    assert_eq!(attos(u128::MAX).checked_add(attos(1)), None);
}

#[test]
fn vote_weight_multiplies_and_rounds_down() {
    // 1.5 * 2.5 = 3.75
    assert_eq!(
        vote_weight(attos(1_500_000_000_000_000_000), attos(2_500_000_000_000_000_000)),
        Some(attos(3_750_000_000_000_000_000))
    );
    // 150 * 1 = 150
    assert_eq!(vote_weight(units(150), units(1)), Some(units(150)));
    // one atto times a half is less than an atto
    assert_eq!(vote_weight(attos(1), attos(500_000_000_000_000_000)), Some(attos(0)));
    // three attos times a half is one atto and a half
    assert_eq!(vote_weight(attos(3), attos(500_000_000_000_000_000)), Some(attos(1)));
    assert_eq!(vote_weight(units(0), units(9)), Some(units(0)));
}

#[test]
fn vote_weight_beyond_the_range_is_none() {
    assert_eq!(vote_weight(attos(u128::MAX), units(2)), None);
    assert_eq!(vote_weight(attos(u128::MAX), attos(u128::MAX)), None);
    assert_eq!(vote_weight(attos(u128::MAX), units(1)), Some(attos(u128::MAX)));
    assert_eq!(
        vote_weight(attos(u128::MAX), attos(ATTOS_PER_UNIT + 1)),
        None
    );
}

#[test]
fn share_at_least_compares_without_rounding() {
    // 1 / 1000 reaches 0.001
    assert!(Decimal::share_at_least(units(1), units(1000), attos(1_000_000_000_000_000)));
    // 1 / 1001 does not
    assert!(!Decimal::share_at_least(units(1), units(1001), attos(1_000_000_000_000_000)));
    // 150 / 200 reaches 0.6 and 0.75, not 0.76
    assert!(Decimal::share_at_least(units(150), units(200), attos(600_000_000_000_000_000)));
    assert!(Decimal::share_at_least(units(150), units(200), attos(750_000_000_000_000_000)));
    assert!(!Decimal::share_at_least(units(150), units(200), attos(760_000_000_000_000_000)));
    // 1 / 3 reaches 0.333333333333333333 and nothing above it
    assert!(Decimal::share_at_least(units(1), units(3), attos(333_333_333_333_333_333)));
    assert!(!Decimal::share_at_least(units(1), units(3), attos(333_333_333_333_333_334)));
}

#[test]
fn share_of_nothing_reaches_no_ratio() {
    assert!(!Decimal::share_at_least(units(1), units(0), units(0)));
    assert!(!Decimal::share_at_least(units(0), units(0), units(0)));
    assert!(Decimal::share_at_least(units(0), units(1), units(0)));
}

#[test]
fn share_too_large_for_a_decimal_reaches_every_ratio() {
    assert!(Decimal::share_at_least(attos(u128::MAX), attos(1), attos(u128::MAX)));
    assert!(Decimal::share_at_least(attos(u128::MAX), attos(1), units(1)));
}

#[test]
fn parse_reads_decimals() {
    assert_eq!(Decimal::parse(&"0.001".to_string()), Some(attos(1_000_000_000_000_000)));
    assert_eq!(Decimal::parse(&"10".to_string()), Some(units(10)));
    assert_eq!(Decimal::parse(&"0".to_string()), Some(units(0)));
    assert_eq!(Decimal::parse(&"0.6".to_string()), Some(attos(600_000_000_000_000_000)));
    assert_eq!(
        Decimal::parse(&"1.000000000000000001".to_string()),
        Some(attos(ATTOS_PER_UNIT + 1))
    );
}

#[test]
fn parse_refuses_what_is_no_decimal_in_range() {
    assert_eq!(Decimal::parse(&"".to_string()), None);
    assert_eq!(Decimal::parse(&"abc".to_string()), None);
    assert_eq!(Decimal::parse(&"1.2.3".to_string()), None);
    assert_eq!(Decimal::parse(&".5".to_string()), None);
    assert_eq!(Decimal::parse(&"-1".to_string()), None);
    assert_eq!(Decimal::parse(&"-0.5".to_string()), None);
    assert_eq!(Decimal::parse(&"1.0000000000000000001".to_string()), None);
    // beyond 128 bits of attos
    assert_eq!(Decimal::parse(&"1000000000000000000000".to_string()), None);
}

#[test]
fn add_days_is_exact() {
    assert_eq!(Instant::new(0).add_days(1), Some(Instant::new(86_400)));
    assert_eq!(
        Instant::new(1_699_999_980).add_days(10),
        Some(Instant::new(1_700_863_980))
    );
    assert_eq!(Instant::new(100).add_days(-1), Some(Instant::new(100 - 86_400)));
    assert_eq!(Instant::new(5).add_days(0), Some(Instant::new(5)));
}

#[test]
fn add_days_reports_overflow() {
    assert_eq!(Instant::new(0).add_days(i64::MAX), None);
    assert_eq!(Instant::new(i64::MAX).add_days(1), None);
    assert_eq!(Instant::new(i64::MIN).add_days(-1), None);
    assert_eq!(Instant::new(0).add_days(i64::MAX / 86_400 + 1), None);
    assert_eq!(
        Instant::new(0).add_days(i64::MAX / 86_400),
        Some(Instant::new((i64::MAX / 86_400) * 86_400))
    );
}

#[test]
fn rounding_goes_down_to_the_minute() {
    assert_eq!(Instant::new(125).rounded_to_minutes(), Some(Instant::new(120)));
    assert_eq!(Instant::new(120).rounded_to_minutes(), Some(Instant::new(120)));
    assert_eq!(Instant::new(59).rounded_to_minutes(), Some(Instant::new(0)));
    assert_eq!(Instant::new(0).rounded_to_minutes(), Some(Instant::new(0)));
    assert_eq!(Instant::new(-1).rounded_to_minutes(), Some(Instant::new(-60)));
    assert_eq!(Instant::new(-60).rounded_to_minutes(), Some(Instant::new(-60)));
    assert_eq!(Instant::new(-61).rounded_to_minutes(), Some(Instant::new(-120)));
    assert_eq!(
        Instant::new(1_700_000_000).rounded_to_minutes(),
        Some(Instant::new(1_699_999_980))
    );
}

#[test]
fn rounding_below_the_first_timestamp_is_none() {
    // i64::MIN is 52 seconds into its minute
    assert_eq!(Instant::new(i64::MIN).rounded_to_minutes(), None);
    assert_eq!(Instant::new(i64::MIN + 7).rounded_to_minutes(), None);
    assert_eq!(
        Instant::new(i64::MIN + 8).rounded_to_minutes(),
        Some(Instant::new(i64::MIN + 8))
    );
    assert_eq!(
        Instant::new(i64::MIN + 9).rounded_to_minutes(),
        Some(Instant::new(i64::MIN + 8))
    );
}

#[test]
fn quorum_arithmetic() {
    let threshold = attos(600_000_000_000_000_000);
    assert_eq!(
        quorum_outcome(units(150), units(50), threshold),
        Ok(Status::ProposalActionCompleted)
    );
    assert_eq!(
        quorum_outcome(units(50), units(150), threshold),
        Ok(Status::ProposalRejected)
    );
}

#[test]
fn quorum_at_the_threshold_passes() {
    // 3 of 5 is 0.6
    assert_eq!(
        quorum_outcome(units(3), units(2), attos(600_000_000_000_000_000)),
        Ok(Status::ProposalActionCompleted)
    );
    assert_eq!(
        quorum_outcome(units(3), units(2), attos(600_000_000_000_000_001)),
        Ok(Status::ProposalRejected)
    );
    assert_eq!(
        quorum_outcome(units(1), units(0), units(1)),
        Ok(Status::ProposalActionCompleted)
    );
}

#[test]
fn quorum_without_weight_is_rejected() {
    assert_eq!(quorum_outcome(units(0), units(0), units(0)), Ok(Status::ProposalRejected));
    assert_eq!(
        quorum_outcome(units(0), units(0), attos(600_000_000_000_000_000)),
        Ok(Status::ProposalRejected)
    );
}

#[test]
fn quorum_with_a_threshold_above_one_never_passes() {
    assert_eq!(quorum_outcome(units(10), units(0), units(200)), Ok(Status::ProposalRejected));
}

#[test]
fn quorum_beyond_the_range_is_an_overflow() {
    assert_eq!(
        quorum_outcome(attos(u128::MAX), attos(1), units(0)),
        Err(DaoError::ArithmeticOverflow)
    );
    assert_eq!(
        quorum_outcome(attos(u128::MAX), attos(0), units(1)),
        Ok(Status::ProposalActionCompleted)
    );
}

#[test]
fn lookup_stake_takes_the_first_line() {
    let stakes = vec![
        StakeEntry { holder: who(1), stake: units(10) },
        StakeEntry { holder: who(2), stake: units(20) },
        StakeEntry { holder: who(1), stake: units(99) },
    ];
    assert_eq!(lookup_stake(&stakes, who(1)), units(10));
    assert_eq!(lookup_stake(&stakes, who(2)), units(20));
    assert_eq!(lookup_stake(&stakes, who(3)), units(0));
    assert_eq!(lookup_stake(&Vec::new(), who(1)), units(0));
}

#[test]
fn tally_weighs_by_stake_and_ratio() {
    let mut tally = VoteTally::new();
    tally.cast(who(1), Vote::Yes);
    tally.cast(who(2), Vote::No);
    tally.cast(who(3), Vote::Blank);
    let stakes = vec![
        StakeEntry { holder: who(1), stake: units(75) },
        StakeEntry { holder: who(2), stake: units(25) },
        StakeEntry { holder: who(3), stake: units(1_000_000) },
    ];
    // yes 150, no 50 under a ratio of 2
    assert_eq!(
        tally_outcome(&tally, &stakes, units(2), attos(750_000_000_000_000_000)),
        Ok(Status::ProposalActionCompleted)
    );
    assert_eq!(
        tally_outcome(&tally, &stakes, units(2), attos(750_000_000_000_000_001)),
        Ok(Status::ProposalRejected)
    );
}

#[test]
fn tally_without_votes_is_rejected() {
    let tally = VoteTally::new();
    let stakes = vec![StakeEntry { holder: who(1), stake: units(75) }];
    assert_eq!(
        tally_outcome(&tally, &stakes, units(1), units(0)),
        Ok(Status::ProposalRejected)
    );
    assert_eq!(
        tally_outcome(&tally, &Vec::new(), units(0), units(0)),
        Ok(Status::ProposalRejected)
    );
}

#[test]
fn tally_of_blank_votes_alone_is_rejected() {
    let mut tally = VoteTally::new();
    tally.cast(who(1), Vote::Blank);
    tally.cast(who(2), Vote::Blank);
    let stakes = vec![
        StakeEntry { holder: who(1), stake: units(75) },
        StakeEntry { holder: who(2), stake: attos(u128::MAX) },
    ];
    assert_eq!(
        tally_outcome(&tally, &stakes, units(5), units(0)),
        Ok(Status::ProposalRejected)
    );
}

#[test]
fn tally_counts_voters_without_stake_as_zero() {
    let mut tally = VoteTally::new();
    tally.cast(who(1), Vote::Yes);
    tally.cast(who(2), Vote::No);
    let stakes = vec![StakeEntry { holder: who(2), stake: units(1) }];
    assert_eq!(
        tally_outcome(&tally, &stakes, units(1), attos(1)),
        Ok(Status::ProposalRejected)
    );
    let stakes = vec![StakeEntry { holder: who(1), stake: units(1) }];
    assert_eq!(
        tally_outcome(&tally, &stakes, units(1), units(1)),
        Ok(Status::ProposalActionCompleted)
    );
}

#[test]
fn tally_beyond_the_range_is_an_overflow() {
    let mut tally = VoteTally::new();
    tally.cast(who(1), Vote::Yes);
    tally.cast(who(2), Vote::No);
    let stakes = vec![
        StakeEntry { holder: who(1), stake: attos(u128::MAX) },
        StakeEntry { holder: who(2), stake: attos(1) },
    ];
    assert_eq!(
        tally_outcome(&tally, &stakes, units(1), units(0)),
        Err(DaoError::ArithmeticOverflow)
    );
    // a single weight beyond the range
    let mut tally = VoteTally::new();
    tally.cast(who(1), Vote::No);
    assert_eq!(
        tally_outcome(&tally, &stakes, units(2), units(0)),
        Err(DaoError::ArithmeticOverflow)
    );
}

#[test]
fn revote_overwrites_in_the_tally() {
    let mut tally = VoteTally::new();
    tally.cast(who(7), Vote::Yes);
    tally.cast(who(8), Vote::Blank);
    tally.cast(who(7), Vote::No);
    assert_eq!(tally.len(), 2);
    assert_eq!(tally.get(who(7)), Some(Vote::No));
    assert_eq!(tally.get(who(8)), Some(Vote::Blank));
    assert_eq!(tally.get(who(9)), None);
    assert_eq!(tally.entry(0).voter, who(7));
    assert_eq!(tally.entry(0).choice, Vote::No);
    assert_eq!(tally.entry(1).voter, who(8));
}
