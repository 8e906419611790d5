use realm256::config::{DaoConfiguraiton, FieldUpdate};
use realm256::dao::Dao;
use realm256::decimal::Decimal;
use realm256::error::DaoError;
use realm256::proposal::{
    validate, CommonProposalData, DaoConfigChangeMetadata, NftCollectionConfigChangeMetadata,
    NftCollectionWhiteListMetadata, ProposalDataTypes, ProposalMetadata, Status,
};
use realm256::store::{BoundedStore, ProposalId};
use realm256::tally::StakeEntry;
use realm256::time::Instant;
use realm256::vote::{Address, Vote};

const T: i64 = 1_700_000_000;
const T_MINUTE: i64 = 1_699_999_980;
const TEN_DAYS: i64 = 864_000;

fn units(n: u64) -> Decimal {
    Decimal::from_units(n)
}

fn who(n: u128) -> Address {
    Address { hi: 0, lo: n }
}

fn id(n: u128) -> ProposalId {
    ProposalId { hi: 1, lo: n }
}

fn config(max_open: u64) -> DaoConfiguraiton {
    DaoConfiguraiton {
        quorum_threshold: Decimal::from_attos(600_000_000_000_000_000),
        vote_weight_ratio: units(1),
        min_stake_ratio_to_propose: Decimal::from_attos(1_000_000_000_000_000),
        creation_fee: units(5),
        proposal_period_days: 10,
        max_open_proposals: max_open,
    }
}

fn engine(max_open: u64) -> Dao {
    Dao::new(config(max_open)).unwrap()
}

fn whitelist(n: u128) -> NftCollectionWhiteListMetadata {
    NftCollectionWhiteListMetadata { resource_address: who(n) }
}

fn change(name: &str, value: &str) -> FieldUpdate {
    FieldUpdate { name: name.to_string(), value: value.to_string() }
}

fn open_whitelist(dao: &mut Dao, n: u128) -> Result<ProposalId, DaoError> {
    dao.create_nft_collection_whitelist_proposal(
        whitelist(n),
        format!("whitelist {}", n),
        units(1),
        units(1000),
        units(5),
        Instant::new(T),
        id(n),
    )
}

fn stakes_150_50() -> Vec<StakeEntry> {
    vec![
        StakeEntry { holder: who(1), stake: units(150) },
        StakeEntry { holder: who(2), stake: units(50) },
    ]
}

#[test]
fn instantiate_dao_starts_with_the_default_configuration() {
    let dao = Dao::instantiate_dao();
    let c = dao.get_config();
    assert_eq!(c.quorum_threshold, units(200));
    assert_eq!(c.vote_weight_ratio, units(1));
    assert_eq!(c.min_stake_ratio_to_propose, Decimal::from_attos(1_000_000_000_000_000));
    assert_eq!(c.creation_fee, units(0));
    assert_eq!(c.proposal_period_days, 10);
    assert_eq!(c.max_open_proposals, 20);
    assert_eq!(c, DaoConfiguraiton::default_config());
    assert_eq!(dao.count(ProposalDataTypes::NftCollectionWhiteListProposalData), 0);
    assert_eq!(dao.count(ProposalDataTypes::NftCollectionConfigChangeProposalData), 0);
    assert_eq!(dao.count(ProposalDataTypes::DaoConfigChangeProposalData), 0);
}

#[test]
fn new_refuses_an_invalid_configuration() {
    let mut c = config(3);
    c.proposal_period_days = 0;
    assert!(matches!(Dao::new(c), Err(DaoError::ConfigurationInvalid)));
    c.proposal_period_days = -4;
    assert!(matches!(Dao::new(c), Err(DaoError::ConfigurationInvalid)));
    c.proposal_period_days = 1;
    assert!(Dao::new(c).is_ok());
}

#[test]
fn capacity_invariant() {
    let mut dao = engine(2);
    let kind = ProposalDataTypes::NftCollectionWhiteListProposalData;
    assert_eq!(open_whitelist(&mut dao, 1), Ok(id(1)));
    assert_eq!(dao.count(kind), 1);
    assert_eq!(open_whitelist(&mut dao, 2), Ok(id(2)));
    assert_eq!(dao.count(kind), 2);
    assert_eq!(open_whitelist(&mut dao, 3), Err(DaoError::CapacityExceeded));
    assert_eq!(dao.count(kind), 2);
    assert_eq!(dao.kind_of(id(3)), None);
    assert!(dao.get_proposal(id(3)).is_none());
    assert_eq!(open_whitelist(&mut dao, 4), Err(DaoError::CapacityExceeded));
    assert_eq!(dao.count(kind), 2);
    assert_eq!(dao.kind_of(id(1)), Some(kind));
    assert_eq!(dao.kind_of(id(2)), Some(kind));
}

#[test]
fn capacity_is_counted_for_each_kind() {
    let mut dao = engine(1);
    assert_eq!(open_whitelist(&mut dao, 1), Ok(id(1)));
    assert_eq!(open_whitelist(&mut dao, 2), Err(DaoError::CapacityExceeded));
    let r = dao.create_dao_config_change_proposal(
        DaoConfigChangeMetadata { update_fields: vec![change("creation_fee", "1")] },
        "fee".to_string(),
        units(1),
        units(1000),
        units(5),
        Instant::new(T),
        id(10),
    );
    assert_eq!(r, Ok(id(10)));
    let r = dao.create_nft_collection_config_change_proposal(
        NftCollectionConfigChangeMetadata {
            resource_address: who(5),
            update_fields: vec![change("royalty", "0.02")],
        },
        "royalty".to_string(),
        units(1),
        units(1000),
        units(5),
        Instant::new(T),
        id(11),
    );
    assert_eq!(r, Ok(id(11)));
    assert_eq!(dao.count(ProposalDataTypes::NftCollectionWhiteListProposalData), 1);
    assert_eq!(dao.count(ProposalDataTypes::NftCollectionConfigChangeProposalData), 1);
    assert_eq!(dao.count(ProposalDataTypes::DaoConfigChangeProposalData), 1);
    assert_eq!(
        dao.kind_of(id(11)),
        Some(ProposalDataTypes::NftCollectionConfigChangeProposalData)
    );
    assert_eq!(dao.kind_of(id(10)), Some(ProposalDataTypes::DaoConfigChangeProposalData));
}

#[test]
fn capacity_of_zero_admits_nothing() {
    let mut dao = engine(0);
    assert_eq!(open_whitelist(&mut dao, 1), Err(DaoError::CapacityExceeded));
    assert_eq!(dao.count(ProposalDataTypes::NftCollectionWhiteListProposalData), 0);
}

#[test]
fn validation_gate() {
    let mut dao = engine(5);
    let r = dao.create_proposal(
        ProposalDataTypes::NftCollectionWhiteListProposalData,
        ProposalMetadata::NftCollectionConfigChange(NftCollectionConfigChangeMetadata {
            resource_address: who(5),
            update_fields: vec![change("royalty", "0.02")],
        }),
        "mismatch".to_string(),
        units(1),
        units(1000),
        units(5),
        Instant::new(T),
        id(1),
    );
    assert_eq!(r, Err(DaoError::InvalidMetadataForKind));
    assert_eq!(dao.count(ProposalDataTypes::NftCollectionWhiteListProposalData), 0);
    assert_eq!(dao.count(ProposalDataTypes::NftCollectionConfigChangeProposalData), 0);
    assert_eq!(dao.kind_of(id(1)), None);
}

#[test]
fn validate_matches_every_kind_with_its_shape_only() {
    let kinds = [
        ProposalDataTypes::NftCollectionWhiteListProposalData,
        ProposalDataTypes::NftCollectionConfigChangeProposalData,
        ProposalDataTypes::DaoConfigChangeProposalData,
    ];
    for (k, kind) in kinds.iter().enumerate() {
        for shape in 0..3 {
            let metadata = match shape {
                0 => ProposalMetadata::NftCollectionWhiteList(whitelist(1)),
                1 => ProposalMetadata::NftCollectionConfigChange(
                    NftCollectionConfigChangeMetadata {
                        resource_address: who(1),
                        update_fields: Vec::new(),
                    },
                ),
                _ => ProposalMetadata::DaoConfigChange(DaoConfigChangeMetadata {
                    update_fields: Vec::new(),
                }),
            };
            assert_eq!(metadata.kind(), kinds[shape]);
            let r = validate(*kind, metadata);
            if k == shape {
                assert_eq!(r.unwrap().kind(), *kind);
            } else {
                assert!(matches!(r, Err(DaoError::InvalidMetadataForKind)));
            }
        }
    }
}

#[test]
fn create_proposal_stores_the_record() {
    let mut dao = engine(5);
    assert_eq!(open_whitelist(&mut dao, 1), Ok(id(1)));
    let common = dao.get_proposal(id(1)).unwrap();
    assert_eq!(common.description, "whitelist 1");
    assert_eq!(common.status, Status::VotingStarted);
    assert_eq!(common.voting_started_instant, Instant::new(T_MINUTE));
    assert_eq!(common.voting_ended_instant, Instant::new(T_MINUTE + TEN_DAYS));
    assert_eq!(common.vote_results.len(), 0);
}

#[test]
fn timestamp_derivation() {
    let dao = engine(5);
    let common = dao
        .create_common_proposal_data("d".to_string(), Instant::new(T))
        .unwrap();
    assert_eq!(common.voting_started_instant.seconds_since_unix_epoch, 1_699_999_980);
    assert_eq!(common.voting_ended_instant.seconds_since_unix_epoch, 1_700_863_980);
    assert_eq!(
        common.voting_ended_instant.seconds_since_unix_epoch
            - common.voting_started_instant.seconds_since_unix_epoch,
        10 * 86_400
    );
    assert_eq!(common.voting_ended_instant.seconds_since_unix_epoch % 60, 0);
    // an instant on the minute is its own start
    let common = dao
        .create_common_proposal_data("d".to_string(), Instant::new(T_MINUTE))
        .unwrap();
    assert_eq!(common.voting_started_instant, Instant::new(T_MINUTE));
    assert_eq!(common.voting_ended_instant, Instant::new(T_MINUTE + TEN_DAYS));
}

#[test]
fn clock_overflow_is_surfaced() {
    let mut dao = engine(5);
    let late = Instant::new(i64::MAX - 100);
    assert!(matches!(
        dao.create_common_proposal_data("d".to_string(), late),
        Err(DaoError::ClockOverflow)
    ));
    let r = dao.create_nft_collection_whitelist_proposal(
        whitelist(1),
        "late".to_string(),
        units(1),
        units(1000),
        units(5),
        late,
        id(1),
    );
    assert_eq!(r, Err(DaoError::ClockOverflow));
    assert_eq!(dao.count(ProposalDataTypes::NftCollectionWhiteListProposalData), 0);
    assert!(matches!(
        CommonProposalData::new("d".to_string(), Instant::new(i64::MIN), 1),
        Err(DaoError::ClockOverflow)
    ));
    assert!(matches!(
        CommonProposalData::new("d".to_string(), Instant::new(0), i64::MAX),
        Err(DaoError::ClockOverflow)
    ));
}

#[test]
fn insufficient_stake_is_refused() {
    let mut dao = engine(5);
    let r = dao.create_nft_collection_whitelist_proposal(
        whitelist(1),
        "poor".to_string(),
        units(1),
        units(1001),
        units(5),
        Instant::new(T),
        id(1),
    );
    assert_eq!(r, Err(DaoError::InsufficientStake));
    let r = dao.create_nft_collection_whitelist_proposal(
        whitelist(1),
        "nothing at stake".to_string(),
        units(0),
        units(0),
        units(5),
        Instant::new(T),
        id(1),
    );
    assert_eq!(r, Err(DaoError::InsufficientStake));
    assert_eq!(dao.count(ProposalDataTypes::NftCollectionWhiteListProposalData), 0);
}

#[test]
fn incorrect_fee_is_refused() {
    let mut dao = engine(5);
    for paid in [0u64, 4, 6] {
        let r = dao.create_nft_collection_whitelist_proposal(
            whitelist(1),
            "fee".to_string(),
            units(1),
            units(1000),
            units(paid),
            Instant::new(T),
            id(1),
        );
        assert_eq!(r, Err(DaoError::IncorrectFee));
    }
    assert_eq!(dao.count(ProposalDataTypes::NftCollectionWhiteListProposalData), 0);
}

#[test]
fn creation_checks_come_in_order() {
    let mut dao = engine(0);
    let wrong = || {
        ProposalMetadata::DaoConfigChange(DaoConfigChangeMetadata { update_fields: Vec::new() })
    };
    let kind = ProposalDataTypes::NftCollectionWhiteListProposalData;
    let late = Instant::new(i64::MAX);
    // everything is wrong: the stake decides
    let r = dao.create_proposal(kind, wrong(), "d".to_string(), units(0), units(9), units(1), late, id(1));
    assert_eq!(r, Err(DaoError::InsufficientStake));
    // the stake is right: the fee decides
    let r = dao.create_proposal(kind, wrong(), "d".to_string(), units(9), units(9), units(1), late, id(1));
    assert_eq!(r, Err(DaoError::IncorrectFee));
    // the fee is right: the room decides
    let r = dao.create_proposal(kind, wrong(), "d".to_string(), units(9), units(9), units(5), late, id(1));
    assert_eq!(r, Err(DaoError::CapacityExceeded));
    // there is room: the shape decides
    let mut dao = engine(1);
    let r = dao.create_proposal(kind, wrong(), "d".to_string(), units(9), units(9), units(5), late, id(1));
    assert_eq!(r, Err(DaoError::InvalidMetadataForKind));
    // the shape is right: the clock decides
    let r = dao.create_proposal(
        kind,
        ProposalMetadata::NftCollectionWhiteList(whitelist(1)),
        "d".to_string(),
        units(9),
        units(9),
        units(5),
        late,
        id(1),
    );
    assert_eq!(r, Err(DaoError::ClockOverflow));
    assert_eq!(dao.count(kind), 0);
}

#[test]
fn vote_idempotent_overwrite() {
    let mut dao = engine(5);
    open_whitelist(&mut dao, 1).unwrap();
    let now = Instant::new(T + 60);
    assert_eq!(dao.cast_vote(id(1), who(7), Vote::Yes, now), Ok(()));
    assert_eq!(dao.get_proposal(id(1)).unwrap().vote_results.get(who(7)), Some(Vote::Yes));
    assert_eq!(dao.cast_vote(id(1), who(7), Vote::No, now), Ok(()));
    let tally = &dao.get_proposal(id(1)).unwrap().vote_results;
    assert_eq!(tally.len(), 1);
    assert_eq!(tally.get(who(7)), Some(Vote::No));
    assert_eq!(tally.entry(0).voter, who(7));
    assert_eq!(tally.entry(0).choice, Vote::No);
}

#[test]
fn votes_of_others_stand() {
    let mut dao = engine(5);
    open_whitelist(&mut dao, 1).unwrap();
    open_whitelist(&mut dao, 2).unwrap();
    let now = Instant::new(T + 60);
    dao.cast_vote(id(1), who(7), Vote::Yes, now).unwrap();
    dao.cast_vote(id(1), who(8), Vote::Blank, now).unwrap();
    dao.cast_vote(id(2), who(7), Vote::No, now).unwrap();
    dao.cast_vote(id(1), who(7), Vote::No, now).unwrap();
    let first = &dao.get_proposal(id(1)).unwrap().vote_results;
    assert_eq!(first.len(), 2);
    assert_eq!(first.get(who(7)), Some(Vote::No));
    assert_eq!(first.get(who(8)), Some(Vote::Blank));
    let second = &dao.get_proposal(id(2)).unwrap().vote_results;
    assert_eq!(second.len(), 1);
    assert_eq!(second.get(who(7)), Some(Vote::No));
    assert_eq!(second.get(who(8)), None);
}

#[test]
fn window_enforcement() {
    let mut dao = engine(5);
    open_whitelist(&mut dao, 1).unwrap();
    let end = T_MINUTE + TEN_DAYS;
    assert_eq!(dao.cast_vote(id(1), who(7), Vote::Yes, Instant::new(end - 1)), Ok(()));
    assert_eq!(
        dao.cast_vote(id(1), who(7), Vote::No, Instant::new(end)),
        Err(DaoError::VotingWindowClosed)
    );
    assert_eq!(
        dao.cast_vote(id(1), who(8), Vote::No, Instant::new(end + 1)),
        Err(DaoError::VotingWindowClosed)
    );
    assert_eq!(
        dao.cast_vote(id(1), who(9), Vote::Blank, Instant::new(i64::MAX)),
        Err(DaoError::VotingWindowClosed)
    );
    let tally = &dao.get_proposal(id(1)).unwrap().vote_results;
    assert_eq!(tally.len(), 1);
    assert_eq!(tally.get(who(7)), Some(Vote::Yes));
}

#[test]
fn window_is_enforced_on_a_record_that_is_not_open() {
    let mut common = CommonProposalData::new("d".to_string(), Instant::new(T), 10).unwrap();
    assert_eq!(common.cast_vote(who(1), Vote::Yes, Instant::new(T)), Ok(()));
    for status in [Status::VotingClosed, Status::ProposalActionCompleted, Status::ProposalRejected] {
        common.status = status;
        assert_eq!(
            common.cast_vote(who(2), Vote::Yes, Instant::new(T)),
            Err(DaoError::VotingWindowClosed)
        );
        assert_eq!(
            common.outcome(Instant::new(T + TEN_DAYS), &Vec::new(), units(1), units(0)),
            Err(DaoError::VotingWindowClosed)
        );
    }
    assert_eq!(common.vote_results.len(), 1);
}

#[test]
fn vote_on_an_unknown_proposal_is_not_found() {
    let mut dao = engine(5);
    open_whitelist(&mut dao, 1).unwrap();
    assert_eq!(
        dao.cast_vote(id(2), who(7), Vote::Yes, Instant::new(T)),
        Err(DaoError::ProposalNotFound)
    );
    assert!(matches!(
        dao.close_proposal(id(2), Instant::new(T + TEN_DAYS), &Vec::new()),
        Err(DaoError::ProposalNotFound)
    ));
    assert!(dao.get_proposal(id(2)).is_none());
}

#[test]
fn closing_early_is_refused() {
    let mut dao = engine(5);
    open_whitelist(&mut dao, 1).unwrap();
    dao.cast_vote(id(1), who(1), Vote::Yes, Instant::new(T)).unwrap();
    let end = T_MINUTE + TEN_DAYS;
    assert!(matches!(
        dao.close_proposal(id(1), Instant::new(end - 1), &stakes_150_50()),
        Err(DaoError::VotingWindowNotYetClosed)
    ));
    assert_eq!(dao.count(ProposalDataTypes::NftCollectionWhiteListProposalData), 1);
    assert_eq!(dao.get_proposal(id(1)).unwrap().status, Status::VotingStarted);
    assert!(dao.close_proposal(id(1), Instant::new(end), &stakes_150_50()).is_ok());
}

#[test]
fn closing_a_passed_proposal_completes_it() {
    let mut dao = engine(5);
    open_whitelist(&mut dao, 1).unwrap();
    dao.cast_vote(id(1), who(1), Vote::Yes, Instant::new(T)).unwrap();
    dao.cast_vote(id(1), who(2), Vote::No, Instant::new(T)).unwrap();
    let closed = dao
        .close_proposal(id(1), Instant::new(T + TEN_DAYS), &stakes_150_50())
        .unwrap();
    assert_eq!(closed.status, Status::ProposalActionCompleted);
    assert_eq!(closed.description, "whitelist 1");
    assert_eq!(closed.voting_started_instant, Instant::new(T_MINUTE));
    assert_eq!(closed.voting_ended_instant, Instant::new(T_MINUTE + TEN_DAYS));
    assert_eq!(closed.vote_results.len(), 2);
    assert_eq!(closed.vote_results.get(who(1)), Some(Vote::Yes));
    assert_eq!(closed.vote_results.get(who(2)), Some(Vote::No));
    // the proposal has left its store
    assert_eq!(dao.count(ProposalDataTypes::NftCollectionWhiteListProposalData), 0);
    assert!(dao.get_proposal(id(1)).is_none());
    assert!(matches!(
        dao.close_proposal(id(1), Instant::new(T + TEN_DAYS), &stakes_150_50()),
        Err(DaoError::ProposalNotFound)
    ));
}

#[test]
fn closing_a_failed_proposal_rejects_it() {
    let mut dao = engine(5);
    open_whitelist(&mut dao, 1).unwrap();
    dao.cast_vote(id(1), who(1), Vote::No, Instant::new(T)).unwrap();
    dao.cast_vote(id(1), who(2), Vote::Yes, Instant::new(T)).unwrap();
    let closed = dao
        .close_proposal(id(1), Instant::new(T + TEN_DAYS), &stakes_150_50())
        .unwrap();
    assert_eq!(closed.status, Status::ProposalRejected);
    assert_eq!(dao.count(ProposalDataTypes::NftCollectionWhiteListProposalData), 0);
}

#[test]
fn zero_participation() {
    let mut dao = engine(5);
    open_whitelist(&mut dao, 1).unwrap();
    let closed = dao
        .close_proposal(id(1), Instant::new(T + TEN_DAYS), &stakes_150_50())
        .unwrap();
    assert_eq!(closed.status, Status::ProposalRejected);
    assert_eq!(closed.vote_results.len(), 0);
    // a threshold of zero does not help
    let mut c = config(5);
    c.quorum_threshold = units(0);
    let mut dao = Dao::new(c).unwrap();
    open_whitelist(&mut dao, 1).unwrap();
    let closed = dao
        .close_proposal(id(1), Instant::new(T + TEN_DAYS), &Vec::new())
        .unwrap();
    assert_eq!(closed.status, Status::ProposalRejected);
}

#[test]
fn closing_frees_room() {
    let mut dao = engine(1);
    open_whitelist(&mut dao, 1).unwrap();
    assert_eq!(open_whitelist(&mut dao, 2), Err(DaoError::CapacityExceeded));
    dao.close_proposal(id(1), Instant::new(T + TEN_DAYS), &Vec::new()).unwrap();
    assert_eq!(open_whitelist(&mut dao, 2), Ok(id(2)));
    assert_eq!(dao.count(ProposalDataTypes::NftCollectionWhiteListProposalData), 1);
}

#[test]
fn weights_come_from_the_stakes_at_closing() {
    let mut dao = engine(5);
    open_whitelist(&mut dao, 1).unwrap();
    dao.cast_vote(id(1), who(1), Vote::Yes, Instant::new(T)).unwrap();
    dao.cast_vote(id(1), who(2), Vote::No, Instant::new(T)).unwrap();
    // by the time of closing the first voter holds 50 and the second 150
    let stakes = vec![
        StakeEntry { holder: who(1), stake: units(50) },
        StakeEntry { holder: who(2), stake: units(150) },
    ];
    let closed = dao.close_proposal(id(1), Instant::new(T + TEN_DAYS), &stakes).unwrap();
    assert_eq!(closed.status, Status::ProposalRejected);
}

#[test]
fn closing_with_weights_beyond_the_range_is_an_overflow() {
    let mut dao = engine(5);
    open_whitelist(&mut dao, 1).unwrap();
    dao.cast_vote(id(1), who(1), Vote::Yes, Instant::new(T)).unwrap();
    dao.cast_vote(id(1), who(2), Vote::No, Instant::new(T)).unwrap();
    let stakes = vec![
        StakeEntry { holder: who(1), stake: Decimal::from_attos(u128::MAX) },
        StakeEntry { holder: who(2), stake: Decimal::from_attos(1) },
    ];
    assert!(matches!(
        dao.close_proposal(id(1), Instant::new(T + TEN_DAYS), &stakes),
        Err(DaoError::ArithmeticOverflow)
    ));
    assert_eq!(dao.count(ProposalDataTypes::NftCollectionWhiteListProposalData), 1);
    assert_eq!(dao.get_proposal(id(1)).unwrap().vote_results.len(), 2);
}

#[test]
fn bounded_store_refuses_beyond_its_ceiling() {
    let mut store: BoundedStore<u32> = BoundedStore::new();
    assert_eq!(store.try_insert(id(1), 10, 2), Ok(id(1)));
    assert_eq!(store.try_insert(id(2), 20, 2), Ok(id(2)));
    assert_eq!(store.try_insert(id(3), 30, 2), Err(DaoError::CapacityExceeded));
    assert_eq!(store.count(), 2);
    assert!(store.contains(id(1)));
    assert!(!store.contains(id(3)));
    assert_eq!(store.get(id(2)), Some(&20));
    assert_eq!(store.get(id(3)), None);
    assert_eq!(store.find(id(2)), Some(1));
    assert_eq!(*store.record_at(0), 10);
    *store.record_at_mut(0) = 11;
    assert_eq!(store.get(id(1)), Some(&11));
    let gone = store.remove_at(0);
    assert_eq!(gone.id, id(1));
    assert_eq!(gone.record, 11);
    assert_eq!(store.count(), 1);
    assert_eq!(store.find(id(2)), Some(0));
    assert_eq!(store.try_insert(id(3), 30, 2), Ok(id(3)));
}
