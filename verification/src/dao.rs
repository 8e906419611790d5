use vstd::prelude::*;
use crate::config::{changed, DaoConfiguraiton};
use crate::decimal::{share_reaches, Decimal};
use crate::error::DaoError;
use crate::proposal::{
    validate, CommonProposalData, DaoConfigChangeProposalData, NftCollectionConfigChangeProposalData,
    NftCollectionWhiteListProposalData, ProposalData, ProposalDataTypes, ProposalMetadata, Status,
    DaoConfigChangeMetadata, NftCollectionConfigChangeMetadata, NftCollectionWhiteListMetadata,
};
use crate::store::{distinct_ids, slot_of, BoundedStore, Entry, ProposalId};
use crate::tally::StakeEntry;
use crate::time::Instant;
use crate::vote::{Address, Vote};
use crate::voting::window_end;

verus! {

/// The engine: the configuration and, for each kind, the store of its open
/// proposals. A proposal leaves its store when it is closed.
#[derive(Debug)]
pub struct Dao {
    dao_config: DaoConfiguraiton,
    nft_collection_whitelist_open_proposals: BoundedStore<NftCollectionWhiteListProposalData>,
    nft_collection_config_change_open_proposals: BoundedStore<
        NftCollectionConfigChangeProposalData,
    >,
    dao_config_change_open_proposals: BoundedStore<DaoConfigChangeProposalData>,
}

/// What the engine holds, as mathematical values.
pub struct DaoView {
    pub config: DaoConfiguraiton,
    pub whitelist: Seq<Entry<NftCollectionWhiteListProposalData>>,
    pub collection_changes: Seq<Entry<NftCollectionConfigChangeProposalData>>,
    pub config_changes: Seq<Entry<DaoConfigChangeProposalData>>,
}

/// What an engine is stored as and restored from.
#[derive(Debug)]
pub struct DaoParts {
    pub config: DaoConfiguraiton,
    pub whitelist: Vec<Entry<NftCollectionWhiteListProposalData>>,
    pub collection_changes: Vec<Entry<NftCollectionConfigChangeProposalData>>,
    pub config_changes: Vec<Entry<DaoConfigChangeProposalData>>,
}

impl View for DaoParts {
    type V = DaoView;

    open spec fn view(&self) -> DaoView {
        DaoView {
            config: self.config,
            whitelist: self.whitelist@,
            collection_changes: self.collection_changes@,
            config_changes: self.config_changes@,
        }
    }
}

/// Every stored record is that of an open proposal in order.
pub open spec fn all_open<M>(entries: Seq<Entry<ProposalData<M>>>) -> bool {
    forall|i: int| 0 <= i < entries.len() ==> (#[trigger] entries[i]).record.common_data.is_open()
}

/// A store's invariant under a ceiling: distinct identifiers, no more
/// records than the ceiling, every record open.
pub open spec fn store_ok<M>(entries: Seq<Entry<ProposalData<M>>>, ceiling: u64) -> bool {
    distinct_ids(entries) && entries.len() <= ceiling && all_open(entries)
}

/// The common part of the record stored under an identifier.
pub open spec fn common_in<M>(entries: Seq<Entry<ProposalData<M>>>, id: ProposalId) -> Option<
    CommonProposalData,
> {
    match slot_of(entries, id) {
        Some(i) => Some(entries[i].record.common_data),
        None => None,
    }
}

/// `after` is `before` with one record more, at the end: a proposal just
/// created at `now` under the identifier.
pub open spec fn pushed<M>(
    before: Seq<Entry<ProposalData<M>>>,
    after: Seq<Entry<ProposalData<M>>>,
    id: ProposalId,
    description: Seq<char>,
    now: Instant,
    period_days: i64,
) -> bool {
    &&& after.len() == before.len() + 1
    &&& after.drop_last() == before
    &&& after.last().id == id
    &&& after.last().record.common_data.is_fresh(description, now, period_days)
}

/// `after` is `before` with nothing changed but the tally of the record at
/// `slot`, which now holds the voter's choice.
pub open spec fn voted_at<M>(
    before: Seq<Entry<ProposalData<M>>>,
    after: Seq<Entry<ProposalData<M>>>,
    slot: int,
    voter: Address,
    choice: Vote,
) -> bool {
    &&& after.len() == before.len()
    &&& forall|j: int| 0 <= j < before.len() && j != slot ==> after[j] == before[j]
    &&& after[slot].id == before[slot].id
    &&& after[slot].record.metadata == before[slot].record.metadata
    &&& after[slot].record.common_data.is_voted(before[slot].record.common_data, voter, choice)
}

/// `after` is `before` closed with a final status: nothing else differs.
pub open spec fn closed_as(after: CommonProposalData, before: CommonProposalData, status: Status) -> bool {
    &&& after.description == before.description
    &&& after.status == status
    &&& after.voting_started_instant == before.voting_started_instant
    &&& after.voting_ended_instant == before.voting_ended_instant
    &&& after.vote_results == before.vote_results
}

/// A store stays in order when a record leaves it.
pub proof fn lemma_remove_keeps<M>(entries: Seq<Entry<ProposalData<M>>>, slot: int, ceiling: u64)
    requires
        store_ok(entries, ceiling),
        0 <= slot < entries.len(),
    ensures
        store_ok(entries.remove(slot), ceiling),
        all_open(entries.remove(slot)),
        distinct_ids(entries.remove(slot)),
{
    let rest = entries.remove(slot);
    assert forall|i: int| 0 <= i < rest.len() implies (#[trigger] rest[i]).record.common_data.is_open() by {
        if i < slot {
            assert(rest[i] == entries[i]);
        } else {
            assert(rest[i] == entries[i + 1]);
        }
    }
    assert forall|i: int, j: int|
        0 <= i < rest.len() && 0 <= j < rest.len() && i != j implies rest[i].id != rest[j].id by {
        let a = if i < slot { i } else { i + 1 };
        let b = if j < slot { j } else { j + 1 };
        assert(rest[i] == entries[a]);
        assert(rest[j] == entries[b]);
    }
}

/// A store stays in order when a vote is recorded in it.
pub proof fn lemma_vote_keeps<M>(
    before: Seq<Entry<ProposalData<M>>>,
    after: Seq<Entry<ProposalData<M>>>,
    slot: int,
    voter: Address,
    choice: Vote,
    ceiling: u64,
)
    requires
        store_ok(before, ceiling),
        0 <= slot < before.len(),
        voted_at(before, after, slot, voter, choice),
        after[slot].record.common_data.vote_results.wf(),
    ensures
        store_ok(after, ceiling),
        forall|id: ProposalId| slot_of(after, id) == slot_of(before, id),
{
    assert forall|i: int| 0 <= i < after.len() implies (#[trigger] after[i]).id
        == before[i].id by {
        if i != slot {
            assert(after[i] == before[i]);
        }
    }
    assert forall|i: int| 0 <= i < after.len() implies (#[trigger] after[i]).record.common_data.is_open() by {
        if i != slot {
            assert(after[i] == before[i]);
        }
        assert(before[i].record.common_data.is_open());
    }
    assert forall|id: ProposalId| slot_of(after, id) == slot_of(before, id) by {
        lemma_same_ids(before, after, id);
    }
}

/// Where two stores hold the same identifiers in the same places, each
/// identifier is found in the same place.
pub proof fn lemma_same_ids<M>(
    before: Seq<Entry<ProposalData<M>>>,
    after: Seq<Entry<ProposalData<M>>>,
    id: ProposalId,
)
    requires
        after.len() == before.len(),
        forall|i: int| 0 <= i < after.len() ==> (#[trigger] after[i]).id == before[i].id,
    ensures
        slot_of(after, id) == slot_of(before, id),
    decreases before.len(),
{
    if before.len() > 0 {
        let b = before.drop_last();
        let a = after.drop_last();
        assert forall|i: int| 0 <= i < a.len() implies (#[trigger] a[i]).id == b[i].id by {
            assert(a[i] == after[i]);
            assert(b[i] == before[i]);
        }
        lemma_same_ids(b, a, id);
        assert(after.last() == after[after.len() - 1]);
        assert(before.last() == before[before.len() - 1]);
    }
}

impl DaoView {
    /// The engine's invariant: a valid configuration, and every store in
    /// order under the configured ceiling.
    pub open spec fn wf(self) -> bool {
        &&& self.config.is_valid()
        &&& store_ok(self.whitelist, self.config.max_open_proposals)
        &&& store_ok(self.collection_changes, self.config.max_open_proposals)
        &&& store_ok(self.config_changes, self.config.max_open_proposals)
    }

    /// The number of open proposals of a kind.
    pub open spec fn count(self, kind: ProposalDataTypes) -> nat {
        match kind {
            ProposalDataTypes::NftCollectionWhiteListProposalData => self.whitelist.len(),
            ProposalDataTypes::NftCollectionConfigChangeProposalData =>
                self.collection_changes.len(),
            ProposalDataTypes::DaoConfigChangeProposalData => self.config_changes.len(),
        }
    }

    /// The kind of the open proposal with an identifier.
    pub open spec fn kind_of(self, id: ProposalId) -> Option<ProposalDataTypes> {
        if slot_of(self.whitelist, id) is Some {
            Some(ProposalDataTypes::NftCollectionWhiteListProposalData)
        } else if slot_of(self.collection_changes, id) is Some {
            Some(ProposalDataTypes::NftCollectionConfigChangeProposalData)
        } else if slot_of(self.config_changes, id) is Some {
            Some(ProposalDataTypes::DaoConfigChangeProposalData)
        } else {
            None
        }
    }

    /// Whether an open proposal has the identifier.
    pub open spec fn has(self, id: ProposalId) -> bool {
        self.kind_of(id) is Some
    }

    /// The common part of the open proposal with an identifier.
    pub open spec fn common_of(self, id: ProposalId) -> Option<CommonProposalData> {
        match self.kind_of(id) {
            Some(ProposalDataTypes::NftCollectionWhiteListProposalData) => common_in(
                self.whitelist,
                id,
            ),
            Some(ProposalDataTypes::NftCollectionConfigChangeProposalData) => common_in(
                self.collection_changes,
                id,
            ),
            Some(ProposalDataTypes::DaoConfigChangeProposalData) => common_in(
                self.config_changes,
                id,
            ),
            None => None,
        }
    }

    /// Why a proposal cannot be created, if it cannot; the checks in their
    /// order: the proposer's share of the stake, the fee, the room in the
    /// kind's store, the payload's shape, the end of the voting window.
    pub open spec fn creation_error(
        self,
        kind: ProposalDataTypes,
        shape: ProposalDataTypes,
        proposer_stake: Decimal,
        total_stake: Decimal,
        creation_payment: Decimal,
        now: Instant,
    ) -> Option<DaoError> {
        if !share_reaches(proposer_stake, total_stake, self.config.min_stake_ratio_to_propose) {
            Some(DaoError::InsufficientStake)
        } else if creation_payment != self.config.creation_fee {
            Some(DaoError::IncorrectFee)
        } else if self.count(kind) >= self.config.max_open_proposals {
            Some(DaoError::CapacityExceeded)
        } else if shape != kind {
            Some(DaoError::InvalidMetadataForKind)
        } else if window_end(now, self.config.proposal_period_days) is None {
            Some(DaoError::ClockOverflow)
        } else {
            None
        }
    }

    /// `after` is `self` with one proposal more: created at `now` under the
    /// identifier, with the payload as its metadata, at the end of the store
    /// of the payload's kind. Nothing else differs.
    pub open spec fn admitted(
        self,
        after: DaoView,
        id: ProposalId,
        description: Seq<char>,
        metadata: ProposalMetadata,
        now: Instant,
    ) -> bool {
        let days = self.config.proposal_period_days;
        &&& after.config == self.config
        &&& match metadata {
            ProposalMetadata::NftCollectionWhiteList(m) => {
                &&& pushed(self.whitelist, after.whitelist, id, description, now, days)
                &&& after.whitelist.last().record.metadata == m
                &&& after.collection_changes == self.collection_changes
                &&& after.config_changes == self.config_changes
            },
            ProposalMetadata::NftCollectionConfigChange(m) => {
                &&& pushed(
                    self.collection_changes,
                    after.collection_changes,
                    id,
                    description,
                    now,
                    days,
                )
                &&& after.collection_changes.last().record.metadata == m
                &&& after.whitelist == self.whitelist
                &&& after.config_changes == self.config_changes
            },
            ProposalMetadata::DaoConfigChange(m) => {
                &&& pushed(self.config_changes, after.config_changes, id, description, now, days)
                &&& after.config_changes.last().record.metadata == m
                &&& after.whitelist == self.whitelist
                &&& after.collection_changes == self.collection_changes
            },
        }
    }
}

impl DaoView {
    /// `after` is `self` with nothing changed but the tally of the proposal
    /// with the identifier, which now holds the voter's choice.
    pub open spec fn voted(self, after: DaoView, id: ProposalId, voter: Address, choice: Vote) -> bool {
        &&& after.config == self.config
        &&& match self.kind_of(id) {
            Some(ProposalDataTypes::NftCollectionWhiteListProposalData) => {
                &&& voted_at(
                    self.whitelist,
                    after.whitelist,
                    slot_of(self.whitelist, id).unwrap(),
                    voter,
                    choice,
                )
                &&& after.collection_changes == self.collection_changes
                &&& after.config_changes == self.config_changes
            },
            Some(ProposalDataTypes::NftCollectionConfigChangeProposalData) => {
                &&& voted_at(
                    self.collection_changes,
                    after.collection_changes,
                    slot_of(self.collection_changes, id).unwrap(),
                    voter,
                    choice,
                )
                &&& after.whitelist == self.whitelist
                &&& after.config_changes == self.config_changes
            },
            Some(ProposalDataTypes::DaoConfigChangeProposalData) => {
                &&& voted_at(
                    self.config_changes,
                    after.config_changes,
                    slot_of(self.config_changes, id).unwrap(),
                    voter,
                    choice,
                )
                &&& after.whitelist == self.whitelist
                &&& after.collection_changes == self.collection_changes
            },
            None => false,
        }
    }

    /// What is left when the proposal with the identifier leaves its store.
    pub open spec fn without(self, id: ProposalId) -> DaoView {
        match self.kind_of(id) {
            Some(ProposalDataTypes::NftCollectionWhiteListProposalData) => DaoView {
                whitelist: self.whitelist.remove(slot_of(self.whitelist, id).unwrap()),
                ..self
            },
            Some(ProposalDataTypes::NftCollectionConfigChangeProposalData) => DaoView {
                collection_changes: self.collection_changes.remove(
                    slot_of(self.collection_changes, id).unwrap(),
                ),
                ..self
            },
            Some(ProposalDataTypes::DaoConfigChangeProposalData) => DaoView {
                config_changes: self.config_changes.remove(
                    slot_of(self.config_changes, id).unwrap(),
                ),
                ..self
            },
            None => self,
        }
    }

    /// Whether no store holds more records than a ceiling.
    pub open spec fn fits(self, ceiling: u64) -> bool {
        self.whitelist.len() <= ceiling && self.collection_changes.len() <= ceiling
            && self.config_changes.len() <= ceiling
    }

    /// The configuration that the passed proposal with the identifier puts
    /// in force: for a change of the configuration, the one after its
    /// changes, which must leave room for every proposal that stays open;
    /// for the other kinds, the one in force. `None` where the changes
    /// cannot be made.
    pub open spec fn enacted(self, id: ProposalId) -> Option<DaoConfiguraiton> {
        if self.kind_of(id) == Some(ProposalDataTypes::DaoConfigChangeProposalData) {
            let slot = slot_of(self.config_changes, id).unwrap();
            match changed(self.config, self.config_changes[slot].record.metadata.update_fields@) {
                Some(next) => if self.without(id).fits(next.max_open_proposals) {
                    Some(next)
                } else {
                    None
                },
                None => None,
            }
        } else {
            Some(self.config)
        }
    }

    /// What closing the proposal with the identifier at `now` leads to: its
    /// final status and the configuration then in force; or the reason why
    /// it cannot be closed.
    pub open spec fn closing(self, id: ProposalId, now: Instant, stakes: Seq<StakeEntry>) -> Result<
        (Status, DaoConfiguraiton),
        DaoError,
    > {
        match self.common_of(id) {
            None => Err(DaoError::ProposalNotFound),
            Some(common) => match common.outcome_at(
                now,
                stakes,
                self.config.vote_weight_ratio,
                self.config.quorum_threshold,
            ) {
                Err(e) => Err(e),
                Ok(status) => if status == Status::ProposalActionCompleted {
                    match self.enacted(id) {
                        Some(next) => Ok((status, next)),
                        None => Err(DaoError::ConfigurationInvalid),
                    }
                } else {
                    Ok((status, self.config))
                },
            },
        }
    }
}

impl View for Dao {
    type V = DaoView;

    closed spec fn view(&self) -> DaoView {
        DaoView {
            config: self.dao_config,
            whitelist: self.nft_collection_whitelist_open_proposals@,
            collection_changes: self.nft_collection_config_change_open_proposals@,
            config_changes: self.dao_config_change_open_proposals@,
        }
    }
}

impl Dao {
    /// An engine under the given configuration, without proposals. Fails
    /// with `ConfigurationInvalid` where the configuration is not valid.
    pub fn new(config: DaoConfiguraiton) -> (r: Result<Dao, DaoError>)
        ensures
            match r {
                Ok(dao) => config.is_valid() && dao@.wf() && dao@.config == config
                    && dao@.whitelist.len() == 0 && dao@.collection_changes.len() == 0
                    && dao@.config_changes.len() == 0,
                Err(e) => !config.is_valid() && e == DaoError::ConfigurationInvalid,
            },
    {
        if !config.check_valid() {
            return Err(DaoError::ConfigurationInvalid);
        }
        Ok(
            Dao {
                dao_config: config,
                nft_collection_whitelist_open_proposals: BoundedStore::new(),
                nft_collection_config_change_open_proposals: BoundedStore::new(),
                dao_config_change_open_proposals: BoundedStore::new(),
            },
        )
    }

    /// The engine that holds the given parts; `None` where they are not in
    /// order: an invalid configuration, an identifier that occurs twice in a
    /// store, more records in a store than the ceiling, or a record that is
    /// not open or whose window does not end after it starts.
    pub fn from_parts(parts: DaoParts) -> (r: Option<Dao>)
        ensures
            match r {
                Some(dao) => dao@ == parts@ && parts@.wf(),
                None => !parts@.wf(),
            },
    {
        let config = parts.config;
        let ceiling: u64 = config.max_open_proposals;
        if !config.check_valid() {
            return None;
        }
        if parts.whitelist.len() as u64 > ceiling || !records_open(&parts.whitelist) {
            return None;
        }
        if parts.collection_changes.len() as u64 > ceiling || !records_open(
            &parts.collection_changes,
        ) {
            return None;
        }
        if parts.config_changes.len() as u64 > ceiling || !records_open(&parts.config_changes) {
            return None;
        }
        let whitelist = match BoundedStore::from_entries(parts.whitelist) {
            Some(store) => store,
            None => {
                return None;
            },
        };
        let collection_changes = match BoundedStore::from_entries(parts.collection_changes) {
            Some(store) => store,
            None => {
                return None;
            },
        };
        let config_changes = match BoundedStore::from_entries(parts.config_changes) {
            Some(store) => store,
            None => {
                return None;
            },
        };
        Some(
            Dao {
                dao_config: config,
                nft_collection_whitelist_open_proposals: whitelist,
                nft_collection_config_change_open_proposals: collection_changes,
                dao_config_change_open_proposals: config_changes,
            },
        )
    }

    /// The parts of the engine, to be stored.
    pub fn into_parts(self) -> (r: DaoParts)
        ensures
            r@ == self@,
    {
        DaoParts {
            config: self.dao_config,
            whitelist: self.nft_collection_whitelist_open_proposals.into_entries(),
            collection_changes: self.nft_collection_config_change_open_proposals.into_entries(),
            config_changes: self.dao_config_change_open_proposals.into_entries(),
        }
    }

    /// An engine under the starting configuration, without proposals.
    pub fn instantiate_dao() -> (r: Dao)
        ensures
            r@.wf(),
            r@.config == DaoConfiguraiton::initial(),
            r@.whitelist.len() == 0,
            r@.collection_changes.len() == 0,
            r@.config_changes.len() == 0,
    {
        Dao {
            dao_config: DaoConfiguraiton::default_config(),
            nft_collection_whitelist_open_proposals: BoundedStore::new(),
            nft_collection_config_change_open_proposals: BoundedStore::new(),
            dao_config_change_open_proposals: BoundedStore::new(),
        }
    }

    /// The configuration in force.
    pub fn get_config(&self) -> (r: DaoConfiguraiton)
        ensures
            r == self@.config,
    {
        self.dao_config
    }

    /// The number of open proposals of a kind.
    pub fn count(&self, kind: ProposalDataTypes) -> (r: usize)
        ensures
            r == self@.count(kind),
    {
        match kind {
            ProposalDataTypes::NftCollectionWhiteListProposalData =>
                self.nft_collection_whitelist_open_proposals.count(),
            ProposalDataTypes::NftCollectionConfigChangeProposalData =>
                self.nft_collection_config_change_open_proposals.count(),
            ProposalDataTypes::DaoConfigChangeProposalData =>
                self.dao_config_change_open_proposals.count(),
        }
    }

    /// The kind of the open proposal with an identifier, if there is one.
    pub fn kind_of(&self, id: ProposalId) -> (r: Option<ProposalDataTypes>)
        ensures
            r == self@.kind_of(id),
    {
        if self.nft_collection_whitelist_open_proposals.contains(id) {
            Some(ProposalDataTypes::NftCollectionWhiteListProposalData)
        } else if self.nft_collection_config_change_open_proposals.contains(id) {
            Some(ProposalDataTypes::NftCollectionConfigChangeProposalData)
        } else if self.dao_config_change_open_proposals.contains(id) {
            Some(ProposalDataTypes::DaoConfigChangeProposalData)
        } else {
            None
        }
    }

    /// The common part of the open proposal with an identifier.
    pub fn get_proposal(&self, id: ProposalId) -> (r: Option<&CommonProposalData>)
        ensures
            match r {
                Some(common) => self@.common_of(id) == Some(*common),
                None => self@.common_of(id) is None,
            },
    {
        match self.nft_collection_whitelist_open_proposals.get(id) {
            Some(record) => {
                return Some(&record.common_data);
            },
            None => {},
        }
        match self.nft_collection_config_change_open_proposals.get(id) {
            Some(record) => {
                return Some(&record.common_data);
            },
            None => {},
        }
        match self.dao_config_change_open_proposals.get(id) {
            Some(record) => Some(&record.common_data),
            None => None,
        }
    }

    /// The record of the open proposal to whitelist a collection with an
    /// identifier.
    pub fn get_nft_collection_whitelist_proposal(&self, id: ProposalId) -> (r: Option<
        &NftCollectionWhiteListProposalData,
    >)
        ensures
            match r {
                Some(record) => slot_of(self@.whitelist, id) is Some && *record
                    == self@.whitelist[slot_of(self@.whitelist, id).unwrap()].record,
                None => slot_of(self@.whitelist, id) is None,
            },
    {
        self.nft_collection_whitelist_open_proposals.get(id)
    }

    /// The record of the open proposal to change a collection's settings
    /// with an identifier.
    pub fn get_nft_collection_config_change_proposal(&self, id: ProposalId) -> (r: Option<
        &NftCollectionConfigChangeProposalData,
    >)
        ensures
            match r {
                Some(record) => slot_of(self@.collection_changes, id) is Some && *record
                    == self@.collection_changes[slot_of(
                    self@.collection_changes,
                    id,
                ).unwrap()].record,
                None => slot_of(self@.collection_changes, id) is None,
            },
    {
        self.nft_collection_config_change_open_proposals.get(id)
    }

    /// The record of the open proposal to change the configuration with an
    /// identifier.
    pub fn get_dao_config_change_proposal(&self, id: ProposalId) -> (r: Option<
        &DaoConfigChangeProposalData,
    >)
        ensures
            match r {
                Some(record) => slot_of(self@.config_changes, id) is Some && *record
                    == self@.config_changes[slot_of(self@.config_changes, id).unwrap()].record,
                None => slot_of(self@.config_changes, id) is None,
            },
    {
        self.dao_config_change_open_proposals.get(id)
    }

    /// The common part of a proposal created at `now` under the
    /// configuration in force. Fails with `ClockOverflow` where the end of
    /// the voting window is no timestamp.
    pub fn create_common_proposal_data(&self, description: String, now: Instant) -> (r: Result<
        CommonProposalData,
        DaoError,
    >)
        ensures
            match r {
                Ok(c) => c.is_fresh(description@, now, self@.config.proposal_period_days)
                    && c.vote_results.wf(),
                Err(e) => e == DaoError::ClockOverflow && window_end(
                    now,
                    self@.config.proposal_period_days,
                ) is None,
            },
    {
        CommonProposalData::new(description, now, self.dao_config.proposal_period_days)
    }

    /// Creates a proposal of the given kind under the identifier that the
    /// ledger issued for it, which no open proposal has: the ledger issues
    /// each identifier once. The checks are made in this order, and the
    /// first that fails decides the error: the proposer's share of the total
    /// stake, the fee, the room in the kind's store, the shape of the
    /// payload, the end of the voting window. On any error nothing changes.
    pub fn create_proposal(
        &mut self,
        kind: ProposalDataTypes,
        metadata: ProposalMetadata,
        description: String,
        proposer_stake: Decimal,
        total_stake: Decimal,
        creation_payment: Decimal,
        now: Instant,
        id: ProposalId,
    ) -> (r: Result<ProposalId, DaoError>)
        requires
            old(self)@.wf(),
            !old(self)@.has(id),
        ensures
            final(self)@.wf(),
            final(self)@.config == old(self)@.config,
            match old(self)@.creation_error(
                kind,
                metadata.shape(),
                proposer_stake,
                total_stake,
                creation_payment,
                now,
            ) {
                Some(e) => r == Err::<ProposalId, DaoError>(e) && final(self)@ == old(self)@,
                None => r == Ok::<ProposalId, DaoError>(id) && old(self)@.admitted(
                    final(self)@,
                    id,
                    description@,
                    metadata,
                    now,
                ),
            },
    {
        let config = self.dao_config;
        if !Decimal::share_at_least(
            proposer_stake,
            total_stake,
            config.min_stake_ratio_to_propose,
        ) {
            return Err(DaoError::InsufficientStake);
        }
        if creation_payment != config.creation_fee {
            return Err(DaoError::IncorrectFee);
        }
        if self.count(kind) as u64 >= config.max_open_proposals {
            return Err(DaoError::CapacityExceeded);
        }
        let accepted = match validate(kind, metadata) {
            Ok(accepted) => accepted,
            Err(e) => {
                return Err(e);
            },
        };
        let common_data = match self.create_common_proposal_data(description, now) {
            Ok(common_data) => common_data,
            Err(e) => {
                return Err(e);
            },
        };
        let ceiling: u64 = config.max_open_proposals;
        match accepted {
            ProposalMetadata::NftCollectionWhiteList(metadata) => {
                let r = self.nft_collection_whitelist_open_proposals.try_insert(
                    id,
                    ProposalData { common_data, metadata },
                    ceiling,
                );
                assert(self.nft_collection_whitelist_open_proposals@.drop_last() =~= old(self).nft_collection_whitelist_open_proposals@);
                r
            },
            ProposalMetadata::NftCollectionConfigChange(metadata) => {
                let r = self.nft_collection_config_change_open_proposals.try_insert(
                    id,
                    ProposalData { common_data, metadata },
                    ceiling,
                );
                assert(self.nft_collection_config_change_open_proposals@.drop_last() =~= old(self).nft_collection_config_change_open_proposals@);
                r
            },
            ProposalMetadata::DaoConfigChange(metadata) => {
                let r = self.dao_config_change_open_proposals.try_insert(
                    id,
                    ProposalData { common_data, metadata },
                    ceiling,
                );
                assert(self.dao_config_change_open_proposals@.drop_last() =~= old(self).dao_config_change_open_proposals@);
                r
            },
        }
    }
    /// Creates a proposal to whitelist a collection; see `create_proposal`.
    pub fn create_nft_collection_whitelist_proposal(
        &mut self,
        metadata: NftCollectionWhiteListMetadata,
        description: String,
        proposer_stake: Decimal,
        total_stake: Decimal,
        creation_payment: Decimal,
        now: Instant,
        id: ProposalId,
    ) -> (r: Result<ProposalId, DaoError>)
        requires
            old(self)@.wf(),
            !old(self)@.has(id),
        ensures
            final(self)@.wf(),
            final(self)@.config == old(self)@.config,
            match old(self)@.creation_error(
                ProposalDataTypes::NftCollectionWhiteListProposalData,
                ProposalDataTypes::NftCollectionWhiteListProposalData,
                proposer_stake,
                total_stake,
                creation_payment,
                now,
            ) {
                Some(e) => r == Err::<ProposalId, DaoError>(e) && final(self)@ == old(self)@,
                None => r == Ok::<ProposalId, DaoError>(id) && old(self)@.admitted(
                    final(self)@,
                    id,
                    description@,
                    ProposalMetadata::NftCollectionWhiteList(metadata),
                    now,
                ),
            },
    {
        self.create_proposal(
            ProposalDataTypes::NftCollectionWhiteListProposalData,
            ProposalMetadata::NftCollectionWhiteList(metadata),
            description,
            proposer_stake,
            total_stake,
            creation_payment,
            now,
            id,
        )
    }

    /// Creates a proposal to change a collection's settings; see
    /// `create_proposal`.
    pub fn create_nft_collection_config_change_proposal(
        &mut self,
        metadata: NftCollectionConfigChangeMetadata,
        description: String,
        proposer_stake: Decimal,
        total_stake: Decimal,
        creation_payment: Decimal,
        now: Instant,
        id: ProposalId,
    ) -> (r: Result<ProposalId, DaoError>)
        requires
            old(self)@.wf(),
            !old(self)@.has(id),
        ensures
            final(self)@.wf(),
            final(self)@.config == old(self)@.config,
            match old(self)@.creation_error(
                ProposalDataTypes::NftCollectionConfigChangeProposalData,
                ProposalDataTypes::NftCollectionConfigChangeProposalData,
                proposer_stake,
                total_stake,
                creation_payment,
                now,
            ) {
                Some(e) => r == Err::<ProposalId, DaoError>(e) && final(self)@ == old(self)@,
                None => r == Ok::<ProposalId, DaoError>(id) && old(self)@.admitted(
                    final(self)@,
                    id,
                    description@,
                    ProposalMetadata::NftCollectionConfigChange(metadata),
                    now,
                ),
            },
    {
        self.create_proposal(
            ProposalDataTypes::NftCollectionConfigChangeProposalData,
            ProposalMetadata::NftCollectionConfigChange(metadata),
            description,
            proposer_stake,
            total_stake,
            creation_payment,
            now,
            id,
        )
    }

    /// Creates a proposal to change the engine's configuration; see
    /// `create_proposal`.
    pub fn create_dao_config_change_proposal(
        &mut self,
        metadata: DaoConfigChangeMetadata,
        description: String,
        proposer_stake: Decimal,
        total_stake: Decimal,
        creation_payment: Decimal,
        now: Instant,
        id: ProposalId,
    ) -> (r: Result<ProposalId, DaoError>)
        requires
            old(self)@.wf(),
            !old(self)@.has(id),
        ensures
            final(self)@.wf(),
            final(self)@.config == old(self)@.config,
            match old(self)@.creation_error(
                ProposalDataTypes::DaoConfigChangeProposalData,
                ProposalDataTypes::DaoConfigChangeProposalData,
                proposer_stake,
                total_stake,
                creation_payment,
                now,
            ) {
                Some(e) => r == Err::<ProposalId, DaoError>(e) && final(self)@ == old(self)@,
                None => r == Ok::<ProposalId, DaoError>(id) && old(self)@.admitted(
                    final(self)@,
                    id,
                    description@,
                    ProposalMetadata::DaoConfigChange(metadata),
                    now,
                ),
            },
    {
        self.create_proposal(
            ProposalDataTypes::DaoConfigChangeProposalData,
            ProposalMetadata::DaoConfigChange(metadata),
            description,
            proposer_stake,
            total_stake,
            creation_payment,
            now,
            id,
        )
    }

    /// Records a vote cast at `now` on the open proposal with the
    /// identifier. A voter's later vote replaces the earlier one. Fails with
    /// `ProposalNotFound` where no open proposal has the identifier, and
    /// with `VotingWindowClosed` from the end of the voting window on. On
    /// any error nothing changes.
    pub fn cast_vote(&mut self, id: ProposalId, voter: Address, choice: Vote, now: Instant) -> (r:
        Result<(), DaoError>)
        requires
            old(self)@.wf(),
        ensures
            final(self)@.wf(),
            final(self)@.config == old(self)@.config,
            match old(self)@.common_of(id) {
                None => r == Err::<(), DaoError>(DaoError::ProposalNotFound) && final(self)@
                    == old(self)@,
                Some(common) => if common.accepts_votes(now) {
                    r == Ok::<(), DaoError>(()) && old(self)@.voted(final(self)@, id, voter, choice)
                } else {
                    r == Err::<(), DaoError>(DaoError::VotingWindowClosed) && final(self)@
                        == old(self)@
                },
            },
    {
        let ghost ceiling = self.dao_config.max_open_proposals;
        match self.nft_collection_whitelist_open_proposals.find(id) {
            Some(slot) => {
                let r = vote_in(
                    &mut self.nft_collection_whitelist_open_proposals,
                    slot,
                    voter,
                    choice,
                    now,
                );
                proof {
                    if r is Ok {
                        lemma_vote_keeps(
                            old(self)@.whitelist,
                            self@.whitelist,
                            slot as int,
                            voter,
                            choice,
                            ceiling,
                        );
                    }
                }
                return r;
            },
            None => {},
        }
        match self.nft_collection_config_change_open_proposals.find(id) {
            Some(slot) => {
                let r = vote_in(
                    &mut self.nft_collection_config_change_open_proposals,
                    slot,
                    voter,
                    choice,
                    now,
                );
                proof {
                    if r is Ok {
                        lemma_vote_keeps(
                            old(self)@.collection_changes,
                            self@.collection_changes,
                            slot as int,
                            voter,
                            choice,
                            ceiling,
                        );
                    }
                }
                return r;
            },
            None => {},
        }
        match self.dao_config_change_open_proposals.find(id) {
            Some(slot) => {
                let r = vote_in(
                    &mut self.dao_config_change_open_proposals,
                    slot,
                    voter,
                    choice,
                    now,
                );
                proof {
                    if r is Ok {
                        lemma_vote_keeps(
                            old(self)@.config_changes,
                            self@.config_changes,
                            slot as int,
                            voter,
                            choice,
                            ceiling,
                        );
                    }
                }
                r
            },
            None => Err(DaoError::ProposalNotFound),
        }
    }

    /// Closes the open proposal with the identifier at `now`: counts its
    /// votes, each weighed by the stake that its voter holds in `stakes`,
    /// takes the proposal out of its store and hands back its common part
    /// with the final status. A passed change of the configuration is put
    /// in force in the same step, and nothing else ever changes the
    /// configuration. Fails with `ProposalNotFound` where no open proposal
    /// has the identifier, with `VotingWindowNotYetClosed` before the end
    /// of the voting window, with `ArithmeticOverflow` where the weights are
    /// beyond the range, and with `ConfigurationInvalid` where the changes
    /// of a passed proposal cannot be made. On any error nothing changes.
    pub fn close_proposal(&mut self, id: ProposalId, now: Instant, stakes: &Vec<StakeEntry>) -> (r:
        Result<CommonProposalData, DaoError>)
        requires
            old(self)@.wf(),
        ensures
            final(self)@.wf(),
            match old(self)@.closing(id, now, stakes@) {
                Err(e) => r == Err::<CommonProposalData, DaoError>(e) && final(self)@ == old(self)@,
                Ok((status, config)) => r is Ok && closed_as(
                    r.unwrap(),
                    old(self)@.common_of(id).unwrap(),
                    status,
                ) && final(self)@ == (DaoView { config, ..old(self)@.without(id) }),
            },
    {
        let config = self.dao_config;
        let ratio = config.vote_weight_ratio;
        let threshold = config.quorum_threshold;
        match self.nft_collection_whitelist_open_proposals.find(id) {
            Some(slot) => {
                let status = match self.nft_collection_whitelist_open_proposals.record_at(
                    slot,
                ).common_data.outcome(now, stakes, ratio, threshold) {
                    Ok(status) => status,
                    Err(e) => {
                        return Err(e);
                    },
                };
                proof {
                    lemma_remove_keeps(self@.whitelist, slot as int, config.max_open_proposals);
                }
                return Ok(
                    take_closed(&mut self.nft_collection_whitelist_open_proposals, slot, status),
                );
            },
            None => {},
        }
        match self.nft_collection_config_change_open_proposals.find(id) {
            Some(slot) => {
                let status = match self.nft_collection_config_change_open_proposals.record_at(
                    slot,
                ).common_data.outcome(now, stakes, ratio, threshold) {
                    Ok(status) => status,
                    Err(e) => {
                        return Err(e);
                    },
                };
                proof {
                    lemma_remove_keeps(
                        self@.collection_changes,
                        slot as int,
                        config.max_open_proposals,
                    );
                }
                return Ok(
                    take_closed(
                        &mut self.nft_collection_config_change_open_proposals,
                        slot,
                        status,
                    ),
                );
            },
            None => {},
        }
        let slot = match self.dao_config_change_open_proposals.find(id) {
            Some(slot) => slot,
            None => {
                return Err(DaoError::ProposalNotFound);
            },
        };
        let record = self.dao_config_change_open_proposals.record_at(slot);
        let status = match record.common_data.outcome(now, stakes, ratio, threshold) {
            Ok(status) => status,
            Err(e) => {
                return Err(e);
            },
        };
        let mut next: DaoConfiguraiton = config;
        if status == Status::ProposalActionCompleted {
            next = match config.apply(&record.metadata.update_fields) {
                Ok(next) => next,
                Err(e) => {
                    return Err(e);
                },
            };
            let ceiling: u64 = next.max_open_proposals;
            if self.nft_collection_whitelist_open_proposals.count() as u64 > ceiling
                || self.nft_collection_config_change_open_proposals.count() as u64 > ceiling
                || (self.dao_config_change_open_proposals.count() - 1) as u64 > ceiling {
                return Err(DaoError::ConfigurationInvalid);
            }
        }
        proof {
            lemma_remove_keeps(self@.config_changes, slot as int, config.max_open_proposals);
        }
        let common = take_closed(&mut self.dao_config_change_open_proposals, slot, status);
        self.dao_config = next;
        Ok(common)
    }
}

/// Whether every record is that of an open proposal.
fn records_open<M>(entries: &Vec<Entry<ProposalData<M>>>) -> (r: bool)
    ensures
        r == all_open(entries@),
{
    let mut i: usize = 0;
    while i < entries.len()
        invariant
            i <= entries.len(),
            all_open(entries@.take(i as int)),
        decreases entries.len() - i,
    {
        let common = &entries[i].record.common_data;
        if common.status != Status::VotingStarted
            || common.voting_started_instant.seconds_since_unix_epoch
            >= common.voting_ended_instant.seconds_since_unix_epoch {
            return false;
        }
        let tally = &entries[i].record.common_data.vote_results;
        proof {
            use_type_invariant(tally);
            let before = entries@.take(i as int);
            let upto = entries@.take(i + 1);
            assert forall|j: int| 0 <= j < upto.len() implies (#[trigger] upto[j]).record.common_data.is_open() by {
                if j < i {
                    assert(upto[j] == before[j]);
                }
            }
        }
        i += 1;
    }
    assert(entries@.take(entries.len() as int) =~= entries@);
    true
}

/// Records a vote in the record at a position of a store.
fn vote_in<M>(
    store: &mut BoundedStore<ProposalData<M>>,
    slot: usize,
    voter: Address,
    choice: Vote,
    now: Instant,
) -> (r: Result<(), DaoError>)
    requires
        slot < old(store)@.len(),
        old(store)@[slot as int].record.common_data.vote_results.wf(),
    ensures
        old(store)@[slot as int].record.common_data.accepts_votes(now) ==> r == Ok::<(), DaoError>(
            (),
        ) && voted_at(old(store)@, final(store)@, slot as int, voter, choice) && final(store)@[slot as int].record.common_data.vote_results.wf(),
        !old(store)@[slot as int].record.common_data.accepts_votes(now) ==> r == Err::<
            (),
            DaoError,
        >(DaoError::VotingWindowClosed) && final(store)@ == old(store)@,
{
    let record = store.record_at_mut(slot);
    let r = record.common_data.cast_vote(voter, choice, now);
    proof {
        if r is Err {
            assert(store@ =~= old(store)@);
        }
    }
    r
}

/// Takes the record at a position out of a store and closes it with a
/// final status.
fn take_closed<M>(store: &mut BoundedStore<ProposalData<M>>, slot: usize, status: Status) -> (r:
    CommonProposalData)
    requires
        old(store).wf(),
        slot < old(store)@.len(),
        old(store)@[slot as int].record.common_data.status == Status::VotingStarted,
        status.is_terminal(),
    ensures
        final(store).wf(),
        final(store)@ == old(store)@.remove(slot as int),
        closed_as(r, old(store)@[slot as int].record.common_data, status),
{
    let entry = store.remove_at(slot);
    let mut common = entry.record.common_data;
    common.status = Status::VotingClosed;
    common.status = status;
    common
}

} // verus!
