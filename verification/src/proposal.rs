use vstd::prelude::*;
use crate::config::FieldUpdate;
use crate::error::DaoError;
use crate::time::Instant;
use crate::vote::{Address, VoteTally};

verus! {

/// The kinds of proposal, each named after the record it is stored as.
#[derive(Clone, Copy, Debug, PartialEq, Eq, Structural)]
pub enum ProposalDataTypes {
    NftCollectionWhiteListProposalData,
    NftCollectionConfigChangeProposalData,
    DaoConfigChangeProposalData,
}

/// Where a proposal stands. Voting starts at creation; closing passes
/// through `VotingClosed` to one of the two final states within one step.
#[derive(Clone, Copy, Debug, PartialEq, Eq, Structural)]
pub enum Status {
    VotingStarted,
    VotingClosed,
    ProposalActionCompleted,
    ProposalRejected,
}

/// What a proposal to whitelist a collection carries: the collection.
#[derive(Debug)]
pub struct NftCollectionWhiteListMetadata {
    pub resource_address: Address,
}

/// What a proposal to change a collection's settings carries: the
/// collection and the new values of its fields.
#[derive(Debug)]
pub struct NftCollectionConfigChangeMetadata {
    pub resource_address: Address,
    pub update_fields: Vec<FieldUpdate>,
}

/// What a proposal to change the engine's own configuration carries: the
/// new values of its fields.
#[derive(Debug)]
pub struct DaoConfigChangeMetadata {
    pub update_fields: Vec<FieldUpdate>,
}

/// A metadata payload of any kind, as it is submitted.
#[derive(Debug)]
pub enum ProposalMetadata {
    NftCollectionWhiteList(NftCollectionWhiteListMetadata),
    NftCollectionConfigChange(NftCollectionConfigChangeMetadata),
    DaoConfigChange(DaoConfigChangeMetadata),
}

/// What proposals of every kind have in common.
#[derive(Debug)]
pub struct CommonProposalData {
    pub description: String,
    pub status: Status,
    pub voting_started_instant: Instant,
    pub voting_ended_instant: Instant,
    pub vote_results: VoteTally,
}

/// A proposal record: the common part and the metadata of its kind.
#[derive(Debug)]
pub struct ProposalData<M> {
    pub common_data: CommonProposalData,
    pub metadata: M,
}

/// The record of a proposal to whitelist a collection.
pub type NftCollectionWhiteListProposalData = ProposalData<NftCollectionWhiteListMetadata>;

/// The record of a proposal to change a collection's settings.
pub type NftCollectionConfigChangeProposalData = ProposalData<NftCollectionConfigChangeMetadata>;

/// The record of a proposal to change the engine's configuration.
pub type DaoConfigChangeProposalData = ProposalData<DaoConfigChangeMetadata>;

impl Status {
    /// Whether the status is one of the two final ones.
    pub open spec fn is_terminal(&self) -> bool {
        *self == Status::ProposalActionCompleted || *self == Status::ProposalRejected
    }

    /// Whether a proposal may go from `self` to `next` in one step of its
    /// life: never backwards, never past a state.
    pub open spec fn may_become(&self, next: Status) -> bool {
        match *self {
            Status::VotingStarted => next == Status::VotingStarted || next
                == Status::VotingClosed,
            Status::VotingClosed => next.is_terminal(),
            Status::ProposalActionCompleted => false,
            Status::ProposalRejected => false,
        }
    }
}

impl ProposalMetadata {
    /// The kind whose shape the payload has.
    pub open spec fn shape(&self) -> ProposalDataTypes {
        match *self {
            ProposalMetadata::NftCollectionWhiteList(_) =>
                ProposalDataTypes::NftCollectionWhiteListProposalData,
            ProposalMetadata::NftCollectionConfigChange(_) =>
                ProposalDataTypes::NftCollectionConfigChangeProposalData,
            ProposalMetadata::DaoConfigChange(_) => ProposalDataTypes::DaoConfigChangeProposalData,
        }
    }

    /// The kind whose shape the payload has.
    pub fn kind(&self) -> (r: ProposalDataTypes)
        ensures
            r == self.shape(),
    {
        match self {
            ProposalMetadata::NftCollectionWhiteList(_) =>
                ProposalDataTypes::NftCollectionWhiteListProposalData,
            ProposalMetadata::NftCollectionConfigChange(_) =>
                ProposalDataTypes::NftCollectionConfigChangeProposalData,
            ProposalMetadata::DaoConfigChange(_) => ProposalDataTypes::DaoConfigChangeProposalData,
        }
    }
}

/// Accepts a payload exactly when it has the shape of the declared kind, and
/// hands it back; any other payload is refused with `InvalidMetadataForKind`.
pub fn validate(kind: ProposalDataTypes, metadata: ProposalMetadata) -> (r: Result<
    ProposalMetadata,
    DaoError,
>)
    ensures
        r == if metadata.shape() == kind {
            Ok::<ProposalMetadata, DaoError>(metadata)
        } else {
            Err::<ProposalMetadata, DaoError>(DaoError::InvalidMetadataForKind)
        },
{
    match (kind, &metadata) {
        (
            ProposalDataTypes::NftCollectionWhiteListProposalData,
            ProposalMetadata::NftCollectionWhiteList(_),
        ) => Ok(metadata),
        (
            ProposalDataTypes::NftCollectionConfigChangeProposalData,
            ProposalMetadata::NftCollectionConfigChange(_),
        ) => Ok(metadata),
        (
            ProposalDataTypes::DaoConfigChangeProposalData,
            ProposalMetadata::DaoConfigChange(_),
        ) => Ok(metadata),
        (ProposalDataTypes::NftCollectionWhiteListProposalData, _) => Err(
            DaoError::InvalidMetadataForKind,
        ),
        (ProposalDataTypes::NftCollectionConfigChangeProposalData, _) => Err(
            DaoError::InvalidMetadataForKind,
        ),
        (ProposalDataTypes::DaoConfigChangeProposalData, _) => Err(
            DaoError::InvalidMetadataForKind,
        ),
    }
}

} // verus!
