use vstd::prelude::*;
use crate::dao::DaoView;
use crate::decimal::{share_reaches, Decimal};
use crate::error::DaoError;
use crate::proposal::{CommonProposalData, ProposalDataTypes, Status};
use crate::store::ProposalId;
use crate::tally::{outcome_of, StakeEntry};
use crate::time::Instant;
use crate::vote::{
    choice_of, distinct_voters, lemma_lines_of, lemma_recorded, lines_of, recorded, Address, Vote,
    VoteEntry,
};
use crate::voting::{window_end, window_start};

verus! {

/// In an engine in order no kind has more open proposals than the
/// configured ceiling; and where a kind's store is full, a creation that
/// passes the checks of stake and fee is refused with `CapacityExceeded`.
pub proof fn law_capacity(
    view: DaoView,
    kind: ProposalDataTypes,
    shape: ProposalDataTypes,
    proposer_stake: Decimal,
    total_stake: Decimal,
    creation_payment: Decimal,
    now: Instant,
)
    requires
        view.wf(),
    ensures
        view.count(kind) <= view.config.max_open_proposals,
        share_reaches(proposer_stake, total_stake, view.config.min_stake_ratio_to_propose)
            && creation_payment == view.config.creation_fee && view.count(kind)
            == view.config.max_open_proposals ==> view.creation_error(
            kind,
            shape,
            proposer_stake,
            total_stake,
            creation_payment,
            now,
        ) == Some(DaoError::CapacityExceeded),
{
}

/// A creation that passes the checks of stake, fee and room, with a payload
/// whose shape is not that of the declared kind, is refused with
/// `InvalidMetadataForKind`.
pub proof fn law_validation_gate(
    view: DaoView,
    kind: ProposalDataTypes,
    shape: ProposalDataTypes,
    proposer_stake: Decimal,
    total_stake: Decimal,
    creation_payment: Decimal,
    now: Instant,
)
    requires
        share_reaches(proposer_stake, total_stake, view.config.min_stake_ratio_to_propose),
        creation_payment == view.config.creation_fee,
        view.count(kind) < view.config.max_open_proposals,
        shape != kind,
    ensures
        view.creation_error(kind, shape, proposer_stake, total_stake, creation_payment, now)
            == Some(DaoError::InvalidMetadataForKind),
{
}

/// A voter who votes twice has one line, in the place of the first vote,
/// and it holds the second choice. Every other voter's choice stands.
pub proof fn law_revote_overwrites(
    votes: Seq<VoteEntry>,
    voter: Address,
    first: Vote,
    second: Vote,
)
    requires
        distinct_voters(votes),
    ensures
        ({
            let once = recorded(votes, voter, first);
            let twice = recorded(once, voter, second);
            &&& distinct_voters(twice)
            &&& twice.len() == once.len()
            &&& lines_of(twice, voter) == 1
            &&& choice_of(twice, voter) == Some(second)
            &&& twice == recorded(votes, voter, second)
            &&& forall|other: Address|
                other != voter ==> #[trigger] choice_of(twice, other) == choice_of(votes, other)
        }),
{
    let once = recorded(votes, voter, first);
    let twice = recorded(once, voter, second);
    lemma_recorded(votes, voter, first);
    lemma_recorded(votes, voter, second);
    lemma_recorded(once, voter, second);
    lemma_lines_of(twice, voter);
    crate::vote::lemma_position_of(votes, voter);
    crate::vote::lemma_position_of(once, voter);
    assert(twice =~= recorded(votes, voter, second));
}

/// From the end of the voting window on no vote is in time, whatever the
/// tally holds.
pub proof fn law_window_enforced(common: CommonProposalData, now: Instant)
    requires
        now.seconds_since_unix_epoch >= common.voting_ended_instant.seconds_since_unix_epoch,
    ensures
        !common.accepts_votes(now),
{
}

/// A tally without votes is rejected, whatever the stakes, the ratio and
/// the threshold are.
pub proof fn law_empty_tally_rejected(
    stakes: Seq<StakeEntry>,
    ratio: Decimal,
    threshold: Decimal,
)
    ensures
        outcome_of(Seq::<VoteEntry>::empty(), stakes, ratio, threshold) == Ok::<Status, DaoError>(
            Status::ProposalRejected,
        ),
{
}

/// Closing an open proposal without votes, once its window has ended,
/// rejects it and leaves the configuration as it is.
pub proof fn law_close_without_votes(
    view: DaoView,
    id: ProposalId,
    now: Instant,
    stakes: Seq<StakeEntry>,
)
    requires
        view.common_of(id) is Some,
        view.common_of(id).unwrap().status == Status::VotingStarted,
        view.common_of(id).unwrap().vote_results@.len() == 0,
        now.seconds_since_unix_epoch
            >= view.common_of(id).unwrap().voting_ended_instant.seconds_since_unix_epoch,
    ensures
        view.closing(id, now, stakes) == Ok::<(Status, crate::config::DaoConfiguraiton), DaoError>(
            (Status::ProposalRejected, view.config),
        ),
{
    let votes = view.common_of(id).unwrap().vote_results@;
    assert(votes =~= Seq::<VoteEntry>::empty());
}

/// The voting window starts on the minute in which the proposal is created
/// and ends exactly the period's days later, on a full minute as well.
pub proof fn law_window_length(now: Instant, period_days: i64)
    requires
        window_end(now, period_days) is Some,
    ensures
        ({
            let start = window_start(now).unwrap().seconds_since_unix_epoch as int;
            let end = window_end(now, period_days).unwrap().seconds_since_unix_epoch as int;
            &&& window_start(now) is Some
            &&& start % 60 == 0
            &&& start <= now.seconds_since_unix_epoch < start + 60
            &&& end == start + period_days as int * 86_400
            &&& end % 60 == 0
            &&& period_days > 0 ==> end > start
        }),
{
    let start = window_start(now).unwrap().seconds_since_unix_epoch as int;
    let end = window_end(now, period_days).unwrap().seconds_since_unix_epoch as int;
    let s = now.seconds_since_unix_epoch as int;
    vstd::arithmetic::div_mod::lemma_fundamental_div_mod(s, 60);
    assert(start == 60 * (s / 60));
    vstd::arithmetic::div_mod::lemma_mod_multiples_basic(s / 60, 60);
    assert(end == 60 * (s / 60 + period_days as int * 1_440));
    vstd::arithmetic::div_mod::lemma_mod_multiples_basic(s / 60 + period_days as int * 1_440, 60);
}

/// Closing leaves the configuration as it is, unless the proposal is a
/// change of the configuration and has passed. With creation and voting,
/// which never touch it, nothing else changes the configuration.
pub proof fn law_only_enactment_changes_config(
    view: DaoView,
    id: ProposalId,
    now: Instant,
    stakes: Seq<StakeEntry>,
)
    ensures
        match view.closing(id, now, stakes) {
            Ok((status, config)) => config != view.config ==> view.kind_of(id) == Some(
                ProposalDataTypes::DaoConfigChangeProposalData,
            ) && status == Status::ProposalActionCompleted,
            Err(_) => true,
        },
{
}

/// A proposal that closes goes from the start of the voting through its
/// closing to one of the two final states: no state is passed over, and no
/// step leads back.
pub proof fn law_closing_is_final(
    view: DaoView,
    id: ProposalId,
    now: Instant,
    stakes: Seq<StakeEntry>,
)
    ensures
        match view.closing(id, now, stakes) {
            Ok((status, _)) => {
                &&& view.common_of(id).unwrap().status == Status::VotingStarted
                &&& Status::VotingStarted.may_become(Status::VotingClosed)
                &&& Status::VotingClosed.may_become(status)
                &&& status.is_terminal()
                &&& forall|next: Status| !status.may_become(next)
            },
            Err(_) => true,
        },
{
}

} // verus!
