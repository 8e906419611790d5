use vstd::prelude::*;
use crate::decimal::Decimal;
use crate::error::DaoError;
use crate::proposal::{CommonProposalData, Status};
use crate::tally::{outcome_of, tally_outcome, StakeEntry};
use crate::time::{days_after, minute_floor, Instant};
use crate::vote::{recorded, Address, Vote, VoteEntry, VoteTally};

verus! {

/// The instant at which a proposal created at `now` starts: `now` rounded
/// down to the minute, where that is a timestamp.
pub open spec fn window_start(now: Instant) -> Option<Instant> {
    let floor = minute_floor(now.seconds_since_unix_epoch as int);
    if floor >= i64::MIN {
        Some(Instant { seconds_since_unix_epoch: floor as i64 })
    } else {
        None
    }
}

/// The instant at which the voting on a proposal created at `now` ends:
/// the start and the period's days, where that is a timestamp.
pub open spec fn window_end(now: Instant, period_days: i64) -> Option<Instant> {
    match window_start(now) {
        Some(start) => days_after(start, period_days),
        None => None,
    }
}

impl CommonProposalData {
    /// Whether the record is that of a proposal just created at `now` with
    /// the given description and period.
    pub open spec fn is_fresh(&self, description: Seq<char>, now: Instant, period_days: i64) -> bool {
        &&& self.description@ == description
        &&& self.status == Status::VotingStarted
        &&& Some(self.voting_started_instant) == window_start(now)
        &&& Some(self.voting_ended_instant) == window_end(now, period_days)
        &&& self.vote_results@ == Seq::<VoteEntry>::empty()
    }

    /// Whether the record is that of an open proposal in order: voting has
    /// started, the window ends after it starts, and no voter has more than
    /// one line in the tally.
    pub open spec fn is_open(&self) -> bool {
        &&& self.status == Status::VotingStarted
        &&& self.voting_started_instant.seconds_since_unix_epoch
            < self.voting_ended_instant.seconds_since_unix_epoch
        &&& self.vote_results.wf()
    }

    /// Whether a vote at `now` is in time: the proposal is open and its
    /// window has not ended.
    pub open spec fn accepts_votes(&self, now: Instant) -> bool {
        self.status == Status::VotingStarted && now.seconds_since_unix_epoch
            < self.voting_ended_instant.seconds_since_unix_epoch
    }

    /// What closing at `now` leads to: the final status; or the reason why
    /// the proposal cannot be closed.
    pub open spec fn outcome_at(
        &self,
        now: Instant,
        stakes: Seq<StakeEntry>,
        ratio: Decimal,
        threshold: Decimal,
    ) -> Result<Status, DaoError> {
        if self.status != Status::VotingStarted {
            Err(DaoError::VotingWindowClosed)
        } else if now.seconds_since_unix_epoch
            < self.voting_ended_instant.seconds_since_unix_epoch {
            Err(DaoError::VotingWindowNotYetClosed)
        } else {
            outcome_of(self.vote_results@, stakes, ratio, threshold)
        }
    }

    /// Whether `self` is `before` with nothing changed but the tally, which
    /// now holds the voter's choice.
    pub open spec fn is_voted(&self, before: CommonProposalData, voter: Address, choice: Vote) -> bool {
        &&& self.description == before.description
        &&& self.status == before.status
        &&& self.voting_started_instant == before.voting_started_instant
        &&& self.voting_ended_instant == before.voting_ended_instant
        &&& self.vote_results@ == recorded(before.vote_results@, voter, choice)
    }

    /// The common part of a proposal created at `now`: voting has started,
    /// nobody has voted, the window starts at `now` rounded down to the
    /// minute and ends `period_days` days later. Fails with `ClockOverflow`
    /// where the start or the end is no timestamp.
    pub fn new(description: String, now: Instant, period_days: i64) -> (r: Result<
        CommonProposalData,
        DaoError,
    >)
        ensures
            match r {
                Ok(c) => c.is_fresh(description@, now, period_days) && c.vote_results.wf(),
                Err(e) => e == DaoError::ClockOverflow && window_end(now, period_days) is None,
            },
    {
        let start = match now.rounded_to_minutes() {
            Some(start) => start,
            None => {
                return Err(DaoError::ClockOverflow);
            },
        };
        let end = match start.add_days(period_days) {
            Some(end) => end,
            None => {
                return Err(DaoError::ClockOverflow);
            },
        };
        Ok(
            CommonProposalData {
                description,
                status: Status::VotingStarted,
                voting_started_instant: start,
                voting_ended_instant: end,
                vote_results: VoteTally::new(),
            },
        )
    }

    /// Records a vote cast at `now`. A voter's later vote replaces the
    /// earlier one. Fails with `VotingWindowClosed`, changing nothing, where
    /// the window has ended or the proposal is no longer open.
    pub fn cast_vote(&mut self, voter: Address, choice: Vote, now: Instant) -> (r: Result<
        (),
        DaoError,
    >)
        ensures
            final(self).vote_results.wf(),
            old(self).accepts_votes(now) ==> r == Ok::<(), DaoError>(()) && final(self).is_voted(
                *old(self),
                voter,
                choice,
            ),
            !old(self).accepts_votes(now) ==> r == Err::<(), DaoError>(
                DaoError::VotingWindowClosed,
            ) && *final(self) == *old(self),
    {
        if self.status != Status::VotingStarted || now.seconds_since_unix_epoch
            >= self.voting_ended_instant.seconds_since_unix_epoch {
            proof {
                use_type_invariant(&self.vote_results);
            }
            return Err(DaoError::VotingWindowClosed);
        }
        self.vote_results.cast(voter, choice);
        Ok(())
    }

    /// What closing at `now` leads to, the record left as it is: the final
    /// status by the weighted votes; `VotingWindowClosed` where the proposal
    /// is no longer open; `VotingWindowNotYetClosed` before the window's
    /// end; `ArithmeticOverflow` where the weights are beyond the range.
    pub fn outcome(
        &self,
        now: Instant,
        stakes: &Vec<StakeEntry>,
        ratio: Decimal,
        threshold: Decimal,
    ) -> (r: Result<Status, DaoError>)
        ensures
            r == self.outcome_at(now, stakes@, ratio, threshold),
    {
        if self.status != Status::VotingStarted {
            return Err(DaoError::VotingWindowClosed);
        }
        if now.seconds_since_unix_epoch < self.voting_ended_instant.seconds_since_unix_epoch {
            return Err(DaoError::VotingWindowNotYetClosed);
        }
        tally_outcome(&self.vote_results, stakes, ratio, threshold)
    }
}

} // verus!
