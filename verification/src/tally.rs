use vstd::prelude::*;
use crate::decimal::{product, scaled_mul, Decimal, ATTOS_PER_UNIT};
use crate::error::DaoError;
use crate::proposal::Status;
use crate::vote::{Address, Vote, VoteEntry, VoteTally};

verus! {

/// What a participant holds at the time of the count.
#[derive(Clone, Copy, Debug, PartialEq, Eq, Structural)]
pub struct StakeEntry {
    pub holder: Address,
    pub stake: Decimal,
}

/// The stake of a holder: that of the holder's first line, and zero for a
/// holder without a line.
pub open spec fn stake_of(stakes: Seq<StakeEntry>, holder: Address) -> Decimal
    decreases stakes.len(),
{
    if stakes.len() == 0 {
        Decimal { attos: 0 }
    } else if stakes.first().holder == holder {
        stakes.first().stake
    } else {
        stake_of(stakes.drop_first(), holder)
    }
}

/// The weight of a vote in attos: the stake times the ratio, rounded down.
pub open spec fn weight(stake: Decimal, ratio: Decimal) -> nat {
    (stake.attos as nat * ratio.attos as nat) / (ATTOS_PER_UNIT as nat)
}

/// The summed weight, in attos, of the votes for one choice.
pub open spec fn weight_for(
    votes: Seq<VoteEntry>,
    stakes: Seq<StakeEntry>,
    ratio: Decimal,
    choice: Vote,
) -> nat
    decreases votes.len(),
{
    if votes.len() == 0 {
        0
    } else {
        weight_for(votes.drop_last(), stakes, ratio, choice) + if votes.last().choice == choice {
            weight(stake_of(stakes, votes.last().voter), ratio)
        } else {
            0nat
        }
    }
}

/// Whether the yes weight reaches the threshold as a share of the yes and
/// no weights together. Without any such weight nothing passes.
pub open spec fn passes(yes: nat, no: nat, threshold: Decimal) -> bool {
    yes + no > 0 && yes * ATTOS_PER_UNIT as nat >= threshold.attos as nat * (yes + no)
}

/// The final status for given weights: completed where the proposal passes,
/// rejected where it does not; an error where the weights together are
/// beyond the range of a decimal.
pub open spec fn verdict(yes: nat, no: nat, threshold: Decimal) -> Result<Status, DaoError> {
    if yes + no > u128::MAX {
        Err(DaoError::ArithmeticOverflow)
    } else if passes(yes, no, threshold) {
        Ok(Status::ProposalActionCompleted)
    } else {
        Ok(Status::ProposalRejected)
    }
}

/// The final status that a tally leads to, each vote weighed by the stake
/// that its voter holds now. Blank votes weigh nothing.
pub open spec fn outcome_of(
    votes: Seq<VoteEntry>,
    stakes: Seq<StakeEntry>,
    ratio: Decimal,
    threshold: Decimal,
) -> Result<Status, DaoError> {
    verdict(
        weight_for(votes, stakes, ratio, Vote::Yes),
        weight_for(votes, stakes, ratio, Vote::No),
        threshold,
    )
}

/// The votes counted so far never weigh more than all of them.
pub proof fn lemma_weight_prefix(
    votes: Seq<VoteEntry>,
    stakes: Seq<StakeEntry>,
    ratio: Decimal,
    choice: Vote,
    k: int,
)
    requires
        0 <= k <= votes.len(),
    ensures
        weight_for(votes.take(k), stakes, ratio, choice) <= weight_for(
            votes,
            stakes,
            ratio,
            choice,
        ),
    decreases votes.len(),
{
    if k == votes.len() {
        assert(votes.take(k) =~= votes);
    } else {
        let front = votes.drop_last();
        lemma_weight_prefix(front, stakes, ratio, choice, k);
        assert(front.take(k) =~= votes.take(k));
    }
}

/// Counting one more vote adds its weight to its choice and nothing to the
/// others.
pub proof fn lemma_weight_step(
    votes: Seq<VoteEntry>,
    stakes: Seq<StakeEntry>,
    ratio: Decimal,
    choice: Vote,
    k: int,
)
    requires
        0 <= k < votes.len(),
    ensures
        weight_for(votes.take(k + 1), stakes, ratio, choice) == weight_for(
            votes.take(k),
            stakes,
            ratio,
            choice,
        ) + if votes[k].choice == choice {
            weight(stake_of(stakes, votes[k].voter), ratio)
        } else {
            0nat
        },
{
    let upto = votes.take(k + 1);
    assert(upto.drop_last() =~= votes.take(k));
    assert(upto.last() == votes[k]);
}

/// The stake that a holder has in a table of stakes; zero for a holder
/// that the table does not list.
pub fn lookup_stake(stakes: &Vec<StakeEntry>, holder: Address) -> (r: Decimal)
    ensures
        r == stake_of(stakes@, holder),
{
    let mut i: usize = 0;
    assert(stakes@.skip(0) =~= stakes@);
    while i < stakes.len()
        invariant
            i <= stakes.len(),
            stake_of(stakes@, holder) == stake_of(stakes@.skip(i as int), holder),
        decreases stakes.len() - i,
    {
        let rest = Ghost(stakes@.skip(i as int));
        assert(rest@.first() == stakes@[i as int]);
        assert(rest@.drop_first() == stakes@.skip(i + 1));
        if stakes[i].holder == holder {
            return stakes[i].stake;
        }
        i += 1;
    }
    Decimal::zero()
}

/// The weight of a vote: the voter's stake times the weight ratio, rounded
/// down to a whole number of attos; `None` where it is beyond the range.
pub fn vote_weight(stake: Decimal, ratio: Decimal) -> (r: Option<Decimal>)
    ensures
        r == product(stake, ratio),
        match r {
            Some(w) => w.attos == weight(stake, ratio),
            None => weight(stake, ratio) > u128::MAX,
        },
{
    scaled_mul(stake, ratio)
}

/// The final status for a weighted yes and a weighted no: completed where
/// yes, as a share of both, reaches the threshold; rejected where it does
/// not, and where both are zero.
pub fn quorum_outcome(yes_weight: Decimal, no_weight: Decimal, threshold: Decimal) -> (r: Result<
    Status,
    DaoError,
>)
    ensures
        r == verdict(yes_weight.attos as nat, no_weight.attos as nat, threshold),
{
    match yes_weight.checked_add(no_weight) {
        Some(total) => {
            if Decimal::share_at_least(yes_weight, total, threshold) {
                Ok(Status::ProposalActionCompleted)
            } else {
                Ok(Status::ProposalRejected)
            }
        },
        None => Err(DaoError::ArithmeticOverflow),
    }
}

/// Counts a tally: weighs every yes and no vote by the stake that its voter
/// holds in `stakes` and decides by the threshold.
pub fn tally_outcome(
    votes: &VoteTally,
    stakes: &Vec<StakeEntry>,
    ratio: Decimal,
    threshold: Decimal,
) -> (r: Result<Status, DaoError>)
    ensures
        r == outcome_of(votes@, stakes@, ratio, threshold),
{
    let mut yes: u128 = 0;
    let mut no: u128 = 0;
    let mut i: usize = 0;
    let n: usize = votes.len();
    while i < n
        invariant
            i <= n,
            n == votes@.len(),
            yes == weight_for(votes@.take(i as int), stakes@, ratio, Vote::Yes),
            no == weight_for(votes@.take(i as int), stakes@, ratio, Vote::No),
            yes + no <= u128::MAX,
        decreases n - i,
    {
        let entry = votes.entry(i);
        proof {
            lemma_weight_step(votes@, stakes@, ratio, Vote::Yes, i as int);
            lemma_weight_step(votes@, stakes@, ratio, Vote::No, i as int);
            lemma_weight_prefix(votes@, stakes@, ratio, Vote::Yes, i + 1);
            lemma_weight_prefix(votes@, stakes@, ratio, Vote::No, i + 1);
        }
        if entry.choice != Vote::Blank {
            let w = match vote_weight(lookup_stake(stakes, entry.voter), ratio) {
                Some(w) => w.attos,
                None => {
                    return Err(DaoError::ArithmeticOverflow);
                },
            };
            if w > u128::MAX - yes - no {
                return Err(DaoError::ArithmeticOverflow);
            }
            if entry.choice == Vote::Yes {
                yes = yes + w;
            } else {
                no = no + w;
            }
        }
        i += 1;
    }
    assert(votes@.take(n as int) =~= votes@);
    quorum_outcome(Decimal::from_attos(yes), Decimal::from_attos(no), threshold)
}

} // verus!
