use vstd::prelude::*;
use crate::decimal::{parsed, Decimal, ATTOS_PER_UNIT};
use crate::error::DaoError;

verus! {

/// The rules that every proposal is created, voted on and closed under.
#[derive(Clone, Copy, Debug, PartialEq, Eq, Structural)]
pub struct DaoConfiguraiton {
    /// The share of the weighted yes and no votes that the yes votes must
    /// reach for a proposal to pass.
    pub quorum_threshold: Decimal,
    /// The weight of a vote for each unit of the voter's stake.
    pub vote_weight_ratio: Decimal,
    /// The share of the total stake that a proposer must hold.
    pub min_stake_ratio_to_propose: Decimal,
    /// The payment that must come with a new proposal.
    pub creation_fee: Decimal,
    /// The length of the voting window in days.
    pub proposal_period_days: i64,
    /// The number of open proposals that each kind may have at most.
    pub max_open_proposals: u64,
}

/// A field of the configuration that a change can name.
#[derive(Clone, Copy, Debug, PartialEq, Eq, Structural)]
pub enum ConfigField {
    QuorumThreshold,
    VoteWeightRatio,
    MinStakeRatioToPropose,
    CreationFee,
    ProposalPeriodDays,
    MaxOpenProposals,
}

/// One requested change: the name of a field and its new value as text.
#[derive(Debug)]
pub struct FieldUpdate {
    pub name: String,
    pub value: String,
}

/// The field that a name stands for.
pub open spec fn field_named(name: Seq<char>) -> Option<ConfigField> {
    if name == "quorum_threshold"@ {
        Some(ConfigField::QuorumThreshold)
    } else if name == "vote_weight_ratio"@ {
        Some(ConfigField::VoteWeightRatio)
    } else if name == "min_stake_ratio_to_propose"@ {
        Some(ConfigField::MinStakeRatioToPropose)
    } else if name == "creation_fee"@ {
        Some(ConfigField::CreationFee)
    } else if name == "proposal_period_days"@ {
        Some(ConfigField::ProposalPeriodDays)
    } else if name == "max_open_proposals"@ {
        Some(ConfigField::MaxOpenProposals)
    } else {
        None
    }
}

/// The configuration after one change whose value has been read: `None`
/// where the name is no field's, the value is no decimal, or the field
/// cannot take it.
pub open spec fn updated(
    config: DaoConfiguraiton,
    name: Seq<char>,
    value: Option<Decimal>,
) -> Option<DaoConfiguraiton> {
    match (field_named(name), value) {
        (Some(field), Some(v)) => config.having(field, v),
        _ => None,
    }
}

/// The configuration after a list of changes, made first to last: `None`
/// as soon as one of them cannot be made.
pub open spec fn changed(config: DaoConfiguraiton, updates: Seq<FieldUpdate>) -> Option<
    DaoConfiguraiton,
>
    decreases updates.len(),
{
    if updates.len() == 0 {
        Some(config)
    } else {
        match updated(config, updates.first().name@, parsed(updates.first().value@)) {
            Some(next) => changed(next, updates.drop_first()),
            None => None,
        }
    }
}

impl ConfigField {
    /// The field that a name stands for, if it names one.
    pub fn from_name(name: &String) -> (r: Option<ConfigField>)
        ensures
            r == field_named(name@),
    {
        if *name == "quorum_threshold".to_owned() {
            Some(ConfigField::QuorumThreshold)
        } else if *name == "vote_weight_ratio".to_owned() {
            Some(ConfigField::VoteWeightRatio)
        } else if *name == "min_stake_ratio_to_propose".to_owned() {
            Some(ConfigField::MinStakeRatioToPropose)
        } else if *name == "creation_fee".to_owned() {
            Some(ConfigField::CreationFee)
        } else if *name == "proposal_period_days".to_owned() {
            Some(ConfigField::ProposalPeriodDays)
        } else if *name == "max_open_proposals".to_owned() {
            Some(ConfigField::MaxOpenProposals)
        } else {
            None
        }
    }
}

impl DaoConfiguraiton {
    /// The configuration's invariant: the voting window is at least a day.
    /// The ratios and the fee cannot be negative.
    pub open spec fn is_valid(&self) -> bool {
        self.proposal_period_days > 0
    }

    /// The configuration with one field set to a value: `None` where the
    /// field cannot take it. The length of the window must be a whole number
    /// of days, at least one; the ceiling a whole number.
    pub open spec fn having(self, field: ConfigField, value: Decimal) -> Option<
        DaoConfiguraiton,
    > {
        let units = value.attos / ATTOS_PER_UNIT;
        let whole = value.attos % ATTOS_PER_UNIT == 0;
        match field {
            ConfigField::QuorumThreshold => Some(
                DaoConfiguraiton { quorum_threshold: value, ..self },
            ),
            ConfigField::VoteWeightRatio => Some(
                DaoConfiguraiton { vote_weight_ratio: value, ..self },
            ),
            ConfigField::MinStakeRatioToPropose => Some(
                DaoConfiguraiton { min_stake_ratio_to_propose: value, ..self },
            ),
            ConfigField::CreationFee => Some(DaoConfiguraiton { creation_fee: value, ..self }),
            ConfigField::ProposalPeriodDays => if whole && 1 <= units <= i64::MAX {
                Some(DaoConfiguraiton { proposal_period_days: units as i64, ..self })
            } else {
                None
            },
            ConfigField::MaxOpenProposals => if whole && units <= u64::MAX {
                Some(DaoConfiguraiton { max_open_proposals: units as u64, ..self })
            } else {
                None
            },
        }
    }

    /// The configuration that a new engine starts with: a threshold of 200,
    /// one unit of weight for each unit of stake, a thousandth of the total
    /// stake to propose, no fee, ten days of voting and twenty open
    /// proposals of each kind.
    pub open spec fn initial() -> DaoConfiguraiton {
        DaoConfiguraiton {
            quorum_threshold: Decimal { attos: 200_000_000_000_000_000_000 },
            vote_weight_ratio: Decimal { attos: 1_000_000_000_000_000_000 },
            min_stake_ratio_to_propose: Decimal { attos: 1_000_000_000_000_000 },
            creation_fee: Decimal { attos: 0 },
            proposal_period_days: 10,
            max_open_proposals: 20,
        }
    }

    /// The configuration that a new engine starts with.
    pub fn default_config() -> (r: DaoConfiguraiton)
        ensures
            r == DaoConfiguraiton::initial(),
            r.is_valid(),
    {
        DaoConfiguraiton {
            quorum_threshold: Decimal::from_units(200),
            vote_weight_ratio: Decimal::from_units(1),
            min_stake_ratio_to_propose: Decimal::from_attos(1_000_000_000_000_000),
            creation_fee: Decimal::zero(),
            proposal_period_days: 10,
            max_open_proposals: 20,
        }
    }

    /// Whether the configuration is valid.
    pub fn check_valid(&self) -> (r: bool)
        ensures
            r == self.is_valid(),
    {
        self.proposal_period_days > 0
    }

    /// The configuration with one field set to a value.
    pub fn with_field(&self, field: ConfigField, value: Decimal) -> (r: Option<DaoConfiguraiton>)
        ensures
            r == self.having(field, value),
    {
        let mut next: DaoConfiguraiton = *self;
        match field {
            ConfigField::QuorumThreshold => {
                next.quorum_threshold = value;
            },
            ConfigField::VoteWeightRatio => {
                next.vote_weight_ratio = value;
            },
            ConfigField::MinStakeRatioToPropose => {
                next.min_stake_ratio_to_propose = value;
            },
            ConfigField::CreationFee => {
                next.creation_fee = value;
            },
            ConfigField::ProposalPeriodDays => {
                match value.whole_units() {
                    Some(units) => {
                        if units < 1 || units > i64::MAX as u128 {
                            return None;
                        }
                        next.proposal_period_days = units as i64;
                    },
                    None => {
                        return None;
                    },
                }
            },
            ConfigField::MaxOpenProposals => {
                match value.whole_units() {
                    Some(units) => {
                        if units > u64::MAX as u128 {
                            return None;
                        }
                        next.max_open_proposals = units as u64;
                    },
                    None => {
                        return None;
                    },
                }
            },
        }
        Some(next)
    }

    /// Makes one change whose value has already been read as a decimal
    /// (`None` where the text was none). Fails with `ConfigurationInvalid`
    /// where the name is no field's, the value is missing, or the field
    /// cannot take it.
    pub fn update_field(&self, name: &String, value: Option<Decimal>) -> (r: Result<
        DaoConfiguraiton,
        DaoError,
    >)
        ensures
            r == match updated(*self, name@, value) {
                Some(next) => Ok::<DaoConfiguraiton, DaoError>(next),
                None => Err::<DaoConfiguraiton, DaoError>(DaoError::ConfigurationInvalid),
            },
            self.is_valid() && r is Ok ==> r.unwrap().is_valid(),
    {
        let field = match ConfigField::from_name(name) {
            Some(f) => f,
            None => {
                return Err(DaoError::ConfigurationInvalid);
            },
        };
        let v = match value {
            Some(v) => v,
            None => {
                return Err(DaoError::ConfigurationInvalid);
            },
        };
        match self.with_field(field, v) {
            Some(next) => Ok(next),
            None => Err(DaoError::ConfigurationInvalid),
        }
    }

    /// Makes a list of changes, first to last, reading each value as a
    /// decimal. Fails with `ConfigurationInvalid` where any of them cannot
    /// be made.
    pub fn apply(&self, updates: &Vec<FieldUpdate>) -> (r: Result<DaoConfiguraiton, DaoError>)
        ensures
            r == match changed(*self, updates@) {
                Some(next) => Ok::<DaoConfiguraiton, DaoError>(next),
                None => Err::<DaoConfiguraiton, DaoError>(DaoError::ConfigurationInvalid),
            },
            self.is_valid() && r is Ok ==> r.unwrap().is_valid(),
    {
        let mut current: DaoConfiguraiton = *self;
        let mut i: usize = 0;
        assert(updates@.skip(0) =~= updates@);
        while i < updates.len()
            invariant
                i <= updates.len(),
                changed(*self, updates@) == changed(current, updates@.skip(i as int)),
                self.is_valid() ==> current.is_valid(),
            decreases updates.len() - i,
        {
            let rest = Ghost(updates@.skip(i as int));
            assert(rest@.first() == updates@[i as int]);
            assert(rest@.drop_first() == updates@.skip(i + 1));
            let value = Decimal::parse(&updates[i].value);
            match current.update_field(&updates[i].name, value) {
                Ok(next) => {
                    current = next;
                },
                Err(e) => {
                    return Err(e);
                },
            }
            i += 1;
        }
        Ok(current)
    }
}

} // verus!
