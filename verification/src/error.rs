use vstd::prelude::*;

verus! {

/// Why an operation of the engine was rejected. Every rejection leaves the
/// engine exactly as it was before the call.
#[derive(Clone, Copy, Debug, PartialEq, Eq, Structural)]
pub enum DaoError {
    /// The proposer holds too small a share of the total stake.
    InsufficientStake,
    /// The payment that came with the proposal is not the creation fee.
    IncorrectFee,
    /// The store of the proposal's kind already holds as many open proposals
    /// as the configuration allows.
    CapacityExceeded,
    /// The metadata does not have the shape of the declared kind.
    InvalidMetadataForKind,
    /// A vote came at or after the end of the voting window, or for a
    /// proposal that is no longer open.
    VotingWindowClosed,
    /// A proposal was to be closed before its voting window ended.
    VotingWindowNotYetClosed,
    /// The end of the voting window cannot be represented as a timestamp.
    ClockOverflow,
    /// No open proposal has the given identifier.
    ProposalNotFound,
    /// A configuration, or a change to one, names an unknown field or holds
    /// a value that the field cannot take.
    ConfigurationInvalid,
    /// The weights of the votes do not fit the range of a decimal.
    ArithmeticOverflow,
}

} // verus!
