//! The error taxonomy shared by every operation of the crate.

use vstd::prelude::*;

verus! {

/// Why a call was rejected. Every validation failure aborts the call with
/// no state mutation and reports one of these kinds, so that callers can
/// assert on the cause.
#[derive(Clone, Copy, Debug, PartialEq, Eq, Structural)]
pub enum ContractError {
    /// A submitted budget was zero.
    InvalidBudget,
    /// The named scenario is not in the ledger's fixed list.
    ScenarioNotFound,
    /// The total allocation would exceed the global budget cap.
    BudgetCapExceeded,
    /// Some scenario already carries a nonzero budget; the ledger accepts
    /// no further votes once any vote has been recorded.
    AlreadyVoted,
    /// The named latch does not exist.
    LatchNotFound,
    /// The caller is not in the latch's participant list.
    UnauthorizedParticipant,
    /// The caller lacks the role required for a reconfiguration call.
    Unauthorized,
    /// The named node does not exist in the graph store.
    NodeNotFound,
    /// The named key does not exist in the data store.
    DataNotFound,
    /// The underlying persistence layer failed; fatal to the call.
    StorageFailure,
}

impl ContractError {
    /// The human-readable description of this error kind.
    pub open spec fn text(self) -> Seq<char> {
        match self {
            ContractError::InvalidBudget => "Budget must be greater than zero"@,
            ContractError::ScenarioNotFound => "Scenario does not exist"@,
            ContractError::BudgetCapExceeded => "Total budget exceeds the maximum allowed amount"@,
            ContractError::AlreadyVoted => "User has already voted"@,
            ContractError::LatchNotFound => "Latch not found"@,
            ContractError::UnauthorizedParticipant => "Unauthorized participant"@,
            ContractError::Unauthorized => "Unauthorized"@,
            ContractError::NodeNotFound => "Node does not exist"@,
            ContractError::DataNotFound => "Data entry does not exist"@,
            ContractError::StorageFailure => "Storage failure"@,
        }
    }

    /// The description of this error kind, for reporting at the host boundary.
    pub fn as_str(&self) -> (r: &str)
        ensures
            r@ == self.text(),
    {
        match self {
            ContractError::InvalidBudget => "Budget must be greater than zero",
            ContractError::ScenarioNotFound => "Scenario does not exist",
            ContractError::BudgetCapExceeded => "Total budget exceeds the maximum allowed amount",
            ContractError::AlreadyVoted => "User has already voted",
            ContractError::LatchNotFound => "Latch not found",
            ContractError::UnauthorizedParticipant => "Unauthorized participant",
            ContractError::Unauthorized => "Unauthorized",
            ContractError::NodeNotFound => "Node does not exist",
            ContractError::DataNotFound => "Data entry does not exist",
            ContractError::StorageFailure => "Storage failure",
        }
    }
}

} // verus!
