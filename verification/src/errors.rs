//! Unified error types for the Linexus ecosystem.
//!
//! Each variant corresponds to a distinct failure domain in the architecture.
//! The human-readable rendering of each variant lives with the application
//! layer, which owns the formatting traits.

use vstd::prelude::*;
use uuid::Uuid;

verus! {

/// The root error type for all Linexus operations.
///
/// The drift readings of `CriticalDrift` are `f32` values held as their
/// IEEE-754 bit patterns (`f32::to_bits`).
#[derive(Debug, Clone)]
pub enum LinexusError {
    /// A Node attempted an action that violates the structural constraints
    /// of the Dignifundus. This is the Permission Funnel's rejection.
    AuthViolation(String),
    /// A Node's cryptographic signature could not be verified.
    SignatureError { node_id: Uuid, reason: String },
    /// An error in the immutable Demiurge ledger operations.
    LedgerError(String),
    /// Attempted to mint Demiurge without a valid task completion proof.
    MintingRejected { node_id: Uuid },
    /// The Orchestrator could not find a qualified Node to fulfill a Demand.
    RoutingError { demand_id: Uuid, reason: String },
    /// A task could not be claimed due to phase or capability mismatch.
    TaskClaimRejected(String),
    /// The local spoke does not have sufficient materials to complete a job.
    InventoryShortage { item_id: Uuid, needed: u32, available: u32 },
    /// A governance proposal violated structural constraints.
    GovernanceError(String),
    /// A vote was submitted by an ineligible Node.
    VoteRejected { voter_id: Uuid, proposal_id: Uuid },
    /// An edge agent reported a communication failure.
    AgentCommError(String),
    /// A node's telemetry indicates critical drift from the desired state.
    CriticalDrift { node_id: Uuid, metric: String, current_value_bits: u32, target_value_bits: u32 },
    /// A requested entity was not found in the system.
    NotFound { entity_type: String, entity_id: Uuid },
    /// An internal system error that should be logged and investigated.
    Internal(String),
}

/// Alias for Results using LinexusError.
pub type LinexusResult<T> = Result<T, LinexusError>;

} // verus!
