//! Permission Funnel: the gateway that enforces Dignifundus physics on every
//! intent a node attempts.

use vstd::prelude::*;
use uuid::Uuid;
use crate::errors::LinexusError;
use crate::identity::{holds_capability, has_capability, LifecyclePhase, NodeClass, NodeIdentity};

verus! {

/// Every possible action a Node can attempt within Linexus.
#[derive(Debug, Clone)]
pub enum SystemIntent {
    ConsumeDignityFloor,
    GeneratePassive(u64),
    ClaimTask(Uuid),
    ProposePolicy(String),
    VoteOnPolicy(Uuid),
    CommissionNewNode(NodeClass),
    ApproveFiatExpenditure(Uuid),
}

/// The Permission Funnel — the absolute gateway.
pub struct PermissionFunnel;

/// The reason the funnel gives for refusing `intent` from a node of class
/// `class`, or `None` when the intent is permitted.
pub open spec fn intent_denial(class: NodeClass, intent: SystemIntent) -> Option<Seq<char>> {
    match class {
        NodeClass::Human { phase, capabilities, .. } => match intent {
            SystemIntent::CommissionNewNode(NodeClass::Human { .. }) =>
                if holds_capability(capabilities@, "medical_doctor"@) {
                    None
                } else {
                    Some("Only medical nodes can verify the Breath Premise"@)
                },
            SystemIntent::CommissionNewNode(_) => Some("Intent violates Dignifundus constraints"@),
            SystemIntent::ApproveFiatExpenditure(_) => Some("Only Councils can approve fiat"@),
            SystemIntent::ClaimTask(_) =>
                if phase is Childhood { Some("Children exempt from labor"@) } else { None },
            SystemIntent::VoteOnPolicy(_) =>
                if phase is Childhood { Some("Voting unlocks at Learning phase"@) } else { None },
            SystemIntent::ProposePolicy(_) =>
                if phase is Childhood { Some("Voting unlocks at Learning phase"@) } else { None },
            SystemIntent::ConsumeDignityFloor => None,
            SystemIntent::GeneratePassive(_) => Some("Humans generate via Task Fulfillment"@),
        },
        NodeClass::Council { .. } => match intent {
            SystemIntent::CommissionNewNode(_) => None,
            SystemIntent::ApproveFiatExpenditure(_) => None,
            SystemIntent::ProposePolicy(_) => None,
            SystemIntent::VoteOnPolicy(_) => Some("Individual votes go through Human nodes"@),
            _ => Some("Councils cannot consume or labor"@),
        },
        NodeClass::InfraGenerator { .. } => match intent {
            SystemIntent::ApproveFiatExpenditure(_) => Some("Only Councils can approve fiat"@),
            SystemIntent::GeneratePassive(_) => None,
            _ => Some("Generators can only generate"@),
        },
        NodeClass::InfraConsumer { .. } => match intent {
            SystemIntent::ApproveFiatExpenditure(_) => Some("Only Councils can approve fiat"@),
            SystemIntent::ConsumeDignityFloor => None,
            _ => Some("Consumers can only consume"@),
        },
    }
}

/// Whether the funnel lets a node of class `class` carry out `intent`.
pub open spec fn intent_permitted(class: NodeClass, intent: SystemIntent) -> bool {
    intent_denial(class, intent) is None
}

fn violation(msg: &str) -> (e: LinexusError)
    ensures
        e matches LinexusError::AuthViolation(m) && m@ == msg@,
{
    LinexusError::AuthViolation(msg.to_owned())
}

impl PermissionFunnel {
    /// Decides whether `actor` may carry out `intent`. A refusal is always an
    /// `AuthViolation` carrying the funnel's reason.
    pub fn evaluate_intent(actor: &NodeIdentity, intent: &SystemIntent) -> (r: Result<(), LinexusError>)
        ensures
            match intent_denial(actor.class, *intent) {
                None => r is Ok,
                Some(reason) => (r matches Err(LinexusError::AuthViolation(m)) && m@ == reason),
            },
    {
        match &actor.class {
            NodeClass::Human { phase, capabilities, .. } => match intent {
                SystemIntent::CommissionNewNode(NodeClass::Human { .. }) => {
                    if has_capability(capabilities, "medical_doctor") {
                        Ok(())
                    } else {
                        Err(violation("Only medical nodes can verify the Breath Premise"))
                    }
                },
                SystemIntent::CommissionNewNode(_) => Err(violation("Intent violates Dignifundus constraints")),
                SystemIntent::ApproveFiatExpenditure(_) => Err(violation("Only Councils can approve fiat")),
                SystemIntent::ClaimTask(_) => {
                    if *phase == LifecyclePhase::Childhood {
                        Err(violation("Children exempt from labor"))
                    } else {
                        Ok(())
                    }
                },
                SystemIntent::VoteOnPolicy(_) | SystemIntent::ProposePolicy(_) => {
                    if *phase == LifecyclePhase::Childhood {
                        Err(violation("Voting unlocks at Learning phase"))
                    } else {
                        Ok(())
                    }
                },
                SystemIntent::ConsumeDignityFloor => Ok(()),
                SystemIntent::GeneratePassive(_) => Err(violation("Humans generate via Task Fulfillment")),
            },
            NodeClass::Council { .. } => match intent {
                SystemIntent::CommissionNewNode(_) => Ok(()),
                SystemIntent::ApproveFiatExpenditure(_) => Ok(()),
                SystemIntent::ProposePolicy(_) => Ok(()),
                SystemIntent::VoteOnPolicy(_) => Err(violation("Individual votes go through Human nodes")),
                _ => Err(violation("Councils cannot consume or labor")),
            },
            NodeClass::InfraGenerator { .. } => match intent {
                SystemIntent::ApproveFiatExpenditure(_) => Err(violation("Only Councils can approve fiat")),
                SystemIntent::GeneratePassive(_) => Ok(()),
                _ => Err(violation("Generators can only generate")),
            },
            NodeClass::InfraConsumer { .. } => match intent {
                SystemIntent::ApproveFiatExpenditure(_) => Err(violation("Only Councils can approve fiat")),
                SystemIntent::ConsumeDignityFloor => Ok(()),
                _ => Err(violation("Consumers can only consume")),
            },
        }
    }
}

/// Hardware physics: a generator may carry out exactly one kind of intent,
/// generating passive value.
pub proof fn lemma_generators_only_generate(class: NodeClass, intent: SystemIntent)
    requires
        class is InfraGenerator,
    ensures
        intent_permitted(class, intent) <==> intent is GeneratePassive,
{
}

/// Hardware physics: a consumer may carry out exactly one kind of intent,
/// drawing from the Dignity Floor.
pub proof fn lemma_consumers_only_consume(class: NodeClass, intent: SystemIntent)
    requires
        class is InfraConsumer,
    ensures
        intent_permitted(class, intent) <==> intent is ConsumeDignityFloor,
{
}

/// A solar panel cannot vote: no infrastructure node may vote on or propose
/// a policy.
pub proof fn lemma_infrastructure_cannot_govern(class: NodeClass, intent: SystemIntent)
    requires
        class is InfraGenerator || class is InfraConsumer,
        intent is VoteOnPolicy || intent is ProposePolicy,
    ensures
        !intent_permitted(class, intent),
{
}

/// Only a council may approve a fiat expenditure.
pub proof fn lemma_only_councils_approve_fiat(class: NodeClass, intent: SystemIntent)
    requires
        intent is ApproveFiatExpenditure,
    ensures
        intent_permitted(class, intent) <==> class is Council,
{
}

/// The Breath Premise: a new human is commissioned only by a council or by a
/// human holding the `medical_doctor` capability.
pub proof fn lemma_breath_premise(class: NodeClass, newborn: NodeClass)
    requires
        newborn is Human,
    ensures
        intent_permitted(class, SystemIntent::CommissionNewNode(newborn)) <==> (class is Council || (
        class is Human && holds_capability(class->Human_capabilities@, "medical_doctor"@))),
{
}

/// Only councils commission infrastructure: a node of any class other than
/// Human may be commissioned by a council and by no one else; in particular
/// a human, even a medical doctor, may commission only new humans.
pub proof fn lemma_only_councils_commission_infrastructure(class: NodeClass, newcomer: NodeClass)
    requires
        !(newcomer is Human),
    ensures
        intent_permitted(class, SystemIntent::CommissionNewNode(newcomer)) <==> class is Council,
        class is Human ==> !intent_permitted(class, SystemIntent::CommissionNewNode(newcomer)),
{
}

/// What a council may do: commission nodes, approve fiat expenditure and
/// propose policy, and nothing else.
pub proof fn lemma_council_powers(class: NodeClass, intent: SystemIntent)
    requires
        class is Council,
    ensures
        intent_permitted(class, intent) <==> (intent is CommissionNewNode || intent is ApproveFiatExpenditure
            || intent is ProposePolicy),
{
}

/// What a human may do: draw from the Dignity Floor always; claim tasks,
/// vote and propose once past childhood; commission a new human when a
/// medical doctor; never generate, approve fiat or commission anything else.
pub proof fn lemma_human_powers(class: NodeClass, intent: SystemIntent)
    requires
        class is Human,
    ensures
        intent_permitted(class, intent) <==> match intent {
            SystemIntent::ConsumeDignityFloor => true,
            SystemIntent::ClaimTask(_) => !(class->Human_phase is Childhood),
            SystemIntent::VoteOnPolicy(_) => !(class->Human_phase is Childhood),
            SystemIntent::ProposePolicy(_) => !(class->Human_phase is Childhood),
            SystemIntent::CommissionNewNode(newcomer) => newcomer is Human && exists|i: int|
                0 <= i < class->Human_capabilities@.len() && #[trigger] class->Human_capabilities@[i]@
                    == "medical_doctor"@,
            SystemIntent::GeneratePassive(_) => false,
            SystemIntent::ApproveFiatExpenditure(_) => false,
        },
{
}

/// A human may claim a task, vote or propose a policy exactly when the
/// lifecycle phase grants voting rights (`LifecyclePhase::can_vote`):
/// children may do none of these.
pub proof fn lemma_human_agency_follows_phase(class: NodeClass, intent: SystemIntent)
    requires
        class is Human,
        intent is ClaimTask || intent is VoteOnPolicy || intent is ProposePolicy,
    ensures
        intent_permitted(class, intent) <==> class->Human_phase.voting_allowed(),
{
}

/// Human worth is unconditional: every human, in every phase, may draw from
/// the Dignity Floor.
pub proof fn lemma_dignity_floor_is_unconditional(class: NodeClass)
    requires
        class is Human,
    ensures
        intent_permitted(class, SystemIntent::ConsumeDignityFloor),
{
}

/// Votes are individual: a council may propose policy but never vote.
pub proof fn lemma_councils_do_not_vote(class: NodeClass, proposal: Uuid, text: String)
    requires
        class is Council,
    ensures
        !intent_permitted(class, SystemIntent::VoteOnPolicy(proposal)),
        intent_permitted(class, SystemIntent::ProposePolicy(text)),
{
}

} // verus!
