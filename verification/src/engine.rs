//! Engine Module — existence creates Demand; the Engine routes Supply.

use vstd::prelude::*;
use uuid::Uuid;
use crate::errors::LinexusError;
use crate::funnel::{intent_permitted, SystemIntent};
use crate::identity::{has_capability, holds_capability, LifecyclePhase, NodeClass, NodeIdentity};

verus! {

/// A Demand Event represents a need in the Dignifundus.
///
/// The fiat cost estimate of a material shortage is an `f64` held as its
/// IEEE-754 bit pattern (`f64::to_bits`).
#[derive(Debug, Clone)]
pub enum DemandEvent {
    Education { child_id: Uuid, weekly_hours: u8, subject: String, demiurge_reward: u64 },
    PhysicalMaintenance { infra_id: Uuid, weekly_hours: u8, capability_required: String, demiurge_reward: u64 },
    RehabilitationSupport { rehab_node_id: Uuid, weekly_hours: u8, capability_required: String, demiurge_reward: u64 },
    MaterialShortage { item_id: Uuid, fiat_cost_estimate_bits: u64, justification: String },
}

impl DemandEvent {
    /// The node whose existence raised the demand; material shortages have none.
    pub fn source_node_id(&self) -> (r: Option<Uuid>)
        ensures
            r == match *self {
                DemandEvent::Education { child_id, .. } => Some(child_id),
                DemandEvent::PhysicalMaintenance { infra_id, .. } => Some(infra_id),
                DemandEvent::RehabilitationSupport { rehab_node_id, .. } => Some(rehab_node_id),
                DemandEvent::MaterialShortage { .. } => None::<Uuid>,
            },
    {
        match self {
            DemandEvent::Education { child_id, .. } => Some(*child_id),
            DemandEvent::PhysicalMaintenance { infra_id, .. } => Some(*infra_id),
            DemandEvent::RehabilitationSupport { rehab_node_id, .. } => Some(*rehab_node_id),
            DemandEvent::MaterialShortage { .. } => None,
        }
    }

    /// The capability a node needs to meet the demand: the subject of an
    /// education demand, the required capability of the others; material
    /// shortages need none.
    pub fn required_capability(&self) -> (r: Option<&str>)
        ensures
            match *self {
                DemandEvent::Education { subject, .. } => (r matches Some(s) && s@ == subject@),
                DemandEvent::PhysicalMaintenance { capability_required, .. } =>
                    (r matches Some(s) && s@ == capability_required@),
                DemandEvent::RehabilitationSupport { capability_required, .. } =>
                    (r matches Some(s) && s@ == capability_required@),
                DemandEvent::MaterialShortage { .. } => r is None,
            },
    {
        match self {
            DemandEvent::Education { subject, .. } => Some(subject.as_str()),
            DemandEvent::PhysicalMaintenance { capability_required, .. } => Some(capability_required.as_str()),
            DemandEvent::RehabilitationSupport { capability_required, .. } => Some(capability_required.as_str()),
            DemandEvent::MaterialShortage { .. } => None,
        }
    }
}

#[derive(Debug, Clone, PartialEq, Eq)]
pub enum TaskAssignmentStatus {
    Unassigned,
    Offered { candidate_id: Uuid },
    Claimed { worker_id: Uuid },
    VerificationPending { worker_id: Uuid },
    Completed { worker_id: Uuid },
}

#[derive(Debug, Clone)]
pub struct TaskAssignment {
    pub task_id: Uuid,
    pub demand_event: DemandEvent,
    pub status: TaskAssignmentStatus,
    pub created_at: u64,
}

/// The Orchestrator Engine — matches demands to available Human Nodes.
pub struct OrchestratorEngine;

/// Whether `node` may take a demand that needs capability `cap`: a human who
/// holds the capability and whose phase owes supranjus hours (when supranjus
/// work is preferred) or labor hours (otherwise), or who is retired.
pub open spec fn eligible_for(node: NodeIdentity, cap: Seq<char>, prefer_supranjus: bool) -> bool {
    match node.class {
        NodeClass::Human { phase, capabilities, .. } => {
            &&& holds_capability(capabilities@, cap)
            &&& {
                ||| prefer_supranjus && phase.obligations().1 > 0
                ||| !prefer_supranjus && phase.obligations().0 > 0
                ||| phase is Retirement
            }
        },
        _ => false,
    }
}

/// `r` names the first node of `nodes` eligible for a demand needing `cap`,
/// or is `None` when no node is eligible.
pub open spec fn is_first_eligible(
    nodes: Seq<NodeIdentity>,
    cap: Seq<char>,
    prefer_supranjus: bool,
    r: Option<Uuid>,
) -> bool {
    match r {
        Some(id) => exists|i: int|
            0 <= i < nodes.len() && #[trigger] eligible_for(nodes[i], cap, prefer_supranjus)
                && nodes[i].node_id == id && forall|j: int|
                0 <= j < i ==> !eligible_for(#[trigger] nodes[j], cap, prefer_supranjus),
        None => forall|i: int| 0 <= i < nodes.len() ==> !eligible_for(#[trigger] nodes[i], cap, prefer_supranjus),
    }
}

/// How a demand is routed: the capability sought and whether supranjus work
/// is preferred; `None` for demands that are never routed to a node.
pub open spec fn demand_routing(demand: DemandEvent) -> Option<(Seq<char>, bool)> {
    match demand {
        DemandEvent::Education { subject, .. } => Some((subject@, true)),
        DemandEvent::PhysicalMaintenance { capability_required, .. } => Some((capability_required@, false)),
        DemandEvent::RehabilitationSupport { capability_required, .. } => Some((capability_required@, true)),
        DemandEvent::MaterialShortage { .. } => None,
    }
}

/// `target` is where the orchestrator routes `demand` among `nodes`.
pub open spec fn routes_to(demand: DemandEvent, nodes: Seq<NodeIdentity>, target: Option<Uuid>) -> bool {
    match demand_routing(demand) {
        None => target is None,
        Some((cap, prefer)) => is_first_eligible(nodes, cap, prefer, target),
    }
}

/// Whether `node` has the right to take work needing capability `cap`: a
/// human holding the capability whose phase may claim education work
/// (`can_claim_education`) when `education` holds, labor work
/// (`can_claim_labor`) otherwise.
pub open spec fn may_take(node: NodeIdentity, cap: Seq<char>, education: bool) -> bool {
    match node.class {
        NodeClass::Human { phase, capabilities, .. } => {
            &&& holds_capability(capabilities@, cap)
            &&& if education {
                phase.education_allowed()
            } else {
                phase.labor_allowed()
            }
        },
        _ => false,
    }
}

/// `target` is the first node of `nodes` with the right to take the work,
/// or `None` when no node has it.
pub open spec fn first_taker(nodes: Seq<NodeIdentity>, cap: Seq<char>, education: bool, target: Option<Uuid>) -> bool {
    match target {
        Some(id) => exists|i: int|
            0 <= i < nodes.len() && #[trigger] may_take(nodes[i], cap, education) && nodes[i].node_id == id
                && forall|j: int| 0 <= j < i ==> !may_take(#[trigger] nodes[j], cap, education),
        None => forall|i: int| 0 <= i < nodes.len() ==> !may_take(#[trigger] nodes[i], cap, education),
    }
}

impl OrchestratorEngine {
    /// The weekly (labor, learning) obligation of a node: that of its phase
    /// for a human, none for any other node.
    pub fn get_node_obligations(node: &NodeIdentity) -> (r: (u8, u8))
        ensures
            r == match node.class {
                NodeClass::Human { phase, .. } => phase.obligations(),
                _ => (0u8, 0u8),
            },
    {
        match &node.class {
            NodeClass::Human { phase, .. } => phase.weekly_obligations(),
            _ => (0, 0),
        }
    }

    /// Routes a demand to the first available node that can meet it.
    /// Material shortages are never routed to a node.
    pub fn route_demand(demand: &DemandEvent, available_nodes: &[NodeIdentity]) -> (r: Result<Option<Uuid>, LinexusError>)
        ensures
            r matches Ok(target) && routes_to(*demand, available_nodes@, target),
    {
        match demand {
            DemandEvent::MaterialShortage { .. } => Ok(None),
            DemandEvent::Education { subject, .. } => Ok(Self::find_capable_node(available_nodes, subject.as_str(), true)),
            DemandEvent::PhysicalMaintenance { capability_required, .. } =>
                Ok(Self::find_capable_node(available_nodes, capability_required.as_str(), false)),
            DemandEvent::RehabilitationSupport { capability_required, .. } =>
                Ok(Self::find_capable_node(available_nodes, capability_required.as_str(), true)),
        }
    }

    fn find_capable_node(nodes: &[NodeIdentity], required_capability: &str, prefer_supranjus: bool) -> (r: Option<Uuid>)
        ensures
            is_first_eligible(nodes@, required_capability@, prefer_supranjus, r),
    {
        let mut i: usize = 0;
        while i < nodes.len()
            invariant
                0 <= i <= nodes.len(),
                forall|j: int| 0 <= j < i ==> !eligible_for(#[trigger] nodes@[j], required_capability@, prefer_supranjus),
            decreases nodes.len() - i,
        {
            let node = &nodes[i];
            if let NodeClass::Human { capabilities, phase, .. } = &node.class {
                if has_capability(capabilities, required_capability) {
                    let (labor_req, supra_req) = phase.weekly_obligations();
                    if prefer_supranjus && supra_req > 0 {
                        assert(eligible_for(nodes@[i as int], required_capability@, prefer_supranjus));
                        return Some(node.node_id);
                    }
                    if !prefer_supranjus && labor_req > 0 {
                        assert(eligible_for(nodes@[i as int], required_capability@, prefer_supranjus));
                        return Some(node.node_id);
                    }
                    if *phase == LifecyclePhase::Retirement {
                        assert(eligible_for(nodes@[i as int], required_capability@, prefer_supranjus));
                        return Some(node.node_id);
                    }
                }
            }
            i = i + 1;
        }
        None
    }
}

/// Routing agrees with the claim rules of the lifecycle: a node is eligible
/// for a demand exactly when it is a human holding the capability whose phase
/// may claim education work (`can_claim_education`) when supranjus work is
/// preferred, or labor work (`can_claim_labor`) otherwise.
pub proof fn lemma_eligibility_is_claim_right(node: NodeIdentity, cap: Seq<char>, prefer_supranjus: bool)
    ensures
        eligible_for(node, cap, prefer_supranjus) <==> {
            &&& node.class is Human
            &&& holds_capability(node.class->Human_capabilities@, cap)
            &&& if prefer_supranjus {
                node.class->Human_phase.education_allowed()
            } else {
                node.class->Human_phase.labor_allowed()
            }
        },
{
}

/// Eligibility for routing and the right to take the work coincide.
proof fn lemma_first_eligible_is_first_taker(nodes: Seq<NodeIdentity>, cap: Seq<char>, prefer: bool, target: Option<Uuid>)
    requires
        is_first_eligible(nodes, cap, prefer, target),
    ensures
        first_taker(nodes, cap, prefer, target),
{
    assert forall|i: int| 0 <= i < nodes.len() implies eligible_for(nodes[i], cap, prefer) == may_take(nodes[i], cap, prefer) by {
        lemma_eligibility_is_claim_right(nodes[i], cap, prefer);
    }
    if let Some(id) = target {
        let i = choose|i: int|
            0 <= i < nodes.len() && #[trigger] eligible_for(nodes[i], cap, prefer) && nodes[i].node_id == id
                && forall|j: int| 0 <= j < i ==> !eligible_for(#[trigger] nodes[j], cap, prefer);
        assert(may_take(nodes[i], cap, prefer));
        assert forall|j: int| 0 <= j < i implies !may_take(#[trigger] nodes[j], cap, prefer) by {
            assert(!eligible_for(nodes[j], cap, prefer));
        }
    } else {
        assert forall|i: int| 0 <= i < nodes.len() implies !may_take(#[trigger] nodes[i], cap, prefer) by {
            assert(!eligible_for(nodes[i], cap, prefer));
        }
    }
}

/// Demands go to those with the right to take them, first come first
/// served: an education demand, whatever its weekly hours, and a
/// rehabilitation-support demand go to the first human holding the needed
/// capability who may claim education work (`can_claim_education`); a
/// maintenance demand goes to the first such human who may claim labor work
/// (`can_claim_labor`); a material shortage goes to no node.
pub proof fn lemma_routing_follows_claim_rights(demand: DemandEvent, nodes: Seq<NodeIdentity>, target: Option<Uuid>)
    requires
        routes_to(demand, nodes, target),
    ensures
        match demand {
            DemandEvent::Education { subject, .. } => first_taker(nodes, subject@, true, target),
            DemandEvent::PhysicalMaintenance { capability_required, .. } =>
                first_taker(nodes, capability_required@, false, target),
            DemandEvent::RehabilitationSupport { capability_required, .. } =>
                first_taker(nodes, capability_required@, true, target),
            DemandEvent::MaterialShortage { .. } => target is None,
        },
{
    if let Some((cap, prefer)) = demand_routing(demand) {
        lemma_first_eligible_is_first_taker(nodes, cap, prefer, target);
    }
}

/// A child cannot be assigned labor: the node a demand is routed to is one of
/// the available nodes, a human past childhood holding the needed capability,
/// and the Permission Funnel lets it claim the task.
pub proof fn lemma_routed_node_may_claim(
    nodes: Seq<NodeIdentity>,
    cap: Seq<char>,
    prefer_supranjus: bool,
    target: Option<Uuid>,
    task: Uuid,
)
    requires
        is_first_eligible(nodes, cap, prefer_supranjus, target),
    ensures
        target matches Some(id) ==> exists|i: int|
            0 <= i < nodes.len() && #[trigger] nodes[i].node_id == id && {
                &&& nodes[i].class is Human
                &&& !(nodes[i].class->Human_phase is Childhood)
                &&& holds_capability(nodes[i].class->Human_capabilities@, cap)
                &&& intent_permitted(nodes[i].class, SystemIntent::ClaimTask(task))
            },
{
    if let Some(id) = target {
        let i = choose|i: int|
            0 <= i < nodes.len() && #[trigger] eligible_for(nodes[i], cap, prefer_supranjus)
                && nodes[i].node_id == id && forall|j: int|
                0 <= j < i ==> !eligible_for(#[trigger] nodes[j], cap, prefer_supranjus);
        assert(nodes[i].node_id == id);
    }
}

} // verus!
