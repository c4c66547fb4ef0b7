//! Jobs Module — KPI-driven maintenance and 2-year epoch rebalancing.
//!
//! The KPI readings themselves are floating-point and are assessed by the
//! application layer; it hands each breached metric to this module as a
//! [`KpiBreach`], and the jobs are planned here.

use vstd::prelude::*;
use uuid::Uuid;
use crate::identity::random_uuid;

verus! {

/// 20-Year Plan divided into ten 2-Year Epochs.
#[derive(Debug, Clone)]
pub struct EpochLifecycle {
    pub current_epoch_number: u8,
    pub years_per_epoch: u8,
    pub start_timestamp: u64,
}

#[derive(Debug, Clone)]
pub struct MaterialAllocation {
    pub inventory_id: Uuid,
    pub item_name: String,
    pub quantity: u32,
    pub demiurge_material_cost: u64,
}

#[derive(Debug, Clone, PartialEq, Eq, Hash, Structural)]
pub enum JobCategory {
    ITInfrastructure,
    MedicalAndRehab,
    Agricultural,
    MechanicalPlumbing,
    ElectricalSolar,
    Education,
    GeneralMaintenance,
}

/// A job that restores a degraded KPI.
///
/// `projected_kpi_restoration` pairs each metric with the `f32` severity the
/// job is projected to restore, held as its IEEE-754 bit pattern
/// (`f32::to_bits`).
#[derive(Debug, Clone)]
pub struct MaintenanceJob {
    pub job_id: Uuid,
    pub target_node_id: Uuid,
    pub category: JobCategory,
    pub required_capability: String,
    pub labor_hours_required: u8,
    pub allocated_materials: Vec<MaterialAllocation>,
    pub demiurge_labor_reward: u64,
    pub projected_kpi_restoration: Vec<(String, u32)>,
    pub status: JobStatus,
}

#[derive(Debug, Clone, PartialEq, Eq)]
pub enum JobStatus {
    Open,
    ClaimedBy(Uuid),
    InProgress(Uuid),
    VerificationPending(Uuid),
    Completed(Uuid),
    Cancelled(String),
}

/// A metric whose projection breaches its floor by the end of the epoch:
/// its name, the breach severity as the bit pattern of an `f32`, and that
/// severity scaled to hours (`(severity * 100.0) as u8`).
#[derive(Debug, Clone)]
pub struct KpiBreach {
    pub metric_name: String,
    pub severity_bits: u32,
    pub scaled_hours: u8,
}

pub struct JobEngine;

/// The capability a metric's maintenance calls for.
pub open spec fn metric_capability(m: Seq<char>) -> Seq<char> {
    if m == "network_uptime"@ {
        "it_infrastructure_lvl2"@
    } else if m == "solar_efficiency"@ {
        "high_voltage_electrical"@
    } else if m == "mental_health_index"@ || m == "rehabilitation_status"@ {
        "psychiatric_care"@
    } else if m == "physical_health_index"@ {
        "medical_doctor"@
    } else if m == "water_pressure"@ {
        "plumbing_lvl1"@
    } else if m == "crop_yield"@ {
        "agricultural_specialist"@
    } else {
        "general_maintenance"@
    }
}

/// The category of job a metric's maintenance belongs to.
pub open spec fn metric_category(m: Seq<char>) -> JobCategory {
    if m == "network_uptime"@ {
        JobCategory::ITInfrastructure
    } else if m == "solar_efficiency"@ {
        JobCategory::ElectricalSolar
    } else if m == "mental_health_index"@ || m == "rehabilitation_status"@ || m == "physical_health_index"@ {
        JobCategory::MedicalAndRehab
    } else if m == "water_pressure"@ {
        JobCategory::MechanicalPlumbing
    } else if m == "crop_yield"@ {
        JobCategory::Agricultural
    } else {
        JobCategory::GeneralMaintenance
    }
}

/// The labor hours a breach calls for: its scaled severity, at least one.
pub open spec fn breach_hours(b: KpiBreach) -> u8 {
    if b.scaled_hours >= 1 { b.scaled_hours } else { 1 }
}

/// `job` is the open maintenance job planned for `breach` on node `node_id`:
/// category and capability follow the metric, the reward is ten Demiurge
/// per labor hour, no materials are allocated yet, and the job projects to
/// restore exactly the breached metric by its severity.
pub open spec fn planned_for(job: MaintenanceJob, node_id: Uuid, breach: KpiBreach) -> bool {
    &&& job.target_node_id == node_id
    &&& job.category == metric_category(breach.metric_name@)
    &&& job.required_capability@ == metric_capability(breach.metric_name@)
    &&& job.labor_hours_required == breach_hours(breach)
    &&& job.allocated_materials@.len() == 0
    &&& job.demiurge_labor_reward == breach_hours(breach) as u64 * 10
    &&& job.projected_kpi_restoration@.len() == 1
    &&& job.projected_kpi_restoration@[0].0@ == breach.metric_name@
    &&& job.projected_kpi_restoration@[0].1 == breach.severity_bits
    &&& job.status == JobStatus::Open
}

fn same_text(a: &str, b: &str) -> (r: bool)
    ensures
        r == (a@ == b@),
{
    a.to_owned() == b.to_owned()
}

impl JobEngine {
    /// Plans one maintenance job per breached metric, in the order given,
    /// each under a fresh random job identifier.
    pub fn evaluate_and_rebalance_node(node_id: Uuid, breaches: &Vec<KpiBreach>) -> (jobs: Vec<MaintenanceJob>)
        ensures
            jobs@.len() == breaches@.len(),
            forall|i: int| 0 <= i < jobs@.len() ==> planned_for(#[trigger] jobs@[i], node_id, breaches@[i]),
    {
        let mut jobs: Vec<MaintenanceJob> = Vec::new();
        let mut i: usize = 0;
        while i < breaches.len()
            invariant
                0 <= i <= breaches@.len(),
                jobs@.len() == i,
                forall|j: int| 0 <= j < i ==> planned_for(#[trigger] jobs@[j], node_id, breaches@[j]),
            decreases breaches@.len() - i,
        {
            let job = Self::plan_maintenance_job(random_uuid(), node_id, &breaches[i]);
            jobs.push(job);
            i = i + 1;
        }
        jobs
    }

    /// Plans the maintenance job that answers one breached metric.
    pub fn plan_maintenance_job(job_id: Uuid, node_id: Uuid, breach: &KpiBreach) -> (job: MaintenanceJob)
        ensures
            job.job_id == job_id,
            planned_for(job, node_id, *breach),
    {
        let hrs: u8 = if breach.scaled_hours >= 1 { breach.scaled_hours } else { 1 };
        let name = breach.metric_name.as_str();
        let mut restoration: Vec<(String, u32)> = Vec::new();
        restoration.push((breach.metric_name.clone(), breach.severity_bits));
        MaintenanceJob {
            job_id,
            target_node_id: node_id,
            category: Self::map_metric_to_category(name),
            required_capability: Self::map_metric_to_capability(name),
            labor_hours_required: hrs,
            allocated_materials: Vec::new(),
            demiurge_labor_reward: (hrs as u64) * 10,
            projected_kpi_restoration: restoration,
            status: JobStatus::Open,
        }
    }

    pub fn map_metric_to_capability(m: &str) -> (r: String)
        ensures
            r@ == metric_capability(m@),
    {
        let cap = if same_text(m, "network_uptime") {
            "it_infrastructure_lvl2"
        } else if same_text(m, "solar_efficiency") {
            "high_voltage_electrical"
        } else if same_text(m, "mental_health_index") || same_text(m, "rehabilitation_status") {
            "psychiatric_care"
        } else if same_text(m, "physical_health_index") {
            "medical_doctor"
        } else if same_text(m, "water_pressure") {
            "plumbing_lvl1"
        } else if same_text(m, "crop_yield") {
            "agricultural_specialist"
        } else {
            "general_maintenance"
        };
        cap.to_owned()
    }

    pub fn map_metric_to_category(m: &str) -> (r: JobCategory)
        ensures
            r == metric_category(m@),
    {
        if same_text(m, "network_uptime") {
            JobCategory::ITInfrastructure
        } else if same_text(m, "solar_efficiency") {
            JobCategory::ElectricalSolar
        } else if same_text(m, "mental_health_index") || same_text(m, "rehabilitation_status")
            || same_text(m, "physical_health_index") {
            JobCategory::MedicalAndRehab
        } else if same_text(m, "water_pressure") {
            JobCategory::MechanicalPlumbing
        } else if same_text(m, "crop_yield") {
            JobCategory::Agricultural
        } else {
            JobCategory::GeneralMaintenance
        }
    }
}

/// The reward scales with severity: a planned job pays ten Demiurge per labor
/// hour and at least one hour, and a breach scaled to at least as many hours
/// as another is paid at least as much.
pub proof fn lemma_reward_scales_with_severity(
    job1: MaintenanceJob,
    b1: KpiBreach,
    job2: MaintenanceJob,
    b2: KpiBreach,
    node_id: Uuid,
)
    requires
        planned_for(job1, node_id, b1),
        planned_for(job2, node_id, b2),
    ensures
        job1.labor_hours_required >= 1,
        job1.demiurge_labor_reward == 10 * job1.labor_hours_required,
        b1.scaled_hours <= b2.scaled_hours ==> job1.demiurge_labor_reward <= job2.demiurge_labor_reward,
{
}

/// The metric table: each metric the engine knows calls for its own trade,
/// and every other metric calls for general maintenance.
pub proof fn lemma_known_metrics(m: Seq<char>)
    ensures
        m == "network_uptime"@ ==> metric_capability(m) == "it_infrastructure_lvl2"@
            && metric_category(m) == JobCategory::ITInfrastructure,
        m == "solar_efficiency"@ ==> metric_capability(m) == "high_voltage_electrical"@
            && metric_category(m) == JobCategory::ElectricalSolar,
        m == "mental_health_index"@ ==> metric_capability(m) == "psychiatric_care"@
            && metric_category(m) == JobCategory::MedicalAndRehab,
        m == "rehabilitation_status"@ ==> metric_capability(m) == "psychiatric_care"@
            && metric_category(m) == JobCategory::MedicalAndRehab,
        m == "physical_health_index"@ ==> metric_capability(m) == "medical_doctor"@
            && metric_category(m) == JobCategory::MedicalAndRehab,
        m == "water_pressure"@ ==> metric_capability(m) == "plumbing_lvl1"@
            && metric_category(m) == JobCategory::MechanicalPlumbing,
        m == "crop_yield"@ ==> metric_capability(m) == "agricultural_specialist"@
            && metric_category(m) == JobCategory::Agricultural,
        (m != "network_uptime"@ && m != "solar_efficiency"@ && m != "mental_health_index"@
            && m != "rehabilitation_status"@ && m != "physical_health_index"@ && m != "water_pressure"@
            && m != "crop_yield"@) ==> metric_capability(m) == "general_maintenance"@
            && metric_category(m) == JobCategory::GeneralMaintenance,
{
    reveal_strlit("network_uptime");
    reveal_strlit("solar_efficiency");
    reveal_strlit("mental_health_index");
    reveal_strlit("rehabilitation_status");
    reveal_strlit("physical_health_index");
    reveal_strlit("water_pressure");
    reveal_strlit("crop_yield");
    assert("network_uptime"@.len() == 14 && "network_uptime"@[0] == 'n');
    assert("solar_efficiency"@.len() == 16);
    assert("mental_health_index"@.len() == 19);
    assert("rehabilitation_status"@.len() == 21 && "rehabilitation_status"@[0] == 'r');
    assert("physical_health_index"@.len() == 21 && "physical_health_index"@[0] == 'p');
    assert("water_pressure"@.len() == 14 && "water_pressure"@[0] == 'w');
    assert("crop_yield"@.len() == 10);
}

/// The capability a metric calls for agrees with its job category: general
/// maintenance work exactly for unknown metrics, and medical capabilities
/// exactly for medical and rehabilitation metrics.
pub proof fn lemma_capability_agrees_with_category(m: Seq<char>)
    ensures
        metric_category(m) == JobCategory::GeneralMaintenance <==> metric_capability(m) == "general_maintenance"@,
        metric_category(m) == JobCategory::MedicalAndRehab <==> (metric_capability(m) == "psychiatric_care"@
            || metric_capability(m) == "medical_doctor"@),
{
    reveal_strlit("it_infrastructure_lvl2");
    reveal_strlit("high_voltage_electrical");
    reveal_strlit("psychiatric_care");
    reveal_strlit("medical_doctor");
    reveal_strlit("plumbing_lvl1");
    reveal_strlit("agricultural_specialist");
    reveal_strlit("general_maintenance");
    assert("it_infrastructure_lvl2"@.len() == 22);
    assert("high_voltage_electrical"@.len() == 23);
    assert("psychiatric_care"@.len() == 16);
    assert("medical_doctor"@.len() == 14);
    assert("plumbing_lvl1"@.len() == 13);
    assert("agricultural_specialist"@.len() == 23);
    assert("general_maintenance"@.len() == 19);
}

} // verus!
