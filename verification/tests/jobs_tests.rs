use linexus_core::jobs::{JobCategory, JobEngine, JobStatus, KpiBreach};
use uuid::Uuid;

/// The floor assessment of one metric, done on its floating-point readings:
/// `Some` breach when the projection at the end of the epoch falls below the
/// target.
fn assess(name: &str, current: f32, target: f32, degradation: f32) -> Option<KpiBreach> {
    let projected = current - degradation;
    if projected < target {
        let sev = target - projected;
        Some(KpiBreach { metric_name: name.to_string(), severity_bits: sev.to_bits(), scaled_hours: (sev * 100.0) as u8 })
    } else {
        None
    }
}

#[test]
fn healthy_kpi_no_jobs() {
    let breaches: Vec<KpiBreach> = assess("network_uptime", 0.99, 0.95, 0.02).into_iter().collect();
    assert!(JobEngine::evaluate_and_rebalance_node(Uuid::new_v4(), &breaches).is_empty());
}

#[test]
fn degraded_generates_job() {
    let breaches: Vec<KpiBreach> = assess("mental_health_index", 0.60, 0.80, 0.15).into_iter().collect();
    let jobs = JobEngine::evaluate_and_rebalance_node(Uuid::new_v4(), &breaches);
    assert_eq!(jobs.len(), 1);
    assert_eq!(jobs[0].required_capability, "psychiatric_care");
}

#[test]
fn reward_scales_with_severity() {
    let breaches: Vec<KpiBreach> = assess("water_pressure", 0.50, 0.90, 0.20).into_iter().collect();
    let jobs = JobEngine::evaluate_and_rebalance_node(Uuid::new_v4(), &breaches);
    assert!(jobs[0].demiurge_labor_reward > 0);
}

#[test]
fn planned_job_fields() {
    let node = Uuid::new_v4();
    let id = Uuid::new_v4();
    let b = KpiBreach { metric_name: "water_pressure".to_string(), severity_bits: 0.6f32.to_bits(), scaled_hours: 60 };
    let job = JobEngine::plan_maintenance_job(id, node, &b);
    assert_eq!(job.job_id, id);
    assert_eq!(job.target_node_id, node);
    assert_eq!(job.category, JobCategory::MechanicalPlumbing);
    assert_eq!(job.required_capability, "plumbing_lvl1");
    assert_eq!(job.labor_hours_required, 60);
    assert_eq!(job.demiurge_labor_reward, 600);
    assert!(job.allocated_materials.is_empty());
    assert_eq!(job.projected_kpi_restoration, vec![("water_pressure".to_string(), 0.6f32.to_bits())]);
    assert_eq!(job.status, JobStatus::Open);
}

#[test]
fn tiny_breach_still_takes_an_hour() {
    let b = KpiBreach { metric_name: "crop_yield".to_string(), severity_bits: 0.001f32.to_bits(), scaled_hours: 0 };
    let job = JobEngine::plan_maintenance_job(Uuid::new_v4(), Uuid::new_v4(), &b);
    assert_eq!(job.labor_hours_required, 1);
    assert_eq!(job.demiurge_labor_reward, 10);
    assert_eq!(job.category, JobCategory::Agricultural);
}

#[test]
fn one_job_per_breach_in_order_with_fresh_ids() {
    let node = Uuid::new_v4();
    let breaches = vec![
        KpiBreach { metric_name: "solar_efficiency".to_string(), severity_bits: 0.15f32.to_bits(), scaled_hours: 15 },
        KpiBreach { metric_name: "network_uptime".to_string(), severity_bits: 0.05f32.to_bits(), scaled_hours: 5 },
    ];
    let jobs = JobEngine::evaluate_and_rebalance_node(node, &breaches);
    assert_eq!(jobs.len(), 2);
    assert_eq!(jobs[0].category, JobCategory::ElectricalSolar);
    assert_eq!(jobs[0].required_capability, "high_voltage_electrical");
    assert_eq!(jobs[1].category, JobCategory::ITInfrastructure);
    assert_eq!(jobs[1].required_capability, "it_infrastructure_lvl2");
    assert_eq!(jobs[1].demiurge_labor_reward, 50);
    assert!(jobs.iter().all(|j| j.target_node_id == node));
    assert_ne!(jobs[0].job_id, jobs[1].job_id);
}

#[test]
fn metric_capabilities() {
    assert_eq!(JobEngine::map_metric_to_capability("network_uptime"), "it_infrastructure_lvl2");
    assert_eq!(JobEngine::map_metric_to_capability("solar_efficiency"), "high_voltage_electrical");
    assert_eq!(JobEngine::map_metric_to_capability("mental_health_index"), "psychiatric_care");
    assert_eq!(JobEngine::map_metric_to_capability("rehabilitation_status"), "psychiatric_care");
    assert_eq!(JobEngine::map_metric_to_capability("physical_health_index"), "medical_doctor");
    assert_eq!(JobEngine::map_metric_to_capability("water_pressure"), "plumbing_lvl1");
    assert_eq!(JobEngine::map_metric_to_capability("crop_yield"), "agricultural_specialist");
    assert_eq!(JobEngine::map_metric_to_capability("air_quality"), "general_maintenance");
    assert_eq!(JobEngine::map_metric_to_capability(""), "general_maintenance");
}

#[test]
fn metric_categories() {
    assert_eq!(JobEngine::map_metric_to_category("network_uptime"), JobCategory::ITInfrastructure);
    assert_eq!(JobEngine::map_metric_to_category("solar_efficiency"), JobCategory::ElectricalSolar);
    assert_eq!(JobEngine::map_metric_to_category("mental_health_index"), JobCategory::MedicalAndRehab);
    assert_eq!(JobEngine::map_metric_to_category("rehabilitation_status"), JobCategory::MedicalAndRehab);
    assert_eq!(JobEngine::map_metric_to_category("physical_health_index"), JobCategory::MedicalAndRehab);
    assert_eq!(JobEngine::map_metric_to_category("water_pressure"), JobCategory::MechanicalPlumbing);
    assert_eq!(JobEngine::map_metric_to_category("crop_yield"), JobCategory::Agricultural);
    assert_eq!(JobEngine::map_metric_to_category("Network_uptime"), JobCategory::GeneralMaintenance);
}

#[test]
fn general_maintenance_category_and_capability_agree() {
    for m in ["network_uptime", "solar_efficiency", "mental_health_index", "physical_health_index", "water_pressure", "crop_yield", "noise"] {
        let general_cat = JobEngine::map_metric_to_category(m) == JobCategory::GeneralMaintenance;
        let general_cap = JobEngine::map_metric_to_capability(m) == "general_maintenance";
        assert_eq!(general_cat, general_cap);
    }
}
