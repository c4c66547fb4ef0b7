use linexus_core::identity::{
    has_capability, GenerationType, InfraProduct, LifecyclePhase, NodeClass, NodeIdentity,
};
use uuid::Uuid;

fn worker(phase: LifecyclePhase, caps: &[&str]) -> NodeIdentity {
    NodeIdentity {
        node_id: Uuid::new_v4(),
        public_key: "k".to_string(),
        class: NodeClass::Human {
            phase,
            capabilities: caps.iter().map(|s| s.to_string()).collect(),
            assigned_homestead: None,
        },
        label: "T".to_string(),
        commissioned_at: 0,
    }
}

#[test]
fn childhood_has_zero_obligations() {
    let (l, e) = LifecyclePhase::Childhood.weekly_obligations();
    assert_eq!((l, e), (0, 0));
}

#[test]
fn learning_phase_requires_20hrs_education() {
    let (l, e) = LifecyclePhase::Learning.weekly_obligations();
    assert_eq!((l, e), (0, 20));
}

#[test]
fn labor_phase_requires_20hrs_pranjurity() {
    let (l, e) = LifecyclePhase::Labor.weekly_obligations();
    assert_eq!((l, e), (20, 0));
}

#[test]
fn rehabilitation_requires_both_tracks() {
    let (l, e) = LifecyclePhase::Rehabilitation.weekly_obligations();
    assert_eq!((l, e), (20, 20));
}

#[test]
fn retirement_has_zero_obligations() {
    let (l, e) = LifecyclePhase::Retirement.weekly_obligations();
    assert_eq!((l, e), (0, 0));
}

#[test]
fn children_cannot_vote() {
    assert!(!LifecyclePhase::Childhood.can_vote());
}

#[test]
fn all_non_children_can_vote() {
    assert!(LifecyclePhase::Learning.can_vote());
    assert!(LifecyclePhase::Labor.can_vote());
    assert!(LifecyclePhase::Rehabilitation.can_vote());
    assert!(LifecyclePhase::Retirement.can_vote());
}

#[test]
fn children_cannot_claim_labor() {
    assert!(!LifecyclePhase::Childhood.can_claim_labor());
    assert!(!LifecyclePhase::Learning.can_claim_labor());
}

#[test]
fn node_identity_classification() {
    let human = NodeIdentity {
        node_id: Uuid::new_v4(),
        public_key: "ed25519_test_key".to_string(),
        class: NodeClass::Human {
            phase: LifecyclePhase::Labor,
            capabilities: vec!["plumbing_lvl1".to_string()],
            assigned_homestead: None,
        },
        label: "Test Worker".to_string(),
        commissioned_at: 0,
    };
    assert!(human.is_human());
    assert!(!human.is_generator());
    assert_eq!(human.lifecycle_phase(), Some(&LifecyclePhase::Labor));
}

#[test]
fn claim_rights_by_phase() {
    assert!(LifecyclePhase::Labor.can_claim_labor());
    assert!(LifecyclePhase::Rehabilitation.can_claim_labor());
    assert!(LifecyclePhase::Retirement.can_claim_labor());
    assert!(!LifecyclePhase::Childhood.can_claim_education());
    assert!(LifecyclePhase::Learning.can_claim_education());
    assert!(LifecyclePhase::Rehabilitation.can_claim_education());
    assert!(LifecyclePhase::Retirement.can_claim_education());
    assert!(!LifecyclePhase::Labor.can_claim_education());
}

#[test]
fn owed_hours_come_with_claim_rights() {
    for phase in [
        LifecyclePhase::Childhood,
        LifecyclePhase::Learning,
        LifecyclePhase::Labor,
        LifecyclePhase::Rehabilitation,
        LifecyclePhase::Retirement,
    ] {
        let (labor, learning) = phase.weekly_obligations();
        if labor > 0 {
            assert!(phase.can_claim_labor());
        }
        if learning > 0 {
            assert!(phase.can_claim_education());
        }
        if phase.can_claim_labor() || phase.can_claim_education() {
            assert!(phase.can_vote());
        }
    }
}

#[test]
fn infrastructure_has_no_phase_or_capabilities() {
    let solar = NodeIdentity {
        node_id: Uuid::new_v4(),
        public_key: "k".to_string(),
        class: NodeClass::InfraGenerator {
            product: InfraProduct::SolarArray { peak_kw: 32, efficiency_pct_bits: 0.95f32.to_bits() },
            generation_type: GenerationType::Solar,
            location_id: Uuid::new_v4(),
        },
        label: "S".to_string(),
        commissioned_at: 0,
    };
    assert!(solar.is_generator());
    assert!(!solar.is_human());
    assert!(!solar.is_consumer());
    assert!(!solar.is_council());
    assert_eq!(solar.lifecycle_phase(), None);
    assert!(solar.capabilities().is_none());
}

#[test]
fn capabilities_are_looked_up_by_name() {
    let w = worker(LifecyclePhase::Labor, &["solar", "plumbing_lvl1"]);
    let caps = w.capabilities().unwrap();
    assert!(has_capability(caps, "plumbing_lvl1"));
    assert!(has_capability(caps, "solar"));
    assert!(!has_capability(caps, "plumbing"));
    assert!(!has_capability(&Vec::new(), "solar"));
}

#[test]
fn capabilities_compare_as_sets() {
    let home = Some(Uuid::new_v4());
    let a = NodeClass::Human {
        phase: LifecyclePhase::Labor,
        capabilities: vec!["solar".to_string(), "plumbing".to_string()],
        assigned_homestead: home,
    };
    let b = NodeClass::Human {
        phase: LifecyclePhase::Labor,
        capabilities: vec!["plumbing".to_string(), "solar".to_string(), "solar".to_string()],
        assigned_homestead: home,
    };
    let c = NodeClass::Human {
        phase: LifecyclePhase::Labor,
        capabilities: vec!["plumbing".to_string()],
        assigned_homestead: home,
    };
    let d = NodeClass::Human {
        phase: LifecyclePhase::Retirement,
        capabilities: vec!["plumbing".to_string(), "solar".to_string()],
        assigned_homestead: home,
    };
    let e = NodeClass::Human {
        phase: LifecyclePhase::Labor,
        capabilities: vec!["plumbing".to_string(), "solar".to_string()],
        assigned_homestead: None,
    };
    assert_eq!(a, b);
    assert_ne!(a, c);
    assert_ne!(c, a);
    assert_ne!(a, d);
    assert_ne!(a, e);
}

#[test]
fn readings_compare_as_f32() {
    let solar = |eff: f32| InfraProduct::SolarArray { peak_kw: 32, efficiency_pct_bits: eff.to_bits() };
    assert_eq!(solar(0.95), solar(0.95));
    assert_eq!(solar(0.0), solar(-0.0));
    assert_ne!(solar(f32::NAN), solar(f32::NAN));
    assert_ne!(solar(0.95), solar(0.96));
    assert_ne!(solar(0.95), InfraProduct::Hvac { btu_capacity: 32 });
    let district = Uuid::new_v4();
    let council = |t: f32| NodeClass::Council { district_id: district, threshold_pct_bits: t.to_bits() };
    assert_eq!(council(0.66), council(0.66));
    assert_eq!(council(0.0), council(-0.0));
    assert_ne!(council(f32::NAN), council(f32::NAN));
    assert_ne!(council(0.66), NodeClass::Council { district_id: Uuid::new_v4(), threshold_pct_bits: 0.66f32.to_bits() });
    let loc = Uuid::new_v4();
    let gen = |eff: f32| NodeClass::InfraGenerator {
        product: solar(eff),
        generation_type: GenerationType::Solar,
        location_id: loc,
    };
    assert_eq!(gen(0.5), gen(0.5));
    assert_ne!(gen(f32::NAN), gen(f32::NAN));
    assert_ne!(gen(0.5), NodeClass::InfraGenerator { product: solar(0.5), generation_type: GenerationType::Wind, location_id: loc });
}
