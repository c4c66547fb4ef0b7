//! The Universal Node: the identity of every entity in the Dignifundus, the
//! lifecycle of a human node and the classes of infrastructure.

use vstd::prelude::*;
use vstd::std_specs::cmp::PartialEqSpecImpl;
use uuid::Uuid;

verus! {

#[verifier::external_type_specification]
#[verifier::external_body]
pub struct ExUuid(uuid::Uuid);

/// `Uuid` derives `Clone` and `Copy` in the `uuid` crate, so a clone is a
/// bitwise copy: the result equals the original.
pub assume_specification[ <uuid::Uuid as Clone>::clone ](id: &Uuid) -> (r: Uuid)
    ensures
        r == *id,
;

/// `Uuid` derives `PartialEq` in the `uuid` crate over its 16 bytes, which
/// are all it holds: two identifiers compare equal exactly when they are the
/// same value.
pub assume_specification[ <uuid::Uuid as PartialEq>::eq ](a: &Uuid, b: &Uuid) -> (r: bool)
    ensures
        r == (*a == *b),
;

/// Draws a fresh identifier with `uuid::Uuid::new_v4`, which fills 128 bits
/// from the operating system's random source and sets the version and
/// variant bits. The value depends on chance, so nothing is stated of it;
/// `new_v4` panics only if the operating system cannot supply random bytes.
#[verifier::external_body]
pub(crate) fn random_uuid() -> (id: Uuid) {
    Uuid::new_v4()
}

/// The strict timeline of the Generative Federation.
/// Each phase defines the obligations and capabilities of a Human Node.
#[derive(Debug, Clone, Copy, PartialEq, Eq, Hash, Structural)]
pub enum LifecyclePhase {
    /// 0-18 years. Generates 20hr/week Demand for Supranjus (teaching/care).
    Childhood,
    /// 5 years. 20 hours/week of focused Supranjus generation.
    Learning,
    /// 20 years. 20 hours/week of Pranjurity (physical/system maintenance).
    Labor,
    /// Re-introduction track. 20 hours learning + 20 hours labor.
    Rehabilitation,
    /// 40+ years. 0 hours required. Full draw from Dignity Floor.
    Retirement,
}

impl LifecyclePhase {
    /// The weekly obligation of the phase: (labor hours, learning hours).
    pub open spec fn obligations(self) -> (u8, u8) {
        match self {
            LifecyclePhase::Childhood => (0, 0),
            LifecyclePhase::Learning => (0, 20),
            LifecyclePhase::Labor => (20, 0),
            LifecyclePhase::Rehabilitation => (20, 20),
            LifecyclePhase::Retirement => (0, 0),
        }
    }

    /// Phases that may claim labor tasks.
    pub open spec fn labor_allowed(self) -> bool {
        self is Labor || self is Rehabilitation || self is Retirement
    }

    /// Phases that may claim education/supranjus tasks.
    pub open spec fn education_allowed(self) -> bool {
        self is Learning || self is Rehabilitation || self is Retirement
    }

    /// Phases that hold voting rights: every phase after childhood.
    pub open spec fn voting_allowed(self) -> bool {
        !(self is Childhood)
    }

    /// Returns (labor_hours, learning_hours) weekly obligation.
    pub fn weekly_obligations(&self) -> (r: (u8, u8))
        ensures
            r == self.obligations(),
    {
        match self {
            LifecyclePhase::Childhood => (0, 0),
            LifecyclePhase::Learning => (0, 20),
            LifecyclePhase::Labor => (20, 0),
            LifecyclePhase::Rehabilitation => (20, 20),
            LifecyclePhase::Retirement => (0, 0),
        }
    }

    /// Whether this phase can claim labor tasks.
    pub fn can_claim_labor(&self) -> (r: bool)
        ensures
            r == self.labor_allowed(),
    {
        match self {
            LifecyclePhase::Labor | LifecyclePhase::Rehabilitation | LifecyclePhase::Retirement => true,
            _ => false,
        }
    }

    /// Whether this phase can claim education/supranjus tasks.
    pub fn can_claim_education(&self) -> (r: bool)
        ensures
            r == self.education_allowed(),
    {
        match self {
            LifecyclePhase::Learning | LifecyclePhase::Rehabilitation | LifecyclePhase::Retirement => true,
            _ => false,
        }
    }

    /// Whether this phase grants voting rights.
    pub fn can_vote(&self) -> (r: bool)
        ensures
            r == self.voting_allowed(),
    {
        match self {
            LifecyclePhase::Childhood => false,
            _ => true,
        }
    }
}

/// Type of energy an infrastructure generator produces.
#[derive(Debug, Clone, PartialEq, Eq, Hash, Structural)]
pub enum GenerationType {
    Solar,
    Biodigester,
    Wind,
    WaterExtraction,
}

/// Type of resource an infrastructure consumer draws.
#[derive(Debug, Clone, PartialEq, Eq, Hash, Structural)]
pub enum ConsumptionType {
    ClimateControl,
    WaterPump,
    NetworkEquipment,
    Lighting,
}

/// The physical assets of the Dignifundus.
///
/// The efficiency of a solar array is an `f32` percentage, held here as its
/// IEEE-754 bit pattern (`f32::to_bits`), which keeps every value exactly.
#[derive(Debug, Clone)]
pub enum InfraProduct {
    SolarArray { peak_kw: u32, efficiency_pct_bits: u32 },
    Biodigester { daily_capacity_m3: u32 },
    WaterPump { gallons_per_minute: u32 },
    Hvac { btu_capacity: u32 },
    AgriculturalUnit { crop_type: String, expected_yield_kg: u32 },
    NetworkNode { bandwidth_mbps: u32 },
    ResidentialUnit { max_occupancy: u8 },
}

/// The Universal Cryptographic Node.
///
/// A human's capabilities are a list of names; a name counts once however
/// often it is listed. The council threshold is an `f32` percentage held as
/// its IEEE-754 bit pattern.
#[derive(Debug, Clone)]
pub enum NodeClass {
    /// The "I". The sovereign human.
    Human {
        phase: LifecyclePhase,
        capabilities: Vec<String>,
        assigned_homestead: Option<Uuid>,
    },
    /// Infrastructure that produces (Solar, Biodigester).
    InfraGenerator {
        product: InfraProduct,
        generation_type: GenerationType,
        location_id: Uuid,
    },
    /// Infrastructure that consumes (HVAC, Pumps).
    InfraConsumer {
        product: InfraProduct,
        consumption_type: ConsumptionType,
        location_id: Uuid,
    },
    /// Multi-signature voting aggregate for a district.
    Council {
        district_id: Uuid,
        threshold_pct_bits: u32,
    },
}

/// Whether the `f32` value with bit pattern `bits` is a NaN: all exponent
/// bits set and a non-zero mantissa.
pub open spec fn f32_bits_nan(bits: u32) -> bool {
    bits & 0x7f80_0000u32 == 0x7f80_0000u32 && bits & 0x007f_ffffu32 != 0
}

/// IEEE-754 equality of two `f32` values given by their bit patterns, as
/// `f32 == f32` computes it: a NaN equals nothing, not even itself; `0.0`
/// equals `-0.0`; otherwise the values are equal when their bits are.
pub open spec fn f32_bits_equal(a: u32, b: u32) -> bool {
    &&& !f32_bits_nan(a)
    &&& !f32_bits_nan(b)
    &&& (a == b || (a & 0x7fff_ffffu32 == 0 && b & 0x7fff_ffffu32 == 0))
}

/// Compares two `f32` values, given by their bit patterns, as `==` on `f32` does.
pub fn f32_bits_eq(a: u32, b: u32) -> (r: bool)
    ensures
        r == f32_bits_equal(a, b),
{
    let a_nan = a & 0x7f80_0000u32 == 0x7f80_0000u32 && a & 0x007f_ffffu32 != 0;
    let b_nan = b & 0x7f80_0000u32 == 0x7f80_0000u32 && b & 0x007f_ffffu32 != 0;
    !a_nan && !b_nan && (a == b || (a & 0x7fff_ffffu32 == 0 && b & 0x7fff_ffffu32 == 0))
}

/// Two products are equal when they are the same kind with equal fields;
/// the solar efficiency compares as an `f32`.
pub open spec fn infra_product_equal(a: InfraProduct, b: InfraProduct) -> bool {
    match (a, b) {
        (
            InfraProduct::SolarArray { peak_kw: k1, efficiency_pct_bits: e1 },
            InfraProduct::SolarArray { peak_kw: k2, efficiency_pct_bits: e2 },
        ) => k1 == k2 && f32_bits_equal(e1, e2),
        (
            InfraProduct::Biodigester { daily_capacity_m3: c1 },
            InfraProduct::Biodigester { daily_capacity_m3: c2 },
        ) => c1 == c2,
        (
            InfraProduct::WaterPump { gallons_per_minute: g1 },
            InfraProduct::WaterPump { gallons_per_minute: g2 },
        ) => g1 == g2,
        (InfraProduct::Hvac { btu_capacity: b1 }, InfraProduct::Hvac { btu_capacity: b2 }) => b1 == b2,
        (
            InfraProduct::AgriculturalUnit { crop_type: c1, expected_yield_kg: y1 },
            InfraProduct::AgriculturalUnit { crop_type: c2, expected_yield_kg: y2 },
        ) => c1@ == c2@ && y1 == y2,
        (
            InfraProduct::NetworkNode { bandwidth_mbps: m1 },
            InfraProduct::NetworkNode { bandwidth_mbps: m2 },
        ) => m1 == m2,
        (
            InfraProduct::ResidentialUnit { max_occupancy: o1 },
            InfraProduct::ResidentialUnit { max_occupancy: o2 },
        ) => o1 == o2,
        _ => false,
    }
}

impl PartialEq for InfraProduct {
    fn eq(&self, other: &Self) -> (r: bool) {
        match (self, other) {
            (
                InfraProduct::SolarArray { peak_kw: k1, efficiency_pct_bits: e1 },
                InfraProduct::SolarArray { peak_kw: k2, efficiency_pct_bits: e2 },
            ) => *k1 == *k2 && f32_bits_eq(*e1, *e2),
            (
                InfraProduct::Biodigester { daily_capacity_m3: c1 },
                InfraProduct::Biodigester { daily_capacity_m3: c2 },
            ) => *c1 == *c2,
            (
                InfraProduct::WaterPump { gallons_per_minute: g1 },
                InfraProduct::WaterPump { gallons_per_minute: g2 },
            ) => *g1 == *g2,
            (InfraProduct::Hvac { btu_capacity: b1 }, InfraProduct::Hvac { btu_capacity: b2 }) => *b1 == *b2,
            (
                InfraProduct::AgriculturalUnit { crop_type: c1, expected_yield_kg: y1 },
                InfraProduct::AgriculturalUnit { crop_type: c2, expected_yield_kg: y2 },
            ) => *c1 == *c2 && *y1 == *y2,
            (
                InfraProduct::NetworkNode { bandwidth_mbps: m1 },
                InfraProduct::NetworkNode { bandwidth_mbps: m2 },
            ) => *m1 == *m2,
            (
                InfraProduct::ResidentialUnit { max_occupancy: o1 },
                InfraProduct::ResidentialUnit { max_occupancy: o2 },
            ) => *o1 == *o2,
            _ => false,
        }
    }
}

impl PartialEqSpecImpl for InfraProduct {
    open spec fn obeys_eq_spec() -> bool {
        true
    }

    open spec fn eq_spec(&self, other: &InfraProduct) -> bool {
        infra_product_equal(*self, *other)
    }
}

/// Two lists name the same set of capabilities: order and repetition do not
/// matter.
pub open spec fn same_capabilities(a: Seq<String>, b: Seq<String>) -> bool {
    forall|c: Seq<char>| holds_capability(a, c) <==> holds_capability(b, c)
}

/// Two node classes are equal when they are the same class with equal
/// fields; capabilities compare as sets and readings as `f32` values.
pub open spec fn node_class_equal(a: NodeClass, b: NodeClass) -> bool {
    match (a, b) {
        (
            NodeClass::Human { phase: p1, capabilities: c1, assigned_homestead: h1 },
            NodeClass::Human { phase: p2, capabilities: c2, assigned_homestead: h2 },
        ) => p1 == p2 && same_capabilities(c1@, c2@) && h1 == h2,
        (
            NodeClass::InfraGenerator { product: q1, generation_type: g1, location_id: l1 },
            NodeClass::InfraGenerator { product: q2, generation_type: g2, location_id: l2 },
        ) => infra_product_equal(q1, q2) && g1 == g2 && l1 == l2,
        (
            NodeClass::InfraConsumer { product: q1, consumption_type: t1, location_id: l1 },
            NodeClass::InfraConsumer { product: q2, consumption_type: t2, location_id: l2 },
        ) => infra_product_equal(q1, q2) && t1 == t2 && l1 == l2,
        (
            NodeClass::Council { district_id: d1, threshold_pct_bits: t1 },
            NodeClass::Council { district_id: d2, threshold_pct_bits: t2 },
        ) => d1 == d2 && f32_bits_equal(t1, t2),
        _ => false,
    }
}

/// Whether every capability listed in `a` is held in `b`.
fn all_held_in(a: &Vec<String>, b: &Vec<String>) -> (r: bool)
    ensures
        r == forall|i: int| 0 <= i < a@.len() ==> holds_capability(b@, #[trigger] a@[i]@),
{
    let mut i: usize = 0;
    while i < a.len()
        invariant
            0 <= i <= a@.len(),
            forall|j: int| 0 <= j < i ==> holds_capability(b@, #[trigger] a@[j]@),
        decreases a@.len() - i,
    {
        if !has_capability(b, a[i].as_str()) {
            return false;
        }
        i = i + 1;
    }
    true
}

/// Compares two capability lists as sets.
fn same_capability_set(a: &Vec<String>, b: &Vec<String>) -> (r: bool)
    ensures
        r == same_capabilities(a@, b@),
{
    let ab = all_held_in(a, b);
    let ba = all_held_in(b, a);
    proof {
        if ab && ba {
            assert forall|c: Seq<char>| holds_capability(a@, c) <==> holds_capability(b@, c) by {
                if holds_capability(a@, c) {
                    let i = choose|i: int| 0 <= i < a@.len() && #[trigger] a@[i]@ == c;
                    assert(holds_capability(b@, a@[i]@));
                }
                if holds_capability(b@, c) {
                    let i = choose|i: int| 0 <= i < b@.len() && #[trigger] b@[i]@ == c;
                    assert(holds_capability(a@, b@[i]@));
                }
            }
        }
        if !ab {
            let i = choose|i: int| 0 <= i < a@.len() && !holds_capability(b@, #[trigger] a@[i]@);
            assert(holds_capability(a@, a@[i]@));
        }
        if !ba {
            let i = choose|i: int| 0 <= i < b@.len() && !holds_capability(a@, #[trigger] b@[i]@);
            assert(holds_capability(b@, b@[i]@));
        }
    }
    ab && ba
}

fn same_homestead(a: &Option<Uuid>, b: &Option<Uuid>) -> (r: bool)
    ensures
        r == (*a == *b),
{
    match (a, b) {
        (Some(x), Some(y)) => *x == *y,
        (None, None) => true,
        _ => false,
    }
}

impl PartialEq for NodeClass {
    fn eq(&self, other: &Self) -> (r: bool) {
        match (self, other) {
            (
                NodeClass::Human { phase: p1, capabilities: c1, assigned_homestead: h1 },
                NodeClass::Human { phase: p2, capabilities: c2, assigned_homestead: h2 },
            ) => *p1 == *p2 && same_capability_set(c1, c2) && same_homestead(h1, h2),
            (
                NodeClass::InfraGenerator { product: q1, generation_type: g1, location_id: l1 },
                NodeClass::InfraGenerator { product: q2, generation_type: g2, location_id: l2 },
            ) => q1.eq(q2) && *g1 == *g2 && *l1 == *l2,
            (
                NodeClass::InfraConsumer { product: q1, consumption_type: t1, location_id: l1 },
                NodeClass::InfraConsumer { product: q2, consumption_type: t2, location_id: l2 },
            ) => q1.eq(q2) && *t1 == *t2 && *l1 == *l2,
            (
                NodeClass::Council { district_id: d1, threshold_pct_bits: t1 },
                NodeClass::Council { district_id: d2, threshold_pct_bits: t2 },
            ) => *d1 == *d2 && f32_bits_eq(*t1, *t2),
            _ => false,
        }
    }
}

impl PartialEqSpecImpl for NodeClass {
    open spec fn obeys_eq_spec() -> bool {
        true
    }

    open spec fn eq_spec(&self, other: &NodeClass) -> bool {
        node_class_equal(*self, *other)
    }
}

/// Whether the capability `cap` is among the names in `caps`.
pub open spec fn holds_capability(caps: Seq<String>, cap: Seq<char>) -> bool {
    exists|i: int| 0 <= i < caps.len() && #[trigger] caps[i]@ == cap
}

/// Tests whether `cap` is one of the capabilities in `caps`.
pub fn has_capability(caps: &Vec<String>, cap: &str) -> (r: bool)
    ensures
        r == holds_capability(caps@, cap@),
{
    let wanted = cap.to_owned();
    let mut i: usize = 0;
    while i < caps.len()
        invariant
            0 <= i <= caps.len(),
            wanted@ == cap@,
            forall|j: int| 0 <= j < i ==> #[trigger] caps@[j]@ != cap@,
        decreases caps.len() - i,
    {
        if caps[i] == wanted {
            assert(caps@[i as int]@ == cap@);
            return true;
        }
        i = i + 1;
    }
    false
}

/// Cryptographic identity of a Node in the Linexus system.
#[derive(Debug, Clone)]
pub struct NodeIdentity {
    pub node_id: Uuid,
    pub public_key: String,
    pub class: NodeClass,
    pub label: String,
    pub commissioned_at: u64,
}

impl NodeIdentity {
    pub fn is_human(&self) -> (r: bool)
        ensures
            r == (self.class is Human),
    {
        match self.class {
            NodeClass::Human { .. } => true,
            _ => false,
        }
    }

    pub fn is_generator(&self) -> (r: bool)
        ensures
            r == (self.class is InfraGenerator),
    {
        match self.class {
            NodeClass::InfraGenerator { .. } => true,
            _ => false,
        }
    }

    pub fn is_consumer(&self) -> (r: bool)
        ensures
            r == (self.class is InfraConsumer),
    {
        match self.class {
            NodeClass::InfraConsumer { .. } => true,
            _ => false,
        }
    }

    pub fn is_council(&self) -> (r: bool)
        ensures
            r == (self.class is Council),
    {
        match self.class {
            NodeClass::Council { .. } => true,
            _ => false,
        }
    }

    /// The lifecycle phase of a human node; `None` for every other class.
    pub fn lifecycle_phase(&self) -> (r: Option<&LifecyclePhase>)
        ensures
            match self.class {
                NodeClass::Human { phase, .. } => r == Some(&phase),
                _ => r is None,
            },
    {
        match &self.class {
            NodeClass::Human { phase, .. } => Some(phase),
            _ => None,
        }
    }

    /// The capabilities of a human node; `None` for every other class.
    pub fn capabilities(&self) -> (r: Option<&Vec<String>>)
        ensures
            match self.class {
                NodeClass::Human { capabilities, .. } => r == Some(&capabilities),
                _ => r is None,
            },
    {
        match &self.class {
            NodeClass::Human { capabilities, .. } => Some(capabilities),
            _ => None,
        }
    }
}

/// A node holds exactly the capabilities it lists, wherever in the list they
/// stand: every listed name is held, and a held name is listed somewhere.
pub proof fn lemma_listed_capabilities_are_held(caps: Seq<String>, i: int, cap: Seq<char>)
    ensures
        0 <= i < caps.len() ==> holds_capability(caps, caps[i]@),
        holds_capability(caps, cap) ==> exists|j: int| 0 <= j < caps.len() && #[trigger] caps[j]@ == cap,
        caps.len() == 0 ==> !holds_capability(caps, cap),
{
    if 0 <= i < caps.len() {
        assert(caps[i]@ == caps[i]@);
    }
}

/// Listing one more name adds exactly that capability.
pub proof fn lemma_adding_a_capability(caps: Seq<String>, name: String, cap: Seq<char>)
    ensures
        holds_capability(caps.push(name), cap) <==> (holds_capability(caps, cap) || name@ == cap),
{
    let grown = caps.push(name);
    if holds_capability(grown, cap) {
        let j = choose|j: int| 0 <= j < grown.len() && #[trigger] grown[j]@ == cap;
        if j < caps.len() {
            assert(caps[j]@ == cap);
        }
    }
    if holds_capability(caps, cap) {
        let j = choose|j: int| 0 <= j < caps.len() && #[trigger] caps[j]@ == cap;
        assert(grown[j]@ == cap);
    }
    if name@ == cap {
        assert(grown[caps.len() as int]@ == cap);
    }
}

/// Whether the `f32` readings a product carries are numbers (not NaN).
pub open spec fn product_readings_are_numbers(p: InfraProduct) -> bool {
    match p {
        InfraProduct::SolarArray { efficiency_pct_bits, .. } => !f32_bits_nan(efficiency_pct_bits),
        _ => true,
    }
}

/// Whether the `f32` readings a node class carries are numbers (not NaN).
pub open spec fn class_readings_are_numbers(c: NodeClass) -> bool {
    match c {
        NodeClass::Human { .. } => true,
        NodeClass::InfraGenerator { product, .. } => product_readings_are_numbers(product),
        NodeClass::InfraConsumer { product, .. } => product_readings_are_numbers(product),
        NodeClass::Council { threshold_pct_bits, .. } => !f32_bits_nan(threshold_pct_bits),
    }
}

/// Product equality compares every field: equal products are of the same
/// kind with equal integer and text fields, and equal readings by `f32`
/// rules. It is symmetric, every product whose readings are numbers equals
/// itself, and a solar array with a NaN efficiency equals nothing.
pub proof fn lemma_product_equality_is_fieldwise(a: InfraProduct, b: InfraProduct)
    ensures
        infra_product_equal(a, b) == infra_product_equal(b, a),
        product_readings_are_numbers(a) ==> infra_product_equal(a, a),
        !product_readings_are_numbers(a) ==> !infra_product_equal(a, b),
        infra_product_equal(a, b) ==> match a {
            InfraProduct::SolarArray { peak_kw, efficiency_pct_bits } => b is SolarArray
                && b->SolarArray_peak_kw == peak_kw && !f32_bits_nan(efficiency_pct_bits) && (
            b->SolarArray_efficiency_pct_bits == efficiency_pct_bits || (efficiency_pct_bits & 0x7fff_ffffu32 == 0
                && b->SolarArray_efficiency_pct_bits & 0x7fff_ffffu32 == 0)),
            InfraProduct::Biodigester { daily_capacity_m3 } => b is Biodigester
                && b->Biodigester_daily_capacity_m3 == daily_capacity_m3,
            InfraProduct::WaterPump { gallons_per_minute } => b is WaterPump
                && b->WaterPump_gallons_per_minute == gallons_per_minute,
            InfraProduct::Hvac { btu_capacity } => b is Hvac && b->Hvac_btu_capacity == btu_capacity,
            InfraProduct::AgriculturalUnit { crop_type, expected_yield_kg } => b is AgriculturalUnit
                && b->AgriculturalUnit_crop_type@ == crop_type@ && b->AgriculturalUnit_expected_yield_kg
                == expected_yield_kg,
            InfraProduct::NetworkNode { bandwidth_mbps } => b is NetworkNode
                && b->NetworkNode_bandwidth_mbps == bandwidth_mbps,
            InfraProduct::ResidentialUnit { max_occupancy } => b is ResidentialUnit
                && b->ResidentialUnit_max_occupancy == max_occupancy,
        },
{
}

/// Node-class equality compares every field: equal classes are of the same
/// kind, with equal phases, homesteads, generation and consumption types,
/// locations and districts; humans list the same set of capabilities;
/// products and readings are equal by `f32` rules. It is symmetric, and a
/// class whose readings are numbers equals itself.
pub proof fn lemma_node_class_equality_is_fieldwise(a: NodeClass, b: NodeClass, i: int)
    ensures
        node_class_equal(a, b) == node_class_equal(b, a),
        class_readings_are_numbers(a) ==> node_class_equal(a, a),
        !class_readings_are_numbers(a) ==> !node_class_equal(a, b),
        node_class_equal(a, b) ==> match a {
            NodeClass::Human { phase, capabilities, assigned_homestead } => {
                &&& b is Human
                &&& b->Human_phase == phase
                &&& b->Human_assigned_homestead == assigned_homestead
                &&& 0 <= i < capabilities@.len() ==> holds_capability(b->Human_capabilities@, capabilities@[i]@)
                &&& 0 <= i < b->Human_capabilities@.len() ==> holds_capability(
                    capabilities@,
                    b->Human_capabilities@[i]@,
                )
            },
            NodeClass::InfraGenerator { product, generation_type, location_id } => {
                &&& b is InfraGenerator
                &&& infra_product_equal(product, b->InfraGenerator_product)
                &&& b->InfraGenerator_generation_type == generation_type
                &&& b->InfraGenerator_location_id == location_id
            },
            NodeClass::InfraConsumer { product, consumption_type, location_id } => {
                &&& b is InfraConsumer
                &&& infra_product_equal(product, b->InfraConsumer_product)
                &&& b->InfraConsumer_consumption_type == consumption_type
                &&& b->InfraConsumer_location_id == location_id
            },
            NodeClass::Council { district_id, threshold_pct_bits } => {
                &&& b is Council
                &&& b->Council_district_id == district_id
                &&& f32_bits_equal(threshold_pct_bits, b->Council_threshold_pct_bits)
            },
        },
{
    match a {
        NodeClass::Human { capabilities, .. } => {
            if node_class_equal(a, b) && 0 <= i < capabilities@.len() {
                lemma_listed_capabilities_are_held(capabilities@, i, capabilities@[i]@);
            }
            if node_class_equal(a, b) && 0 <= i < b->Human_capabilities@.len() {
                lemma_listed_capabilities_are_held(b->Human_capabilities@, i, b->Human_capabilities@[i]@);
            }
        },
        NodeClass::InfraGenerator { product, .. } => {
            lemma_product_equality_is_fieldwise(product, product);
            if b is InfraGenerator {
                lemma_product_equality_is_fieldwise(product, b->InfraGenerator_product);
            }
        },
        NodeClass::InfraConsumer { product, .. } => {
            lemma_product_equality_is_fieldwise(product, product);
            if b is InfraConsumer {
                lemma_product_equality_is_fieldwise(product, b->InfraConsumer_product);
            }
        },
        _ => {},
    }
}

/// Every weekly obligation is twenty hours or none: labor is owed in the
/// Labor and Rehabilitation phases, learning in the Learning and
/// Rehabilitation phases.
pub proof fn lemma_weekly_hours(phase: LifecyclePhase)
    ensures
        phase.obligations().0 == if phase is Labor || phase is Rehabilitation { 20u8 } else { 0u8 },
        phase.obligations().1 == if phase is Learning || phase is Rehabilitation { 20u8 } else { 0u8 },
{
}

/// Obligations come with the right to meet them: a phase owing labor hours
/// may claim labor, a phase owing learning hours may claim education, and
/// every phase that may claim any work may vote.
pub proof fn lemma_obligations_carry_claim_rights(phase: LifecyclePhase)
    ensures
        phase.obligations().0 > 0 ==> phase.labor_allowed(),
        phase.obligations().1 > 0 ==> phase.education_allowed(),
        phase.labor_allowed() || phase.education_allowed() ==> phase.voting_allowed(),
{
}

/// Childhood is free of every obligation and of every claim: a child owes no
/// hours, may claim neither labor nor education, and cannot vote; every other
/// phase can vote.
pub proof fn lemma_childhood_is_protected(phase: LifecyclePhase)
    ensures
        phase is Childhood ==> {
            &&& phase.obligations() == (0u8, 0u8)
            &&& !phase.labor_allowed()
            &&& !phase.education_allowed()
            &&& !phase.voting_allowed()
        },
        !(phase is Childhood) ==> phase.voting_allowed(),
{
}

/// Every node belongs to exactly one class: exactly one of `is_human`,
/// `is_generator`, `is_consumer` and `is_council` holds of it.
pub proof fn lemma_node_has_one_class(node: NodeIdentity)
    ensures
        (node.class is Human) as int + (node.class is InfraGenerator) as int + (node.class is InfraConsumer) as int
            + (node.class is Council) as int == 1,
{
}

} // verus!
