//! The rules that turn one EDDN journal event into the contract calls that
//! record it: which events are recorded, which fields every call reads, and
//! where a missing or malformed field stops the event.

use vstd::prelude::*;
use crate::value::{Json, json_of_text, parse_json};
use crate::number::{Floating, parse_floating, floating_or_zero, parsed_i128, without_dots, fraction_width};
use crate::text::{text_eq, contains_text, occurs_in, to_ascii_lowercase, lower_all, push_listed, comma_append};

verus! {

/// Seconds since the Unix epoch that `chrono` reads from an RFC 3339 date,
/// or `None` where it refuses the text.
pub uninterp spec fn rfc3339_seconds(text: Seq<char>) -> Option<i64>;

/// `DateTime::parse_from_rfc3339(text)` followed by `timestamp()`. The
/// contract names chrono's result; it claims only that the result depends on
/// the text alone.
#[verifier::external_body]
fn parse_rfc3339(text: &str) -> (r: Option<i64>)
    ensures
        r == rfc3339_seconds(text@),
{
    match chrono::DateTime::parse_from_rfc3339(text) {
        Ok(date) => Some(date.timestamp()),
        Err(_) => None,
    }
}

/// The timestamp that the relay reads from the string member `key` of an event.
pub open spec fn timestamp_of(e: Json, key: Seq<char>) -> Option<i64> {
    match e.spec_get(key).spec_as_str() {
        Some(s) => rfc3339_seconds(s),
        None => None,
    }
}

/// `DateTime::parse_from_rfc3339(e[key].as_str()?)?.timestamp()`.
pub fn event_timestamp(e: &Json, key: &str) -> (r: Option<i64>)
    requires
        e.wf(),
    ensures
        r == timestamp_of(*e, key@),
{
    match e.get(key).as_str() {
        Some(s) => parse_rfc3339(s),
        None => None,
    }
}

/// A value read as a `Floating` where an unreadable value stops the event.
pub open spec fn strict_floating(v: Json) -> Option<Floating> {
    match parsed_i128(without_dots(v.spec_text())) {
        Some(d) => Some(Floating { decimal: d as i128, floating_point: fraction_width(v.spec_text()) }),
        None => None,
    }
}

/// A value read as a `Floating` where an unreadable value counts as 0.
pub open spec fn lenient_floating(v: Json) -> Floating {
    Floating {
        decimal: match parsed_i128(without_dots(v.spec_text())) {
            Some(d) => d as i128,
            None => 0,
        },
        floating_point: fraction_width(v.spec_text()),
    }
}

/// The `Floating` of the text of a value, `None` where its digits do not read.
pub fn strict_floating_of(v: &Json) -> (r: Option<Floating>)
    ensures
        r == strict_floating(*v),
{
    let t = v.text();
    parse_floating(t.as_str())
}

/// The `Floating` of the text of a value, with 0 where its digits do not read.
pub fn lenient_floating_of(v: &Json) -> (r: Floating)
    ensures
        r == lenient_floating(*v),
{
    let t = v.text();
    floating_or_zero(t.as_str())
}

/// Properties of a planet or moon.
#[derive(Debug, PartialEq)]
pub struct PlanetProperties {
    pub atmosphere: String,
    pub class: String,
    pub landable: bool,
    pub terraform_state: String,
    pub volcanism: String,
    pub tidal_lock: bool,
    pub mass_em: Floating,
    pub surface_gravity: Floating,
    pub surface_pressure: Floating,
    pub ascending_node: Floating,
    pub eccentricity: Floating,
    pub mean_anomaly: Floating,
    pub orbital_inclination: Floating,
    pub orbital_period: Floating,
    pub periapsis: Floating,
    pub semi_major_axis: Floating,
}

/// Properties of a star.
#[derive(Debug, PartialEq)]
pub struct StarProperties {
    pub subclass: u8,
    pub age_my: u16,
    pub type_: String,
    pub luminosity: String,
    pub stellar_mass: Floating,
    pub absolute_magnitude: Floating,
}

/// Properties shared by stars and planets.
#[derive(Debug, PartialEq, Clone, Copy)]
pub struct BodyProperties {
    pub radius: Floating,
    pub distance_from_arrival_ls: Floating,
    pub axial_tilt: Floating,
    pub rotation_period: Floating,
    pub surface_temperature: Floating,
}

/// The faction that controls a station.
#[derive(Debug, PartialEq)]
pub struct Faction {
    pub name: String,
    pub state: String,
}

/// One commodity of a market listing.
#[derive(Debug, PartialEq, Clone, Copy)]
pub struct CommodityListening {
    pub buy_price: u32,
    pub sell_price: u32,
    pub mean_price: u32,
    pub stock: u32,
    pub demand: u32,
    pub stock_bracket: u32,
    pub demand_bracket: u32,
}

/// `e[key].as_bool().unwrap_or(false)`.
pub open spec fn flag_or_false(e: Json, key: Seq<char>) -> bool {
    match e.spec_get(key).spec_as_bool() {
        Some(b) => b,
        None => false,
    }
}

/// `e[key].as_u32().unwrap_or(0)`.
pub open spec fn u32_or_zero(e: Json, key: Seq<char>) -> u32 {
    match e.spec_get(key).spec_as_u32() {
        Some(v) => v,
        None => 0,
    }
}

/// The planet properties that `p` holds are those of event `e`.
pub open spec fn planet_properties_of(e: Json, p: PlanetProperties) -> bool {
    &&& p.atmosphere@ == e.spec_get("Atmosphere"@).spec_text()
    &&& p.class@ == e.spec_get("PlanetClass"@).spec_text()
    &&& p.landable == flag_or_false(e, "Landable"@)
    &&& p.terraform_state@ == e.spec_get("TerraformState"@).spec_text()
    &&& p.volcanism@ == e.spec_get("Volcanism"@).spec_text()
    &&& e.spec_get("TidalLock"@).spec_as_bool() == Some(p.tidal_lock)
    &&& strict_floating(e.spec_get("MassEM"@)) == Some(p.mass_em)
    &&& strict_floating(e.spec_get("SurfaceGravity"@)) == Some(p.surface_gravity)
    &&& strict_floating(e.spec_get("SurfacePressure"@)) == Some(p.surface_pressure)
    &&& p.ascending_node == lenient_floating(e.spec_get("AscendingNode"@))
    &&& strict_floating(e.spec_get("Eccentricity"@)) == Some(p.eccentricity)
    &&& p.mean_anomaly == lenient_floating(e.spec_get("MeanAnomaly"@))
    &&& strict_floating(e.spec_get("OrbitalInclination"@)) == Some(p.orbital_inclination)
    &&& strict_floating(e.spec_get("OrbitalPeriod"@)) == Some(p.orbital_period)
    &&& strict_floating(e.spec_get("Periapsis"@)) == Some(p.periapsis)
    &&& strict_floating(e.spec_get("SemiMajorAxis"@)) == Some(p.semi_major_axis)
}

/// Event `e` has all that planet properties need.
pub open spec fn has_planet_properties(e: Json) -> bool {
    &&& e.spec_get("TidalLock"@).spec_as_bool() is Some
    &&& strict_floating(e.spec_get("MassEM"@)) is Some
    &&& strict_floating(e.spec_get("SurfaceGravity"@)) is Some
    &&& strict_floating(e.spec_get("SurfacePressure"@)) is Some
    &&& strict_floating(e.spec_get("Eccentricity"@)) is Some
    &&& strict_floating(e.spec_get("OrbitalInclination"@)) is Some
    &&& strict_floating(e.spec_get("OrbitalPeriod"@)) is Some
    &&& strict_floating(e.spec_get("Periapsis"@)) is Some
    &&& strict_floating(e.spec_get("SemiMajorAxis"@)) is Some
}

/// Whether scan `e` has all that planet properties need.
pub fn planet_properties_ready(e: &Json) -> (r: bool)
    requires
        e.wf(),
    ensures
        r == has_planet_properties(*e),
{
    e.get("TidalLock").as_bool().is_some()
        && strict_floating_of(e.get("MassEM")).is_some()
        && strict_floating_of(e.get("SurfaceGravity")).is_some()
        && strict_floating_of(e.get("SurfacePressure")).is_some()
        && strict_floating_of(e.get("Eccentricity")).is_some()
        && strict_floating_of(e.get("OrbitalInclination")).is_some()
        && strict_floating_of(e.get("OrbitalPeriod")).is_some()
        && strict_floating_of(e.get("Periapsis")).is_some()
        && strict_floating_of(e.get("SemiMajorAxis")).is_some()
}

/// The planet properties of a scan event. The relay stops on a scan that
/// lacks one of them, so it is called only on one that has them all.
pub fn extract_planet_properties(e: &Json) -> (p: PlanetProperties)
    requires
        e.wf(),
        has_planet_properties(*e),
    ensures
        planet_properties_of(*e, p),
{
    let landable = match e.get("Landable").as_bool() {
        Some(b) => b,
        None => false,
    };
    PlanetProperties {
        atmosphere: e.get("Atmosphere").text(),
        class: e.get("PlanetClass").text(),
        landable,
        terraform_state: e.get("TerraformState").text(),
        volcanism: e.get("Volcanism").text(),
        tidal_lock: e.get("TidalLock").as_bool().unwrap(),
        mass_em: strict_floating_of(e.get("MassEM")).unwrap(),
        surface_gravity: strict_floating_of(e.get("SurfaceGravity")).unwrap(),
        surface_pressure: strict_floating_of(e.get("SurfacePressure")).unwrap(),
        ascending_node: lenient_floating_of(e.get("AscendingNode")),
        eccentricity: strict_floating_of(e.get("Eccentricity")).unwrap(),
        mean_anomaly: lenient_floating_of(e.get("MeanAnomaly")),
        orbital_inclination: strict_floating_of(e.get("OrbitalInclination")).unwrap(),
        orbital_period: strict_floating_of(e.get("OrbitalPeriod")).unwrap(),
        periapsis: strict_floating_of(e.get("Periapsis")).unwrap(),
        semi_major_axis: strict_floating_of(e.get("SemiMajorAxis")).unwrap(),
    }
}

/// The star properties that `s` holds are those of event `e`.
pub open spec fn star_properties_of(e: Json, s: StarProperties) -> bool {
    &&& e.spec_get("Subclass"@).spec_as_u8() == Some(s.subclass)
    &&& e.spec_get("Age_MY"@).spec_as_u16() == Some(s.age_my)
    &&& s.type_@ == e.spec_get("StarType"@).spec_text()
    &&& s.luminosity@ == e.spec_get("Luminosity"@).spec_text()
    &&& strict_floating(e.spec_get("StellarMass"@)) == Some(s.stellar_mass)
    &&& strict_floating(e.spec_get("AbsoluteMagnitude"@)) == Some(s.absolute_magnitude)
}

/// Event `e` has all that star properties need.
pub open spec fn has_star_properties(e: Json) -> bool {
    &&& e.spec_get("Subclass"@).spec_as_u8() is Some
    &&& e.spec_get("Age_MY"@).spec_as_u16() is Some
    &&& strict_floating(e.spec_get("StellarMass"@)) is Some
    &&& strict_floating(e.spec_get("AbsoluteMagnitude"@)) is Some
}

/// Whether scan `e` has all that star properties need.
pub fn star_properties_ready(e: &Json) -> (r: bool)
    requires
        e.wf(),
    ensures
        r == has_star_properties(*e),
{
    e.get("Subclass").as_u8().is_some()
        && e.get("Age_MY").as_u16().is_some()
        && strict_floating_of(e.get("StellarMass")).is_some()
        && strict_floating_of(e.get("AbsoluteMagnitude")).is_some()
}

/// The star properties of a scan event. The relay stops on a scan that
/// lacks one of them, so it is called only on one that has them all.
pub fn extract_star_properties(e: &Json) -> (s: StarProperties)
    requires
        e.wf(),
        has_star_properties(*e),
    ensures
        star_properties_of(*e, s),
{
    StarProperties {
        subclass: e.get("Subclass").as_u8().unwrap(),
        age_my: e.get("Age_MY").as_u16().unwrap(),
        type_: e.get("StarType").text(),
        luminosity: e.get("Luminosity").text(),
        stellar_mass: strict_floating_of(e.get("StellarMass")).unwrap(),
        absolute_magnitude: strict_floating_of(e.get("AbsoluteMagnitude")).unwrap(),
    }
}

/// The body properties of event `e`, or `None` where one of them does not read.
pub open spec fn body_properties(e: Json) -> Option<BodyProperties> {
    match (
        strict_floating(e.spec_get("Radius"@)),
        strict_floating(e.spec_get("DistanceFromArrivalLS"@)),
        strict_floating(e.spec_get("AxialTilt"@)),
        strict_floating(e.spec_get("RotationPeriod"@)),
        strict_floating(e.spec_get("SurfaceTemperature"@)),
    ) {
        (Some(a), Some(b), Some(c), Some(d), Some(f)) => Some(
            BodyProperties {
                radius: a,
                distance_from_arrival_ls: b,
                axial_tilt: c,
                rotation_period: d,
                surface_temperature: f,
            },
        ),
        _ => None,
    }
}

/// Whether every body property of scan `e` reads.
pub fn body_properties_ready(e: &Json) -> (r: bool)
    requires
        e.wf(),
    ensures
        r == body_properties(*e) is Some,
{
    strict_floating_of(e.get("Radius")).is_some()
        && strict_floating_of(e.get("DistanceFromArrivalLS")).is_some()
        && strict_floating_of(e.get("AxialTilt")).is_some()
        && strict_floating_of(e.get("RotationPeriod")).is_some()
        && strict_floating_of(e.get("SurfaceTemperature")).is_some()
}

/// The body properties of a scan event. The relay stops on a scan where one
/// of them does not read, so it is called only on one where all read.
pub fn extract_body_properties(e: &Json) -> (b: BodyProperties)
    requires
        e.wf(),
        body_properties(*e) is Some,
    ensures
        body_properties(*e) == Some(b),
{
    BodyProperties {
        radius: strict_floating_of(e.get("Radius")).unwrap(),
        distance_from_arrival_ls: strict_floating_of(e.get("DistanceFromArrivalLS")).unwrap(),
        axial_tilt: strict_floating_of(e.get("AxialTilt")).unwrap(),
        rotation_period: strict_floating_of(e.get("RotationPeriod")).unwrap(),
        surface_temperature: strict_floating_of(e.get("SurfaceTemperature")).unwrap(),
    }
}


/// A call of the EDCAS contract, with its arguments.
#[derive(Debug, PartialEq)]
pub enum ContractCall {
    RegisterSystem {
        system_address: u64,
        name: String,
        allegiance: String,
        economy: String,
        second_economy: String,
        security: String,
        population: u64,
        timestamp: i64,
    },
    RegisterPlanet {
        system_address: u64,
        body_id: u8,
        name: String,
        was_discovered: bool,
        was_mapped: bool,
        planet: PlanetProperties,
        body: BodyProperties,
        timestamp: i64,
    },
    RegisterStar {
        system_address: u64,
        body_id: u8,
        name: String,
        was_discovered: bool,
        was_mapped: bool,
        star: StarProperties,
        body: BodyProperties,
        timestamp: i64,
    },
    RegisterCarrier {
        carrier_id: u64,
        name: String,
        callsign: String,
        services: String,
        docking_access: String,
        allow_notorious: bool,
        timestamp: i64,
    },
    ReportCarrierLocation { carrier_id: u64, system: String, body_name: String, timestamp: i64 },
    RegisterStation {
        market_id: u64,
        name: String,
        station_type: String,
        system_address: u64,
        system: String,
        faction: Faction,
        government: String,
        economy: String,
        services: String,
        distance: Floating,
        landing_pads: String,
        timestamp: i64,
    },
    EmitCarrierJump { carrier_id: u64, system: String, body_name: String, departure: i64 },
    CancelCarrierJump { carrier_id: u64 },
    RegisterCommodityListening { market_id: u64, name: String, listening: CommodityListening },
}

/// The calls that one event gives, in the order in which they are sent;
/// `complete` is false where a missing or malformed field stopped the event
/// after the calls listed.
#[derive(Debug, PartialEq)]
pub struct EventPlan {
    pub calls: Vec<ContractCall>,
    pub complete: bool,
}

/// A plan of no calls that was stopped.
pub open spec fn stopped_empty(p: EventPlan) -> bool {
    p.calls.len() == 0 && !p.complete
}

/// A complete plan of exactly one call, one that `pred` holds of.
pub open spec fn single(p: EventPlan, pred: spec_fn(ContractCall) -> bool) -> bool {
    p.calls.len() == 1 && pred(p.calls@[0]) && p.complete
}

fn stopped() -> (p: EventPlan)
    ensures
        stopped_empty(p),
{
    EventPlan { calls: Vec::new(), complete: false }
}

fn just(c: ContractCall) -> (p: EventPlan)
    ensures
        p.calls@ == seq![c],
        p.complete,
{
    let mut calls = Vec::new();
    calls.push(c);
    EventPlan { calls, complete: true }
}

// ---------------------------------------------------------------- systems

/// `c` registers the star system that event `e` reports, at `ts`.
pub open spec fn is_system_call(e: Json, ts: Option<i64>, c: ContractCall) -> bool {
    match c {
        ContractCall::RegisterSystem {
            system_address,
            name,
            allegiance,
            economy,
            second_economy,
            security,
            population,
            timestamp,
        } => {
            &&& e.spec_get("SystemAddress"@).spec_as_u64() == Some(system_address)
            &&& name@ == e.spec_get("StarSystem"@).spec_text()
            &&& allegiance@ == e.spec_get("SystemAllegiance"@).spec_text()
            &&& economy@ == e.spec_get("SystemEconomy"@).spec_text()
            &&& second_economy@ == e.spec_get("SystemSecondEconomy"@).spec_text()
            &&& security@ == e.spec_get("SystemSecurity"@).spec_text()
            &&& population == match e.spec_get("Population"@).spec_as_u64() {
                Some(v) => v,
                None => 0,
            }
            &&& ts == Some(timestamp)
        },
        _ => false,
    }
}

/// The system registration of event `e` can be made.
pub open spec fn system_call_ready(e: Json, ts: Option<i64>) -> bool {
    e.spec_get("SystemAddress"@).spec_as_u64() is Some && ts is Some
}

/// The `register_system` call of a jump event, given the event's timestamp.
pub fn system_call(e: &Json, ts: Option<i64>) -> (r: Option<ContractCall>)
    requires
        e.wf(),
    ensures
        match r {
            Some(c) => is_system_call(*e, ts, c),
            None => !system_call_ready(*e, ts),
        },
{
    let system_address = match e.get("SystemAddress").as_u64() {
        Some(v) => v,
        None => return None,
    };
    let timestamp = match ts {
        Some(t) => t,
        None => return None,
    };
    let population = match e.get("Population").as_u64() {
        Some(v) => v,
        None => 0,
    };
    Some(ContractCall::RegisterSystem {
        system_address,
        name: e.get("StarSystem").text(),
        allegiance: e.get("SystemAllegiance").text(),
        economy: e.get("SystemEconomy").text(),
        second_economy: e.get("SystemSecondEconomy").text(),
        security: e.get("SystemSecurity").text(),
        population,
        timestamp,
    })
}

/// The plan of a jump event (`FSDJump`, `CarrierJump`).
pub open spec fn jump_plan(e: Json, p: EventPlan) -> bool {
    let ts = timestamp_of(e, "timestamp"@);
    if system_call_ready(e, ts) {
        single(p, |c: ContractCall| is_system_call(e, ts, c))
    } else {
        stopped_empty(p)
    }
}

/// What a jump event gives: the registration of the system jumped to.
pub fn process_jump(e: &Json) -> (p: EventPlan)
    requires
        e.wf(),
    ensures
        jump_plan(*e, p),
{
    let ts = event_timestamp(e, "timestamp");
    match system_call(e, ts) {
        Some(c) => just(c),
        None => stopped(),
    }
}


// ---------------------------------------------------------------- scans

/// The scan's body name contains "Belt Cluster" or "Ring": such bodies are not recorded.
pub open spec fn is_belt_or_ring(e: Json) -> bool {
    occurs_in(e.spec_get("BodyName"@).spec_text(), "Belt Cluster"@) || occurs_in(
        e.spec_get("BodyName"@).spec_text(),
        "Ring"@,
    )
}

/// The identification that planet and star registrations share.
pub open spec fn body_identity(
    e: Json,
    system_address: u64,
    body_id: u8,
    name: Seq<char>,
    was_discovered: bool,
    was_mapped: bool,
) -> bool {
    &&& e.spec_get("SystemAddress"@).spec_as_u64() == Some(system_address)
    &&& e.spec_get("BodyID"@).spec_as_u8() == Some(body_id)
    &&& name == e.spec_get("BodyName"@).spec_text()
    &&& e.spec_get("WasDiscovered"@).spec_as_bool() == Some(was_discovered)
    &&& e.spec_get("WasMapped"@).spec_as_bool() == Some(was_mapped)
}

/// Event `e` has the identification of a body.
pub open spec fn has_body_identity(e: Json) -> bool {
    &&& e.spec_get("SystemAddress"@).spec_as_u64() is Some
    &&& e.spec_get("BodyID"@).spec_as_u8() is Some
    &&& e.spec_get("WasDiscovered"@).spec_as_bool() is Some
    &&& e.spec_get("WasMapped"@).spec_as_bool() is Some
}

/// `c` registers the planet that scan `e` reports, at `ts`.
pub open spec fn is_planet_call(e: Json, ts: Option<i64>, c: ContractCall) -> bool {
    match c {
        ContractCall::RegisterPlanet {
            system_address,
            body_id,
            name,
            was_discovered,
            was_mapped,
            planet,
            body,
            timestamp,
        } => {
            &&& body_identity(e, system_address, body_id, name@, was_discovered, was_mapped)
            &&& planet_properties_of(e, planet)
            &&& body_properties(e) == Some(body)
            &&& ts == Some(timestamp)
        },
        _ => false,
    }
}

/// The planet registration of scan `e` can be made.
pub open spec fn planet_call_ready(e: Json, ts: Option<i64>) -> bool {
    &&& has_body_identity(e)
    &&& has_planet_properties(e)
    &&& body_properties(e) is Some
    &&& ts is Some
}

/// `c` registers the star that scan `e` reports, at `ts`.
pub open spec fn is_star_call(e: Json, ts: Option<i64>, c: ContractCall) -> bool {
    match c {
        ContractCall::RegisterStar {
            system_address,
            body_id,
            name,
            was_discovered,
            was_mapped,
            star,
            body,
            timestamp,
        } => {
            &&& body_identity(e, system_address, body_id, name@, was_discovered, was_mapped)
            &&& star_properties_of(e, star)
            &&& body_properties(e) == Some(body)
            &&& ts == Some(timestamp)
        },
        _ => false,
    }
}

/// The star registration of scan `e` can be made.
pub open spec fn star_call_ready(e: Json, ts: Option<i64>) -> bool {
    &&& has_body_identity(e)
    &&& has_star_properties(e)
    &&& body_properties(e) is Some
    &&& ts is Some
}

/// The `register_planet` call of a scan, given its timestamp.
pub fn planet_call(e: &Json, ts: Option<i64>) -> (r: Option<ContractCall>)
    requires
        e.wf(),
    ensures
        match r {
            Some(c) => is_planet_call(*e, ts, c),
            None => !planet_call_ready(*e, ts),
        },
{
    let system_address = match e.get("SystemAddress").as_u64() {
        Some(v) => v,
        None => return None,
    };
    let body_id = match e.get("BodyID").as_u8() {
        Some(v) => v,
        None => return None,
    };
    let was_discovered = match e.get("WasDiscovered").as_bool() {
        Some(v) => v,
        None => return None,
    };
    let was_mapped = match e.get("WasMapped").as_bool() {
        Some(v) => v,
        None => return None,
    };
    if !planet_properties_ready(e) || !body_properties_ready(e) {
        return None;
    }
    let planet = extract_planet_properties(e);
    let body = extract_body_properties(e);
    let timestamp = match ts {
        Some(t) => t,
        None => return None,
    };
    Some(ContractCall::RegisterPlanet {
        system_address,
        body_id,
        name: e.get("BodyName").text(),
        was_discovered,
        was_mapped,
        planet,
        body,
        timestamp,
    })
}

/// The `register_star` call of a scan, given its timestamp.
pub fn star_call(e: &Json, ts: Option<i64>) -> (r: Option<ContractCall>)
    requires
        e.wf(),
    ensures
        match r {
            Some(c) => is_star_call(*e, ts, c),
            None => !star_call_ready(*e, ts),
        },
{
    let system_address = match e.get("SystemAddress").as_u64() {
        Some(v) => v,
        None => return None,
    };
    let body_id = match e.get("BodyID").as_u8() {
        Some(v) => v,
        None => return None,
    };
    let was_discovered = match e.get("WasDiscovered").as_bool() {
        Some(v) => v,
        None => return None,
    };
    let was_mapped = match e.get("WasMapped").as_bool() {
        Some(v) => v,
        None => return None,
    };
    if !star_properties_ready(e) || !body_properties_ready(e) {
        return None;
    }
    let star = extract_star_properties(e);
    let body = extract_body_properties(e);
    let timestamp = match ts {
        Some(t) => t,
        None => return None,
    };
    Some(ContractCall::RegisterStar {
        system_address,
        body_id,
        name: e.get("BodyName").text(),
        was_discovered,
        was_mapped,
        star,
        body,
        timestamp,
    })
}

/// The plan of a `Scan` event: nothing for belt clusters and rings, the
/// registration of a star where the scan has a `StarType`, of a planet otherwise.
pub open spec fn scan_plan(e: Json, p: EventPlan) -> bool {
    let ts = timestamp_of(e, "timestamp"@);
    if is_belt_or_ring(e) {
        p.calls.len() == 0 && p.complete
    } else if e.spec_has_key("StarType"@) {
        if star_call_ready(e, ts) {
            single(p, |c: ContractCall| is_star_call(e, ts, c))
        } else {
            stopped_empty(p)
        }
    } else {
        if planet_call_ready(e, ts) {
            single(p, |c: ContractCall| is_planet_call(e, ts, c))
        } else {
            stopped_empty(p)
        }
    }
}

/// What a `Scan` event gives.
pub fn process_scan(e: &Json) -> (p: EventPlan)
    requires
        e.wf(),
    ensures
        scan_plan(*e, p),
{
    let name = e.get("BodyName").text();
    if contains_text(name.as_str(), "Belt Cluster") || contains_text(name.as_str(), "Ring") {
        return EventPlan { calls: Vec::new(), complete: true };
    }
    let ts = event_timestamp(e, "timestamp");
    let call = if e.has_key("StarType") {
        star_call(e, ts)
    } else {
        planet_call(e, ts)
    };
    match call {
        Some(c) => just(c),
        None => stopped(),
    }
}


// ---------------------------------------------------------------- stations

/// The first `n` elements of `list`, all strings, joined with commas the way
/// the relay joins station services; `None` where one is no string.
pub open spec fn joined_strings(list: Json, n: int) -> Option<Seq<char>>
    decreases n,
{
    if n <= 0 {
        Some(Seq::<char>::empty())
    } else {
        match (joined_strings(list, n - 1), list.spec_at(n - 1).spec_as_str()) {
            (Some(acc), Some(item)) => Some(comma_append(acc, item)),
            _ => None,
        }
    }
}

/// The station services of a `Docked` event, joined with commas.
pub open spec fn station_services(e: Json) -> Option<Seq<char>> {
    joined_strings(e.spec_get("StationServices"@), e.spec_get("StationServices"@).spec_len())
}

/// Joins the station services of a `Docked` event; `None` where one of them
/// is no string (where the relay stops).
pub fn join_station_services(e: &Json) -> (r: Option<String>)
    requires
        e.wf(),
    ensures
        match r {
            Some(s) => station_services(*e) == Some(s@),
            None => station_services(*e) is None,
        },
{
    let list = e.get("StationServices");
    let n = list.len();
    let mut services = String::new();
    let mut i: usize = 0;
    while i < n
        invariant
            i <= n,
            n == list.spec_len(),
            *list == e.spec_get("StationServices"@),
            list.wf(),
            joined_strings(*list, i as int) == Some(services@),
        decreases n - i,
    {
        match list.at(i).as_str() {
            Some(item) => push_listed(&mut services, item),
            None => {
                proof {
                    assert(joined_strings(*list, i as int + 1) is None);
                    lemma_joined_strings_stops(*list, i as int + 1, n as int);
                }
                return None;
            },
        }
        i = i + 1;
    }
    Some(services)
}

/// Once joining fails it fails for every longer prefix.
proof fn lemma_joined_strings_stops(list: Json, k: int, n: int)
    requires
        1 <= k <= n,
        joined_strings(list, k) is None,
    ensures
        joined_strings(list, n) is None,
    decreases n - k,
{
    if k < n {
        lemma_joined_strings_stops(list, k + 1, n);
    }
}

/// `c` registers the fleet carrier that `Docked` event `e` reports.
pub open spec fn is_docked_carrier_call(e: Json, services: Seq<char>, ts: Option<i64>, c: ContractCall) -> bool {
    match c {
        ContractCall::RegisterCarrier {
            carrier_id,
            name,
            callsign,
            services: listed,
            docking_access,
            allow_notorious,
            timestamp,
        } => {
            &&& e.spec_get("MarketID"@).spec_as_u64() == Some(carrier_id)
            &&& name@ == "Fleet Carrier"@
            &&& e.spec_get("StationName"@).spec_as_str() == Some(callsign@)
            &&& listed@ == services
            &&& docking_access@.len() == 0
            &&& !allow_notorious
            &&& ts == Some(timestamp)
        },
        _ => false,
    }
}

/// The fleet-carrier registration of a `Docked` event can be made.
pub open spec fn docked_carrier_ready(e: Json, ts: Option<i64>) -> bool {
    &&& e.spec_get("MarketID"@).spec_as_u64() is Some
    &&& e.spec_get("StationName"@).spec_as_str() is Some
    &&& ts is Some
}

/// `c` reports where the fleet carrier of `Docked` event `e` is.
pub open spec fn is_location_call(e: Json, ts: Option<i64>, c: ContractCall) -> bool {
    match c {
        ContractCall::ReportCarrierLocation { carrier_id, system, body_name, timestamp } => {
            &&& e.spec_get("MarketID"@).spec_as_u64() == Some(carrier_id)
            &&& e.spec_get("StarSystem"@).spec_as_str() == Some(system@)
            &&& body_name@ == "Unkown"@
            &&& ts == Some(timestamp)
        },
        _ => false,
    }
}

/// The location report of a `Docked` event can be made.
pub open spec fn location_ready(e: Json, ts: Option<i64>) -> bool {
    &&& e.spec_get("MarketID"@).spec_as_u64() is Some
    &&& e.spec_get("StarSystem"@).spec_as_str() is Some
    &&& ts is Some
}

/// `c` registers the station that `Docked` event `e` reports.
pub open spec fn is_station_call(e: Json, services: Seq<char>, ts: Option<i64>, c: ContractCall) -> bool {
    match c {
        ContractCall::RegisterStation {
            market_id,
            name,
            station_type,
            system_address,
            system,
            faction,
            government,
            economy,
            services: listed,
            distance,
            landing_pads,
            timestamp,
        } => {
            &&& e.spec_get("MarketID"@).spec_as_u64() == Some(market_id)
            &&& e.spec_get("StationName"@).spec_as_str() == Some(name@)
            &&& e.spec_get("StationType"@).spec_as_str() == Some(station_type@)
            &&& e.spec_get("SystemAddress"@).spec_as_u64() == Some(system_address)
            &&& e.spec_get("StarSystem"@).spec_as_str() == Some(system@)
            &&& e.spec_get("StationFaction"@).spec_get("Name"@).spec_as_str() == Some(faction.name@)
            &&& faction.state@ == match e.spec_get("StationFaction"@).spec_get(
                "FactionState"@,
            ).spec_as_str() {
                Some(s) => s,
                None => Seq::<char>::empty(),
            }
            &&& e.spec_get("StationGovernment"@).spec_as_str() == Some(government@)
            &&& e.spec_get("StationEconomy"@).spec_as_str() == Some(economy@)
            &&& listed@ == services
            &&& strict_floating(e.spec_get("DistFromStarLS"@)) == Some(distance)
            &&& landing_pads@ == e.spec_get("LandingPads"@).spec_text()
            &&& ts == Some(timestamp)
        },
        _ => false,
    }
}

/// The station registration of a `Docked` event can be made.
pub open spec fn station_ready(e: Json, ts: Option<i64>) -> bool {
    &&& e.spec_get("MarketID"@).spec_as_u64() is Some
    &&& e.spec_get("StationName"@).spec_as_str() is Some
    &&& e.spec_get("StationType"@).spec_as_str() is Some
    &&& e.spec_get("SystemAddress"@).spec_as_u64() is Some
    &&& e.spec_get("StarSystem"@).spec_as_str() is Some
    &&& e.spec_get("StationFaction"@).spec_get("Name"@).spec_as_str() is Some
    &&& e.spec_get("StationGovernment"@).spec_as_str() is Some
    &&& e.spec_get("StationEconomy"@).spec_as_str() is Some
    &&& strict_floating(e.spec_get("DistFromStarLS"@)) is Some
    &&& ts is Some
}

fn owned(s: &str) -> (r: String)
    ensures
        r@ == s@,
{
    s.to_owned()
}

/// A string member of an event, copied.
fn string_member(e: &Json, key: &str) -> (r: Option<String>)
    requires
        e.wf(),
    ensures
        match r {
            Some(s) => e.spec_get(key@).spec_as_str() == Some(s@),
            None => e.spec_get(key@).spec_as_str() is None,
        },
{
    match e.get(key).as_str() {
        Some(s) => Some(owned(s)),
        None => None,
    }
}

/// The `register_carrier` call of a fleet carrier's `Docked` event.
pub fn docked_carrier_call(e: &Json, services: &str, ts: Option<i64>) -> (r: Option<ContractCall>)
    requires
        e.wf(),
    ensures
        match r {
            Some(c) => is_docked_carrier_call(*e, services@, ts, c),
            None => !docked_carrier_ready(*e, ts),
        },
{
    let carrier_id = match e.get("MarketID").as_u64() {
        Some(v) => v,
        None => return None,
    };
    let callsign = match string_member(e, "StationName") {
        Some(v) => v,
        None => return None,
    };
    let timestamp = match ts {
        Some(t) => t,
        None => return None,
    };
    let name = String::from_str("Fleet Carrier");
    let docking_access = String::new();
    Some(ContractCall::RegisterCarrier {
        carrier_id,
        name,
        callsign,
        services: owned(services),
        docking_access,
        allow_notorious: false,
        timestamp,
    })
}

/// The `report_carrier_location` call of a fleet carrier's `Docked` event.
pub fn location_call(e: &Json, ts: Option<i64>) -> (r: Option<ContractCall>)
    requires
        e.wf(),
    ensures
        match r {
            Some(c) => is_location_call(*e, ts, c),
            None => !location_ready(*e, ts),
        },
{
    let carrier_id = match e.get("MarketID").as_u64() {
        Some(v) => v,
        None => return None,
    };
    let system = match string_member(e, "StarSystem") {
        Some(v) => v,
        None => return None,
    };
    let timestamp = match ts {
        Some(t) => t,
        None => return None,
    };
    Some(ContractCall::ReportCarrierLocation {
        carrier_id,
        system,
        body_name: String::from_str("Unkown"),
        timestamp,
    })
}

/// The `register_station` call of a station's `Docked` event.
pub fn station_call(e: &Json, services: &str, ts: Option<i64>) -> (r: Option<ContractCall>)
    requires
        e.wf(),
    ensures
        match r {
            Some(c) => is_station_call(*e, services@, ts, c),
            None => !station_ready(*e, ts),
        },
{
    let market_id = match e.get("MarketID").as_u64() {
        Some(v) => v,
        None => return None,
    };
    let name = match string_member(e, "StationName") {
        Some(v) => v,
        None => return None,
    };
    let station_type = match string_member(e, "StationType") {
        Some(v) => v,
        None => return None,
    };
    let system_address = match e.get("SystemAddress").as_u64() {
        Some(v) => v,
        None => return None,
    };
    let system = match string_member(e, "StarSystem") {
        Some(v) => v,
        None => return None,
    };
    let faction_name = match string_member(e.get("StationFaction"), "Name") {
        Some(v) => v,
        None => return None,
    };
    let faction_state = match string_member(e.get("StationFaction"), "FactionState") {
        Some(v) => v,
        None => String::new(),
    };
    let government = match string_member(e, "StationGovernment") {
        Some(v) => v,
        None => return None,
    };
    let economy = match string_member(e, "StationEconomy") {
        Some(v) => v,
        None => return None,
    };
    let distance = match strict_floating_of(e.get("DistFromStarLS")) {
        Some(f) => f,
        None => return None,
    };
    let timestamp = match ts {
        Some(t) => t,
        None => return None,
    };
    Some(ContractCall::RegisterStation {
        market_id,
        name,
        station_type,
        system_address,
        system,
        faction: Faction { name: faction_name, state: faction_state },
        government,
        economy,
        services: owned(services),
        distance,
        landing_pads: e.get("LandingPads").text(),
        timestamp,
    })
}

/// The plan of a `Docked` event: a fleet carrier is registered and its
/// location reported, any other station is registered.
pub open spec fn docked_plan(e: Json, p: EventPlan) -> bool {
    let ts = timestamp_of(e, "timestamp"@);
    match station_services(e) {
        None => stopped_empty(p),
        Some(services) => match e.spec_get("StationType"@).spec_as_str() {
            None => stopped_empty(p),
            Some(station_type) => if station_type == "FleetCarrier"@ {
                if !docked_carrier_ready(e, ts) {
                    stopped_empty(p)
                } else if location_ready(e, ts) {
                    &&& p.calls.len() == 2
                    &&& is_docked_carrier_call(e, services, ts, p.calls@[0])
                    &&& is_location_call(e, ts, p.calls@[1])
                    &&& p.complete
                } else {
                    &&& p.calls.len() == 1
                    &&& is_docked_carrier_call(e, services, ts, p.calls@[0])
                    &&& !p.complete
                }
            } else if station_ready(e, ts) {
                single(p, |c: ContractCall| is_station_call(e, services, ts, c))
            } else {
                stopped_empty(p)
            },
        },
    }
}

/// What a `Docked` event gives.
pub fn process_docked(e: &Json) -> (p: EventPlan)
    requires
        e.wf(),
    ensures
        docked_plan(*e, p),
{
    let services = match join_station_services(e) {
        Some(s) => s,
        None => return stopped(),
    };
    let station_type = match e.get("StationType").as_str() {
        Some(t) => t,
        None => return stopped(),
    };
    let ts = event_timestamp(e, "timestamp");
    if text_eq(station_type, "FleetCarrier") {
        let first = match docked_carrier_call(e, services.as_str(), ts) {
            Some(c) => c,
            None => return stopped(),
        };
        let mut calls = Vec::new();
        calls.push(first);
        match location_call(e, ts) {
            Some(c) => {
                calls.push(c);
                EventPlan { calls, complete: true }
            },
            None => EventPlan { calls, complete: false },
        }
    } else {
        match station_call(e, services.as_str(), ts) {
            Some(c) => just(c),
            None => stopped(),
        }
    }
}


// ---------------------------------------------------------------- carriers

/// `c` announces the jump that `CarrierJumpRequest` event `e` requests.
pub open spec fn is_jump_request_call(e: Json, departure: Option<i64>, c: ContractCall) -> bool {
    match c {
        ContractCall::EmitCarrierJump { carrier_id, system, body_name, departure: d } => {
            &&& e.spec_get("CarrierID"@).spec_as_u64() == Some(carrier_id)
            &&& e.spec_get("SystemName"@).spec_as_str() == Some(system@)
            &&& e.spec_get("Body"@).spec_as_str() == Some(body_name@)
            &&& departure == Some(d)
        },
        _ => false,
    }
}

/// The jump announcement of a `CarrierJumpRequest` event can be made.
pub open spec fn jump_request_ready(e: Json, departure: Option<i64>) -> bool {
    &&& e.spec_get("CarrierID"@).spec_as_u64() is Some
    &&& e.spec_get("SystemName"@).spec_as_str() is Some
    &&& e.spec_get("Body"@).spec_as_str() is Some
    &&& departure is Some
}

/// The `emit_carrier_jump` call of a `CarrierJumpRequest` event, given its departure time.
pub fn jump_request_call(e: &Json, departure: Option<i64>) -> (r: Option<ContractCall>)
    requires
        e.wf(),
    ensures
        match r {
            Some(c) => is_jump_request_call(*e, departure, c),
            None => !jump_request_ready(*e, departure),
        },
{
    let carrier_id = match e.get("CarrierID").as_u64() {
        Some(v) => v,
        None => return None,
    };
    let system = match string_member(e, "SystemName") {
        Some(v) => v,
        None => return None,
    };
    let body_name = match string_member(e, "Body") {
        Some(v) => v,
        None => return None,
    };
    match departure {
        Some(d) => Some(ContractCall::EmitCarrierJump { carrier_id, system, body_name, departure: d }),
        None => None,
    }
}

/// `c` registers a carrier bought in `CarrierBuy` event `e`.
pub open spec fn is_carrier_buy_call(e: Json, ts: Option<i64>, c: ContractCall) -> bool {
    match c {
        ContractCall::RegisterCarrier {
            carrier_id,
            name,
            callsign,
            services,
            docking_access,
            allow_notorious,
            timestamp,
        } => {
            &&& e.spec_get("CarrierID"@).spec_as_u64() == Some(carrier_id)
            &&& name@ == "Fleet Carrier"@
            &&& e.spec_get("Callsign"@).spec_as_str() == Some(callsign@)
            &&& services@.len() == 0
            &&& docking_access@.len() == 0
            &&& !allow_notorious
            &&& ts == Some(timestamp)
        },
        _ => false,
    }
}

/// The registration of a bought carrier can be made.
pub open spec fn carrier_buy_ready(e: Json, ts: Option<i64>) -> bool {
    &&& e.spec_get("CarrierID"@).spec_as_u64() is Some
    &&& e.spec_get("Callsign"@).spec_as_str() is Some
    &&& ts is Some
}

/// The `register_carrier` call of a `CarrierBuy` event.
pub fn carrier_buy_call(e: &Json, ts: Option<i64>) -> (r: Option<ContractCall>)
    requires
        e.wf(),
    ensures
        match r {
            Some(c) => is_carrier_buy_call(*e, ts, c),
            None => !carrier_buy_ready(*e, ts),
        },
{
    let carrier_id = match e.get("CarrierID").as_u64() {
        Some(v) => v,
        None => return None,
    };
    let callsign = match string_member(e, "Callsign") {
        Some(v) => v,
        None => return None,
    };
    let timestamp = match ts {
        Some(t) => t,
        None => return None,
    };
    Some(ContractCall::RegisterCarrier {
        carrier_id,
        name: String::from_str("Fleet Carrier"),
        callsign,
        services: String::new(),
        docking_access: String::new(),
        allow_notorious: false,
        timestamp,
    })
}

/// The roles of the first `n` crew entries that are activated, joined with commas.
pub open spec fn active_roles(crew: Json, n: int) -> Seq<char>
    decreases n,
{
    if n <= 0 {
        Seq::<char>::empty()
    } else {
        let acc = active_roles(crew, n - 1);
        let member = crew.spec_at(n - 1);
        if flag_or_false(member, "Activated"@) {
            comma_append(acc, member.spec_get("CrewRole"@).spec_text())
        } else {
            acc
        }
    }
}

/// The crew services of a `CarrierStats` event.
pub open spec fn carrier_services(e: Json) -> Seq<char> {
    active_roles(e.spec_get("Crew"@), e.spec_get("Crew"@).spec_len())
}

/// Joins the roles of the activated crew of a `CarrierStats` event.
pub fn join_active_crew(e: &Json) -> (r: String)
    requires
        e.wf(),
    ensures
        r@ == carrier_services(*e),
{
    let crew = e.get("Crew");
    let n = crew.len();
    let mut services = String::new();
    let mut i: usize = 0;
    while i < n
        invariant
            i <= n,
            n == crew.spec_len(),
            *crew == e.spec_get("Crew"@),
            crew.wf(),
            active_roles(*crew, i as int) == services@,
        decreases n - i,
    {
        let member = crew.at(i);
        let active = match member.get("Activated").as_bool() {
            Some(b) => b,
            None => false,
        };
        if active {
            let role = member.get("CrewRole").text();
            push_listed(&mut services, role.as_str());
        }
        i = i + 1;
    }
    services
}

/// `c` registers the carrier that `CarrierStats` event `e` describes.
pub open spec fn is_carrier_stats_call(e: Json, ts: Option<i64>, c: ContractCall) -> bool {
    match c {
        ContractCall::RegisterCarrier {
            carrier_id,
            name,
            callsign,
            services,
            docking_access,
            allow_notorious,
            timestamp,
        } => {
            &&& e.spec_get("CarrierID"@).spec_as_u64() == Some(carrier_id)
            &&& e.spec_get("Name"@).spec_as_str() == Some(name@)
            &&& e.spec_get("Callsign"@).spec_as_str() == Some(callsign@)
            &&& services@ == carrier_services(e)
            &&& e.spec_get("DockingAccess"@).spec_as_str() == Some(docking_access@)
            &&& e.spec_get("AllowNotorious"@).spec_as_bool() == Some(allow_notorious)
            &&& ts == Some(timestamp)
        },
        _ => false,
    }
}

/// The registration of a carrier from its statistics can be made.
pub open spec fn carrier_stats_ready(e: Json, ts: Option<i64>) -> bool {
    &&& e.spec_get("CarrierID"@).spec_as_u64() is Some
    &&& e.spec_get("Name"@).spec_as_str() is Some
    &&& e.spec_get("Callsign"@).spec_as_str() is Some
    &&& e.spec_get("DockingAccess"@).spec_as_str() is Some
    &&& e.spec_get("AllowNotorious"@).spec_as_bool() is Some
    &&& ts is Some
}

/// The `register_carrier` call of a `CarrierStats` event.
pub fn carrier_stats_call(e: &Json, ts: Option<i64>) -> (r: Option<ContractCall>)
    requires
        e.wf(),
    ensures
        match r {
            Some(c) => is_carrier_stats_call(*e, ts, c),
            None => !carrier_stats_ready(*e, ts),
        },
{
    let services = join_active_crew(e);
    let carrier_id = match e.get("CarrierID").as_u64() {
        Some(v) => v,
        None => return None,
    };
    let name = match string_member(e, "Name") {
        Some(v) => v,
        None => return None,
    };
    let callsign = match string_member(e, "Callsign") {
        Some(v) => v,
        None => return None,
    };
    let docking_access = match string_member(e, "DockingAccess") {
        Some(v) => v,
        None => return None,
    };
    let allow_notorious = match e.get("AllowNotorious").as_bool() {
        Some(v) => v,
        None => return None,
    };
    let timestamp = match ts {
        Some(t) => t,
        None => return None,
    };
    Some(ContractCall::RegisterCarrier {
        carrier_id,
        name,
        callsign,
        services,
        docking_access,
        allow_notorious,
        timestamp,
    })
}

// ---------------------------------------------------------------- markets

/// The prices and quantities of one commodity, 0 where one is missing.
pub open spec fn listening_of(item: Json) -> CommodityListening {
    CommodityListening {
        buy_price: u32_or_zero(item, "buyPrice"@),
        sell_price: u32_or_zero(item, "sellPrice"@),
        mean_price: u32_or_zero(item, "meanPrice"@),
        stock: u32_or_zero(item, "stock"@),
        demand: u32_or_zero(item, "demand"@),
        stock_bracket: u32_or_zero(item, "stockBracket"@),
        demand_bracket: u32_or_zero(item, "demandBracket"@),
    }
}

/// `c` lists commodity `item` in market `market_id`, under its name in lower case.
pub open spec fn is_commodity_call(market_id: u64, item: Json, c: ContractCall) -> bool {
    match c {
        ContractCall::RegisterCommodityListening { market_id: m, name, listening } => {
            &&& m == market_id
            &&& item.spec_get("name"@).spec_as_str() is Some
            &&& name@ == lower_all(item.spec_get("name"@).spec_as_str()->0)
            &&& listening == listening_of(item)
        },
        _ => false,
    }
}

/// The `register_commodity_listening` call of one commodity; `None` where it has no name.
pub fn commodity_call(market_id: u64, item: &Json) -> (r: Option<ContractCall>)
    requires
        item.wf(),
    ensures
        match r {
            Some(c) => is_commodity_call(market_id, *item, c),
            None => item.spec_get("name"@).spec_as_str() is None,
        },
{
    let name = match item.get("name").as_str() {
        Some(n) => to_ascii_lowercase(n),
        None => return None,
    };
    let listening = CommodityListening {
        buy_price: match item.get("buyPrice").as_u32() {
            Some(v) => v,
            None => 0,
        },
        sell_price: match item.get("sellPrice").as_u32() {
            Some(v) => v,
            None => 0,
        },
        mean_price: match item.get("meanPrice").as_u32() {
            Some(v) => v,
            None => 0,
        },
        stock: match item.get("stock").as_u32() {
            Some(v) => v,
            None => 0,
        },
        demand: match item.get("demand").as_u32() {
            Some(v) => v,
            None => 0,
        },
        stock_bracket: match item.get("stockBracket").as_u32() {
            Some(v) => v,
            None => 0,
        },
        demand_bracket: match item.get("demandBracket").as_u32() {
            Some(v) => v,
            None => 0,
        },
    };
    Some(ContractCall::RegisterCommodityListening { market_id, name, listening })
}

/// The plan of a market message: one listing per commodity, in order, up to
/// the first commodity without a name.
pub open spec fn market_plan(e: Json, p: EventPlan) -> bool {
    let list = e.spec_get("commodities"@);
    if list.spec_is_empty() {
        p.calls.len() == 0 && p.complete
    } else {
        match e.spec_get("marketId"@).spec_as_u64() {
            None => stopped_empty(p),
            Some(market_id) => {
                &&& p.calls.len() <= list.spec_len()
                &&& forall|j: int|
                    0 <= j < p.calls.len() ==> is_commodity_call(
                        market_id,
                        list.spec_at(j),
                        #[trigger] p.calls@[j],
                    )
                &&& p.complete == (p.calls.len() == list.spec_len())
                &&& p.calls.len() < list.spec_len() ==> list.spec_at(
                    p.calls.len() as int,
                ).spec_get("name"@).spec_as_str() is None
            },
        }
    }
}

/// What a market message gives.
pub fn process_market(e: &Json) -> (p: EventPlan)
    requires
        e.wf(),
    ensures
        market_plan(*e, p),
{
    let list = e.get("commodities");
    if list.is_empty() {
        return EventPlan { calls: Vec::new(), complete: true };
    }
    let market_id = match e.get("marketId").as_u64() {
        Some(m) => m,
        None => return stopped(),
    };
    let n = list.len();
    let mut calls: Vec<ContractCall> = Vec::new();
    let mut i: usize = 0;
    while i < n
        invariant
            i <= n,
            n == list.spec_len(),
            *list == e.spec_get("commodities"@),
            list.wf(),
            !list.spec_is_empty(),
            e.spec_get("marketId"@).spec_as_u64() == Some(market_id),
            calls.len() == i,
            forall|j: int|
                0 <= j < i ==> is_commodity_call(market_id, list.spec_at(j), #[trigger] calls@[j]),
        decreases n - i,
    {
        match commodity_call(market_id, list.at(i)) {
            Some(c) => calls.push(c),
            None => return EventPlan { calls, complete: false },
        }
        i = i + 1;
    }
    EventPlan { calls, complete: true }
}


// ---------------------------------------------------------------- events

/// How the relay treats an event, by its name.
#[derive(Debug, PartialEq, Eq, Clone, Copy)]
pub enum EventKind {
    /// An event that the relay knows and records nothing of.
    Quiet,
    /// `FSDJump` and `CarrierJump`: the system is registered.
    Jump,
    Scan,
    Docked,
    CarrierJumpRequest,
    CarrierJumpCancelled,
    CarrierBuy,
    CarrierStats,
    /// Any other name (market messages have none): commodities are listed.
    Market,
}

/// The names of the events that the relay knows and records nothing of.
pub open spec fn is_quiet_event(name: Seq<char>) -> bool {
    ||| name == "Location"@
    ||| name == "SupercruiseEntry"@
    ||| name == "SupercruiseExit"@
    ||| name == "StartJump"@
    ||| name == "FSDTarget"@
    ||| name == "NavRoute"@
    ||| name == "NavRouteClear"@
    ||| name == "ApproachSettlement"@
    ||| name == "ApproachBody"@
    ||| name == "LeaveBody"@
    ||| name == "Liftoff"@
    ||| name == "Touchdown"@
    ||| name == "Embark"@
    ||| name == "Disembark"@
    ||| name == "DiscoveryScan"@
    ||| name == "FSSAllBodiesFound"@
    ||| name == "FSSDiscoveryScan"@
    ||| name == "FSSBodySignals"@
    ||| name == "SAASignalsFound"@
    ||| name == "FSSSignalDiscovered"@
    ||| name == "SAAScanComplete"@
    ||| name == "ScanBaryCentre"@
    ||| name == "RefuelAll"@
    ||| name == "Resupply"@
    ||| name == "Repair"@
    ||| name == "BuyDrones"@
    ||| name == "SellDrones"@
    ||| name == "BuyAmmo"@
    ||| name == "ReservoirReplenished"@
    ||| name == "RepairAll"@
    ||| name == "RebootRepair"@
    ||| name == "RestockVehicle"@
    ||| name == "DockingRequested"@
    ||| name == "DockingGranted"@
    ||| name == "Undocked"@
    ||| name == "EngineerProgress"@
    ||| name == "EngineerCraft"@
    ||| name == "EngineerContribution"@
    ||| name == "Shipyard"@
    ||| name == "StoredShips"@
    ||| name == "ShipyardSwap"@
    ||| name == "ShipLocker"@
    ||| name == "ModuleBuy"@
    ||| name == "Outfitting"@
    ||| name == "ModuleInfo"@
    ||| name == "StoredModules"@
    ||| name == "DockingCancelled"@
    ||| name == "ShipyardBuy"@
    ||| name == "ShipyardNew"@
    ||| name == "ShipyardTransfer"@
    ||| name == "ModuleStore"@
    ||| name == "ModuleSell"@
    ||| name == "ModuleSellRemote"@
    ||| name == "ModuleSwap"@
    ||| name == "Backpack"@
    ||| name == "BackpackChange"@
    ||| name == "CollectItems"@
    ||| name == "UpgradeSuit"@
    ||| name == "Loadout"@
    ||| name == "LoadoutEquipModule"@
    ||| name == "SuitLoadout"@
    ||| name == "UseConsumable"@
    ||| name == "ScanOrganic"@
    ||| name == "MarketBuy"@
    ||| name == "Market"@
    ||| name == "MarketSell"@
    ||| name == "LaunchSRV"@
    ||| name == "DockSRV"@
    ||| name == "ShipTargeted"@
    ||| name == "UnderAttack"@
    ||| name == "ShieldState"@
    ||| name == "HullDamage"@
    ||| name == "Materials"@
    ||| name == "Cargo"@
    ||| name == "MaterialCollected"@
    ||| name == "Synthesis"@
    ||| name == "EjectCargo"@
    ||| name == "DropItems"@
    ||| name == "LaunchDrone"@
    ||| name == "MiningRefined"@
    ||| name == "ProspectedAsteroid"@
    ||| name == "CargoTransfer"@
    ||| name == "CollectCargo"@
    ||| name == "Missions"@
    ||| name == "MissionAccepted"@
    ||| name == "MissionRedirected"@
    ||| name == "MissionCompleted"@
    ||| name == "RedeemVoucher"@
    ||| name == "Bounty"@
    ||| name == "NpcCrewPaidWage"@
    ||| name == "PayFines"@
    ||| name == "MissionAbandoned"@
    ||| name == "MissionFailed"@
    ||| name == "PayBounties"@
    ||| name == "SellOrganicData"@
    ||| name == "CarrierDecommission"@
    ||| name == "CarrierTradeOrder"@
    ||| name == "CarrierFinance"@
    ||| name == "CarrierDepositFuel"@
    ||| name == "CarrierDockingPermission"@
    ||| name == "CarrierCrewServices"@
    ||| name == "CarrierModulePack"@
    ||| name == "CarrierBankTransfer"@
    ||| name == "BookDropship"@
    ||| name == "DropshipDeploy"@
    ||| name == "WingInvite"@
    ||| name == "WingJoin"@
    ||| name == "WingAdd"@
    ||| name == "WingLeave"@
    ||| name == "CrewMemberQuits"@
    ||| name == "CrewMemberRoleChange"@
    ||| name == "CrewMemberJoins"@
    ||| name == "EndCrewSession"@
    ||| name == "SellMicroResources"@
    ||| name == "TradeMicroResources"@
    ||| name == "FuelScoop"@
    ||| name == "ReceiveText"@
    ||| name == "Friends"@
    ||| name == "Scanned"@
    ||| name == "LoadGame"@
    ||| name == "SquadronStartup"@
    ||| name == "Music"@
    ||| name == "CodexEntry"@
    ||| name == "Rank"@
    ||| name == "Progress"@
    ||| name == "Reputation"@
    ||| name == "Statistics"@
    ||| name == "Commander"@
    ||| name == "PowerplaySalary"@
    ||| name == "Powerplay"@
    ||| name == "CommitCrime"@
    ||| name == "DockingDenied"@
    ||| name == "HeatWarning"@
    ||| name == "FactionKillBond"@
    ||| name == "MultiSellExplorationData"@
    ||| name == "SwitchSuitLoadout"@
    ||| name == "MaterialTrade"@
    ||| name == "CommunityGoal"@
    ||| name == "ModuleRetrieve"@
    ||| name == "FetchRemoteModule"@
    ||| name == "SendText"@
    ||| name == "SearchAndRescue"@
    ||| name == "HeatDamage"@
    ||| name == "CommunityGoalReward"@
    ||| name == "NavBeaconScan"@
    ||| name == "USSDrop"@
    ||| name == "Interdicted"@
    ||| name == "Promotion"@
    ||| name == "RepairDrone"@
    ||| name == "DataScanned"@
    ||| name == "DatalinkScan"@
    ||| name == "DatalinkVoucher"@
    ||| name == "CockpitBreached"@
    ||| name == "SystemsShutdown"@
    ||| name == "Screenshot"@
    ||| name == "UpgradeWeapon"@
    ||| name == "PowerplayFastTrack"@
    ||| name == "PowerplayCollect"@
    ||| name == "PowerplayDeliver"@
    ||| name == "BookTaxi"@
    ||| name == "SharedBookmarkToSquadron"@
    ||| name == "MaterialDiscovered"@
    ||| name == "SetUserShipName"@
    ||| name == "FCMaterials"@
    ||| name == "CommunityGoalJoin"@
    ||| name == "SupercruiseDestinationDrop"@
    ||| name == "JetConeBoost"@
    ||| name == "AsteroidCracked"@
    ||| name == "EscapeInterdiction"@
    ||| name == "TechnologyBroker"@
    ||| name == "NavBeaconDetail"@
    ||| name == "Died"@
    ||| name == "Resurrect"@
    ||| name == "SelfDestruct"@
    ||| name == "Fileheader"@
    ||| name == "Shutdown"@
}

/// How an event named `name` is treated.
pub open spec fn event_kind(name: Seq<char>) -> EventKind {
    if name == "FSDJump"@ || name == "CarrierJump"@ {
        EventKind::Jump
    } else if name == "Scan"@ {
        EventKind::Scan
    } else if name == "Docked"@ {
        EventKind::Docked
    } else if name == "CarrierJumpRequest"@ {
        EventKind::CarrierJumpRequest
    } else if name == "CarrierJumpCancelled"@ {
        EventKind::CarrierJumpCancelled
    } else if name == "CarrierBuy"@ {
        EventKind::CarrierBuy
    } else if name == "CarrierStats"@ {
        EventKind::CarrierStats
    } else if is_quiet_event(name) {
        EventKind::Quiet
    } else {
        EventKind::Market
    }
}

fn quiet_event(name: &str) -> (r: bool)
    ensures
        r == is_quiet_event(name@),
{
        text_eq(name, "Location") ||
        text_eq(name, "SupercruiseEntry") ||
        text_eq(name, "SupercruiseExit") ||
        text_eq(name, "StartJump") ||
        text_eq(name, "FSDTarget") ||
        text_eq(name, "NavRoute") ||
        text_eq(name, "NavRouteClear") ||
        text_eq(name, "ApproachSettlement") ||
        text_eq(name, "ApproachBody") ||
        text_eq(name, "LeaveBody") ||
        text_eq(name, "Liftoff") ||
        text_eq(name, "Touchdown") ||
        text_eq(name, "Embark") ||
        text_eq(name, "Disembark") ||
        text_eq(name, "DiscoveryScan") ||
        text_eq(name, "FSSAllBodiesFound") ||
        text_eq(name, "FSSDiscoveryScan") ||
        text_eq(name, "FSSBodySignals") ||
        text_eq(name, "SAASignalsFound") ||
        text_eq(name, "FSSSignalDiscovered") ||
        text_eq(name, "SAAScanComplete") ||
        text_eq(name, "ScanBaryCentre") ||
        text_eq(name, "RefuelAll") ||
        text_eq(name, "Resupply") ||
        text_eq(name, "Repair") ||
        text_eq(name, "BuyDrones") ||
        text_eq(name, "SellDrones") ||
        text_eq(name, "BuyAmmo") ||
        text_eq(name, "ReservoirReplenished") ||
        text_eq(name, "RepairAll") ||
        text_eq(name, "RebootRepair") ||
        text_eq(name, "RestockVehicle") ||
        text_eq(name, "DockingRequested") ||
        text_eq(name, "DockingGranted") ||
        text_eq(name, "Undocked") ||
        text_eq(name, "EngineerProgress") ||
        text_eq(name, "EngineerCraft") ||
        text_eq(name, "EngineerContribution") ||
        text_eq(name, "Shipyard") ||
        text_eq(name, "StoredShips") ||
        text_eq(name, "ShipyardSwap") ||
        text_eq(name, "ShipLocker") ||
        text_eq(name, "ModuleBuy") ||
        text_eq(name, "Outfitting") ||
        text_eq(name, "ModuleInfo") ||
        text_eq(name, "StoredModules") ||
        text_eq(name, "DockingCancelled") ||
        text_eq(name, "ShipyardBuy") ||
        text_eq(name, "ShipyardNew") ||
        text_eq(name, "ShipyardTransfer") ||
        text_eq(name, "ModuleStore") ||
        text_eq(name, "ModuleSell") ||
        text_eq(name, "ModuleSellRemote") ||
        text_eq(name, "ModuleSwap") ||
        text_eq(name, "Backpack") ||
        text_eq(name, "BackpackChange") ||
        text_eq(name, "CollectItems") ||
        text_eq(name, "UpgradeSuit") ||
        text_eq(name, "Loadout") ||
        text_eq(name, "LoadoutEquipModule") ||
        text_eq(name, "SuitLoadout") ||
        text_eq(name, "UseConsumable") ||
        text_eq(name, "ScanOrganic") ||
        text_eq(name, "MarketBuy") ||
        text_eq(name, "Market") ||
        text_eq(name, "MarketSell") ||
        text_eq(name, "LaunchSRV") ||
        text_eq(name, "DockSRV") ||
        text_eq(name, "ShipTargeted") ||
        text_eq(name, "UnderAttack") ||
        text_eq(name, "ShieldState") ||
        text_eq(name, "HullDamage") ||
        text_eq(name, "Materials") ||
        text_eq(name, "Cargo") ||
        text_eq(name, "MaterialCollected") ||
        text_eq(name, "Synthesis") ||
        text_eq(name, "EjectCargo") ||
        text_eq(name, "DropItems") ||
        text_eq(name, "LaunchDrone") ||
        text_eq(name, "MiningRefined") ||
        text_eq(name, "ProspectedAsteroid") ||
        text_eq(name, "CargoTransfer") ||
        text_eq(name, "CollectCargo") ||
        text_eq(name, "Missions") ||
        text_eq(name, "MissionAccepted") ||
        text_eq(name, "MissionRedirected") ||
        text_eq(name, "MissionCompleted") ||
        text_eq(name, "RedeemVoucher") ||
        text_eq(name, "Bounty") ||
        text_eq(name, "NpcCrewPaidWage") ||
        text_eq(name, "PayFines") ||
        text_eq(name, "MissionAbandoned") ||
        text_eq(name, "MissionFailed") ||
        text_eq(name, "PayBounties") ||
        text_eq(name, "SellOrganicData") ||
        text_eq(name, "CarrierDecommission") ||
        text_eq(name, "CarrierTradeOrder") ||
        text_eq(name, "CarrierFinance") ||
        text_eq(name, "CarrierDepositFuel") ||
        text_eq(name, "CarrierDockingPermission") ||
        text_eq(name, "CarrierCrewServices") ||
        text_eq(name, "CarrierModulePack") ||
        text_eq(name, "CarrierBankTransfer") ||
        text_eq(name, "BookDropship") ||
        text_eq(name, "DropshipDeploy") ||
        text_eq(name, "WingInvite") ||
        text_eq(name, "WingJoin") ||
        text_eq(name, "WingAdd") ||
        text_eq(name, "WingLeave") ||
        text_eq(name, "CrewMemberQuits") ||
        text_eq(name, "CrewMemberRoleChange") ||
        text_eq(name, "CrewMemberJoins") ||
        text_eq(name, "EndCrewSession") ||
        text_eq(name, "SellMicroResources") ||
        text_eq(name, "TradeMicroResources") ||
        text_eq(name, "FuelScoop") ||
        text_eq(name, "ReceiveText") ||
        text_eq(name, "Friends") ||
        text_eq(name, "Scanned") ||
        text_eq(name, "LoadGame") ||
        text_eq(name, "SquadronStartup") ||
        text_eq(name, "Music") ||
        text_eq(name, "CodexEntry") ||
        text_eq(name, "Rank") ||
        text_eq(name, "Progress") ||
        text_eq(name, "Reputation") ||
        text_eq(name, "Statistics") ||
        text_eq(name, "Commander") ||
        text_eq(name, "PowerplaySalary") ||
        text_eq(name, "Powerplay") ||
        text_eq(name, "CommitCrime") ||
        text_eq(name, "DockingDenied") ||
        text_eq(name, "HeatWarning") ||
        text_eq(name, "FactionKillBond") ||
        text_eq(name, "MultiSellExplorationData") ||
        text_eq(name, "SwitchSuitLoadout") ||
        text_eq(name, "MaterialTrade") ||
        text_eq(name, "CommunityGoal") ||
        text_eq(name, "ModuleRetrieve") ||
        text_eq(name, "FetchRemoteModule") ||
        text_eq(name, "SendText") ||
        text_eq(name, "SearchAndRescue") ||
        text_eq(name, "HeatDamage") ||
        text_eq(name, "CommunityGoalReward") ||
        text_eq(name, "NavBeaconScan") ||
        text_eq(name, "USSDrop") ||
        text_eq(name, "Interdicted") ||
        text_eq(name, "Promotion") ||
        text_eq(name, "RepairDrone") ||
        text_eq(name, "DataScanned") ||
        text_eq(name, "DatalinkScan") ||
        text_eq(name, "DatalinkVoucher") ||
        text_eq(name, "CockpitBreached") ||
        text_eq(name, "SystemsShutdown") ||
        text_eq(name, "Screenshot") ||
        text_eq(name, "UpgradeWeapon") ||
        text_eq(name, "PowerplayFastTrack") ||
        text_eq(name, "PowerplayCollect") ||
        text_eq(name, "PowerplayDeliver") ||
        text_eq(name, "BookTaxi") ||
        text_eq(name, "SharedBookmarkToSquadron") ||
        text_eq(name, "MaterialDiscovered") ||
        text_eq(name, "SetUserShipName") ||
        text_eq(name, "FCMaterials") ||
        text_eq(name, "CommunityGoalJoin") ||
        text_eq(name, "SupercruiseDestinationDrop") ||
        text_eq(name, "JetConeBoost") ||
        text_eq(name, "AsteroidCracked") ||
        text_eq(name, "EscapeInterdiction") ||
        text_eq(name, "TechnologyBroker") ||
        text_eq(name, "NavBeaconDetail") ||
        text_eq(name, "Died") ||
        text_eq(name, "Resurrect") ||
        text_eq(name, "SelfDestruct") ||
        text_eq(name, "Fileheader") ||
        text_eq(name, "Shutdown")
}

/// How an event named `name` is treated.
pub fn classify_event(name: &str) -> (k: EventKind)
    ensures
        k == event_kind(name@),
{
    if text_eq(name, "FSDJump") || text_eq(name, "CarrierJump") {
        EventKind::Jump
    } else if text_eq(name, "Scan") {
        EventKind::Scan
    } else if text_eq(name, "Docked") {
        EventKind::Docked
    } else if text_eq(name, "CarrierJumpRequest") {
        EventKind::CarrierJumpRequest
    } else if text_eq(name, "CarrierJumpCancelled") {
        EventKind::CarrierJumpCancelled
    } else if text_eq(name, "CarrierBuy") {
        EventKind::CarrierBuy
    } else if text_eq(name, "CarrierStats") {
        EventKind::CarrierStats
    } else if quiet_event(name) {
        EventKind::Quiet
    } else {
        EventKind::Market
    }
}

/// The plan of a `CarrierJumpRequest` event.
pub open spec fn jump_request_plan(e: Json, p: EventPlan) -> bool {
    let departure = timestamp_of(e, "DepartureTime"@);
    if jump_request_ready(e, departure) {
        single(p, |c: ContractCall| is_jump_request_call(e, departure, c))
    } else {
        stopped_empty(p)
    }
}

/// The plan of a `CarrierJumpCancelled` event.
pub open spec fn jump_cancel_plan(e: Json, p: EventPlan) -> bool {
    match e.spec_get("CarrierID"@).spec_as_u64() {
        Some(id) => single(p, |c: ContractCall| c == ContractCall::CancelCarrierJump { carrier_id: id }),
        None => stopped_empty(p),
    }
}

/// The plan of a `CarrierBuy` event.
pub open spec fn carrier_buy_plan(e: Json, p: EventPlan) -> bool {
    let ts = timestamp_of(e, "timestamp"@);
    if carrier_buy_ready(e, ts) {
        single(p, |c: ContractCall| is_carrier_buy_call(e, ts, c))
    } else {
        stopped_empty(p)
    }
}

/// The plan of a `CarrierStats` event.
pub open spec fn carrier_stats_plan(e: Json, p: EventPlan) -> bool {
    let ts = timestamp_of(e, "timestamp"@);
    if carrier_stats_ready(e, ts) {
        single(p, |c: ContractCall| is_carrier_stats_call(e, ts, c))
    } else {
        stopped_empty(p)
    }
}

/// The plan of journal event `e`.
pub open spec fn event_plan(e: Json, p: EventPlan) -> bool {
    match event_kind(e.spec_get("event"@).spec_text()) {
        EventKind::Quiet => p.calls.len() == 0 && p.complete,
        EventKind::Jump => jump_plan(e, p),
        EventKind::Scan => scan_plan(e, p),
        EventKind::Docked => docked_plan(e, p),
        EventKind::CarrierJumpRequest => jump_request_plan(e, p),
        EventKind::CarrierJumpCancelled => jump_cancel_plan(e, p),
        EventKind::CarrierBuy => carrier_buy_plan(e, p),
        EventKind::CarrierStats => carrier_stats_plan(e, p),
        EventKind::Market => market_plan(e, p),
    }
}

fn plan_of(call: Option<ContractCall>) -> (p: EventPlan)
    ensures
        match call {
            Some(c) => p.calls@ == seq![c] && p.complete,
            None => stopped_empty(p),
        },
{
    match call {
        Some(c) => just(c),
        None => stopped(),
    }
}

/// The contract calls that journal event `e` gives, by the name in its `event` member.
pub fn interpret_event(e: &Json) -> (p: EventPlan)
    requires
        e.wf(),
    ensures
        event_plan(*e, p),
{
    let name = e.get("event").text();
    match classify_event(name.as_str()) {
        EventKind::Quiet => EventPlan { calls: Vec::new(), complete: true },
        EventKind::Jump => process_jump(e),
        EventKind::Scan => process_scan(e),
        EventKind::Docked => process_docked(e),
        EventKind::CarrierJumpRequest => {
            let departure = event_timestamp(e, "DepartureTime");
            plan_of(jump_request_call(e, departure))
        },
        EventKind::CarrierJumpCancelled => match e.get("CarrierID").as_u64() {
            Some(id) => just(ContractCall::CancelCarrierJump { carrier_id: id }),
            None => stopped(),
        },
        EventKind::CarrierBuy => {
            let ts = event_timestamp(e, "timestamp");
            plan_of(carrier_buy_call(e, ts))
        },
        EventKind::CarrierStats => {
            let ts = event_timestamp(e, "timestamp");
            plan_of(carrier_stats_call(e, ts))
        },
        EventKind::Market => process_market(e),
    }
}

/// What an EDDN message gives: the plan of the journal event in its `message` member.
pub fn interpret_message(envelope: &Json) -> (p: EventPlan)
    requires
        envelope.wf(),
    ensures
        event_plan(envelope.spec_get("message"@), p),
{
    interpret_event(envelope.get("message"))
}

/// What the relay makes of the text of one EDDN message: `None` where it is
/// no JSON, else the plan of the journal event in its `message` member.
pub fn interpret_text(text: &str) -> (r: Option<EventPlan>)
    ensures
        match json_of_text(text@) {
            Some(j) => r matches Some(p) && event_plan(j.spec_get("message"@), p),
            None => r is None,
        },
{
    match parse_json(text) {
        Some(envelope) => Some(interpret_message(&envelope)),
        None => None,
    }
}

} // verus!
