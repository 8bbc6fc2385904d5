//! The arguments of each contract call, in the order and the shape of the
//! EDCAS contract's functions.

use vstd::prelude::*;
use crate::journal::{BodyProperties, CommodityListening, ContractCall, Faction, PlanetProperties, StarProperties};
use crate::number::Floating;

verus! {

/// An argument of a contract function.
#[derive(Debug, PartialEq)]
pub enum AbiValue {
    /// An unsigned integer.
    Uint(u64),
    /// A signed integer.
    Int(i128),
    Text(String),
    Bool(bool),
    /// A point in time, in seconds since the Unix epoch.
    Time(i64),
    /// A struct, its fields in order.
    Tuple(Vec<AbiValue>),
}

/// `v` is the text `s`.
pub open spec fn is_text(v: AbiValue, s: Seq<char>) -> bool {
    v matches AbiValue::Text(t) && t@ == s
}

/// `v` is the struct of a `Floating`: its decimal, then its floating point.
pub open spec fn is_floating(v: AbiValue, f: Floating) -> bool {
    v matches AbiValue::Tuple(items) && items@ == seq![
        AbiValue::Int(f.decimal),
        AbiValue::Uint(f.floating_point as u64),
    ]
}

/// `v` is the struct of planet properties, fields in declaration order.
pub open spec fn is_planet(v: AbiValue, p: PlanetProperties) -> bool {
    v matches AbiValue::Tuple(items) && {
        let a = items@;
        &&& a.len() == 16
        &&& is_text(a[0], p.atmosphere@)
        &&& is_text(a[1], p.class@)
        &&& a[2] == AbiValue::Bool(p.landable)
        &&& is_text(a[3], p.terraform_state@)
        &&& is_text(a[4], p.volcanism@)
        &&& a[5] == AbiValue::Bool(p.tidal_lock)
        &&& is_floating(a[6], p.mass_em)
        &&& is_floating(a[7], p.surface_gravity)
        &&& is_floating(a[8], p.surface_pressure)
        &&& is_floating(a[9], p.ascending_node)
        &&& is_floating(a[10], p.eccentricity)
        &&& is_floating(a[11], p.mean_anomaly)
        &&& is_floating(a[12], p.orbital_inclination)
        &&& is_floating(a[13], p.orbital_period)
        &&& is_floating(a[14], p.periapsis)
        &&& is_floating(a[15], p.semi_major_axis)
    }
}

/// `v` is the struct of star properties, fields in declaration order.
pub open spec fn is_star(v: AbiValue, s: StarProperties) -> bool {
    v matches AbiValue::Tuple(items) && {
        let a = items@;
        &&& a.len() == 6
        &&& a[0] == AbiValue::Uint(s.subclass as u64)
        &&& a[1] == AbiValue::Uint(s.age_my as u64)
        &&& is_text(a[2], s.type_@)
        &&& is_text(a[3], s.luminosity@)
        &&& is_floating(a[4], s.stellar_mass)
        &&& is_floating(a[5], s.absolute_magnitude)
    }
}

/// `v` is the struct of body properties, fields in declaration order.
pub open spec fn is_body(v: AbiValue, b: BodyProperties) -> bool {
    v matches AbiValue::Tuple(items) && {
        let a = items@;
        &&& a.len() == 5
        &&& is_floating(a[0], b.radius)
        &&& is_floating(a[1], b.distance_from_arrival_ls)
        &&& is_floating(a[2], b.axial_tilt)
        &&& is_floating(a[3], b.rotation_period)
        &&& is_floating(a[4], b.surface_temperature)
    }
}

/// `v` is the struct of a faction: its name, then its state.
pub open spec fn is_faction(v: AbiValue, f: Faction) -> bool {
    v matches AbiValue::Tuple(items) && items@.len() == 2 && is_text(items@[0], f.name@) && is_text(
        items@[1],
        f.state@,
    )
}

/// `v` is the struct of a commodity listing, fields in declaration order.
pub open spec fn is_listening(v: AbiValue, l: CommodityListening) -> bool {
    v matches AbiValue::Tuple(items) && items@ == seq![
        AbiValue::Uint(l.buy_price as u64),
        AbiValue::Uint(l.sell_price as u64),
        AbiValue::Uint(l.mean_price as u64),
        AbiValue::Uint(l.stock as u64),
        AbiValue::Uint(l.demand as u64),
        AbiValue::Uint(l.stock_bracket as u64),
        AbiValue::Uint(l.demand_bracket as u64),
    ]
}

/// `function` and `args` are the contract function and the arguments of `call`.
pub open spec fn encodes(call: ContractCall, function: Seq<char>, args: Seq<AbiValue>) -> bool {
    match call {
        ContractCall::RegisterSystem {
            system_address,
            name,
            allegiance,
            economy,
            second_economy,
            security,
            population,
            timestamp,
        } => {
            &&& function == "registerSystem"@
            &&& args.len() == 8
            &&& args[0] == AbiValue::Uint(system_address)
            &&& is_text(args[1], name@)
            &&& is_text(args[2], allegiance@)
            &&& is_text(args[3], economy@)
            &&& is_text(args[4], second_economy@)
            &&& is_text(args[5], security@)
            &&& args[6] == AbiValue::Uint(population)
            &&& args[7] == AbiValue::Time(timestamp)
        },
        ContractCall::RegisterPlanet {
            system_address,
            body_id,
            name,
            was_discovered,
            was_mapped,
            planet,
            body,
            timestamp,
        } => {
            &&& function == "registerPlanet"@
            &&& args.len() == 8
            &&& args[0] == AbiValue::Uint(system_address)
            &&& args[1] == AbiValue::Uint(body_id as u64)
            &&& is_text(args[2], name@)
            &&& args[3] == AbiValue::Bool(was_discovered)
            &&& args[4] == AbiValue::Bool(was_mapped)
            &&& is_planet(args[5], planet)
            &&& is_body(args[6], body)
            &&& args[7] == AbiValue::Time(timestamp)
        },
        ContractCall::RegisterStar {
            system_address,
            body_id,
            name,
            was_discovered,
            was_mapped,
            star,
            body,
            timestamp,
        } => {
            &&& function == "registerStar"@
            &&& args.len() == 8
            &&& args[0] == AbiValue::Uint(system_address)
            &&& args[1] == AbiValue::Uint(body_id as u64)
            &&& is_text(args[2], name@)
            &&& args[3] == AbiValue::Bool(was_discovered)
            &&& args[4] == AbiValue::Bool(was_mapped)
            &&& is_star(args[5], star)
            &&& is_body(args[6], body)
            &&& args[7] == AbiValue::Time(timestamp)
        },
        ContractCall::RegisterCarrier {
            carrier_id,
            name,
            callsign,
            services,
            docking_access,
            allow_notorious,
            timestamp,
        } => {
            &&& function == "registerCarrier"@
            &&& args.len() == 7
            &&& args[0] == AbiValue::Uint(carrier_id)
            &&& is_text(args[1], name@)
            &&& is_text(args[2], callsign@)
            &&& is_text(args[3], services@)
            &&& is_text(args[4], docking_access@)
            &&& args[5] == AbiValue::Bool(allow_notorious)
            &&& args[6] == AbiValue::Time(timestamp)
        },
        ContractCall::ReportCarrierLocation { carrier_id, system, body_name, timestamp } => {
            &&& function == "reportCarrierLocation"@
            &&& args.len() == 4
            &&& args[0] == AbiValue::Uint(carrier_id)
            &&& is_text(args[1], system@)
            &&& is_text(args[2], body_name@)
            &&& args[3] == AbiValue::Time(timestamp)
        },
        ContractCall::RegisterStation {
            market_id,
            name,
            station_type,
            system_address,
            system,
            faction,
            government,
            economy,
            services,
            distance,
            landing_pads,
            timestamp,
        } => {
            &&& function == "registerStation"@
            &&& args.len() == 12
            &&& args[0] == AbiValue::Uint(market_id)
            &&& is_text(args[1], name@)
            &&& is_text(args[2], station_type@)
            &&& args[3] == AbiValue::Uint(system_address)
            &&& is_text(args[4], system@)
            &&& is_faction(args[5], faction)
            &&& is_text(args[6], government@)
            &&& is_text(args[7], economy@)
            &&& is_text(args[8], services@)
            &&& is_floating(args[9], distance)
            &&& is_text(args[10], landing_pads@)
            &&& args[11] == AbiValue::Time(timestamp)
        },
        ContractCall::EmitCarrierJump { carrier_id, system, body_name, departure } => {
            &&& function == "emitCarrierJump"@
            &&& args.len() == 4
            &&& args[0] == AbiValue::Uint(carrier_id)
            &&& is_text(args[1], system@)
            &&& is_text(args[2], body_name@)
            &&& args[3] == AbiValue::Time(departure)
        },
        ContractCall::CancelCarrierJump { carrier_id } => {
            &&& function == "cancelCarrierJump"@
            &&& args == seq![AbiValue::Uint(carrier_id)]
        },
        ContractCall::RegisterCommodityListening { market_id, name, listening } => {
            &&& function == "registerCommodityListening"@
            &&& args.len() == 3
            &&& args[0] == AbiValue::Uint(market_id)
            &&& is_text(args[1], name@)
            &&& is_listening(args[2], listening)
        },
    }
}

fn text(s: &String) -> (v: AbiValue)
    ensures
        is_text(v, s@),
{
    AbiValue::Text(s.clone())
}

fn floating(f: Floating) -> (v: AbiValue)
    ensures
        is_floating(v, f),
{
    let mut items = Vec::new();
    items.push(AbiValue::Int(f.decimal));
    items.push(AbiValue::Uint(f.floating_point as u64));
    assert(items@ =~= seq![AbiValue::Int(f.decimal), AbiValue::Uint(f.floating_point as u64)]);
    AbiValue::Tuple(items)
}

fn planet(p: &PlanetProperties) -> (v: AbiValue)
    ensures
        is_planet(v, *p),
{
    let mut a = Vec::new();
    a.push(text(&p.atmosphere));
    a.push(text(&p.class));
    a.push(AbiValue::Bool(p.landable));
    a.push(text(&p.terraform_state));
    a.push(text(&p.volcanism));
    a.push(AbiValue::Bool(p.tidal_lock));
    a.push(floating(p.mass_em));
    a.push(floating(p.surface_gravity));
    a.push(floating(p.surface_pressure));
    a.push(floating(p.ascending_node));
    a.push(floating(p.eccentricity));
    a.push(floating(p.mean_anomaly));
    a.push(floating(p.orbital_inclination));
    a.push(floating(p.orbital_period));
    a.push(floating(p.periapsis));
    a.push(floating(p.semi_major_axis));
    AbiValue::Tuple(a)
}

fn star(s: &StarProperties) -> (v: AbiValue)
    ensures
        is_star(v, *s),
{
    let mut a = Vec::new();
    a.push(AbiValue::Uint(s.subclass as u64));
    a.push(AbiValue::Uint(s.age_my as u64));
    a.push(text(&s.type_));
    a.push(text(&s.luminosity));
    a.push(floating(s.stellar_mass));
    a.push(floating(s.absolute_magnitude));
    AbiValue::Tuple(a)
}

fn body(b: &BodyProperties) -> (v: AbiValue)
    ensures
        is_body(v, *b),
{
    let mut a = Vec::new();
    a.push(floating(b.radius));
    a.push(floating(b.distance_from_arrival_ls));
    a.push(floating(b.axial_tilt));
    a.push(floating(b.rotation_period));
    a.push(floating(b.surface_temperature));
    AbiValue::Tuple(a)
}

fn listening(l: &CommodityListening) -> (v: AbiValue)
    ensures
        is_listening(v, *l),
{
    let mut a = Vec::new();
    a.push(AbiValue::Uint(l.buy_price as u64));
    a.push(AbiValue::Uint(l.sell_price as u64));
    a.push(AbiValue::Uint(l.mean_price as u64));
    a.push(AbiValue::Uint(l.stock as u64));
    a.push(AbiValue::Uint(l.demand as u64));
    a.push(AbiValue::Uint(l.stock_bracket as u64));
    a.push(AbiValue::Uint(l.demand_bracket as u64));
    assert(a@ =~= seq![
        AbiValue::Uint(l.buy_price as u64),
        AbiValue::Uint(l.sell_price as u64),
        AbiValue::Uint(l.mean_price as u64),
        AbiValue::Uint(l.stock as u64),
        AbiValue::Uint(l.demand as u64),
        AbiValue::Uint(l.stock_bracket as u64),
        AbiValue::Uint(l.demand_bracket as u64),
    ]);
    AbiValue::Tuple(a)
}

/// The contract function that `call` calls, and its arguments.
pub fn call_arguments(call: &ContractCall) -> (r: (&'static str, Vec<AbiValue>))
    ensures
        encodes(*call, r.0@, r.1@),
{
    let mut a: Vec<AbiValue> = Vec::new();
    match call {
        ContractCall::RegisterSystem {
            system_address,
            name,
            allegiance,
            economy,
            second_economy,
            security,
            population,
            timestamp,
        } => {
            a.push(AbiValue::Uint(*system_address));
            a.push(text(name));
            a.push(text(allegiance));
            a.push(text(economy));
            a.push(text(second_economy));
            a.push(text(security));
            a.push(AbiValue::Uint(*population));
            a.push(AbiValue::Time(*timestamp));
            ("registerSystem", a)
        },
        ContractCall::RegisterPlanet {
            system_address,
            body_id,
            name,
            was_discovered,
            was_mapped,
            planet: p,
            body: b,
            timestamp,
        } => {
            a.push(AbiValue::Uint(*system_address));
            a.push(AbiValue::Uint(*body_id as u64));
            a.push(text(name));
            a.push(AbiValue::Bool(*was_discovered));
            a.push(AbiValue::Bool(*was_mapped));
            a.push(planet(p));
            a.push(body(b));
            a.push(AbiValue::Time(*timestamp));
            ("registerPlanet", a)
        },
        ContractCall::RegisterStar {
            system_address,
            body_id,
            name,
            was_discovered,
            was_mapped,
            star: s,
            body: b,
            timestamp,
        } => {
            a.push(AbiValue::Uint(*system_address));
            a.push(AbiValue::Uint(*body_id as u64));
            a.push(text(name));
            a.push(AbiValue::Bool(*was_discovered));
            a.push(AbiValue::Bool(*was_mapped));
            a.push(star(s));
            a.push(body(b));
            a.push(AbiValue::Time(*timestamp));
            ("registerStar", a)
        },
        ContractCall::RegisterCarrier {
            carrier_id,
            name,
            callsign,
            services,
            docking_access,
            allow_notorious,
            timestamp,
        } => {
            a.push(AbiValue::Uint(*carrier_id));
            a.push(text(name));
            a.push(text(callsign));
            a.push(text(services));
            a.push(text(docking_access));
            a.push(AbiValue::Bool(*allow_notorious));
            a.push(AbiValue::Time(*timestamp));
            ("registerCarrier", a)
        },
        ContractCall::ReportCarrierLocation { carrier_id, system, body_name, timestamp } => {
            a.push(AbiValue::Uint(*carrier_id));
            a.push(text(system));
            a.push(text(body_name));
            a.push(AbiValue::Time(*timestamp));
            ("reportCarrierLocation", a)
        },
        ContractCall::RegisterStation {
            market_id,
            name,
            station_type,
            system_address,
            system,
            faction,
            government,
            economy,
            services,
            distance,
            landing_pads,
            timestamp,
        } => {
            a.push(AbiValue::Uint(*market_id));
            a.push(text(name));
            a.push(text(station_type));
            a.push(AbiValue::Uint(*system_address));
            a.push(text(system));
            let mut f = Vec::new();
            f.push(text(&faction.name));
            f.push(text(&faction.state));
            a.push(AbiValue::Tuple(f));
            a.push(text(government));
            a.push(text(economy));
            a.push(text(services));
            a.push(floating(*distance));
            a.push(text(landing_pads));
            a.push(AbiValue::Time(*timestamp));
            ("registerStation", a)
        },
        ContractCall::EmitCarrierJump { carrier_id, system, body_name, departure } => {
            a.push(AbiValue::Uint(*carrier_id));
            a.push(text(system));
            a.push(text(body_name));
            a.push(AbiValue::Time(*departure));
            ("emitCarrierJump", a)
        },
        ContractCall::CancelCarrierJump { carrier_id } => {
            a.push(AbiValue::Uint(*carrier_id));
            ("cancelCarrierJump", a)
        },
        ContractCall::RegisterCommodityListening { market_id, name, listening: l } => {
            a.push(AbiValue::Uint(*market_id));
            a.push(text(name));
            a.push(listening(l));
            ("registerCommodityListening", a)
        },
    }
}

} // verus!
