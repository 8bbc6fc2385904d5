//! Properties of the relay's rules, each stated by what it reads and writes:
//! the journal members a call takes its fields from, the names of the events
//! that are recorded, the positions of the contract's arguments, and what the
//! retry settings are read as.

use vstd::prelude::*;
use crate::abi::{encodes, is_text, is_floating, AbiValue};
use crate::journal::{
    carrier_buy_plan, carrier_services, carrier_stats_plan, docked_plan, event_kind,
    flag_or_false, jump_plan, jump_request_plan, lenient_floating, market_plan, scan_plan,
    active_roles, joined_strings, station_services, strict_floating, timestamp_of, u32_or_zero, ContractCall, EventKind,
    EventPlan,
};
use crate::number::{all_digits, digits_value, lemma_digits_prefix, signed_decimal, unsigned_decimal};
use crate::send::{pending_verdict, rejected_verdict, revert_reason, ProviderFailure, SubmitFailure};
use crate::settings::{flag_setting, retry_delay_of, retry_limit_of};
use crate::text::lower_all;
use crate::value::Json;

verus! {

/// Each listing of a market message is its commodity at the same place in
/// `commodities`, under the commodity's lower-case name: its buy, sell and mean
/// prices, stock, demand, stock bracket and demand bracket are the members
/// `buyPrice`, `sellPrice`, `meanPrice`, `stock`, `demand`, `stockBracket` and
/// `demandBracket` read as `u32`, 0 where absent or out of range.
pub proof fn lemma_market_listing_fields(e: Json, p: EventPlan, j: int)
    requires
        market_plan(e, p),
        0 <= j < p.calls.len(),
    ensures
        ({
            let item = e.spec_get("commodities"@).spec_at(j);
            &&& p.calls@[j] matches ContractCall::RegisterCommodityListening { market_id, name, listening }
            &&& e.spec_get("marketId"@).spec_as_u64() == Some(market_id)
            &&& item.spec_get("name"@).spec_as_str() is Some
            &&& name@ == lower_all(item.spec_get("name"@).spec_as_str()->0)
            &&& listening.buy_price == u32_or_zero(item, "buyPrice"@)
            &&& listening.sell_price == u32_or_zero(item, "sellPrice"@)
            &&& listening.mean_price == u32_or_zero(item, "meanPrice"@)
            &&& listening.stock == u32_or_zero(item, "stock"@)
            &&& listening.demand == u32_or_zero(item, "demand"@)
            &&& listening.stock_bracket == u32_or_zero(item, "stockBracket"@)
            &&& listening.demand_bracket == u32_or_zero(item, "demandBracket"@)
        }),
{
    assert(p.calls@[j] == p.calls@[j]);
}

/// A scan without `StarType` that records something registers one planet:
/// the system address, body id, name and discovery flags of the event; the
/// texts of `Atmosphere`, `PlanetClass`, `TerraformState` and `Volcanism`;
/// `Landable` (false where absent) and `TidalLock`; each orbital and body
/// number from the member of its own name; and the event's timestamp.
pub proof fn lemma_scan_registers_planet_fields(e: Json, p: EventPlan)
    requires
        scan_plan(e, p),
        !e.spec_has_key("StarType"@),
        p.calls.len() > 0,
    ensures
        p.calls.len() == 1,
        p.complete,
        ({
        &&& p.calls@[0] matches ContractCall::RegisterPlanet {
            system_address,
            body_id,
            name,
            was_discovered,
            was_mapped,
            planet,
            body,
            timestamp,
        }
        &&& e.spec_get("SystemAddress"@).spec_as_u64() == Some(system_address)
        &&& e.spec_get("BodyID"@).spec_as_u8() == Some(body_id)
        &&& name@ == e.spec_get("BodyName"@).spec_text()
        &&& e.spec_get("WasDiscovered"@).spec_as_bool() == Some(was_discovered)
        &&& e.spec_get("WasMapped"@).spec_as_bool() == Some(was_mapped)
        &&& planet.atmosphere@ == e.spec_get("Atmosphere"@).spec_text()
        &&& planet.class@ == e.spec_get("PlanetClass"@).spec_text()
        &&& planet.terraform_state@ == e.spec_get("TerraformState"@).spec_text()
        &&& planet.volcanism@ == e.spec_get("Volcanism"@).spec_text()
        &&& planet.landable == flag_or_false(e, "Landable"@)
        &&& e.spec_get("TidalLock"@).spec_as_bool() == Some(planet.tidal_lock)
        &&& strict_floating(e.spec_get("MassEM"@)) == Some(planet.mass_em)
        &&& strict_floating(e.spec_get("SurfaceGravity"@)) == Some(planet.surface_gravity)
        &&& strict_floating(e.spec_get("SurfacePressure"@)) == Some(planet.surface_pressure)
        &&& planet.ascending_node == lenient_floating(e.spec_get("AscendingNode"@))
        &&& strict_floating(e.spec_get("Eccentricity"@)) == Some(planet.eccentricity)
        &&& planet.mean_anomaly == lenient_floating(e.spec_get("MeanAnomaly"@))
        &&& strict_floating(e.spec_get("OrbitalInclination"@)) == Some(planet.orbital_inclination)
        &&& strict_floating(e.spec_get("OrbitalPeriod"@)) == Some(planet.orbital_period)
        &&& strict_floating(e.spec_get("Periapsis"@)) == Some(planet.periapsis)
        &&& strict_floating(e.spec_get("SemiMajorAxis"@)) == Some(planet.semi_major_axis)
        &&& strict_floating(e.spec_get("Radius"@)) == Some(body.radius)
        &&& strict_floating(e.spec_get("DistanceFromArrivalLS"@)) == Some(body.distance_from_arrival_ls)
        &&& strict_floating(e.spec_get("AxialTilt"@)) == Some(body.axial_tilt)
        &&& strict_floating(e.spec_get("RotationPeriod"@)) == Some(body.rotation_period)
        &&& strict_floating(e.spec_get("SurfaceTemperature"@)) == Some(body.surface_temperature)
        &&& timestamp_of(e, "timestamp"@) == Some(timestamp)
        }),
{
}

/// A scan with `StarType` that records something registers one star: the
/// system address, body id, name and discovery flags of the event; `Subclass`
/// as a `u8` and `Age_MY` as a `u16`; the texts of `StarType` and
/// `Luminosity`; the numbers `StellarMass`, `AbsoluteMagnitude` and the body
/// numbers, each from the member of its own name; and the event's timestamp.
pub proof fn lemma_scan_registers_star_fields(e: Json, p: EventPlan)
    requires
        scan_plan(e, p),
        e.spec_has_key("StarType"@),
        p.calls.len() > 0,
    ensures
        p.calls.len() == 1,
        p.complete,
        ({
        &&& p.calls@[0] matches ContractCall::RegisterStar {
            system_address,
            body_id,
            name,
            was_discovered,
            was_mapped,
            star,
            body,
            timestamp,
        }
        &&& e.spec_get("SystemAddress"@).spec_as_u64() == Some(system_address)
        &&& e.spec_get("BodyID"@).spec_as_u8() == Some(body_id)
        &&& name@ == e.spec_get("BodyName"@).spec_text()
        &&& e.spec_get("WasDiscovered"@).spec_as_bool() == Some(was_discovered)
        &&& e.spec_get("WasMapped"@).spec_as_bool() == Some(was_mapped)
        &&& e.spec_get("Subclass"@).spec_as_u8() == Some(star.subclass)
        &&& e.spec_get("Age_MY"@).spec_as_u16() == Some(star.age_my)
        &&& star.type_@ == e.spec_get("StarType"@).spec_text()
        &&& star.luminosity@ == e.spec_get("Luminosity"@).spec_text()
        &&& strict_floating(e.spec_get("StellarMass"@)) == Some(star.stellar_mass)
        &&& strict_floating(e.spec_get("AbsoluteMagnitude"@)) == Some(star.absolute_magnitude)
        &&& strict_floating(e.spec_get("Radius"@)) == Some(body.radius)
        &&& strict_floating(e.spec_get("DistanceFromArrivalLS"@)) == Some(body.distance_from_arrival_ls)
        &&& strict_floating(e.spec_get("AxialTilt"@)) == Some(body.axial_tilt)
        &&& strict_floating(e.spec_get("RotationPeriod"@)) == Some(body.rotation_period)
        &&& strict_floating(e.spec_get("SurfaceTemperature"@)) == Some(body.surface_temperature)
        &&& timestamp_of(e, "timestamp"@) == Some(timestamp)
        }),
{
}

/// A jump that records something registers one system: `SystemAddress`;
/// the texts of `StarSystem`, `SystemAllegiance`, `SystemEconomy`,
/// `SystemSecondEconomy` and `SystemSecurity`, in that order of fields;
/// `Population` (0 where absent); and the event's timestamp.
pub proof fn lemma_jump_registers_system_fields(e: Json, p: EventPlan)
    requires
        jump_plan(e, p),
        p.calls.len() > 0,
    ensures
        p.calls.len() == 1,
        p.complete,
        ({
            &&& p.calls@[0] matches ContractCall::RegisterSystem {
                system_address,
                name,
                allegiance,
                economy,
                second_economy,
                security,
                population,
                timestamp,
            }
            &&& e.spec_get("SystemAddress"@).spec_as_u64() == Some(system_address)
            &&& name@ == e.spec_get("StarSystem"@).spec_text()
            &&& allegiance@ == e.spec_get("SystemAllegiance"@).spec_text()
            &&& economy@ == e.spec_get("SystemEconomy"@).spec_text()
            &&& second_economy@ == e.spec_get("SystemSecondEconomy"@).spec_text()
            &&& security@ == e.spec_get("SystemSecurity"@).spec_text()
            &&& population == (match e.spec_get("Population"@).spec_as_u64() {
                Some(v) => v,
                None => 0,
            })
            &&& timestamp_of(e, "timestamp"@) == Some(timestamp)
        }),
{
}

/// A fleet carrier's `Docked` event that records something registers the
/// carrier first: `MarketID` as its id, "Fleet Carrier" as its name,
/// `StationName` as its callsign, the joined `StationServices`, no docking
/// access, notorious pilots not allowed, the event's timestamp. Its second
/// call, where there is one, reports the carrier in `StarSystem`.
pub proof fn lemma_docked_carrier_fields(e: Json, p: EventPlan)
    requires
        docked_plan(e, p),
        e.spec_get("StationType"@).spec_as_str() == Some("FleetCarrier"@),
        p.calls.len() > 0,
    ensures
        ({
            &&& p.calls@[0] matches ContractCall::RegisterCarrier {
                carrier_id,
                name,
                callsign,
                services,
                docking_access,
                allow_notorious,
                timestamp,
            }
            &&& e.spec_get("MarketID"@).spec_as_u64() == Some(carrier_id)
            &&& name@ == "Fleet Carrier"@
            &&& e.spec_get("StationName"@).spec_as_str() == Some(callsign@)
            &&& station_services(e) == Some(services@)
            &&& docking_access@.len() == 0
            &&& !allow_notorious
            &&& timestamp_of(e, "timestamp"@) == Some(timestamp)
        }),
        p.calls.len() <= 2,
        p.calls.len() == 2 ==> ({
            &&& p.calls@[1] matches ContractCall::ReportCarrierLocation { carrier_id, system, body_name, timestamp }
            &&& e.spec_get("MarketID"@).spec_as_u64() == Some(carrier_id)
            &&& e.spec_get("StarSystem"@).spec_as_str() == Some(system@)
            &&& body_name@ == "Unkown"@
            &&& timestamp_of(e, "timestamp"@) == Some(timestamp)
        }),
{
}

/// Any other `Docked` event that records something registers one station,
/// its fields from the members of their own names: `MarketID`,
/// `StationName`, `StationType`, `SystemAddress`, `StarSystem`, the faction's
/// `Name` and `FactionState` (empty where absent), `StationGovernment`,
/// `StationEconomy`, the joined `StationServices`, `DistFromStarLS`,
/// `LandingPads`, and the event's timestamp.
pub proof fn lemma_docked_station_fields(e: Json, p: EventPlan)
    requires
        docked_plan(e, p),
        e.spec_get("StationType"@).spec_as_str() != Some("FleetCarrier"@),
        p.calls.len() > 0,
    ensures
        p.calls.len() == 1,
        ({
            &&& p.calls@[0] matches ContractCall::RegisterStation {
                market_id,
                name,
                station_type,
                system_address,
                system,
                faction,
                government,
                economy,
                services,
                distance,
                landing_pads,
                timestamp,
            }
            &&& e.spec_get("MarketID"@).spec_as_u64() == Some(market_id)
            &&& e.spec_get("StationName"@).spec_as_str() == Some(name@)
            &&& e.spec_get("StationType"@).spec_as_str() == Some(station_type@)
            &&& e.spec_get("SystemAddress"@).spec_as_u64() == Some(system_address)
            &&& e.spec_get("StarSystem"@).spec_as_str() == Some(system@)
            &&& e.spec_get("StationFaction"@).spec_get("Name"@).spec_as_str() == Some(faction.name@)
            &&& faction.state@ == (match e.spec_get("StationFaction"@).spec_get("FactionState"@).spec_as_str() {
                Some(s) => s,
                None => Seq::<char>::empty(),
            })
            &&& e.spec_get("StationGovernment"@).spec_as_str() == Some(government@)
            &&& e.spec_get("StationEconomy"@).spec_as_str() == Some(economy@)
            &&& station_services(e) == Some(services@)
            &&& strict_floating(e.spec_get("DistFromStarLS"@)) == Some(distance)
            &&& landing_pads@ == e.spec_get("LandingPads"@).spec_text()
            &&& timestamp_of(e, "timestamp"@) == Some(timestamp)
        }),
{
}

/// A `CarrierJumpRequest` that records something announces one jump of
/// carrier `CarrierID` to the system `SystemName` and the body `Body`,
/// departing at `DepartureTime`.
pub proof fn lemma_jump_request_fields(e: Json, p: EventPlan)
    requires
        jump_request_plan(e, p),
        p.calls.len() > 0,
    ensures
        p.calls.len() == 1,
        ({
            &&& p.calls@[0] matches ContractCall::EmitCarrierJump { carrier_id, system, body_name, departure }
            &&& e.spec_get("CarrierID"@).spec_as_u64() == Some(carrier_id)
            &&& e.spec_get("SystemName"@).spec_as_str() == Some(system@)
            &&& e.spec_get("Body"@).spec_as_str() == Some(body_name@)
            &&& timestamp_of(e, "DepartureTime"@) == Some(departure)
        }),
{
}

/// A `CarrierBuy` that records something registers carrier `CarrierID` named
/// "Fleet Carrier" under the callsign `Callsign`, with no services, no
/// docking access, notorious pilots not allowed, at the event's timestamp.
pub proof fn lemma_carrier_buy_fields(e: Json, p: EventPlan)
    requires
        carrier_buy_plan(e, p),
        p.calls.len() > 0,
    ensures
        p.calls.len() == 1,
        ({
            &&& p.calls@[0] matches ContractCall::RegisterCarrier {
                carrier_id,
                name,
                callsign,
                services,
                docking_access,
                allow_notorious,
                timestamp,
            }
            &&& e.spec_get("CarrierID"@).spec_as_u64() == Some(carrier_id)
            &&& name@ == "Fleet Carrier"@
            &&& e.spec_get("Callsign"@).spec_as_str() == Some(callsign@)
            &&& services@.len() == 0
            &&& docking_access@.len() == 0
            &&& !allow_notorious
            &&& timestamp_of(e, "timestamp"@) == Some(timestamp)
        }),
{
}

/// A `CarrierStats` that records something registers carrier `CarrierID`
/// under its `Name` and `Callsign`, with the roles of its activated crew,
/// its `DockingAccess` and `AllowNotorious`, at the event's timestamp.
pub proof fn lemma_carrier_stats_fields(e: Json, p: EventPlan)
    requires
        carrier_stats_plan(e, p),
        p.calls.len() > 0,
    ensures
        p.calls.len() == 1,
        ({
            &&& p.calls@[0] matches ContractCall::RegisterCarrier {
                carrier_id,
                name,
                callsign,
                services,
                docking_access,
                allow_notorious,
                timestamp,
            }
            &&& e.spec_get("CarrierID"@).spec_as_u64() == Some(carrier_id)
            &&& e.spec_get("Name"@).spec_as_str() == Some(name@)
            &&& e.spec_get("Callsign"@).spec_as_str() == Some(callsign@)
            &&& services@ == carrier_services(e)
            &&& e.spec_get("DockingAccess"@).spec_as_str() == Some(docking_access@)
            &&& e.spec_get("AllowNotorious"@).spec_as_bool() == Some(allow_notorious)
            &&& timestamp_of(e, "timestamp"@) == Some(timestamp)
        }),
{
}

/// The crew services of a carrier grow one activated member at a time: an
/// activated member adds its `CrewRole` text behind a comma (with no comma
/// before the first), a member that is not activated (or has no
/// `Activated` flag) adds nothing.
pub proof fn lemma_crew_roles_step(crew: Json, n: int)
    requires
        0 <= n,
    ensures
        ({
            let before = active_roles(crew, n);
            let member = crew.spec_at(n);
            let role = member.spec_get("CrewRole"@).spec_text();
            active_roles(crew, n + 1) == if member.spec_get("Activated"@).spec_as_bool() == Some(true) {
                if before.len() == 0 { role } else { before + seq![','] + role }
            } else {
                before
            }
        }),
{
}

/// Station services grow one element at a time: each string joins behind a
/// comma (with no comma before the first), and an element that is no string
/// leaves no services at all.
pub proof fn lemma_station_services_step(list: Json, n: int)
    requires
        0 <= n,
    ensures
        joined_strings(list, n + 1) == match (joined_strings(list, n), list.spec_at(n).spec_as_str()) {
            (Some(before), Some(item)) => Some(if before.len() == 0 { item } else { before + seq![','] + item }),
            _ => None::<Seq<char>>,
        },
        joined_strings(list, 0) == Some(Seq::<char>::empty()),
{
}

/// A commodity's name is listed with every ASCII capital made lower-case by
/// adding 32 to it, every other character kept, and the length kept.
pub proof fn lemma_lower_case_names(name: Seq<char>)
    ensures
        lower_all(name).len() == name.len(),
        forall|i: int| 0 <= i < name.len() ==> (#[trigger] lower_all(name)[i]) == if 'A' <= name[i] && name[i] <= 'Z' {
            ((name[i] as u32) + 32) as char
        } else {
            name[i]
        },
{
}

/// Each recorded kind of event has exactly its own names: `FSDJump` and
/// `CarrierJump` are jumps, and `Scan`, `Docked`, `CarrierJumpRequest`,
/// `CarrierJumpCancelled`, `CarrierBuy` and `CarrierStats` are each their own
/// kind; no other name is classified as one of these.
pub proof fn lemma_recorded_event_names(name: Seq<char>)
    ensures
        event_kind(name) == EventKind::Jump <==> (name == "FSDJump"@ || name == "CarrierJump"@),
        event_kind(name) == EventKind::Scan ==> name == "Scan"@,
        event_kind(name) == EventKind::Docked ==> name == "Docked"@,
        event_kind(name) == EventKind::CarrierJumpRequest ==> name == "CarrierJumpRequest"@,
        event_kind(name) == EventKind::CarrierJumpCancelled ==> name == "CarrierJumpCancelled"@,
        event_kind(name) == EventKind::CarrierBuy ==> name == "CarrierBuy"@,
        event_kind(name) == EventKind::CarrierStats ==> name == "CarrierStats"@,
{
}

/// An event named exactly `Docked`, `Scan`, `CarrierJumpRequest`,
/// `CarrierJumpCancelled`, `CarrierBuy` or `CarrierStats` is of that kind.
pub proof fn lemma_recorded_names_are_classified(name: Seq<char>)
    ensures
        name == "Scan"@ ==> event_kind(name) == EventKind::Scan,
        name == "Docked"@ ==> event_kind(name) == EventKind::Docked,
        name == "CarrierJumpRequest"@ ==> event_kind(name) == EventKind::CarrierJumpRequest,
        name == "CarrierJumpCancelled"@ ==> event_kind(name) == EventKind::CarrierJumpCancelled,
        name == "CarrierBuy"@ ==> event_kind(name) == EventKind::CarrierBuy,
        name == "CarrierStats"@ ==> event_kind(name) == EventKind::CarrierStats,
{
    reveal_strlit("FSDJump");
    reveal_strlit("CarrierJump");
    reveal_strlit("Scan");
    reveal_strlit("Docked");
    reveal_strlit("CarrierJumpRequest");
    reveal_strlit("CarrierJumpCancelled");
    reveal_strlit("CarrierBuy");
    reveal_strlit("CarrierStats");
    assert("FSDJump"@.len() == 7);
    assert("CarrierJump"@.len() == 11);
    assert("Scan"@.len() == 4);
    assert("Docked"@.len() == 6);
    assert("CarrierJumpRequest"@.len() == 18);
    assert("CarrierJumpCancelled"@.len() == 20);
    assert("CarrierBuy"@.len() == 10);
    assert("CarrierStats"@.len() == 12);
}

/// The events that the relay ignores record nothing: docking requests,
/// grants, denials and the like are no `Docked` event.
pub proof fn lemma_ignored_events_record_nothing(name: Seq<char>)
    requires
        ({
        ||| name == "Location"@
        ||| name == "SupercruiseEntry"@
        ||| name == "SupercruiseExit"@
        ||| name == "StartJump"@
        ||| name == "FSDTarget"@
        ||| name == "NavRoute"@
        ||| name == "NavRouteClear"@
        ||| name == "ApproachSettlement"@
        ||| name == "ApproachBody"@
        ||| name == "LeaveBody"@
        ||| name == "Liftoff"@
        ||| name == "Touchdown"@
        ||| name == "Embark"@
        ||| name == "Disembark"@
        ||| name == "DiscoveryScan"@
        ||| name == "FSSAllBodiesFound"@
        ||| name == "FSSDiscoveryScan"@
        ||| name == "FSSBodySignals"@
        ||| name == "SAASignalsFound"@
        ||| name == "FSSSignalDiscovered"@
        ||| name == "SAAScanComplete"@
        ||| name == "ScanBaryCentre"@
        ||| name == "RefuelAll"@
        ||| name == "Resupply"@
        ||| name == "Repair"@
        ||| name == "BuyDrones"@
        ||| name == "SellDrones"@
        ||| name == "BuyAmmo"@
        ||| name == "ReservoirReplenished"@
        ||| name == "RepairAll"@
        ||| name == "RebootRepair"@
        ||| name == "RestockVehicle"@
        ||| name == "DockingRequested"@
        ||| name == "DockingGranted"@
        ||| name == "Undocked"@
        ||| name == "EngineerProgress"@
        ||| name == "EngineerCraft"@
        ||| name == "EngineerContribution"@
        ||| name == "Shipyard"@
        ||| name == "StoredShips"@
        ||| name == "ShipyardSwap"@
        ||| name == "ShipLocker"@
        ||| name == "ModuleBuy"@
        ||| name == "Outfitting"@
        ||| name == "ModuleInfo"@
        ||| name == "StoredModules"@
        ||| name == "DockingCancelled"@
        ||| name == "ShipyardBuy"@
        ||| name == "ShipyardNew"@
        ||| name == "ShipyardTransfer"@
        ||| name == "ModuleStore"@
        ||| name == "ModuleSell"@
        ||| name == "ModuleSellRemote"@
        ||| name == "ModuleSwap"@
        ||| name == "Backpack"@
        ||| name == "BackpackChange"@
        ||| name == "CollectItems"@
        ||| name == "UpgradeSuit"@
        ||| name == "Loadout"@
        ||| name == "LoadoutEquipModule"@
        ||| name == "SuitLoadout"@
        ||| name == "UseConsumable"@
        ||| name == "ScanOrganic"@
        ||| name == "MarketBuy"@
        ||| name == "Market"@
        ||| name == "MarketSell"@
        ||| name == "LaunchSRV"@
        ||| name == "DockSRV"@
        ||| name == "ShipTargeted"@
        ||| name == "UnderAttack"@
        ||| name == "ShieldState"@
        ||| name == "HullDamage"@
        ||| name == "Materials"@
        ||| name == "Cargo"@
        ||| name == "MaterialCollected"@
        ||| name == "Synthesis"@
        ||| name == "EjectCargo"@
        ||| name == "DropItems"@
        ||| name == "LaunchDrone"@
        ||| name == "MiningRefined"@
        ||| name == "ProspectedAsteroid"@
        ||| name == "CargoTransfer"@
        ||| name == "CollectCargo"@
        ||| name == "Missions"@
        ||| name == "MissionAccepted"@
        ||| name == "MissionRedirected"@
        ||| name == "MissionCompleted"@
        ||| name == "RedeemVoucher"@
        ||| name == "Bounty"@
        ||| name == "NpcCrewPaidWage"@
        ||| name == "PayFines"@
        ||| name == "MissionAbandoned"@
        ||| name == "MissionFailed"@
        ||| name == "PayBounties"@
        ||| name == "SellOrganicData"@
        ||| name == "CarrierDecommission"@
        ||| name == "CarrierTradeOrder"@
        ||| name == "CarrierFinance"@
        ||| name == "CarrierDepositFuel"@
        ||| name == "CarrierDockingPermission"@
        ||| name == "CarrierCrewServices"@
        ||| name == "CarrierModulePack"@
        ||| name == "CarrierBankTransfer"@
        ||| name == "BookDropship"@
        ||| name == "DropshipDeploy"@
        ||| name == "WingInvite"@
        ||| name == "WingJoin"@
        ||| name == "WingAdd"@
        ||| name == "WingLeave"@
        ||| name == "CrewMemberQuits"@
        ||| name == "CrewMemberRoleChange"@
        ||| name == "CrewMemberJoins"@
        ||| name == "EndCrewSession"@
        ||| name == "SellMicroResources"@
        ||| name == "TradeMicroResources"@
        ||| name == "FuelScoop"@
        ||| name == "ReceiveText"@
        ||| name == "Friends"@
        ||| name == "Scanned"@
        ||| name == "LoadGame"@
        ||| name == "SquadronStartup"@
        ||| name == "Music"@
        ||| name == "CodexEntry"@
        ||| name == "Rank"@
        ||| name == "Progress"@
        ||| name == "Reputation"@
        ||| name == "Statistics"@
        ||| name == "Commander"@
        ||| name == "PowerplaySalary"@
        ||| name == "Powerplay"@
        ||| name == "CommitCrime"@
        ||| name == "DockingDenied"@
        ||| name == "HeatWarning"@
        ||| name == "FactionKillBond"@
        ||| name == "MultiSellExplorationData"@
        ||| name == "SwitchSuitLoadout"@
        ||| name == "MaterialTrade"@
        ||| name == "CommunityGoal"@
        ||| name == "ModuleRetrieve"@
        ||| name == "FetchRemoteModule"@
        ||| name == "SendText"@
        ||| name == "SearchAndRescue"@
        ||| name == "HeatDamage"@
        ||| name == "CommunityGoalReward"@
        ||| name == "NavBeaconScan"@
        ||| name == "USSDrop"@
        ||| name == "Interdicted"@
        ||| name == "Promotion"@
        ||| name == "RepairDrone"@
        ||| name == "DataScanned"@
        ||| name == "DatalinkScan"@
        ||| name == "DatalinkVoucher"@
        ||| name == "CockpitBreached"@
        ||| name == "SystemsShutdown"@
        ||| name == "Screenshot"@
        ||| name == "UpgradeWeapon"@
        ||| name == "PowerplayFastTrack"@
        ||| name == "PowerplayCollect"@
        ||| name == "PowerplayDeliver"@
        ||| name == "BookTaxi"@
        ||| name == "SharedBookmarkToSquadron"@
        ||| name == "MaterialDiscovered"@
        ||| name == "SetUserShipName"@
        ||| name == "FCMaterials"@
        ||| name == "CommunityGoalJoin"@
        ||| name == "SupercruiseDestinationDrop"@
        ||| name == "JetConeBoost"@
        ||| name == "AsteroidCracked"@
        ||| name == "EscapeInterdiction"@
        ||| name == "TechnologyBroker"@
        ||| name == "NavBeaconDetail"@
        ||| name == "Died"@
        ||| name == "Resurrect"@
        ||| name == "SelfDestruct"@
        ||| name == "Fileheader"@
        ||| name == "Shutdown"@
        }),
    ensures
        event_kind(name) == EventKind::Quiet,
{
    reveal_strlit("FSDJump");
    assert("FSDJump"@.len() == 7);
    reveal_strlit("CarrierJump");
    assert("CarrierJump"@.len() == 11);
    reveal_strlit("Scan");
    assert("Scan"@.len() == 4);
    reveal_strlit("Docked");
    assert("Docked"@.len() == 6);
    reveal_strlit("CarrierJumpRequest");
    assert("CarrierJumpRequest"@.len() == 18);
    reveal_strlit("CarrierJumpCancelled");
    assert("CarrierJumpCancelled"@.len() == 20);
    reveal_strlit("CarrierBuy");
    assert("CarrierBuy"@.len() == 10);
    reveal_strlit("CarrierStats");
    assert("CarrierStats"@.len() == 12);
    if name == "Location"@ {
        reveal_strlit("Location");
        assert("Location"@.len() == 8);
    }
    if name == "SupercruiseEntry"@ {
        reveal_strlit("SupercruiseEntry");
        assert("SupercruiseEntry"@.len() == 16);
    }
    if name == "SupercruiseExit"@ {
        reveal_strlit("SupercruiseExit");
        assert("SupercruiseExit"@.len() == 15);
    }
    if name == "StartJump"@ {
        reveal_strlit("StartJump");
        assert("StartJump"@.len() == 9);
    }
    if name == "FSDTarget"@ {
        reveal_strlit("FSDTarget");
        assert("FSDTarget"@.len() == 9);
    }
    if name == "NavRoute"@ {
        reveal_strlit("NavRoute");
        assert("NavRoute"@.len() == 8);
    }
    if name == "NavRouteClear"@ {
        reveal_strlit("NavRouteClear");
        assert("NavRouteClear"@.len() == 13);
    }
    if name == "ApproachSettlement"@ {
        reveal_strlit("ApproachSettlement");
        assert("ApproachSettlement"@.len() == 18);
        assert("ApproachSettlement"@[0] == 'A' && "CarrierJumpRequest"@[0] == 'C');
    }
    if name == "ApproachBody"@ {
        reveal_strlit("ApproachBody");
        assert("ApproachBody"@.len() == 12);
        assert("ApproachBody"@[0] == 'A' && "CarrierStats"@[0] == 'C');
    }
    if name == "LeaveBody"@ {
        reveal_strlit("LeaveBody");
        assert("LeaveBody"@.len() == 9);
    }
    if name == "Liftoff"@ {
        reveal_strlit("Liftoff");
        assert("Liftoff"@.len() == 7);
        assert("Liftoff"@[0] == 'L' && "FSDJump"@[0] == 'F');
    }
    if name == "Touchdown"@ {
        reveal_strlit("Touchdown");
        assert("Touchdown"@.len() == 9);
    }
    if name == "Embark"@ {
        reveal_strlit("Embark");
        assert("Embark"@.len() == 6);
        assert("Embark"@[0] == 'E' && "Docked"@[0] == 'D');
    }
    if name == "Disembark"@ {
        reveal_strlit("Disembark");
        assert("Disembark"@.len() == 9);
    }
    if name == "DiscoveryScan"@ {
        reveal_strlit("DiscoveryScan");
        assert("DiscoveryScan"@.len() == 13);
    }
    if name == "FSSAllBodiesFound"@ {
        reveal_strlit("FSSAllBodiesFound");
        assert("FSSAllBodiesFound"@.len() == 17);
    }
    if name == "FSSDiscoveryScan"@ {
        reveal_strlit("FSSDiscoveryScan");
        assert("FSSDiscoveryScan"@.len() == 16);
    }
    if name == "FSSBodySignals"@ {
        reveal_strlit("FSSBodySignals");
        assert("FSSBodySignals"@.len() == 14);
    }
    if name == "SAASignalsFound"@ {
        reveal_strlit("SAASignalsFound");
        assert("SAASignalsFound"@.len() == 15);
    }
    if name == "FSSSignalDiscovered"@ {
        reveal_strlit("FSSSignalDiscovered");
        assert("FSSSignalDiscovered"@.len() == 19);
    }
    if name == "SAAScanComplete"@ {
        reveal_strlit("SAAScanComplete");
        assert("SAAScanComplete"@.len() == 15);
    }
    if name == "ScanBaryCentre"@ {
        reveal_strlit("ScanBaryCentre");
        assert("ScanBaryCentre"@.len() == 14);
    }
    if name == "RefuelAll"@ {
        reveal_strlit("RefuelAll");
        assert("RefuelAll"@.len() == 9);
    }
    if name == "Resupply"@ {
        reveal_strlit("Resupply");
        assert("Resupply"@.len() == 8);
    }
    if name == "Repair"@ {
        reveal_strlit("Repair");
        assert("Repair"@.len() == 6);
        assert("Repair"@[0] == 'R' && "Docked"@[0] == 'D');
    }
    if name == "BuyDrones"@ {
        reveal_strlit("BuyDrones");
        assert("BuyDrones"@.len() == 9);
    }
    if name == "SellDrones"@ {
        reveal_strlit("SellDrones");
        assert("SellDrones"@.len() == 10);
        assert("SellDrones"@[0] == 'S' && "CarrierBuy"@[0] == 'C');
    }
    if name == "BuyAmmo"@ {
        reveal_strlit("BuyAmmo");
        assert("BuyAmmo"@.len() == 7);
        assert("BuyAmmo"@[0] == 'B' && "FSDJump"@[0] == 'F');
    }
    if name == "ReservoirReplenished"@ {
        reveal_strlit("ReservoirReplenished");
        assert("ReservoirReplenished"@.len() == 20);
        assert("ReservoirReplenished"@[0] == 'R' && "CarrierJumpCancelled"@[0] == 'C');
    }
    if name == "RepairAll"@ {
        reveal_strlit("RepairAll");
        assert("RepairAll"@.len() == 9);
    }
    if name == "RebootRepair"@ {
        reveal_strlit("RebootRepair");
        assert("RebootRepair"@.len() == 12);
        assert("RebootRepair"@[0] == 'R' && "CarrierStats"@[0] == 'C');
    }
    if name == "RestockVehicle"@ {
        reveal_strlit("RestockVehicle");
        assert("RestockVehicle"@.len() == 14);
    }
    if name == "DockingRequested"@ {
        reveal_strlit("DockingRequested");
        assert("DockingRequested"@.len() == 16);
    }
    if name == "DockingGranted"@ {
        reveal_strlit("DockingGranted");
        assert("DockingGranted"@.len() == 14);
    }
    if name == "Undocked"@ {
        reveal_strlit("Undocked");
        assert("Undocked"@.len() == 8);
    }
    if name == "EngineerProgress"@ {
        reveal_strlit("EngineerProgress");
        assert("EngineerProgress"@.len() == 16);
    }
    if name == "EngineerCraft"@ {
        reveal_strlit("EngineerCraft");
        assert("EngineerCraft"@.len() == 13);
    }
    if name == "EngineerContribution"@ {
        reveal_strlit("EngineerContribution");
        assert("EngineerContribution"@.len() == 20);
        assert("EngineerContribution"@[0] == 'E' && "CarrierJumpCancelled"@[0] == 'C');
    }
    if name == "Shipyard"@ {
        reveal_strlit("Shipyard");
        assert("Shipyard"@.len() == 8);
    }
    if name == "StoredShips"@ {
        reveal_strlit("StoredShips");
        assert("StoredShips"@.len() == 11);
        assert("StoredShips"@[0] == 'S' && "CarrierJump"@[0] == 'C');
    }
    if name == "ShipyardSwap"@ {
        reveal_strlit("ShipyardSwap");
        assert("ShipyardSwap"@.len() == 12);
        assert("ShipyardSwap"@[0] == 'S' && "CarrierStats"@[0] == 'C');
    }
    if name == "ShipLocker"@ {
        reveal_strlit("ShipLocker");
        assert("ShipLocker"@.len() == 10);
        assert("ShipLocker"@[0] == 'S' && "CarrierBuy"@[0] == 'C');
    }
    if name == "ModuleBuy"@ {
        reveal_strlit("ModuleBuy");
        assert("ModuleBuy"@.len() == 9);
    }
    if name == "Outfitting"@ {
        reveal_strlit("Outfitting");
        assert("Outfitting"@.len() == 10);
        assert("Outfitting"@[0] == 'O' && "CarrierBuy"@[0] == 'C');
    }
    if name == "ModuleInfo"@ {
        reveal_strlit("ModuleInfo");
        assert("ModuleInfo"@.len() == 10);
        assert("ModuleInfo"@[0] == 'M' && "CarrierBuy"@[0] == 'C');
    }
    if name == "StoredModules"@ {
        reveal_strlit("StoredModules");
        assert("StoredModules"@.len() == 13);
    }
    if name == "DockingCancelled"@ {
        reveal_strlit("DockingCancelled");
        assert("DockingCancelled"@.len() == 16);
    }
    if name == "ShipyardBuy"@ {
        reveal_strlit("ShipyardBuy");
        assert("ShipyardBuy"@.len() == 11);
        assert("ShipyardBuy"@[0] == 'S' && "CarrierJump"@[0] == 'C');
    }
    if name == "ShipyardNew"@ {
        reveal_strlit("ShipyardNew");
        assert("ShipyardNew"@.len() == 11);
        assert("ShipyardNew"@[0] == 'S' && "CarrierJump"@[0] == 'C');
    }
    if name == "ShipyardTransfer"@ {
        reveal_strlit("ShipyardTransfer");
        assert("ShipyardTransfer"@.len() == 16);
    }
    if name == "ModuleStore"@ {
        reveal_strlit("ModuleStore");
        assert("ModuleStore"@.len() == 11);
        assert("ModuleStore"@[0] == 'M' && "CarrierJump"@[0] == 'C');
    }
    if name == "ModuleSell"@ {
        reveal_strlit("ModuleSell");
        assert("ModuleSell"@.len() == 10);
        assert("ModuleSell"@[0] == 'M' && "CarrierBuy"@[0] == 'C');
    }
    if name == "ModuleSellRemote"@ {
        reveal_strlit("ModuleSellRemote");
        assert("ModuleSellRemote"@.len() == 16);
    }
    if name == "ModuleSwap"@ {
        reveal_strlit("ModuleSwap");
        assert("ModuleSwap"@.len() == 10);
        assert("ModuleSwap"@[0] == 'M' && "CarrierBuy"@[0] == 'C');
    }
    if name == "Backpack"@ {
        reveal_strlit("Backpack");
        assert("Backpack"@.len() == 8);
    }
    if name == "BackpackChange"@ {
        reveal_strlit("BackpackChange");
        assert("BackpackChange"@.len() == 14);
    }
    if name == "CollectItems"@ {
        reveal_strlit("CollectItems");
        assert("CollectItems"@.len() == 12);
        assert("CollectItems"@[1] == 'o' && "CarrierStats"@[1] == 'a');
    }
    if name == "UpgradeSuit"@ {
        reveal_strlit("UpgradeSuit");
        assert("UpgradeSuit"@.len() == 11);
        assert("UpgradeSuit"@[0] == 'U' && "CarrierJump"@[0] == 'C');
    }
    if name == "Loadout"@ {
        reveal_strlit("Loadout");
        assert("Loadout"@.len() == 7);
        assert("Loadout"@[0] == 'L' && "FSDJump"@[0] == 'F');
    }
    if name == "LoadoutEquipModule"@ {
        reveal_strlit("LoadoutEquipModule");
        assert("LoadoutEquipModule"@.len() == 18);
        assert("LoadoutEquipModule"@[0] == 'L' && "CarrierJumpRequest"@[0] == 'C');
    }
    if name == "SuitLoadout"@ {
        reveal_strlit("SuitLoadout");
        assert("SuitLoadout"@.len() == 11);
        assert("SuitLoadout"@[0] == 'S' && "CarrierJump"@[0] == 'C');
    }
    if name == "UseConsumable"@ {
        reveal_strlit("UseConsumable");
        assert("UseConsumable"@.len() == 13);
    }
    if name == "ScanOrganic"@ {
        reveal_strlit("ScanOrganic");
        assert("ScanOrganic"@.len() == 11);
        assert("ScanOrganic"@[0] == 'S' && "CarrierJump"@[0] == 'C');
    }
    if name == "MarketBuy"@ {
        reveal_strlit("MarketBuy");
        assert("MarketBuy"@.len() == 9);
    }
    if name == "Market"@ {
        reveal_strlit("Market");
        assert("Market"@.len() == 6);
        assert("Market"@[0] == 'M' && "Docked"@[0] == 'D');
    }
    if name == "MarketSell"@ {
        reveal_strlit("MarketSell");
        assert("MarketSell"@.len() == 10);
        assert("MarketSell"@[0] == 'M' && "CarrierBuy"@[0] == 'C');
    }
    if name == "LaunchSRV"@ {
        reveal_strlit("LaunchSRV");
        assert("LaunchSRV"@.len() == 9);
    }
    if name == "DockSRV"@ {
        reveal_strlit("DockSRV");
        assert("DockSRV"@.len() == 7);
        assert("DockSRV"@[0] == 'D' && "FSDJump"@[0] == 'F');
    }
    if name == "ShipTargeted"@ {
        reveal_strlit("ShipTargeted");
        assert("ShipTargeted"@.len() == 12);
        assert("ShipTargeted"@[0] == 'S' && "CarrierStats"@[0] == 'C');
    }
    if name == "UnderAttack"@ {
        reveal_strlit("UnderAttack");
        assert("UnderAttack"@.len() == 11);
        assert("UnderAttack"@[0] == 'U' && "CarrierJump"@[0] == 'C');
    }
    if name == "ShieldState"@ {
        reveal_strlit("ShieldState");
        assert("ShieldState"@.len() == 11);
        assert("ShieldState"@[0] == 'S' && "CarrierJump"@[0] == 'C');
    }
    if name == "HullDamage"@ {
        reveal_strlit("HullDamage");
        assert("HullDamage"@.len() == 10);
        assert("HullDamage"@[0] == 'H' && "CarrierBuy"@[0] == 'C');
    }
    if name == "Materials"@ {
        reveal_strlit("Materials");
        assert("Materials"@.len() == 9);
    }
    if name == "Cargo"@ {
        reveal_strlit("Cargo");
        assert("Cargo"@.len() == 5);
    }
    if name == "MaterialCollected"@ {
        reveal_strlit("MaterialCollected");
        assert("MaterialCollected"@.len() == 17);
    }
    if name == "Synthesis"@ {
        reveal_strlit("Synthesis");
        assert("Synthesis"@.len() == 9);
    }
    if name == "EjectCargo"@ {
        reveal_strlit("EjectCargo");
        assert("EjectCargo"@.len() == 10);
        assert("EjectCargo"@[0] == 'E' && "CarrierBuy"@[0] == 'C');
    }
    if name == "DropItems"@ {
        reveal_strlit("DropItems");
        assert("DropItems"@.len() == 9);
    }
    if name == "LaunchDrone"@ {
        reveal_strlit("LaunchDrone");
        assert("LaunchDrone"@.len() == 11);
        assert("LaunchDrone"@[0] == 'L' && "CarrierJump"@[0] == 'C');
    }
    if name == "MiningRefined"@ {
        reveal_strlit("MiningRefined");
        assert("MiningRefined"@.len() == 13);
    }
    if name == "ProspectedAsteroid"@ {
        reveal_strlit("ProspectedAsteroid");
        assert("ProspectedAsteroid"@.len() == 18);
        assert("ProspectedAsteroid"@[0] == 'P' && "CarrierJumpRequest"@[0] == 'C');
    }
    if name == "CargoTransfer"@ {
        reveal_strlit("CargoTransfer");
        assert("CargoTransfer"@.len() == 13);
    }
    if name == "CollectCargo"@ {
        reveal_strlit("CollectCargo");
        assert("CollectCargo"@.len() == 12);
        assert("CollectCargo"@[1] == 'o' && "CarrierStats"@[1] == 'a');
    }
    if name == "Missions"@ {
        reveal_strlit("Missions");
        assert("Missions"@.len() == 8);
    }
    if name == "MissionAccepted"@ {
        reveal_strlit("MissionAccepted");
        assert("MissionAccepted"@.len() == 15);
    }
    if name == "MissionRedirected"@ {
        reveal_strlit("MissionRedirected");
        assert("MissionRedirected"@.len() == 17);
    }
    if name == "MissionCompleted"@ {
        reveal_strlit("MissionCompleted");
        assert("MissionCompleted"@.len() == 16);
    }
    if name == "RedeemVoucher"@ {
        reveal_strlit("RedeemVoucher");
        assert("RedeemVoucher"@.len() == 13);
    }
    if name == "Bounty"@ {
        reveal_strlit("Bounty");
        assert("Bounty"@.len() == 6);
        assert("Bounty"@[0] == 'B' && "Docked"@[0] == 'D');
    }
    if name == "NpcCrewPaidWage"@ {
        reveal_strlit("NpcCrewPaidWage");
        assert("NpcCrewPaidWage"@.len() == 15);
    }
    if name == "PayFines"@ {
        reveal_strlit("PayFines");
        assert("PayFines"@.len() == 8);
    }
    if name == "MissionAbandoned"@ {
        reveal_strlit("MissionAbandoned");
        assert("MissionAbandoned"@.len() == 16);
    }
    if name == "MissionFailed"@ {
        reveal_strlit("MissionFailed");
        assert("MissionFailed"@.len() == 13);
    }
    if name == "PayBounties"@ {
        reveal_strlit("PayBounties");
        assert("PayBounties"@.len() == 11);
        assert("PayBounties"@[0] == 'P' && "CarrierJump"@[0] == 'C');
    }
    if name == "SellOrganicData"@ {
        reveal_strlit("SellOrganicData");
        assert("SellOrganicData"@.len() == 15);
    }
    if name == "CarrierDecommission"@ {
        reveal_strlit("CarrierDecommission");
        assert("CarrierDecommission"@.len() == 19);
    }
    if name == "CarrierTradeOrder"@ {
        reveal_strlit("CarrierTradeOrder");
        assert("CarrierTradeOrder"@.len() == 17);
    }
    if name == "CarrierFinance"@ {
        reveal_strlit("CarrierFinance");
        assert("CarrierFinance"@.len() == 14);
    }
    if name == "CarrierDepositFuel"@ {
        reveal_strlit("CarrierDepositFuel");
        assert("CarrierDepositFuel"@.len() == 18);
        assert("CarrierDepositFuel"@[7] == 'D' && "CarrierJumpRequest"@[7] == 'J');
    }
    if name == "CarrierDockingPermission"@ {
        reveal_strlit("CarrierDockingPermission");
        assert("CarrierDockingPermission"@.len() == 24);
    }
    if name == "CarrierCrewServices"@ {
        reveal_strlit("CarrierCrewServices");
        assert("CarrierCrewServices"@.len() == 19);
    }
    if name == "CarrierModulePack"@ {
        reveal_strlit("CarrierModulePack");
        assert("CarrierModulePack"@.len() == 17);
    }
    if name == "CarrierBankTransfer"@ {
        reveal_strlit("CarrierBankTransfer");
        assert("CarrierBankTransfer"@.len() == 19);
    }
    if name == "BookDropship"@ {
        reveal_strlit("BookDropship");
        assert("BookDropship"@.len() == 12);
        assert("BookDropship"@[0] == 'B' && "CarrierStats"@[0] == 'C');
    }
    if name == "DropshipDeploy"@ {
        reveal_strlit("DropshipDeploy");
        assert("DropshipDeploy"@.len() == 14);
    }
    if name == "WingInvite"@ {
        reveal_strlit("WingInvite");
        assert("WingInvite"@.len() == 10);
        assert("WingInvite"@[0] == 'W' && "CarrierBuy"@[0] == 'C');
    }
    if name == "WingJoin"@ {
        reveal_strlit("WingJoin");
        assert("WingJoin"@.len() == 8);
    }
    if name == "WingAdd"@ {
        reveal_strlit("WingAdd");
        assert("WingAdd"@.len() == 7);
        assert("WingAdd"@[0] == 'W' && "FSDJump"@[0] == 'F');
    }
    if name == "WingLeave"@ {
        reveal_strlit("WingLeave");
        assert("WingLeave"@.len() == 9);
    }
    if name == "CrewMemberQuits"@ {
        reveal_strlit("CrewMemberQuits");
        assert("CrewMemberQuits"@.len() == 15);
    }
    if name == "CrewMemberRoleChange"@ {
        reveal_strlit("CrewMemberRoleChange");
        assert("CrewMemberRoleChange"@.len() == 20);
        assert("CrewMemberRoleChange"@[1] == 'r' && "CarrierJumpCancelled"@[1] == 'a');
    }
    if name == "CrewMemberJoins"@ {
        reveal_strlit("CrewMemberJoins");
        assert("CrewMemberJoins"@.len() == 15);
    }
    if name == "EndCrewSession"@ {
        reveal_strlit("EndCrewSession");
        assert("EndCrewSession"@.len() == 14);
    }
    if name == "SellMicroResources"@ {
        reveal_strlit("SellMicroResources");
        assert("SellMicroResources"@.len() == 18);
        assert("SellMicroResources"@[0] == 'S' && "CarrierJumpRequest"@[0] == 'C');
    }
    if name == "TradeMicroResources"@ {
        reveal_strlit("TradeMicroResources");
        assert("TradeMicroResources"@.len() == 19);
    }
    if name == "FuelScoop"@ {
        reveal_strlit("FuelScoop");
        assert("FuelScoop"@.len() == 9);
    }
    if name == "ReceiveText"@ {
        reveal_strlit("ReceiveText");
        assert("ReceiveText"@.len() == 11);
        assert("ReceiveText"@[0] == 'R' && "CarrierJump"@[0] == 'C');
    }
    if name == "Friends"@ {
        reveal_strlit("Friends");
        assert("Friends"@.len() == 7);
        assert("Friends"@[1] == 'r' && "FSDJump"@[1] == 'S');
    }
    if name == "Scanned"@ {
        reveal_strlit("Scanned");
        assert("Scanned"@.len() == 7);
        assert("Scanned"@[0] == 'S' && "FSDJump"@[0] == 'F');
    }
    if name == "LoadGame"@ {
        reveal_strlit("LoadGame");
        assert("LoadGame"@.len() == 8);
    }
    if name == "SquadronStartup"@ {
        reveal_strlit("SquadronStartup");
        assert("SquadronStartup"@.len() == 15);
    }
    if name == "Music"@ {
        reveal_strlit("Music");
        assert("Music"@.len() == 5);
    }
    if name == "CodexEntry"@ {
        reveal_strlit("CodexEntry");
        assert("CodexEntry"@.len() == 10);
        assert("CodexEntry"@[1] == 'o' && "CarrierBuy"@[1] == 'a');
    }
    if name == "Rank"@ {
        reveal_strlit("Rank");
        assert("Rank"@.len() == 4);
        assert("Rank"@[0] == 'R' && "Scan"@[0] == 'S');
    }
    if name == "Progress"@ {
        reveal_strlit("Progress");
        assert("Progress"@.len() == 8);
    }
    if name == "Reputation"@ {
        reveal_strlit("Reputation");
        assert("Reputation"@.len() == 10);
        assert("Reputation"@[0] == 'R' && "CarrierBuy"@[0] == 'C');
    }
    if name == "Statistics"@ {
        reveal_strlit("Statistics");
        assert("Statistics"@.len() == 10);
        assert("Statistics"@[0] == 'S' && "CarrierBuy"@[0] == 'C');
    }
    if name == "Commander"@ {
        reveal_strlit("Commander");
        assert("Commander"@.len() == 9);
    }
    if name == "PowerplaySalary"@ {
        reveal_strlit("PowerplaySalary");
        assert("PowerplaySalary"@.len() == 15);
    }
    if name == "Powerplay"@ {
        reveal_strlit("Powerplay");
        assert("Powerplay"@.len() == 9);
    }
    if name == "CommitCrime"@ {
        reveal_strlit("CommitCrime");
        assert("CommitCrime"@.len() == 11);
        assert("CommitCrime"@[1] == 'o' && "CarrierJump"@[1] == 'a');
    }
    if name == "DockingDenied"@ {
        reveal_strlit("DockingDenied");
        assert("DockingDenied"@.len() == 13);
    }
    if name == "HeatWarning"@ {
        reveal_strlit("HeatWarning");
        assert("HeatWarning"@.len() == 11);
        assert("HeatWarning"@[0] == 'H' && "CarrierJump"@[0] == 'C');
    }
    if name == "FactionKillBond"@ {
        reveal_strlit("FactionKillBond");
        assert("FactionKillBond"@.len() == 15);
    }
    if name == "MultiSellExplorationData"@ {
        reveal_strlit("MultiSellExplorationData");
        assert("MultiSellExplorationData"@.len() == 24);
    }
    if name == "SwitchSuitLoadout"@ {
        reveal_strlit("SwitchSuitLoadout");
        assert("SwitchSuitLoadout"@.len() == 17);
    }
    if name == "MaterialTrade"@ {
        reveal_strlit("MaterialTrade");
        assert("MaterialTrade"@.len() == 13);
    }
    if name == "CommunityGoal"@ {
        reveal_strlit("CommunityGoal");
        assert("CommunityGoal"@.len() == 13);
    }
    if name == "ModuleRetrieve"@ {
        reveal_strlit("ModuleRetrieve");
        assert("ModuleRetrieve"@.len() == 14);
    }
    if name == "FetchRemoteModule"@ {
        reveal_strlit("FetchRemoteModule");
        assert("FetchRemoteModule"@.len() == 17);
    }
    if name == "SendText"@ {
        reveal_strlit("SendText");
        assert("SendText"@.len() == 8);
    }
    if name == "SearchAndRescue"@ {
        reveal_strlit("SearchAndRescue");
        assert("SearchAndRescue"@.len() == 15);
    }
    if name == "HeatDamage"@ {
        reveal_strlit("HeatDamage");
        assert("HeatDamage"@.len() == 10);
        assert("HeatDamage"@[0] == 'H' && "CarrierBuy"@[0] == 'C');
    }
    if name == "CommunityGoalReward"@ {
        reveal_strlit("CommunityGoalReward");
        assert("CommunityGoalReward"@.len() == 19);
    }
    if name == "NavBeaconScan"@ {
        reveal_strlit("NavBeaconScan");
        assert("NavBeaconScan"@.len() == 13);
    }
    if name == "USSDrop"@ {
        reveal_strlit("USSDrop");
        assert("USSDrop"@.len() == 7);
        assert("USSDrop"@[0] == 'U' && "FSDJump"@[0] == 'F');
    }
    if name == "Interdicted"@ {
        reveal_strlit("Interdicted");
        assert("Interdicted"@.len() == 11);
        assert("Interdicted"@[0] == 'I' && "CarrierJump"@[0] == 'C');
    }
    if name == "Promotion"@ {
        reveal_strlit("Promotion");
        assert("Promotion"@.len() == 9);
    }
    if name == "RepairDrone"@ {
        reveal_strlit("RepairDrone");
        assert("RepairDrone"@.len() == 11);
        assert("RepairDrone"@[0] == 'R' && "CarrierJump"@[0] == 'C');
    }
    if name == "DataScanned"@ {
        reveal_strlit("DataScanned");
        assert("DataScanned"@.len() == 11);
        assert("DataScanned"@[0] == 'D' && "CarrierJump"@[0] == 'C');
    }
    if name == "DatalinkScan"@ {
        reveal_strlit("DatalinkScan");
        assert("DatalinkScan"@.len() == 12);
        assert("DatalinkScan"@[0] == 'D' && "CarrierStats"@[0] == 'C');
    }
    if name == "DatalinkVoucher"@ {
        reveal_strlit("DatalinkVoucher");
        assert("DatalinkVoucher"@.len() == 15);
    }
    if name == "CockpitBreached"@ {
        reveal_strlit("CockpitBreached");
        assert("CockpitBreached"@.len() == 15);
    }
    if name == "SystemsShutdown"@ {
        reveal_strlit("SystemsShutdown");
        assert("SystemsShutdown"@.len() == 15);
    }
    if name == "Screenshot"@ {
        reveal_strlit("Screenshot");
        assert("Screenshot"@.len() == 10);
        assert("Screenshot"@[0] == 'S' && "CarrierBuy"@[0] == 'C');
    }
    if name == "UpgradeWeapon"@ {
        reveal_strlit("UpgradeWeapon");
        assert("UpgradeWeapon"@.len() == 13);
    }
    if name == "PowerplayFastTrack"@ {
        reveal_strlit("PowerplayFastTrack");
        assert("PowerplayFastTrack"@.len() == 18);
        assert("PowerplayFastTrack"@[0] == 'P' && "CarrierJumpRequest"@[0] == 'C');
    }
    if name == "PowerplayCollect"@ {
        reveal_strlit("PowerplayCollect");
        assert("PowerplayCollect"@.len() == 16);
    }
    if name == "PowerplayDeliver"@ {
        reveal_strlit("PowerplayDeliver");
        assert("PowerplayDeliver"@.len() == 16);
    }
    if name == "BookTaxi"@ {
        reveal_strlit("BookTaxi");
        assert("BookTaxi"@.len() == 8);
    }
    if name == "SharedBookmarkToSquadron"@ {
        reveal_strlit("SharedBookmarkToSquadron");
        assert("SharedBookmarkToSquadron"@.len() == 24);
    }
    if name == "MaterialDiscovered"@ {
        reveal_strlit("MaterialDiscovered");
        assert("MaterialDiscovered"@.len() == 18);
        assert("MaterialDiscovered"@[0] == 'M' && "CarrierJumpRequest"@[0] == 'C');
    }
    if name == "SetUserShipName"@ {
        reveal_strlit("SetUserShipName");
        assert("SetUserShipName"@.len() == 15);
    }
    if name == "FCMaterials"@ {
        reveal_strlit("FCMaterials");
        assert("FCMaterials"@.len() == 11);
        assert("FCMaterials"@[0] == 'F' && "CarrierJump"@[0] == 'C');
    }
    if name == "CommunityGoalJoin"@ {
        reveal_strlit("CommunityGoalJoin");
        assert("CommunityGoalJoin"@.len() == 17);
    }
    if name == "SupercruiseDestinationDrop"@ {
        reveal_strlit("SupercruiseDestinationDrop");
        assert("SupercruiseDestinationDrop"@.len() == 26);
    }
    if name == "JetConeBoost"@ {
        reveal_strlit("JetConeBoost");
        assert("JetConeBoost"@.len() == 12);
        assert("JetConeBoost"@[0] == 'J' && "CarrierStats"@[0] == 'C');
    }
    if name == "AsteroidCracked"@ {
        reveal_strlit("AsteroidCracked");
        assert("AsteroidCracked"@.len() == 15);
    }
    if name == "EscapeInterdiction"@ {
        reveal_strlit("EscapeInterdiction");
        assert("EscapeInterdiction"@.len() == 18);
        assert("EscapeInterdiction"@[0] == 'E' && "CarrierJumpRequest"@[0] == 'C');
    }
    if name == "TechnologyBroker"@ {
        reveal_strlit("TechnologyBroker");
        assert("TechnologyBroker"@.len() == 16);
    }
    if name == "NavBeaconDetail"@ {
        reveal_strlit("NavBeaconDetail");
        assert("NavBeaconDetail"@.len() == 15);
    }
    if name == "Died"@ {
        reveal_strlit("Died");
        assert("Died"@.len() == 4);
        assert("Died"@[0] == 'D' && "Scan"@[0] == 'S');
    }
    if name == "Resurrect"@ {
        reveal_strlit("Resurrect");
        assert("Resurrect"@.len() == 9);
    }
    if name == "SelfDestruct"@ {
        reveal_strlit("SelfDestruct");
        assert("SelfDestruct"@.len() == 12);
        assert("SelfDestruct"@[0] == 'S' && "CarrierStats"@[0] == 'C');
    }
    if name == "Fileheader"@ {
        reveal_strlit("Fileheader");
        assert("Fileheader"@.len() == 10);
        assert("Fileheader"@[0] == 'F' && "CarrierBuy"@[0] == 'C');
    }
    if name == "Shutdown"@ {
        reveal_strlit("Shutdown");
        assert("Shutdown"@.len() == 8);
    }
}

/// Each contract call is encoded as the EDCAS function of its name with its
/// arguments in the contract's order, structs with their fields in order:
/// `registerCarrier` takes the carrier id, name, callsign, services, docking
/// access, whether notorious pilots are allowed and the timestamp; a
/// commodity listing is its buy, sell and mean price, stock, demand, stock
/// bracket and demand bracket; and so on for every call.
pub proof fn lemma_contract_argument_order(call: ContractCall, function: Seq<char>, args: Seq<AbiValue>)
    requires
        encodes(call, function, args),
    ensures
        match call {
            ContractCall::RegisterSystem {
                system_address,
                name,
                allegiance,
                economy,
                second_economy,
                security,
                population,
                timestamp,
            } => {
                &&& function == "registerSystem"@
                &&& args.len() == 8
                &&& args[0] == AbiValue::Uint(system_address)
                &&& is_text(args[1], name@)
                &&& is_text(args[2], allegiance@)
                &&& is_text(args[3], economy@)
                &&& is_text(args[4], second_economy@)
                &&& is_text(args[5], security@)
                &&& args[6] == AbiValue::Uint(population)
                &&& args[7] == AbiValue::Time(timestamp)
            },
            ContractCall::RegisterPlanet {
                system_address,
                body_id,
                name,
                was_discovered,
                was_mapped,
                planet,
                body,
                timestamp,
            } => {
                &&& function == "registerPlanet"@
                &&& args.len() == 8
                &&& args[0] == AbiValue::Uint(system_address)
                &&& args[1] == AbiValue::Uint(body_id as u64)
                &&& is_text(args[2], name@)
                &&& args[3] == AbiValue::Bool(was_discovered)
                &&& args[4] == AbiValue::Bool(was_mapped)
                &&& args[5] matches AbiValue::Tuple(pa)
                &&& pa@.len() == 16
                &&& pa@[2] == AbiValue::Bool(planet.landable)
                &&& pa@[5] == AbiValue::Bool(planet.tidal_lock)
                &&& args[6] matches AbiValue::Tuple(ba)
                &&& ba@.len() == 5
                &&& args[7] == AbiValue::Time(timestamp)
            },
            ContractCall::RegisterStar {
                system_address,
                body_id,
                name,
                was_discovered,
                was_mapped,
                star,
                body,
                timestamp,
            } => {
                &&& function == "registerStar"@
                &&& args.len() == 8
                &&& args[0] == AbiValue::Uint(system_address)
                &&& args[1] == AbiValue::Uint(body_id as u64)
                &&& is_text(args[2], name@)
                &&& args[3] == AbiValue::Bool(was_discovered)
                &&& args[4] == AbiValue::Bool(was_mapped)
                &&& args[5] matches AbiValue::Tuple(sa)
                &&& sa@.len() == 6
                &&& sa@[0] == AbiValue::Uint(star.subclass as u64)
                &&& sa@[1] == AbiValue::Uint(star.age_my as u64)
                &&& args[6] matches AbiValue::Tuple(ba)
                &&& ba@.len() == 5
                &&& args[7] == AbiValue::Time(timestamp)
            },
            ContractCall::RegisterCarrier {
                carrier_id,
                name,
                callsign,
                services,
                docking_access,
                allow_notorious,
                timestamp,
            } => {
                &&& function == "registerCarrier"@
                &&& args.len() == 7
                &&& args[0] == AbiValue::Uint(carrier_id)
                &&& is_text(args[1], name@)
                &&& is_text(args[2], callsign@)
                &&& is_text(args[3], services@)
                &&& is_text(args[4], docking_access@)
                &&& args[5] == AbiValue::Bool(allow_notorious)
                &&& args[6] == AbiValue::Time(timestamp)
            },
            ContractCall::ReportCarrierLocation { carrier_id, system, body_name, timestamp } => {
                &&& function == "reportCarrierLocation"@
                &&& args.len() == 4
                &&& args[0] == AbiValue::Uint(carrier_id)
                &&& is_text(args[1], system@)
                &&& is_text(args[2], body_name@)
                &&& args[3] == AbiValue::Time(timestamp)
            },
            ContractCall::RegisterStation {
                market_id,
                name,
                station_type,
                system_address,
                system,
                faction,
                government,
                economy,
                services,
                distance,
                landing_pads,
                timestamp,
            } => {
                &&& function == "registerStation"@
                &&& args.len() == 12
                &&& args[0] == AbiValue::Uint(market_id)
                &&& is_text(args[1], name@)
                &&& is_text(args[2], station_type@)
                &&& args[3] == AbiValue::Uint(system_address)
                &&& is_text(args[4], system@)
                &&& args[5] matches AbiValue::Tuple(fa)
                &&& fa@.len() == 2
                &&& is_text(fa@[0], faction.name@)
                &&& is_text(fa@[1], faction.state@)
                &&& is_text(args[6], government@)
                &&& is_text(args[7], economy@)
                &&& is_text(args[8], services@)
                &&& is_floating(args[9], distance)
                &&& is_text(args[10], landing_pads@)
                &&& args[11] == AbiValue::Time(timestamp)
            },
            ContractCall::EmitCarrierJump { carrier_id, system, body_name, departure } => {
                &&& function == "emitCarrierJump"@
                &&& args.len() == 4
                &&& args[0] == AbiValue::Uint(carrier_id)
                &&& is_text(args[1], system@)
                &&& is_text(args[2], body_name@)
                &&& args[3] == AbiValue::Time(departure)
            },
            ContractCall::CancelCarrierJump { carrier_id } => {
                &&& function == "cancelCarrierJump"@
                &&& args == seq![AbiValue::Uint(carrier_id)]
            },
            ContractCall::RegisterCommodityListening { market_id, name, listening } => {
                &&& function == "registerCommodityListening"@
                &&& args.len() == 3
                &&& args[0] == AbiValue::Uint(market_id)
                &&& is_text(args[1], name@)
                &&& args[2] matches AbiValue::Tuple(la)
                &&& la@ == seq![
                    AbiValue::Uint(listening.buy_price as u64),
                    AbiValue::Uint(listening.sell_price as u64),
                    AbiValue::Uint(listening.mean_price as u64),
                    AbiValue::Uint(listening.stock as u64),
                    AbiValue::Uint(listening.demand as u64),
                    AbiValue::Uint(listening.stock_bracket as u64),
                    AbiValue::Uint(listening.demand_bracket as u64),
                ]
            },
        },
{
}

/// `RETRY_TIMEOUT` is the number of connection retries as the text writes it,
/// with an optional sign, for every value that fits an `i32`; 100 only where
/// the value is missing, is no decimal integer, or does not fit.
pub proof fn lemma_retry_limit_is_the_written_number(value: Seq<char>)
    ensures
        signed_decimal(value) is Some && i32::MIN <= signed_decimal(value)->0 <= i32::MAX
            ==> retry_limit_of(Some(value)) == signed_decimal(value)->0,
        all_digits(value) && value.len() > 0 && digits_value(value) <= i32::MAX ==> retry_limit_of(Some(value)) == digits_value(value),
        (signed_decimal(value) matches Some(x) ==> x < i32::MIN || x > i32::MAX) ==> retry_limit_of(Some(value)) == 100,
        retry_limit_of(None) == 100,
{
    lemma_written_numbers(value);
}

/// `DURATION_TIMEOUT` is the number of seconds between retries as the text
/// writes it, for every value that fits a `u64`; 5 only where the value is
/// missing, negative, no decimal integer, or does not fit.
pub proof fn lemma_retry_delay_is_the_written_number(value: Seq<char>)
    ensures
        unsigned_decimal(value) is Some && unsigned_decimal(value)->0 <= u64::MAX
            ==> retry_delay_of(Some(value)) == unsigned_decimal(value)->0,
        all_digits(value) && value.len() > 0 && digits_value(value) <= u64::MAX ==> retry_delay_of(Some(value)) == digits_value(value),
        (unsigned_decimal(value) matches Some(x) ==> x > u64::MAX) ==> retry_delay_of(Some(value)) == 5,
        retry_delay_of(None) == 5,
{
    lemma_written_numbers(value);
}

/// The flags `-evm`, `-pk`, `-sc`, `-rt` and `-dt` set `EVM_URL`,
/// `PRIVATE_KEY`, `SC_ADDRESS`, `RETRY_TIMEOUT` and `DURATION_TIMEOUT`, and no
/// other argument sets anything.
pub proof fn lemma_flags_set_their_variables(flag: Seq<char>)
    ensures
        flag == "-evm"@ ==> (flag_setting(flag) matches Some(s) && s.spec_variable() == "EVM_URL"@),
        flag == "-pk"@ ==> (flag_setting(flag) matches Some(s) && s.spec_variable() == "PRIVATE_KEY"@),
        flag == "-sc"@ ==> (flag_setting(flag) matches Some(s) && s.spec_variable() == "SC_ADDRESS"@),
        flag == "-rt"@ ==> (flag_setting(flag) matches Some(s) && s.spec_variable() == "RETRY_TIMEOUT"@),
        flag == "-dt"@ ==> (flag_setting(flag) matches Some(s) && s.spec_variable() == "DURATION_TIMEOUT"@),
        flag_setting(flag) is Some ==> flag == "-evm"@ || flag == "-pk"@ || flag == "-sc"@ || flag == "-rt"@
            || flag == "-dt"@,
{
    reveal_strlit("-evm");
    reveal_strlit("-pk");
    reveal_strlit("-sc");
    reveal_strlit("-rt");
    reveal_strlit("-dt");
    assert("-evm"@.len() == 4);
    assert("-pk"@[1] == 'p' && "-sc"@[1] == 's' && "-rt"@[1] == 'r' && "-dt"@[1] == 'd');
}

/// A failed send is worth a retry exactly when the provider's JSON-RPC client
/// failed while the call was pending, or the middleware refused it; its text
/// is the failure's message, but for a revert, which reports the reason text of
/// its data and is never retried.
pub proof fn lemma_which_failures_are_retried(cause: ProviderFailure, failure: SubmitFailure, message: Seq<char>)
    ensures
        pending_verdict(cause, message) == (cause == ProviderFailure::JsonRpcClientError, message),
        !(failure is Revert) ==> rejected_verdict(failure, message) == Some(
            (failure == SubmitFailure::MiddlewareError, message),
        ),
        failure matches SubmitFailure::Revert(data) ==> rejected_verdict(failure, message) == (
            if data.len() >= 67 && revert_reason(data@) is Some {
                Some((false, revert_reason(data@)->0))
            } else {
                None
            }
        ),
{
}

/// A decimal integer without a minus sign is never negative, and a non-empty
/// digit string is read as its value.
proof fn lemma_written_numbers(value: Seq<char>)
    ensures
        unsigned_decimal(value) matches Some(x) ==> x >= 0,
        all_digits(value) && value.len() > 0 ==> signed_decimal(value) == Some(digits_value(value))
            && unsigned_decimal(value) == Some(digits_value(value)),
{
    if value.len() > 0 {
        let d = value.drop_first();
        if all_digits(d) {
            lemma_digits_prefix(d, d.len() as int);
            assert(d.take(d.len() as int) =~= d);
        }
        if all_digits(value) {
            assert('0' <= value[0] && value[0] <= '9');
            lemma_digits_prefix(value, value.len() as int);
            assert(value.take(value.len() as int) =~= value);
        }
    }
}

} // verus!
