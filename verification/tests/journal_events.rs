use inx_eddn::journal::{
    body_properties_ready, classify_event, extract_body_properties, extract_planet_properties,
    extract_star_properties, planet_properties_ready, star_properties_ready,
    interpret_event, interpret_message, process_jump, BodyProperties, CommodityListening,
    ContractCall, EventKind, Faction,
};
use inx_eddn::value::{Json, JsonMember, JsonNumber};
use inx_eddn::number::Floating;

fn s(text: &str) -> Json {
    Json::Str(text.to_string())
}

fn num(v: u64) -> Json {
    Json::Number(JsonNumber { positive: true, mantissa: v, exponent: 0, text: v.to_string() })
}

fn dec(text: &str) -> Json {
    let negative = text.starts_with('-');
    let digits: String = text.chars().filter(|c| c.is_ascii_digit()).collect();
    let exponent = text.split('.').nth(1).map(|f| -(f.len() as i16)).unwrap_or(0);
    Json::Number(JsonNumber {
        positive: !negative,
        mantissa: digits.parse().unwrap(),
        exponent,
        text: text.to_string(),
    })
}

fn b(v: bool) -> Json {
    Json::Boolean(v)
}

fn obj(members: Vec<(&str, Json)>) -> Json {
    let dump = format!("{{{}}}", members.iter().map(|(k, _)| format!("\"{}\":..", k)).collect::<Vec<_>>().join(","));
    Json::Object(
        members.into_iter().map(|(k, v)| JsonMember { key: k.to_string(), value: v }).collect(),
        dump,
    )
}

fn arr(items: Vec<Json>) -> Json {
    Json::Array(items, "[..]".to_string())
}

fn fl(decimal: i128, floating_point: u8) -> Floating {
    Floating { decimal, floating_point }
}

const TS: &str = "2022-10-16T23:25:31Z";
const TS_SECONDS: i64 = 1665962731;

fn jump_event() -> Json {
    obj(vec![
        ("timestamp", s(TS)),
        ("event", s("FSDJump")),
        ("StarSystem", s("Ogmar")),
        ("SystemAddress", num(84180519395914)),
        ("SystemAllegiance", s("Independent")),
        ("SystemEconomy", s("$economy_HighTech;")),
        ("SystemSecondEconomy", s("$economy_Military;")),
        ("SystemSecurity", s("$SYSTEM_SECURITY_medium;")),
        ("Population", num(151752)),
        ("JumpDist", dec("8.625")),
    ])
}

#[test]
fn jump_registers_the_system() {
    let plan = process_jump(&jump_event());
    assert!(plan.complete);
    assert_eq!(
        plan.calls,
        vec![ContractCall::RegisterSystem {
            system_address: 84180519395914,
            name: "Ogmar".to_string(),
            allegiance: "Independent".to_string(),
            economy: "$economy_HighTech;".to_string(),
            second_economy: "$economy_Military;".to_string(),
            security: "$SYSTEM_SECURITY_medium;".to_string(),
            population: 151752,
            timestamp: TS_SECONDS,
        }]
    );
    assert_eq!(interpret_event(&jump_event()), plan);
}

#[test]
fn jump_without_population_or_allegiance() {
    let e = obj(vec![
        ("timestamp", s(TS)),
        ("event", s("CarrierJump")),
        ("SystemAddress", num(7)),
    ]);
    let plan = interpret_event(&e);
    assert!(plan.complete);
    match &plan.calls[..] {
        [ContractCall::RegisterSystem { system_address, name, population, allegiance, .. }] => {
            assert_eq!(*system_address, 7);
            assert_eq!(name, "null");
            assert_eq!(allegiance, "null");
            assert_eq!(*population, 0);
        }
        other => panic!("unexpected {:?}", other),
    }
}

#[test]
fn jump_with_bad_timestamp_stops() {
    let e = obj(vec![("timestamp", s("yesterday")), ("event", s("FSDJump")), ("SystemAddress", num(7))]);
    let plan = interpret_event(&e);
    assert!(plan.calls.is_empty());
    assert!(!plan.complete);
    let e = obj(vec![("timestamp", s(TS)), ("event", s("FSDJump")), ("SystemAddress", dec("7.0"))]);
    assert!(!interpret_event(&e).complete);
}

#[test]
fn events_are_classified_by_name() {
    assert_eq!(classify_event("FSDJump"), EventKind::Jump);
    assert_eq!(classify_event("CarrierJump"), EventKind::Jump);
    assert_eq!(classify_event("Scan"), EventKind::Scan);
    assert_eq!(classify_event("Docked"), EventKind::Docked);
    assert_eq!(classify_event("CarrierJumpRequest"), EventKind::CarrierJumpRequest);
    assert_eq!(classify_event("CarrierJumpCancelled"), EventKind::CarrierJumpCancelled);
    assert_eq!(classify_event("CarrierBuy"), EventKind::CarrierBuy);
    assert_eq!(classify_event("CarrierStats"), EventKind::CarrierStats);
    for quiet in ["Location", "Shutdown", "SAASignalsFound", "FSSBodySignals", "Undocked", "Market", "NavBeaconDetail"] {
        assert_eq!(classify_event(quiet), EventKind::Quiet, "{}", quiet);
    }
    assert_eq!(classify_event("null"), EventKind::Market);
    assert_eq!(classify_event("SomethingNew"), EventKind::Market);
    assert_eq!(classify_event("fsdjump"), EventKind::Market);
}

#[test]
fn quiet_events_record_nothing() {
    let e = obj(vec![
        ("event", s("Location")),
        ("marketId", num(1)),
        ("commodities", arr(vec![obj(vec![("name", s("Gold"))])])),
    ]);
    let plan = interpret_event(&e);
    assert!(plan.calls.is_empty());
    assert!(plan.complete);
}

fn body_fields() -> Vec<(&'static str, Json)> {
    vec![
        ("Radius", dec("22773508.000000")),
        ("DistanceFromArrivalLS", dec("3376.246435")),
        ("AxialTilt", dec("0.018931")),
        ("RotationPeriod", dec("37417.276422")),
        ("SurfaceTemperature", dec("62.810730")),
    ]
}

fn planet_scan() -> Json {
    let mut m = vec![
        ("timestamp", s("2022-10-16T23:51:17Z")),
        ("event", s("Scan")),
        ("BodyName", s("Ogmar A 6")),
        ("BodyID", num(40)),
        ("StarSystem", s("Ogmar")),
        ("SystemAddress", num(84180519395914)),
        ("TidalLock", b(false)),
        ("TerraformState", s("")),
        ("PlanetClass", s("Sudarsky class I gas giant")),
        ("Atmosphere", s("")),
        ("Volcanism", s("")),
        ("MassEM", dec("24.477320")),
        ("SurfaceGravity", dec("18.811067")),
        ("SurfacePressure", dec("0.000000")),
        ("Landable", b(false)),
        ("SemiMajorAxis", dec("1304152250289.916992")),
        ("Eccentricity", dec("0.252734")),
        ("OrbitalInclination", dec("156.334694")),
        ("Periapsis", dec("269.403039")),
        ("OrbitalPeriod", dec("990257555.246353")),
        ("AscendingNode", dec("-1.479320")),
        ("MeanAnomaly", dec("339.074691")),
        ("WasDiscovered", b(true)),
        ("WasMapped", b(true)),
    ];
    m.extend(body_fields());
    obj(m)
}

#[test]
fn planet_scan_registers_the_planet() {
    let e = planet_scan();
    assert!(planet_properties_ready(&e) && body_properties_ready(&e));
    let planet = extract_planet_properties(&e);
    assert_eq!(planet.class, "Sudarsky class I gas giant");
    assert_eq!(planet.mass_em, fl(24477320, 6));
    assert_eq!(planet.surface_pressure, fl(0, 6));
    assert_eq!(planet.ascending_node, fl(-1479320, 6));
    assert_eq!(planet.semi_major_axis, fl(1304152250289916992, 6));
    assert!(!planet.tidal_lock && !planet.landable);
    let body = extract_body_properties(&e);
    assert_eq!(
        body,
        BodyProperties {
            radius: fl(22773508000000, 6),
            distance_from_arrival_ls: fl(3376246435, 6),
            axial_tilt: fl(18931, 6),
            rotation_period: fl(37417276422, 6),
            surface_temperature: fl(62810730, 6),
        }
    );
    let plan = interpret_event(&e);
    assert!(plan.complete);
    match &plan.calls[..] {
        [ContractCall::RegisterPlanet { system_address, body_id, name, was_discovered, was_mapped, planet: p, body: bd, timestamp }] => {
            assert_eq!((*system_address, *body_id), (84180519395914, 40));
            assert_eq!(name, "Ogmar A 6");
            assert!(*was_discovered && *was_mapped);
            assert_eq!(p, &planet);
            assert_eq!(bd, &body);
            assert_eq!(*timestamp, 1665964277);
        }
        other => panic!("unexpected {:?}", other),
    }
}

#[test]
fn planet_without_tidal_lock_stops_but_missing_ascending_node_is_zero() {
    let Json::Object(members, dump) = planet_scan() else { unreachable!() };
    let without = |key: &str| {
        let kept: Vec<JsonMember> = members
            .iter()
            .filter(|m| m.key != key)
            .map(|m| JsonMember { key: m.key.clone(), value: clone_json(&m.value) })
            .collect();
        Json::Object(kept, dump.clone())
    };
    let no_lock = without("TidalLock");
    assert!(!planet_properties_ready(&no_lock));
    let plan = interpret_event(&no_lock);
    assert!(plan.calls.is_empty() && !plan.complete);
    let no_node = without("AscendingNode");
    assert!(planet_properties_ready(&no_node));
    assert_eq!(extract_planet_properties(&no_node).ascending_node, fl(0, 0));
    let no_mass = without("MassEM");
    assert!(!planet_properties_ready(&no_mass));
    let no_radius = without("Radius");
    assert!(planet_properties_ready(&no_radius) && !body_properties_ready(&no_radius));
    assert!(interpret_event(&no_radius).calls.is_empty());
}

fn clone_json(v: &Json) -> Json {
    match v {
        Json::Null => Json::Null,
        Json::Str(t) => Json::Str(t.clone()),
        Json::Number(n) => Json::Number(JsonNumber { positive: n.positive, mantissa: n.mantissa, exponent: n.exponent, text: n.text.clone() }),
        Json::Boolean(x) => Json::Boolean(*x),
        Json::Array(items, d) => Json::Array(items.iter().map(clone_json).collect(), d.clone()),
        Json::Object(ms, d) => Json::Object(
            ms.iter().map(|m| JsonMember { key: m.key.clone(), value: clone_json(&m.value) }).collect(),
            d.clone(),
        ),
    }
}

#[test]
fn star_scan_registers_the_star() {
    let mut m = vec![
        ("timestamp", s("2024-03-26T21:27:53Z")),
        ("event", s("Scan")),
        ("AbsoluteMagnitude", dec("8.518448")),
        ("Age_MY", num(446)),
        ("BodyID", num(0)),
        ("BodyName", s("Hyades Sector BB-N b7-5")),
        ("Luminosity", s("Va")),
        ("StarType", s("M")),
        ("StellarMass", dec("0.394531")),
        ("Subclass", num(1)),
        ("SystemAddress", num(11666070513017)),
        ("WasDiscovered", b(true)),
        ("WasMapped", b(false)),
    ];
    m.extend(body_fields());
    let e = obj(m);
    assert!(star_properties_ready(&e));
    let star = extract_star_properties(&e);
    assert_eq!((star.subclass, star.age_my), (1, 446));
    assert_eq!(star.type_, "M");
    assert_eq!(star.stellar_mass, fl(394531, 6));
    assert_eq!(star.absolute_magnitude, fl(8518448, 6));
    let plan = interpret_event(&e);
    assert!(plan.complete);
    assert!(matches!(&plan.calls[..], [ContractCall::RegisterStar { body_id: 0, was_mapped: false, timestamp: 1711488473, .. }]));
}

#[test]
fn star_with_large_age_stops() {
    let e = obj(vec![("Subclass", num(1)), ("Age_MY", num(70000)), ("StellarMass", dec("1.0")), ("AbsoluteMagnitude", dec("1.0"))]);
    assert!(!star_properties_ready(&e));
    let young = obj(vec![("Subclass", num(1)), ("Age_MY", num(65535)), ("StellarMass", dec("1.0")), ("AbsoluteMagnitude", dec("1.0"))]);
    assert!(star_properties_ready(&young));
    let no_subclass = obj(vec![("Age_MY", num(4)), ("StellarMass", dec("1.0")), ("AbsoluteMagnitude", dec("1.0"))]);
    assert!(!star_properties_ready(&no_subclass));
}

#[test]
fn belt_clusters_and_rings_are_skipped() {
    for name in ["Ogmar A Belt Cluster 1", "Ogmar A 1 A Ring"] {
        let e = obj(vec![("event", s("Scan")), ("BodyName", s(name))]);
        let plan = interpret_event(&e);
        assert!(plan.calls.is_empty());
        assert!(plan.complete);
    }
}

fn docked(station_type: &str) -> Json {
    obj(vec![
        ("timestamp", s("2024-04-02T21:22:42Z")),
        ("event", s("Docked")),
        ("StationName", s("Q2K-BHB")),
        ("StationType", s(station_type)),
        ("StarSystem", s("Dulos")),
        ("SystemAddress", num(13865362204089)),
        ("MarketID", num(3704402432)),
        ("StationFaction", obj(vec![("Name", s("The Sovereign Justice Collective")), ("FactionState", s("Bust"))])),
        ("StationGovernment", s("$government_Dictatorship;")),
        ("StationServices", arr(vec![s("dock"), s("autodock"), s("commodities")])),
        ("StationEconomy", s("$economy_Refinery;")),
        ("DistFromStarLS", dec("20.275191")),
        ("LandingPads", Json::Object(vec![], "{\"Small\":11,\"Medium\":13,\"Large\":6}".to_string())),
    ])
}

#[test]
fn docked_fleet_carrier_registers_and_reports_location() {
    let plan = interpret_event(&docked("FleetCarrier"));
    assert!(plan.complete);
    assert_eq!(
        plan.calls,
        vec![
            ContractCall::RegisterCarrier {
                carrier_id: 3704402432,
                name: "Fleet Carrier".to_string(),
                callsign: "Q2K-BHB".to_string(),
                services: "dock,autodock,commodities".to_string(),
                docking_access: String::new(),
                allow_notorious: false,
                timestamp: 1712092962,
            },
            ContractCall::ReportCarrierLocation {
                carrier_id: 3704402432,
                system: "Dulos".to_string(),
                body_name: "Unkown".to_string(),
                timestamp: 1712092962,
            },
        ]
    );
}

#[test]
fn docked_station_registers_the_station() {
    let plan = interpret_event(&docked("Ocellus"));
    assert!(plan.complete);
    assert_eq!(
        plan.calls,
        vec![ContractCall::RegisterStation {
            market_id: 3704402432,
            name: "Q2K-BHB".to_string(),
            station_type: "Ocellus".to_string(),
            system_address: 13865362204089,
            system: "Dulos".to_string(),
            faction: Faction { name: "The Sovereign Justice Collective".to_string(), state: "Bust".to_string() },
            government: "$government_Dictatorship;".to_string(),
            economy: "$economy_Refinery;".to_string(),
            services: "dock,autodock,commodities".to_string(),
            distance: fl(20275191, 6),
            landing_pads: "{\"Small\":11,\"Medium\":13,\"Large\":6}".to_string(),
            timestamp: 1712092962,
        }]
    );
}

#[test]
fn docked_with_a_service_that_is_no_string_stops() {
    let e = obj(vec![
        ("event", s("Docked")),
        ("StationType", s("Ocellus")),
        ("StationServices", arr(vec![s("dock"), num(3)])),
    ]);
    let plan = interpret_event(&e);
    assert!(plan.calls.is_empty() && !plan.complete);
}

#[test]
fn fleet_carrier_without_system_is_registered_then_stops() {
    let e = obj(vec![
        ("timestamp", s(TS)),
        ("event", s("Docked")),
        ("StationName", s("Q2K-BHB")),
        ("StationType", s("FleetCarrier")),
        ("MarketID", num(9)),
    ]);
    let plan = interpret_event(&e);
    assert_eq!(plan.calls.len(), 1);
    assert!(matches!(&plan.calls[0], ContractCall::RegisterCarrier { carrier_id: 9, services, .. } if services.is_empty()));
    assert!(!plan.complete);
}

#[test]
fn empty_services_leave_no_leading_comma() {
    let e = obj(vec![
        ("timestamp", s(TS)),
        ("event", s("Docked")),
        ("StationName", s("X")),
        ("StationType", s("FleetCarrier")),
        ("MarketID", num(9)),
        ("StarSystem", s("Sol")),
        ("StationServices", arr(vec![s(""), s("a"), s(""), s("b")])),
    ]);
    let plan = interpret_event(&e);
    assert!(matches!(&plan.calls[0], ContractCall::RegisterCarrier { services, .. } if services == "a,,b"));
}

#[test]
fn carrier_jump_request_and_cancel() {
    let e = obj(vec![
        ("timestamp", s("2020-04-20T09:30:58Z")),
        ("event", s("CarrierJumpRequest")),
        ("CarrierID", num(3700005632)),
        ("SystemName", s("Paesui Xena")),
        ("Body", s("Paesui Xena A")),
        ("SystemAddress", num(7269634680241)),
        ("BodyID", num(1)),
        ("DepartureTime", s("2020-04-20T09:45:00Z")),
    ]);
    let plan = interpret_event(&e);
    assert_eq!(
        plan.calls,
        vec![ContractCall::EmitCarrierJump {
            carrier_id: 3700005632,
            system: "Paesui Xena".to_string(),
            body_name: "Paesui Xena A".to_string(),
            departure: 1587375900,
        }]
    );
    let cancel = obj(vec![("event", s("CarrierJumpCancelled")), ("CarrierID", num(3700005632))]);
    assert_eq!(interpret_event(&cancel).calls, vec![ContractCall::CancelCarrierJump { carrier_id: 3700005632 }]);
    let cancel = obj(vec![("event", s("CarrierJumpCancelled"))]);
    let plan = interpret_event(&cancel);
    assert!(plan.calls.is_empty() && !plan.complete);
}

#[test]
fn carrier_buy_registers_the_carrier() {
    let e = obj(vec![
        ("timestamp", s("2020-03-11T15:31:46Z")),
        ("event", s("CarrierBuy")),
        ("CarrierID", num(3700029440)),
        ("Callsign", s("P07-V3L")),
    ]);
    let plan = interpret_event(&e);
    assert_eq!(
        plan.calls,
        vec![ContractCall::RegisterCarrier {
            carrier_id: 3700029440,
            name: "Fleet Carrier".to_string(),
            callsign: "P07-V3L".to_string(),
            services: String::new(),
            docking_access: String::new(),
            allow_notorious: false,
            timestamp: 1583940706,
        }]
    );
}

#[test]
fn carrier_stats_lists_activated_crew() {
    let e = obj(vec![
        ("timestamp", s("2024-03-31T18:14:39Z")),
        ("event", s("CarrierStats")),
        ("CarrierID", num(3704402432)),
        ("Callsign", s("Q2K-BHB")),
        ("Name", s("FUXBAU")),
        ("DockingAccess", s("all")),
        ("AllowNotorious", b(true)),
        (
            "Crew",
            arr(vec![
                obj(vec![("CrewRole", s("BlackMarket")), ("Activated", b(false))]),
                obj(vec![("CrewRole", s("Captain")), ("Activated", b(true))]),
                obj(vec![("CrewRole", s("Refuel")), ("Activated", b(true))]),
                obj(vec![("CrewRole", s("Repair"))]),
            ]),
        ),
    ]);
    let plan = interpret_event(&e);
    assert_eq!(
        plan.calls,
        vec![ContractCall::RegisterCarrier {
            carrier_id: 3704402432,
            name: "FUXBAU".to_string(),
            callsign: "Q2K-BHB".to_string(),
            services: "Captain,Refuel".to_string(),
            docking_access: "all".to_string(),
            allow_notorious: true,
            timestamp: 1711908879,
        }]
    );
}

fn commodity(name: Json, buy: u64, demand: u64) -> Json {
    obj(vec![
        ("buyPrice", num(buy)),
        ("demand", num(demand)),
        ("demandBracket", num(3)),
        ("meanPrice", num(1485)),
        ("name", name),
        ("sellPrice", num(1730)),
        ("stock", num(0)),
        ("stockBracket", num(0)),
    ])
}

#[test]
fn market_lists_commodities_in_lower_case() {
    let e = obj(vec![
        ("commodities", arr(vec![commodity(s("AdvancedMedicines"), 0, 27783), commodity(s("algae"), 5, 293228)])),
        ("marketId", num(3224312064)),
        ("stationName", s("Schmidt Orbital")),
    ]);
    let plan = interpret_event(&e);
    assert!(plan.complete);
    assert_eq!(
        plan.calls,
        vec![
            ContractCall::RegisterCommodityListening {
                market_id: 3224312064,
                name: "advancedmedicines".to_string(),
                listening: CommodityListening { buy_price: 0, sell_price: 1730, mean_price: 1485, stock: 0, demand: 27783, stock_bracket: 0, demand_bracket: 3 },
            },
            ContractCall::RegisterCommodityListening {
                market_id: 3224312064,
                name: "algae".to_string(),
                listening: CommodityListening { buy_price: 5, sell_price: 1730, mean_price: 1485, stock: 0, demand: 293228, stock_bracket: 0, demand_bracket: 3 },
            },
        ]
    );
}

#[test]
fn market_stops_at_a_commodity_without_name() {
    let e = obj(vec![
        ("commodities", arr(vec![commodity(s("Gold"), 1, 2), commodity(num(5), 1, 2), commodity(s("Silver"), 1, 2)])),
        ("marketId", num(1)),
    ]);
    let plan = interpret_event(&e);
    assert_eq!(plan.calls.len(), 1);
    assert!(!plan.complete);
    let no_market = obj(vec![("commodities", arr(vec![commodity(s("Gold"), 1, 2)]))]);
    let plan = interpret_event(&no_market);
    assert!(plan.calls.is_empty() && !plan.complete);
}

#[test]
fn prices_out_of_range_count_as_zero() {
    let e = obj(vec![
        ("commodities", arr(vec![commodity(s("Gold"), 5_000_000_000, 2)])),
        ("marketId", num(1)),
    ]);
    let plan = interpret_event(&e);
    assert!(matches!(&plan.calls[0], ContractCall::RegisterCommodityListening { listening, .. } if listening.buy_price == 0));
}

#[test]
fn messages_without_commodities_record_nothing() {
    let e = obj(vec![("modules", arr(vec![s("Hpt_beamlaser_fixed_large")])), ("marketId", num(1))]);
    let plan = interpret_event(&e);
    assert!(plan.calls.is_empty() && plan.complete);
}

#[test]
fn the_message_member_is_interpreted() {
    let envelope = obj(vec![("$schemaRef", s("https://eddn.edcd.io/schemas/journal/1")), ("message", jump_event())]);
    let plan = interpret_message(&envelope);
    assert_eq!(plan.calls.len(), 1);
    assert!(matches!(plan.calls[0], ContractCall::RegisterSystem { system_address: 84180519395914, .. }));
}
