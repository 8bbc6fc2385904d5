use inx_eddn::journal::{interpret_event, interpret_text, ContractCall};
use inx_eddn::value::{Json, JsonMember, JsonNumber};
use inx_eddn::number::Floating;
use json::JsonValue;

fn model(value: &JsonValue) -> Json {
    match value {
        JsonValue::Null => Json::Null,
        JsonValue::Short(s) => Json::Str(s.as_str().to_string()),
        JsonValue::String(s) => Json::Str(s.clone()),
        JsonValue::Number(n) => {
            let (positive, mantissa, exponent) = n.as_parts();
            Json::Number(JsonNumber { positive, mantissa, exponent, text: n.to_string() })
        }
        JsonValue::Boolean(b) => Json::Boolean(*b),
        JsonValue::Array(items) => Json::Array(items.iter().map(model).collect(), value.dump()),
        JsonValue::Object(object) => Json::Object(
            object.iter().map(|(k, v)| JsonMember { key: k.to_string(), value: model(v) }).collect(),
            value.dump(),
        ),
    }
}

fn parsed(text: &str) -> (JsonValue, Json) {
    let v = json::parse(text).unwrap();
    let m = model(&v);
    (v, m)
}

#[test]
fn accessors_agree_with_the_json_crate() {
    let text = r#"{"a": 84180519395914, "b": 1.5, "c": -3, "d": 300, "e": "x", "f": true,
                  "g": null, "h": [1, "two"], "i": {"k": 0}, "j": "", "z": 0.0, "big": 70000}"#;
    let (v, m) = parsed(text);
    for key in ["a", "b", "c", "d", "e", "f", "g", "h", "i", "j", "z", "big", "missing"] {
        let (x, y) = (&v[key], m.get(key));
        assert_eq!(y.as_u64(), x.as_u64(), "{}", key);
        assert_eq!(y.as_u32(), x.as_u32(), "{}", key);
        assert_eq!(y.as_u16(), x.as_u16(), "{}", key);
        assert_eq!(y.as_u8(), x.as_u8(), "{}", key);
        assert_eq!(y.as_bool(), x.as_bool(), "{}", key);
        assert_eq!(y.as_str(), x.as_str(), "{}", key);
        assert_eq!(y.len(), x.len(), "{}", key);
        assert_eq!(y.is_empty(), x.is_empty(), "{}", key);
        assert_eq!(y.text(), x.to_string(), "{}", key);
        assert_eq!(m.has_key(key), v.has_key(key), "{}", key);
    }
    assert_eq!(m.get("h").at(1).as_str(), Some("two"));
    assert!(matches!(m.get("h").at(5), Json::Null));
    assert!(matches!(m.at(0), Json::Null));
    assert!(matches!(m.get("e").get("k"), Json::Null));
}

#[test]
fn floating_values_of_parsed_numbers() {
    let (_, m) = parsed(r#"{"MassEM": 24.477320, "AxialTilt": -0.018931, "Whole": 42}"#);
    let mass = inx_eddn::journal::strict_floating_of(m.get("MassEM"));
    assert_eq!(mass, Some(Floating { decimal: 24477320, floating_point: 6 }));
    let tilt = inx_eddn::journal::strict_floating_of(m.get("AxialTilt"));
    assert_eq!(tilt, Some(Floating { decimal: -18931, floating_point: 6 }));
    let whole = inx_eddn::journal::lenient_floating_of(m.get("Whole"));
    assert_eq!(whole, Floating { decimal: 42, floating_point: 0 });
    assert_eq!(inx_eddn::journal::strict_floating_of(m.get("Missing")), None);
    assert_eq!(inx_eddn::journal::lenient_floating_of(m.get("Missing")), Floating { decimal: 0, floating_point: 0 });
}

#[test]
fn a_parsed_jump_event() {
    let text = r#"{ "timestamp":"2022-10-16T23:25:31Z", "event":"FSDJump", "Taxi":false, "Multicrew":false,
        "StarSystem":"Ogmar", "SystemAddress":84180519395914, "StarPos":[-9534.00000,-905.28125,19802.03125],
        "SystemAllegiance":"Independent", "SystemEconomy":"$economy_HighTech;", "SystemSecondEconomy":"$economy_Military;",
        "SystemSecurity":"$SYSTEM_SECURITY_medium;", "Population":151752, "Body":"Ogmar A", "BodyID":1, "JumpDist":8.625 }"#;
    let (_, m) = parsed(text);
    let plan = interpret_event(&m);
    assert!(plan.complete);
    assert_eq!(
        plan.calls,
        vec![ContractCall::RegisterSystem {
            system_address: 84180519395914,
            name: "Ogmar".to_string(),
            allegiance: "Independent".to_string(),
            economy: "$economy_HighTech;".to_string(),
            second_economy: "$economy_Military;".to_string(),
            security: "$SYSTEM_SECURITY_medium;".to_string(),
            population: 151752,
            timestamp: 1665962731,
        }]
    );
}

#[test]
fn a_parsed_docked_station_keeps_its_landing_pads() {
    let text = r#"{ "timestamp":"2024-04-02T19:42:24Z", "event":"Docked", "StationName":"Milnor Station", "StationType":"Ocellus",
        "StarSystem":"Dulos", "SystemAddress":13865362204089, "MarketID":3223819264,
        "StationFaction":{ "Name":"The Sovereign Justice Collective", "FactionState":"Bust" },
        "StationGovernment":"$government_Dictatorship;", "StationServices":[ "dock", "autodock" ],
        "StationEconomy":"$economy_Refinery;", "DistFromStarLS":20.275191, "LandingPads":{ "Small":11, "Medium":13, "Large":6 } }"#;
    let (_, m) = parsed(text);
    let plan = interpret_event(&m);
    assert!(plan.complete);
    match &plan.calls[..] {
        [ContractCall::RegisterStation { landing_pads, distance, services, .. }] => {
            assert_eq!(landing_pads, "{\"Small\":11,\"Medium\":13,\"Large\":6}");
            assert_eq!(*distance, Floating { decimal: 20275191, floating_point: 6 });
            assert_eq!(services, "dock,autodock");
        }
        other => panic!("unexpected {:?}", other),
    }
}

#[test]
fn message_text_is_parsed_then_interpreted() {
    let text = r#"{"$schemaRef": "https://eddn.edcd.io/schemas/journal/1", "header": {},
                  "message": {"timestamp": "2022-10-16T20:54:45Z", "event": "CarrierJumpCancelled",
                              "CarrierID": 3700000000}}"#;
    let plan = interpret_text(text).unwrap();
    assert!(plan.complete);
    assert_eq!(plan.calls, vec![ContractCall::CancelCarrierJump { carrier_id: 3700000000 }]);
    let quiet = interpret_text(r#"{"message": {"event": "Music"}}"#).unwrap();
    assert!(quiet.calls.is_empty() && quiet.complete);
    assert!(interpret_text("{\"message\": ").is_none());
    assert!(interpret_text("not json").is_none());
}

#[test]
fn a_key_reads_its_one_member_wherever_it_stands() {
    let m = parsed(r#"{"a": 1, "b": "two", "c": true}"#).1;
    assert_eq!(m.get("c").as_bool(), Some(true));
    assert_eq!(m.get("b").as_str(), Some("two"));
    assert_eq!(m.get("a").as_u64(), Some(1));
    assert!(matches!(m.get("d"), Json::Null));
}
