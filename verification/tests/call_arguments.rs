use inx_eddn::abi::{call_arguments, AbiValue};
use inx_eddn::journal::{CommodityListening, ContractCall, Faction};
use inx_eddn::number::Floating;

fn t(s: &str) -> AbiValue {
    AbiValue::Text(s.to_string())
}

#[test]
fn system_registration_arguments() {
    let call = ContractCall::RegisterSystem {
        system_address: 1,
        name: "Sol".to_string(),
        allegiance: "Federation".to_string(),
        economy: "e1".to_string(),
        second_economy: "e2".to_string(),
        security: "high".to_string(),
        population: 22780919531,
        timestamp: 1665962731,
    };
    let (function, args) = call_arguments(&call);
    assert_eq!(function, "registerSystem");
    assert_eq!(
        args,
        vec![
            AbiValue::Uint(1),
            t("Sol"),
            t("Federation"),
            t("e1"),
            t("e2"),
            t("high"),
            AbiValue::Uint(22780919531),
            AbiValue::Time(1665962731),
        ]
    );
}

#[test]
fn station_and_market_arguments() {
    let call = ContractCall::RegisterStation {
        market_id: 5,
        name: "Milnor Station".to_string(),
        station_type: "Ocellus".to_string(),
        system_address: 6,
        system: "Dulos".to_string(),
        faction: Faction { name: "F".to_string(), state: "Bust".to_string() },
        government: "g".to_string(),
        economy: "e".to_string(),
        services: "dock".to_string(),
        distance: Floating { decimal: 20275191, floating_point: 6 },
        landing_pads: "{}".to_string(),
        timestamp: 7,
    };
    let (function, args) = call_arguments(&call);
    assert_eq!(function, "registerStation");
    assert_eq!(args[5], AbiValue::Tuple(vec![t("F"), t("Bust")]));
    assert_eq!(args[9], AbiValue::Tuple(vec![AbiValue::Int(20275191), AbiValue::Uint(6)]));
    assert_eq!(args.len(), 12);

    let listing = ContractCall::RegisterCommodityListening {
        market_id: 9,
        name: "gold".to_string(),
        listening: CommodityListening { buy_price: 1, sell_price: 2, mean_price: 3, stock: 4, demand: 5, stock_bracket: 6, demand_bracket: 7 },
    };
    let (function, args) = call_arguments(&listing);
    assert_eq!(function, "registerCommodityListening");
    assert_eq!(
        args,
        vec![
            AbiValue::Uint(9),
            t("gold"),
            AbiValue::Tuple((1..=7).map(AbiValue::Uint).collect()),
        ]
    );
    let (function, args) = call_arguments(&ContractCall::CancelCarrierJump { carrier_id: 3 });
    assert_eq!((function, args), ("cancelCarrierJump", vec![AbiValue::Uint(3)]));
}
