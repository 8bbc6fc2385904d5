use inx_eddn::settings::{retry_connect, retry_delay, retry_limit, setting_of_flag, settings_from_args, Setting};

fn args(list: &[&str]) -> Vec<String> {
    list.iter().map(|s| s.to_string()).collect()
}

#[test]
fn flags_set_their_variables_in_order() {
    let r = settings_from_args(&args(&["inx-eddn", "-evm", "http://node", "-pk", "SECRET-REDACTED", "-x", "-sc", "0xabc", "-rt", "3", "-dt", "9", "-evm", "http://other"]));
    assert_eq!(
        r,
        vec![
            (Setting::EvmUrl, "http://node".to_string()),
            (Setting::PrivateKey, "SECRET-REDACTED".to_string()),
            (Setting::ContractAddress, "0xabc".to_string()),
            (Setting::RetryTimeout, "3".to_string()),
            (Setting::DurationTimeout, "9".to_string()),
            (Setting::EvmUrl, "http://other".to_string()),
        ]
    );
    assert_eq!(Setting::EvmUrl.variable(), "EVM_URL");
    assert_eq!(Setting::PrivateKey.variable(), "PRIVATE_KEY");
    assert_eq!(Setting::ContractAddress.variable(), "SC_ADDRESS");
    assert_eq!(Setting::RetryTimeout.variable(), "RETRY_TIMEOUT");
    assert_eq!(Setting::DurationTimeout.variable(), "DURATION_TIMEOUT");
}

#[test]
fn a_flag_value_can_look_like_a_flag() {
    let r = settings_from_args(&args(&["p", "-evm", "-pk", "v"]));
    assert_eq!(r, vec![(Setting::EvmUrl, "-pk".to_string()), (Setting::PrivateKey, "v".to_string())]);
    assert_eq!(settings_from_args(&args(&["-evm"])), vec![]);
    assert_eq!(settings_from_args(&args(&[])), vec![]);
    assert_eq!(setting_of_flag("-EVM"), None);
}

#[test]
fn retry_settings_have_defaults() {
    assert_eq!(retry_limit(None), 100);
    assert_eq!(retry_limit(Some("7")), 7);
    assert_eq!(retry_limit(Some("seven")), 100);
    assert_eq!(retry_limit(Some("-1")), -1);
    assert_eq!(retry_delay(None), 5);
    assert_eq!(retry_delay(Some("30")), 30);
    assert_eq!(retry_delay(Some("-3")), 5);
    assert!(retry_connect(true, 2, 3));
    assert!(!retry_connect(true, 3, 3));
    assert!(!retry_connect(false, 0, 3));
}
