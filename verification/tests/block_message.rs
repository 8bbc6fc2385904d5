use base64::Engine;
use inx_eddn::hornet::{block_for, hex_prefixed, signed_message};

#[test]
fn hex_is_lower_case_behind_0x() {
    assert_eq!(hex_prefixed(&[52, 32]), "0x3420");
    assert_eq!(hex_prefixed(&[0xab, 0x0f, 0xff]), "0xab0fff");
    assert_eq!(hex_prefixed(&[]), "0x");
}

#[test]
fn the_signed_message_holds_data_signature_and_key() {
    let data = b"compressed".to_vec();
    let message = signed_message(&data, &[1, 2], &[0xfe]);
    let value: serde_json::Value = serde_json::from_str(&message).unwrap();
    assert_eq!(value["message"], base64::engine::general_purpose::STANDARD.encode(&data));
    assert_eq!(value["signature"], "0x0102");
    assert_eq!(value["public_key"], "0xfe");
    assert_eq!(message, "{\"message\":\"Y29tcHJlc3NlZA==\",\"public_key\":\"0xfe\",\"signature\":\"0x0102\"}");
}

#[test]
fn blocks_are_tagged_eddn() {
    let block = block_for(b"x", &[1], &[2]);
    assert_eq!(block.tag, b"EDDN".to_vec());
    assert_eq!(block.data, signed_message(b"x", &[1], &[2]).into_bytes());
}

#[test]
fn base64_pads_the_last_group() {
    for (data, text) in [
        (&b""[..], ""),
        (&b"f"[..], "Zg=="),
        (&b"fo"[..], "Zm8="),
        (&b"foo"[..], "Zm9v"),
        (&[0xfb, 0xff][..], "+/8="),
    ] {
        let message = signed_message(data, &[], &[]);
        let value: serde_json::Value = serde_json::from_str(&message).unwrap();
        assert_eq!(value["message"], text);
    }
}

#[test]
fn the_message_member_decodes_to_the_data() {
    let data: Vec<u8> = (0u8..=255).collect();
    let block = block_for(&data, &[9], &[8]);
    let value: serde_json::Value = serde_json::from_slice(&block.data).unwrap();
    let decoded = base64::engine::general_purpose::STANDARD.decode(value["message"].as_str().unwrap()).unwrap();
    assert_eq!(decoded, data);
}
