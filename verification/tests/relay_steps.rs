use std::io::Write;

use flate2::write::ZlibEncoder;
use flate2::Compression;
use inx_eddn::eddn::{read_blob, step_for_message, EddnAdapter, UpdateStep};

fn deflate(text: &[u8]) -> Vec<u8> {
    let mut out = Vec::new();
    let mut e = ZlibEncoder::new(&mut out, Compression::default());
    e.write_all(text).unwrap();
    e.finish().unwrap();
    out
}

#[test]
fn end_stops_the_subscription() {
    assert_eq!(EddnAdapter::process_update(&deflate(b"END")), UpdateStep::Stop);
    assert_eq!(step_for_message("END"), UpdateStep::Stop);
}

#[test]
fn updates_are_forwarded_with_the_same_text() {
    let text = "{\"$schemaRef\":\"x\",\"message\":{\"event\":\"FSDJump\"}}";
    match EddnAdapter::process_update(&deflate(text.as_bytes())) {
        UpdateStep::Forward(blob) => {
            assert_eq!(read_blob(&blob).as_deref(), Some(text));
            let mut again = Vec::new();
            let mut e = ZlibEncoder::new(&mut again, Compression::best());
            e.write_all(text.as_bytes()).unwrap();
            e.finish().unwrap();
            assert_eq!(blob, again);
        }
        other => panic!("unexpected {:?}", other),
    }
    assert!(matches!(step_for_message("end"), UpdateStep::Forward(_)));
    assert!(matches!(step_for_message(""), UpdateStep::Forward(_)));
}

#[test]
fn undecodable_updates_are_reported() {
    assert_eq!(EddnAdapter::process_update(b"not zlib"), UpdateStep::Undecodable);
    assert_eq!(EddnAdapter::process_update(&deflate(&[0xff, 0xfe])), UpdateStep::Undecodable);
    assert_eq!(read_blob(b""), None);
}
