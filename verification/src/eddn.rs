//! The EDDN side of the relay: what becomes of each update received from the
//! EDDN feed before it is handed on to the publishing side.

use vstd::prelude::*;
use std::io::{Read, Write};
use std::sync::mpsc::Sender;
use crate::text::text_eq;

verus! {

#[verifier::external_type_specification]
#[verifier::external_body]
#[verifier::reject_recursive_types(T)]
pub struct ExSender<T>(std::sync::mpsc::Sender<T>);

/// The text that zlib-inflating `data` gives, or `None` where the data is not
/// a zlib stream or does not inflate to UTF-8.
pub uninterp spec fn zlib_text(data: Seq<u8>) -> Option<Seq<char>>;

/// The zlib stream that `flate2` writes for the UTF-8 bytes of `text` at its
/// best compression level.
pub uninterp spec fn zlib_best(text: Seq<char>) -> Seq<u8>;

/// Inflates a zlib stream into a string with `flate2`'s `ZlibDecoder` and
/// `read_to_string`. The contract names the result; it claims only that the
/// result depends on the bytes alone.
#[verifier::external_body]
fn decode_reader(bytes: &[u8]) -> (r: Option<String>)
    ensures
        r.deep_view() == zlib_text(bytes@),
{
    let mut z = flate2::read::ZlibDecoder::new(bytes);
    let mut s = String::new();
    match z.read_to_string(&mut s) {
        Ok(_) => Some(s),
        Err(_) => None,
    }
}

/// Deflates the UTF-8 bytes of `text` with `flate2`'s `ZlibEncoder` at
/// `Compression::best()`. Writing into a `Vec` does not fail. The contract
/// names the result and claims that inflating it gives `text` back, as zlib
/// is lossless (flate2's own round-trip tests show it).
#[verifier::external_body]
fn compress_best(text: &str) -> (blob: Vec<u8>)
    ensures
        blob@ == zlib_best(text@),
        zlib_text(blob@) == Some(text@),
{
    let mut blob = Vec::new();
    let mut encoder = flate2::write::ZlibEncoder::new(&mut blob, flate2::Compression::best());
    encoder.write_all(text.as_bytes()).unwrap();
    encoder.finish().unwrap();
    blob
}

/// The subscriber to the EDDN feed, and the channel on which it hands
/// updates to the publishing side.
pub struct EddnAdapter {
    pub hornet_bus: Sender<Vec<u8>>,
}

/// What the subscriber does with one update.
#[derive(Debug, PartialEq)]
pub enum UpdateStep {
    /// The update inflated to `END`: the subscription ends.
    Stop,
    /// The update's text, deflated again at the best level, to hand on.
    Forward(Vec<u8>),
    /// The update does not inflate to text.
    Undecodable,
}

/// What becomes of an update whose text is `message`: the subscription ends
/// on `END`, otherwise the text is deflated at the best level and handed on.
pub fn step_for_message(message: &str) -> (r: UpdateStep)
    ensures
        message@ == "END"@ ==> r == UpdateStep::Stop,
        message@ != "END"@ ==> (r matches UpdateStep::Forward(blob) && blob@ == zlib_best(
            message@,
        )),
        r matches UpdateStep::Forward(blob) ==> zlib_text(blob@) == Some(message@),
{
    if text_eq(message, "END") {
        UpdateStep::Stop
    } else {
        UpdateStep::Forward(compress_best(message))
    }
}

/// The text of a blob handed on by the subscriber, or `None` where the blob
/// does not inflate to text. Reading a forwarded blob gives back the text of
/// the update it came from (see `EddnAdapter::process_update`).
pub fn read_blob(blob: &[u8]) -> (r: Option<String>)
    ensures
        r.deep_view() == zlib_text(blob@),
{
    decode_reader(blob)
}

impl EddnAdapter {
    /// What the subscriber does with one update received from the feed. A
    /// forwarded blob inflates to the same text as the update.
    pub fn process_update(data: &[u8]) -> (r: UpdateStep)
        ensures
            zlib_text(data@) is None ==> r == UpdateStep::Undecodable,
            zlib_text(data@) == Some("END"@) ==> r == UpdateStep::Stop,
            zlib_text(data@) matches Some(m) ==> (m != "END"@ ==> (r matches UpdateStep::Forward(
                blob,
            ) && blob@ == zlib_best(m))),
            r matches UpdateStep::Forward(blob) ==> zlib_text(blob@) == zlib_text(data@),
    {
        match decode_reader(data) {
            Some(message) => step_for_message(message.as_str()),
            None => UpdateStep::Undecodable,
        }
    }
}

} // verus!
