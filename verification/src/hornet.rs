//! The publishing side of the relay: the signed message that a block carries.

use vstd::prelude::*;
use vstd::utf8::encode_utf8;
use base64::Engine;
use rustc_hex::ToHex;

verus! {

/// A digit of lower-case hexadecimal.
pub open spec fn hex_digit(n: int) -> char {
    if n < 10 {
        (('0' as int) + n) as char
    } else {
        (('a' as int) + n - 10) as char
    }
}

/// Lower-case hexadecimal: two digits per byte, the high half first.
pub open spec fn hex_lower(bytes: Seq<u8>) -> Seq<char>
    decreases bytes.len(),
{
    if bytes.len() == 0 {
        Seq::empty()
    } else {
        hex_lower(bytes.drop_last()) + seq![
            hex_digit(bytes.last() as int / 16),
            hex_digit(bytes.last() as int % 16),
        ]
    }
}

/// A character that lower-case hexadecimal uses.
pub open spec fn is_hex_char(c: char) -> bool {
    ('0' <= c && c <= '9') || ('a' <= c && c <= 'f')
}

/// `bytes.to_hex::<String>()` of `rustc_hex`, whose source writes the high
/// and the low four bits of each byte as a digit of `0123456789abcdef`.
#[verifier::external_body]
fn to_hex(bytes: &[u8]) -> (r: String)
    ensures
        r@ == hex_lower(bytes@),
{
    bytes.to_hex()
}

/// The digit of the standard base64 alphabet for a six-bit value:
/// `A-Z`, `a-z`, `0-9`, `+`, `/`.
pub open spec fn base64_char(n: int) -> char {
    if n < 26 {
        (('A' as int) + n) as char
    } else if n < 52 {
        (('a' as int) + n - 26) as char
    } else if n < 62 {
        (('0' as int) + n - 52) as char
    } else if n == 62 {
        '+'
    } else {
        '/'
    }
}

/// The six-bit value of a digit of the standard base64 alphabet.
pub open spec fn base64_value(c: char) -> int {
    if 'A' <= c && c <= 'Z' {
        c as int - 'A' as int
    } else if 'a' <= c && c <= 'z' {
        c as int - 'a' as int + 26
    } else if '0' <= c && c <= '9' {
        c as int - '0' as int + 52
    } else if c == '+' {
        62
    } else {
        63
    }
}

/// The standard base64 encoding with padding: each three bytes, from the
/// front, give four digits of six bits each, high bits first; a last group of
/// one or two bytes is filled with zero bits and padded with `=` to four.
pub open spec fn base64_standard(data: Seq<u8>) -> Seq<char>
    decreases data.len(),
{
    if data.len() == 0 {
        Seq::empty()
    } else if data.len() == 1 {
        let b0 = data[0] as int;
        seq![base64_char(b0 / 4), base64_char((b0 % 4) * 16), '=', '=']
    } else if data.len() == 2 {
        let (b0, b1) = (data[0] as int, data[1] as int);
        seq![base64_char(b0 / 4), base64_char((b0 % 4) * 16 + b1 / 16), base64_char((b1 % 16) * 4), '=']
    } else {
        let (b0, b1, b2) = (data[0] as int, data[1] as int, data[2] as int);
        seq![
            base64_char(b0 / 4),
            base64_char((b0 % 4) * 16 + b1 / 16),
            base64_char((b1 % 16) * 4 + b2 / 64),
            base64_char(b2 % 64),
        ] + base64_standard(data.skip(3))
    }
}

/// The bytes that standard base64 text stands for, read four digits at a
/// time; a group with `=` in its third or fourth place stands for one or two bytes.
pub open spec fn base64_decoded(text: Seq<char>) -> Seq<u8>
    decreases text.len(),
{
    if text.len() < 4 {
        Seq::empty()
    } else {
        let (s0, s1, s2, s3) = (
            base64_value(text[0]),
            base64_value(text[1]),
            base64_value(text[2]),
            base64_value(text[3]),
        );
        let first = (s0 * 4 + s1 / 16) as u8;
        let second = ((s1 % 16) * 16 + s2 / 4) as u8;
        let third = ((s2 % 4) * 64 + s3) as u8;
        let group = if text[2] == '=' {
            seq![first]
        } else if text[3] == '=' {
            seq![first, second]
        } else {
            seq![first, second, third]
        };
        group + base64_decoded(text.skip(4))
    }
}

/// `general_purpose::STANDARD.encode(data)` of `base64`: the standard
/// alphabet with padding, as `base64_standard` writes it out. The encoder
/// refuses an input whose encoded length overflows `usize`, so the length is
/// bounded.
#[verifier::external_body]
fn base64_encode(data: &[u8]) -> (r: String)
    requires
        (data.len() / 3) * 4 + 4 <= usize::MAX,
    ensures
        r@ == base64_standard(data@),
{
    base64::engine::general_purpose::STANDARD.encode(data)
}

/// The compact text that `serde_json` gives for an object whose members
/// are the strings `entries`, inserted in this order.
pub uninterp spec fn json_string_object(entries: Seq<(Seq<char>, Seq<char>)>) -> Seq<char>;

/// The view of a list of key and value strings.
pub open spec fn entries_view(entries: Seq<(String, String)>) -> Seq<(Seq<char>, Seq<char>)> {
    entries.map_values(|e: (String, String)| (e.0@, e.1@))
}

/// Builds a `serde_json::Value::Object` of string members, inserted in the
/// order given, and returns its `to_string()`. The contract names the result.
#[verifier::external_body]
fn json_object(entries: &Vec<(String, String)>) -> (r: String)
    ensures
        r@ == json_string_object(entries_view(entries@)),
{
    let mut map = serde_json::Map::new();
    for (key, value) in entries.iter() {
        map.insert(key.clone(), serde_json::Value::String(value.clone()));
    }
    serde_json::Value::Object(map).to_string()
}

/// The members of a signed message: the data in base64, and the signature
/// and the public key in hexadecimal behind `0x`.
pub open spec fn signed_message_entries(data: Seq<u8>, signature: Seq<u8>, public_key: Seq<u8>) -> Seq<(Seq<char>, Seq<char>)> {
    seq![
        ("message"@, base64_standard(data)),
        ("signature"@, "0x"@ + hex_lower(signature)),
        ("public_key"@, "0x"@ + hex_lower(public_key)),
    ]
}

/// `0x` followed by the lower-case hexadecimal of `bytes`.
pub fn hex_prefixed(bytes: &[u8]) -> (r: String)
    ensures
        r@ == "0x"@ + hex_lower(bytes@),
{
    let mut s = String::from_str("0x");
    let h = to_hex(bytes);
    s.append(h.as_str());
    s
}

/// The JSON text of the message that a block carries: the data, its
/// signature and the public key that checks it.
pub fn signed_message(data: &[u8], signature: &[u8], public_key: &[u8]) -> (r: String)
    requires
        (data.len() / 3) * 4 + 4 <= usize::MAX,
    ensures
        r@ == json_string_object(signed_message_entries(data@, signature@, public_key@)),
{
    let mut entries: Vec<(String, String)> = Vec::new();
    entries.push((String::from_str("message"), base64_encode(data)));
    entries.push((String::from_str("signature"), hex_prefixed(signature)));
    entries.push((String::from_str("public_key"), hex_prefixed(public_key)));
    assert(entries_view(entries@) =~= signed_message_entries(data@, signature@, public_key@));
    json_object(&entries)
}

/// What the relay posts for one update: the tag and the bytes of the message.
#[derive(Debug, PartialEq)]
pub struct Block {
    pub tag: Vec<u8>,
    pub data: Vec<u8>,
}

/// The block that carries an update: tagged `EDDN`, holding the UTF-8 bytes
/// of the signed message.
pub fn block_for(data: &[u8], signature: &[u8], public_key: &[u8]) -> (b: Block)
    requires
        (data.len() / 3) * 4 + 4 <= usize::MAX,
    ensures
        b.tag@ == seq![0x45u8, 0x44u8, 0x44u8, 0x4eu8],
        b.data@ == encode_utf8(json_string_object(signed_message_entries(data@, signature@, public_key@))),
{
    let message = signed_message(data, signature, public_key);
    let mut tag: Vec<u8> = Vec::new();
    tag.push(0x45u8);
    tag.push(0x44u8);
    tag.push(0x44u8);
    tag.push(0x4eu8);
    Block { tag, data: message.as_str().as_bytes_vec() }
}

/// Lower-case hexadecimal has two digits per byte, each of `0-9a-f`.
pub proof fn lemma_hex_lower_shape(bytes: Seq<u8>)
    ensures
        hex_lower(bytes).len() == 2 * bytes.len(),
        forall|i: int| 0 <= i < hex_lower(bytes).len() ==> is_hex_char(#[trigger] hex_lower(bytes)[i]),
    decreases bytes.len(),
{
    if bytes.len() > 0 {
        lemma_hex_lower_shape(bytes.drop_last());
        let hi = bytes.last() as int / 16;
        let lo = bytes.last() as int % 16;
        assert(0 <= hi < 16 && 0 <= lo < 16);
        assert(is_hex_char(hex_digit(hi)) && is_hex_char(hex_digit(lo)));
        let prev = hex_lower(bytes.drop_last());
        assert forall|i: int| 0 <= i < hex_lower(bytes).len() implies is_hex_char(
            #[trigger] hex_lower(bytes)[i],
        ) by {
            if i < prev.len() {
                assert(hex_lower(bytes)[i] == prev[i]);
            }
        }
    }
}

proof fn lemma_base64_digit(n: int)
    requires
        0 <= n < 64,
    ensures
        base64_value(base64_char(n)) == n,
        base64_char(n) != '=',
{
}

proof fn lemma_base64_group(b0: int, b1: int, b2: int)
    requires
        0 <= b0 < 256,
        0 <= b1 < 256,
        0 <= b2 < 256,
    ensures
        0 <= b0 / 4 < 64,
        0 <= (b0 % 4) * 16 + b1 / 16 < 64,
        0 <= (b1 % 16) * 4 + b2 / 64 < 64,
        0 <= b2 % 64 < 64,
        (b0 / 4) * 4 + ((b0 % 4) * 16 + b1 / 16) / 16 == b0,
        (((b0 % 4) * 16 + b1 / 16) % 16) * 16 + ((b1 % 16) * 4 + b2 / 64) / 4 == b1,
        (((b1 % 16) * 4 + b2 / 64) % 4) * 64 + b2 % 64 == b2,
{
}

/// Decoding the standard base64 text of some bytes gives those bytes back,
/// so two byte strings with the same encoding are the same.
pub proof fn lemma_base64_round_trip(data: Seq<u8>, other: Seq<u8>)
    ensures
        base64_decoded(base64_standard(data)) == data,
        base64_standard(data) == base64_standard(other) ==> data == other,
{
    lemma_base64_decodes(data);
    lemma_base64_decodes(other);
}

proof fn lemma_base64_decodes(data: Seq<u8>)
    ensures
        base64_decoded(base64_standard(data)) == data,
    decreases data.len(),
{
    let t = base64_standard(data);
    if data.len() == 0 {
    } else if data.len() == 1 {
        let b0 = data[0] as int;
        lemma_base64_group(b0, 0, 0);
        lemma_base64_digit(b0 / 4);
        lemma_base64_digit((b0 % 4) * 16);
        assert(b0 / 4 * 4 + (b0 % 4) * 16 / 16 == b0);
        assert(t[2] == '=');
        assert(base64_decoded(t.skip(4)) =~= Seq::<u8>::empty()) by {
            assert(t.skip(4).len() == 0);
        }
        assert(base64_decoded(t) =~= data);
    } else if data.len() == 2 {
        let (b0, b1) = (data[0] as int, data[1] as int);
        lemma_base64_group(b0, b1, 0);
        lemma_base64_digit(b0 / 4);
        lemma_base64_digit((b0 % 4) * 16 + b1 / 16);
        lemma_base64_digit((b1 % 16) * 4);
        assert(((b0 % 4) * 16 + b1 / 16) / 16 == b0 % 4);
        assert(((b0 % 4) * 16 + b1 / 16) % 16 == b1 / 16);
        assert((b1 % 16) * 4 / 4 == b1 % 16);
        assert(t[2] != '=' && t[3] == '=');
        assert(base64_decoded(t.skip(4)) =~= Seq::<u8>::empty()) by {
            assert(t.skip(4).len() == 0);
        }
        assert(base64_decoded(t) =~= data);
    } else {
        let (b0, b1, b2) = (data[0] as int, data[1] as int, data[2] as int);
        lemma_base64_group(b0, b1, b2);
        lemma_base64_digit(b0 / 4);
        lemma_base64_digit((b0 % 4) * 16 + b1 / 16);
        lemma_base64_digit((b1 % 16) * 4 + b2 / 64);
        lemma_base64_digit(b2 % 64);
        lemma_base64_decodes(data.skip(3));
        assert(t.skip(4) =~= base64_standard(data.skip(3)));
        assert(data =~= seq![data[0], data[1], data[2]] + data.skip(3));
        assert(base64_decoded(t) =~= data);
    }
}

/// The `message` member of a signed message is the base64 text of the data,
/// and decoding it gives the data back unchanged.
pub proof fn lemma_message_member_decodes_to_data(data: Seq<u8>, signature: Seq<u8>, public_key: Seq<u8>)
    ensures
        signed_message_entries(data, signature, public_key)[0].0 == "message"@,
        base64_decoded(signed_message_entries(data, signature, public_key)[0].1) == data,
{
    lemma_base64_decodes(data);
}

} // verus!
