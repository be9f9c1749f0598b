//! What a request asks to sign, as readable as it can be made.

use vstd::prelude::*;
use vstd::utf8::decode_utf8;
use vstd::utf8::valid_utf8;

use crate::function_panel::is_hex;
use crate::text::all_hex;
use crate::text::chars_of;
use crate::text::dec;
use crate::text::decimal_usize;
use crate::text::hex_value;
use crate::text::model_of;
use crate::text::same_text;
use crate::text::string_of;

verus! {

/// The bytes that pairs of hexadecimal digits denote.
pub open spec fn hex_pairs(s: Seq<char>) -> Seq<u8> {
    Seq::new(
        s.len() / 2,
        |i: int| (hex_value(s[2 * i])->0 * 16 + hex_value(s[2 * i + 1])->0) as u8,
    )
}

/// The bytes that a text of hexadecimal digits denotes; nothing when a digit is
/// missing or is none.
pub open spec fn decoded_hex(s: Seq<char>) -> Option<Seq<u8>> {
    if s.len() % 2 == 0 && all_hex(s) {
        Some(hex_pairs(s))
    } else {
        None
    }
}

/// `hex::decode`: the bytes that pairs of hexadecimal digits of either case
/// denote. An error for an odd number of digits, and for any other character.
#[verifier::external_body]
fn hex_decode(s: &str) -> (r: Option<Vec<u8>>)
    ensures
        model_of(r) == decoded_hex(s@),
{
    hex::decode(s).ok()
}

/// The text that bytes encode in UTF-8.
pub open spec fn utf8_text(b: Seq<u8>) -> Option<Seq<char>> {
    if valid_utf8(b) {
        Some(decode_utf8(b))
    } else {
        None
    }
}

/// `std::str::from_utf8`: the text that the bytes encode; an error when they
/// are not valid UTF-8.
#[verifier::external_body]
fn text_of_bytes(b: &Vec<u8>) -> (r: Option<String>)
    ensures
        model_of(r) == utf8_text(b@),
{
    match std::str::from_utf8(b) {
        Ok(s) => Some(s.to_owned()),
        Err(_) => None,
    }
}

/// Whether a text is an address: `0x` and forty hexadecimal digits.
pub open spec fn is_address_text(s: Seq<char>) -> bool {
    s.len() == 42 && s[0] == '0' && s[1] == 'x' && all_hex(s.skip(2))
}

/// Whether a text is an address: `0x` and forty hexadecimal digits.
pub fn is_address_str(s: &str) -> (r: bool)
    ensures
        r == is_address_text(s@),
{
    let v: Vec<char> = chars_of(s);
    if v.len() != 42 || v[0] != '0' || v[1] != 'x' {
        return false;
    }
    let mut i: usize = 2;
    while i < 42
        invariant
            v@ == s@,
            v@.len() == 42,
            2 <= i <= 42,
            forall|k: int| 0 <= k < i - 2 ==> hex_value(#[trigger] s@.skip(2)[k]) is Some,
        decreases 42 - i,
    {
        proof {
            assert(s@.skip(2)[i - 2] == v@[i as int]);
        }
        if !is_hex(v[i]) {
            return false;
        }
        i = i + 1;
    }
    true
}

/// Which of the two parameters is the message: the one that is not the address,
/// and the first when neither is.
pub open spec fn message_of(first: Seq<char>, second: Seq<char>) -> Seq<char> {
    if is_address_text(second) {
        first
    } else if is_address_text(first) {
        second
    } else {
        first
    }
}

/// A message as the user should read it: the text it encodes, its bytes when
/// they encode none, and the message itself when it is not in hexadecimal.
pub open spec fn readable(raw: Seq<char>) -> Seq<char> {
    if raw.len() >= 2 && raw[0] == '0' && raw[1] == 'x' {
        match decoded_hex(raw.skip(2)) {
            Some(bytes) => match utf8_text(bytes) {
                Some(text) => text,
                None => "0x"@ + raw.skip(2) + " ("@ + dec(bytes.len()) + " bytes)"@,
            },
            None => raw,
        }
    } else {
        raw
    }
}

/// The parameters of a request, as far as they are texts.
pub open spec fn texts(items: Seq<Option<String>>) -> Seq<Option<Seq<char>>> {
    items.map_values(|o: Option<String>| model_of(o))
}

/// The message that `personal_sign` parameters hold, in either order.
pub open spec fn signed_message(items: Seq<Option<Seq<char>>>) -> Option<Seq<char>> {
    if items.len() >= 2 && items[0] is Some && items[1] is Some {
        Some(readable(message_of(items[0]->0, items[1]->0)))
    } else {
        None
    }
}

/// A message as the user should read it.
fn read_message(raw: &str) -> (r: String)
    ensures
        r@ == readable(raw@),
{
    let v: Vec<char> = chars_of(raw);
    if v.len() < 2 || v[0] != '0' || v[1] != 'x' {
        return raw.to_owned();
    }
    let digits: String = string_of(&v, 2, v.len());
    proof {
        assert(digits@ =~= raw@.skip(2));
    }
    match hex_decode(digits.as_str()) {
        Some(bytes) => match text_of_bytes(&bytes) {
            Some(text) => text,
            None => {
                let mut s: String = "0x".to_owned();
                s.append(digits.as_str());
                s.append(" (");
                s.append(decimal_usize(bytes.len()).as_str());
                s.append(" bytes)");
                s
            },
        },
        None => raw.to_owned(),
    }
}

/// The message that `personal_sign` parameters hold: the message and the
/// address may come in either order.
pub fn decode_personal_sign(items: &Vec<Option<String>>) -> (r: Option<String>)
    ensures
        model_of(r) == signed_message(texts(items@)),
{
    if items.len() < 2 {
        return None;
    }
    match (&items[0], &items[1]) {
        (Some(first), Some(second)) => {
            let raw: &str = if is_address_str(second.as_str()) {
                first.as_str()
            } else if is_address_str(first.as_str()) {
                second.as_str()
            } else {
                first.as_str()
            };
            Some(read_message(raw))
        },
        _ => None,
    }
}

/// What a request asks to sign.
#[derive(Debug, Clone, PartialEq, Eq)]
pub enum Payload {
    /// A message to read.
    Message(String),
    /// The parameters as they are.
    Dump(String),
}

#[verifier::ext_equal]
pub enum PayloadModel {
    Message(Seq<char>),
    Dump(Seq<char>),
}

impl View for Payload {
    type V = PayloadModel;

    open spec fn view(&self) -> PayloadModel {
        match *self {
            Payload::Message(s) => PayloadModel::Message(s@),
            Payload::Dump(s) => PayloadModel::Dump(s@),
        }
    }
}

/// What a request asks to sign, given its parameters: the texts among them if
/// they are a list, their indented form if they have one, and themselves.
pub open spec fn payload(
    method: Seq<char>,
    items: Option<Seq<Option<Seq<char>>>>,
    indented: Option<Seq<char>>,
    params: Seq<char>,
) -> PayloadModel {
    let message = if method == "personal_sign"@ {
        match items {
            Some(list) => signed_message(list),
            None => None,
        }
    } else {
        None
    };
    match message {
        Some(m) => PayloadModel::Message(m),
        None => match indented {
            Some(text) => PayloadModel::Dump(text),
            None => PayloadModel::Dump(params),
        },
    }
}

/// The texts of a list of parameters.
pub open spec fn list_model(o: Option<Vec<Option<String>>>) -> Option<Seq<Option<Seq<char>>>> {
    match o {
        Some(v) => Some(texts(v@)),
        None => None,
    }
}

/// What a request asks to sign, given what its parameters parsed to.
pub fn payload_of(
    method: &str,
    items: &Option<Vec<Option<String>>>,
    indented: Option<String>,
    params: &str,
) -> (r: Payload)
    ensures
        r@ == payload(method@, list_model(*items), model_of(indented), params@),
{
    if same_text(method, "personal_sign") {
        match items {
            Some(list) => match decode_personal_sign(list) {
                Some(m) => {
                    return Payload::Message(m);
                },
                None => {},
            },
            None => {},
        }
    }
    match indented {
        Some(text) => Payload::Dump(text),
        None => Payload::Dump(params.to_owned()),
    }
}

/// The elements of a JSON array, each as its text if it is a string; nothing
/// when the JSON is no array.
pub uninterp spec fn json_items(json: Seq<char>) -> Option<Seq<Option<Seq<char>>>>;

/// `serde_json::Value::as_array` and `as_str` on a parsed JSON text: the
/// elements of an array, each as its text if it is a string.
#[verifier::external_body]
fn items_of_json(json: &str) -> (r: Option<Vec<Option<String>>>)
    ensures
        list_model(r) == json_items(json@),
{
    let value: serde_json::Value = serde_json::from_str(json).ok()?;
    Some(value.as_array()?.iter().map(|x| x.as_str().map(|s| s.to_owned())).collect())
}

/// The indented form of a JSON text; nothing when it is not JSON.
pub uninterp spec fn json_indented(json: Seq<char>) -> Option<Seq<char>>;

/// `serde_json::to_string_pretty` of a parsed JSON text: the same value over
/// several lines.
#[verifier::external_body]
fn indent_json(json: &str) -> (r: Option<String>)
    ensures
        model_of(r) == json_indented(json@),
{
    let value: serde_json::Value = serde_json::from_str(json).ok()?;
    serde_json::to_string_pretty(&value).ok()
}

/// What a request with these JSON parameters asks to sign: the message of a
/// `personal_sign`, and otherwise the parameters over several lines.
pub fn payload_body(method: &str, params: &str) -> (r: Payload)
    ensures
        r@ == payload(method@, json_items(params@), json_indented(params@), params@),
{
    payload_of(method, &items_of_json(params), indent_json(params), params)
}

} // verus!
