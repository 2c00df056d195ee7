//! The members of a status list envelope and their rendering as JSON and
//! CBOR, done by the `serde_json` and `ciborium` crates.

use vstd::prelude::*;

verus! {

/// The value of one member of an envelope.
#[derive(Debug)]
pub enum WireValue {
    Unsigned(u8),
    Text(String),
    Bytes(Vec<u8>),
}

/// One member of an envelope: its name and its value.
#[derive(Debug)]
pub struct WireMember {
    pub name: &'static str,
    pub value: WireValue,
}

/// What a `WireValue` holds.
pub enum MemberValue {
    Unsigned(u8),
    Text(Seq<char>),
    Bytes(Seq<u8>),
}

impl View for WireValue {
    type V = MemberValue;

    open spec fn view(&self) -> MemberValue {
        match self {
            WireValue::Unsigned(number) => MemberValue::Unsigned(*number),
            WireValue::Text(text) => MemberValue::Text(text@),
            WireValue::Bytes(bytes) => MemberValue::Bytes(bytes@),
        }
    }
}

impl View for WireMember {
    type V = (Seq<char>, MemberValue);

    open spec fn view(&self) -> (Seq<char>, MemberValue) {
        (self.name@, self.value@)
    }
}

/// The names and values of a list of members, in order.
pub open spec fn members_of(members: Seq<WireMember>) -> Seq<(Seq<char>, MemberValue)> {
    Seq::new(members.len(), |i: int| members[i]@)
}

/// The members of a status list envelope: `bits`, then `lst`, then
/// `aggregation_uri` where the list has one.
pub open spec fn envelope_members(
    bits: u8,
    lst: MemberValue,
    aggregation_uri: Option<Seq<char>>,
) -> Seq<(Seq<char>, MemberValue)> {
    let required = seq![("bits"@, MemberValue::Unsigned(bits)), ("lst"@, lst)];
    match aggregation_uri {
        Some(uri) => required.push(("aggregation_uri"@, MemberValue::Text(uri))),
        None => required,
    }
}

/// The JSON text that `serde_json::to_string` writes for an object with the
/// given members, in their order.
pub uninterp spec fn json_text(members: Seq<(Seq<char>, MemberValue)>) -> Seq<char>;

/// The CBOR bytes that `ciborium::ser::into_writer` writes for a map with
/// the given members, in their order.
pub uninterp spec fn cbor_bytes(members: Seq<(Seq<char>, MemberValue)>) -> Seq<u8>;

/// The members of an envelope as a list: `bits`, then `lst`, then
/// `aggregation_uri` where there is one.
pub fn list_members(bits: u8, lst: WireValue, aggregation_uri: Option<&String>) -> (members: Vec<
    WireMember,
>)
    ensures
        members_of(members@) == envelope_members(
            bits,
            lst@,
            match aggregation_uri {
                Some(uri) => Some(uri@),
                None => None,
            },
        ),
{
    let mut members: Vec<WireMember> = Vec::new();
    members.push(WireMember { name: "bits", value: WireValue::Unsigned(bits) });
    members.push(WireMember { name: "lst", value: lst });
    match aggregation_uri {
        Some(uri) => {
            members.push(WireMember { name: "aggregation_uri", value: WireValue::Text(uri.clone()) });
        },
        None => {},
    }
    assert(members_of(members@) =~= envelope_members(
        bits,
        lst@,
        match aggregation_uri {
            Some(uri) => Some(uri@),
            None => None,
        },
    ));
    members
}

/// Calls `serde_json::to_string` on a `serde_json::Map` that holds the
/// members in their order: a number for `Unsigned`, a string for `Text`, an
/// array of numbers for `Bytes`.
///
/// Trusted: the call succeeds, and the text is a function of the members
/// alone. `serde_json` fails where a value refuses to be written or a map
/// has a key that is no string; the object here has string keys, and
/// numbers, strings and arrays of numbers as values. The `Err` arm is there
/// for the type of the call.
#[verifier::external_body]
pub(crate) fn json_render(members: &Vec<WireMember>) -> (result: Result<String, String>)
    ensures
        result is Ok,
        result->Ok_0@ == json_text(members_of(members@)),
{
    let mut object = serde_json::Map::new();
    for member in members {
        let value = match &member.value {
            WireValue::Unsigned(number) => serde_json::Value::from(*number),
            WireValue::Text(text) => serde_json::Value::from(text.as_str()),
            WireValue::Bytes(bytes) => serde_json::Value::from(bytes.as_slice()),
        };
        object.insert(member.name.to_string(), value);
    }
    match serde_json::to_string(&object) {
        Ok(text) => Ok(text),
        Err(e) => Err(e.to_string()),
    }
}

/// Calls `ciborium::ser::into_writer` on a `ciborium::Value::Map` that holds
/// the members in their order, each under a text key: an integer for
/// `Unsigned`, a text string for `Text`, a byte string for `Bytes`.
///
/// Trusted: the call succeeds, and the bytes are a function of the members
/// alone. For integers, text, byte strings and maps `ciborium` reports only
/// the errors of its writer, and the writer here is a vector in memory,
/// which has none. The `Err` arm is there for the type of the call.
#[verifier::external_body]
pub(crate) fn cbor_render(members: &Vec<WireMember>) -> (result: Result<Vec<u8>, String>)
    ensures
        result is Ok,
        result->Ok_0@ == cbor_bytes(members_of(members@)),
{
    let mut entries = Vec::new();
    for member in members {
        let value = match &member.value {
            WireValue::Unsigned(number) => ciborium::Value::Integer((*number).into()),
            WireValue::Text(text) => ciborium::Value::Text(text.clone()),
            WireValue::Bytes(bytes) => ciborium::Value::Bytes(bytes.clone()),
        };
        entries.push((ciborium::Value::Text(member.name.to_string()), value));
    }
    let mut out = Vec::new();
    match ciborium::ser::into_writer(&ciborium::Value::Map(entries), &mut out) {
        Ok(()) => Ok(out),
        Err(e) => Err(e.to_string()),
    }
}

} // verus!
