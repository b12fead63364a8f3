//! JSON values.
//!
//! Values are `serde_json::Value`s. Their content is modelled by [`Json`], and
//! every function here that touches a value says what it does in terms of that
//! model. The functions marked `external_body` are the contact surface with
//! `serde_json`: their contracts are taken from its source, not proved.

use vstd::prelude::*;

verus! {

/// The content of a JSON number.
pub enum Number {
    /// An integer. Those that `serde_json` holds are between `i64::MIN` and
    /// `u64::MAX`.
    Integer(int),
    /// Any other number, by the bit pattern of the finite double that holds it.
    Real(u64),
}

/// The content of a JSON value.
///
/// An object is the sequence of its members in the order in which they were
/// inserted; no key occurs twice.
pub enum Json {
    Null,
    Boolean(bool),
    Number(Number),
    Text(Seq<char>),
    Array(Seq<Json>),
    Object(Seq<(Seq<char>, Json)>),
}

/// The value of the first member named `key`, if there is one.
pub open spec fn lookup(members: Seq<(Seq<char>, Json)>, key: Seq<char>) -> Option<Json>
    decreases members.len(),
{
    if members.len() == 0 {
        None
    } else if members[0].0 == key {
        Some(members[0].1)
    } else {
        lookup(members.drop_first(), key)
    }
}

/// No two members share a key.
pub open spec fn distinct_keys(members: Seq<(Seq<char>, Json)>) -> bool {
    forall|i: int, j: int|
        0 <= i < j < members.len() ==> (#[trigger] members[i]).0 != (#[trigger] members[j]).0
}

/// The value of an integer number, nothing for any other content.
pub open spec fn integer_of(json: Json) -> Option<int> {
    match json {
        Json::Number(Number::Integer(i)) => Some(i),
        _ => None,
    }
}

/// The members that a list of owned entries stands for.
pub open spec fn members_of(entries: Seq<(String, serde_json::Value)>) -> Seq<(Seq<char>, Json)> {
    Seq::new(entries.len(), |i: int| (entries[i].0@, json_of(entries[i].1)))
}

/// `serde_json::Value`, of which [`json_of`] is the content.
#[verifier::external_type_specification]
#[verifier::external_body]
pub struct ExValue(serde_json::Value);

/// The error with which `serde_json` rejects a text.
#[verifier::external_body]
#[derive(Debug)]
pub struct SyntaxError(pub serde_json::Error);

/// What a `serde_json::Value` holds.
pub uninterp spec fn json_of(value: serde_json::Value) -> Json;

/// The compact JSON text that `serde_json` prints for a value with this content.
pub uninterp spec fn text_of(json: Json) -> Seq<u8>;

/// The content that `serde_json` reads from `text`, or `None` where it
/// rejects the text.
pub uninterp spec fn parse_of(text: Seq<u8>) -> Option<Json>;

/// The text that `serde_json` shows for a value with this content.
pub uninterp spec fn shown(json: Json) -> Seq<char>;

/// `Clone` for `serde_json::Value`: the copy holds what the value holds.
pub assume_specification[ <serde_json::Value as Clone>::clone ](
    value: &serde_json::Value,
) -> (copy: serde_json::Value)
    ensures
        json_of(copy) == json_of(*value),
;

/// `serde_json::Value::Null`: the null value.
#[verifier::external_body]
pub(crate) fn null() -> (value: serde_json::Value)
    ensures
        json_of(value) == Json::Null,
{
    serde_json::Value::Null
}

/// `serde_json::Value::from` on a `usize`: the number with that integer value.
#[verifier::external_body]
pub(crate) fn number(n: usize) -> (value: serde_json::Value)
    ensures
        json_of(value) == Json::Number(Number::Integer(n as int)),
{
    serde_json::Value::from(n)
}

/// `serde_json::Value::String`: the string value with the given text.
#[verifier::external_body]
pub(crate) fn text(s: String) -> (value: serde_json::Value)
    ensures
        json_of(value) == Json::Text(s@),
{
    serde_json::Value::String(s)
}

/// `serde_json::Value::Object` over a `serde_json::Map` collected from
/// `entries`: with distinct keys, the object that has exactly these members,
/// in this order.
#[verifier::external_body]
pub(crate) fn object(entries: Vec<(String, serde_json::Value)>) -> (value: serde_json::Value)
    requires
        distinct_keys(members_of(entries@)),
    ensures
        json_of(value) == Json::Object(members_of(entries@)),
{
    serde_json::Value::Object(entries.into_iter().collect())
}

/// Takes a `serde_json::Value::Object` apart with `serde_json::Map::into_iter`:
/// the members of an object in their order, and any other value back as it
/// came.
#[verifier::external_body]
pub(crate) fn into_entries(value: serde_json::Value) -> (r: Result<
    Vec<(String, serde_json::Value)>,
    serde_json::Value,
>)
    ensures
        match r {
            Ok(entries) => json_of(value) == Json::Object(members_of(entries@)),
            Err(other) => other == value && !(json_of(value) is Object),
        },
{
    match value {
        serde_json::Value::Object(map) => Ok(map.into_iter().collect()),
        other => Err(other),
    }
}

/// `serde_json::Value::is_null`.
#[verifier::external_body]
pub(crate) fn is_null(value: &serde_json::Value) -> (b: bool)
    ensures
        b == (json_of(*value) is Null),
{
    value.is_null()
}

/// `serde_json::Value::as_str`: the text of a string value, nothing for any
/// other value.
#[verifier::external_body]
pub(crate) fn as_str(value: &serde_json::Value) -> (r: Option<&str>)
    ensures
        match r {
            Some(s) => json_of(*value) == Json::Text(s@),
            None => !(json_of(*value) is Text),
        },
{
    value.as_str()
}

/// `serde_json::Value::as_i64`: the value of an integer that fits an `i64`,
/// nothing for any other value.
#[verifier::external_body]
pub(crate) fn as_i64(value: &serde_json::Value) -> (r: Option<i64>)
    ensures
        r == match integer_of(json_of(*value)) {
            Some(i) => if i64::MIN <= i <= i64::MAX {
                Some(i as i64)
            } else {
                None
            },
            None => None,
        },
{
    value.as_i64()
}

/// `serde_json::to_vec` on a value: its compact JSON text. Printing a value
/// into a byte vector has no way to fail.
#[verifier::external_body]
pub(crate) fn to_vec(value: &serde_json::Value) -> (bytes: Vec<u8>)
    ensures
        bytes@ == text_of(json_of(*value)),
{
    serde_json::to_vec(value).unwrap()
}

/// `serde_json::from_slice` into a value: the value that the text denotes, or
/// the error with which `serde_json` rejects the text.
#[verifier::external_body]
pub(crate) fn from_slice(bytes: &[u8]) -> (r: Result<serde_json::Value, SyntaxError>)
    ensures
        match r {
            Ok(value) => parse_of(bytes@) == Some(json_of(value)),
            Err(_) => parse_of(bytes@) is None,
        },
{
    serde_json::from_slice(bytes).map_err(SyntaxError)
}

/// `Display` for `serde_json::Value`: the value as `serde_json` shows it.
#[verifier::external_body]
pub(crate) fn show(value: &serde_json::Value) -> (text: String)
    ensures
        text@ == shown(json_of(*value)),
{
    value.to_string()
}

/// `Display` for `serde_json::Error`: the parser's account of what is wrong
/// with a text.
#[verifier::external_body]
pub(crate) fn error_message(error: &SyntaxError) -> (text: String) {
    error.0.to_string()
}

/// A key that no member before `i` carries is found at `i`.
proof fn lemma_lookup_at(members: Seq<(Seq<char>, Json)>, i: int, key: Seq<char>)
    requires
        0 <= i < members.len(),
        members[i].0 == key,
        forall|j: int| 0 <= j < i ==> (#[trigger] members[j]).0 != key,
    ensures
        lookup(members, key) == Some(members[i].1),
    decreases i,
{
    if i > 0 {
        let rest = members.drop_first();
        assert forall|j: int| 0 <= j < i - 1 implies (#[trigger] rest[j]).0 != key by {
            assert(rest[j] == members[j + 1]);
        }
        lemma_lookup_at(rest, i - 1, key);
    }
}

/// A key that no member carries is not found.
proof fn lemma_lookup_absent(members: Seq<(Seq<char>, Json)>, key: Seq<char>)
    requires
        forall|j: int| 0 <= j < members.len() ==> (#[trigger] members[j]).0 != key,
    ensures
        lookup(members, key) is None,
    decreases members.len(),
{
    if members.len() > 0 {
        let rest = members.drop_first();
        assert forall|j: int| 0 <= j < rest.len() implies (#[trigger] rest[j]).0 != key by {
            assert(rest[j] == members[j + 1]);
        }
        lemma_lookup_absent(rest, key);
    }
}

/// Taking a member out leaves the lookup of every other key as it was.
proof fn lemma_lookup_remove(members: Seq<(Seq<char>, Json)>, i: int, key: Seq<char>)
    requires
        0 <= i < members.len(),
        members[i].0 != key,
    ensures
        lookup(members.remove(i), key) == lookup(members, key),
    decreases members.len(),
{
    if i == 0 {
        assert(members.remove(0) =~= members.drop_first());
    } else {
        assert(members.remove(i).drop_first() =~= members.drop_first().remove(i - 1));
        if members[0].0 != key {
            lemma_lookup_remove(members.drop_first(), i - 1, key);
        }
    }
}

/// Takes the member named `key` out of `entries`.
///
/// Returns the value of the first such member, or nothing if there is none.
/// The members under every other key stay, in their order.
pub(crate) fn take_member(entries: &mut Vec<(String, serde_json::Value)>, key: &str) -> (found:
    Option<serde_json::Value>)
    ensures
        match found {
            Some(value) => lookup(members_of(old(entries)@), key@) == Some(json_of(value)),
            None => lookup(members_of(old(entries)@), key@) is None,
        },
        forall|other: Seq<char>|
            other != key@ ==> #[trigger] lookup(members_of(final(entries)@), other) == lookup(
                members_of(old(entries)@),
                other,
            ),
{
    let ghost before = members_of(entries@);
    let wanted = key.to_owned();
    let mut i: usize = 0;
    while i < entries.len()
        invariant
            i <= entries.len(),
            members_of(entries@) == before,
            before == members_of(old(entries)@),
            wanted@ == key@,
            forall|j: int| 0 <= j < i ==> (#[trigger] before[j]).0 != key@,
        decreases entries.len() - i,
    {
        if entries[i].0 == wanted {
            let (_, value) = entries.remove(i);
            proof {
                lemma_lookup_at(before, i as int, key@);
                assert(members_of(entries@) =~= before.remove(i as int));
                assert forall|other: Seq<char>| other != key@ implies #[trigger] lookup(
                    members_of(entries@),
                    other,
                ) == lookup(before, other) by {
                    lemma_lookup_remove(before, i as int, other);
                }
            }
            return Some(value);
        }
        i += 1;
    }
    proof {
        lemma_lookup_absent(before, key@);
    }
    None
}

} // verus!
