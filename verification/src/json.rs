//! Reading the whole-number and text fields of the weather services'
//! JSON replies.

use vstd::prelude::*;
use serde_json::Value;

verus! {

/// The unsigned integer that `serde_json` finds at `reply[outer][inner]`,
/// if the reply parses and holds one there.
pub uninterp spec fn json_u64_field(reply: Seq<char>, outer: Seq<char>, inner: Seq<char>) -> Option<u64>;

/// The string that `serde_json` finds at `reply[key]`, if the reply parses
/// and holds one there.
pub uninterp spec fn json_str_field(reply: Seq<char>, key: Seq<char>) -> Option<Seq<char>>;

/// `serde_json::from_str::<Value>`, then indexing by two keys and
/// `Value::as_u64`. Indexing a `Value` never panics (a missing key gives
/// `Null`); the result is a function of the arguments alone, named
/// `json_u64_field`, and nothing more about it is stated.
#[verifier::external_body]
fn read_u64_field(reply: &str, outer: &str, inner: &str) -> (res: Option<u64>)
    ensures
        res == json_u64_field(reply@, outer@, inner@),
{
    match serde_json::from_str::<Value>(reply) {
        Ok(v) => v[outer][inner].as_u64(),
        Err(_) => None,
    }
}

/// `serde_json::from_str::<Value>`, then indexing by one key and
/// `Value::as_str`, copied into a `String`. The result is a function of the
/// arguments alone, named `json_str_field`; nothing more is stated.
#[verifier::external_body]
fn read_str_field(reply: &str, key: &str) -> (res: Option<String>)
    ensures
        match res {
            Some(s) => json_str_field(reply@, key@) == Some(s@),
            None => json_str_field(reply@, key@) is None,
        },
{
    match serde_json::from_str::<Value>(reply) {
        Ok(v) => match v[key].as_str() {
            Some(s) => Some(s.to_string()),
            None => None,
        },
        Err(_) => None,
    }
}

/// The raw weather code of a forecast reply
/// (`current_weather.weathercode`).
pub fn reply_weathercode_field(reply: &str) -> (res: Option<u64>)
    ensures
        res == json_u64_field(reply@, "current_weather"@, "weathercode"@),
{
    read_u64_field(reply, "current_weather", "weathercode")
}

/// The city of an IP-location reply (`city`).
pub fn reply_city_field(reply: &str) -> (res: Option<String>)
    ensures
        match res {
            Some(s) => json_str_field(reply@, "city"@) == Some(s@),
            None => json_str_field(reply@, "city"@) is None,
        },
{
    read_str_field(reply, "city")
}

} // verus!
