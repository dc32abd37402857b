//! Reading and writing JSON text, through serde_json.
use vstd::prelude::*;
use crate::json::Json;
use serde_json::{Number, Value};

verus! {

/// serde_json::Value, the parsed form of JSON text; opaque here.
#[verifier::external_type_specification]
#[verifier::external_body]
pub struct ExValue(serde_json::Value);

/// serde_json::Number, a JSON number; opaque here.
#[verifier::external_type_specification]
#[verifier::external_body]
pub struct ExNumber(serde_json::Number);

/// serde_json::Map, the members of a JSON object; opaque here.
#[verifier::external_type_specification]
#[verifier::external_body]
#[verifier::reject_recursive_types(K)]
#[verifier::reject_recursive_types(V)]
pub struct ExMap<K, V>(serde_json::Map<K, V>);

/// Relies on serde_json::Value::is_null to tell `null` apart; nothing is
/// claimed of the answer.
pub assume_specification[ serde_json::Value::is_null ](v: &Value) -> bool;

/// Relies on serde_json::Value::as_bool to read a boolean; nothing is
/// claimed of the answer.
pub assume_specification[ serde_json::Value::as_bool ](v: &Value) -> Option<bool>;

/// Relies on serde_json::Value::as_number to read a number; nothing is
/// claimed of the answer.
pub assume_specification[ serde_json::Value::as_number ](v: &Value) -> Option<&Number>;

/// Relies on serde_json::Value::as_str to read a string; nothing is
/// claimed of the answer.
pub assume_specification[ serde_json::Value::as_str ](v: &Value) -> Option<&str>;

/// Relies on serde_json::Value::as_array to read an array; nothing is
/// claimed of the answer.
pub assume_specification[ serde_json::Value::as_array ](v: &Value) -> Option<&Vec<Value>>;

/// Relies on serde_json::Value::as_object to read an object; nothing is
/// claimed of the answer.
pub assume_specification[ serde_json::Value::as_object ](v: &Value) -> Option<
    &serde_json::Map<String, Value>,
>;

/// Relies on serde_json::Number::as_i64 to read an integer that fits an
/// `i64`; nothing is claimed of the answer.
pub assume_specification[ serde_json::Number::as_i64 ](n: &Number) -> Option<i64>;

/// Relies on serde_json::Map::new for an empty object.
pub assume_specification[ serde_json::Map::<String, Value>::new ]() -> serde_json::Map<String, Value>;

/// Relies on serde_json::Map::insert to add a member to an object.
pub assume_specification[ serde_json::Map::<String, Value>::insert ](
    m: &mut serde_json::Map<String, Value>,
    k: String,
    v: Value,
) -> Option<Value>;

/// Relies on serde_json::from_slice: parses JSON text; empty input is not
/// JSON text.
#[verifier::external_body]
fn parse_value(bytes: &[u8]) -> (r: Option<Value>)
    ensures
        bytes@.len() == 0 ==> r is None,
{
    serde_json::from_slice(bytes).ok()
}

/// Relies on serde_json::to_vec: writes a value as JSON text. It fails
/// only where a `Serialize` impl fails or a map key is not a string, and a
/// `Value` has neither.
#[verifier::external_body]
fn write_value(v: &Value) -> (r: Option<Vec<u8>>)
    ensures
        r is Some,
{
    serde_json::to_vec(v).ok()
}

/// Relies on serde_json::Map::iter: the members of an object.
#[verifier::external_body]
fn members_of(m: &serde_json::Map<String, Value>) -> (r: Vec<(&String, &Value)>) {
    m.iter().collect()
}

/// Relies on serde_json's Display for Number: a number's decimal text.
#[verifier::external_body]
fn number_text(n: &Number) -> (r: String) {
    n.to_string()
}

/// Whether serde_json reads `t` as a JSON number.
pub uninterp spec fn reads_as_number(t: Seq<char>) -> bool;

/// Relies on serde_json's FromStr for Number: reads decimal text; whether it
/// succeeds depends on the text alone.
#[verifier::external_body]
fn number_from_text(t: &str) -> (r: Option<Number>)
    ensures
        r is Some <==> reads_as_number(t@),
{
    t.parse::<Number>().ok()
}

/// Relies on serde_json's From<()> for Value: `null`.
#[verifier::external_body]
fn null_value() -> (r: Value) {
    Value::from(())
}

/// Relies on serde_json's From<bool> for Value.
#[verifier::external_body]
fn bool_value(b: bool) -> (r: Value) {
    Value::from(b)
}

/// Relies on serde_json's From<i64> for Value.
#[verifier::external_body]
fn int_value(n: i64) -> (r: Value) {
    Value::from(n)
}

/// Relies on serde_json's From<Number> for Value.
#[verifier::external_body]
fn number_value(n: Number) -> (r: Value) {
    Value::from(n)
}

/// Relies on serde_json's From<String> for Value.
#[verifier::external_body]
fn string_value(s: String) -> (r: Value) {
    Value::from(s)
}

/// Relies on serde_json's From<Vec<Value>> for Value.
#[verifier::external_body]
fn array_value(items: Vec<Value>) -> (r: Value) {
    Value::from(items)
}

/// Relies on serde_json's From<serde_json::Map<String, Value>> for Value.
#[verifier::external_body]
fn object_value(m: serde_json::Map<String, Value>) -> (r: Value) {
    Value::from(m)
}

/// The deepest nesting that serde_json reads.
pub const MAX_DEPTH: u32 = 128;

/// Converts a parsed value, nested at most `depth` deep.
fn from_value(v: &Value, depth: u32) -> (r: Option<Json>)
    decreases depth,
{
    if v.is_null() {
        return Some(Json::Null);
    }
    if let Some(b) = v.as_bool() {
        return Some(Json::Bool(b));
    }
    if let Some(n) = v.as_number() {
        return match n.as_i64() {
            Some(i) => Some(Json::Int(i)),
            None => Some(Json::Decimal(number_text(n))),
        };
    }
    if let Some(s) = v.as_str() {
        return Some(Json::Str(String::from_str(s)));
    }
    if depth == 0 {
        return None;
    }
    if let Some(items) = v.as_array() {
        let mut out: Vec<Json> = Vec::new();
        let mut i: usize = 0;
        while i < items.len()
            invariant
                depth > 0,
            decreases items@.len() - i,
        {
            match from_value(&items[i], depth - 1) {
                Some(j) => out.push(j),
                None => {
                    return None;
                },
            }
            i = i + 1;
        }
        return Some(Json::Array(out));
    }
    if let Some(m) = v.as_object() {
        let members = members_of(m);
        let mut out: Vec<(String, Json)> = Vec::new();
        let mut i: usize = 0;
        while i < members.len()
            invariant
                depth > 0,
            decreases members@.len() - i,
        {
            let (k, x) = members[i];
            match from_value(x, depth - 1) {
                Some(j) => out.push((k.clone(), j)),
                None => {
                    return None;
                },
            }
            i = i + 1;
        }
        return Some(Json::Object(out));
    }
    None
}

/// Parses JSON text. `None` where the text is not JSON.
pub fn parse_json(bytes: &[u8]) -> (r: Option<Json>)
    ensures
        bytes@.len() == 0 ==> r is None,
{
    match parse_value(bytes) {
        Some(v) => from_value(&v, MAX_DEPTH),
        None => None,
    }
}

/// Whether a value nested at most `depth` deep can be written as JSON text:
/// every decimal in it holds text that reads as a number.
pub open spec fn writable_to(j: Json, depth: nat) -> bool
    decreases depth, 0int, 0int,
{
    match j {
        Json::Decimal(t) => reads_as_number(t@),
        Json::Array(items) => depth > 0 && items_writable(items@, (depth - 1) as nat, items@.len() as int),
        Json::Object(f) => depth > 0 && values_writable(f@, (depth - 1) as nat, f@.len() as int),
        _ => true,
    }
}

/// Whether the first `n` elements can be written, nested at most `depth` deep.
pub open spec fn items_writable(s: Seq<Json>, depth: nat, n: int) -> bool
    decreases depth, 1int, n,
{
    if n <= 0 {
        true
    } else if n > s.len() {
        false
    } else {
        items_writable(s, depth, n - 1) && writable_to(s[n - 1], depth)
    }
}

/// Whether the values of the first `n` members can be written, nested at
/// most `depth` deep.
pub open spec fn values_writable(s: Seq<(String, Json)>, depth: nat, n: int) -> bool
    decreases depth, 1int, n,
{
    if n <= 0 {
        true
    } else if n > s.len() {
        false
    } else {
        values_writable(s, depth, n - 1) && writable_to(s[n - 1].1, depth)
    }
}

/// Whether `write_json` writes a value.
pub open spec fn writable(j: Json) -> bool {
    writable_to(j, MAX_DEPTH as nat)
}

proof fn lemma_items_prefix(s: Seq<Json>, depth: nat, n: int, m: int)
    requires
        0 <= n <= m,
        items_writable(s, depth, m),
    ensures
        items_writable(s, depth, n),
    decreases m - n,
{
    if n < m {
        lemma_items_prefix(s, depth, n, m - 1);
    }
}

proof fn lemma_values_prefix(s: Seq<(String, Json)>, depth: nat, n: int, m: int)
    requires
        0 <= n <= m,
        values_writable(s, depth, m),
    ensures
        values_writable(s, depth, n),
    decreases m - n,
{
    if n < m {
        lemma_values_prefix(s, depth, n, m - 1);
    }
}

/// Appending a member keeps what was writable of the members before it.
pub proof fn lemma_values_push(s: Seq<(String, Json)>, m: (String, Json), depth: nat, n: int)
    requires
        0 <= n <= s.len(),
    ensures
        values_writable(s.push(m), depth, n) == values_writable(s, depth, n),
    decreases n,
{
    if n > 0 {
        assert(s.push(m)[n - 1] == s[n - 1]);
        lemma_values_push(s, m, depth, n - 1);
    }
}

/// Appending an element keeps what was writable of the elements before it.
pub proof fn lemma_items_push(s: Seq<Json>, x: Json, depth: nat, n: int)
    requires
        0 <= n <= s.len(),
    ensures
        items_writable(s.push(x), depth, n) == items_writable(s, depth, n),
    decreases n,
{
    if n > 0 {
        assert(s.push(x)[n - 1] == s[n - 1]);
        lemma_items_push(s, x, depth, n - 1);
    }
}

/// Converts a value for serde_json to write, nested at most `depth` deep.
fn to_value(j: &Json, depth: u32) -> (r: Option<Value>)
    ensures
        r is Some <==> writable_to(*j, depth as nat),
    decreases depth,
{
    match j {
        Json::Null => Some(null_value()),
        Json::Bool(b) => Some(bool_value(*b)),
        Json::Int(n) => Some(int_value(*n)),
        Json::Decimal(t) => match number_from_text(t.as_str()) {
            Some(n) => Some(number_value(n)),
            None => None,
        },
        Json::Str(s) => Some(string_value(s.clone())),
        Json::Array(items) => {
            if depth == 0 {
                return None;
            }
            let mut out: Vec<Value> = Vec::new();
            let mut i: usize = 0;
            while i < items.len()
                invariant
                    i <= items@.len(),
                    depth > 0,
                    *j == Json::Array(*items),
                    items_writable(items@, (depth - 1) as nat, i as int),
                decreases items@.len() - i,
            {
                match to_value(&items[i], depth - 1) {
                    Some(v) => out.push(v),
                    None => {
                        proof {
                            if items_writable(items@, (depth - 1) as nat, items@.len() as int) {
                                lemma_items_prefix(
                                    items@,
                                    (depth - 1) as nat,
                                    i + 1,
                                    items@.len() as int,
                                );
                            }
                        }
                        return None;
                    },
                }
                i = i + 1;
            }
            Some(array_value(out))
        },
        Json::Object(fields) => {
            if depth == 0 {
                return None;
            }
            let mut m = serde_json::Map::new();
            let mut i: usize = 0;
            while i < fields.len()
                invariant
                    i <= fields@.len(),
                    depth > 0,
                    *j == Json::Object(*fields),
                    values_writable(fields@, (depth - 1) as nat, i as int),
                decreases fields@.len() - i,
            {
                match to_value(&fields[i].1, depth - 1) {
                    Some(v) => {
                        m.insert(fields[i].0.clone(), v);
                    },
                    None => {
                        proof {
                            if values_writable(fields@, (depth - 1) as nat, fields@.len() as int) {
                                lemma_values_prefix(
                                    fields@,
                                    (depth - 1) as nat,
                                    i + 1,
                                    fields@.len() as int,
                                );
                            }
                        }
                        return None;
                    },
                }
                i = i + 1;
            }
            Some(object_value(m))
        },
    }
}

/// Writes a value as JSON text. `None` where a decimal in it does not hold
/// a number, or where it is nested deeper than `MAX_DEPTH`.
pub fn write_json(j: &Json) -> (r: Option<Vec<u8>>)
    ensures
        r is Some <==> writable(*j),
{
    match to_value(j, MAX_DEPTH) {
        Some(v) => write_value(&v),
        None => None,
    }
}

} // verus!
