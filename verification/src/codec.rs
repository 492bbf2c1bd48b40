use vstd::prelude::*;
use crate::error::Error;
use crate::json::JsonValue;
use crate::value::Value;

verus! {

/// The kind name of the first value in a tree, depth first, that has
/// no JSON form; `None` when the whole tree encodes.
///
/// The kinds with no JSON form are `Undetermined`, `Range`, `Tuple`,
/// `EnumVariant`, `RegExp`, `File`, `Pipeline` and `Reference`, and a
/// float whose value is not finite (JSON has no NaN or infinities).
pub open spec fn spec_json_err(v: Value) -> Option<Seq<char>>
    decreases v, 0int,
{
    match v {
        Value::Null => None,
        Value::Bool(_) => None,
        Value::Int(_) => None,
        Value::Int64(_) => None,
        Value::Float32(b) => if crate::num::spec_decode32(b) is NotANumber || crate::num::spec_decode32(
            b,
        ) is Infinite {
            Some(v.spec_type_hint())
        } else {
            None
        },
        Value::Float(b) => if crate::num::spec_decode64(b) is NotANumber || crate::num::spec_decode64(
            b,
        ) is Infinite {
            Some(v.spec_type_hint())
        } else {
            None
        },
        Value::Decimal(_) => None,
        Value::ObjectId(_) => None,
        Value::String(_) => None,
        Value::Date(_) => None,
        Value::DateTime(_) => None,
        Value::Array(x) => spec_seq_json_err(x@, 0),
        Value::Dictionary(m) => spec_entries_json_err(m@, 0),
        Value::BTreeDictionary(m) => spec_entries_json_err(m@, 0),
        Value::IndexDictionary(m) => spec_entries_json_err(m@, 0),
        _ => Some(v.spec_type_hint()),
    }
}

/// The first failing element of a value sequence, from an index on.
pub open spec fn spec_seq_json_err(x: Seq<Value>, k: int) -> Option<Seq<char>>
    decreases x, x.len() - k,
{
    if k < 0 || k >= x.len() {
        None
    } else {
        match spec_json_err(x[k]) {
            Some(h) => Some(h),
            None => spec_seq_json_err(x, k + 1),
        }
    }
}

/// The first failing entry value of an entry list, from an index on.
pub open spec fn spec_entries_json_err(m: Seq<(String, Value)>, k: int) -> Option<Seq<char>>
    decreases m, m.len() - k,
{
    if k < 0 || k >= m.len() {
        None
    } else {
        match spec_json_err(m[k].1) {
            Some(h) => Some(h),
            None => spec_entries_json_err(m, k + 1),
        }
    }
}

/// How a value encodes into JSON, relating a value to its document.
///
/// Scalars map to JSON scalars, an object identifier to its lowercase
/// hexadecimal string, and the extended types to tagged one-member
/// objects: a decimal to `{"$decimal": <normalized text>}`, a date to
/// `{"$date": "YYYY-MM-DD"}`, a timestamp to `{"$datetime": <RFC 3339,
/// millisecond precision, UTC>}`.  Arrays and the three dictionary
/// variants encode member for member, keys in entry order.
pub open spec fn spec_json_of(v: Value, j: JsonValue) -> bool
    decreases v, 0int,
{
    match v {
        Value::Null => j is Null,
        Value::Bool(b) => j == JsonValue::Bool(b),
        Value::Int(n) => j matches JsonValue::Int(x) && x as int == n as int,
        Value::Int64(n) => j == JsonValue::Int(n),
        Value::Float32(b) => j == JsonValue::Float(crate::num::spec_widen_f32(b)),
        Value::Float(b) => j == JsonValue::Float(b),
        Value::Decimal(d) => {
            &&& j matches JsonValue::Object(e)
            &&& e@.len() == 1
            &&& e@[0].0@ == "$decimal"@
            &&& e@[0].1 matches JsonValue::String(s) && s@ == d.text()
        },
        Value::ObjectId(o) => j matches JsonValue::String(s) && s@ == crate::object_id::spec_hex_of(
            o.bytes@,
        ),
        Value::String(t) => j matches JsonValue::String(s) && s@ == t@,
        Value::Date(d) => {
            &&& j matches JsonValue::Object(e)
            &&& e@.len() == 1
            &&& e@[0].0@ == "$date"@
            &&& e@[0].1 matches JsonValue::String(s) && s@ == crate::temporal::spec_date_str(d)
        },
        Value::DateTime(d) => {
            &&& j matches JsonValue::Object(e)
            &&& e@.len() == 1
            &&& e@[0].0@ == "$datetime"@
            &&& e@[0].1 matches JsonValue::String(s) && s@ == crate::temporal::spec_datetime_str(d)
        },
        Value::Array(x) => j matches JsonValue::Array(ja) && ja@.len() == x@.len() && (forall|
            i: int,
        |
            0 <= i < x@.len() ==> spec_json_of(#[trigger] x@[i], #[trigger] ja@[i])),
        Value::Dictionary(m) => spec_json_of_entries(m@, j),
        Value::BTreeDictionary(m) => spec_json_of_entries(m@, j),
        Value::IndexDictionary(m) => spec_json_of_entries(m@, j),
        _ => false,
    }
}

/// How an entry list encodes into a JSON object, key order kept.
pub open spec fn spec_json_of_entries(m: Seq<(String, Value)>, j: JsonValue) -> bool
    decreases m, 1int,
{
    j matches JsonValue::Object(je) && je@.len() == m.len() && (forall|i: int|
        0 <= i < m.len() ==> (#[trigger] je@[i]).0@ == (#[trigger] m[i]).0@ && spec_json_of(
            m[i].1,
            je@[i].1,
        ))
}

/// The conversion error named by a kind that has no JSON form.
fn json_error(hint: &str) -> (r: Error)
    ensures
        r.message@ == "Cannot convert "@ + hint@ + " into json"@,
{
    let mut m = String::new();
    m.append("Cannot convert ");
    m.append(hint);
    m.append(" into json");
    proof {
        assert(m@ =~= "Cannot convert "@ + hint@ + " into json"@);
    }
    Error { message: m }
}

/// Builds the one-member object of an envelope tag.
fn tagged_object(tag: &str, text: String) -> (r: JsonValue)
    ensures
        ({
            &&& r matches JsonValue::Object(e)
            &&& e@.len() == 1
            &&& e@[0].0@ == tag@
            &&& e@[0].1 matches JsonValue::String(s) && s@ == text@
        }),
{
    let mut entries: Vec<(String, JsonValue)> = Vec::new();
    entries.push((String::from_str(tag), JsonValue::String(text)));
    JsonValue::Object(entries)
}

impl Value {
    /// Encodes the value as a JSON document.
    ///
    /// Succeeds exactly when every value in the tree has a JSON form
    /// ([`spec_json_err`] answers `None`), and then returns the
    /// document [`spec_json_of`] describes; otherwise the error names
    /// the first kind, depth first, that has none.
    pub fn to_json(&self) -> (r: Result<JsonValue, Error>)
        ensures
            match spec_json_err(*self) {
                None => r matches Ok(j) && spec_json_of(*self, j),
                Some(h) => r matches Err(e) && e.message@ == "Cannot convert "@ + h
                    + " into json"@,
            },
        decreases *self,
    {
        match self {
            Value::Null => Ok(JsonValue::Null),
            Value::Bool(b) => Ok(JsonValue::Bool(*b)),
            Value::Int(n) => Ok(JsonValue::Int(*n as i64)),
            Value::Int64(n) => Ok(JsonValue::Int(*n)),
            Value::Float32(b) => {
                match crate::num::decode32(*b) {
                    crate::num::FloatRep::NotANumber => Err(json_error(self.type_hint())),
                    crate::num::FloatRep::Infinite { .. } => Err(json_error(self.type_hint())),
                    _ => Ok(JsonValue::Float(crate::num::widen_f32_bits(*b))),
                }
            },
            Value::Float(b) => {
                match crate::num::decode64(*b) {
                    crate::num::FloatRep::NotANumber => Err(json_error(self.type_hint())),
                    crate::num::FloatRep::Infinite { .. } => Err(json_error(self.type_hint())),
                    _ => Ok(JsonValue::Float(*b)),
                }
            },
            Value::Decimal(d) => {
                let text = String::from_str(d.as_str());
                Ok(tagged_object("$decimal", text))
            },
            Value::ObjectId(o) => Ok(JsonValue::String(o.to_hex())),
            Value::String(s) => Ok(JsonValue::String(s.clone())),
            Value::Date(d) => {
                let mut text = String::new();
                crate::temporal::append_date(&mut text, d);
                Ok(tagged_object("$date", text))
            },
            Value::DateTime(d) => {
                let mut text = String::new();
                crate::temporal::append_datetime(&mut text, d);
                Ok(tagged_object("$datetime", text))
            },
            Value::Array(x) => {
                match seq_to_json(x) {
                    Ok(ja) => Ok(JsonValue::Array(ja)),
                    Err(e) => Err(e),
                }
            },
            Value::Dictionary(m) => {
                match entries_to_json(m) {
                    Ok(je) => {
                        proof {
                            assert(spec_json_of_entries(m@, JsonValue::Object(je)));
                        }
                        Ok(JsonValue::Object(je))
                    },
                    Err(e) => Err(e),
                }
            },
            Value::BTreeDictionary(m) => {
                match entries_to_json(m) {
                    Ok(je) => {
                        proof {
                            assert(spec_json_of_entries(m@, JsonValue::Object(je)));
                        }
                        Ok(JsonValue::Object(je))
                    },
                    Err(e) => Err(e),
                }
            },
            Value::IndexDictionary(m) => {
                match entries_to_json(m) {
                    Ok(je) => {
                        proof {
                            assert(spec_json_of_entries(m@, JsonValue::Object(je)));
                        }
                        Ok(JsonValue::Object(je))
                    },
                    Err(e) => Err(e),
                }
            },
            _ => Err(json_error(self.type_hint())),
        }
    }
}

/// Encodes a value sequence as JSON array elements.
fn seq_to_json(x: &Vec<Value>) -> (r: Result<Vec<JsonValue>, Error>)
    ensures
        match spec_seq_json_err(x@, 0) {
            None => r matches Ok(ja) && ja@.len() == x@.len() && (forall|i: int|
                0 <= i < x@.len() ==> spec_json_of(#[trigger] x@[i], #[trigger] ja@[i])),
            Some(h) => r matches Err(e) && e.message@ == "Cannot convert "@ + h + " into json"@,
        },
    decreases x@,
{
    let n = x.len();
    let mut out: Vec<JsonValue> = Vec::new();
    let mut i: usize = 0;
    while i < n
        invariant
            i <= n,
            n == x@.len(),
            out@.len() == i,
            spec_seq_json_err(x@, 0) == spec_seq_json_err(x@, i as int),
            forall|i2: int|
                0 <= i2 < i ==> spec_json_of(#[trigger] x@[i2], #[trigger] out@[i2]),
        decreases n - i,
    {
        match x[i].to_json() {
            Ok(j) => {
                out.push(j);
            },
            Err(e) => {
                return Err(e);
            },
        }
        i += 1;
    }
    Ok(out)
}

/// Encodes an entry list as JSON object members, key order kept.
fn entries_to_json(m: &Vec<(String, Value)>) -> (r: Result<Vec<(String, JsonValue)>, Error>)
    ensures
        match spec_entries_json_err(m@, 0) {
            None => r matches Ok(je) && je@.len() == m@.len() && (forall|i: int|
                0 <= i < m@.len() ==> (#[trigger] je@[i]).0@ == (#[trigger] m@[i]).0@
                    && spec_json_of(m@[i].1, je@[i].1)),
            Some(h) => r matches Err(e) && e.message@ == "Cannot convert "@ + h + " into json"@,
        },
    decreases m@,
{
    let n = m.len();
    let mut out: Vec<(String, JsonValue)> = Vec::new();
    let mut i: usize = 0;
    while i < n
        invariant
            i <= n,
            n == m@.len(),
            out@.len() == i,
            spec_entries_json_err(m@, 0) == spec_entries_json_err(m@, i as int),
            forall|i2: int|
                0 <= i2 < i ==> (#[trigger] out@[i2]).0@ == (#[trigger] m@[i2]).0@ && spec_json_of(
                    m@[i2].1,
                    out@[i2].1,
                ),
        decreases n - i,
    {
        match m[i].1.to_json() {
            Ok(j) => {
                out.push((m[i].0.clone(), j));
            },
            Err(e) => {
                return Err(e);
            },
        }
        i += 1;
    }
    Ok(out)
}

/// How a JSON document reads back as a value: every document does, and
/// the extended-type envelopes are not special-cased on this side.
/// Null, booleans and strings map to their kinds, an integral number to
/// `Int64`, a non-integral number to `Float`, an array to `Array` and
/// an object to `Dictionary`, member for member.
pub open spec fn spec_value_of_json(j: JsonValue, v: Value) -> bool
    decreases j, 0int,
{
    match j {
        JsonValue::Null => v is Null,
        JsonValue::Bool(b) => v == Value::Bool(b),
        JsonValue::Int(n) => v == Value::Int64(n),
        JsonValue::Float(b) => v == Value::Float(b),
        JsonValue::String(s) => v matches Value::String(t) && t@ == s@,
        JsonValue::Array(ja) => v matches Value::Array(x) && x@.len() == ja@.len() && (forall|
            i: int,
        |
            0 <= i < ja@.len() ==> spec_value_of_json(#[trigger] ja@[i], #[trigger] x@[i])),
        JsonValue::Object(je) => v matches Value::Dictionary(m) && m@.len() == je@.len() && (forall|
            i: int,
        |
            0 <= i < je@.len() ==> (#[trigger] m@[i]).0@ == (#[trigger] je@[i]).0@
                && spec_value_of_json(je@[i].1, m@[i].1)),
    }
}

/// Reads a JSON document back as a value; [`spec_value_of_json`] says
/// what comes out.  This direction is total and does not reconstruct
/// the extended types from their envelope tags.
pub fn value_from_json(j: &JsonValue) -> (r: Value)
    ensures
        spec_value_of_json(*j, r),
    decreases *j,
{
    match j {
        JsonValue::Null => Value::Null,
        JsonValue::Bool(b) => Value::Bool(*b),
        JsonValue::Int(n) => Value::Int64(*n),
        JsonValue::Float(b) => Value::Float(*b),
        JsonValue::String(s) => Value::String(s.clone()),
        JsonValue::Array(ja) => Value::Array(values_from_json_seq(ja)),
        JsonValue::Object(je) => Value::Dictionary(entries_from_json(je)),
    }
}

/// Reads JSON array elements back as values.
fn values_from_json_seq(ja: &Vec<JsonValue>) -> (r: Vec<Value>)
    ensures
        r@.len() == ja@.len(),
        forall|i: int| 0 <= i < ja@.len() ==> spec_value_of_json(#[trigger] ja@[i], #[trigger] r@[i]),
    decreases ja@,
{
    let n = ja.len();
    let mut out: Vec<Value> = Vec::new();
    let mut i: usize = 0;
    while i < n
        invariant
            i <= n,
            n == ja@.len(),
            out@.len() == i,
            forall|i2: int|
                0 <= i2 < i ==> spec_value_of_json(#[trigger] ja@[i2], #[trigger] out@[i2]),
        decreases n - i,
    {
        let v = value_from_json(&ja[i]);
        out.push(v);
        i += 1;
    }
    out
}

/// Reads JSON object members back as dictionary entries.
fn entries_from_json(je: &Vec<(String, JsonValue)>) -> (r: Vec<(String, Value)>)
    ensures
        r@.len() == je@.len(),
        forall|i: int|
            0 <= i < je@.len() ==> (#[trigger] r@[i]).0@ == (#[trigger] je@[i]).0@
                && spec_value_of_json(je@[i].1, r@[i].1),
    decreases je@,
{
    let n = je.len();
    let mut out: Vec<(String, Value)> = Vec::new();
    let mut i: usize = 0;
    while i < n
        invariant
            i <= n,
            n == je@.len(),
            out@.len() == i,
            forall|i2: int|
                0 <= i2 < i ==> (#[trigger] out@[i2]).0@ == (#[trigger] je@[i2]).0@
                    && spec_value_of_json(je@[i2].1, out@[i2].1),
        decreases n - i,
    {
        let v = value_from_json(&je[i].1);
        out.push((je[i].0.clone(), v));
        i += 1;
    }
    out
}

/// Whether a JSON document carries only finite numbers: the subset a
/// decoded value encodes back from.
pub open spec fn spec_json_finite(j: JsonValue) -> bool
    decreases j, 0int,
{
    match j {
        JsonValue::Float(b) => !(crate::num::spec_decode64(b) is NotANumber) && !(
        crate::num::spec_decode64(b) is Infinite),
        JsonValue::Array(x) => forall|i: int|
            0 <= i < x@.len() ==> spec_json_finite(#[trigger] x@[i]),
        JsonValue::Object(e) => forall|i: int|
            0 <= i < e@.len() ==> spec_json_finite((#[trigger] e@[i]).1),
        _ => true,
    }
}

/// Structural sameness of two JSON documents: the same shape member
/// for member, strings compared by their character sequences.
pub open spec fn spec_json_same(a: JsonValue, b: JsonValue) -> bool
    decreases a, 1int,
{
    match (a, b) {
        (JsonValue::Null, JsonValue::Null) => true,
        (JsonValue::Bool(x), JsonValue::Bool(y)) => x == y,
        (JsonValue::Int(x), JsonValue::Int(y)) => x == y,
        (JsonValue::Float(x), JsonValue::Float(y)) => x == y,
        (JsonValue::String(x), JsonValue::String(y)) => x@ == y@,
        (JsonValue::Array(x), JsonValue::Array(y)) => {
            &&& x@.len() == y@.len()
            &&& forall|i: int| 0 <= i < x@.len() ==> spec_json_same(#[trigger] x@[i], y@[i])
        },
        (JsonValue::Object(x), JsonValue::Object(y)) => {
            &&& x@.len() == y@.len()
            &&& forall|i: int|
                0 <= i < x@.len() ==> (#[trigger] x@[i]).0@ == y@[i].0@ && spec_json_same(
                    x@[i].1,
                    y@[i].1,
                )
        },
        _ => false,
    }
}

/// A value read from a finite JSON document has a JSON form: decoding
/// never leaves the encodable subset.
pub proof fn lemma_json_decoded_encodes(j: JsonValue, v: Value)
    requires
        spec_json_finite(j),
        spec_value_of_json(j, v),
    ensures
        spec_json_err(v) is None,
    decreases j, 2int,
{
    match j {
        JsonValue::Array(x) => {
            if let Value::Array(vals) = v {
                lemma_json_seq_err_none(x@, vals@, 0);
            }
        },
        JsonValue::Object(e) => {
            if let Value::Dictionary(m) = v {
                lemma_json_entries_err_none(e@, m@, 0);
            }
        },
        _ => {
        },
    }
}

/// Every decoded element from an index on is encodable.
proof fn lemma_json_seq_err_none(x: Seq<JsonValue>, vals: Seq<Value>, k: int)
    requires
        forall|i: int| 0 <= i < x.len() ==> spec_json_finite(#[trigger] x[i]),
        vals.len() == x.len(),
        forall|i: int| 0 <= i < x.len() ==> spec_value_of_json(#[trigger] x[i], #[trigger] vals[i]),
        0 <= k <= vals.len(),
    ensures
        spec_seq_json_err(vals, k) is None,
    decreases x, 3int, x.len() - k,
{
    if k < vals.len() {
        lemma_json_decoded_encodes(x[k], vals[k]);
        lemma_json_seq_err_none(x, vals, k + 1);
    }
}

/// Every decoded entry value from an index on is encodable.
proof fn lemma_json_entries_err_none(
    e: Seq<(String, JsonValue)>,
    m: Seq<(String, Value)>,
    k: int,
)
    requires
        forall|i: int| 0 <= i < e.len() ==> spec_json_finite((#[trigger] e[i]).1),
        m.len() == e.len(),
        forall|i: int|
            0 <= i < e.len() ==> spec_value_of_json((#[trigger] e[i]).1, (#[trigger] m[i]).1),
        0 <= k <= m.len(),
    ensures
        spec_entries_json_err(m, k) is None,
    decreases e, 3int, e.len() - k,
{
    if k < m.len() {
        lemma_json_decoded_encodes(e[k].1, m[k].1);
        lemma_json_entries_err_none(e, m, k + 1);
    }
}

/// One member of the round trip: under the elementwise decode and
/// encode relations, the member at an index comes back the same.
proof fn lemma_json_round_trip_entry(
    e: Seq<(String, JsonValue)>,
    m: Seq<(String, Value)>,
    je: Seq<(String, JsonValue)>,
    i: int,
)
    requires
        forall|i2: int| 0 <= i2 < e.len() ==> spec_json_finite((#[trigger] e[i2]).1),
        m.len() == e.len(),
        je.len() == e.len(),
        forall|i2: int|
            0 <= i2 < e.len() ==> (#[trigger] m[i2]).0@ == (#[trigger] e[i2]).0@
                && spec_value_of_json(e[i2].1, m[i2].1),
        forall|i2: int|
            0 <= i2 < e.len() ==> (#[trigger] je[i2]).0@ == (#[trigger] m[i2]).0@
                && spec_json_of(m[i2].1, je[i2].1),
        0 <= i < e.len(),
    ensures
        e[i].0@ == je[i].0@,
        spec_json_same(e[i].1, je[i].1),
    decreases e, 1int, 0int,
{
    lemma_json_round_trip(e[i].1, m[i].1, je[i].1);
}

/// The decode-then-encode round trip on JSON's own shapes: a finite
/// document read as a value and encoded again comes back the same,
/// member for member.  (The other direction is not an identity: an
/// encoded value may narrow widths and collapse the dictionary
/// variants, as the codec's contracts state.)
pub proof fn lemma_json_round_trip(j: JsonValue, v: Value, j2: JsonValue)
    requires
        spec_json_finite(j),
        spec_value_of_json(j, v),
        spec_json_of(v, j2),
    ensures
        spec_json_same(j, j2),
    decreases j, 2int, 0int,
{
    match j {
        JsonValue::Null => {
            assert(v is Null);
            assert(j2 is Null);
        },
        JsonValue::Bool(b) => {
            assert(v == Value::Bool(b));
            assert(j2 == JsonValue::Bool(b));
        },
        JsonValue::Int(n) => {
            assert(v == Value::Int64(n));
            assert(j2 == JsonValue::Int(n));
        },
        JsonValue::Float(b) => {
            assert(v == Value::Float(b));
            assert(j2 == JsonValue::Float(b));
        },
        JsonValue::String(sx) => {
            if let Value::String(t) = v {
                assert(t@ == sx@);
                if let JsonValue::String(s2) = j2 {
                    assert(s2@ == t@);
                } else {
                    assert(false);
                }
            } else {
                assert(false);
            }
        },
        JsonValue::Array(x) => {
            if let Value::Array(vals) = v {
                if let JsonValue::Array(ja) = j2 {
                    assert forall|i: int| 0 <= i < x@.len() implies spec_json_same(
                        #[trigger] x@[i],
                        ja@[i],
                    ) by {
                        assert(spec_json_finite(x@[i]));
                        assert(spec_value_of_json(x@[i], vals@[i]));
                        assert(spec_json_of(vals@[i], ja@[i]));
                        lemma_json_round_trip(x@[i], vals@[i], ja@[i]);
                    }
                } else {
                    assert(false);
                }
            } else {
                assert(false);
            }
        },
        JsonValue::Object(e) => {
            if let Value::Dictionary(m) = v {
                if let JsonValue::Object(je) = j2 {
                    assert(spec_json_of_entries(m@, j2));
                    assert(m@.len() == e@.len());
                    assert(je@.len() == m@.len());
                    assert(forall|i2: int|
                        0 <= i2 < e@.len() ==> (#[trigger] m@[i2]).0@ == (#[trigger] e@[i2]).0@
                            && spec_value_of_json(e@[i2].1, m@[i2].1));
                    assert(forall|i2: int|
                        0 <= i2 < e@.len() ==> (#[trigger] je@[i2]).0@ == (#[trigger] m@[i2]).0@
                            && spec_json_of(m@[i2].1, je@[i2].1));
                    assert forall|i: int| 0 <= i < e@.len() implies (#[trigger] e@[i]).0@
                        == je@[i].0@ && spec_json_same(e@[i].1, je@[i].1) by {
                        lemma_json_round_trip_entry(e@, m@, je@, i);
                    }
                } else {
                    assert(spec_json_of_entries(m@, j2));
                    assert(false);
                }
            } else {
                assert(false);
            }
        },
    }
}

} // verus!
