use vstd::prelude::*;
use crate::decimal::TeonDecimal;
use crate::error::Error;
use crate::object_id::ObjectIdValue;
use crate::temporal::TeonDate;
use crate::temporal::TeonDateTime;
use crate::value::Value;

verus! {

/// The message of a failed extraction:
/// `Cannot convert <kind> into <target>`.
pub open spec fn spec_conv_msg(v: Value, target: Seq<char>) -> Seq<char> {
    "Cannot convert "@ + v.spec_type_hint() + " into "@ + target
}

/// Builds the failed-extraction error.
pub fn conversion_error(v: &Value, target: &str) -> (r: Error)
    ensures
        r.message@ == spec_conv_msg(*v, target@),
{
    let mut m = String::new();
    m.append("Cannot convert ");
    m.append(v.type_hint());
    m.append(" into ");
    m.append(target);
    proof {
        assert(m@ =~= spec_conv_msg(*v, target@));
    }
    Error { message: m }
}

/// Fallible extraction of a native shape out of a value: the
/// value-to-native half of the conversion protocol.
///
/// Each target type says which variants it accepts, what it takes from
/// them, and the message of its error; extraction succeeds exactly on
/// accepted values.
pub trait FromTeon: Sized {
    /// The target's name as the error message quotes it.
    spec fn spec_name() -> Seq<char>;

    /// Which values convert.
    spec fn spec_accepts(v: Value) -> bool;

    /// What conversion takes out of an accepted value.
    spec fn spec_taken(v: Value, r: Self) -> bool;

    /// The message of the error on a value that does not convert.
    spec fn spec_err_msg(v: Value) -> Seq<char>;

    /// The target's name at runtime.
    fn name() -> (r: String)
        ensures
            r@ == Self::spec_name(),
    ;

    fn from_teon(v: &Value) -> (r: Result<Self, Error>)
        ensures
            Self::spec_accepts(*v) <==> r is Ok,
            r matches Ok(x) ==> Self::spec_taken(*v, x),
            r matches Err(e) ==> e.message@ == Self::spec_err_msg(*v),
    ;
}

impl FromTeon for bool {
    open spec fn spec_name() -> Seq<char> {
        "bool"@
    }

    open spec fn spec_accepts(v: Value) -> bool {
        v is Bool
    }

    open spec fn spec_taken(v: Value, r: bool) -> bool {
        v == Value::Bool(r)
    }

    open spec fn spec_err_msg(v: Value) -> Seq<char> {
        spec_conv_msg(v, "bool"@)
    }

    fn name() -> (r: String) {
        String::from_str("bool")
    }

    fn from_teon(v: &Value) -> (r: Result<bool, Error>) {
        match v {
            Value::Bool(b) => Ok(*b),
            _ => Err(conversion_error(v, "bool")),
        }
    }
}

impl FromTeon for i32 {
    open spec fn spec_name() -> Seq<char> {
        "i32"@
    }

    open spec fn spec_accepts(v: Value) -> bool {
        v is Int
    }

    open spec fn spec_taken(v: Value, r: i32) -> bool {
        v == Value::Int(r)
    }

    open spec fn spec_err_msg(v: Value) -> Seq<char> {
        spec_conv_msg(v, "i32"@)
    }

    fn name() -> (r: String) {
        String::from_str("i32")
    }

    fn from_teon(v: &Value) -> (r: Result<i32, Error>) {
        match v {
            Value::Int(n) => Ok(*n),
            _ => Err(conversion_error(v, "i32")),
        }
    }
}

impl FromTeon for i64 {
    open spec fn spec_name() -> Seq<char> {
        "i64"@
    }

    open spec fn spec_accepts(v: Value) -> bool {
        v is Int64
    }

    open spec fn spec_taken(v: Value, r: i64) -> bool {
        v == Value::Int64(r)
    }

    open spec fn spec_err_msg(v: Value) -> Seq<char> {
        spec_conv_msg(v, "i64"@)
    }

    fn name() -> (r: String) {
        String::from_str("i64")
    }

    fn from_teon(v: &Value) -> (r: Result<i64, Error>) {
        match v {
            Value::Int64(n) => Ok(*n),
            _ => Err(conversion_error(v, "i64")),
        }
    }
}

impl FromTeon for usize {
    open spec fn spec_name() -> Seq<char> {
        "usize"@
    }

    open spec fn spec_accepts(v: Value) -> bool {
        match v {
            Value::Int(n) => 0 <= n as int <= usize::MAX as int,
            Value::Int64(n) => 0 <= n as int <= usize::MAX as int,
            _ => false,
        }
    }

    open spec fn spec_taken(v: Value, r: usize) -> bool {
        r as int == crate::cmp::spec_as_i64(v) as int
    }

    open spec fn spec_err_msg(v: Value) -> Seq<char> {
        spec_conv_msg(v, "usize"@)
    }

    fn name() -> (r: String) {
        String::from_str("usize")
    }

    fn from_teon(v: &Value) -> (r: Result<usize, Error>) {
        match v.to_usize() {
            Some(u) => Ok(u),
            None => Err(conversion_error(v, "usize")),
        }
    }
}

impl FromTeon for String {
    open spec fn spec_name() -> Seq<char> {
        "String"@
    }

    open spec fn spec_accepts(v: Value) -> bool {
        v is String
    }

    open spec fn spec_taken(v: Value, r: String) -> bool {
        v matches Value::String(s) && r@ == s@
    }

    open spec fn spec_err_msg(v: Value) -> Seq<char> {
        spec_conv_msg(v, "String"@)
    }

    fn name() -> (r: String) {
        String::from_str("String")
    }

    fn from_teon(v: &Value) -> (r: Result<String, Error>) {
        match v {
            Value::String(s) => Ok(s.clone()),
            _ => Err(conversion_error(v, "String")),
        }
    }
}

impl FromTeon for TeonDecimal {
    open spec fn spec_name() -> Seq<char> {
        "TeonDecimal"@
    }

    open spec fn spec_accepts(v: Value) -> bool {
        v is Decimal
    }

    open spec fn spec_taken(v: Value, r: TeonDecimal) -> bool {
        v matches Value::Decimal(d) && r.text() == d.text()
    }

    open spec fn spec_err_msg(v: Value) -> Seq<char> {
        spec_conv_msg(v, "TeonDecimal"@)
    }

    fn name() -> (r: String) {
        String::from_str("TeonDecimal")
    }

    fn from_teon(v: &Value) -> (r: Result<TeonDecimal, Error>) {
        match v {
            Value::Decimal(d) => Ok(d.clone()),
            _ => Err(conversion_error(v, "TeonDecimal")),
        }
    }
}

impl FromTeon for TeonDate {
    open spec fn spec_name() -> Seq<char> {
        "TeonDate"@
    }

    open spec fn spec_accepts(v: Value) -> bool {
        v is Date
    }

    open spec fn spec_taken(v: Value, r: TeonDate) -> bool {
        v == Value::Date(r)
    }

    open spec fn spec_err_msg(v: Value) -> Seq<char> {
        spec_conv_msg(v, "TeonDate"@)
    }

    fn name() -> (r: String) {
        String::from_str("TeonDate")
    }

    fn from_teon(v: &Value) -> (r: Result<TeonDate, Error>) {
        match v {
            Value::Date(d) => Ok(*d),
            _ => Err(conversion_error(v, "TeonDate")),
        }
    }
}

impl FromTeon for TeonDateTime {
    open spec fn spec_name() -> Seq<char> {
        "TeonDateTime"@
    }

    open spec fn spec_accepts(v: Value) -> bool {
        v is DateTime
    }

    open spec fn spec_taken(v: Value, r: TeonDateTime) -> bool {
        v == Value::DateTime(r)
    }

    open spec fn spec_err_msg(v: Value) -> Seq<char> {
        spec_conv_msg(v, "TeonDateTime"@)
    }

    fn name() -> (r: String) {
        String::from_str("TeonDateTime")
    }

    fn from_teon(v: &Value) -> (r: Result<TeonDateTime, Error>) {
        match v {
            Value::DateTime(d) => Ok(*d),
            _ => Err(conversion_error(v, "TeonDateTime")),
        }
    }
}

impl FromTeon for ObjectIdValue {
    open spec fn spec_name() -> Seq<char> {
        "ObjectIdValue"@
    }

    open spec fn spec_accepts(v: Value) -> bool {
        v is ObjectId
    }

    open spec fn spec_taken(v: Value, r: ObjectIdValue) -> bool {
        v matches Value::ObjectId(o) && r.bytes@ == o.bytes@
    }

    open spec fn spec_err_msg(v: Value) -> Seq<char> {
        spec_conv_msg(v, "ObjectIdValue"@)
    }

    fn name() -> (r: String) {
        String::from_str("ObjectIdValue")
    }

    fn from_teon(v: &Value) -> (r: Result<ObjectIdValue, Error>) {
        match v {
            Value::ObjectId(o) => Ok(*o),
            _ => Err(conversion_error(v, "ObjectIdValue")),
        }
    }
}

/// Every element of a sequence converts.
pub open spec fn spec_all_accept<T: FromTeon>(x: Seq<Value>) -> bool {
    forall|i: int| 0 <= i < x.len() ==> T::spec_accepts(#[trigger] x[i])
}

/// The message of the first element, from an index on, that does not
/// convert; meaningful when one exists.
pub open spec fn spec_seq_first_err<T: FromTeon>(x: Seq<Value>, k: int) -> Seq<char>
    decreases x.len() - k,
{
    if k < 0 || k >= x.len() {
        Seq::empty()
    } else if !T::spec_accepts(x[k]) {
        T::spec_err_msg(x[k])
    } else {
        spec_seq_first_err::<T>(x, k + 1)
    }
}

impl<T: FromTeon> FromTeon for Vec<T> {
    open spec fn spec_name() -> Seq<char> {
        "Array"@
    }

    open spec fn spec_accepts(v: Value) -> bool {
        v matches Value::Array(x) && spec_all_accept::<T>(x@)
    }

    open spec fn spec_taken(v: Value, r: Vec<T>) -> bool {
        v matches Value::Array(x) && r@.len() == x@.len() && forall|i: int|
            0 <= i < x@.len() ==> T::spec_taken(#[trigger] x@[i], #[trigger] r@[i])
    }

    open spec fn spec_err_msg(v: Value) -> Seq<char> {
        match v {
            Value::Array(x) => spec_seq_first_err::<T>(x@, 0),
            _ => spec_conv_msg(v, "Array"@),
        }
    }

    fn name() -> (r: String) {
        String::from_str("Array")
    }

    fn from_teon(v: &Value) -> (r: Result<Vec<T>, Error>) {
        match v {
            Value::Array(x) => {
                let n = x.len();
                let mut out: Vec<T> = Vec::new();
                let mut i: usize = 0;
                while i < n
                    invariant
                        *v == Value::Array(*x),
                        i <= n,
                        n == x@.len(),
                        out@.len() == i,
                        spec_seq_first_err::<T>(x@, 0) == spec_seq_first_err::<T>(x@, i as int),
                        forall|i2: int| 0 <= i2 < i ==> T::spec_accepts(#[trigger] x@[i2]),
                        forall|i2: int|
                            0 <= i2 < i ==> T::spec_taken(#[trigger] x@[i2], #[trigger] out@[i2]),
                    decreases n - i,
                {
                    match T::from_teon(&x[i]) {
                        Ok(t) => {
                            out.push(t);
                        },
                        Err(e) => {
                            proof {
                                assert(!T::spec_accepts(x@[i as int]));
                                assert(!spec_all_accept::<T>(x@)) by {
                                    if spec_all_accept::<T>(x@) {
                                        assert(T::spec_accepts(x@[i as int]));
                                    }
                                }
                            }
                            return Err(e);
                        },
                    }
                    i += 1;
                }
                proof {
                    assert(spec_all_accept::<T>(x@));
                }
                Ok(out)
            },
            _ => Err(conversion_error(v, "Array")),
        }
    }
}

/// The entry list of any of the three dictionary variants.
pub open spec fn spec_dict_entries(v: Value) -> Option<Seq<(String, Value)>> {
    match v {
        Value::Dictionary(m) => Some(m@),
        Value::BTreeDictionary(m) => Some(m@),
        Value::IndexDictionary(m) => Some(m@),
        _ => None,
    }
}

/// Every entry value of an entry list converts.
pub open spec fn spec_all_values_accept<T: FromTeon>(m: Seq<(String, Value)>) -> bool {
    forall|i: int| 0 <= i < m.len() ==> T::spec_accepts((#[trigger] m[i]).1)
}

/// The message of the first entry value, from an index on, that does
/// not convert; meaningful when one exists.
pub open spec fn spec_entries_first_err<T: FromTeon>(m: Seq<(String, Value)>, k: int) -> Seq<char>
    decreases m.len() - k,
{
    if k < 0 || k >= m.len() {
        Seq::empty()
    } else if !T::spec_accepts(m[k].1) {
        T::spec_err_msg(m[k].1)
    } else {
        spec_entries_first_err::<T>(m, k + 1)
    }
}

/// The converted entry list, keys kept, entry for entry in order.
pub open spec fn spec_entries_taken<T: FromTeon>(
    m: Seq<(String, Value)>,
    r: Seq<(String, T)>,
) -> bool {
    r.len() == m.len() && forall|i: int|
        0 <= i < m.len() ==> (#[trigger] r[i]).0@ == (#[trigger] m[i]).0@ && T::spec_taken(
            m[i].1,
            r[i].1,
        )
}

/// Converts the values of a dictionary-family value, keeping the
/// entries in their source order; the shape an insertion-ordered map
/// holds.  Any of the three dictionary variants is accepted: the
/// producer's choice of map discipline does not constrain the consumer.
pub fn try_into_index_map<T: FromTeon>(v: &Value) -> (r: Result<Vec<(String, T)>, Error>)
    ensures
        match spec_dict_entries(*v) {
            Some(m) => {
                &&& (spec_all_values_accept::<T>(m) <==> r is Ok)
                &&& (r matches Ok(out) ==> spec_entries_taken::<T>(m, out@))
                &&& (r matches Err(e) ==> e.message@ == spec_entries_first_err::<T>(m, 0))
            },
            None => r matches Err(e) && e.message@ == spec_conv_msg(*v, "IndexMap"@),
        },
{
    let m = match v {
        Value::Dictionary(m) => m,
        Value::BTreeDictionary(m) => m,
        Value::IndexDictionary(m) => m,
        _ => {
            return Err(conversion_error(v, "IndexMap"));
        },
    };
    let n = m.len();
    let mut out: Vec<(String, T)> = Vec::new();
    let mut i: usize = 0;
    while i < n
        invariant
            spec_dict_entries(*v) == Some(m@),
            i <= n,
            n == m@.len(),
            out@.len() == i,
            spec_entries_first_err::<T>(m@, 0) == spec_entries_first_err::<T>(m@, i as int),
            forall|i2: int| 0 <= i2 < i ==> T::spec_accepts((#[trigger] m@[i2]).1),
            forall|i2: int|
                0 <= i2 < i ==> (#[trigger] out@[i2]).0@ == (#[trigger] m@[i2]).0@
                    && T::spec_taken(m@[i2].1, out@[i2].1),
        decreases n - i,
    {
        match T::from_teon(&m[i].1) {
            Ok(t) => {
                out.push((m[i].0.clone(), t));
            },
            Err(e) => {
                proof {
                    assert(!T::spec_accepts(m@[i as int].1));
                    assert(!spec_all_values_accept::<T>(m@)) by {
                        if spec_all_values_accept::<T>(m@) {
                            assert(T::spec_accepts(m@[i as int].1));
                        }
                    }
                }
                return Err(e);
            },
        }
        i += 1;
    }
    proof {
        assert(spec_all_values_accept::<T>(m@));
    }
    Ok(out)
}

/// Converts the values of a dictionary-family value; the shape an
/// unordered map holds, so nothing is promised of the entry order
/// beyond the entries themselves.
pub fn try_into_hash_map<T: FromTeon>(v: &Value) -> (r: Result<Vec<(String, T)>, Error>)
    ensures
        match spec_dict_entries(*v) {
            Some(m) => {
                &&& (spec_all_values_accept::<T>(m) <==> r is Ok)
                &&& (r matches Ok(out) ==> out@.len() == m.len() && (forall|j: int|
                    0 <= j < out@.len() ==> spec_entry_from::<T>(#[trigger] out@[j], m)) && (
                forall|i: int| 0 <= i < m.len() ==> spec_entry_placed::<T>(#[trigger] m[i], out@)))
                &&& (r matches Err(e) ==> e.message@ == spec_entries_first_err::<T>(m, 0))
            },
            None => r matches Err(e) && e.message@ == spec_conv_msg(*v, "HashMap"@),
        },
{
    match v {
        Value::Dictionary(_) | Value::BTreeDictionary(_) | Value::IndexDictionary(_) => {
            let ghost m = spec_dict_entries(*v).unwrap();
            match try_into_index_map::<T>(v) {
                Ok(out) => {
                    proof {
                        assert forall|j: int| 0 <= j < out@.len() implies spec_entry_from::<T>(
                            #[trigger] out@[j],
                            m,
                        ) by {
                            assert(out@[j].0@ == m[j].0@ && T::spec_taken(m[j].1, out@[j].1));
                        }
                        assert forall|i: int| 0 <= i < m.len() implies spec_entry_placed::<T>(
                            #[trigger] m[i],
                            out@,
                        ) by {
                            assert(out@[i].0@ == m[i].0@ && T::spec_taken(m[i].1, out@[i].1));
                        }
                    }
                    Ok(out)
                },
                Err(e) => Err(e),
            }
        },
        _ => Err(conversion_error(v, "HashMap")),
    }
}

/// An output entry corresponds to some source entry: same key, value
/// taken from the source value.
pub open spec fn spec_entry_from<T: FromTeon>(oe: (String, T), m: Seq<(String, Value)>) -> bool {
    exists|i: int|
        0 <= i < m.len() && oe.0@ == (#[trigger] m[i]).0@ && T::spec_taken(m[i].1, oe.1)
}

/// A source entry's key appears among the output entries, with a value
/// taken from it.
pub open spec fn spec_entry_placed<T: FromTeon>(e: (String, Value), out: Seq<(String, T)>) -> bool {
    exists|j: int|
        0 <= j < out.len() && (#[trigger] out[j]).0@ == e.0@ && T::spec_taken(e.1, out[j].1)
}

/// What the sorted-map conversion produces: as many entries as the
/// source, in nondecreasing key order, each output entry from a source
/// entry and each source entry placed somewhere in the output.
pub open spec fn spec_btree_taken<T: FromTeon>(
    m: Seq<(String, Value)>,
    out: Seq<(String, T)>,
) -> bool {
    &&& out.len() == m.len()
    &&& spec_sorted_keys::<T>(out)
    &&& (forall|j: int| 0 <= j < out.len() ==> spec_entry_from::<T>(#[trigger] out[j], m))
    &&& (forall|i: int| 0 <= i < m.len() ==> spec_entry_placed::<T>(#[trigger] m[i], out))
}

/// The output entries sit in nondecreasing key order.
pub open spec fn spec_sorted_keys<T: FromTeon>(out: Seq<(String, T)>) -> bool {
    forall|j1: int, j2: int|
        0 <= j1 < j2 < out.len() ==> crate::strings::spec_str_cmp(
            (#[trigger] out[j1]).0@,
            (#[trigger] out[j2]).0@,
        ) <= 0
}

/// Inserting an element leaves every earlier correspondence in place.
proof fn lemma_placed_after_insert<T: FromTeon>(
    e: (String, Value),
    out: Seq<(String, T)>,
    pos: int,
    x: (String, T),
)
    requires
        0 <= pos <= out.len(),
        spec_entry_placed::<T>(e, out),
    ensures
        spec_entry_placed::<T>(e, out.insert(pos, x)),
{
    let j = choose|j: int|
        0 <= j < out.len() && (#[trigger] out[j]).0@ == e.0@ && T::spec_taken(e.1, out[j].1);
    if j < pos {
        assert(out.insert(pos, x)[j] == out[j]);
    } else {
        assert(out.insert(pos, x)[j + 1] == out[j]);
    }
}

/// Converts the values of a dictionary-family value and orders the
/// entries by key; the shape a sorted map holds.  Each output entry
/// comes from a source entry and each source entry lands in the output.
pub fn try_into_btree_map<T: FromTeon>(v: &Value) -> (r: Result<Vec<(String, T)>, Error>)
    ensures
        match spec_dict_entries(*v) {
            Some(m) => {
                &&& (spec_all_values_accept::<T>(m) <==> r is Ok)
                &&& (r matches Ok(out) ==> spec_btree_taken::<T>(m, out@))
                &&& (r matches Err(e) ==> e.message@ == spec_entries_first_err::<T>(m, 0))
            },
            None => r matches Err(e) && e.message@ == spec_conv_msg(*v, "BTreeMap"@),
        },
{
    let m = match v {
        Value::Dictionary(m) => m,
        Value::BTreeDictionary(m) => m,
        Value::IndexDictionary(m) => m,
        _ => {
            return Err(conversion_error(v, "BTreeMap"));
        },
    };
    let n = m.len();
    let mut out: Vec<(String, T)> = Vec::new();
    let mut i: usize = 0;
    while i < n
        invariant
            spec_dict_entries(*v) == Some(m@),
            i <= n,
            n == m@.len(),
            out@.len() == i,
            spec_entries_first_err::<T>(m@, 0) == spec_entries_first_err::<T>(m@, i as int),
            spec_sorted_keys::<T>(out@),
            forall|i2: int| 0 <= i2 < i ==> T::spec_accepts((#[trigger] m@[i2]).1),
            forall|j: int| 0 <= j < out@.len() ==> spec_entry_from::<T>(#[trigger] out@[j], m@),
            forall|i2: int| 0 <= i2 < i ==> spec_entry_placed::<T>(#[trigger] m@[i2], out@),
        decreases n - i,
    {
        let t = match T::from_teon(&m[i].1) {
            Ok(t) => t,
            Err(e) => {
                proof {
                    assert(!T::spec_accepts(m@[i as int].1));
                    assert(!spec_all_values_accept::<T>(m@)) by {
                        if spec_all_values_accept::<T>(m@) {
                            assert(T::spec_accepts(m@[i as int].1));
                        }
                    }
                }
                return Err(e);
            },
        };
        let key = m[i].0.clone();
        // Find the first position whose key exceeds the new key.
        let len = out.len();
        let mut pos: usize = 0;
        let mut searching = true;
        while pos < len && searching
            invariant
                pos <= len,
                len == out@.len(),
                key@ == m@[i as int].0@,
                spec_sorted_keys::<T>(out@),
                forall|j: int|
                    0 <= j < pos ==> crate::strings::spec_str_cmp((#[trigger] out@[j]).0@, key@)
                        <= 0,
                !searching ==> pos < len && crate::strings::spec_str_cmp(
                    out@[pos as int].0@,
                    key@,
                ) > 0,
            decreases len - pos + (if searching { 1int } else { 0int }),
        {
            if crate::strings::str_compare(out[pos].0.as_str(), key.as_str()) > 0 {
                searching = false;
            } else {
                pos += 1;
            }
        }
        proof {
            assert forall|j: int| pos <= j < out@.len() implies crate::strings::spec_str_cmp(
                key@,
                (#[trigger] out@[j]).0@,
            ) <= 0 by {
                crate::strings::lemma_str_cmp_flip(out@[pos as int].0@, key@);
                if j > pos {
                    crate::strings::lemma_str_cmp_trans(
                        key@,
                        out@[pos as int].0@,
                        out@[j].0@,
                    );
                }
            }
        }
        let ghost old_out = out@;
        let ghost ge = (key, t);
        out.insert(pos, (key, t));
        proof {
            assert(out@ == old_out.insert(pos as int, ge));
            assert forall|i2: int| 0 <= i2 < i implies spec_entry_placed::<T>(
                #[trigger] m@[i2],
                out@,
            ) by {
                lemma_placed_after_insert::<T>(m@[i2], old_out, pos as int, ge);
            }
            assert(spec_entry_placed::<T>(m@[i as int], out@)) by {
                assert(out@[pos as int] == ge);
            }
            assert forall|j: int| 0 <= j < out@.len() implies spec_entry_from::<T>(
                #[trigger] out@[j],
                m@,
            ) by {
                if j < pos {
                    assert(out@[j] == old_out[j]);
                } else if j == pos {
                    assert(out@[j] == ge);
                    assert(out@[j].0@ == m@[i as int].0@ && T::spec_taken(
                        m@[i as int].1,
                        out@[j].1,
                    ));
                } else {
                    assert(out@[j] == old_out[j - 1]);
                }
            }
            assert(spec_sorted_keys::<T>(out@)) by {
                assert forall|j1: int, j2: int| 0 <= j1 < j2 < out@.len() implies
                    crate::strings::spec_str_cmp(
                    (#[trigger] out@[j1]).0@,
                    (#[trigger] out@[j2]).0@,
                ) <= 0 by {
                    if j1 < pos {
                        assert(out@[j1] == old_out[j1]);
                    } else if j1 == pos {
                        assert(out@[j1] == ge);
                    } else {
                        assert(out@[j1] == old_out[j1 - 1]);
                    }
                    if j2 < pos {
                        assert(out@[j2] == old_out[j2]);
                    } else if j2 == pos {
                        assert(out@[j2] == ge);
                    } else {
                        assert(out@[j2] == old_out[j2 - 1]);
                    }
                }
            }
        }
        i += 1;
    }
    proof {
        assert(spec_all_values_accept::<T>(m@));
    }
    Ok(out)
}

impl<T: FromTeon> FromTeon for Option<T> {
    open spec fn spec_name() -> Seq<char> {
        "Option<"@ + T::spec_name() + ">"@
    }

    open spec fn spec_accepts(v: Value) -> bool {
        v is Null || T::spec_accepts(v)
    }

    open spec fn spec_taken(v: Value, r: Option<T>) -> bool {
        if v is Null {
            r is None
        } else {
            r matches Some(x) && T::spec_taken(v, x)
        }
    }

    open spec fn spec_err_msg(v: Value) -> Seq<char> {
        spec_conv_msg(v, "Option<"@ + T::spec_name() + ">"@)
    }

    fn name() -> (r: String) {
        let mut target = String::new();
        target.append("Option<");
        let inner = T::name();
        target.append(inner.as_str());
        target.append(">");
        proof {
            assert(target@ =~= "Option<"@ + T::spec_name() + ">"@);
        }
        target
    }

    fn from_teon(v: &Value) -> (r: Result<Option<T>, Error>) {
        if v.is_null() {
            Ok(None)
        } else {
            match T::from_teon(v) {
                Ok(x) => Ok(Some(x)),
                Err(_) => {
                    let target = Self::name();
                    Err(conversion_error(v, target.as_str()))
                },
            }
        }
    }
}

/// Element extraction of a two-element tuple: both elements convert to
/// their targets, a wrong element count is an arity error, and an
/// element failure keeps the element's own message.
pub fn try_into_pair<T0: FromTeon, T1: FromTeon>(v: &Value) -> (r: Result<(T0, T1), Error>)
    ensures
        r is Ok <==> (v matches Value::Tuple(xs) && xs@.len() == 2 && T0::spec_accepts(xs@[0])
            && T1::spec_accepts(xs@[1])),
        r matches Ok(p) ==> (v matches Value::Tuple(xs) && T0::spec_taken(xs@[0], p.0)
            && T1::spec_taken(xs@[1], p.1)),
        !(*v is Tuple) ==> (r matches Err(e) && e.message@ == spec_conv_msg(*v, "Tuple"@)),
        v matches Value::Tuple(xs) && xs@.len() != 2 ==> (r matches Err(e) && e.message@
            == spec_conv_msg(*v, "Tuple"@)),
{
    let xs = match v {
        Value::Tuple(xs) => xs,
        _ => {
            return Err(conversion_error(v, "Tuple"));
        },
    };
    if xs.len() != 2 {
        return Err(conversion_error(v, "Tuple"));
    }
    let a = match T0::from_teon(&xs[0]) {
        Ok(a) => a,
        Err(e) => {
            return Err(e);
        },
    };
    let b = match T1::from_teon(&xs[1]) {
        Ok(b) => b,
        Err(e) => {
            return Err(e);
        },
    };
    Ok((a, b))
}

/// Element extraction of a three-element tuple, under the same rules as
/// the two-element form.
pub fn try_into_triple<T0: FromTeon, T1: FromTeon, T2: FromTeon>(v: &Value) -> (r: Result<
    (T0, T1, T2),
    Error,
>)
    ensures
        r is Ok <==> (v matches Value::Tuple(xs) && xs@.len() == 3 && T0::spec_accepts(xs@[0])
            && T1::spec_accepts(xs@[1]) && T2::spec_accepts(xs@[2])),
        r matches Ok(p) ==> (v matches Value::Tuple(xs) && T0::spec_taken(xs@[0], p.0)
            && T1::spec_taken(xs@[1], p.1) && T2::spec_taken(xs@[2], p.2)),
        !(*v is Tuple) ==> (r matches Err(e) && e.message@ == spec_conv_msg(*v, "Tuple"@)),
        v matches Value::Tuple(xs) && xs@.len() != 3 ==> (r matches Err(e) && e.message@
            == spec_conv_msg(*v, "Tuple"@)),
{
    let xs = match v {
        Value::Tuple(xs) => xs,
        _ => {
            return Err(conversion_error(v, "Tuple"));
        },
    };
    if xs.len() != 3 {
        return Err(conversion_error(v, "Tuple"));
    }
    let a = match T0::from_teon(&xs[0]) {
        Ok(a) => a,
        Err(e) => {
            return Err(e);
        },
    };
    let b = match T1::from_teon(&xs[1]) {
        Ok(b) => b,
        Err(e) => {
            return Err(e);
        },
    };
    let c = match T2::from_teon(&xs[2]) {
        Ok(c) => c,
        Err(e) => {
            return Err(e);
        },
    };
    Ok((a, b, c))
}

/// Borrowed extraction of the text of a string value, with no copy.
pub fn try_into_str<'a>(v: &'a Value) -> (r: Result<&'a str, Error>)
    ensures
        r is Ok <==> *v is String,
        r matches Ok(s) ==> (v matches Value::String(t) && s@ == t@),
        r matches Err(e) ==> e.message@ == spec_conv_msg(*v, "&str"@),
{
    match v {
        Value::String(s) => Ok(s.as_str()),
        _ => Err(conversion_error(v, "&str")),
    }
}

/// Every element of a sequence is a string value.
pub open spec fn spec_all_strings(x: Seq<Value>) -> bool {
    forall|i: int| 0 <= i < x.len() ==> (#[trigger] x[i]) is String
}

/// Borrowed extraction of an array of strings: references into the
/// original values, with no copies.
pub fn try_into_vec_str<'a>(v: &'a Value) -> (r: Result<Vec<&'a str>, Error>)
    ensures
        r is Ok <==> (v matches Value::Array(x) && spec_all_strings(x@)),
        r matches Ok(out) ==> (v matches Value::Array(x) && out@.len() == x@.len() && (forall|
            i: int,
        |
            0 <= i < x@.len() ==> ((#[trigger] x@[i]) matches Value::String(s) && (
            #[trigger] out@[i])@ == s@))),
{
    let x = match v {
        Value::Array(x) => x,
        _ => {
            return Err(conversion_error(v, "Array"));
        },
    };
    let n = x.len();
    let mut out: Vec<&'a str> = Vec::new();
    let mut i: usize = 0;
    while i < n
        invariant
            *v == Value::Array(*x),
            i <= n,
            n == x@.len(),
            out@.len() == i,
            forall|i2: int| 0 <= i2 < i ==> (#[trigger] x@[i2]) is String,
            forall|i2: int|
                0 <= i2 < i ==> ((#[trigger] x@[i2]) matches Value::String(s) && (
                #[trigger] out@[i2])@ == s@),
        decreases n - i,
    {
        match &x[i] {
            Value::String(s) => {
                out.push(s.as_str());
            },
            _ => {
                proof {
                    assert(!(x@[i as int] is String));
                    assert(!spec_all_strings(x@)) by {
                        if spec_all_strings(x@) {
                            assert(x@[i as int] is String);
                        }
                    }
                }
                return Err(conversion_error(&x[i], "&str"));
            },
        }
        i += 1;
    }
    proof {
        assert(spec_all_strings(x@));
    }
    Ok(out)
}

impl FromTeon for Value {
    open spec fn spec_name() -> Seq<char> {
        "Value"@
    }

    open spec fn spec_accepts(v: Value) -> bool {
        true
    }

    open spec fn spec_taken(v: Value, r: Value) -> bool {
        crate::value::spec_identical(v, r)
    }

    open spec fn spec_err_msg(v: Value) -> Seq<char> {
        spec_conv_msg(v, "Value"@)
    }

    fn name() -> (r: String) {
        String::from_str("Value")
    }

    /// Every value converts to itself, by a deep copy.
    fn from_teon(v: &Value) -> (r: Result<Value, Error>) {
        Ok(v.clone())
    }
}

impl FromTeon for crate::types::enum_variant::EnumVariant {
    open spec fn spec_name() -> Seq<char> {
        "EnumVariant"@
    }

    open spec fn spec_accepts(v: Value) -> bool {
        v is EnumVariant
    }

    open spec fn spec_taken(v: Value, r: crate::types::enum_variant::EnumVariant) -> bool {
        crate::value::spec_identical(v, Value::EnumVariant(r))
    }

    open spec fn spec_err_msg(v: Value) -> Seq<char> {
        spec_conv_msg(v, "EnumVariant"@)
    }

    fn name() -> (r: String) {
        String::from_str("EnumVariant")
    }

    fn from_teon(v: &Value) -> (r: Result<crate::types::enum_variant::EnumVariant, Error>) {
        match v {
            Value::EnumVariant(_) => {
                let copy = v.clone();
                match copy {
                    Value::EnumVariant(e) => Ok(e),
                    _ => Err(conversion_error(v, "EnumVariant")),
                }
            },
            _ => Err(conversion_error(v, "EnumVariant")),
        }
    }
}

impl FromTeon for crate::types::range::Range {
    open spec fn spec_name() -> Seq<char> {
        "Range"@
    }

    open spec fn spec_accepts(v: Value) -> bool {
        v is Range
    }

    open spec fn spec_taken(v: Value, r: crate::types::range::Range) -> bool {
        crate::value::spec_identical(v, Value::Range(r))
    }

    open spec fn spec_err_msg(v: Value) -> Seq<char> {
        spec_conv_msg(v, "Range"@)
    }

    fn name() -> (r: String) {
        String::from_str("Range")
    }

    fn from_teon(v: &Value) -> (r: Result<crate::types::range::Range, Error>) {
        match v {
            Value::Range(_) => {
                let copy = v.clone();
                match copy {
                    Value::Range(x) => Ok(x),
                    _ => Err(conversion_error(v, "Range")),
                }
            },
            _ => Err(conversion_error(v, "Range")),
        }
    }
}

impl FromTeon for crate::types::file::File {
    open spec fn spec_name() -> Seq<char> {
        "File"@
    }

    open spec fn spec_accepts(v: Value) -> bool {
        v is File
    }

    open spec fn spec_taken(v: Value, r: crate::types::file::File) -> bool {
        crate::value::spec_identical(v, Value::File(r))
    }

    open spec fn spec_err_msg(v: Value) -> Seq<char> {
        spec_conv_msg(v, "File"@)
    }

    fn name() -> (r: String) {
        String::from_str("File")
    }

    fn from_teon(v: &Value) -> (r: Result<crate::types::file::File, Error>) {
        match v {
            Value::File(_) => {
                let copy = v.clone();
                match copy {
                    Value::File(f) => Ok(f),
                    _ => Err(conversion_error(v, "File")),
                }
            },
            _ => Err(conversion_error(v, "File")),
        }
    }
}

} // verus!
