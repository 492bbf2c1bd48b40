use vstd::prelude::*;

verus! {

/// A JSON document tree.
///
/// This is the wire shape the codec reads and writes; an adapter outside
/// the library moves it to and from whatever JSON implementation does
/// the actual parsing and printing.  A number is either integral or a
/// binary64 floating-point value carried by its IEEE 754 bit pattern.
#[derive(Debug)]
pub enum JsonValue {
    Null,
    Bool(bool),
    /// An integral JSON number.
    Int(i64),
    /// A non-integral JSON number: the bit pattern of a binary64 value.
    Float(u64),
    String(String),
    Array(Vec<JsonValue>),
    /// Key-value members in document order, keys unique.
    Object(Vec<(String, JsonValue)>),
}

impl JsonValue {
    /// The value under a key in an object, if this is an object with
    /// that key; the first occurrence wins.
    pub open spec fn spec_object_get(entries: Seq<(String, JsonValue)>, key: Seq<char>) -> Option<
        JsonValue,
    >
        decreases entries.len(),
    {
        if entries.len() == 0 {
            None
        } else if entries[0].0@ == key {
            Some(entries[0].1)
        } else {
            JsonValue::spec_object_get(entries.drop_first(), key)
        }
    }
}

/// Looks a key up among object members, first occurrence first.
pub fn object_get<'a>(entries: &'a Vec<(String, JsonValue)>, key: &str) -> (r: Option<
    &'a JsonValue,
>)
    ensures
        match r {
            Some(v) => JsonValue::spec_object_get(entries@, key@) == Some(*v),
            None => JsonValue::spec_object_get(entries@, key@) is None,
        },
{
    let n = entries.len();
    let mut i: usize = 0;
    proof {
        assert(entries@.skip(0) =~= entries@);
    }
    while i < n
        invariant
            i <= n,
            n == entries@.len(),
            JsonValue::spec_object_get(entries@, key@) == JsonValue::spec_object_get(
                entries@.skip(i as int),
                key@,
            ),
        decreases n - i,
    {
        proof {
            assert(entries@.skip(i as int)[0] == entries@[i as int]);
            assert(entries@.skip(i as int).drop_first() =~= entries@.skip(i as int + 1));
        }
        if crate::strings::str_eq(entries[i].0.as_str(), key) {
            return Some(&entries[i].1);
        }
        i += 1;
    }
    proof {
        assert(entries@.skip(i as int).len() == 0);
    }
    None
}

} // verus!
