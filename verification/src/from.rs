use vstd::prelude::*;
use crate::decimal::TeonDecimal;
use crate::object_id::ObjectIdValue;
use crate::temporal::TeonDate;
use crate::temporal::TeonDateTime;
use crate::types::enum_variant::EnumVariant;
use crate::types::file::File;
use crate::types::pipeline::Pipeline;
use crate::types::range::Range;
use crate::value::Value;

verus! {

// The native-to-value half of the conversion protocol: total
// conversions wrapping each supported native shape in its variant.
// `Option::None` becomes `Null` through the generic `Option` source.

impl From<bool> for Value {
    fn from(v: bool) -> (r: Value) {
        Value::Bool(v)
    }
}

impl vstd::std_specs::convert::FromSpecImpl<bool> for Value {
    open spec fn obeys_from_spec() -> bool {
        true
    }

    open spec fn from_spec(v: bool) -> Value {
        Value::Bool(v)
    }
}

impl From<i32> for Value {
    fn from(v: i32) -> (r: Value) {
        Value::Int(v)
    }
}

impl vstd::std_specs::convert::FromSpecImpl<i32> for Value {
    open spec fn obeys_from_spec() -> bool {
        true
    }

    open spec fn from_spec(v: i32) -> Value {
        Value::Int(v)
    }
}

impl From<i64> for Value {
    fn from(v: i64) -> (r: Value) {
        Value::Int64(v)
    }
}

impl vstd::std_specs::convert::FromSpecImpl<i64> for Value {
    open spec fn obeys_from_spec() -> bool {
        true
    }

    open spec fn from_spec(v: i64) -> Value {
        Value::Int64(v)
    }
}

impl From<String> for Value {
    fn from(v: String) -> (r: Value) {
        Value::String(v)
    }
}

impl vstd::std_specs::convert::FromSpecImpl<String> for Value {
    open spec fn obeys_from_spec() -> bool {
        true
    }

    open spec fn from_spec(v: String) -> Value {
        Value::String(v)
    }
}

impl From<TeonDecimal> for Value {
    fn from(v: TeonDecimal) -> (r: Value) {
        Value::Decimal(v)
    }
}

impl vstd::std_specs::convert::FromSpecImpl<TeonDecimal> for Value {
    open spec fn obeys_from_spec() -> bool {
        true
    }

    open spec fn from_spec(v: TeonDecimal) -> Value {
        Value::Decimal(v)
    }
}

impl From<TeonDate> for Value {
    fn from(v: TeonDate) -> (r: Value) {
        Value::Date(v)
    }
}

impl vstd::std_specs::convert::FromSpecImpl<TeonDate> for Value {
    open spec fn obeys_from_spec() -> bool {
        true
    }

    open spec fn from_spec(v: TeonDate) -> Value {
        Value::Date(v)
    }
}

impl From<TeonDateTime> for Value {
    fn from(v: TeonDateTime) -> (r: Value) {
        Value::DateTime(v)
    }
}

impl vstd::std_specs::convert::FromSpecImpl<TeonDateTime> for Value {
    open spec fn obeys_from_spec() -> bool {
        true
    }

    open spec fn from_spec(v: TeonDateTime) -> Value {
        Value::DateTime(v)
    }
}

impl From<ObjectIdValue> for Value {
    fn from(v: ObjectIdValue) -> (r: Value) {
        Value::ObjectId(v)
    }
}

impl vstd::std_specs::convert::FromSpecImpl<ObjectIdValue> for Value {
    open spec fn obeys_from_spec() -> bool {
        true
    }

    open spec fn from_spec(v: ObjectIdValue) -> Value {
        Value::ObjectId(v)
    }
}

impl From<Vec<Value>> for Value {
    fn from(v: Vec<Value>) -> (r: Value) {
        Value::Array(v)
    }
}

impl vstd::std_specs::convert::FromSpecImpl<Vec<Value>> for Value {
    open spec fn obeys_from_spec() -> bool {
        true
    }

    open spec fn from_spec(v: Vec<Value>) -> Value {
        Value::Array(v)
    }
}

impl From<EnumVariant> for Value {
    fn from(v: EnumVariant) -> (r: Value) {
        Value::EnumVariant(v)
    }
}

impl vstd::std_specs::convert::FromSpecImpl<EnumVariant> for Value {
    open spec fn obeys_from_spec() -> bool {
        true
    }

    open spec fn from_spec(v: EnumVariant) -> Value {
        Value::EnumVariant(v)
    }
}

impl From<File> for Value {
    fn from(v: File) -> (r: Value) {
        Value::File(v)
    }
}

impl vstd::std_specs::convert::FromSpecImpl<File> for Value {
    open spec fn obeys_from_spec() -> bool {
        true
    }

    open spec fn from_spec(v: File) -> Value {
        Value::File(v)
    }
}

impl From<Range> for Value {
    fn from(v: Range) -> (r: Value) {
        Value::Range(v)
    }
}

impl vstd::std_specs::convert::FromSpecImpl<Range> for Value {
    open spec fn obeys_from_spec() -> bool {
        true
    }

    open spec fn from_spec(v: Range) -> Value {
        Value::Range(v)
    }
}

impl From<Pipeline> for Value {
    fn from(v: Pipeline) -> (r: Value) {
        Value::Pipeline(v)
    }
}

impl vstd::std_specs::convert::FromSpecImpl<Pipeline> for Value {
    open spec fn obeys_from_spec() -> bool {
        true
    }

    open spec fn from_spec(v: Pipeline) -> Value {
        Value::Pipeline(v)
    }
}

/// Wraps an optional native value: `None` always becomes `Null`,
/// `Some` the wrapped value's encoding.
pub fn value_from_option<T>(o: Option<T>) -> (r: Value) where
    Value: vstd::std_specs::convert::FromSpec<T>,

    ensures
        match o {
            None => r is Null,
            Some(t) => <Value as vstd::std_specs::convert::FromSpec<T>>::obeys_from_spec() ==> r
                == <Value as vstd::std_specs::convert::FromSpec<T>>::from_spec(t),
        },
{
    match o {
        Some(t) => Value::from(t),
        None => Value::Null,
    }
}

impl Value {
    /// Wraps text as a string value, copying it.
    pub fn from_str_slice(v: &str) -> (r: Value)
        ensures
            r matches Value::String(s) && s@ == v@,
    {
        Value::String(String::from_str(v))
    }

    /// Wraps a machine-size integer as a 64-bit integer value; the
    /// value must fit the signed width.
    pub fn from_usize(v: usize) -> (r: Value)
        requires
            v as int <= i64::MAX as int,
        ensures
            r matches Value::Int64(n) && n as int == v as int,
    {
        Value::Int64(v as i64)
    }
}

} // verus!
