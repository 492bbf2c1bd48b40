use vstd::prelude::*;
use crate::cmp::spec_value_eq;
use crate::convert::FromTeon;
use crate::decimal::TeonDecimal;
use crate::object_id::ObjectIdValue;
use crate::temporal::TeonDate;
use crate::temporal::TeonDateTime;
use crate::value::Value;

verus! {

// The round-trip law of the conversion protocol: wrapping a native
// scalar and extracting it again gives the scalar back, for every
// representable value.  Wrapping is `Value::from`, whose meaning is its
// `from_spec`; extraction is `FromTeon::from_teon`, whose meaning is
// `spec_accepts` and `spec_taken`.  One law per supported scalar kind.

/// A wrapped boolean converts back, and only to itself.
pub proof fn lemma_round_trip_bool(x: bool, r: bool)
    ensures
        <bool as FromTeon>::spec_accepts(Value::Bool(x)),
        <bool as FromTeon>::spec_taken(Value::Bool(x), r) ==> r == x,
{
}

/// A wrapped 32-bit integer converts back, and only to itself.
pub proof fn lemma_round_trip_i32(x: i32, r: i32)
    ensures
        <i32 as FromTeon>::spec_accepts(Value::Int(x)),
        <i32 as FromTeon>::spec_taken(Value::Int(x), r) ==> r == x,
{
}

/// A wrapped 64-bit integer converts back, and only to itself.
pub proof fn lemma_round_trip_i64(x: i64, r: i64)
    ensures
        <i64 as FromTeon>::spec_accepts(Value::Int64(x)),
        <i64 as FromTeon>::spec_taken(Value::Int64(x), r) ==> r == x,
{
}

/// A wrapped string converts back, and only to text equal to it.
pub proof fn lemma_round_trip_string(x: String, r: String)
    ensures
        <String as FromTeon>::spec_accepts(Value::String(x)),
        <String as FromTeon>::spec_taken(Value::String(x), r) ==> r@ == x@,
{
}

/// A wrapped decimal converts back, and only to one with its text.
pub proof fn lemma_round_trip_decimal(x: TeonDecimal, r: TeonDecimal)
    ensures
        <TeonDecimal as FromTeon>::spec_accepts(Value::Decimal(x)),
        <TeonDecimal as FromTeon>::spec_taken(Value::Decimal(x), r) ==> r.text() == x.text(),
{
}

/// A wrapped date converts back, and only to itself.
pub proof fn lemma_round_trip_date(x: TeonDate, r: TeonDate)
    ensures
        <TeonDate as FromTeon>::spec_accepts(Value::Date(x)),
        <TeonDate as FromTeon>::spec_taken(Value::Date(x), r) ==> r == x,
{
}

/// A wrapped timestamp converts back, and only to itself.
pub proof fn lemma_round_trip_datetime(x: TeonDateTime, r: TeonDateTime)
    ensures
        <TeonDateTime as FromTeon>::spec_accepts(Value::DateTime(x)),
        <TeonDateTime as FromTeon>::spec_taken(Value::DateTime(x), r) ==> r == x,
{
}

/// A wrapped object identifier converts back, and only to one with its
/// bytes.
pub proof fn lemma_round_trip_object_id(x: ObjectIdValue, r: ObjectIdValue)
    ensures
        <ObjectIdValue as FromTeon>::spec_accepts(Value::ObjectId(x)),
        <ObjectIdValue as FromTeon>::spec_taken(Value::ObjectId(x), r) ==> r.bytes@ == x.bytes@,
{
}

// Cross-kind equality laws.

/// The two integer widths meet in equality: a 32-bit integer equals
/// its 64-bit widening.
pub proof fn lemma_int_widening_eq(n: i32)
    ensures
        spec_value_eq(Value::Int(n), Value::Int64(n as i64)),
{
}

/// A decimal never promotes: it is unequal to every machine number,
/// whichever side it stands on.
pub proof fn lemma_decimal_never_promotes(d: TeonDecimal, v: Value)
    requires
        v.spec_is_any_int_or_float(),
    ensures
        !spec_value_eq(Value::Decimal(d), v),
        !spec_value_eq(v, Value::Decimal(d)),
{
}

/// Equality between integer kinds is exactly equality of their 64-bit
/// readings.
pub proof fn lemma_int_eq_is_value_eq(a: Value, b: Value)
    requires
        a.spec_is_any_int(),
        b.spec_is_any_int(),
    ensures
        spec_value_eq(a, b) <==> crate::cmp::spec_as_i64(a) == crate::cmp::spec_as_i64(b),
{
}

// The bitwise enum restriction.

/// Two enum choices combine under a bitwise operator exactly along
/// their declaring enum: with different symbolic paths every such
/// operator answers the operand-mismatch error, and with equal paths
/// and 64-bit integer tags it always succeeds.  `op` and `sel` name
/// the operator as [`crate::ops::spec_bitop`] takes them.
pub proof fn lemma_enum_bitwise_restriction(
    x: crate::types::enum_variant::EnumVariant,
    y: crate::types::enum_variant::EnumVariant,
    op: Seq<char>,
    sel: int,
    r: Result<Value, crate::Error>,
)
    requires
        crate::ops::spec_bitop(op, sel, Value::EnumVariant(x), Value::EnumVariant(y), r),
    ensures
        x.path@ != y.path@ ==> (r matches Err(e) && e.message@ == crate::ops::spec_cannot2(
            op,
            Value::EnumVariant(x),
            Value::EnumVariant(y),
        )),
        x.path@ == y.path@ && *x.value is Int64 && *y.value is Int64 ==> r is Ok,
{
    reveal_with_fuel(crate::ops::spec_bitop, 3);
}

} // verus!
