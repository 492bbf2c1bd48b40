use vstd::prelude::*;
use crate::error::Error;
use crate::strings::push_char;
use crate::value::Value;

verus! {

/// The message of a failed unary operator: `cannot <op> <kind>`.
pub open spec fn spec_cannot1(op: Seq<char>, v: Value) -> Seq<char> {
    "cannot "@ + op + " "@ + v.spec_type_hint()
}

/// The message of a failed binary operator:
/// `cannot <op> <kind> with <kind>`.
pub open spec fn spec_cannot2(op: Seq<char>, a: Value, b: Value) -> Seq<char> {
    "cannot "@ + op + " "@ + a.spec_type_hint() + " with "@ + b.spec_type_hint()
}

/// The message of an integer operation whose mathematical result does
/// not fit the operand width.
pub open spec fn spec_overflow_msg() -> Seq<char> {
    "integer overflow"@
}

/// The message of a division or remainder by an integer or decimal
/// zero.
pub open spec fn spec_div_zero_msg() -> Seq<char> {
    "division by zero"@
}

/// Appends one string slice to a string.
fn append_str(out: &mut String, s: &str)
    ensures
        final(out)@ == old(out)@ + s@,
{
    out.append(s);
}

/// The error for a unary operator applied to the wrong kind.
pub fn operand_error_message(name: &str, operand: &Value) -> (r: Error)
    ensures
        r.message@ == spec_cannot1(name@, *operand),
{
    let mut m = String::new();
    append_str(&mut m, "cannot ");
    append_str(&mut m, name);
    push_char(&mut m, ' ');
    append_str(&mut m, operand.type_hint());
    proof {
        assert(m@ =~= spec_cannot1(name@, *operand)) by {
            reveal_strlit("cannot ");
            reveal_strlit(" ");
        }
    }
    Error { message: m }
}

/// The error for a binary operator applied to an incompatible pair.
pub fn operands_error_message(lhs: &Value, rhs: &Value, name: &str) -> (r: Error)
    ensures
        r.message@ == spec_cannot2(name@, *lhs, *rhs),
{
    let mut m = String::new();
    append_str(&mut m, "cannot ");
    append_str(&mut m, name);
    push_char(&mut m, ' ');
    append_str(&mut m, lhs.type_hint());
    append_str(&mut m, " with ");
    append_str(&mut m, rhs.type_hint());
    proof {
        assert(m@ =~= spec_cannot2(name@, *lhs, *rhs)) by {
            reveal_strlit("cannot ");
            reveal_strlit(" ");
        }
    }
    Error { message: m }
}

/// The integer-overflow error.
fn overflow_error() -> (r: Error)
    ensures
        r.message@ == spec_overflow_msg(),
{
    Error { message: String::from_str("integer overflow") }
}

/// The zero-division error.
fn div_zero_error() -> (r: Error)
    ensures
        r.message@ == spec_div_zero_msg(),
{
    Error { message: String::from_str("division by zero") }
}

/// What an integer-kind binary operator answers once both operands are
/// integer kinds: the exact mathematical result when it fits the
/// left-hand operand's width, the overflow error otherwise.
pub open spec fn spec_int_result(lhs: Value, s: int, r: Result<Value, Error>) -> bool {
    match lhs {
        Value::Int(_) => if -0x8000_0000 <= s <= 0x7fff_ffff {
            r matches Ok(v) && v matches Value::Int(x) && x as int == s
        } else {
            r matches Err(e) && e.message@ == spec_overflow_msg()
        },
        Value::Int64(_) => if -0x8000_0000_0000_0000 <= s <= 0x7fff_ffff_ffff_ffff {
            r matches Ok(v) && v matches Value::Int64(x) && x as int == s
        } else {
            r matches Err(e) && e.message@ == spec_overflow_msg()
        },
        _ => false,
    }
}

/// Packs an exact integer result back into the left-hand operand's
/// width, or reports overflow.
fn pack_int_result(lhs: &Value, s: i128) -> (r: Result<Value, Error>)
    requires
        lhs.spec_is_any_int(),
    ensures
        spec_int_result(*lhs, s as int, r),
{
    match lhs {
        Value::Int(_) => {
            if -0x8000_0000i128 <= s && s <= 0x7fff_ffffi128 {
                Ok(Value::Int(s as i32))
            } else {
                Err(overflow_error())
            }
        },
        Value::Int64(_) => {
            if -0x8000_0000_0000_0000i128 <= s && s <= 0x7fff_ffff_ffff_ffffi128 {
                Ok(Value::Int64(s as i64))
            } else {
                Err(overflow_error())
            }
        },
        _ => Err(overflow_error()),
    }
}

/// The truncated quotient, the one `/` computes on machine integers:
/// magnitudes divide, the sign follows the operands.
pub open spec fn spec_div_trunc(a: int, b: int) -> int {
    let q = (if a < 0 {
        -a
    } else {
        a
    }) / (if b < 0 {
        -b
    } else {
        b
    });
    if (a < 0) != (b < 0) {
        -q
    } else {
        q
    }
}

/// The truncated remainder: the remainder of the magnitudes with the
/// sign of the dividend, so that `a == b * (a / b) + (a % b)`.
pub open spec fn spec_rem_trunc(a: int, b: int) -> int {
    let m = (if a < 0 {
        -a
    } else {
        a
    }) % (if b < 0 {
        -b
    } else {
        b
    });
    if a < 0 {
        -m
    } else {
        m
    }
}

/// The magnitude of a 64-bit integer.
fn mag_u64(a: i64) -> (r: u64)
    ensures
        r as int == (if (a as int) < 0 {
            -(a as int)
        } else {
            a as int
        }),
{
    if a >= 0 {
        a as u64
    } else {
        let m: u64 = (-(a as i128)) as u64;
        proof {
            assert(m == -(a as int)) by (bit_vector)
                requires
                    a < 0,
                    m == (-(a as i128)) as u64,
            ;
        }
        m
    }
}

impl Value {
    /// Addition.  Integer kinds take an integer-kind right operand and
    /// keep the left width; decimals take decimals; strings
    /// concatenate; every other pairing is a kind error.  The two float
    /// kinds live outside this crate's reach and are ruled out up
    /// front.
    pub fn add(&self, rhs: &Value) -> (r: Result<Value, Error>)
        requires
            !self.spec_is_any_float(),
        ensures
            self.spec_is_any_int() ==> if rhs.spec_is_any_int() {
                spec_int_result(
                    *self,
                    crate::cmp::spec_as_i64(*self) as int + crate::cmp::spec_as_i64(*rhs) as int,
                    r,
                )
            } else {
                r matches Err(e) && e.message@ == spec_cannot2("add"@, *self, *rhs)
            },
            *self is Decimal ==> spec_dec_binop(
                *self,
                *rhs,
                "add"@,
                r,
                |x: Seq<char>, y: Seq<char>| crate::decimal::dec_add_of(x, y),
            ),
            *self is String ==> (match (*self, *rhs) {
                (Value::String(sl), Value::String(sr)) => r matches Ok(v) && v matches Value::String(
                    x,
                ) && x@ == sl@ + sr@,
                _ => r matches Err(e) && e.message@ == spec_cannot2("add"@, *self, *rhs),
            }),
            !(self.spec_is_any_int() || *self is Decimal || *self is String) ==> (r matches Err(e)
                && e.message@ == spec_cannot2("add"@, *self, *rhs)),
    {
        match self {
            Value::Int(_) | Value::Int64(_) => {
                if rhs.is_any_int() {
                    let a = self.to_int64().unwrap();
                    let b = rhs.to_int64().unwrap();
                    pack_int_result(self, a as i128 + b as i128)
                } else {
                    Err(operands_error_message(self, rhs, "add"))
                }
            },
            Value::Decimal(d) => {
                match rhs {
                    Value::Decimal(d2) => Ok(Value::Decimal(d.add(d2))),
                    _ => Err(operands_error_message(self, rhs, "add")),
                }
            },
            Value::String(sl) => {
                match rhs {
                    Value::String(sr) => {
                        let mut out = sl.clone();
                        out.append(sr.as_str());
                        Ok(Value::String(out))
                    },
                    _ => Err(operands_error_message(self, rhs, "add")),
                }
            },
            _ => Err(operands_error_message(self, rhs, "add")),
        }
    }
}

/// What a bitwise binary operator answers.  The integer kinds combine
/// two's-complement bit patterns, keeping the left width and narrowing
/// the right operand to it; two enum choices of the same declaring enum
/// (equal symbolic paths) combine their underlying values, keep the
/// left choice's display and path and drop the arguments; everything
/// else, two choices of different enums included, is a kind error.
pub open spec fn spec_bit32(sel: int, x: u32, y: u32) -> u32 {
    if sel == 0 {
        x & y
    } else if sel == 1 {
        x ^ y
    } else {
        x | y
    }
}

pub open spec fn spec_bit64(sel: int, x: u64, y: u64) -> u64 {
    if sel == 0 {
        x & y
    } else if sel == 1 {
        x ^ y
    } else {
        x | y
    }
}

pub open spec fn spec_bitop(
    op: Seq<char>,
    sel: int,
    a: Value,
    b: Value,
    r: Result<Value, Error>,
) -> bool
    decreases a, b,
{
    if a is Int || a is Int64 {
        if b.spec_is_any_int() {
            match a {
                Value::Int(x) => if i32::MIN <= crate::cmp::spec_as_i64(b) <= i32::MAX {
                    r matches Ok(v) && v == Value::Int(
                        spec_bit32(sel, x as u32, crate::cmp::spec_as_i64(b) as u32) as i32,
                    )
                } else {
                    r matches Err(e) && e.message@ == spec_overflow_msg()
                },
                Value::Int64(x) => r matches Ok(v) && v == Value::Int64(
                    spec_bit64(sel, x as u64, crate::cmp::spec_as_i64(b) as u64) as i64,
                ),
                _ => false,
            }
        } else {
            r matches Err(e) && e.message@ == spec_cannot2(op, a, b)
        }
    } else {
        match (a, b) {
            (Value::EnumVariant(x), Value::EnumVariant(y)) => {
                if x.path@ == y.path@ {
                    match r {
                        Ok(v) => v matches Value::EnumVariant(z) && z.display@ == x.display@
                            && z.path@ == x.path@ && z.args is None && spec_bitop(
                            op,
                            sel,
                            *x.value,
                            *y.value,
                            Ok(*z.value),
                        ),
                        Err(e) => spec_bitop(op, sel, *x.value, *y.value, Err(e)),
                    }
                } else {
                    r matches Err(e) && e.message@ == spec_cannot2(op, a, b)
                }
            },
            _ => r matches Err(e) && e.message@ == spec_cannot2(op, a, b),
        }
    }
}

/// Copies an index path.
fn copy_usizes(x: &Vec<usize>) -> (r: Vec<usize>)
    ensures
        r@ == x@,
{
    let mut out: Vec<usize> = Vec::new();
    let n = x.len();
    let mut i: usize = 0;
    while i < n
        invariant
            i <= n,
            n == x@.len(),
            out@ == x@.take(i as int),
        decreases n - i,
    {
        out.push(x[i]);
        proof {
            assert(out@ =~= x@.take(i as int + 1));
        }
        i += 1;
    }
    proof {
        assert(x@.take(n as int) =~= x@);
    }
    out
}

impl Value {
    /// Subtraction, under the same promotion rules as addition but
    /// without the string case.
    pub fn sub(&self, rhs: &Value) -> (r: Result<Value, Error>)
        requires
            !self.spec_is_any_float(),
        ensures
            self.spec_is_any_int() ==> if rhs.spec_is_any_int() {
                spec_int_result(
                    *self,
                    crate::cmp::spec_as_i64(*self) as int - crate::cmp::spec_as_i64(*rhs) as int,
                    r,
                )
            } else {
                r matches Err(e) && e.message@ == spec_cannot2("sub"@, *self, *rhs)
            },
            *self is Decimal ==> spec_dec_binop(
                *self,
                *rhs,
                "sub"@,
                r,
                |x: Seq<char>, y: Seq<char>| crate::decimal::dec_sub_of(x, y),
            ),
            !(self.spec_is_any_int() || *self is Decimal) ==> (r matches Err(e) && e.message@
                == spec_cannot2("sub"@, *self, *rhs)),
    {
        match self {
            Value::Int(_) | Value::Int64(_) => {
                if rhs.is_any_int() {
                    let a = self.to_int64().unwrap();
                    let b = rhs.to_int64().unwrap();
                    pack_int_result(self, a as i128 - b as i128)
                } else {
                    Err(operands_error_message(self, rhs, "sub"))
                }
            },
            Value::Decimal(d) => {
                match rhs {
                    Value::Decimal(d2) => Ok(Value::Decimal(d.sub(d2))),
                    _ => Err(operands_error_message(self, rhs, "sub")),
                }
            },
            _ => Err(operands_error_message(self, rhs, "sub")),
        }
    }

    /// Multiplication, under the same promotion rules as subtraction.
    pub fn mul(&self, rhs: &Value) -> (r: Result<Value, Error>)
        requires
            !self.spec_is_any_float(),
        ensures
            self.spec_is_any_int() ==> if rhs.spec_is_any_int() {
                spec_int_result(
                    *self,
                    crate::cmp::spec_as_i64(*self) as int * crate::cmp::spec_as_i64(*rhs) as int,
                    r,
                )
            } else {
                r matches Err(e) && e.message@ == spec_cannot2("mul"@, *self, *rhs)
            },
            *self is Decimal ==> spec_dec_binop(
                *self,
                *rhs,
                "mul"@,
                r,
                |x: Seq<char>, y: Seq<char>| crate::decimal::dec_mul_of(x, y),
            ),
            !(self.spec_is_any_int() || *self is Decimal) ==> (r matches Err(e) && e.message@
                == spec_cannot2("mul"@, *self, *rhs)),
    {
        match self {
            Value::Int(_) | Value::Int64(_) => {
                if rhs.is_any_int() {
                    let a = self.to_int64().unwrap();
                    let b = rhs.to_int64().unwrap();
                    proof {
                        assert((a as int) * (b as int) <= 0x4000_0000_0000_0000_0000_0000_0000_0000
                            && (a as int) * (b as int)
                            >= -0x4000_0000_0000_0000_0000_0000_0000_0000) by (nonlinear_arith)
                            requires
                                -0x8000_0000_0000_0000 <= a as int <= 0x7fff_ffff_ffff_ffff,
                                -0x8000_0000_0000_0000 <= b as int <= 0x7fff_ffff_ffff_ffff,
                        ;
                    }
                    pack_int_result(self, a as i128 * b as i128)
                } else {
                    Err(operands_error_message(self, rhs, "mul"))
                }
            },
            Value::Decimal(d) => {
                match rhs {
                    Value::Decimal(d2) => Ok(Value::Decimal(d.mul(d2))),
                    _ => Err(operands_error_message(self, rhs, "mul")),
                }
            },
            _ => Err(operands_error_message(self, rhs, "mul")),
        }
    }

    /// Division.  An integer or decimal divisor that is zero is an
    /// explicit error, never a fault; integer quotients truncate toward
    /// zero and keep the left width.
    pub fn div(&self, rhs: &Value) -> (r: Result<Value, Error>)
        requires
            !self.spec_is_any_float(),
        ensures
            self.spec_is_any_int() ==> if rhs.spec_is_any_int() {
                if crate::cmp::spec_as_i64(*rhs) == 0 {
                    r matches Err(e) && e.message@ == spec_div_zero_msg()
                } else {
                    spec_int_result(
                        *self,
                        spec_div_trunc(
                            crate::cmp::spec_as_i64(*self) as int,
                            crate::cmp::spec_as_i64(*rhs) as int,
                        ),
                        r,
                    )
                }
            } else {
                r matches Err(e) && e.message@ == spec_cannot2("div"@, *self, *rhs)
            },
            *self is Decimal ==> (match (*self, *rhs) {
                (Value::Decimal(a), Value::Decimal(b)) => if crate::decimal::dec_is_zero(b.text()) {
                    r matches Err(e) && e.message@ == spec_div_zero_msg()
                } else {
                    r matches Ok(v) && v matches Value::Decimal(x) && x.text()
                        == crate::decimal::dec_div_of(a.text(), b.text())
                },
                _ => r matches Err(e) && e.message@ == spec_cannot2("div"@, *self, *rhs),
            }),
            !(self.spec_is_any_int() || *self is Decimal) ==> (r matches Err(e) && e.message@
                == spec_cannot2("div"@, *self, *rhs)),
    {
        match self {
            Value::Int(_) | Value::Int64(_) => {
                if rhs.is_any_int() {
                    let a = self.to_int64().unwrap();
                    let b = rhs.to_int64().unwrap();
                    if b == 0 {
                        Err(div_zero_error())
                    } else {
                        let ua = mag_u64(a);
                        let ub = mag_u64(b);
                        let q = ua / ub;
                        let s: i128 = if (a < 0) != (b < 0) {
                            -(q as i128)
                        } else {
                            q as i128
                        };
                        pack_int_result(self, s)
                    }
                } else {
                    Err(operands_error_message(self, rhs, "div"))
                }
            },
            Value::Decimal(d) => {
                match rhs {
                    Value::Decimal(d2) => {
                        if d2.is_zero() {
                            Err(div_zero_error())
                        } else {
                            Ok(Value::Decimal(d.div(d2)))
                        }
                    },
                    _ => Err(operands_error_message(self, rhs, "div")),
                }
            },
            _ => Err(operands_error_message(self, rhs, "div")),
        }
    }

    /// Remainder, with the same divisor rules as division; the result
    /// carries the dividend's sign.
    pub fn rem(&self, rhs: &Value) -> (r: Result<Value, Error>)
        requires
            !self.spec_is_any_float(),
        ensures
            self.spec_is_any_int() ==> if rhs.spec_is_any_int() {
                if crate::cmp::spec_as_i64(*rhs) == 0 {
                    r matches Err(e) && e.message@ == spec_div_zero_msg()
                } else {
                    spec_int_result(
                        *self,
                        spec_rem_trunc(
                            crate::cmp::spec_as_i64(*self) as int,
                            crate::cmp::spec_as_i64(*rhs) as int,
                        ),
                        r,
                    )
                }
            } else {
                r matches Err(e) && e.message@ == spec_cannot2("rem"@, *self, *rhs)
            },
            *self is Decimal ==> (match (*self, *rhs) {
                (Value::Decimal(a), Value::Decimal(b)) => if crate::decimal::dec_is_zero(b.text()) {
                    r matches Err(e) && e.message@ == spec_div_zero_msg()
                } else {
                    r matches Ok(v) && v matches Value::Decimal(x) && x.text()
                        == crate::decimal::dec_rem_of(a.text(), b.text())
                },
                _ => r matches Err(e) && e.message@ == spec_cannot2("rem"@, *self, *rhs),
            }),
            !(self.spec_is_any_int() || *self is Decimal) ==> (r matches Err(e) && e.message@
                == spec_cannot2("rem"@, *self, *rhs)),
    {
        match self {
            Value::Int(_) | Value::Int64(_) => {
                if rhs.is_any_int() {
                    let a = self.to_int64().unwrap();
                    let b = rhs.to_int64().unwrap();
                    if b == 0 {
                        Err(div_zero_error())
                    } else {
                        let ua = mag_u64(a);
                        let ub = mag_u64(b);
                        let m = ua % ub;
                        let s: i128 = if a < 0 {
                            -(m as i128)
                        } else {
                            m as i128
                        };
                        pack_int_result(self, s)
                    }
                } else {
                    Err(operands_error_message(self, rhs, "rem"))
                }
            },
            Value::Decimal(d) => {
                match rhs {
                    Value::Decimal(d2) => {
                        if d2.is_zero() {
                            Err(div_zero_error())
                        } else {
                            Ok(Value::Decimal(d.rem(d2)))
                        }
                    },
                    _ => Err(operands_error_message(self, rhs, "rem")),
                }
            },
            _ => Err(operands_error_message(self, rhs, "rem")),
        }
    }

    /// Arithmetic negation.  Works on every machine number (a float
    /// negates by its sign bit) and on decimals; negating the minimum
    /// integer of a width overflows it and is an error.
    pub fn neg(&self) -> (r: Result<Value, Error>)
        ensures
            match *self {
                Value::Int(a) => if a == i32::MIN {
                    r matches Err(e) && e.message@ == spec_overflow_msg()
                } else {
                    r matches Ok(v) && v matches Value::Int(x) && x as int == -(a as int)
                },
                Value::Int64(a) => if a == i64::MIN {
                    r matches Err(e) && e.message@ == spec_overflow_msg()
                } else {
                    r matches Ok(v) && v matches Value::Int64(x) && x as int == -(a as int)
                },
                Value::Float32(b) => r matches Ok(v) && v == Value::Float32(b ^ 0x8000_0000u32),
                Value::Float(b) => r matches Ok(v) && v == Value::Float(b ^ 0x8000_0000_0000_0000u64),
                Value::Decimal(d) => r matches Ok(v) && v matches Value::Decimal(x) && x.text()
                    == crate::decimal::dec_neg_of(d.text()),
                _ => r matches Err(e) && e.message@ == spec_cannot1("neg"@, *self),
            },
    {
        match self {
            Value::Int(a) => {
                if *a == -0x8000_0000i32 {
                    Err(overflow_error())
                } else {
                    Ok(Value::Int(-*a))
                }
            },
            Value::Int64(a) => {
                if *a == -0x8000_0000_0000_0000i64 {
                    Err(overflow_error())
                } else {
                    Ok(Value::Int64(-*a))
                }
            },
            Value::Float32(b) => Ok(Value::Float32(*b ^ 0x8000_0000u32)),
            Value::Float(b) => Ok(Value::Float(*b ^ 0x8000_0000_0000_0000u64)),
            Value::Decimal(d) => Ok(Value::Decimal(d.neg())),
            _ => Err(operand_error_message("neg", self)),
        }
    }

    /// Bitwise conjunction; [`spec_bitop`] says what it answers.
    pub fn bitand(&self, rhs: &Value) -> (r: Result<Value, Error>)
        ensures
            spec_bitop("bitand"@, 0, *self, *rhs, r),
        decreases *self, *rhs,
    {
        match (self, rhs) {
            (Value::EnumVariant(x), Value::EnumVariant(y)) => {
                if crate::cmp::eq_index_paths(&x.path, &y.path) {
                    match x.value.bitand(&y.value) {
                        Ok(inner) => Ok(
                            Value::EnumVariant(
                                crate::types::enum_variant::EnumVariant {
                                    value: Box::new(inner),
                                    display: x.display.clone(),
                                    path: copy_usizes(&x.path),
                                    args: None,
                                },
                            ),
                        ),
                        Err(e) => Err(e),
                    }
                } else {
                    Err(operands_error_message(self, rhs, "bitand"))
                }
            },
            _ => bit_int_op(self, rhs, 0),
        }
    }

    /// Bitwise exclusive disjunction; [`spec_bitop`] says what it
    /// answers.
    pub fn bitxor(&self, rhs: &Value) -> (r: Result<Value, Error>)
        ensures
            spec_bitop("bitxor"@, 1, *self, *rhs, r),
        decreases *self, *rhs,
    {
        match (self, rhs) {
            (Value::EnumVariant(x), Value::EnumVariant(y)) => {
                if crate::cmp::eq_index_paths(&x.path, &y.path) {
                    match x.value.bitxor(&y.value) {
                        Ok(inner) => Ok(
                            Value::EnumVariant(
                                crate::types::enum_variant::EnumVariant {
                                    value: Box::new(inner),
                                    display: x.display.clone(),
                                    path: copy_usizes(&x.path),
                                    args: None,
                                },
                            ),
                        ),
                        Err(e) => Err(e),
                    }
                } else {
                    Err(operands_error_message(self, rhs, "bitxor"))
                }
            },
            _ => bit_int_op(self, rhs, 1),
        }
    }

    /// Bitwise disjunction; [`spec_bitop`] says what it answers.
    pub fn bitor(&self, rhs: &Value) -> (r: Result<Value, Error>)
        ensures
            spec_bitop("bitor"@, 2, *self, *rhs, r),
        decreases *self, *rhs,
    {
        match (self, rhs) {
            (Value::EnumVariant(x), Value::EnumVariant(y)) => {
                if crate::cmp::eq_index_paths(&x.path, &y.path) {
                    match x.value.bitor(&y.value) {
                        Ok(inner) => Ok(
                            Value::EnumVariant(
                                crate::types::enum_variant::EnumVariant {
                                    value: Box::new(inner),
                                    display: x.display.clone(),
                                    path: copy_usizes(&x.path),
                                    args: None,
                                },
                            ),
                        ),
                        Err(e) => Err(e),
                    }
                } else {
                    Err(operands_error_message(self, rhs, "bitor"))
                }
            },
            _ => bit_int_op(self, rhs, 2),
        }
    }
}

/// What the unary bitwise negation answers: the complemented
/// two's-complement pattern on the integer kinds, the recursive rule on
/// an enum choice's underlying value, and a kind error elsewhere.
pub open spec fn spec_bitnot(a: Value, r: Result<Value, Error>) -> bool
    decreases a,
{
    match a {
        Value::Int(x) => r matches Ok(v) && v == Value::Int(!(x as u32) as i32),
        Value::Int64(x) => r matches Ok(v) && v == Value::Int64(!(x as u64) as i64),
        Value::EnumVariant(x) => match r {
            Ok(v) => v matches Value::EnumVariant(z) && z.display@ == x.display@ && z.path@
                == x.path@ && z.args is None && spec_bitnot(*x.value, Ok(*z.value)),
            Err(e) => spec_bitnot(*x.value, Err(e)),
        },
        _ => r matches Err(e) && e.message@ == spec_cannot1("bitneg"@, a),
    }
}

impl Value {
    /// Bitwise negation; [`spec_bitnot`] says what it answers.
    pub fn not(&self) -> (r: Result<Value, Error>)
        ensures
            spec_bitnot(*self, r),
        decreases *self,
    {
        match self {
            Value::Int(x) => Ok(Value::Int(!(*x as u32) as i32)),
            Value::Int64(x) => Ok(Value::Int64(!(*x as u64) as i64)),
            Value::EnumVariant(x) => {
                match x.value.not() {
                    Ok(inner) => Ok(
                        Value::EnumVariant(
                            crate::types::enum_variant::EnumVariant {
                                value: Box::new(inner),
                                display: x.display.clone(),
                                path: copy_usizes(&x.path),
                                args: None,
                            },
                        ),
                    ),
                    Err(e) => Err(e),
                }
            },
            _ => Err(operand_error_message("bitneg", self)),
        }
    }

    /// Reciprocal of a decimal.  The other numeric kinds carry
    /// floating-point reciprocals, which live outside this crate's
    /// reach; a zero operand is an explicit error.
    pub fn recip(&self) -> (r: Result<Value, Error>)
        requires
            *self is Decimal,
        ensures
            match *self {
                Value::Decimal(d) => if crate::decimal::dec_is_zero(d.text()) {
                    r matches Err(e) && e.message@ == spec_div_zero_msg()
                } else {
                    r matches Ok(v) && v matches Value::Decimal(x) && x.text()
                        == crate::decimal::dec_recip_of(d.text())
                },
                _ => true,
            },
    {
        match self {
            Value::Decimal(d) => {
                if d.is_zero() {
                    Err(div_zero_error())
                } else {
                    Ok(Value::Decimal(d.recip()))
                }
            },
            _ => Err(operand_error_message("recip", self)),
        }
    }
}

/// The integer part of the three bitwise binary operators; `sel` picks
/// conjunction, exclusive disjunction or disjunction.
fn bit_int_op(lhs: &Value, rhs: &Value, sel: u8) -> (r: Result<Value, Error>)
    requires
        !(*lhs is EnumVariant && *rhs is EnumVariant),
        sel < 3,
    ensures
        sel == 0 ==> spec_bitop("bitand"@, 0, *lhs, *rhs, r),
        sel == 1 ==> spec_bitop("bitxor"@, 1, *lhs, *rhs, r),
        sel == 2 ==> spec_bitop("bitor"@, 2, *lhs, *rhs, r),
{
    let name = if sel == 0 {
        "bitand"
    } else if sel == 1 {
        "bitxor"
    } else {
        "bitor"
    };
    match lhs {
        Value::Int(x) => {
            if rhs.is_any_int() {
                match rhs.to_int() {
                    Some(y) => {
                        let xr = if sel == 0 {
                            (*x as u32) & (y as u32)
                        } else if sel == 1 {
                            (*x as u32) ^ (y as u32)
                        } else {
                            (*x as u32) | (y as u32)
                        };
                        Ok(Value::Int(xr as i32))
                    },
                    None => Err(overflow_error()),
                }
            } else {
                Err(operands_error_message(lhs, rhs, name))
            }
        },
        Value::Int64(x) => {
            if rhs.is_any_int() {
                let y = rhs.to_int64().unwrap();
                let xr = if sel == 0 {
                    (*x as u64) & (y as u64)
                } else if sel == 1 {
                    (*x as u64) ^ (y as u64)
                } else {
                    (*x as u64) | (y as u64)
                };
                Ok(Value::Int64(xr as i64))
            } else {
                Err(operands_error_message(lhs, rhs, name))
            }
        },
        _ => Err(operands_error_message(lhs, rhs, name)),
    }
}

/// What a decimal binary operator answers: the named `bigdecimal`
/// result on a decimal right operand, the kind error otherwise.
pub open spec fn spec_dec_binop(
    lhs: Value,
    rhs: Value,
    op: Seq<char>,
    r: Result<Value, Error>,
    f: spec_fn(Seq<char>, Seq<char>) -> Seq<char>,
) -> bool {
    match (lhs, rhs) {
        (Value::Decimal(a), Value::Decimal(b)) => r matches Ok(v) && v matches Value::Decimal(x)
            && x.text() == f(a.text(), b.text()),
        _ => r matches Err(e) && e.message@ == spec_cannot2(op, lhs, rhs),
    }
}

} // verus!
