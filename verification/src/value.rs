use vstd::prelude::*;
use crate::decimal::TeonDecimal;
use crate::object_id::ObjectIdValue;
use crate::temporal::TeonDate;
use crate::temporal::TeonDateTime;
use crate::types::enum_variant::EnumVariant;
use crate::types::file::File;
use crate::types::pipeline::Pipeline;
use crate::types::range::Range;

verus! {

/// Any runtime value of the data layer: a closed tagged union with
/// exactly one active variant.
///
/// Numbers come in four machine kinds plus the arbitrary-precision
/// `Decimal`.  The two float kinds carry the IEEE 754 bit patterns of a
/// binary32 and a binary64 value, so the tree itself stays within plain
/// integer data; the numeric meaning of those bits is spelled out in
/// [`crate::num`].
///
/// The three dictionary variants share one representation, a vector of
/// key-value entries, and differ in their ordering discipline:
/// `Dictionary` promises nothing about entry order, `BTreeDictionary`
/// keeps entries sorted by key, `IndexDictionary` keeps insertion
/// order.  Producers hand this crate trees whose keys are already
/// unique; the crate does not re-validate that.
#[derive(Debug)]
pub enum Value {
    /// The parser's placeholder where no value could be determined.
    Undetermined,
    Null,
    Bool(bool),
    /// A 32-bit signed integer.
    Int(i32),
    /// A 64-bit signed integer.
    Int64(i64),
    /// The IEEE 754 bit pattern of a binary32 number.
    Float32(u32),
    /// The IEEE 754 bit pattern of a binary64 number.
    Float(u64),
    /// An arbitrary-precision decimal.
    Decimal(TeonDecimal),
    /// A 12-byte object identifier.
    ObjectId(ObjectIdValue),
    String(String),
    /// A calendar date.
    Date(TeonDate),
    /// A UTC timestamp with millisecond precision.
    DateTime(TeonDateTime),
    /// An ordered sequence of values.
    Array(Vec<Value>),
    /// A string-keyed map with no promised entry order.
    Dictionary(Vec<(String, Value)>),
    /// A string-keyed map sorted by key.
    BTreeDictionary(Vec<(String, Value)>),
    /// A string-keyed map in insertion order.
    IndexDictionary(Vec<(String, Value)>),
    Range(Range),
    /// A fixed-arity ordered sequence.
    Tuple(Vec<Value>),
    /// A chosen case of a schema-declared enum.
    EnumVariant(EnumVariant),
    /// A regular expression, carried by its source pattern text.
    RegExp(String),
    /// An uploaded file's metadata.
    File(File),
    /// The data shape of a deferred pipeline.
    Pipeline(Pipeline),
    /// An opaque path of integer indices assigned by the parser.
    Reference(Vec<usize>),
}

impl Value {
    // Variant predicates.

    pub fn is_undetermined(&self) -> (r: bool)
        ensures
            r == (*self is Undetermined),
    {
        match self {
            Value::Undetermined => true,
            _ => false,
        }
    }

    pub fn is_null(&self) -> (r: bool)
        ensures
            r == (*self is Null),
    {
        match self {
            Value::Null => true,
            _ => false,
        }
    }

    pub fn is_bool(&self) -> (r: bool)
        ensures
            r == (*self is Bool),
    {
        self.as_bool().is_some()
    }

    pub fn as_bool(&self) -> (r: Option<bool>)
        ensures
            match *self {
                Value::Bool(b) => r == Some(b),
                _ => r is None,
            },
    {
        match *self {
            Value::Bool(b) => Some(b),
            _ => None,
        }
    }

    pub fn is_int(&self) -> (r: bool)
        ensures
            r == (*self is Int),
    {
        self.as_int().is_some()
    }

    pub fn as_int(&self) -> (r: Option<i32>)
        ensures
            match *self {
                Value::Int(n) => r == Some(n),
                _ => r is None,
            },
    {
        match *self {
            Value::Int(n) => Some(n),
            _ => None,
        }
    }

    /// Narrowing conversion to a 32-bit integer: both integer kinds
    /// convert exactly when the value fits, and nothing else converts.
    pub fn to_int(&self) -> (r: Option<i32>)
        ensures
            match *self {
                Value::Int(n) => r == Some(n),
                Value::Int64(n) => if i32::MIN <= n <= i32::MAX {
                    r matches Some(m) && m as int == n as int
                } else {
                    r is None
                },
                _ => r is None,
            },
    {
        match *self {
            Value::Int(n) => Some(n),
            Value::Int64(n) => if -0x8000_0000i64 <= n && n <= 0x7fff_ffffi64 {
                Some(n as i32)
            } else {
                None
            },
            _ => None,
        }
    }

    pub fn is_int64(&self) -> (r: bool)
        ensures
            r == (*self is Int64),
    {
        self.as_int64().is_some()
    }

    pub fn as_int64(&self) -> (r: Option<i64>)
        ensures
            match *self {
                Value::Int64(n) => r == Some(n),
                _ => r is None,
            },
    {
        match *self {
            Value::Int64(n) => Some(n),
            _ => None,
        }
    }

    /// Widening conversion to a 64-bit integer: both integer kinds
    /// convert, always exactly.
    pub fn to_int64(&self) -> (r: Option<i64>)
        ensures
            match *self {
                Value::Int64(n) => r == Some(n),
                Value::Int(n) => r matches Some(m) && m as int == n as int,
                _ => r is None,
            },
    {
        match *self {
            Value::Int64(n) => Some(n),
            Value::Int(n) => Some(n as i64),
            _ => None,
        }
    }

    pub fn is_float32(&self) -> (r: bool)
        ensures
            r == (*self is Float32),
    {
        self.as_float32().is_some()
    }

    /// The bit pattern of a binary32 value, with no conversion.
    pub fn as_float32(&self) -> (r: Option<u32>)
        ensures
            match *self {
                Value::Float32(b) => r == Some(b),
                _ => r is None,
            },
    {
        match *self {
            Value::Float32(b) => Some(b),
            _ => None,
        }
    }

    pub fn is_float(&self) -> (r: bool)
        ensures
            r == (*self is Float),
    {
        self.as_float().is_some()
    }

    /// The bit pattern of a binary64 value, with no conversion.
    pub fn as_float(&self) -> (r: Option<u64>)
        ensures
            match *self {
                Value::Float(b) => r == Some(b),
                _ => r is None,
            },
    {
        match *self {
            Value::Float(b) => Some(b),
            _ => None,
        }
    }

    /// What [`Value::to_float`] answers: both integer kinds and both
    /// float kinds widen to a binary64 pattern; an integer converts only
    /// to the exact pattern of its value, and a 32-bit integer or a
    /// binary32 value always has one.
    pub open spec fn spec_to_float(&self) -> Option<u64> {
        match *self {
            Value::Int(n) => crate::num::spec_encode64(crate::num::spec_rep_of_i64(n as i64)),
            Value::Int64(n) => crate::num::spec_encode64(crate::num::spec_rep_of_i64(n)),
            Value::Float32(b) => Some(crate::num::spec_widen_f32(b)),
            Value::Float(b) => Some(b),
            _ => None,
        }
    }

    /// Widening conversion to a binary64 bit pattern.  Fails on values
    /// of non-numeric kind and on 64-bit integers that no binary64
    /// value equals exactly.
    pub fn to_float(&self) -> (r: Option<u64>)
        ensures
            r == self.spec_to_float(),
            *self is Int || *self is Float32 || *self is Float ==> r is Some,
    {
        match *self {
            Value::Int(n) => {
                proof {
                    crate::num::lemma_i32_widens(n);
                }
                crate::num::encode64(crate::num::rep_of_i64(n as i64))
            },
            Value::Int64(n) => crate::num::encode64(crate::num::rep_of_i64(n)),
            Value::Float32(b) => Some(crate::num::widen_f32_bits(b)),
            Value::Float(b) => Some(b),
            _ => None,
        }
    }

    /// What [`Value::to_float32`] answers: every numeric machine kind
    /// narrows to a binary32 pattern exactly or not at all.
    pub open spec fn spec_to_float32(&self) -> Option<u32> {
        match *self {
            Value::Int(n) => crate::num::spec_encode32(crate::num::spec_rep_of_i64(n as i64)),
            Value::Int64(n) => crate::num::spec_encode32(crate::num::spec_rep_of_i64(n)),
            Value::Float32(b) => Some(b),
            Value::Float(b) => crate::num::spec_encode32(crate::num::spec_decode64(b)),
            _ => None,
        }
    }

    /// Conversion to a binary32 bit pattern.  Fails on values of
    /// non-numeric kind and on numbers that no binary32 value equals
    /// exactly.
    pub fn to_float32(&self) -> (r: Option<u32>)
        ensures
            r == self.spec_to_float32(),
    {
        match *self {
            Value::Int(n) => crate::num::encode32(crate::num::rep_of_i64(n as i64)),
            Value::Int64(n) => crate::num::encode32(crate::num::rep_of_i64(n)),
            Value::Float32(b) => Some(b),
            Value::Float(b) => crate::num::encode32(crate::num::decode64(b)),
            _ => None,
        }
    }

    pub fn is_decimal(&self) -> (r: bool)
        ensures
            r == (*self is Decimal),
    {
        match *self {
            Value::Decimal(_) => true,
            _ => false,
        }
    }

    pub fn as_decimal(&self) -> (r: Option<&TeonDecimal>)
        ensures
            match *self {
                Value::Decimal(d) => r matches Some(x) && *x == d,
                _ => r is None,
            },
    {
        match self {
            Value::Decimal(d) => Some(d),
            _ => None,
        }
    }

    pub fn is_object_id(&self) -> (r: bool)
        ensures
            r == (*self is ObjectId),
    {
        self.as_object_id().is_some()
    }

    pub fn as_object_id(&self) -> (r: Option<&ObjectIdValue>)
        ensures
            match *self {
                Value::ObjectId(o) => r matches Some(x) && *x == o,
                _ => r is None,
            },
    {
        match self {
            Value::ObjectId(o) => Some(o),
            _ => None,
        }
    }

    pub fn is_string(&self) -> (r: bool)
        ensures
            r == (*self is String),
    {
        self.as_str().is_some()
    }

    pub fn as_str(&self) -> (r: Option<&str>)
        ensures
            match *self {
                Value::String(s) => r matches Some(t) && t@ == s@,
                _ => r is None,
            },
    {
        match self {
            Value::String(s) => Some(s.as_str()),
            _ => None,
        }
    }

    pub fn is_date(&self) -> (r: bool)
        ensures
            r == (*self is Date),
    {
        self.as_date().is_some()
    }

    pub fn as_date(&self) -> (r: Option<&TeonDate>)
        ensures
            match *self {
                Value::Date(d) => r matches Some(x) && *x == d,
                _ => r is None,
            },
    {
        match self {
            Value::Date(d) => Some(d),
            _ => None,
        }
    }

    pub fn is_datetime(&self) -> (r: bool)
        ensures
            r == (*self is DateTime),
    {
        self.as_datetime().is_some()
    }

    pub fn as_datetime(&self) -> (r: Option<&TeonDateTime>)
        ensures
            match *self {
                Value::DateTime(d) => r matches Some(x) && *x == d,
                _ => r is None,
            },
    {
        match self {
            Value::DateTime(d) => Some(d),
            _ => None,
        }
    }

    pub fn is_array(&self) -> (r: bool)
        ensures
            r == (*self is Array),
    {
        self.as_array().is_some()
    }

    pub fn as_array(&self) -> (r: Option<&Vec<Value>>)
        ensures
            match *self {
                Value::Array(v) => r matches Some(a) && a@ == v@,
                _ => r is None,
            },
    {
        match self {
            Value::Array(v) => Some(v),
            _ => None,
        }
    }

    pub fn into_array(self) -> (r: Option<Vec<Value>>)
        ensures
            match self {
                Value::Array(v) => r matches Some(a) && a@ == v@,
                _ => r is None,
            },
    {
        match self {
            Value::Array(v) => Some(v),
            _ => None,
        }
    }

    /// Mutable access to an array's elements.
    pub fn as_array_mut(&mut self) -> (r: Option<&mut Vec<Value>>)
        ensures
            r is Some <==> *old(self) is Array,
    {
        match self {
            Value::Array(v) => Some(v),
            _ => None,
        }
    }

    /// Mutable access to an unordered dictionary's entries.
    pub fn as_dictionary_mut(&mut self) -> (r: Option<&mut Vec<(String, Value)>>)
        ensures
            r is Some <==> *old(self) is Dictionary,
    {
        match self {
            Value::Dictionary(m) => Some(m),
            _ => None,
        }
    }

    /// Mutable access to a sorted dictionary's entries.
    pub fn as_btree_dictionary_mut(&mut self) -> (r: Option<&mut Vec<(String, Value)>>)
        ensures
            r is Some <==> *old(self) is BTreeDictionary,
    {
        match self {
            Value::BTreeDictionary(m) => Some(m),
            _ => None,
        }
    }

    /// Mutable access to an insertion-ordered dictionary's entries.
    pub fn as_index_dictionary_mut(&mut self) -> (r: Option<&mut Vec<(String, Value)>>)
        ensures
            r is Some <==> *old(self) is IndexDictionary,
    {
        match self {
            Value::IndexDictionary(m) => Some(m),
            _ => None,
        }
    }

    pub fn is_dictionary(&self) -> (r: bool)
        ensures
            r == (*self is Dictionary),
    {
        self.as_dictionary().is_some()
    }

    pub fn as_dictionary(&self) -> (r: Option<&Vec<(String, Value)>>)
        ensures
            match *self {
                Value::Dictionary(m) => r matches Some(a) && a@ == m@,
                _ => r is None,
            },
    {
        match self {
            Value::Dictionary(m) => Some(m),
            _ => None,
        }
    }

    pub fn is_btree_dictionary(&self) -> (r: bool)
        ensures
            r == (*self is BTreeDictionary),
    {
        self.as_btree_dictionary().is_some()
    }

    pub fn as_btree_dictionary(&self) -> (r: Option<&Vec<(String, Value)>>)
        ensures
            match *self {
                Value::BTreeDictionary(m) => r matches Some(a) && a@ == m@,
                _ => r is None,
            },
    {
        match self {
            Value::BTreeDictionary(m) => Some(m),
            _ => None,
        }
    }

    pub fn is_index_dictionary(&self) -> (r: bool)
        ensures
            r == (*self is IndexDictionary),
    {
        self.as_index_dictionary().is_some()
    }

    pub fn as_index_dictionary(&self) -> (r: Option<&Vec<(String, Value)>>)
        ensures
            match *self {
                Value::IndexDictionary(m) => r matches Some(a) && a@ == m@,
                _ => r is None,
            },
    {
        match self {
            Value::IndexDictionary(m) => Some(m),
            _ => None,
        }
    }

    pub fn is_range(&self) -> (r: bool)
        ensures
            r == (*self is Range),
    {
        self.as_range().is_some()
    }

    pub fn as_range(&self) -> (r: Option<&Range>)
        ensures
            match *self {
                Value::Range(x) => r matches Some(g) && *g == x,
                _ => r is None,
            },
    {
        match self {
            Value::Range(x) => Some(x),
            _ => None,
        }
    }

    pub fn is_tuple(&self) -> (r: bool)
        ensures
            r == (*self is Tuple),
    {
        self.as_tuple().is_some()
    }

    pub fn as_tuple(&self) -> (r: Option<&Vec<Value>>)
        ensures
            match *self {
                Value::Tuple(v) => r matches Some(a) && a@ == v@,
                _ => r is None,
            },
    {
        match self {
            Value::Tuple(v) => Some(v),
            _ => None,
        }
    }

    pub fn is_enum_variant(&self) -> (r: bool)
        ensures
            r == (*self is EnumVariant),
    {
        self.as_enum_variant().is_some()
    }

    pub fn as_enum_variant(&self) -> (r: Option<&EnumVariant>)
        ensures
            match *self {
                Value::EnumVariant(e) => r matches Some(x) && *x == e,
                _ => r is None,
            },
    {
        match self {
            Value::EnumVariant(e) => Some(e),
            _ => None,
        }
    }

    pub fn is_regexp(&self) -> (r: bool)
        ensures
            r == (*self is RegExp),
    {
        self.as_regexp().is_some()
    }

    /// The source pattern text of a regular-expression value.
    pub fn as_regexp(&self) -> (r: Option<&str>)
        ensures
            match *self {
                Value::RegExp(p) => r matches Some(t) && t@ == p@,
                _ => r is None,
            },
    {
        match self {
            Value::RegExp(p) => Some(p.as_str()),
            _ => None,
        }
    }

    pub fn is_file(&self) -> (r: bool)
        ensures
            r == (*self is File),
    {
        self.as_file().is_some()
    }

    pub fn as_file(&self) -> (r: Option<&File>)
        ensures
            match *self {
                Value::File(f) => r matches Some(x) && *x == f,
                _ => r is None,
            },
    {
        match self {
            Value::File(f) => Some(f),
            _ => None,
        }
    }

    pub fn is_pipeline(&self) -> (r: bool)
        ensures
            r == (*self is Pipeline),
    {
        self.as_pipeline().is_some()
    }

    pub fn as_pipeline(&self) -> (r: Option<&Pipeline>)
        ensures
            match *self {
                Value::Pipeline(p) => r matches Some(x) && *x == p,
                _ => r is None,
            },
    {
        match self {
            Value::Pipeline(p) => Some(p),
            _ => None,
        }
    }

    pub fn is_reference(&self) -> (r: bool)
        ensures
            r == (*self is Reference),
    {
        self.as_reference().is_some()
    }

    pub fn as_reference(&self) -> (r: Option<&Vec<usize>>)
        ensures
            match *self {
                Value::Reference(p) => r matches Some(a) && a@ == p@,
                _ => r is None,
            },
    {
        match self {
            Value::Reference(p) => Some(p),
            _ => None,
        }
    }

    // Compound kind predicates, the coercibility tests every other
    // component leans on.

    /// Either machine integer kind.
    pub open spec fn spec_is_any_int(&self) -> bool {
        *self is Int || *self is Int64
    }

    pub fn is_any_int(&self) -> (r: bool)
        ensures
            r == self.spec_is_any_int(),
    {
        match *self {
            Value::Int(_) | Value::Int64(_) => true,
            _ => false,
        }
    }

    /// Either machine float kind.
    pub open spec fn spec_is_any_float(&self) -> bool {
        *self is Float32 || *self is Float
    }

    pub fn is_any_float(&self) -> (r: bool)
        ensures
            r == self.spec_is_any_float(),
    {
        match *self {
            Value::Float32(_) | Value::Float(_) => true,
            _ => false,
        }
    }

    pub open spec fn spec_is_any_int_or_float(&self) -> bool {
        self.spec_is_any_int() || self.spec_is_any_float()
    }

    pub fn is_any_int_or_float(&self) -> (r: bool)
        ensures
            r == self.spec_is_any_int_or_float(),
    {
        self.is_any_int() || self.is_any_float()
    }

    /// Any machine number or a decimal.
    pub open spec fn spec_is_any_number(&self) -> bool {
        self.spec_is_any_int_or_float() || *self is Decimal
    }

    pub fn is_any_number(&self) -> (r: bool)
        ensures
            r == self.spec_is_any_number(),
    {
        self.is_any_int() || self.is_any_float() || self.is_decimal()
    }

    /// Narrowing conversion to `usize`: integer kinds convert exactly
    /// when the value is representable.
    pub fn to_usize(&self) -> (r: Option<usize>)
        ensures
            match *self {
                Value::Int(n) => if 0 <= n as int <= usize::MAX as int {
                    r matches Some(m) && m as int == n as int
                } else {
                    r is None
                },
                Value::Int64(n) => if 0 <= n as int <= usize::MAX as int {
                    r matches Some(m) && m as int == n as int
                } else {
                    r is None
                },
                _ => r is None,
            },
    {
        match *self {
            Value::Int(n) => if n >= 0 {
                Some(n as usize)
            } else {
                None
            },
            Value::Int64(n) => if n >= 0 && n as u64 <= usize::MAX as u64 {
                Some(n as usize)
            } else {
                None
            },
            _ => None,
        }
    }

    /// The canonical kind name of the active variant, used verbatim in
    /// every error message.
    pub open spec fn spec_type_hint(&self) -> Seq<char> {
        match *self {
            Value::Undetermined => "Undetermined"@,
            Value::Null => "Null"@,
            Value::Bool(_) => "Bool"@,
            Value::Int(_) => "Int"@,
            Value::Int64(_) => "Int64"@,
            Value::Float32(_) => "Float32"@,
            Value::Float(_) => "Float"@,
            Value::Decimal(_) => "Decimal"@,
            Value::ObjectId(_) => "ObjectId"@,
            Value::String(_) => "String"@,
            Value::Date(_) => "Date"@,
            Value::DateTime(_) => "DateTime"@,
            Value::Array(_) => "Array"@,
            Value::Dictionary(_) => "Dictionary"@,
            Value::BTreeDictionary(_) => "BTreeDictionary"@,
            Value::IndexDictionary(_) => "IndexDictionary"@,
            Value::Range(_) => "Range"@,
            Value::Tuple(_) => "Tuple"@,
            Value::EnumVariant(e) => if (*e.value).spec_is_any_int() {
                "OptionEnumVariant"@
            } else {
                "EnumVariant"@
            },
            Value::RegExp(_) => "RegExp"@,
            Value::File(_) => "File"@,
            Value::Pipeline(_) => "Pipeline"@,
            Value::Reference(_) => "Reference"@,
        }
    }

    /// The stable kind name that diagnostics quote.
    pub fn type_hint(&self) -> (r: &str)
        ensures
            r@ == self.spec_type_hint(),
    {
        match self {
            Value::Undetermined => "Undetermined",
            Value::Null => "Null",
            Value::Bool(_) => "Bool",
            Value::Int(_) => "Int",
            Value::Int64(_) => "Int64",
            Value::Float32(_) => "Float32",
            Value::Float(_) => "Float",
            Value::Decimal(_) => "Decimal",
            Value::ObjectId(_) => "ObjectId",
            Value::String(_) => "String",
            Value::Date(_) => "Date",
            Value::DateTime(_) => "DateTime",
            Value::Array(_) => "Array",
            Value::Dictionary(_) => "Dictionary",
            Value::BTreeDictionary(_) => "BTreeDictionary",
            Value::IndexDictionary(_) => "IndexDictionary",
            Value::Range(_) => "Range",
            Value::Tuple(_) => "Tuple",
            Value::EnumVariant(e) => if e.value.is_any_int() {
                "OptionEnumVariant"
            } else {
                "EnumVariant"
            },
            Value::RegExp(_) => "RegExp",
            Value::File(_) => "File",
            Value::Pipeline(_) => "Pipeline",
            Value::Reference(_) => "Reference",
        }
    }

    /// Takes the value out, leaving `Null` in its place.
    pub fn take(&mut self) -> (r: Value)
        ensures
            r == *old(self),
            *final(self) is Null,
    {
        let mut out = Value::Null;
        core::mem::swap(self, &mut out);
        out
    }

    /// Inverts a value under the normal (truthiness) negation: empty,
    /// zero and null values negate to `true`, everything else to
    /// `false`, and a `Bool` negates its payload.
    pub fn normal_not(&self) -> (r: Value)
        ensures
            r == Value::Bool(self.spec_normal_not()),
    {
        Value::Bool(
            match self {
                Value::Undetermined => true,
                Value::Null => true,
                Value::Bool(b) => !*b,
                Value::Int(n) => *n == 0,
                Value::Int64(n) => *n == 0,
                Value::Float32(b) => *b & 0x7fff_ffffu32 == 0,
                Value::Float(b) => *b & 0x7fff_ffff_ffff_ffffu64 == 0,
                Value::Decimal(d) => d.is_zero(),
                Value::ObjectId(_) => false,
                Value::String(s) => s.as_str().unicode_len() == 0,
                Value::Date(_) => false,
                Value::DateTime(_) => false,
                Value::Array(a) => a.len() == 0,
                Value::Dictionary(m) => m.len() == 0,
                Value::BTreeDictionary(m) => m.len() == 0,
                Value::IndexDictionary(m) => m.len() == 0,
                Value::Range(_) => false,
                Value::Tuple(_) => false,
                Value::EnumVariant(e) => {
                    let inner = e.normal_not();
                    inner
                },
                Value::RegExp(_) => false,
                Value::File(_) => false,
                Value::Pipeline(_) => false,
                Value::Reference(_) => false,
            },
        )
    }

    /// What [`Value::normal_not`] answers: the truthiness complement.
    pub open spec fn spec_normal_not(&self) -> bool {
        match *self {
            Value::Undetermined => true,
            Value::Null => true,
            Value::Bool(b) => !b,
            Value::Int(n) => n == 0,
            Value::Int64(n) => n == 0,
            Value::Float32(b) => b & 0x7fff_ffffu32 == 0,
            Value::Float(b) => b & 0x7fff_ffff_ffff_ffffu64 == 0,
            Value::Decimal(d) => crate::decimal::dec_is_zero(d.text()),
            Value::String(s) => s@.len() == 0,
            Value::Array(a) => a@.len() == 0,
            Value::Dictionary(m) => m@.len() == 0,
            Value::BTreeDictionary(m) => m@.len() == 0,
            Value::IndexDictionary(m) => m@.len() == 0,
            _ => false,
        }
    }
}

impl Default for Value {
    /// The default value is `Null`.
    fn default() -> (r: Value)
        ensures
            r is Null,
    {
        Value::Null
    }
}

/// Structural identity of two values: the same variant with the same
/// payload, strings compared by their character sequences, containers
/// element for element in the same order.  This is what a deep copy
/// preserves; unlike the cross-kind equality, it never unifies
/// numeric kinds and it sees entry order.
pub open spec fn spec_identical(a: Value, b: Value) -> bool
    decreases a, 2int,
{
    match (a, b) {
        (Value::Undetermined, Value::Undetermined) => true,
        (Value::Null, Value::Null) => true,
        (Value::Bool(x), Value::Bool(y)) => x == y,
        (Value::Int(x), Value::Int(y)) => x == y,
        (Value::Int64(x), Value::Int64(y)) => x == y,
        (Value::Float32(x), Value::Float32(y)) => x == y,
        (Value::Float(x), Value::Float(y)) => x == y,
        (Value::Decimal(x), Value::Decimal(y)) => x.text() == y.text(),
        (Value::ObjectId(x), Value::ObjectId(y)) => x.bytes@ == y.bytes@,
        (Value::String(x), Value::String(y)) => x@ == y@,
        (Value::Date(x), Value::Date(y)) => x == y,
        (Value::DateTime(x), Value::DateTime(y)) => x == y,
        (Value::Array(x), Value::Array(y)) => {
            &&& x@.len() == y@.len()
            &&& forall|i: int| 0 <= i < x@.len() ==> spec_identical(#[trigger] x@[i], y@[i])
        },
        (Value::Tuple(x), Value::Tuple(y)) => {
            &&& x@.len() == y@.len()
            &&& forall|i: int| 0 <= i < x@.len() ==> spec_identical(#[trigger] x@[i], y@[i])
        },
        (Value::Dictionary(x), Value::Dictionary(y)) => spec_identical_entries(x@, y@),
        (Value::BTreeDictionary(x), Value::BTreeDictionary(y)) => spec_identical_entries(x@, y@),
        (Value::IndexDictionary(x), Value::IndexDictionary(y)) => spec_identical_entries(x@, y@),
        (Value::Range(x), Value::Range(y)) => {
            &&& x.closed == y.closed
            &&& spec_identical(*x.start, *y.start)
            &&& spec_identical(*x.end, *y.end)
        },
        (Value::EnumVariant(x), Value::EnumVariant(y)) => {
            &&& spec_identical(*x.value, *y.value)
            &&& x.display@ == y.display@
            &&& x.path@ == y.path@
            &&& match (x.args, y.args) {
                (None, None) => true,
                (Some(xa), Some(ya)) => spec_identical_entries(xa@, ya@),
                _ => false,
            }
        },
        (Value::RegExp(x), Value::RegExp(y)) => x@ == y@,
        (Value::File(x), Value::File(y)) => {
            &&& x.filepath@ == y.filepath@
            &&& x.filename@ == y.filename@
            &&& match (x.content_type, y.content_type) {
                (None, None) => true,
                (Some(cx), Some(cy)) => cx@ == cy@,
                _ => false,
            }
            &&& match (x.filename_ext, y.filename_ext) {
                (None, None) => true,
                (Some(cx), Some(cy)) => cx@ == cy@,
                _ => false,
            }
        },
        (Value::Pipeline(x), Value::Pipeline(y)) => {
            &&& x.items@.len() == y.items@.len()
            &&& forall|i: int|
                0 <= i < x.items@.len() ==> spec_identical_item(#[trigger] x.items@[i], y.items@[i])
        },
        (Value::Reference(x), Value::Reference(y)) => x@ == y@,
        _ => false,
    }
}

/// Entry lists identical pair for pair, in order.
pub open spec fn spec_identical_entries(x: Seq<(String, Value)>, y: Seq<(String, Value)>) -> bool
    decreases x, 1int,
{
    x.len() == y.len() && forall|i: int|
        0 <= i < x.len() ==> (#[trigger] x[i]).0@ == y[i].0@ && spec_identical(x[i].1, y[i].1)
}

/// Pipeline steps identical field for field.
pub open spec fn spec_identical_item(
    x: crate::types::pipeline::PipelineItem,
    y: crate::types::pipeline::PipelineItem,
) -> bool
    decreases x, 1int,
{
    &&& x.path@.len() == y.path@.len()
    &&& (forall|i: int| 0 <= i < x.path@.len() ==> (#[trigger] x.path@[i])@ == y.path@[i]@)
    &&& x.args@.len() == y.args@.len()
    &&& (forall|i: int|
        0 <= i < x.args@.len() ==> {
            let xa = #[trigger] x.args@[i];
            let ya = y.args@[i];
            &&& match (xa.name, ya.name) {
                (None, None) => true,
                (Some(nx), Some(ny)) => nx@ == ny@,
                _ => false,
            }
            &&& spec_identical(xa.arg, ya.arg)
        })
}

} // verus!
