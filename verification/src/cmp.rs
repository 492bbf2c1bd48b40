use vstd::prelude::*;
use core::cmp::Ordering;
use crate::decimal::dec_cmp_of;
use crate::num::FloatRep;
use crate::strings::spec_str_cmp;
use crate::strings::str_compare;
use crate::strings::str_eq;
use crate::value::Value;

verus! {

/// The 64-bit reading of an integer-kind value.
pub open spec fn spec_as_i64(v: Value) -> i64 {
    match v {
        Value::Int(n) => n as i64,
        Value::Int64(n) => n,
        _ => 0,
    }
}

/// The numeric reading of a machine-number value.
pub open spec fn spec_num_rep(v: Value) -> FloatRep {
    match v {
        Value::Int(n) => crate::num::spec_rep_of_i64(n as i64),
        Value::Int64(n) => crate::num::spec_rep_of_i64(n),
        Value::Float32(b) => crate::num::spec_decode32(b),
        Value::Float(b) => crate::num::spec_decode64(b),
        _ => FloatRep::NotANumber,
    }
}

/// An entry's key appears in a list, with a value equal to the entry's;
/// the entry's value stands on the left of the equality.  The recursion
/// of the equality always descends through its left operand.
pub open spec fn spec_entry_in_left(e: (String, Value), ys: Seq<(String, Value)>) -> bool
    decreases e, ys, 0int,
{
    exists|j: int|
        0 <= j < ys.len() && (#[trigger] ys[j]).0@ == e.0@ && spec_value_eq(e.1, ys[j].1)
}

/// An entry's key appears in a list, with a value equal to the entry's;
/// the list's value stands on the left of the equality.
pub open spec fn spec_entry_in_right(e: (String, Value), xs: Seq<(String, Value)>) -> bool
    decreases xs, e, 0int,
{
    exists|j: int|
        0 <= j < xs.len() && (#[trigger] xs[j]).0@ == e.0@ && spec_value_eq(xs[j].1, e.1)
}

/// One entry list is contained in another: every entry's key appears
/// in the other list with an equal value.  Both directions together
/// make the order-blind content equality of the dictionary variants.
pub open spec fn spec_entries_sub(
    x: Seq<(String, Value)>,
    y: Seq<(String, Value)>,
    left_first: bool,
) -> bool
    decreases x, y, 1int,
{
    if left_first {
        forall|i: int| 0 <= i < x.len() ==> spec_entry_in_left(#[trigger] x[i], y)
    } else {
        forall|j: int| 0 <= j < y.len() ==> spec_entry_in_right(#[trigger] y[j], x)
    }
}

/// Order-blind content equality of two entry lists.
pub open spec fn spec_entries_eq(x: Seq<(String, Value)>, y: Seq<(String, Value)>) -> bool
    decreases x, y, 2int,
{
    spec_entries_sub(x, y, true) && spec_entries_sub(x, y, false)
}

/// Cross-kind equality of two values.
///
/// Two integer-kind values compare as 64-bit integers; an integer and a
/// float, or two floats, compare by their exact numeric readings (so a
/// NaN equals nothing, signed zeros are equal, and an integer equals a
/// float exactly when the float's value is that integer).  Decimals
/// compare only against decimals, never against machine numbers.
/// Everything else is structural on matching variants: arrays and
/// tuples element for element, the dictionary variants by key-value
/// content with no regard to entry order, and mismatched variants are
/// unequal.
pub open spec fn spec_value_eq(a: Value, b: Value) -> bool
    decreases a, b, 3int,
{
    if a.spec_is_any_int() && b.spec_is_any_int() {
        spec_as_i64(a) == spec_as_i64(b)
    } else if a.spec_is_any_int_or_float() && b.spec_is_any_int_or_float() {
        crate::num::spec_rep_cmp(spec_num_rep(a), spec_num_rep(b)) == Some(0int)
    } else {
        match (a, b) {
            (Value::Null, Value::Null) => true,
            (Value::Bool(x), Value::Bool(y)) => x == y,
            (Value::Decimal(x), Value::Decimal(y)) => dec_cmp_of(x.text(), y.text()) == 0,
            (Value::ObjectId(x), Value::ObjectId(y)) => x.bytes@ == y.bytes@,
            (Value::String(x), Value::String(y)) => x@ == y@,
            (Value::Date(x), Value::Date(y)) => x == y,
            (Value::DateTime(x), Value::DateTime(y)) => x == y,
            (Value::Array(x), Value::Array(y)) => {
                &&& x@.len() == y@.len()
                &&& forall|i: int|
                    0 <= i < x@.len() ==> spec_value_eq(#[trigger] x@[i], #[trigger] y@[i])
            },
            (Value::Tuple(x), Value::Tuple(y)) => {
                &&& x@.len() == y@.len()
                &&& forall|i: int|
                    0 <= i < x@.len() ==> spec_value_eq(#[trigger] x@[i], #[trigger] y@[i])
            },
            (Value::Dictionary(x), Value::Dictionary(y)) => spec_entries_eq(x@, y@),
            (Value::BTreeDictionary(x), Value::BTreeDictionary(y)) => spec_entries_eq(x@, y@),
            (Value::IndexDictionary(x), Value::IndexDictionary(y)) => spec_entries_eq(x@, y@),
            (Value::Range(x), Value::Range(y)) => {
                &&& x.closed == y.closed
                &&& spec_value_eq(*x.start, *y.start)
                &&& spec_value_eq(*x.end, *y.end)
            },
            (Value::EnumVariant(x), Value::EnumVariant(y)) => {
                &&& spec_value_eq(*x.value, *y.value)
                &&& match (x.args, y.args) {
                    (None, None) => true,
                    (Some(xa), Some(ya)) => spec_entries_eq(xa@, ya@),
                    _ => false,
                }
            },
            (Value::RegExp(x), Value::RegExp(y)) => x@ == y@,
            (Value::File(x), Value::File(y)) => {
                &&& x.filepath@ == y.filepath@
                &&& x.filename@ == y.filename@
                &&& match (x.content_type, y.content_type) {
                    (None, None) => true,
                    (Some(cx), Some(cy)) => cx@ == cy@,
                    _ => false,
                }
                &&& match (x.filename_ext, y.filename_ext) {
                    (None, None) => true,
                    (Some(cx), Some(cy)) => cx@ == cy@,
                    _ => false,
                }
            },
            (Value::Pipeline(x), Value::Pipeline(y)) => {
                &&& x.items@.len() == y.items@.len()
                &&& forall|i: int|
                    0 <= i < x.items@.len() ==> spec_pipeline_item_eq(
                        #[trigger] x.items@[i],
                        #[trigger] y.items@[i],
                    )
            },
            (Value::Reference(x), Value::Reference(y)) => x@ == y@,
            _ => false,
        }
    }
}

/// Runtime form of [`spec_num_rep`].
pub fn num_rep(v: &Value) -> (r: FloatRep)
    ensures
        r == spec_num_rep(*v),
        crate::num::rep_in_range(r),
{
    match v {
        Value::Int(n) => crate::num::rep_of_i64(*n as i64),
        Value::Int64(n) => crate::num::rep_of_i64(*n),
        Value::Float32(b) => crate::num::decode32(*b),
        Value::Float(b) => crate::num::decode64(*b),
        _ => FloatRep::NotANumber,
    }
}

/// Runtime form of [`spec_entries_sub`]: searches the containing side
/// for each entry of the contained side.
fn entries_contained(x: &Vec<(String, Value)>, y: &Vec<(String, Value)>, left_first: bool) -> (r:
    bool)
    ensures
        r == spec_entries_sub(x@, y@, left_first),
    decreases x@, y@, 1int,
{
    if left_first {
        let n = x.len();
        let mut i: usize = 0;
        while i < n
            invariant
                left_first,
                i <= n,
                n == x@.len(),
                forall|i2: int| 0 <= i2 < i ==> spec_entry_in_left(#[trigger] x@[i2], y@),
            decreases n - i,
        {
            let m = y.len();
            let mut j: usize = 0;
            let mut found = false;
            while j < m && !found
                invariant
                    j <= m,
                    m == y@.len(),
                    n == x@.len(),
                    i < n,
                    !found ==> forall|j2: int|
                        0 <= j2 < j ==> !((#[trigger] y@[j2]).0@ == x@[i as int].0@
                            && spec_value_eq(x@[i as int].1, y@[j2].1)),
                    found ==> spec_entry_in_left(x@[i as int], y@),
                decreases m - j + (if found { 0int } else { 1int }),
            {
                if str_eq(x[i].0.as_str(), y[j].0.as_str()) && eq_value(&x[i].1, &y[j].1) {
                    found = true;
                } else {
                    j += 1;
                }
            }
            if !found {
                proof {
                    assert(!spec_entry_in_left(x@[i as int], y@));
                }
                return false;
            }
            i += 1;
        }
        true
    } else {
        let m = y.len();
        let mut j: usize = 0;
        while j < m
            invariant
                !left_first,
                j <= m,
                m == y@.len(),
                forall|j2: int| 0 <= j2 < j ==> spec_entry_in_right(#[trigger] y@[j2], x@),
            decreases m - j,
        {
            let n = x.len();
            let mut i: usize = 0;
            let mut found = false;
            while i < n && !found
                invariant
                    i <= n,
                    n == x@.len(),
                    m == y@.len(),
                    j < m,
                    !found ==> forall|i2: int|
                        0 <= i2 < i ==> !((#[trigger] x@[i2]).0@ == y@[j as int].0@
                            && spec_value_eq(x@[i2].1, y@[j as int].1)),
                    found ==> spec_entry_in_right(y@[j as int], x@),
                decreases n - i + (if found { 0int } else { 1int }),
            {
                if str_eq(x[i].0.as_str(), y[j].0.as_str()) && eq_value(&x[i].1, &y[j].1) {
                    found = true;
                } else {
                    i += 1;
                }
            }
            if !found {
                proof {
                    assert(!spec_entry_in_right(y@[j as int], x@));
                }
                return false;
            }
            j += 1;
        }
        true
    }
}

/// Runtime form of [`spec_entries_eq`].
fn entries_eq(x: &Vec<(String, Value)>, y: &Vec<(String, Value)>) -> (r: bool)
    ensures
        r == spec_entries_eq(x@, y@),
    decreases x@, y@, 2int,
{
    entries_contained(x, y, true) && entries_contained(x, y, false)
}

/// Runtime form of [`spec_value_eq`].
pub fn eq_value(a: &Value, b: &Value) -> (r: bool)
    ensures
        r == spec_value_eq(*a, *b),
    decreases *a, *b, 3int,
{
    if a.is_any_int() && b.is_any_int() {
        let xa = match a {
            Value::Int(n) => *n as i64,
            Value::Int64(n) => *n,
            _ => 0,
        };
        let xb = match b {
            Value::Int(n) => *n as i64,
            Value::Int64(n) => *n,
            _ => 0,
        };
        xa == xb
    } else if a.is_any_int_or_float() && b.is_any_int_or_float() {
        let ra = num_rep(a);
        let rb = num_rep(b);
        match crate::num::rep_cmp(ra, rb) {
            Some(s) => s == 0,
            None => false,
        }
    } else {
        match (a, b) {
            (Value::Null, Value::Null) => true,
            (Value::Bool(x), Value::Bool(y)) => x == y,
            (Value::Decimal(x), Value::Decimal(y)) => x.compare(y) == 0,
            (Value::ObjectId(x), Value::ObjectId(y)) => x.same_as(y),
            (Value::String(x), Value::String(y)) => str_eq(x.as_str(), y.as_str()),
            (Value::Date(x), Value::Date(y)) => x.compare(y) == 0,
            (Value::DateTime(x), Value::DateTime(y)) => x.compare(y) == 0,
            (Value::Array(x), Value::Array(y)) => eq_elements(x, y),
            (Value::Tuple(x), Value::Tuple(y)) => eq_elements(x, y),
            (Value::Dictionary(x), Value::Dictionary(y)) => entries_eq(x, y),
            (Value::BTreeDictionary(x), Value::BTreeDictionary(y)) => entries_eq(x, y),
            (Value::IndexDictionary(x), Value::IndexDictionary(y)) => entries_eq(x, y),
            (Value::Range(x), Value::Range(y)) => x.closed == y.closed && eq_value(
                &x.start,
                &y.start,
            ) && eq_value(&x.end, &y.end),
            (Value::EnumVariant(x), Value::EnumVariant(y)) => {
                let values_eq = eq_value(&x.value, &y.value);
                let args_eq = match (&x.args, &y.args) {
                    (None, None) => true,
                    (Some(xa), Some(ya)) => entries_eq(xa, ya),
                    _ => false,
                };
                values_eq && args_eq
            },
            (Value::RegExp(x), Value::RegExp(y)) => str_eq(x.as_str(), y.as_str()),
            (Value::File(x), Value::File(y)) => {
                let main_eq = str_eq(x.filepath.as_str(), y.filepath.as_str()) && str_eq(
                    x.filename.as_str(),
                    y.filename.as_str(),
                );
                let ct_eq = match (&x.content_type, &y.content_type) {
                    (None, None) => true,
                    (Some(cx), Some(cy)) => str_eq(cx.as_str(), cy.as_str()),
                    _ => false,
                };
                let ext_eq = match (&x.filename_ext, &y.filename_ext) {
                    (None, None) => true,
                    (Some(cx), Some(cy)) => str_eq(cx.as_str(), cy.as_str()),
                    _ => false,
                };
                main_eq && ct_eq && ext_eq
            },
            (Value::Pipeline(x), Value::Pipeline(y)) => eq_pipelines(x, y),
            (Value::Reference(x), Value::Reference(y)) => eq_index_paths(x, y),
            _ => false,
        }
    }
}

/// Equality of two index paths.
pub(crate) fn eq_index_paths(x: &Vec<usize>, y: &Vec<usize>) -> (r: bool)
    ensures
        r == (x@ == y@),
{
    let n = x.len();
    if n != y.len() {
        proof {
            assert(x@ !~= y@);
        }
        return false;
    }
    let mut i: usize = 0;
    while i < n
        invariant
            i <= n,
            n == x@.len(),
            n == y@.len(),
            forall|i2: int| 0 <= i2 < i ==> x@[i2] == y@[i2],
        decreases n - i,
    {
        if x[i] != y[i] {
            proof {
                assert(x@ !~= y@);
            }
            return false;
        }
        i += 1;
    }
    proof {
        assert(x@ =~= y@);
    }
    true
}

/// Element-for-element equality of two value sequences.
fn eq_elements(x: &Vec<Value>, y: &Vec<Value>) -> (r: bool)
    ensures
        r == (x@.len() == y@.len() && forall|i: int|
            0 <= i < x@.len() ==> spec_value_eq(#[trigger] x@[i], #[trigger] y@[i])),
    decreases x@, y@, 0int,
{
    let n = x.len();
    if n != y.len() {
        return false;
    }
    let mut i: usize = 0;
    while i < n
        invariant
            i <= n,
            n == x@.len(),
            n == y@.len(),
            forall|i2: int| 0 <= i2 < i ==> spec_value_eq(#[trigger] x@[i2], #[trigger] y@[i2]),
        decreases n - i,
    {
        if !eq_value(&x[i], &y[i]) {
            return false;
        }
        i += 1;
    }
    true
}

/// Structural equality of two pipelines, step for step.
fn eq_pipelines(x: &crate::types::pipeline::Pipeline, y: &crate::types::pipeline::Pipeline) -> (r:
    bool)
    ensures
        r == (x.items@.len() == y.items@.len() && forall|i: int|
            0 <= i < x.items@.len() ==> spec_pipeline_item_eq(
                #[trigger] x.items@[i],
                #[trigger] y.items@[i],
            )),
    decreases *x, *y, 0int,
{
    let n = x.items.len();
    if n != y.items.len() {
        return false;
    }
    let mut i: usize = 0;
    while i < n
        invariant
            i <= n,
            n == x.items@.len(),
            n == y.items@.len(),
            forall|i2: int|
                0 <= i2 < i ==> spec_pipeline_item_eq(
                    #[trigger] x.items@[i2],
                    #[trigger] y.items@[i2],
                ),
        decreases n - i,
    {
        if !eq_pipeline_item(&x.items[i], &y.items[i]) {
            return false;
        }
        i += 1;
    }
    true
}

/// Runtime form of [`spec_pipeline_item_eq`].
fn eq_pipeline_item(
    x: &crate::types::pipeline::PipelineItem,
    y: &crate::types::pipeline::PipelineItem,
) -> (r: bool)
    ensures
        r == spec_pipeline_item_eq(*x, *y),
    decreases *x, *y, 0int,
{
    let n = x.path.len();
    if n != y.path.len() {
        return false;
    }
    let mut i: usize = 0;
    while i < n
        invariant
            i <= n,
            n == x.path@.len(),
            n == y.path@.len(),
            forall|i2: int|
                0 <= i2 < i ==> (#[trigger] x.path@[i2])@ == (#[trigger] y.path@[i2])@,
        decreases n - i,
    {
        if !str_eq(x.path[i].as_str(), y.path[i].as_str()) {
            return false;
        }
        i += 1;
    }
    let m = x.args.len();
    if m != y.args.len() {
        return false;
    }
    let mut j: usize = 0;
    while j < m
        invariant
            j <= m,
            m == x.args@.len(),
            m == y.args@.len(),
            n == x.path@.len(),
            n == y.path@.len(),
            forall|i2: int|
                0 <= i2 < n ==> (#[trigger] x.path@[i2])@ == (#[trigger] y.path@[i2])@,
            forall|j2: int|
                0 <= j2 < j ==> {
                    let xa = #[trigger] x.args@[j2];
                    let ya = #[trigger] y.args@[j2];
                    &&& match (xa.name, ya.name) {
                        (None, None) => true,
                        (Some(nx), Some(ny)) => nx@ == ny@,
                        _ => false,
                    }
                    &&& spec_value_eq(xa.arg, ya.arg)
                },
        decreases m - j,
    {
        let name_ok = match (&x.args[j].name, &y.args[j].name) {
            (None, None) => true,
            (Some(nx), Some(ny)) => str_eq(nx.as_str(), ny.as_str()),
            _ => false,
        };
        if !name_ok {
            return false;
        }
        if !eq_value(&x.args[j].arg, &y.args[j].arg) {
            return false;
        }
        j += 1;
    }
    true
}

/// The ordering named by a comparison sign.
pub open spec fn spec_sign_ord(s: int) -> Ordering {
    if s < 0 {
        Ordering::Less
    } else if s == 0 {
        Ordering::Equal
    } else {
        Ordering::Greater
    }
}

/// Sign of the lexicographic comparison of two byte sequences.
pub open spec fn spec_bytes_cmp(a: Seq<u8>, b: Seq<u8>) -> int
    decreases a.len(),
{
    if a.len() == 0 && b.len() == 0 {
        0int
    } else if a.len() == 0 {
        -1int
    } else if b.len() == 0 {
        1int
    } else if a[0] < b[0] {
        -1int
    } else if a[0] > b[0] {
        1int
    } else {
        spec_bytes_cmp(a.drop_first(), b.drop_first())
    }
}

/// Lexicographic partial comparison of two value sequences from an
/// index on: the first unequal pair decides, an incomparable pair makes
/// the whole incomparable, and a tie runs out into a length comparison.
pub open spec fn spec_seq_cmp_from(x: Seq<Value>, y: Seq<Value>, k: int) -> Option<Ordering>
    decreases x, y, x.len() - k,
{
    if k < 0 {
        None
    } else if k >= x.len() || k >= y.len() {
        if x.len() == y.len() {
            Some(Ordering::Equal)
        } else if x.len() < y.len() {
            Some(Ordering::Less)
        } else {
            Some(Ordering::Greater)
        }
    } else {
        match spec_value_cmp(x[k], y[k]) {
            None => None,
            Some(Ordering::Equal) => spec_seq_cmp_from(x, y, k + 1),
            Some(o) => Some(o),
        }
    }
}

/// Cross-kind partial ordering of two values.
///
/// The numeric unification mirrors the one equality uses: integer kinds
/// order as 64-bit integers, mixed integers and floats by their exact
/// numeric readings, with NaN incomparable to everything.  Decimals
/// order only against decimals.  Strings, object identifiers, dates and
/// timestamps carry their natural total orders; arrays and tuples order
/// lexicographically when all their elements do; an enum choice orders
/// by its underlying value.  Everything else is incomparable.
pub open spec fn spec_value_cmp(a: Value, b: Value) -> Option<Ordering>
    decreases a, b, 1int,
{
    if a.spec_is_any_int() && b.spec_is_any_int() {
        Some(spec_sign_ord(spec_as_i64(a) - spec_as_i64(b)))
    } else if a.spec_is_any_int_or_float() && b.spec_is_any_int_or_float() {
        match crate::num::spec_rep_cmp(spec_num_rep(a), spec_num_rep(b)) {
            None => None,
            Some(s) => Some(spec_sign_ord(s)),
        }
    } else {
        match (a, b) {
            (Value::Null, Value::Null) => Some(Ordering::Equal),
            (Value::Bool(x), Value::Bool(y)) => Some(
                if x == y {
                    Ordering::Equal
                } else if !x {
                    Ordering::Less
                } else {
                    Ordering::Greater
                },
            ),
            (Value::Decimal(x), Value::Decimal(y)) => Some(
                spec_sign_ord(dec_cmp_of(x.text(), y.text())),
            ),
            (Value::ObjectId(x), Value::ObjectId(y)) => Some(
                spec_sign_ord(spec_bytes_cmp(x.bytes@, y.bytes@)),
            ),
            (Value::String(x), Value::String(y)) => Some(spec_sign_ord(spec_str_cmp(x@, y@))),
            (Value::Date(x), Value::Date(y)) => Some(
                spec_sign_ord(crate::temporal::spec_cmp3(x.key(), y.key())),
            ),
            (Value::DateTime(x), Value::DateTime(y)) => Some(spec_sign_ord(x.spec_cmp(&y))),
            (Value::Array(x), Value::Array(y)) => spec_seq_cmp_from(x@, y@, 0),
            (Value::Tuple(x), Value::Tuple(y)) => spec_seq_cmp_from(x@, y@, 0),
            (Value::EnumVariant(x), Value::EnumVariant(y)) => spec_value_cmp(*x.value, *y.value),
            _ => None,
        }
    }
}

/// Runtime form of [`spec_bytes_cmp`] on the 12-byte identifiers.
fn bytes_cmp12(x: &[u8; 12], y: &[u8; 12]) -> (r: i8)
    ensures
        r as int == spec_bytes_cmp(x@, y@),
{
    let mut i: usize = 0;
    proof {
        assert(x@.skip(0) =~= x@);
        assert(y@.skip(0) =~= y@);
    }
    while i < 12
        invariant
            i <= 12,
            spec_bytes_cmp(x@, y@) == spec_bytes_cmp(x@.skip(i as int), y@.skip(i as int)),
        decreases 12 - i,
    {
        proof {
            assert(x@.skip(i as int)[0] == x@[i as int]);
            assert(y@.skip(i as int)[0] == y@[i as int]);
            assert(x@.skip(i as int).drop_first() =~= x@.skip(i as int + 1));
            assert(y@.skip(i as int).drop_first() =~= y@.skip(i as int + 1));
        }
        if x[i] < y[i] {
            return -1;
        }
        if x[i] > y[i] {
            return 1;
        }
        i += 1;
    }
    proof {
        assert(x@.skip(12).len() == 0);
        assert(y@.skip(12).len() == 0);
    }
    0
}

/// Runtime form of [`spec_value_cmp`].
pub fn cmp_value(a: &Value, b: &Value) -> (r: Option<Ordering>)
    ensures
        r == spec_value_cmp(*a, *b),
    decreases *a, *b, 1int,
{
    if a.is_any_int() && b.is_any_int() {
        let xa = match a {
            Value::Int(n) => *n as i64,
            Value::Int64(n) => *n,
            _ => 0,
        };
        let xb = match b {
            Value::Int(n) => *n as i64,
            Value::Int64(n) => *n,
            _ => 0,
        };
        if xa < xb {
            Some(Ordering::Less)
        } else if xa == xb {
            Some(Ordering::Equal)
        } else {
            Some(Ordering::Greater)
        }
    } else if a.is_any_int_or_float() && b.is_any_int_or_float() {
        let ra = num_rep(a);
        let rb = num_rep(b);
        match crate::num::rep_cmp(ra, rb) {
            None => None,
            Some(s) => Some(
                if s < 0 {
                    Ordering::Less
                } else if s == 0 {
                    Ordering::Equal
                } else {
                    Ordering::Greater
                },
            ),
        }
    } else {
        match (a, b) {
            (Value::Null, Value::Null) => Some(Ordering::Equal),
            (Value::Bool(x), Value::Bool(y)) => Some(
                if x == y {
                    Ordering::Equal
                } else if !*x {
                    Ordering::Less
                } else {
                    Ordering::Greater
                },
            ),
            (Value::Decimal(x), Value::Decimal(y)) => {
                let s = x.compare(y);
                Some(
                    if s < 0 {
                        Ordering::Less
                    } else if s == 0 {
                        Ordering::Equal
                    } else {
                        Ordering::Greater
                    },
                )
            },
            (Value::ObjectId(x), Value::ObjectId(y)) => {
                let s = bytes_cmp12(&x.bytes, &y.bytes);
                Some(
                    if s < 0 {
                        Ordering::Less
                    } else if s == 0 {
                        Ordering::Equal
                    } else {
                        Ordering::Greater
                    },
                )
            },
            (Value::String(x), Value::String(y)) => {
                let s = str_compare(x.as_str(), y.as_str());
                Some(
                    if s < 0 {
                        Ordering::Less
                    } else if s == 0 {
                        Ordering::Equal
                    } else {
                        Ordering::Greater
                    },
                )
            },
            (Value::Date(x), Value::Date(y)) => {
                let s = x.compare(y);
                Some(
                    if s < 0 {
                        Ordering::Less
                    } else if s == 0 {
                        Ordering::Equal
                    } else {
                        Ordering::Greater
                    },
                )
            },
            (Value::DateTime(x), Value::DateTime(y)) => {
                let s = x.compare(y);
                Some(
                    if s < 0 {
                        Ordering::Less
                    } else if s == 0 {
                        Ordering::Equal
                    } else {
                        Ordering::Greater
                    },
                )
            },
            (Value::Array(x), Value::Array(y)) => cmp_elements(x, y),
            (Value::Tuple(x), Value::Tuple(y)) => cmp_elements(x, y),
            (Value::EnumVariant(x), Value::EnumVariant(y)) => cmp_value(&x.value, &y.value),
            _ => None,
        }
    }
}

/// Lexicographic partial comparison of two value sequences.
fn cmp_elements(x: &Vec<Value>, y: &Vec<Value>) -> (r: Option<Ordering>)
    ensures
        r == spec_seq_cmp_from(x@, y@, 0),
    decreases x@, y@, 0int,
{
    let n = x.len();
    let m = y.len();
    let mut i: usize = 0;
    while i < n && i < m
        invariant
            i <= n,
            i <= m,
            n == x@.len(),
            m == y@.len(),
            spec_seq_cmp_from(x@, y@, 0) == spec_seq_cmp_from(x@, y@, i as int),
        decreases n - i,
    {
        match cmp_value(&x[i], &y[i]) {
            None => {
                return None;
            },
            Some(Ordering::Equal) => {
                i += 1;
            },
            Some(o) => {
                return Some(o);
            },
        }
    }
    if n == m {
        Some(Ordering::Equal)
    } else if n < m {
        Some(Ordering::Less)
    } else {
        Some(Ordering::Greater)
    }
}

/// Structural equality of one pipeline step.
pub open spec fn spec_pipeline_item_eq(
    x: crate::types::pipeline::PipelineItem,
    y: crate::types::pipeline::PipelineItem,
) -> bool
    decreases x, y, 0int,
{
    &&& x.path@.len() == y.path@.len()
    &&& forall|i: int| 0 <= i < x.path@.len() ==> (#[trigger] x.path@[i])@ == (#[trigger] y.path@[i])@
    &&& x.args@.len() == y.args@.len()
    &&& forall|i: int|
        0 <= i < x.args@.len() ==> {
            let xa = #[trigger] x.args@[i];
            let ya = #[trigger] y.args@[i];
            &&& match (xa.name, ya.name) {
                (None, None) => true,
                (Some(nx), Some(ny)) => nx@ == ny@,
                _ => false,
            }
            &&& spec_value_eq(xa.arg, ya.arg)
        }
}

impl PartialEq for Value {
    /// Cross-kind equality; [`spec_value_eq`] says exactly what it
    /// answers.
    fn eq(&self, other: &Value) -> (r: bool) {
        eq_value(self, other)
    }
}

impl vstd::std_specs::cmp::PartialEqSpecImpl for Value {
    open spec fn obeys_eq_spec() -> bool {
        true
    }

    open spec fn eq_spec(&self, other: &Value) -> bool {
        spec_value_eq(*self, *other)
    }
}

impl PartialOrd for Value {
    /// Cross-kind partial ordering; [`spec_value_cmp`] says exactly
    /// what it answers.
    fn partial_cmp(&self, other: &Value) -> (r: Option<Ordering>) {
        cmp_value(self, other)
    }
}

impl vstd::std_specs::cmp::PartialOrdSpecImpl for Value {
    open spec fn obeys_partial_cmp_spec() -> bool {
        true
    }

    open spec fn partial_cmp_spec(&self, other: &Value) -> Option<Ordering> {
        spec_value_cmp(*self, *other)
    }
}

} // verus!
