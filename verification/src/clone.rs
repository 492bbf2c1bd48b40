use vstd::prelude::*;
use crate::value::spec_identical;
use crate::value::spec_identical_entries;
use crate::value::spec_identical_item;
use crate::value::Value;

verus! {

/// Deep copy of a value: copying is value-semantic, so the copy is
/// structurally identical to the original and shares no mutable state
/// with it.
fn clone_value(v: &Value) -> (r: Value)
    ensures
        spec_identical(*v, r),
    decreases *v, 2int,
{
    match v {
        Value::Undetermined => Value::Undetermined,
        Value::Null => Value::Null,
        Value::Bool(b) => Value::Bool(*b),
        Value::Int(n) => Value::Int(*n),
        Value::Int64(n) => Value::Int64(*n),
        Value::Float32(b) => Value::Float32(*b),
        Value::Float(b) => Value::Float(*b),
        Value::Decimal(d) => Value::Decimal(d.clone()),
        Value::ObjectId(o) => Value::ObjectId(*o),
        Value::String(s) => Value::String(s.clone()),
        Value::Date(d) => Value::Date(*d),
        Value::DateTime(d) => Value::DateTime(*d),
        Value::Array(x) => Value::Array(clone_values(x)),
        Value::Dictionary(m) => Value::Dictionary(clone_entries(m)),
        Value::BTreeDictionary(m) => Value::BTreeDictionary(clone_entries(m)),
        Value::IndexDictionary(m) => Value::IndexDictionary(clone_entries(m)),
        Value::Range(x) => Value::Range(
            crate::types::range::Range {
                closed: x.closed,
                start: Box::new(clone_value(&x.start)),
                end: Box::new(clone_value(&x.end)),
            },
        ),
        Value::Tuple(x) => Value::Tuple(clone_values(x)),
        Value::EnumVariant(e) => {
            let args = match &e.args {
                Some(a) => Some(clone_entries(a)),
                None => None,
            };
            Value::EnumVariant(
                crate::types::enum_variant::EnumVariant {
                    value: Box::new(clone_value(&e.value)),
                    display: e.display.clone(),
                    path: copy_path(&e.path),
                    args,
                },
            )
        },
        Value::RegExp(p) => Value::RegExp(p.clone()),
        Value::File(f) => Value::File(clone_file(f)),
        Value::Pipeline(p) => {
            let items = clone_items(&p.items);
            Value::Pipeline(crate::types::pipeline::Pipeline { items })
        },
        Value::Reference(x) => Value::Reference(copy_path(x)),
    }
}

/// Deep copy of a value sequence.
fn clone_values(x: &Vec<Value>) -> (r: Vec<Value>)
    ensures
        r@.len() == x@.len(),
        forall|i: int| 0 <= i < x@.len() ==> spec_identical(#[trigger] x@[i], r@[i]),
    decreases x@, 1int,
{
    let n = x.len();
    let mut out: Vec<Value> = Vec::new();
    let mut i: usize = 0;
    while i < n
        invariant
            i <= n,
            n == x@.len(),
            out@.len() == i,
            forall|i2: int| 0 <= i2 < i ==> spec_identical(#[trigger] x@[i2], out@[i2]),
        decreases n - i,
    {
        let e = clone_value(&x[i]);
        out.push(e);
        i += 1;
    }
    out
}

/// Deep copy of an entry list, keys and order kept.
fn clone_entries(m: &Vec<(String, Value)>) -> (r: Vec<(String, Value)>)
    ensures
        spec_identical_entries(m@, r@),
    decreases m@, 1int,
{
    let n = m.len();
    let mut out: Vec<(String, Value)> = Vec::new();
    let mut i: usize = 0;
    while i < n
        invariant
            i <= n,
            n == m@.len(),
            out@.len() == i,
            forall|i2: int|
                0 <= i2 < i ==> (#[trigger] m@[i2]).0@ == out@[i2].0@ && spec_identical(
                    m@[i2].1,
                    out@[i2].1,
                ),
        decreases n - i,
    {
        let val = clone_value(&m[i].1);
        out.push((m[i].0.clone(), val));
        i += 1;
    }
    out
}

/// Deep copy of a pipeline's steps.
fn clone_items(items: &Vec<crate::types::pipeline::PipelineItem>) -> (r: Vec<
    crate::types::pipeline::PipelineItem,
>)
    ensures
        r@.len() == items@.len(),
        forall|i: int|
            0 <= i < items@.len() ==> spec_identical_item(#[trigger] items@[i], r@[i]),
    decreases items@, 2int,
{
    let n = items.len();
    let mut out: Vec<crate::types::pipeline::PipelineItem> = Vec::new();
    let mut i: usize = 0;
    while i < n
        invariant
            i <= n,
            n == items@.len(),
            out@.len() == i,
            forall|i2: int|
                0 <= i2 < i ==> spec_identical_item(#[trigger] items@[i2], out@[i2]),
        decreases n - i,
    {
        let item = clone_item(&items[i]);
        out.push(item);
        i += 1;
    }
    out
}

/// Copy of an index path.
fn copy_path(x: &Vec<usize>) -> (r: Vec<usize>)
    ensures
        r@ == x@,
{
    let n = x.len();
    let mut out: Vec<usize> = Vec::new();
    let mut i: usize = 0;
    while i < n
        invariant
            i <= n,
            n == x@.len(),
            out@ == x@.take(i as int),
        decreases n - i,
    {
        out.push(x[i]);
        proof {
            assert(out@ =~= x@.take(i as int + 1));
        }
        i += 1;
    }
    proof {
        assert(x@.take(n as int) =~= x@);
    }
    out
}

/// Copy of a file record.
fn clone_file(f: &crate::types::file::File) -> (r: crate::types::file::File)
    ensures
        r.filepath@ == f.filepath@,
        r.filename@ == f.filename@,
        match (r.content_type, f.content_type) {
            (None, None) => true,
            (Some(cx), Some(cy)) => cx@ == cy@,
            _ => false,
        },
        match (r.filename_ext, f.filename_ext) {
            (None, None) => true,
            (Some(cx), Some(cy)) => cx@ == cy@,
            _ => false,
        },
{
    crate::types::file::File {
        filepath: f.filepath.clone(),
        content_type: match &f.content_type {
            Some(c) => Some(c.clone()),
            None => None,
        },
        filename: f.filename.clone(),
        filename_ext: match &f.filename_ext {
            Some(c) => Some(c.clone()),
            None => None,
        },
    }
}

/// Deep copy of one pipeline step.
fn clone_item(item: &crate::types::pipeline::PipelineItem) -> (r:
    crate::types::pipeline::PipelineItem)
    ensures
        spec_identical_item(*item, r),
    decreases *item, 1int,
{
    let pn = item.path.len();
    let mut path: Vec<String> = Vec::new();
    let mut i: usize = 0;
    while i < pn
        invariant
            i <= pn,
            pn == item.path@.len(),
            path@.len() == i,
            forall|i2: int| 0 <= i2 < i ==> (#[trigger] path@[i2])@ == item.path@[i2]@,
        decreases pn - i,
    {
        path.push(item.path[i].clone());
        i += 1;
    }
    let an = item.args.len();
    let mut args: Vec<crate::types::pipeline::PipelineItemArg> = Vec::new();
    let mut j: usize = 0;
    while j < an
        invariant
            j <= an,
            an == item.args@.len(),
            args@.len() == j,
            forall|j2: int|
                0 <= j2 < j ==> {
                    let xa = item.args@[j2];
                    let ya = #[trigger] args@[j2];
                    &&& match (xa.name, ya.name) {
                        (None, None) => true,
                        (Some(nx), Some(ny)) => nx@ == ny@,
                        _ => false,
                    }
                    &&& spec_identical(xa.arg, ya.arg)
                },
        decreases an - j,
    {
        let name = match &item.args[j].name {
            Some(n) => Some(n.clone()),
            None => None,
        };
        let arg = clone_value(&item.args[j].arg);
        args.push(crate::types::pipeline::PipelineItemArg { name, arg });
        j += 1;
    }
    crate::types::pipeline::PipelineItem { path, args }
}

impl Clone for crate::types::file::File {
    /// A copy carries the same four fields, text for text.
    fn clone(&self) -> (r: crate::types::file::File)
        ensures
            r.filepath@ == self.filepath@,
            r.filename@ == self.filename@,
            match (r.content_type, self.content_type) {
                (None, None) => true,
                (Some(cx), Some(cy)) => cx@ == cy@,
                _ => false,
            },
            match (r.filename_ext, self.filename_ext) {
                (None, None) => true,
                (Some(cx), Some(cy)) => cx@ == cy@,
                _ => false,
            },
    {
        clone_file(self)
    }
}

impl Clone for Value {
    /// Deep copy: the result is structurally identical to the original
    /// ([`spec_identical`]) and shares nothing mutable with it.
    fn clone(&self) -> (r: Value)
        ensures
            spec_identical(*self, r),
    {
        clone_value(self)
    }
}

} // verus!
