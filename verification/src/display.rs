use vstd::prelude::*;
use crate::strings::push_char;
use crate::value::Value;

verus! {

/// Whether a tree is free of the two float kinds.  The literal
/// renderer covers exactly such trees: rendering a binary float's
/// decimal form is floating-point work that lives outside this crate's
/// reach.
pub open spec fn spec_no_floats(v: Value) -> bool
    decreases v, 1int,
{
    match v {
        Value::Float32(_) => false,
        Value::Float(_) => false,
        Value::Array(x) => spec_no_floats_seq(x@, x@.len() as int),
        Value::Tuple(x) => spec_no_floats_seq(x@, x@.len() as int),
        Value::Dictionary(m) => spec_no_floats_entries(m@, m@.len() as int),
        Value::BTreeDictionary(m) => spec_no_floats_entries(m@, m@.len() as int),
        Value::IndexDictionary(m) => spec_no_floats_entries(m@, m@.len() as int),
        Value::Range(x) => spec_no_floats(*x.start) && spec_no_floats(*x.end),
        Value::Pipeline(p) => spec_no_floats_pipeline(p.items@, p.items@.len() as int),
        _ => true,
    }
}

/// The arguments of the first `k` pipeline steps are free of floats.
pub open spec fn spec_no_floats_pipeline(
    items: Seq<crate::types::pipeline::PipelineItem>,
    k: int,
) -> bool
    decreases items, 0int, k,
{
    if k <= 0 {
        true
    } else {
        spec_no_floats_pipeline(items, k - 1) && (k <= items.len() ==> spec_no_floats_args(
            items[k - 1].args@,
            items[k - 1].args@.len() as int,
        ))
    }
}

/// The first `k` arguments are free of floats.
pub open spec fn spec_no_floats_args(
    args: Seq<crate::types::pipeline::PipelineItemArg>,
    k: int,
) -> bool
    decreases args, 0int, k,
{
    if k <= 0 {
        true
    } else {
        spec_no_floats_args(args, k - 1) && (k <= args.len() ==> spec_no_floats(args[k - 1].arg))
    }
}

/// The first `k` elements are free of floats.
pub open spec fn spec_no_floats_seq(x: Seq<Value>, k: int) -> bool
    decreases x, 0int, k,
{
    if k <= 0 {
        true
    } else {
        spec_no_floats_seq(x, k - 1) && (k <= x.len() ==> spec_no_floats(x[k - 1]))
    }
}

/// The first `k` entry values are free of floats.
pub open spec fn spec_no_floats_entries(m: Seq<(String, Value)>, k: int) -> bool
    decreases m, 0int, k,
{
    if k <= 0 {
        true
    } else {
        spec_no_floats_entries(m, k - 1) && (k <= m.len() ==> spec_no_floats(m[k - 1].1))
    }
}

/// Text with every occurrence of one character preceded by a
/// backslash, over the first `k` characters.
pub open spec fn spec_escaped(s: Seq<char>, special: char, k: int) -> Seq<char>
    decreases k,
{
    if k <= 0 || k > s.len() {
        Seq::empty()
    } else {
        spec_escaped(s, special, k - 1) + (if s[k - 1] == special {
            seq!['\\', special]
        } else {
            seq![s[k - 1]]
        })
    }
}

/// The canonical literal rendering of a value, for diagnostics.
///
/// Scalars render as literals (`null`, `true`, decimal digits); the
/// extended scalar types as a constructor around a quoted literal
/// (`Decimal("1.5")`, `ObjectId("...")`, `Date("2024-01-05")`,
/// `DateTime("...")`); strings double-quoted with `"` escaped; arrays
/// in brackets; the dictionary variants in braces with quoted keys; a
/// tuple in parentheses with a trailing comma when it has one element;
/// a range as its endpoints around `..` (or `..=` when closed); an
/// enum choice as its display label; a regular expression between
/// slashes with `/` escaped; a file as `File("...")` around its
/// escaped path; a pipeline as `$` and its dotted step paths with
/// argument lists; a reference as `Reference("...")` around its
/// comma-separated indices.
pub open spec fn spec_display(v: Value) -> Seq<char>
    decreases v, 2int, 0int,
{
    match v {
        Value::Undetermined => "undetermined"@,
        Value::Null => "null"@,
        Value::Bool(b) => if b {
            "true"@
        } else {
            "false"@
        },
        Value::Int(n) => crate::strings::spec_dec_str_signed(n as int),
        Value::Int64(n) => crate::strings::spec_dec_str_signed(n as int),
        Value::Float32(_) => Seq::empty(),
        Value::Float(_) => Seq::empty(),
        Value::Decimal(d) => "Decimal(\""@ + d.text() + "\")"@,
        Value::ObjectId(o) => "ObjectId(\""@ + crate::object_id::spec_hex_of(o.bytes@) + "\")"@,
        Value::String(s) => "\""@ + spec_escaped(s@, '"', s@.len() as int) + "\""@,
        Value::Date(d) => "Date(\""@ + crate::temporal::spec_date_str(d) + "\")"@,
        Value::DateTime(d) => "DateTime(\""@ + crate::temporal::spec_datetime_str(d) + "\")"@,
        Value::Array(x) => "["@ + spec_display_join(x@, x@.len() as int) + "]"@,
        Value::Dictionary(m) => "{"@ + spec_display_entries(m@, m@.len() as int) + "}"@,
        Value::BTreeDictionary(m) => "{"@ + spec_display_entries(m@, m@.len() as int) + "}"@,
        Value::IndexDictionary(m) => "{"@ + spec_display_entries(m@, m@.len() as int) + "}"@,
        Value::Range(x) => spec_display(*x.start) + (if x.closed {
            "..="@
        } else {
            ".."@
        }) + spec_display(*x.end),
        Value::Tuple(x) => "("@ + spec_display_join(x@, x@.len() as int) + (if x@.len() == 1 {
            ",)"@
        } else {
            ")"@
        }),
        Value::EnumVariant(e) => e.display@,
        Value::RegExp(p) => "/"@ + spec_escaped(p@, '/', p@.len() as int) + "/"@,
        Value::File(f) => "File(\""@ + spec_escaped(f.filepath@, '"', f.filepath@.len() as int)
            + "\")"@,
        Value::Pipeline(p) => spec_display_pipeline(p.items@, p.items@.len() as int),
        Value::Reference(x) => "Reference(\""@ + spec_display_indices(x@, x@.len() as int)
            + "\")"@,
    }
}

/// The renderings of the first `k` elements, separated by `, `.
pub open spec fn spec_display_join(x: Seq<Value>, k: int) -> Seq<char>
    decreases x, 1int, k,
{
    if k <= 0 || k > x.len() {
        Seq::empty()
    } else {
        spec_display_join(x, k - 1) + (if k == 1 {
            Seq::empty()
        } else {
            ", "@
        }) + spec_display(x[k - 1])
    }
}

/// The renderings of the first `k` entries as `"key": value`,
/// separated by `, `.
pub open spec fn spec_display_entries(m: Seq<(String, Value)>, k: int) -> Seq<char>
    decreases m, 1int, k,
{
    if k <= 0 || k > m.len() {
        Seq::empty()
    } else {
        spec_display_entries(m, k - 1) + (if k == 1 {
            Seq::empty()
        } else {
            ", "@
        }) + "\""@ + m[k - 1].0@ + "\": "@ + spec_display(m[k - 1].1)
    }
}

/// The comma-separated decimal renderings of the first `k` indices.
pub open spec fn spec_display_indices(x: Seq<usize>, k: int) -> Seq<char>
    decreases k,
{
    if k <= 0 || k > x.len() {
        Seq::empty()
    } else {
        spec_display_indices(x, k - 1) + (if k == 1 {
            Seq::empty()
        } else {
            ", "@
        }) + crate::strings::spec_dec_str(x[k - 1] as nat)
    }
}

/// The dotted path of one pipeline step, over its first `k` names.
pub open spec fn spec_display_path(path: Seq<String>, k: int) -> Seq<char>
    decreases k,
{
    if k <= 0 || k > path.len() {
        Seq::empty()
    } else {
        spec_display_path(path, k - 1) + (if k == 1 {
            Seq::empty()
        } else {
            "."@
        }) + path[k - 1]@
    }
}

/// The argument list of one pipeline step over its first `k`
/// arguments: `name: value` for a named argument, the value alone for
/// a positional one.
pub open spec fn spec_display_args(
    args: Seq<crate::types::pipeline::PipelineItemArg>,
    k: int,
) -> Seq<char>
    decreases args, 1int, k,
{
    if k <= 0 || k > args.len() {
        Seq::empty()
    } else {
        spec_display_args(args, k - 1) + (if k == 1 {
            Seq::empty()
        } else {
            ", "@
        }) + (match args[k - 1].name {
            Some(n) => n@ + ": "@,
            None => Seq::empty(),
        }) + spec_display(args[k - 1].arg)
    }
}

/// The first `k` steps of a pipeline: `$` before the first step, `.`
/// before each further one, each step its dotted path and, when it has
/// arguments, its argument list in parentheses.
pub open spec fn spec_display_pipeline(
    items: Seq<crate::types::pipeline::PipelineItem>,
    k: int,
) -> Seq<char>
    decreases items, 2int, k,
{
    if k <= 0 || k > items.len() {
        Seq::empty()
    } else {
        let it = items[k - 1];
        spec_display_pipeline(items, k - 1) + (if k == 1 {
            "$"@
        } else {
            "."@
        }) + spec_display_path(it.path@, it.path@.len() as int) + (if it.args@.len() == 0 {
            Seq::empty()
        } else {
            "("@ + spec_display_args(it.args@, it.args@.len() as int) + ")"@
        })
    }
}

/// Appends text with one character escaped by a backslash.
fn append_escaped(out: &mut String, s: &str, special: char)
    ensures
        final(out)@ == old(out)@ + spec_escaped(s@, special, s@.len() as int),
{
    let ghost base = out@;
    let n = s.unicode_len();
    let mut i: usize = 0;
    while i < n
        invariant
            i <= n,
            n == s@.len(),
            out@ == base + spec_escaped(s@, special, i as int),
        decreases n - i,
    {
        let c = s.get_char(i);
        if c == special {
            push_char(out, '\\');
            push_char(out, special);
        } else {
            push_char(out, c);
        }
        proof {
            assert(out@ =~= base + spec_escaped(s@, special, i as int + 1));
        }
        i += 1;
    }
    proof {
        assert(out@ =~= old(out)@ + spec_escaped(s@, special, s@.len() as int));
    }
}

/// Appends the literal rendering of a value.
fn append_value(out: &mut String, v: &Value)
    requires
        spec_no_floats(*v),
    ensures
        final(out)@ == old(out)@ + spec_display(*v),
    decreases *v, 2int, 0int,
{
    match v {
        Value::Undetermined => {
            out.append("undetermined");
        },
        Value::Null => {
            out.append("null");
        },
        Value::Bool(b) => {
            if *b {
                out.append("true");
            } else {
                out.append("false");
            }
        },
        Value::Int(n) => {
            crate::strings::append_i64(out, *n as i64);
        },
        Value::Int64(n) => {
            crate::strings::append_i64(out, *n);
        },
        Value::Float32(_) => {
        },
        Value::Float(_) => {
        },
        Value::Decimal(d) => {
            out.append("Decimal(\"");
            out.append(d.as_str());
            out.append("\")");
            proof {
                assert(out@ =~= old(out)@ + spec_display(*v));
            }
        },
        Value::ObjectId(o) => {
            out.append("ObjectId(\"");
            let hex = o.to_hex();
            out.append(hex.as_str());
            out.append("\")");
            proof {
                assert(out@ =~= old(out)@ + spec_display(*v));
            }
        },
        Value::String(s) => {
            out.append("\"");
            append_escaped(out, s.as_str(), '"');
            out.append("\"");
            proof {
                assert(out@ =~= old(out)@ + spec_display(*v));
            }
        },
        Value::Date(d) => {
            out.append("Date(\"");
            crate::temporal::append_date(out, d);
            out.append("\")");
            proof {
                assert(out@ =~= old(out)@ + spec_display(*v));
            }
        },
        Value::DateTime(d) => {
            out.append("DateTime(\"");
            crate::temporal::append_datetime(out, d);
            out.append("\")");
            proof {
                assert(out@ =~= old(out)@ + spec_display(*v));
            }
        },
        Value::Array(x) => {
            out.append("[");
            append_join(out, x);
            out.append("]");
            proof {
                assert(out@ =~= old(out)@ + spec_display(*v));
            }
        },
        Value::Dictionary(m) => {
            out.append("{");
            append_entries(out, m);
            out.append("}");
            proof {
                assert(out@ =~= old(out)@ + spec_display(*v));
            }
        },
        Value::BTreeDictionary(m) => {
            out.append("{");
            append_entries(out, m);
            out.append("}");
            proof {
                assert(out@ =~= old(out)@ + spec_display(*v));
            }
        },
        Value::IndexDictionary(m) => {
            out.append("{");
            append_entries(out, m);
            out.append("}");
            proof {
                assert(out@ =~= old(out)@ + spec_display(*v));
            }
        },
        Value::Range(x) => {
            append_value(out, &x.start);
            if x.closed {
                out.append("..=");
            } else {
                out.append("..");
            }
            append_value(out, &x.end);
            proof {
                assert(out@ =~= old(out)@ + spec_display(*v));
            }
        },
        Value::Tuple(x) => {
            out.append("(");
            append_join(out, x);
            if x.len() == 1 {
                out.append(",)");
            } else {
                out.append(")");
            }
            proof {
                assert(out@ =~= old(out)@ + spec_display(*v));
            }
        },
        Value::EnumVariant(e) => {
            out.append(e.display.as_str());
        },
        Value::RegExp(p) => {
            out.append("/");
            append_escaped(out, p.as_str(), '/');
            out.append("/");
            proof {
                assert(out@ =~= old(out)@ + spec_display(*v));
            }
        },
        Value::File(f) => {
            out.append("File(\"");
            append_escaped(out, f.filepath.as_str(), '"');
            out.append("\")");
            proof {
                assert(out@ =~= old(out)@ + spec_display(*v));
            }
        },
        Value::Pipeline(p) => {
            append_pipeline(out, p);
        },
        Value::Reference(x) => {
            out.append("Reference(\"");
            let n = x.len();
            let ghost base = out@;
            let mut i: usize = 0;
            while i < n
                invariant
                    i <= n,
                    n == x@.len(),
                    out@ == base + spec_display_indices(x@, i as int),
                decreases n - i,
            {
                if i > 0 {
                    out.append(", ");
                }
                crate::strings::append_u64(out, x[i] as u64);
                proof {
                    assert(out@ =~= base + spec_display_indices(x@, i as int + 1));
                }
                i += 1;
            }
            out.append("\")");
            proof {
                assert(out@ =~= old(out)@ + spec_display(*v));
            }
        },
    }
}

/// Appends the comma-separated renderings of a value sequence.
fn append_join(out: &mut String, x: &Vec<Value>)
    requires
        spec_no_floats_seq(x@, x@.len() as int),
    ensures
        final(out)@ == old(out)@ + spec_display_join(x@, x@.len() as int),
    decreases x@, 1int, 0int,
{
    let n = x.len();
    let ghost base = out@;
    let mut i: usize = 0;
    while i < n
        invariant
            i <= n,
            n == x@.len(),
            spec_no_floats_seq(x@, x@.len() as int),
            out@ == base + spec_display_join(x@, i as int),
        decreases n - i,
    {
        if i > 0 {
            out.append(", ");
        }
        proof {
            lemma_no_floats_seq_at(x@, i as int);
        }
        append_value(out, &x[i]);
        proof {
            assert(out@ =~= base + spec_display_join(x@, i as int + 1));
        }
        i += 1;
    }
}

/// A prefix guarantee covers each element before its bound.
proof fn lemma_no_floats_seq_at(x: Seq<Value>, i: int)
    requires
        spec_no_floats_seq(x, x.len() as int),
        0 <= i < x.len(),
    ensures
        spec_no_floats(x[i]),
{
    lemma_no_floats_seq_down(x, x.len() as int, i);
}

/// The prefix guarantee restricts to shorter prefixes.
proof fn lemma_no_floats_seq_down(x: Seq<Value>, k: int, i: int)
    requires
        spec_no_floats_seq(x, k),
        0 <= i < k <= x.len(),
    ensures
        spec_no_floats(x[i]),
    decreases k,
{
    if i < k - 1 {
        lemma_no_floats_seq_down(x, k - 1, i);
    }
}

/// Appends the comma-separated `"key": value` renderings of entries.
fn append_entries(out: &mut String, m: &Vec<(String, Value)>)
    requires
        spec_no_floats_entries(m@, m@.len() as int),
    ensures
        final(out)@ == old(out)@ + spec_display_entries(m@, m@.len() as int),
    decreases m@, 1int, 0int,
{
    let n = m.len();
    let ghost base = out@;
    let mut i: usize = 0;
    while i < n
        invariant
            i <= n,
            n == m@.len(),
            spec_no_floats_entries(m@, m@.len() as int),
            out@ == base + spec_display_entries(m@, i as int),
        decreases n - i,
    {
        if i > 0 {
            out.append(", ");
        }
        out.append("\"");
        out.append(m[i].0.as_str());
        out.append("\": ");
        proof {
            lemma_no_floats_entries_at(m@, i as int);
        }
        append_value(out, &m[i].1);
        proof {
            assert(out@ =~= base + spec_display_entries(m@, i as int + 1));
        }
        i += 1;
    }
}

/// A prefix guarantee covers each entry value before its bound.
proof fn lemma_no_floats_entries_at(m: Seq<(String, Value)>, i: int)
    requires
        spec_no_floats_entries(m, m.len() as int),
        0 <= i < m.len(),
    ensures
        spec_no_floats(m[i].1),
{
    lemma_no_floats_entries_down(m, m.len() as int, i);
}

/// The entry prefix guarantee restricts to shorter prefixes.
proof fn lemma_no_floats_entries_down(m: Seq<(String, Value)>, k: int, i: int)
    requires
        spec_no_floats_entries(m, k),
        0 <= i < k <= m.len(),
    ensures
        spec_no_floats(m[i].1),
    decreases k,
{
    if i < k - 1 {
        lemma_no_floats_entries_down(m, k - 1, i);
    }
}

/// Appends the rendering of a pipeline's steps.
fn append_pipeline(out: &mut String, p: &crate::types::pipeline::Pipeline)
    requires
        spec_no_floats_pipeline(p.items@, p.items@.len() as int),
    ensures
        final(out)@ == old(out)@ + spec_display_pipeline(p.items@, p.items@.len() as int),
    decreases *p, 2int, 0int,
{
    let n = p.items.len();
    let ghost base = out@;
    let mut i: usize = 0;
    while i < n
        invariant
            i <= n,
            n == p.items@.len(),
            spec_no_floats_pipeline(p.items@, p.items@.len() as int),
            out@ == base + spec_display_pipeline(p.items@, i as int),
        decreases n - i,
    {
        if i == 0 {
            out.append("$");
        } else {
            out.append(".");
        }
        let item = &p.items[i];
        let pn = item.path.len();
        let ghost pbase = out@;
        let mut j: usize = 0;
        while j < pn
            invariant
                j <= pn,
                pn == item.path@.len(),
                out@ == pbase + spec_display_path(item.path@, j as int),
            decreases pn - j,
        {
            if j > 0 {
                out.append(".");
            }
            out.append(item.path[j].as_str());
            proof {
                assert(out@ =~= pbase + spec_display_path(item.path@, j as int + 1));
            }
            j += 1;
        }
        if item.args.len() > 0 {
            out.append("(");
            let an = item.args.len();
            let ghost abase = out@;
            let mut k: usize = 0;
            while k < an
                invariant
                    k <= an,
                    an == item.args@.len(),
                    *item == p.items@[i as int],
                    i < n,
                    n == p.items@.len(),
                    spec_no_floats_pipeline(p.items@, p.items@.len() as int),
                    out@ == abase + spec_display_args(item.args@, k as int),
                decreases an - k,
            {
                if k > 0 {
                    out.append(", ");
                }
                match &item.args[k].name {
                    Some(nm) => {
                        out.append(nm.as_str());
                        out.append(": ");
                    },
                    None => {
                    },
                }
                proof {
                    lemma_no_floats_pipeline_at(p.items@, i as int);
                    lemma_no_floats_args_at(item.args@, k as int);
                }
                append_value(out, &item.args[k].arg);
                proof {
                    assert(out@ =~= abase + spec_display_args(item.args@, k as int + 1));
                }
                k += 1;
            }
            out.append(")");
        }
        proof {
            assert(out@ =~= base + spec_display_pipeline(p.items@, i as int + 1));
        }
        i += 1;
    }
}

/// The pipeline prefix guarantee covers each step before its bound.
proof fn lemma_no_floats_pipeline_at(
    items: Seq<crate::types::pipeline::PipelineItem>,
    i: int,
)
    requires
        spec_no_floats_pipeline(items, items.len() as int),
        0 <= i < items.len(),
    ensures
        spec_no_floats_args(items[i].args@, items[i].args@.len() as int),
{
    lemma_no_floats_pipeline_down(items, items.len() as int, i);
}

/// The pipeline prefix guarantee restricts to shorter prefixes.
proof fn lemma_no_floats_pipeline_down(
    items: Seq<crate::types::pipeline::PipelineItem>,
    k: int,
    i: int,
)
    requires
        spec_no_floats_pipeline(items, k),
        0 <= i < k <= items.len(),
    ensures
        spec_no_floats_args(items[i].args@, items[i].args@.len() as int),
    decreases k,
{
    if i < k - 1 {
        lemma_no_floats_pipeline_down(items, k - 1, i);
    }
}

/// The argument prefix guarantee covers each argument before its bound.
proof fn lemma_no_floats_args_at(args: Seq<crate::types::pipeline::PipelineItemArg>, i: int)
    requires
        spec_no_floats_args(args, args.len() as int),
        0 <= i < args.len(),
    ensures
        spec_no_floats(args[i].arg),
{
    lemma_no_floats_args_down(args, args.len() as int, i);
}

/// The argument prefix guarantee restricts to shorter prefixes.
proof fn lemma_no_floats_args_down(
    args: Seq<crate::types::pipeline::PipelineItemArg>,
    k: int,
    i: int,
)
    requires
        spec_no_floats_args(args, k),
        0 <= i < k <= args.len(),
    ensures
        spec_no_floats(args[i].arg),
    decreases k,
{
    if i < k - 1 {
        lemma_no_floats_args_down(args, k - 1, i);
    }
}

impl Value {
    /// The canonical literal rendering; [`spec_display`] says exactly
    /// what it produces.  The tree must be free of the two float kinds,
    /// whose decimal rendering lives outside this crate's reach.
    pub fn to_teon_string(&self) -> (r: String)
        requires
            spec_no_floats(*self),
        ensures
            r@ == spec_display(*self),
    {
        let mut out = String::new();
        append_value(&mut out, self);
        proof {
            assert(out@ =~= spec_display(*self));
        }
        out
    }
}

} // verus!
