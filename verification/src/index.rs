use vstd::prelude::*;
use crate::value::Value;

verus! {

/// The value under a key in an entry list; the first occurrence wins.
pub open spec fn spec_dict_get(m: Seq<(String, Value)>, key: Seq<char>) -> Option<Value>
    decreases m.len(),
{
    if m.len() == 0 {
        None
    } else if m[0].0@ == key {
        Some(m[0].1)
    } else {
        spec_dict_get(m.drop_first(), key)
    }
}

/// A way of indexing into a value: a position selects an array
/// element, a key selects a dictionary member.
pub trait Index {
    /// What indexing finds, if anything.
    spec fn spec_found(&self, v: Value) -> Option<Value>;

    fn index_into<'v>(&self, v: &'v Value) -> (r: Option<&'v Value>)
        ensures
            match r {
                Some(x) => self.spec_found(*v) == Some(*x),
                None => self.spec_found(*v) is None,
            },
    ;

    fn index_into_mut<'v>(&self, v: &'v mut Value) -> (r: Option<&'v mut Value>)
        ensures
            r is Some <==> self.spec_found(*old(v)) is Some,
    ;
}

impl Index for usize {
    open spec fn spec_found(&self, v: Value) -> Option<Value> {
        match v {
            Value::Array(x) => if *self < x@.len() {
                Some(x@[*self as int])
            } else {
                None
            },
            _ => None,
        }
    }

    /// An index selects the array element at its position.
    fn index_into<'v>(&self, v: &'v Value) -> (r: Option<&'v Value>) {
        match v {
            Value::Array(x) => {
                if *self < x.len() {
                    Some(&x[*self])
                } else {
                    None
                }
            },
            _ => None,
        }
    }

    /// Mutable access to the array element at the position.
    fn index_into_mut<'v>(&self, v: &'v mut Value) -> (r: Option<&'v mut Value>) {
        let idx = *self;
        match v {
            Value::Array(x) => {
                if idx < x.len() {
                    Some(&mut x[idx])
                } else {
                    None
                }
            },
            _ => None,
        }
    }
}

/// Looks a key up in the entry list of any dictionary variant.
fn dict_lookup<'v>(m: &'v Vec<(String, Value)>, key: &str) -> (r: Option<&'v Value>)
    ensures
        match r {
            Some(x) => spec_dict_get(m@, key@) == Some(*x),
            None => spec_dict_get(m@, key@) is None,
        },
{
    let n = m.len();
    let mut i: usize = 0;
    proof {
        assert(m@.skip(0) =~= m@);
    }
    while i < n
        invariant
            i <= n,
            n == m@.len(),
            spec_dict_get(m@, key@) == spec_dict_get(m@.skip(i as int), key@),
        decreases n - i,
    {
        proof {
            assert(m@.skip(i as int)[0] == m@[i as int]);
            assert(m@.skip(i as int).drop_first() =~= m@.skip(i as int + 1));
        }
        if crate::strings::str_eq(m[i].0.as_str(), key) {
            return Some(&m[i].1);
        }
        i += 1;
    }
    proof {
        assert(m@.skip(i as int).len() == 0);
    }
    None
}

/// Mutable key lookup in an entry list.
fn dict_lookup_mut<'v>(m: &'v mut Vec<(String, Value)>, key: &str) -> (r: Option<&'v mut Value>)
    ensures
        r is Some <==> spec_dict_get(old(m)@, key@) is Some,
{
    let n = m.len();
    let mut i: usize = 0;
    proof {
        assert(m@.skip(0) =~= m@);
    }
    while i < n
        invariant
            i <= n,
            n == m@.len(),
            m@ == old(m)@,
            spec_dict_get(m@, key@) == spec_dict_get(m@.skip(i as int), key@),
        decreases n - i,
    {
        proof {
            assert(m@.skip(i as int)[0] == m@[i as int]);
            assert(m@.skip(i as int).drop_first() =~= m@.skip(i as int + 1));
        }
        if crate::strings::str_eq(m[i].0.as_str(), key) {
            return Some(&mut m[i].1);
        }
        i += 1;
    }
    proof {
        assert(m@.skip(i as int).len() == 0);
    }
    None
}

impl Index for String {
    open spec fn spec_found(&self, v: Value) -> Option<Value> {
        match v {
            Value::Dictionary(m) => spec_dict_get(m@, self@),
            Value::BTreeDictionary(m) => spec_dict_get(m@, self@),
            Value::IndexDictionary(m) => spec_dict_get(m@, self@),
            _ => None,
        }
    }

    /// A key selects the member it names in any dictionary variant.
    fn index_into<'v>(&self, v: &'v Value) -> (r: Option<&'v Value>) {
        match v {
            Value::Dictionary(m) => dict_lookup(m, self.as_str()),
            Value::BTreeDictionary(m) => dict_lookup(m, self.as_str()),
            Value::IndexDictionary(m) => dict_lookup(m, self.as_str()),
            _ => None,
        }
    }

    /// Mutable access to the member the key names.
    fn index_into_mut<'v>(&self, v: &'v mut Value) -> (r: Option<&'v mut Value>) {
        match v {
            Value::Dictionary(m) => dict_lookup_mut(m, self.as_str()),
            Value::BTreeDictionary(m) => dict_lookup_mut(m, self.as_str()),
            Value::IndexDictionary(m) => dict_lookup_mut(m, self.as_str()),
            _ => None,
        }
    }
}

impl<'a> Index for &'a str {
    open spec fn spec_found(&self, v: Value) -> Option<Value> {
        match v {
            Value::Dictionary(m) => spec_dict_get(m@, self@),
            Value::BTreeDictionary(m) => spec_dict_get(m@, self@),
            Value::IndexDictionary(m) => spec_dict_get(m@, self@),
            _ => None,
        }
    }

    /// A key selects the member it names in any dictionary variant.
    fn index_into<'v>(&self, v: &'v Value) -> (r: Option<&'v Value>) {
        match v {
            Value::Dictionary(m) => dict_lookup(m, self),
            Value::BTreeDictionary(m) => dict_lookup(m, self),
            Value::IndexDictionary(m) => dict_lookup(m, self),
            _ => None,
        }
    }

    /// Mutable access to the member the key names.
    fn index_into_mut<'v>(&self, v: &'v mut Value) -> (r: Option<&'v mut Value>) {
        match v {
            Value::Dictionary(m) => dict_lookup_mut(m, self),
            Value::BTreeDictionary(m) => dict_lookup_mut(m, self),
            Value::IndexDictionary(m) => dict_lookup_mut(m, self),
            _ => None,
        }
    }
}

impl Value {
    /// Indexes into the value by a position or a key.
    pub fn get<I: Index>(&self, index: I) -> (r: Option<&Value>)
        ensures
            match r {
                Some(x) => index.spec_found(*self) == Some(*x),
                None => index.spec_found(*self) is None,
            },
    {
        index.index_into(self)
    }

    /// Mutable indexing into the value by a position or a key.
    pub fn get_mut<I: Index>(&mut self, index: I) -> (r: Option<&mut Value>)
        ensures
            r is Some <==> index.spec_found(*old(self)) is Some,
    {
        index.index_into_mut(self)
    }
}

} // verus!
