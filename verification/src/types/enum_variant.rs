use vstd::prelude::*;
use crate::value::Value;

verus! {

/// A chosen case of a schema-declared enum.
///
/// `value` carries the underlying tag (usually an integer or a string),
/// `display` the label shown in diagnostics, `path` the sequence of
/// declaration-order case indices that identifies the declaring enum and
/// case, and `args` an optional named-argument map.
#[derive(Debug)]
pub struct EnumVariant {
    pub value: Box<Value>,
    pub display: String,
    pub path: Vec<usize>,
    pub args: Option<Vec<(String, Value)>>,
}

impl EnumVariant {
    /// The display label, consumed.
    pub fn into_string(self) -> (r: String)
        ensures
            r@ == self.display@,
    {
        self.display
    }

    /// The display label, copied.
    pub fn to_string(&self) -> (r: String)
        ensures
            r@ == self.display@,
    {
        self.display.clone()
    }

    /// An enum choice never counts as logically empty under the normal
    /// (truthiness) negation.
    pub fn normal_not(&self) -> (r: bool)
        ensures
            r == false,
    {
        false
    }
}

} // verus!
