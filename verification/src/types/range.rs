use vstd::prelude::*;
use crate::value::Value;

verus! {

/// A range between two endpoint values, open or closed on the right.
///
/// The endpoints are expected to be of a comparable kind; the type
/// itself does not enforce that.
#[derive(Debug)]
pub struct Range {
    pub closed: bool,
    pub start: Box<Value>,
    pub end: Box<Value>,
}

} // verus!
