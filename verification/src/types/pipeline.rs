use vstd::prelude::*;
use crate::value::Value;

verus! {

/// The data shape of a deferred pipeline: an ordered list of steps.
/// No evaluation semantics live in this crate.
#[derive(Debug)]
pub struct Pipeline {
    pub items: Vec<PipelineItem>,
}

/// One pipeline step: a symbolic path and its ordered arguments.
#[derive(Debug)]
pub struct PipelineItem {
    pub path: Vec<String>,
    pub args: Vec<PipelineItemArg>,
}

/// One argument of a pipeline step, named or positional.
#[derive(Debug)]
pub struct PipelineItemArg {
    pub name: Option<String>,
    pub arg: Value,
}

} // verus!
