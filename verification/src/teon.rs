//! The value model's compound types under one roof, for callers that
//! import them together.

pub use crate::types::enum_variant::EnumVariant;
pub use crate::types::file::File;
pub use crate::types::pipeline::Pipeline;
pub use crate::types::pipeline::PipelineItem;
pub use crate::types::pipeline::PipelineItemArg;
pub use crate::types::range::Range;
