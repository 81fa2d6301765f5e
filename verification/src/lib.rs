//! Building blocks of GStreamer media pipelines: handles to GL objects shared
//! with the C side, and the layout of the pipelines (elements, properties,
//! links and the routing of pads that appear at run time).

pub mod gl_sys;
pub mod pipeline_factory;
pub mod plan;
pub mod text;
