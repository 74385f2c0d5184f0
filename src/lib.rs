//! Screen-region animation capture: region selection, frame sampling,
//! frame conversion and animated-image assembly.
pub mod assemble;
pub mod convert;
pub mod error;
pub mod geometry;
pub mod pipeline;
pub mod sampler;
pub mod selector;
