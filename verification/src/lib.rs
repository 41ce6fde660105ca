//! Host-side model of a three-stage compute pathtracer.
//!
//! The library decides everything about the pipeline that does not need a
//! device: which buffers exist and how large they are, how each buffer is
//! bound in each stage, how many workgroups each stage is dispatched over and
//! in which order the stages are recorded. Every floating-point quantity
//! crosses the library as its IEEE-754 single-precision bit pattern, so the
//! library lays such values out for upload but never does arithmetic on them.

pub mod binding;
pub mod camera;
pub mod data_types;
pub mod error;
pub mod frame;
pub mod gpu_buffer;
pub mod pathtracer;
pub mod scene;
pub mod stage;
pub mod usage;
pub mod vertex;
pub mod words;
