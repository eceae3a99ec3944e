//! A GPU compute-offload harness: the decisions behind device selection,
//! staged resources, pipeline binding, fence-gated command submission and
//! teardown, stated as verified functions over plain values. The driver calls
//! themselves are made by the application around this library.

pub mod bytes;
pub mod catalog;
pub mod channel;
pub mod context;
pub mod engine;
pub mod frame;
pub mod mesh;
pub mod params;
pub mod pipeline;
pub mod resource;
