//! Verified core of a minimal Direct3D 11 renderer: shader compilation
//! requests, presentation descriptors and the per-frame decisions.

pub mod device;
pub mod encoding;
pub mod engine;
pub mod frame;
pub mod presentation;
pub mod run;
pub mod shader;
