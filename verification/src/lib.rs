//! A client-side WebGL texture object validator and mipmap/cube-map state
//! machine. It replicates GLES2-style validation rules locally, keeps a dense
//! per-level, per-face image-info table consistent with what the remote
//! executor will compute, and decides, for every mutating call, whether a
//! command must be emitted and in what order. Commands are recorded in an
//! ordered event log; an embedding drains the log and performs the actual
//! delivery.

pub mod arith;
pub mod commands;
pub mod constants;
pub mod error;
pub mod float_bits;
pub mod image_info;
pub mod laws;
pub mod texture;
pub mod types;
