//! The synchronous validation outcomes every fallible call can return.

use vstd::prelude::*;

verus! {

/// GLES2-style validation errors. `InvalidOperation` marks an illegal state
/// transition or unmet precondition, `InvalidEnum` an unrecognized symbolic
/// constant, and `InvalidValue` a numerically out-of-range input (including
/// NaN, which fails every ordered comparison).
#[derive(Clone, Copy, Debug, PartialEq, Eq, Structural)]
pub enum WebGLError {
    InvalidEnum,
    InvalidOperation,
    InvalidValue,
}

pub type WebGLResult<T> = Result<T, WebGLError>;

} // verus!
