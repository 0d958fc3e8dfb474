//! The commands this core emits towards the asynchronous executor, and the
//! ordered events a texture records instead of sending them itself. An
//! embedding drains the event log in order and performs each entry, which
//! preserves the single-producer FIFO discipline the design assumes.

use vstd::prelude::*;
use crate::types::TexParameterValue;

verus! {

/// A validated command for the out-of-thread executor that owns the GPU
/// resource. `TexParameterf` carries the tagged value unchanged; the
/// embedding converts it to an `f32` when it puts the command on the wire
/// (`f32::from_bits` for a float-tagged value, a numeric cast for an
/// integer-tagged one).
#[derive(Clone, Copy, Debug, PartialEq, Eq, Structural)]
pub enum WebGLCommand {
    /// (target, texture id)
    BindTexture(u32, u32),
    /// (target, parameter name, integer value)
    TexParameteri(u32, u32, i32),
    /// (target, parameter name, value read as a float)
    TexParameterf(u32, u32, TexParameterValue),
    /// (target)
    GenerateMipmap(u32),
    /// (texture id)
    DeleteTexture(u32),
}

/// One entry of a texture's ordered emission log.
#[derive(Clone, Copy, Debug, PartialEq, Eq, Structural)]
pub enum TexEvent {
    /// A command that must be delivered; a delivery failure is fatal.
    Command(WebGLCommand),
    /// A command whose delivery failure is tolerated (implicit cleanup).
    CommandIgnored(WebGLCommand),
    /// Best-effort notification that detaches the texture's external
    /// presentation link; failures are swallowed.
    DomDetach(u32),
    /// Invocation of the currently bound framebuffer's detach hook for this
    /// texture id, so a deleted texture never stays attached anywhere.
    FramebufferDetach(u32),
}

} // verus!
