//! The GLES2 symbolic constants this core validates against, and the fixed
//! capacity of the per-texture image-info table.

use vstd::prelude::*;

verus! {

/// Binding target for a two-dimensional texture.
pub const TEXTURE_2D: u32 = 0x0DE1;

/// Binding target for a cube-map texture.
pub const TEXTURE_CUBE_MAP: u32 = 0x8513;

/// Parameter name: minification filter.
pub const TEXTURE_MIN_FILTER: u32 = 0x2801;

/// Parameter name: magnification filter.
pub const TEXTURE_MAG_FILTER: u32 = 0x2800;

/// Parameter name: wrap mode along S.
pub const TEXTURE_WRAP_S: u32 = 0x2802;

/// Parameter name: wrap mode along T.
pub const TEXTURE_WRAP_T: u32 = 0x2803;

/// Parameter name of the anisotropic-filtering extension.
pub const TEXTURE_MAX_ANISOTROPY_EXT: u32 = 0x84FE;

pub const NEAREST: u32 = 0x2600;

pub const LINEAR: u32 = 0x2601;

pub const NEAREST_MIPMAP_NEAREST: u32 = 0x2700;

pub const LINEAR_MIPMAP_NEAREST: u32 = 0x2701;

pub const NEAREST_MIPMAP_LINEAR: u32 = 0x2702;

pub const LINEAR_MIPMAP_LINEAR: u32 = 0x2703;

pub const CLAMP_TO_EDGE: u32 = 0x812F;

pub const MIRRORED_REPEAT: u32 = 0x8370;

pub const REPEAT: u32 = 0x2901;

/// Highest number of mip levels a texture can declare.
pub const MAX_LEVEL_COUNT: usize = 31;

/// Highest number of faces a texture can have (six for a cube map).
pub const MAX_FACE_COUNT: usize = 6;

} // verus!
