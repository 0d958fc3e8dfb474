//! Plain value types shared by the texture state machine: texel formats,
//! data types, upload targets, and the tagged numeric parameter value.

use vstd::prelude::*;

verus! {

/// Texel format a texture image declares at upload time. Only whether the
/// format is a block-compressed one matters to mipmap legality.
#[derive(Clone, Copy, Debug, PartialEq, Eq, Structural)]
pub enum TexFormat {
    DepthComponent,
    Alpha,
    Rgb,
    Rgba,
    Luminance,
    LuminanceAlpha,
    CompressedRgbS3tcDxt1,
    CompressedRgbaS3tcDxt1,
    CompressedRgbaS3tcDxt3,
    CompressedRgbaS3tcDxt5,
    CompressedRgbEtc1,
}

impl TexFormat {
    /// Whether this is a block-compressed format; automatic mipmap
    /// generation is rejected for those.
    pub open spec fn spec_is_compressed(self) -> bool {
        match self {
            TexFormat::CompressedRgbS3tcDxt1 => true,
            TexFormat::CompressedRgbaS3tcDxt1 => true,
            TexFormat::CompressedRgbaS3tcDxt3 => true,
            TexFormat::CompressedRgbaS3tcDxt5 => true,
            TexFormat::CompressedRgbEtc1 => true,
            _ => false,
        }
    }

    pub fn is_compressed(&self) -> (r: bool)
        ensures
            r == self.spec_is_compressed(),
    {
        match self {
            TexFormat::CompressedRgbS3tcDxt1 => true,
            TexFormat::CompressedRgbaS3tcDxt1 => true,
            TexFormat::CompressedRgbaS3tcDxt3 => true,
            TexFormat::CompressedRgbaS3tcDxt5 => true,
            TexFormat::CompressedRgbEtc1 => true,
            _ => false,
        }
    }
}

/// Per-texel sample type recorded alongside the format.
#[derive(Clone, Copy, Debug, PartialEq, Eq, Structural)]
pub enum TexDataType {
    UnsignedByte,
    UnsignedShort4444,
    UnsignedShort5551,
    UnsignedShort565,
    HalfFloat,
    Float,
}

/// The face/target an image upload addresses: either the single 2D face or
/// one of the six cube-map faces.
#[derive(Clone, Copy, Debug, PartialEq, Eq, Structural)]
pub enum TexImageTarget {
    Texture2D,
    CubeMapPositiveX,
    CubeMapNegativeX,
    CubeMapPositiveY,
    CubeMapNegativeY,
    CubeMapPositiveZ,
    CubeMapNegativeZ,
}

/// A tagged numeric parameter value. `Float` carries the IEEE-754 single
/// precision bit pattern of the number, so that the purely integer validation
/// logic here can reason about it exactly; an embedding converts with
/// `f32::to_bits` / `f32::from_bits` at the transport edge.
#[derive(Clone, Copy, Debug, PartialEq, Eq, Structural)]
pub enum TexParameterValue {
    Float(u32),
    Int(i32),
}

/// How uploads to a compressed texture are validated.
#[derive(Clone, Copy, Debug, PartialEq, Eq, Structural)]
pub enum TexCompressionValidation {
    NoValidation,
    S3TC,
}

/// Description of one block-compressed format.
#[derive(Clone, Copy, Debug)]
pub struct TexCompression {
    pub format: TexFormat,
    pub bytes_per_block: u8,
    pub block_width: u8,
    pub block_height: u8,
    pub validation: TexCompressionValidation,
}

} // verus!
