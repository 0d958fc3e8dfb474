//! Metadata for one (level, face) image slot of a texture.

use vstd::prelude::*;
use vstd::arithmetic::power2::is_pow2;
use crate::arith::{floor_log2, lemma_floor_log2_u32, u32_floor_log2, u32_is_power_of_two};
use crate::types::{TexDataType, TexFormat};

verus! {

/// Dimensions, declared format, sample type and initialized flag of one
/// image slot. A slot is defaulted (all zero, nothing declared) until an
/// upload writes it.
#[derive(Clone, Copy, Debug, PartialEq)]
pub struct ImageInfo {
    pub width: u32,
    pub height: u32,
    pub depth: u32,
    pub internal_format: Option<TexFormat>,
    pub is_initialized: bool,
    pub data_type: Option<TexDataType>,
}

impl ImageInfo {
    /// The defaulted slot value.
    pub open spec fn spec_default() -> ImageInfo {
        ImageInfo {
            width: 0,
            height: 0,
            depth: 0,
            internal_format: None,
            is_initialized: false,
            data_type: None,
        }
    }

    pub fn new() -> (r: ImageInfo)
        ensures
            r == ImageInfo::spec_default(),
    {
        ImageInfo {
            width: 0,
            height: 0,
            depth: 0,
            internal_format: None,
            is_initialized: false,
            data_type: None,
        }
    }

    pub fn width(&self) -> (r: u32)
        ensures
            r == self.width,
    {
        self.width
    }

    pub fn height(&self) -> (r: u32)
        ensures
            r == self.height,
    {
        self.height
    }

    pub fn depth(&self) -> (r: u32)
        ensures
            r == self.depth,
    {
        self.depth
    }

    pub fn internal_format(&self) -> (r: Option<TexFormat>)
        ensures
            r == self.internal_format,
    {
        self.internal_format
    }

    pub fn data_type(&self) -> (r: Option<TexDataType>)
        ensures
            r == self.data_type,
    {
        self.data_type
    }

    pub fn is_initialized(&self) -> (r: bool)
        ensures
            r == self.is_initialized,
    {
        self.is_initialized
    }

    /// All three dimensions are exact powers of two (0 is not one).
    pub open spec fn spec_is_power_of_two(self) -> bool {
        &&& is_pow2(self.width as int)
        &&& is_pow2(self.height as int)
        &&& is_pow2(self.depth as int)
    }

    pub fn is_power_of_two(&self) -> (r: bool)
        ensures
            r == self.spec_is_power_of_two(),
    {
        let w = u32_is_power_of_two(self.width);
        let h = u32_is_power_of_two(self.height);
        let d = u32_is_power_of_two(self.depth);
        w && h && d
    }

    /// A format has been declared for this slot.
    pub open spec fn spec_is_defined(self) -> bool {
        self.internal_format is Some
    }

    pub fn is_defined(&self) -> (r: bool)
        ensures
            r == self.spec_is_defined(),
    {
        match self.internal_format {
            Some(_) => true,
            None => false,
        }
    }

    /// The largest of the three dimensions.
    pub open spec fn spec_largest_dim(self) -> u32 {
        let wh = if self.width >= self.height {
            self.width
        } else {
            self.height
        };
        if wh >= self.depth {
            wh
        } else {
            self.depth
        }
    }

    /// Number of mip levels a full chain starting from this image has:
    /// floor(log2(largest dimension)) + 1, and 0 for an all-zero image.
    pub open spec fn spec_max_mipmap_levels(self) -> nat {
        if self.spec_largest_dim() == 0 {
            0
        } else {
            floor_log2(self.spec_largest_dim() as nat) + 1
        }
    }

    pub fn max_mipmap_levels(&self) -> (r: u32)
        ensures
            r as nat == self.spec_max_mipmap_levels(),
            r <= 32,
    {
        let wh = if self.width >= self.height {
            self.width
        } else {
            self.height
        };
        let largest = if wh >= self.depth {
            wh
        } else {
            self.depth
        };
        if largest == 0 {
            0
        } else {
            proof {
                lemma_floor_log2_u32(largest);
            }
            u32_floor_log2(largest) + 1
        }
    }

    /// The declared format is a block-compressed one.
    pub open spec fn spec_is_compressed_format(self) -> bool {
        match self.internal_format {
            Some(f) => f.spec_is_compressed(),
            None => false,
        }
    }

    pub fn is_compressed_format(&self) -> (r: bool)
        ensures
            r == self.spec_is_compressed_format(),
    {
        match self.internal_format {
            Some(f) => f.is_compressed(),
            None => false,
        }
    }
}

} // verus!
