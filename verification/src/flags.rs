use vstd::prelude::*;

verus! {

/// How a texture may be used. Each usage is one bit.
#[derive(Clone, Copy, Debug, PartialEq, Eq, Structural, Hash)]
pub struct TextureUsageFlags {
    pub bits: u32,
}

/// How a buffer may be used. Each usage is one bit.
#[derive(Clone, Copy, Debug, PartialEq, Eq, Structural, Hash)]
pub struct BufferUsageFlags {
    pub bits: u32,
}

/// Which aspects of a texture a view covers.
#[derive(Clone, Copy, Debug, PartialEq, Eq, Structural, Hash)]
pub struct TextureAspectFlags {
    pub bits: u32,
}

/// Shader stages from which a binding is visible.
#[derive(Clone, Copy, Debug, PartialEq, Eq, Structural, Hash)]
pub struct ShaderStageFlags {
    pub bits: u32,
}

/// Color channels written by a color target.
#[derive(Clone, Copy, Debug, PartialEq, Eq, Structural, Hash)]
pub struct ColorWriteFlags {
    pub bits: u32,
}

/// Texture usage bit values.
pub const TEXTURE_USAGE_NONE: u32 = 0;
pub const TEXTURE_USAGE_TRANSFER_SRC: u32 = 1;
pub const TEXTURE_USAGE_TRANSFER_DST: u32 = 2;
pub const TEXTURE_USAGE_SAMPLED: u32 = 4;
pub const TEXTURE_USAGE_STORAGE: u32 = 8;
pub const TEXTURE_USAGE_OUTPUT_ATTACHMENT: u32 = 16;
pub const TEXTURE_USAGE_PRESENT: u32 = 32;

/// Buffer usage bit values.
pub const BUFFER_USAGE_NONE: u32 = 0;
pub const BUFFER_USAGE_MAP_READ: u32 = 1;
pub const BUFFER_USAGE_MAP_WRITE: u32 = 2;
pub const BUFFER_USAGE_TRANSFER_SRC: u32 = 4;
pub const BUFFER_USAGE_TRANSFER_DST: u32 = 8;
pub const BUFFER_USAGE_INDEX: u32 = 16;
pub const BUFFER_USAGE_VERTEX: u32 = 32;
pub const BUFFER_USAGE_UNIFORM: u32 = 64;
pub const BUFFER_USAGE_STORAGE: u32 = 128;
pub const BUFFER_USAGE_INDIRECT: u32 = 256;

/// Texture aspect bit values.
pub const TEXTURE_ASPECT_COLOR: u32 = 1;
pub const TEXTURE_ASPECT_DEPTH: u32 = 2;
pub const TEXTURE_ASPECT_STENCIL: u32 = 8;

/// Shader stage bit values.
pub const SHADER_STAGE_NONE: u32 = 0;
pub const SHADER_STAGE_VERTEX: u32 = 1;
pub const SHADER_STAGE_FRAGMENT: u32 = 2;
pub const SHADER_STAGE_COMPUTE: u32 = 4;

/// Color write bit values.
pub const COLOR_WRITE_NONE: u32 = 0;
pub const COLOR_WRITE_RED: u32 = 1;
pub const COLOR_WRITE_GREEN: u32 = 2;
pub const COLOR_WRITE_BLUE: u32 = 4;
pub const COLOR_WRITE_ALPHA: u32 = 8;
pub const COLOR_WRITE_ALL: u32 = 15;

impl TextureUsageFlags {
    pub fn from_bits(bits: u32) -> (r: Self)
        ensures
            r.bits == bits,
    {
        TextureUsageFlags { bits }
    }

    pub fn bits(self) -> (r: u32)
        ensures
            r == self.bits,
    {
        self.bits
    }

    /// Every bit of `other` is set in `self`.
    pub open spec fn spec_contains(self, other: Self) -> bool {
        self.bits & other.bits == other.bits
    }

    /// Some bit of `other` is set in `self`.
    pub open spec fn spec_intersects(self, other: Self) -> bool {
        self.bits & other.bits != 0
    }

    pub fn contains(self, other: Self) -> (r: bool)
        ensures
            r == self.spec_contains(other),
    {
        self.bits & other.bits == other.bits
    }

    pub fn intersects(self, other: Self) -> (r: bool)
        ensures
            r == self.spec_intersects(other),
    {
        self.bits & other.bits != 0
    }

    pub fn union(self, other: Self) -> (r: Self)
        ensures
            r.bits == self.bits | other.bits,
    {
        TextureUsageFlags { bits: self.bits | other.bits }
    }

    pub fn intersection(self, other: Self) -> (r: Self)
        ensures
            r.bits == self.bits & other.bits,
    {
        TextureUsageFlags { bits: self.bits & other.bits }
    }

    pub fn is_empty(self) -> (r: bool)
        ensures
            r == (self.bits == 0),
    {
        self.bits == 0
    }
}

impl BufferUsageFlags {
    pub fn from_bits(bits: u32) -> (r: Self)
        ensures
            r.bits == bits,
    {
        BufferUsageFlags { bits }
    }

    pub fn bits(self) -> (r: u32)
        ensures
            r == self.bits,
    {
        self.bits
    }

    pub open spec fn spec_contains(self, other: Self) -> bool {
        self.bits & other.bits == other.bits
    }

    pub open spec fn spec_intersects(self, other: Self) -> bool {
        self.bits & other.bits != 0
    }

    pub fn contains(self, other: Self) -> (r: bool)
        ensures
            r == self.spec_contains(other),
    {
        self.bits & other.bits == other.bits
    }

    pub fn intersects(self, other: Self) -> (r: bool)
        ensures
            r == self.spec_intersects(other),
    {
        self.bits & other.bits != 0
    }

    pub fn union(self, other: Self) -> (r: Self)
        ensures
            r.bits == self.bits | other.bits,
    {
        BufferUsageFlags { bits: self.bits | other.bits }
    }

    pub fn intersection(self, other: Self) -> (r: Self)
        ensures
            r.bits == self.bits & other.bits,
    {
        BufferUsageFlags { bits: self.bits & other.bits }
    }

    pub fn is_empty(self) -> (r: bool)
        ensures
            r == (self.bits == 0),
    {
        self.bits == 0
    }
}

impl ShaderStageFlags {
    pub fn from_bits(bits: u32) -> (r: Self)
        ensures
            r.bits == bits,
    {
        ShaderStageFlags { bits }
    }
}

impl ColorWriteFlags {
    pub fn from_bits(bits: u32) -> (r: Self)
        ensures
            r.bits == bits,
    {
        ColorWriteFlags { bits }
    }
}

impl TextureAspectFlags {
    pub fn from_bits(bits: u32) -> (r: Self)
        ensures
            r.bits == bits,
    {
        TextureAspectFlags { bits }
    }
}

} // verus!
