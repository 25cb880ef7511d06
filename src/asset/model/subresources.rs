//! The texture descriptor variant stored inside model descriptors.
use vstd::prelude::*;

use crate::asset::texture::{texture_format_from_code, texture_format_of, TextureDescriptor};
use crate::asset::AssetParseError;
use crate::bytes::{le_u16, le_u32, read_u16_le, read_u32_le};
use crate::d3d::D3DFormat;

verus! {

/// Bytes of a stored sub-texture descriptor.
pub const SUB_TEXTURE_DESCRIPTOR_SIZE: usize = 32;

/// A texture descriptor as a model stores it: the texture's size sits four
/// bytes further than in a texture asset's descriptor.
#[derive(Debug, Clone, Copy, PartialEq, Eq, Structural)]
pub struct SubTextureDescriptor {
    pub format: D3DFormat,
    pub header_size: u32,
    pub width: u16,
    pub height: u16,
    pub flags: u32,
    pub unknown_3a: u32,
    pub texture_offset: u32,
    pub texture_size: u32,
}

/// The sub-texture descriptor stored in the first 32 bytes of `b`.
pub open spec fn parse_sub_texture_descriptor(b: Seq<u8>) -> Option<SubTextureDescriptor> {
    if b.len() < SUB_TEXTURE_DESCRIPTOR_SIZE {
        None
    } else {
        Some(
            SubTextureDescriptor {
                format: texture_format_of(le_u32(b, 0)),
                header_size: le_u32(b, 4),
                width: le_u16(b, 8),
                height: le_u16(b, 10),
                flags: le_u32(b, 12),
                unknown_3a: le_u32(b, 16),
                texture_offset: le_u32(b, 20),
                texture_size: le_u32(b, 28),
            },
        )
    }
}

impl SubTextureDescriptor {
    /// Reads a sub-texture descriptor from the first 32 bytes of `data`.
    pub fn from_bytes(data: &[u8]) -> (r: Result<Self, AssetParseError>)
        ensures
            match parse_sub_texture_descriptor(data@) {
                Some(d) => r == Ok::<Self, AssetParseError>(d),
                None => r matches Err(AssetParseError::InputTooSmall),
            },
    {
        if data.len() < SUB_TEXTURE_DESCRIPTOR_SIZE {
            return Err(AssetParseError::InputTooSmall);
        }
        Ok(
            SubTextureDescriptor {
                format: texture_format_from_code(read_u32_le(data, 0)),
                header_size: read_u32_le(data, 4),
                width: read_u16_le(data, 8),
                height: read_u16_le(data, 10),
                flags: read_u32_le(data, 12),
                unknown_3a: read_u32_le(data, 16),
                texture_offset: read_u32_le(data, 20),
                texture_size: read_u32_le(data, 28),
            },
        )
    }

    pub fn texture_offset(&self) -> (r: u32)
        ensures
            r == self.texture_offset,
    {
        self.texture_offset
    }

    pub fn texture_size(&self) -> (r: u32)
        ensures
            r == self.texture_size,
    {
        self.texture_size
    }

    /// The same texture as a texture asset's descriptor.
    pub fn to_texture_descriptor(&self) -> (r: TextureDescriptor)
        ensures
            r == (TextureDescriptor {
                format: self.format,
                header_size: self.header_size,
                width: self.width,
                height: self.height,
                flags: self.flags,
                unknown_3a: self.unknown_3a,
                texture_offset: self.texture_offset,
                texture_size: self.texture_size,
            }),
    {
        TextureDescriptor::new(
            self.format,
            self.header_size,
            self.width,
            self.height,
            self.flags,
            self.unknown_3a,
            self.texture_offset,
            self.texture_size,
        )
    }
}

} // verus!
