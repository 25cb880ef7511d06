//! Textures: a 28-byte descriptor (format, size, place of the pixels in the
//! resource) and the pixel bytes it points at.
use vstd::prelude::*;

use crate::asset::{Asset, AssetDescriptor, AssetParseError};
use crate::bytes::{
    le_u16, le_u32, push_u16_le, push_u32_le, read_u16_le, read_u32_le, u16_le_bytes, u32_le_bytes,
};
use crate::d3d::{D3DFormat, LinearColour, PixelBits, StandardFormat, Swizzled};
use crate::game::AssetType;
use crate::resource::{VirtualResource, VirtualResourceError};

verus! {

/// Bytes of a stored texture descriptor.
pub const TEXTURE_DESCRIPTOR_SIZE: usize = 28;

/// The format that a stored format code stands for; unknown codes are read
/// as linear A8R8G8B8.
pub open spec fn texture_format_of(code: u32) -> D3DFormat {
    if code == 0x12 {
        D3DFormat::Swizzled(Swizzled::B8G8R8A8)
    } else if code == 0x3f {
        D3DFormat::Swizzled(Swizzled::A8B8G8R8)
    } else if code == 0x0c {
        D3DFormat::Standard(StandardFormat::DXT1)
    } else if code == 0x0e {
        D3DFormat::Standard(StandardFormat::DXT2Or3)
    } else if code == 0x0f {
        D3DFormat::Standard(StandardFormat::DXT4Or5)
    } else {
        D3DFormat::Linear(LinearColour::A8R8G8B8)
    }
}

/// The code under which `f` is stored: the inverse of [`texture_format_of`]
/// on the formats it gives, and the format's own code otherwise.
pub open spec fn texture_format_code(f: D3DFormat) -> u32 {
    match f {
        D3DFormat::Swizzled(Swizzled::B8G8R8A8) => 0x12,
        D3DFormat::Swizzled(Swizzled::A8B8G8R8) => 0x3f,
        D3DFormat::Linear(LinearColour::A8R8G8B8) => 0x40,
        D3DFormat::Standard(StandardFormat::DXT1) => 0x0c,
        D3DFormat::Standard(StandardFormat::DXT2Or3) => 0x0e,
        D3DFormat::Standard(StandardFormat::DXT4Or5) => 0x0f,
        _ => f.spec_code(),
    }
}

/// The format stored under `code` (see [`texture_format_of`]).
pub fn texture_format_from_code(code: u32) -> (r: D3DFormat)
    ensures
        r == texture_format_of(code),
{
    match code {
        0x12 => D3DFormat::Swizzled(Swizzled::B8G8R8A8),
        0x3f => D3DFormat::Swizzled(Swizzled::A8B8G8R8),
        0x0c => D3DFormat::Standard(StandardFormat::DXT1),
        0x0e => D3DFormat::Standard(StandardFormat::DXT2Or3),
        0x0f => D3DFormat::Standard(StandardFormat::DXT4Or5),
        _ => D3DFormat::Linear(LinearColour::A8R8G8B8),
    }
}

/// The code under which `f` is stored (see [`texture_format_code`]).
pub fn texture_format_to_code(f: D3DFormat) -> (r: u32)
    ensures
        r == texture_format_code(f),
{
    match f {
        D3DFormat::Swizzled(Swizzled::B8G8R8A8) => 0x12,
        D3DFormat::Swizzled(Swizzled::A8B8G8R8) => 0x3f,
        D3DFormat::Linear(LinearColour::A8R8G8B8) => 0x40,
        D3DFormat::Standard(StandardFormat::DXT1) => 0x0c,
        D3DFormat::Standard(StandardFormat::DXT2Or3) => 0x0e,
        D3DFormat::Standard(StandardFormat::DXT4Or5) => 0x0f,
        _ => f.to_u32(),
    }
}

/// The size, format and place in the resource of a texture's pixels.
#[derive(Debug, Clone, Copy, PartialEq, Eq, Structural)]
pub struct TextureDescriptor {
    pub format: D3DFormat,
    pub header_size: u32,
    pub width: u16,
    pub height: u16,
    pub flags: u32,
    pub unknown_3a: u32,
    pub texture_offset: u32,
    pub texture_size: u32,
}

/// The texture descriptor stored in the first 28 bytes of `b`.
pub open spec fn parse_texture_descriptor(b: Seq<u8>) -> Option<(D3DFormat, u32, u16, u16, u32, u32, u32, u32)> {
    if b.len() < TEXTURE_DESCRIPTOR_SIZE {
        None
    } else {
        Some(
            (
                texture_format_of(le_u32(b, 0)),
                le_u32(b, 4),
                le_u16(b, 8),
                le_u16(b, 10),
                le_u32(b, 12),
                le_u32(b, 16),
                le_u32(b, 20),
                le_u32(b, 24),
            ),
        )
    }
}

/// The 28 bytes that store `d`.
pub open spec fn texture_descriptor_bytes(d: TextureDescriptor) -> Seq<u8> {
    u32_le_bytes(texture_format_code(d.format)) + u32_le_bytes(d.header_size) + u16_le_bytes(
        d.width,
    ) + u16_le_bytes(d.height) + u32_le_bytes(d.flags) + u32_le_bytes(d.unknown_3a) + u32_le_bytes(
        d.texture_offset,
    ) + u32_le_bytes(d.texture_size)
}

impl TextureDescriptor {
    /// The fields of the descriptor, in stored order.
    pub open spec fn fields(&self) -> (D3DFormat, u32, u16, u16, u32, u32, u32, u32) {
        (
            self.format,
            self.header_size,
            self.width,
            self.height,
            self.flags,
            self.unknown_3a,
            self.texture_offset,
            self.texture_size,
        )
    }

    /// A descriptor with the given fields.
    pub fn new(
        format: D3DFormat,
        header_size: u32,
        width: u16,
        height: u16,
        flags: u32,
        unknown_3a: u32,
        texture_offset: u32,
        texture_size: u32,
    ) -> (r: Self)
        ensures
            r.fields() == (
                format,
                header_size,
                width,
                height,
                flags,
                unknown_3a,
                texture_offset,
                texture_size,
            ),
    {
        Self { format, header_size, width, height, flags, unknown_3a, texture_offset, texture_size }
    }

    pub fn format(&self) -> (r: D3DFormat)
        ensures
            r == self.format,
    {
        self.format
    }

    pub fn header_size(&self) -> (r: u32)
        ensures
            r == self.header_size,
    {
        self.header_size
    }

    pub fn width(&self) -> (r: u16)
        ensures
            r == self.width,
    {
        self.width
    }

    pub fn height(&self) -> (r: u16)
        ensures
            r == self.height,
    {
        self.height
    }

    /// Where the pixels start in the texture's resource.
    pub fn texture_offset(&self) -> (r: u32)
        ensures
            r == self.texture_offset,
    {
        self.texture_offset
    }

    /// How many bytes of the resource the pixels take.
    pub fn texture_size(&self) -> (r: u32)
        ensures
            r == self.texture_size,
    {
        self.texture_size
    }

    /// The bytes that `width * height` pixels of the format take, rounded
    /// up to a whole byte.
    pub fn required_size(&self) -> (r: usize)
        requires
            (self.width * self.height * self.format.spec_bits_per_pixel() + 7) / 8 <= usize::MAX,
        ensures
            r == (self.width * self.height * self.format.spec_bits_per_pixel() + 7) / 8,
    {
        let bits = self.format.bits_per_pixel() as u64;
        let w = self.width as u64;
        let h = self.height as u64;
        assert(w * h <= 0xffff * 0xffff) by (nonlinear_arith)
            requires
                w <= 0xffff,
                h <= 0xffff,
        ;
        let pixels = w * h;
        assert(pixels * bits <= 0xffff * 0xffff * 32) by (nonlinear_arith)
            requires
                pixels == self.width * self.height,
                bits <= 32,
                self.width <= 0xffff,
                self.height <= 0xffff,
        ;
        ((pixels * bits + 7) / 8) as usize
    }
}

impl AssetDescriptor for TextureDescriptor {
    open spec fn spec_asset_type() -> AssetType {
        AssetType::ResTexture
    }

    fn from_bytes(data: &[u8]) -> (r: Result<Self, AssetParseError>) {
        TextureDescriptor::read(data)
    }

    fn to_bytes(&self) -> (r: Result<Vec<u8>, AssetParseError>) {
        Ok(self.encode())
    }

    fn size(&self) -> (r: usize) {
        TEXTURE_DESCRIPTOR_SIZE
    }

    fn asset_type() -> (r: AssetType) {
        AssetType::ResTexture
    }
}

impl TextureDescriptor {
    /// Reads a descriptor from the first 28 bytes of `data`.
    pub fn read(data: &[u8]) -> (r: Result<Self, AssetParseError>)
        ensures
            match parse_texture_descriptor(data@) {
                Some(f) => r matches Ok(d) && d.fields() == f,
                None => r matches Err(AssetParseError::InputTooSmall),
            },
    {
        if data.len() < TEXTURE_DESCRIPTOR_SIZE {
            return Err(AssetParseError::InputTooSmall);
        }
        Ok(
            TextureDescriptor {
                format: texture_format_from_code(read_u32_le(data, 0)),
                header_size: read_u32_le(data, 4),
                width: read_u16_le(data, 8),
                height: read_u16_le(data, 10),
                flags: read_u32_le(data, 12),
                unknown_3a: read_u32_le(data, 16),
                texture_offset: read_u32_le(data, 20),
                texture_size: read_u32_le(data, 24),
            },
        )
    }

    /// The 28 bytes that store the descriptor.
    pub fn encode(&self) -> (r: Vec<u8>)
        ensures
            r@ == texture_descriptor_bytes(*self),
    {
        let mut bytes: Vec<u8> = Vec::new();
        push_u32_le(&mut bytes, texture_format_to_code(self.format));
        push_u32_le(&mut bytes, self.header_size);
        push_u16_le(&mut bytes, self.width);
        push_u16_le(&mut bytes, self.height);
        push_u32_le(&mut bytes, self.flags);
        push_u32_le(&mut bytes, self.unknown_3a);
        push_u32_le(&mut bytes, self.texture_offset);
        push_u32_le(&mut bytes, self.texture_size);
        bytes
    }
}

/// A texture: its name, descriptor and pixel bytes.
#[derive(Debug)]
pub struct Texture {
    name: String,
    descriptor: TextureDescriptor,
    data: Vec<u8>,
}

impl Texture {
    /// The texture's name.
    pub closed spec fn spec_name(&self) -> Seq<char> {
        self.name@
    }

    /// The texture's descriptor.
    pub closed spec fn spec_descriptor(&self) -> TextureDescriptor {
        self.descriptor
    }

    /// The pixel bytes.
    pub closed spec fn spec_data(&self) -> Seq<u8> {
        self.data@
    }

    /// The pixel bytes, as stored.
    pub fn data(&self) -> (r: &[u8])
        ensures
            r@ == self.spec_data(),
    {
        self.data.as_slice()
    }

    /// The texture of `descriptor` read from `virtual_res`: `texture_size`
    /// bytes from `texture_offset` on.
    pub fn build(name: &str, descriptor: &TextureDescriptor, virtual_res: &VirtualResource) -> (r:
        Result<Texture, AssetParseError>)
        requires
            virtual_res.wf(),
        ensures
            virtual_res.bytes().len() == 0 ==> r is Err,
            virtual_res.bytes().len() > 0 && descriptor.texture_offset + descriptor.texture_size
                <= virtual_res.bytes().len() ==> (r matches Ok(t) && t.spec_name() == name@ && t.spec_descriptor()
                == *descriptor && t.spec_data() == virtual_res.bytes().subrange(
                descriptor.texture_offset as int,
                descriptor.texture_offset + descriptor.texture_size,
            )),
            descriptor.texture_offset + descriptor.texture_size > virtual_res.bytes().len() ==> r is Err,
    {
        if virtual_res.is_empty() {
            return Err(
                AssetParseError::InvalidDataViews(
                    "Unable to create a Texture using 0 data views".to_string(),
                ),
            );
        }
        let offset = descriptor.texture_offset as usize;
        let size = descriptor.texture_size as usize;
        let bytes = match virtual_res.get_bytes(offset, size) {
            Ok(b) => b,
            Err(VirtualResourceError::OffsetOutOfBounds) => {
                return Err(
                    AssetParseError::InvalidDataViews(
                        "The texture offset is out of bounds for its resource.".to_string(),
                    ),
                );
            },
            Err(VirtualResourceError::SizeOutOfBounds) => {
                return Err(
                    AssetParseError::InvalidDataViews(
                        "The texture size reaches past the end of its resource.".to_string(),
                    ),
                );
            },
        };
        Ok(Texture { name: name.to_owned(), descriptor: *descriptor, data: bytes })
    }
}

impl Asset for Texture {
    type Descriptor = TextureDescriptor;

    fn descriptor(&self) -> (r: &TextureDescriptor) {
        &self.descriptor
    }

    fn new(name: &str, descriptor: &TextureDescriptor, virtual_res: &VirtualResource) -> (r: Result<
        Texture,
        AssetParseError,
    >) {
        Texture::build(name, descriptor, virtual_res)
    }

    fn resource_data(&self) -> (r: Vec<u8>) {
        let mut out: Vec<u8> = Vec::new();
        crate::resource::append_bytes(&mut out, self.data.as_slice());
        out
    }

    fn name(&self) -> (r: &str) {
        self.name.as_str()
    }
}

} // verus!
