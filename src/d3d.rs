//! Direct3D surface formats and their sizes in bits per pixel.
use vstd::prelude::*;

verus! {

/// Formats whose pixels have a fixed size in bits.
pub trait PixelBits {
    /// The bits of one pixel.
    spec fn spec_bits_per_pixel(&self) -> nat;

    /// The bits of one pixel.
    fn bits_per_pixel(&self) -> (r: usize)
        ensures
            r == self.spec_bits_per_pixel(),
    ;
}

/// Linear (unswizzled) colour formats.
#[derive(Debug, Clone, Copy, PartialEq, Eq, Structural)]
pub enum LinearColour {
    A1R5G5B5,
    A4R4G4B4,
    A8,
    A8B8G8R8,
    A8R8G8B8,
    B8G8R8A8,
    G8B8,
    R4G4B4A4,
    R5G5B5A1,
    R5G6B5,
    R6G5B5,
    R8B8,
    R8G8B8A8,
    X1R5G5B5,
    X8R8G8B8,
}

impl LinearColour {
    /// The code of this format.
    pub open spec fn spec_code(&self) -> u32 {
        match self {
            LinearColour::A1R5G5B5 => 0x00000010,
            LinearColour::A4R4G4B4 => 0x0000001D,
            LinearColour::A8 => 0x0000001F,
            LinearColour::A8B8G8R8 => 0x0000003F,
            LinearColour::A8R8G8B8 => 0x00000012,
            LinearColour::B8G8R8A8 => 0x00000040,
            LinearColour::G8B8 => 0x00000017,
            LinearColour::R4G4B4A4 => 0x0000003E,
            LinearColour::R5G5B5A1 => 0x0000003D,
            LinearColour::R5G6B5 => 0x00000011,
            LinearColour::R6G5B5 => 0x00000037,
            LinearColour::R8B8 => 0x00000016,
            LinearColour::R8G8B8A8 => 0x00000041,
            LinearColour::X1R5G5B5 => 0x0000001C,
            LinearColour::X8R8G8B8 => 0x0000001E,
        }
    }

    /// The code of this format.
    pub fn to_u32(&self) -> (r: u32)
        ensures
            r == self.spec_code(),
    {
        match self {
            LinearColour::A1R5G5B5 => 0x00000010,
            LinearColour::A4R4G4B4 => 0x0000001D,
            LinearColour::A8 => 0x0000001F,
            LinearColour::A8B8G8R8 => 0x0000003F,
            LinearColour::A8R8G8B8 => 0x00000012,
            LinearColour::B8G8R8A8 => 0x00000040,
            LinearColour::G8B8 => 0x00000017,
            LinearColour::R4G4B4A4 => 0x0000003E,
            LinearColour::R5G5B5A1 => 0x0000003D,
            LinearColour::R5G6B5 => 0x00000011,
            LinearColour::R6G5B5 => 0x00000037,
            LinearColour::R8B8 => 0x00000016,
            LinearColour::R8G8B8A8 => 0x00000041,
            LinearColour::X1R5G5B5 => 0x0000001C,
            LinearColour::X8R8G8B8 => 0x0000001E,
        }
    }
}

impl PixelBits for LinearColour {
    open spec fn spec_bits_per_pixel(&self) -> nat {
        match self {
            LinearColour::A1R5G5B5 => 16,
            LinearColour::A4R4G4B4 => 16,
            LinearColour::A8 => 8,
            LinearColour::A8B8G8R8 => 32,
            LinearColour::A8R8G8B8 => 32,
            LinearColour::B8G8R8A8 => 32,
            LinearColour::G8B8 => 16,
            LinearColour::R4G4B4A4 => 16,
            LinearColour::R5G5B5A1 => 16,
            LinearColour::R5G6B5 => 16,
            LinearColour::R6G5B5 => 16,
            LinearColour::R8B8 => 16,
            LinearColour::R8G8B8A8 => 32,
            LinearColour::X1R5G5B5 => 16,
            LinearColour::X8R8G8B8 => 32,
        }
    }

    fn bits_per_pixel(&self) -> (r: usize) {
        match self {
            LinearColour::A1R5G5B5 => 16,
            LinearColour::A4R4G4B4 => 16,
            LinearColour::A8 => 8,
            LinearColour::A8B8G8R8 => 32,
            LinearColour::A8R8G8B8 => 32,
            LinearColour::B8G8R8A8 => 32,
            LinearColour::G8B8 => 16,
            LinearColour::R4G4B4A4 => 16,
            LinearColour::R5G5B5A1 => 16,
            LinearColour::R5G6B5 => 16,
            LinearColour::R6G5B5 => 16,
            LinearColour::R8B8 => 16,
            LinearColour::R8G8B8A8 => 32,
            LinearColour::X1R5G5B5 => 16,
            LinearColour::X8R8G8B8 => 32,
        }
    }
}

/// Linear luminance, bump-map and depth formats.
#[derive(Debug, Clone, Copy, PartialEq, Eq, Structural)]
pub enum LinearLuminance {
    A8L8,
    AL8,
    L16,
    L8,
    V16U16,
    V8U8,
    L6V5U5,
    X8L8V8U8,
    Q8W8V8U8,
    D24S8,
    F24S8,
    D16,
    F16,
}

impl LinearLuminance {
    /// The code of this format.
    pub open spec fn spec_code(&self) -> u32 {
        match self {
            LinearLuminance::A8L8 => 0x00000020,
            LinearLuminance::AL8 => 0x0000001B,
            LinearLuminance::L16 => 0x00000035,
            LinearLuminance::L8 => 0x00000013,
            LinearLuminance::V16U16 => 0x00000036,
            LinearLuminance::V8U8 => 0x00000017,
            LinearLuminance::L6V5U5 => 0x00000037,
            LinearLuminance::X8L8V8U8 => 0x0000001E,
            LinearLuminance::Q8W8V8U8 => 0x00000012,
            LinearLuminance::D24S8 => 0x0000002E,
            LinearLuminance::F24S8 => 0x0000002F,
            LinearLuminance::D16 => 0x00000030,
            LinearLuminance::F16 => 0x00000031,
        }
    }

    /// The code of this format.
    pub fn to_u32(&self) -> (r: u32)
        ensures
            r == self.spec_code(),
    {
        match self {
            LinearLuminance::A8L8 => 0x00000020,
            LinearLuminance::AL8 => 0x0000001B,
            LinearLuminance::L16 => 0x00000035,
            LinearLuminance::L8 => 0x00000013,
            LinearLuminance::V16U16 => 0x00000036,
            LinearLuminance::V8U8 => 0x00000017,
            LinearLuminance::L6V5U5 => 0x00000037,
            LinearLuminance::X8L8V8U8 => 0x0000001E,
            LinearLuminance::Q8W8V8U8 => 0x00000012,
            LinearLuminance::D24S8 => 0x0000002E,
            LinearLuminance::F24S8 => 0x0000002F,
            LinearLuminance::D16 => 0x00000030,
            LinearLuminance::F16 => 0x00000031,
        }
    }
}

impl PixelBits for LinearLuminance {
    open spec fn spec_bits_per_pixel(&self) -> nat {
        match self {
            LinearLuminance::A8L8 => 16,
            LinearLuminance::AL8 => 16,
            LinearLuminance::L16 => 16,
            LinearLuminance::L8 => 8,
            LinearLuminance::V16U16 => 32,
            LinearLuminance::V8U8 => 16,
            LinearLuminance::L6V5U5 => 16,
            LinearLuminance::X8L8V8U8 => 32,
            LinearLuminance::Q8W8V8U8 => 32,
            LinearLuminance::D24S8 => 32,
            LinearLuminance::F24S8 => 32,
            LinearLuminance::D16 => 16,
            LinearLuminance::F16 => 16,
        }
    }

    fn bits_per_pixel(&self) -> (r: usize) {
        match self {
            LinearLuminance::A8L8 => 16,
            LinearLuminance::AL8 => 16,
            LinearLuminance::L16 => 16,
            LinearLuminance::L8 => 8,
            LinearLuminance::V16U16 => 32,
            LinearLuminance::V8U8 => 16,
            LinearLuminance::L6V5U5 => 16,
            LinearLuminance::X8L8V8U8 => 32,
            LinearLuminance::Q8W8V8U8 => 32,
            LinearLuminance::D24S8 => 32,
            LinearLuminance::F24S8 => 32,
            LinearLuminance::D16 => 16,
            LinearLuminance::F16 => 16,
        }
    }
}

/// Swizzled colour formats.
#[derive(Debug, Clone, Copy, PartialEq, Eq, Structural)]
pub enum Swizzled {
    A8R8G8B8,
    X8R8G8B8,
    R5G6B5,
    R6G5B5,
    X1R5G5B5,
    A1R5G5B5,
    A4R4G4B4,
    A8,
    A8B8G8R8,
    B8G8R8A8,
    R4G4B4A4,
    R5G5B5A1,
    R8G8B8A8,
    R8B8,
    G8B8,
}

impl Swizzled {
    /// The code of this format.
    pub open spec fn spec_code(&self) -> u32 {
        match self {
            Swizzled::A8R8G8B8 => 0x00000006,
            Swizzled::X8R8G8B8 => 0x00000007,
            Swizzled::R5G6B5 => 0x00000005,
            Swizzled::R6G5B5 => 0x00000027,
            Swizzled::X1R5G5B5 => 0x00000003,
            Swizzled::A1R5G5B5 => 0x00000002,
            Swizzled::A4R4G4B4 => 0x00000004,
            Swizzled::A8 => 0x00000019,
            Swizzled::A8B8G8R8 => 0x0000003A,
            Swizzled::B8G8R8A8 => 0x0000003B,
            Swizzled::R4G4B4A4 => 0x00000039,
            Swizzled::R5G5B5A1 => 0x00000038,
            Swizzled::R8G8B8A8 => 0x0000003C,
            Swizzled::R8B8 => 0x00000029,
            Swizzled::G8B8 => 0x00000028,
        }
    }

    /// The code of this format.
    pub fn to_u32(&self) -> (r: u32)
        ensures
            r == self.spec_code(),
    {
        match self {
            Swizzled::A8R8G8B8 => 0x00000006,
            Swizzled::X8R8G8B8 => 0x00000007,
            Swizzled::R5G6B5 => 0x00000005,
            Swizzled::R6G5B5 => 0x00000027,
            Swizzled::X1R5G5B5 => 0x00000003,
            Swizzled::A1R5G5B5 => 0x00000002,
            Swizzled::A4R4G4B4 => 0x00000004,
            Swizzled::A8 => 0x00000019,
            Swizzled::A8B8G8R8 => 0x0000003A,
            Swizzled::B8G8R8A8 => 0x0000003B,
            Swizzled::R4G4B4A4 => 0x00000039,
            Swizzled::R5G5B5A1 => 0x00000038,
            Swizzled::R8G8B8A8 => 0x0000003C,
            Swizzled::R8B8 => 0x00000029,
            Swizzled::G8B8 => 0x00000028,
        }
    }
}

impl PixelBits for Swizzled {
    open spec fn spec_bits_per_pixel(&self) -> nat {
        match self {
            Swizzled::A8R8G8B8 => 32,
            Swizzled::X8R8G8B8 => 32,
            Swizzled::R5G6B5 => 16,
            Swizzled::R6G5B5 => 16,
            Swizzled::X1R5G5B5 => 16,
            Swizzled::A1R5G5B5 => 16,
            Swizzled::A4R4G4B4 => 16,
            Swizzled::A8 => 8,
            Swizzled::A8B8G8R8 => 32,
            Swizzled::B8G8R8A8 => 32,
            Swizzled::R4G4B4A4 => 16,
            Swizzled::R5G5B5A1 => 16,
            Swizzled::R8G8B8A8 => 32,
            Swizzled::R8B8 => 16,
            Swizzled::G8B8 => 16,
        }
    }

    fn bits_per_pixel(&self) -> (r: usize) {
        match self {
            Swizzled::A8R8G8B8 => 32,
            Swizzled::X8R8G8B8 => 32,
            Swizzled::R5G6B5 => 16,
            Swizzled::R6G5B5 => 16,
            Swizzled::X1R5G5B5 => 16,
            Swizzled::A1R5G5B5 => 16,
            Swizzled::A4R4G4B4 => 16,
            Swizzled::A8 => 8,
            Swizzled::A8B8G8R8 => 32,
            Swizzled::B8G8R8A8 => 32,
            Swizzled::R4G4B4A4 => 16,
            Swizzled::R5G5B5A1 => 16,
            Swizzled::R8G8B8A8 => 32,
            Swizzled::R8B8 => 16,
            Swizzled::G8B8 => 16,
        }
    }
}

/// Formats shared by linear and swizzled layouts, compressed formats among them.
#[derive(Debug, Clone, Copy, PartialEq, Eq, Structural)]
pub enum StandardFormat {
    Unknown,
    P8,
    L8,
    A8L8,
    AL8,
    L16,
    V8U8,
    L6V5U5,
    X8L8V8U8,
    Q8W8V8U8,
    V16U16,
    D16,
    D24S8,
    F16,
    F24S8,
    YUY2,
    UYVY,
    DXT1,
    DXT2Or3,
    DXT4Or5,
}

impl StandardFormat {
    /// The code of this format.
    pub open spec fn spec_code(&self) -> u32 {
        match self {
            StandardFormat::Unknown => 0xFFFFFFFF,
            StandardFormat::P8 => 0x0000000B,
            StandardFormat::L8 => 0x00000000,
            StandardFormat::A8L8 => 0x0000001A,
            StandardFormat::AL8 => 0x00000001,
            StandardFormat::L16 => 0x00000032,
            StandardFormat::V8U8 => 0x00000028,
            StandardFormat::L6V5U5 => 0x00000027,
            StandardFormat::X8L8V8U8 => 0x00000007,
            StandardFormat::Q8W8V8U8 => 0x0000003A,
            StandardFormat::V16U16 => 0x00000033,
            StandardFormat::D16 => 0x0000002C,
            StandardFormat::D24S8 => 0x0000002A,
            StandardFormat::F16 => 0x0000002D,
            StandardFormat::F24S8 => 0x0000002B,
            StandardFormat::YUY2 => 0x00000024,
            StandardFormat::UYVY => 0x00000025,
            StandardFormat::DXT1 => 0x0000000C,
            StandardFormat::DXT2Or3 => 0x0000000E,
            StandardFormat::DXT4Or5 => 0x0000000F,
        }
    }

    /// The code of this format.
    pub fn to_u32(&self) -> (r: u32)
        ensures
            r == self.spec_code(),
    {
        match self {
            StandardFormat::Unknown => 0xFFFFFFFF,
            StandardFormat::P8 => 0x0000000B,
            StandardFormat::L8 => 0x00000000,
            StandardFormat::A8L8 => 0x0000001A,
            StandardFormat::AL8 => 0x00000001,
            StandardFormat::L16 => 0x00000032,
            StandardFormat::V8U8 => 0x00000028,
            StandardFormat::L6V5U5 => 0x00000027,
            StandardFormat::X8L8V8U8 => 0x00000007,
            StandardFormat::Q8W8V8U8 => 0x0000003A,
            StandardFormat::V16U16 => 0x00000033,
            StandardFormat::D16 => 0x0000002C,
            StandardFormat::D24S8 => 0x0000002A,
            StandardFormat::F16 => 0x0000002D,
            StandardFormat::F24S8 => 0x0000002B,
            StandardFormat::YUY2 => 0x00000024,
            StandardFormat::UYVY => 0x00000025,
            StandardFormat::DXT1 => 0x0000000C,
            StandardFormat::DXT2Or3 => 0x0000000E,
            StandardFormat::DXT4Or5 => 0x0000000F,
        }
    }
}

impl PixelBits for StandardFormat {
    open spec fn spec_bits_per_pixel(&self) -> nat {
        match self {
            StandardFormat::Unknown => 0,
            StandardFormat::P8 => 8,
            StandardFormat::L8 => 8,
            StandardFormat::A8L8 => 8,
            StandardFormat::AL8 => 8,
            StandardFormat::L16 => 16,
            StandardFormat::V8U8 => 16,
            StandardFormat::L6V5U5 => 16,
            StandardFormat::X8L8V8U8 => 32,
            StandardFormat::Q8W8V8U8 => 32,
            StandardFormat::V16U16 => 32,
            StandardFormat::D16 => 16,
            StandardFormat::D24S8 => 32,
            StandardFormat::F16 => 16,
            StandardFormat::F24S8 => 32,
            StandardFormat::YUY2 => 16,
            StandardFormat::UYVY => 16,
            StandardFormat::DXT1 => 4,
            StandardFormat::DXT2Or3 => 8,
            StandardFormat::DXT4Or5 => 8,
        }
    }

    fn bits_per_pixel(&self) -> (r: usize) {
        match self {
            StandardFormat::Unknown => 0,
            StandardFormat::P8 => 8,
            StandardFormat::L8 => 8,
            StandardFormat::A8L8 => 8,
            StandardFormat::AL8 => 8,
            StandardFormat::L16 => 16,
            StandardFormat::V8U8 => 16,
            StandardFormat::L6V5U5 => 16,
            StandardFormat::X8L8V8U8 => 32,
            StandardFormat::Q8W8V8U8 => 32,
            StandardFormat::V16U16 => 32,
            StandardFormat::D16 => 16,
            StandardFormat::D24S8 => 32,
            StandardFormat::F16 => 16,
            StandardFormat::F24S8 => 32,
            StandardFormat::YUY2 => 16,
            StandardFormat::UYVY => 16,
            StandardFormat::DXT1 => 4,
            StandardFormat::DXT2Or3 => 8,
            StandardFormat::DXT4Or5 => 8,
        }
    }
}

/// A surface format: one of the format families, or one of the
/// non-pixel formats.
#[derive(Debug, Clone, Copy, PartialEq, Eq, Structural)]
pub enum D3DFormat {
    Swizzled(Swizzled),
    Luminance(LinearLuminance),
    Standard(StandardFormat),
    Linear(LinearColour),
    VertexData,
    Index16,
    ForceDWORD,
}

impl D3DFormat {
    /// The code of this format.
    pub open spec fn spec_code(&self) -> u32 {
        match self {
            D3DFormat::Swizzled(v) => v.spec_code(),
            D3DFormat::Luminance(v) => v.spec_code(),
            D3DFormat::Standard(v) => v.spec_code(),
            D3DFormat::Linear(v) => v.spec_code(),
            D3DFormat::VertexData => 100,
            D3DFormat::Index16 => 101,
            D3DFormat::ForceDWORD => 0x7fffffff,
        }
    }

    /// The code of this format.
    pub fn to_u32(&self) -> (r: u32)
        ensures
            r == self.spec_code(),
    {
        match self {
            D3DFormat::Swizzled(v) => v.to_u32(),
            D3DFormat::Luminance(v) => v.to_u32(),
            D3DFormat::Standard(v) => v.to_u32(),
            D3DFormat::Linear(v) => v.to_u32(),
            D3DFormat::VertexData => 100,
            D3DFormat::Index16 => 101,
            D3DFormat::ForceDWORD => 0x7fffffff,
        }
    }
}

impl PixelBits for D3DFormat {
    open spec fn spec_bits_per_pixel(&self) -> nat {
        match self {
            D3DFormat::Swizzled(f) => f.spec_bits_per_pixel(),
            D3DFormat::Linear(f) => f.spec_bits_per_pixel(),
            D3DFormat::Standard(f) => f.spec_bits_per_pixel(),
            D3DFormat::Luminance(f) => f.spec_bits_per_pixel(),
            D3DFormat::Index16 => 16,
            D3DFormat::VertexData => 0,
            D3DFormat::ForceDWORD => 0,
        }
    }

    fn bits_per_pixel(&self) -> (r: usize) {
        match self {
            D3DFormat::Swizzled(f) => f.bits_per_pixel(),
            D3DFormat::Linear(f) => f.bits_per_pixel(),
            D3DFormat::Standard(f) => f.bits_per_pixel(),
            D3DFormat::Luminance(f) => f.bits_per_pixel(),
            D3DFormat::Index16 => 16,
            D3DFormat::VertexData => 0,
            D3DFormat::ForceDWORD => 0,
        }
    }
}

} // verus!
