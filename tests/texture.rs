use bnl::asset::texture::{Texture, TextureDescriptor};
use bnl::asset::{Asset, AssetDescriptor};
use bnl::d3d::{D3DFormat, LinearColour, PixelBits, StandardFormat, Swizzled};
use bnl::VirtualResource;

#[test]
fn from_bytes_non_zero_offset() {
    let data: [u8; 0x1C] = [
        0x0C, 0x00, 0x00, 0x00, // DXT1
        0x1C, 0x00, 0x00, 0x00, // Header size
        0x80, 0x00, // 0x80 wide
        0x80, 0x00, // 0x80 high
        0x00, 0x00, 0x00, 0x08, // Flags
        0x00, 0x01, 0x00, 0x00, // Unknown
        0x00, 0x52, 0x01, 0x00, // Offset
        0x00, 0x2B, 0x00, 0x00, // Size
    ];

    let tex_desc = TextureDescriptor::from_bytes(&data).unwrap();
    assert_eq!(tex_desc.format, D3DFormat::Standard(StandardFormat::DXT1));
    assert_eq!(tex_desc.header_size, 0x1c);
    assert_eq!(tex_desc.width, 0x80);
    assert_eq!(tex_desc.height, 0x80);
    assert_eq!(tex_desc.texture_offset, 0x15200);
    assert_eq!(tex_desc.texture_size, 0x2b00);
}

#[test]
fn from_bytes_zero_offset() {
    let data: [u8; 0x1C] = [
        0x0C, 0x00, 0x00, 0x00, // DXT1
        0x1C, 0x00, 0x00, 0x00, // Header size
        0x80, 0x00, // 0x80 wide
        0x80, 0x00, // 0x80 high
        0x00, 0x00, 0x00, 0x08, // Flags
        0x00, 0x01, 0x00, 0x00, // Unknown
        0x00, 0x00, 0x00, 0x00, // Offset
        0x00, 0x2B, 0x00, 0x00, // Size
    ];

    let tex_desc = TextureDescriptor::from_bytes(&data).unwrap();
    assert_eq!(tex_desc.format, D3DFormat::Standard(StandardFormat::DXT1));
    assert_eq!(tex_desc.header_size, 0x1c);
    assert_eq!(tex_desc.width, 0x80);
    assert_eq!(tex_desc.height, 0x80);
    assert_eq!(tex_desc.texture_offset, 0);
    assert_eq!(tex_desc.texture_size, 0x2b00);
}

#[test]
fn texture_descriptor_too_small() {
    assert!(TextureDescriptor::from_bytes(&[0u8; 27]).is_err());
}

#[test]
fn texture_descriptor_unknown_format_reads_as_a8r8g8b8() {
    let mut data = [0u8; 28];
    data[0] = 0x99;
    let d = TextureDescriptor::from_bytes(&data).unwrap();
    assert_eq!(d.format(), D3DFormat::Linear(LinearColour::A8R8G8B8));
    data[0] = 0x12;
    let d = TextureDescriptor::from_bytes(&data).unwrap();
    assert_eq!(d.format(), D3DFormat::Swizzled(Swizzled::B8G8R8A8));
}

#[test]
fn texture_descriptor_round_trip() {
    let d = TextureDescriptor::new(D3DFormat::Standard(StandardFormat::DXT2Or3), 0x1c, 16, 8, 1, 2, 3, 4);
    let bytes = d.to_bytes().unwrap();
    assert_eq!(bytes.len(), d.size());
    assert_eq!(bytes[0..4], [0x0e, 0, 0, 0]);
    assert_eq!(bytes[8..12], [16, 0, 8, 0]);
    assert_eq!(TextureDescriptor::from_bytes(&bytes).unwrap(), d);
}

#[test]
fn required_size_rounds_up() {
    let d = TextureDescriptor::new(D3DFormat::Standard(StandardFormat::DXT1), 0x1c, 3, 3, 0, 0, 0, 0);
    assert_eq!(d.required_size(), 5);
    let d = TextureDescriptor::new(D3DFormat::Linear(LinearColour::A8R8G8B8), 0x1c, 4, 2, 0, 0, 0, 0);
    assert_eq!(d.required_size(), 32);
}

#[test]
fn bits_per_pixel_by_family() {
    assert_eq!(D3DFormat::Standard(StandardFormat::DXT1).bits_per_pixel(), 4);
    assert_eq!(D3DFormat::Swizzled(Swizzled::R5G6B5).bits_per_pixel(), 16);
    assert_eq!(D3DFormat::Linear(LinearColour::A8).bits_per_pixel(), 8);
    assert_eq!(D3DFormat::Index16.bits_per_pixel(), 16);
    assert_eq!(D3DFormat::VertexData.bits_per_pixel(), 0);
    assert_eq!(D3DFormat::Linear(LinearColour::R8G8B8A8).to_u32(), 0x41);
    assert_eq!(D3DFormat::ForceDWORD.to_u32(), 0x7fffffff);
}

#[test]
fn texture_reads_its_range_of_the_resource() {
    let data: Vec<u8> = (0..20u8).collect();
    let slices = [&data[0..5], &data[10..15]];
    let res = VirtualResource::from_slices(&slices);
    let d = TextureDescriptor::new(D3DFormat::Linear(LinearColour::A8), 0x1c, 2, 2, 0, 0, 3, 4);
    let t = Texture::new("t", &d, &res).unwrap();
    assert_eq!(t.data(), &[3, 4, 10, 11]);
    assert_eq!(t.name(), "t");
    assert_eq!(t.resource_data(), vec![3, 4, 10, 11]);
    let too_far = TextureDescriptor::new(D3DFormat::Linear(LinearColour::A8), 0x1c, 2, 2, 0, 0, 8, 3);
    assert!(Texture::new("t", &too_far, &res).is_err());
    let empty: [&[u8]; 0] = [];
    let none = VirtualResource::from_slices(&empty);
    assert!(Texture::new("t", &d, &none).is_err());
}
