use bnl::asset::model::subresources::SubTextureDescriptor;
use bnl::asset::model::{Model, ModelDescriptor, ModelSubresType};
use bnl::asset::{Asset, AssetDescriptor};
use bnl::d3d::{D3DFormat, StandardFormat};
use bnl::VirtualResource;

fn le32(v: &mut Vec<u8>, x: u32) {
    v.extend_from_slice(&x.to_le_bytes());
}

fn model_bytes(first_type: u32) -> Vec<u8> {
    let mut b = Vec::new();
    le32(&mut b, 8);
    le32(&mut b, 2);
    le32(&mut b, first_type);
    le32(&mut b, 24);
    le32(&mut b, 0);
    le32(&mut b, 5);
    le32(&mut b, 1);
    le32(&mut b, 32);
    le32(&mut b, 36);
    le32(&mut b, 0x0c);
    le32(&mut b, 0x1c);
    b.extend_from_slice(&[2, 0, 2, 0]);
    le32(&mut b, 0);
    le32(&mut b, 0);
    le32(&mut b, 1);
    le32(&mut b, 2);
    b
}

#[test]
fn model_descriptor_lists_textures() {
    let d = ModelDescriptor::from_bytes(&model_bytes(7)).unwrap();
    let textures = d.texture_descriptors();
    assert_eq!(textures.len(), 1);
    assert_eq!(textures[0].format, D3DFormat::Standard(StandardFormat::DXT1));
    assert_eq!(textures[0].texture_offset, 1);
    assert_eq!(textures[0].texture_size, 2);
    assert_eq!(d.size(), 24);
    assert!(d.to_bytes().is_err());

    let data: Vec<u8> = (0..10u8).collect();
    let slices = [&data[0..10]];
    let res = VirtualResource::from_slices(&slices);
    let m = Model::new("m", &d, &res).unwrap();
    let t = m.textures().unwrap();
    assert_eq!(t.len(), 1);
    assert_eq!(t[0].data(), &[1, 2]);
    assert_eq!(m.name(), "m");
}

#[test]
fn model_descriptor_without_textures() {
    let d = ModelDescriptor::from_bytes(&model_bytes(3)).unwrap();
    assert!(d.texture_descriptors().is_empty());
}

#[test]
fn model_descriptor_errors() {
    assert!(ModelDescriptor::from_bytes(&model_bytes(0x16)).is_err());
    assert!(ModelDescriptor::from_bytes(&model_bytes(7)[..20]).is_err());
    assert!(ModelDescriptor::from_bytes(&[8, 0, 0, 0]).is_err());
    let mut bad_list = model_bytes(7);
    bad_list[28..32].copy_from_slice(&100u32.to_le_bytes());
    assert!(ModelDescriptor::from_bytes(&bad_list).is_err());
}

#[test]
fn subresource_type_codes() {
    assert_eq!(ModelSubresType::from_u32(7), Some(ModelSubresType::Texture));
    assert_eq!(ModelSubresType::from_u32(0x15), Some(ModelSubresType::Unknown21));
    assert_eq!(ModelSubresType::from_u32(0x16), None);
    assert_eq!(ModelSubresType::Unknown10.to_u32(), 0x0a);
}

#[test]
fn sub_texture_descriptor_reads_size_at_28() {
    let mut b = vec![0u8; 32];
    b[0] = 0x0e;
    b[20] = 4;
    b[24] = 9;
    b[28] = 6;
    let d = SubTextureDescriptor::from_bytes(&b).unwrap();
    assert_eq!(d.texture_offset(), 4);
    assert_eq!(d.texture_size(), 6);
    let t = d.to_texture_descriptor();
    assert_eq!(t.format, D3DFormat::Standard(StandardFormat::DXT2Or3));
    assert_eq!(t.texture_size, 6);
    assert!(SubTextureDescriptor::from_bytes(&b[..31]).is_err());
}
