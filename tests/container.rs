use bnl::asset::script::{Script, ScriptDescriptor};
use bnl::asset::texture::{Texture, TextureDescriptor};
use bnl::asset::{Asset, AssetDescriptor, AssetError};
use bnl::game::AssetType;
use bnl::bnl::keep_built;
use bnl::{BNLError, BNLFile};

fn le32(v: &mut Vec<u8>, x: u32) {
    v.extend_from_slice(&x.to_le_bytes());
}

fn record(name: &str, ty: u32, desc_ptr: u32, desc_size: u32, list_ptr: u32, res_size: u32) -> Vec<u8> {
    let mut r = vec![0u8; 128];
    r[..name.len()].copy_from_slice(name.as_bytes());
    le32(&mut r, ty);
    le32(&mut r, 0x11);
    le32(&mut r, 0x22);
    le32(&mut r, 1);
    le32(&mut r, desc_ptr);
    le32(&mut r, desc_size);
    le32(&mut r, list_ptr);
    le32(&mut r, res_size);
    r
}

fn view_list(views: &[(u32, u32)]) -> Vec<u8> {
    let mut b = Vec::new();
    le32(&mut b, views.len() as u32 * 8 + 8);
    le32(&mut b, views.len() as u32);
    for (o, s) in views {
        le32(&mut b, *o);
        le32(&mut b, *s);
    }
    b
}

fn texture_descriptor(offset: u32, size: u32) -> Vec<u8> {
    let mut d = Vec::new();
    le32(&mut d, 0x0c);
    le32(&mut d, 0x1c);
    d.extend_from_slice(&[4, 0, 2, 0]);
    le32(&mut d, 1);
    le32(&mut d, 0);
    le32(&mut d, offset);
    le32(&mut d, size);
    d
}

fn script_descriptor() -> Vec<u8> {
    let mut d = Vec::new();
    le32(&mut d, 12);
    le32(&mut d, 0x1a);
    d.extend_from_slice(&[1, 2, 3, 4]);
    le32(&mut d, 8);
    le32(&mut d, 0);
    d
}

fn sections_to_file(records: &[Vec<u8>], views: &[u8], buffer: &[u8], descs: &[u8], level: u8) -> Vec<u8> {
    let ad: Vec<u8> = records.concat();
    let mut out = Vec::new();
    out.extend_from_slice(&(records.len() as u16).to_le_bytes());
    out.push(0);
    out.extend_from_slice(&[9, 8, 7, 6, 5]);
    let mut at = 40u32;
    for len in [ad.len(), views.len(), buffer.len(), descs.len()] {
        le32(&mut out, at);
        le32(&mut out, len as u32);
        at += len as u32;
    }
    let mut body = ad.clone();
    body.extend_from_slice(views);
    body.extend_from_slice(buffer);
    body.extend_from_slice(descs);
    out.extend_from_slice(&miniz_oxide::deflate::compress_to_vec_zlib(&body, level));
    out
}

struct Fixture {
    bytes: Vec<u8>,
    buffer: Vec<u8>,
}

// Rows: a texture, a script, a texture whose descriptor is cut short by the
// end of the section, and a record whose view list lies outside its section.
fn fixture() -> Fixture {
    let mut views = view_list(&[(0, 4), (10, 4)]);
    views.extend_from_slice(&view_list(&[(20, 6)]));
    let buffer: Vec<u8> = (0..32u8).map(|i| i * 3).collect();
    let mut descs = texture_descriptor(0, 8);
    descs.extend_from_slice(&script_descriptor());
    descs.extend_from_slice(&texture_descriptor(0, 8)[..10]);
    let records = vec![
        record("tex_a", 1, 0, 28, 0, 8),
        record("script_b", 24, 28, 20, 24, 6),
        record("tex_cut", 1, 48, 10, 0, 8),
        record("broken", 10, 0, 4, 1000, 0),
    ];
    let bytes = sections_to_file(&records, &views, &buffer, &descs, 6);
    Fixture { bytes, buffer }
}

#[test]
fn parses_records_in_order() {
    let f = fixture();
    let bnl = BNLFile::from_bytes(&f.bytes).unwrap();
    let names: Vec<String> = bnl.asset_descriptions().iter().map(|d| d.name()).collect();
    assert_eq!(names, vec!["tex_a", "script_b", "tex_cut", "broken"]);
    let d = &bnl.asset_descriptions()[1];
    assert_eq!(d.asset_type(), AssetType::ResScript);
    assert_eq!(d.descriptor_ptr(), 28);
    assert_eq!(d.descriptor_size(), 20);
    assert_eq!(d.bufferview_list_ptr(), 24);
    assert_eq!(d.resource_size(), 6);
    assert!(d.has_raw_data());
    assert_eq!(d.unk_1(), 0x11);
    assert_eq!(d.index(), 1);
}

#[test]
fn raw_asset_by_name() {
    let f = fixture();
    let bnl = BNLFile::from_bytes(&f.bytes).unwrap();
    let raw = bnl.get_raw_asset("tex_a").unwrap();
    assert_eq!(raw.name, "tex_a");
    assert_eq!(raw.asset_type, AssetType::ResTexture);
    assert_eq!(raw.descriptor_bytes, texture_descriptor(0, 8));
    assert_eq!(raw.data_slices, vec![f.buffer[0..4].to_vec(), f.buffer[10..14].to_vec()]);
    assert!(matches!(bnl.get_raw_asset("missing"), Err(AssetError::NotFound)));
    assert!(matches!(bnl.get_raw_asset("broken"), Err(AssetError::ParseError(_))));
}

#[test]
fn raw_assets_skip_unreadable_records() {
    let f = fixture();
    let bnl = BNLFile::from_bytes(&f.bytes).unwrap();
    let raws = bnl.get_raw_assets();
    let names: Vec<&str> = raws.iter().map(|r| r.name.as_str()).collect();
    assert_eq!(names, vec!["tex_a", "script_b", "tex_cut"]);
    assert_eq!(raws[1].data_slices, vec![f.buffer[20..26].to_vec()]);
}

#[test]
fn typed_asset_by_name() {
    let f = fixture();
    let bnl = BNLFile::from_bytes(&f.bytes).unwrap();
    let tex: Texture = bnl.get_asset("tex_a").unwrap();
    assert_eq!(tex.name(), "tex_a");
    assert_eq!(tex.data(), &[0, 3, 6, 9, 30, 33, 36, 39]);
    assert_eq!(tex.descriptor().width, 4);
    let script: Script = bnl.get_asset("script_b").unwrap();
    assert_eq!(script.resource_data(), f.buffer[20..26].to_vec());
    assert_eq!(script.descriptor().operations().len(), 2);
    assert!(matches!(bnl.get_asset::<Texture>("script_b"), Err(AssetError::TypeMismatch)));
    assert!(matches!(bnl.get_asset::<Texture>("nope"), Err(AssetError::NotFound)));
    assert!(matches!(bnl.get_asset::<Texture>("tex_cut"), Err(AssetError::ParseError(_))));
}

#[test]
fn typed_assets_skip_truncated_descriptor() {
    let f = fixture();
    let bnl = BNLFile::from_bytes(&f.bytes).unwrap();
    let textures = bnl.get_assets::<Texture>();
    assert_eq!(textures.len(), 1);
    assert_eq!(textures[0].name(), "tex_a");
    let scripts = bnl.get_assets::<Script>();
    assert_eq!(scripts.len(), 1);
}

#[test]
fn descriptor_by_name() {
    let f = fixture();
    let bnl = BNLFile::from_bytes(&f.bytes).unwrap();
    let d: ScriptDescriptor = bnl.get_descriptor("script_b").unwrap();
    assert_eq!(d.to_bytes().unwrap(), script_descriptor());
    assert_eq!(d.size(), 20);
    assert!(matches!(bnl.get_descriptor::<TextureDescriptor>("script_b"), Err(AssetError::TypeMismatch)));
}

#[test]
fn round_trip_through_bytes() {
    let f = fixture();
    let bnl = BNLFile::from_bytes(&f.bytes).unwrap();
    let again = BNLFile::from_bytes(&bnl.to_bytes()).unwrap();
    assert_eq!(again.to_bytes(), bnl.to_bytes());
    assert_eq!(again.get_raw_assets().len(), 3);
    let a = again.get_raw_asset("script_b").unwrap();
    let b = bnl.get_raw_asset("script_b").unwrap();
    assert_eq!(a.descriptor_bytes, b.descriptor_bytes);
    assert_eq!(a.data_slices, b.data_slices);
    assert_eq!(bnl.to_bytes()[..40], f.bytes[..40]);
}

#[test]
fn update_resource_writes_in_place() {
    let f = fixture();
    let mut bnl = BNLFile::from_bytes(&f.bytes).unwrap();
    bnl.update_resource("tex_a", AssetType::ResTexture, &[1, 2, 3, 4, 5, 6, 7, 8]).unwrap();
    let raw = bnl.get_raw_asset("tex_a").unwrap();
    assert_eq!(raw.data_slices, vec![vec![1, 2, 3, 4], vec![5, 6, 7, 8]]);
    let again = BNLFile::from_bytes(&bnl.to_bytes()).unwrap();
    assert_eq!(again.get_raw_asset("tex_a").unwrap().data_slices, raw.data_slices);
}

#[test]
fn update_resource_rejects_other_sizes() {
    let f = fixture();
    let mut bnl = BNLFile::from_bytes(&f.bytes).unwrap();
    let before = bnl.to_bytes();
    assert!(matches!(
        bnl.update_resource("tex_a", AssetType::ResTexture, &[1, 2, 3]),
        Err(AssetError::SizeMismatch)
    ));
    assert!(matches!(
        bnl.update_resource("tex_a", AssetType::ResScript, &[0; 8]),
        Err(AssetError::TypeMismatch)
    ));
    assert!(matches!(bnl.update_resource("nope", AssetType::ResTexture, &[]), Err(AssetError::NotFound)));
    assert_eq!(bnl.to_bytes(), before);
}

#[test]
fn update_asset_from_typed_asset() {
    let f = fixture();
    let mut bnl = BNLFile::from_bytes(&f.bytes).unwrap();
    let script: Script = bnl.get_asset("script_b").unwrap();
    bnl.update_asset("script_b", &script).unwrap();
    assert_eq!(bnl.get_raw_asset("script_b").unwrap().data_slices, vec![f.buffer[20..26].to_vec()]);
    assert!(matches!(bnl.update_asset("tex_a", &script), Err(AssetError::TypeMismatch)));
}

#[test]
fn update_descriptor_shrinks_in_place() {
    let f = fixture();
    let mut bnl = BNLFile::from_bytes(&f.bytes).unwrap();
    let new_desc = vec![8, 0, 0, 0, 0, 0, 0, 0];
    bnl.update_descriptor("script_b", AssetType::ResScript, &new_desc, Some(&[9, 9, 9, 9, 9, 9])).unwrap();
    let d = bnl.get_asset_description("script_b").unwrap();
    assert_eq!(d.descriptor_size(), 8);
    let raw = bnl.get_raw_asset("script_b").unwrap();
    assert_eq!(raw.descriptor_bytes, new_desc);
    assert_eq!(raw.data_slices, vec![vec![9; 6]]);
    let again = BNLFile::from_bytes(&bnl.to_bytes()).unwrap();
    assert_eq!(again.get_asset_description("script_b").unwrap().descriptor_size(), 8);
    assert_eq!(again.get_raw_asset("script_b").unwrap().descriptor_bytes, new_desc);
}

#[test]
fn update_descriptor_growth_is_rejected() {
    let f = fixture();
    let mut bnl = BNLFile::from_bytes(&f.bytes).unwrap();
    let before = bnl.get_raw_asset("script_b").unwrap().descriptor_bytes;
    let all_before = bnl.to_bytes();
    let bigger = vec![0u8; 21];
    assert!(matches!(
        bnl.update_descriptor("script_b", AssetType::ResScript, &bigger, None),
        Err(AssetError::DescriptorGrowthUnsupported)
    ));
    assert_eq!(bnl.get_raw_asset("script_b").unwrap().descriptor_bytes, before);
    assert_eq!(bnl.to_bytes(), all_before);
}

#[test]
fn update_descriptor_checks_resource_first() {
    let f = fixture();
    let mut bnl = BNLFile::from_bytes(&f.bytes).unwrap();
    let all_before = bnl.to_bytes();
    assert!(matches!(
        bnl.update_descriptor("script_b", AssetType::ResScript, &[8, 0, 0, 0, 0, 0, 0, 0], Some(&[1, 2])),
        Err(AssetError::SizeMismatch)
    ));
    assert_eq!(bnl.to_bytes(), all_before);
}

#[test]
fn update_from_codec_descriptor() {
    let f = fixture();
    let mut bnl = BNLFile::from_bytes(&f.bytes).unwrap();
    let desc: TextureDescriptor = bnl.get_descriptor("tex_a").unwrap();
    let changed = TextureDescriptor::new(desc.format, desc.header_size, 2, 2, desc.flags, desc.unknown_3a, 4, 4);
    bnl.update_asset_from_descriptor("tex_a", &changed, None).unwrap();
    let tex: Texture = bnl.get_asset("tex_a").unwrap();
    assert_eq!(tex.data(), &[30, 33, 36, 39]);
    assert!(matches!(
        bnl.update_asset_from_descriptor("script_b", &changed, None),
        Err(AssetError::TypeMismatch)
    ));
}

#[test]
fn update_record_rewrites_its_row() {
    let f = fixture();
    let mut bnl = BNLFile::from_bytes(&f.bytes).unwrap();
    let d = bnl.get_asset_description("tex_cut").unwrap().with_descriptor_size(9);
    bnl.update_asset_description(&d).unwrap();
    assert_eq!(bnl.asset_descriptions()[2].descriptor_size(), 9);
    let again = BNLFile::from_bytes(&bnl.to_bytes()).unwrap();
    assert_eq!(again.asset_descriptions()[2].descriptor_size(), 9);
    assert_eq!(again.asset_descriptions()[2].to_bytes(), d.to_bytes());
}

#[test]
fn descriptor_range_occupants() {
    let f = fixture();
    let bnl = BNLFile::from_bytes(&f.bytes).unwrap();
    let names = |start: usize, end: usize| -> Vec<String> {
        bnl.get_assets_occupying_descriptor_range(start..end).iter().map(|d| d.name()).collect()
    };
    assert_eq!(names(28, 30), vec!["script_b"]);
    assert_eq!(names(27, 29), vec!["tex_a", "script_b"]);
    assert_eq!(names(48, 49), vec!["tex_cut"]);
    assert_eq!(names(0, 1), vec!["tex_a", "broken"]);
    assert!(names(58, 100).is_empty());
}

#[test]
fn container_errors() {
    let f = fixture();
    assert_eq!(BNLFile::from_bytes(&f.bytes[..39]).unwrap_err(), BNLError::HeaderTooShort);
    let mut bad = f.bytes[..40].to_vec();
    bad.extend_from_slice(&[1, 2, 3, 4]);
    assert_eq!(BNLFile::from_bytes(&bad).unwrap_err(), BNLError::DecompressionFailure);
    let mut oob = f.bytes.clone();
    oob[36..40].copy_from_slice(&10_000u32.to_le_bytes());
    assert_eq!(BNLFile::from_bytes(&oob).unwrap_err(), BNLError::SectionOutOfBounds);
    let records = vec![record("x", 6, 0, 0, 0, 0)];
    let file = sections_to_file(&records, &view_list(&[(0, 1)]), &[0], &[], 1);
    assert_eq!(BNLFile::from_bytes(&file).unwrap_err(), BNLError::InvalidAssetDescription);
}

#[test]
fn dataview_list_lookup() {
    let f = fixture();
    let bnl = BNLFile::from_bytes(&f.bytes).unwrap();
    assert_eq!(bnl.get_dataview_list(24).unwrap().num_views(), 1);
    assert!(bnl.get_dataview_list(1000).is_err());
}

#[test]
fn typed_asset_inputs_by_row() {
    let f = fixture();
    let bnl = BNLFile::from_bytes(&f.bytes).unwrap();
    assert_eq!(bnl.descriptor_tail(2).unwrap(), &texture_descriptor(0, 8)[..10]);
    let res = bnl.resource_at(1).unwrap();
    assert_eq!(res.get_all_bytes(), f.buffer[20..26].to_vec());
    assert!(matches!(bnl.resource_at(3), Err(AssetError::ParseError(_))));
}

#[test]
fn keep_built_keeps_successes_in_order() {
    let results: Vec<Result<u8, AssetError>> =
        vec![Ok(1), Err(AssetError::NotFound), Ok(3), Err(AssetError::TypeMismatch), Ok(5)];
    assert_eq!(keep_built(results), vec![1, 3, 5]);
}

#[test]
fn build_outcomes_per_record_of_the_type() {
    let f = fixture();
    let bnl = BNLFile::from_bytes(&f.bytes).unwrap();
    let results = bnl.build_assets::<Texture>();
    assert_eq!(results.len(), 2);
    assert!(results[0].is_ok());
    assert!(matches!(results[1], Err(AssetError::ParseError(_))));
}
