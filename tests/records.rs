use bnl::asset::AssetDescription;
use bnl::game::AssetType;

fn row(name: &[u8], ty: u32) -> Vec<u8> {
    let mut r = vec![0u8; 128];
    r[..name.len()].copy_from_slice(name);
    r.extend_from_slice(&ty.to_le_bytes());
    for x in [5u32, 6, 7, 8, 9, 10, 11] {
        r.extend_from_slice(&x.to_le_bytes());
    }
    r
}

#[test]
fn record_round_trip() {
    let bytes = row(b"aid_texture_x", 4);
    let d = AssetDescription::from_bytes(&bytes).unwrap();
    assert_eq!(d.to_bytes(), bytes);
    assert_eq!(d.asset_type(), AssetType::ResModel);
    assert_eq!(d.descriptor_ptr(), 8);
    assert_eq!(d.descriptor_size(), 9);
    assert_eq!(d.bufferview_list_ptr(), 10);
    assert_eq!(d.resource_size(), 11);
    assert_eq!(d.index(), usize::MAX);
}

#[test]
fn record_name_stops_at_nul() {
    let d = AssetDescription::from_bytes(&row(b"abc\0def", 1)).unwrap();
    assert_eq!(d.name(), "abc");
    assert!(d.has_name("abc"));
    assert!(!d.has_name("abc\0def"));
}

#[test]
fn record_name_fills_field() {
    let d = AssetDescription::from_bytes(&row(&[b'z'; 128], 1)).unwrap();
    assert_eq!(d.name(), "z".repeat(128));
}

#[test]
fn record_name_invalid_utf8_is_empty() {
    let d = AssetDescription::from_bytes(&row(&[b'a', 0xff, b'b'], 1)).unwrap();
    assert_eq!(d.name(), "");
    assert!(d.has_name(""));
}

#[test]
fn record_errors() {
    assert!(AssetDescription::from_bytes(&row(b"a", 1)[..159]).is_err());
    assert!(AssetDescription::from_bytes(&row(b"a", 6)).is_err());
    assert!(AssetDescription::from_bytes(&row(b"a", 31)).is_err());
}

#[test]
fn asset_type_codes() {
    assert_eq!(AssetType::from_u32(24), Some(AssetType::ResScript));
    assert_eq!(AssetType::from_u32(9), None);
    assert_eq!(AssetType::ResShakeCam.to_u32(), 29);
    assert_eq!(AssetType::ResCount.to_u32(), 30);
}
