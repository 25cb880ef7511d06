use bnl::dataview::{DataViewList, ViewListError};
use bnl::resource::VirtualResourceError;
use bnl::{DataView, VirtualResource};

fn list_bytes(declared: u32, count: u32, views: &[(u32, u32)]) -> Vec<u8> {
    let mut b = Vec::new();
    b.extend_from_slice(&declared.to_le_bytes());
    b.extend_from_slice(&count.to_le_bytes());
    for (o, s) in views {
        b.extend_from_slice(&o.to_le_bytes());
        b.extend_from_slice(&s.to_le_bytes());
    }
    b
}

#[test]
fn parse_reads_views_in_order() {
    let bytes = list_bytes(24, 2, &[(3, 4), (10, 2)]);
    let list = DataViewList::from_bytes(&bytes).unwrap();
    assert_eq!(list.num_views(), 2);
    assert_eq!(list.size(), 24);
    assert_eq!(list.views(), &[DataView { offset: 3, size: 4 }, DataView { offset: 10, size: 2 }]);
    assert_eq!(list.len(), 6);
    assert_eq!(list.logical_size(), 6);
}

#[test]
fn parse_ignores_trailing_bytes() {
    let mut bytes = list_bytes(16, 1, &[(0, 5)]);
    bytes.extend_from_slice(&[9, 9, 9]);
    let list = DataViewList::from_bytes(&bytes).unwrap();
    assert_eq!(list.views(), &[DataView { offset: 0, size: 5 }]);
}

#[test]
fn parse_too_small() {
    assert_eq!(DataViewList::from_bytes(&[16, 0, 0, 0, 1, 0, 0]).unwrap_err(), ViewListError::TooSmall);
}

#[test]
fn parse_zero_views() {
    let bytes = list_bytes(8, 0, &[]);
    assert_eq!(DataViewList::from_bytes(&bytes).unwrap_err(), ViewListError::Malformed);
}

#[test]
fn parse_declared_size_mismatch() {
    let bytes = list_bytes(20, 1, &[(0, 5)]);
    assert_eq!(DataViewList::from_bytes(&bytes).unwrap_err(), ViewListError::Malformed);
}

#[test]
fn parse_truncated() {
    let mut bytes = list_bytes(24, 2, &[(0, 5), (8, 1)]);
    bytes.truncate(20);
    assert_eq!(DataViewList::from_bytes(&bytes).unwrap_err(), ViewListError::Truncated);
}

#[test]
fn resolve_and_read_all_length() {
    let backing: Vec<u8> = (0..50u8).collect();
    let bytes = list_bytes(32, 3, &[(40, 5), (0, 0), (10, 3)]);
    let list = DataViewList::from_bytes(&bytes).unwrap();
    let slices = list.slices(&backing).unwrap();
    assert_eq!(slices, vec![&backing[40..45], &backing[0..0], &backing[10..13]]);
    let res = VirtualResource::from_dvl(&list, &backing).unwrap();
    let all = res.get_all_bytes();
    assert_eq!(all.len(), list.len());
    assert_eq!(all, vec![40, 41, 42, 43, 44, 10, 11, 12]);
    assert_eq!(list.num_views(), (list.size() - 8) / 8);
}

#[test]
fn resolve_out_of_bounds() {
    let backing = vec![0u8; 10];
    let bytes = list_bytes(24, 2, &[(0, 5), (8, 3)]);
    let list = DataViewList::from_bytes(&bytes).unwrap();
    assert_eq!(list.slices(&backing).unwrap_err(), ViewListError::OutOfBounds);
    assert_eq!(
        VirtualResource::from_dvl(&list, &backing).unwrap_err(),
        VirtualResourceError::SizeOutOfBounds
    );
    let bytes = list_bytes(32, 3, &[(0, 5), (11, 0), (8, 3)]);
    let list = DataViewList::from_bytes(&bytes).unwrap();
    assert_eq!(
        VirtualResource::from_dvl(&list, &backing).unwrap_err(),
        VirtualResourceError::OffsetOutOfBounds
    );
    assert!(!list.fits(backing.len()));
    assert!(list.fits(11));
}

#[test]
fn scatter_write_across_views() {
    let bytes = list_bytes(24, 2, &[(6, 2), (1, 3)]);
    let list = DataViewList::from_bytes(&bytes).unwrap();
    let mut backing = vec![0u8; 10];
    list.write_bytes(&[1, 2, 3, 4, 5], &mut backing).unwrap();
    assert_eq!(backing, vec![0, 3, 4, 5, 0, 0, 1, 2, 0, 0]);
}

#[test]
fn scatter_write_overlapping_views_later_wins() {
    let bytes = list_bytes(24, 2, &[(0, 3), (1, 2)]);
    let list = DataViewList::from_bytes(&bytes).unwrap();
    let mut backing = vec![0u8; 4];
    list.write_bytes(&[7, 8, 9, 10, 11], &mut backing).unwrap();
    assert_eq!(backing, vec![7, 10, 11, 0]);
}

#[test]
fn scatter_write_size_mismatch_leaves_buffer() {
    let bytes = list_bytes(24, 2, &[(6, 2), (1, 3)]);
    let list = DataViewList::from_bytes(&bytes).unwrap();
    let mut backing: Vec<u8> = (0..10).collect();
    let before = backing.clone();
    assert_eq!(list.write_bytes(&[1, 2, 3, 4], &mut backing), Err(ViewListError::SizeMismatch));
    assert_eq!(backing, before);
    assert_eq!(list.write_bytes(&[1, 2, 3, 4, 5, 6], &mut backing), Err(ViewListError::SizeMismatch));
    assert_eq!(backing, before);
}

#[test]
fn scatter_write_out_of_bounds_leaves_buffer() {
    let bytes = list_bytes(24, 2, &[(0, 2), (9, 3)]);
    let list = DataViewList::from_bytes(&bytes).unwrap();
    let mut backing: Vec<u8> = (0..10).collect();
    let before = backing.clone();
    assert_eq!(list.write_bytes(&[1, 2, 3, 4, 5], &mut backing), Err(ViewListError::OutOfBounds));
    assert_eq!(backing, before);
}

#[test]
fn data_view_from_cursor() {
    let bytes = [1, 0, 0, 0, 2, 0, 0, 0, 3, 0, 0];
    let mut pos = 0usize;
    assert_eq!(DataView::from_cursor(&bytes, &mut pos), Some(DataView { offset: 1, size: 2 }));
    assert_eq!(pos, 8);
    assert_eq!(DataView::from_cursor(&bytes, &mut pos), None);
    assert_eq!(pos, 8);
}
