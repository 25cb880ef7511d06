use bnl::resource::VirtualResourceError;
use bnl::VirtualResource;

fn make_data() -> Vec<u8> {
    (0..1000usize).map(|i| i as u8).collect()
}

#[test]
fn read_across_slices() {
    let data = make_data();
    let slices = [
        &data[0..100],
        &data[200..300],
        &data[400..500],
        &data[600..700],
    ];

    let virtual_res = VirtualResource::from_slices(&slices);

    let bytes = virtual_res.get_bytes(180, 200).unwrap();

    assert_eq!(bytes[0..20], data[280..300]);
    assert_eq!(bytes[20..120], data[400..500]);
    assert_eq!(bytes[120..200], data[600..680]);
}

#[test]
fn read_within_one_slice() {
    let data = make_data();
    let slices = [&data[10..20], &data[50..60]];
    let res = VirtualResource::from_slices(&slices);
    assert_eq!(res.get_bytes(2, 5).unwrap(), data[12..17].to_vec());
    assert_eq!(res.get_bytes(10, 10).unwrap(), data[50..60].to_vec());
}

#[test]
fn read_skips_empty_slices() {
    let data = make_data();
    let slices = [&data[0..3], &data[5..5], &data[7..9], &data[9..9]];
    let res = VirtualResource::from_slices(&slices);
    assert_eq!(res.len(), 5);
    assert_eq!(res.get_bytes(1, 4).unwrap(), vec![1, 2, 7, 8]);
    assert_eq!(res.get_bytes(5, 0).unwrap(), Vec::<u8>::new());
}

#[test]
fn read_all_concatenates() {
    let data = make_data();
    let slices = [&data[4..6], &data[0..2], &data[4..6]];
    let res = VirtualResource::from_slices(&slices);
    assert_eq!(res.get_all_bytes(), vec![4, 5, 0, 1, 4, 5]);
    assert_eq!(res.get_all_bytes(), res.get_bytes(0, res.len()).unwrap());
}

#[test]
fn read_out_of_bounds() {
    let data = make_data();
    let slices = [&data[0..10], &data[20..30]];
    let res = VirtualResource::from_slices(&slices);
    assert_eq!(res.get_bytes(21, 0), Err(VirtualResourceError::OffsetOutOfBounds));
    assert_eq!(res.get_bytes(15, 6), Err(VirtualResourceError::SizeOutOfBounds));
    assert_eq!(res.get_bytes(20, 0).unwrap(), Vec::<u8>::new());
}

#[test]
fn empty_resource() {
    let slices: [&[u8]; 0] = [];
    let res = VirtualResource::from_slices(&slices);
    assert!(res.is_empty());
    assert_eq!(res.len(), 0);
    assert_eq!(res.get_all_bytes(), Vec::<u8>::new());
}
