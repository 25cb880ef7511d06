use bnl::d3d::{D3DFormat, LinearColour, StandardFormat, Swizzled};
use bnl::images::{compressed_size, transcode, BcnKind, TranscodeError};

const RGBA: D3DFormat = D3DFormat::Linear(LinearColour::R8G8B8A8);

#[test]
fn same_format_is_a_copy() {
    let b = vec![1, 2, 3];
    assert_eq!(transcode(1, 1, RGBA, RGBA, &b).unwrap(), b);
}

#[test]
fn a8b8g8r8_reverses_each_pixel() {
    let b = [1, 2, 3, 4, 5, 6, 7, 8, 9, 10];
    let out = transcode(2, 1, D3DFormat::Swizzled(Swizzled::A8B8G8R8), RGBA, &b).unwrap();
    assert_eq!(out, vec![4, 3, 2, 1, 8, 7, 6, 5, 10, 9]);
}

#[test]
fn b8g8r8a8_swaps_blue_and_red() {
    let b = [1, 2, 3, 4, 5, 6, 7, 8, 9, 10];
    let out = transcode(2, 1, D3DFormat::Swizzled(Swizzled::B8G8R8A8), RGBA, &b).unwrap();
    assert_eq!(out, vec![3, 2, 1, 4, 7, 6, 5, 8, 9, 10]);
}

#[test]
fn a8r8g8b8_rotates_each_pixel() {
    let b = [1, 2, 3, 4, 5, 6, 7];
    let out = transcode(1, 1, D3DFormat::Swizzled(Swizzled::A8R8G8B8), RGBA, &b).unwrap();
    assert_eq!(out, vec![2, 3, 4, 1, 6, 7, 5]);
}

#[test]
fn r8g8b8a8_to_b8g8r8a8_zeroes_a_partial_pixel() {
    let b = [1, 2, 3, 4, 5, 6];
    let out = transcode(
        1,
        1,
        D3DFormat::Swizzled(Swizzled::R8G8B8A8),
        D3DFormat::Swizzled(Swizzled::B8G8R8A8),
        &b,
    )
    .unwrap();
    assert_eq!(out, vec![3, 2, 1, 4, 0, 0]);
}

#[test]
fn unsupported_pairs() {
    assert_eq!(
        transcode(1, 1, D3DFormat::Swizzled(Swizzled::A8B8G8R8), D3DFormat::Index16, &[0; 4]),
        Err(TranscodeError::UnsupportedFormat)
    );
    assert_eq!(
        transcode(1, 1, D3DFormat::Standard(StandardFormat::DXT4Or5), RGBA, &[0; 16]),
        Err(TranscodeError::UnsupportedFormat)
    );
    assert_eq!(
        transcode(4, 4, D3DFormat::Swizzled(Swizzled::B8G8R8A8), D3DFormat::Standard(StandardFormat::DXT1), &[0; 64]),
        Err(TranscodeError::UnsupportedFormat)
    );
}

#[test]
fn dxt1_white_block_decodes_to_white_pixels() {
    let block = [0xff, 0xff, 0xff, 0xff, 0, 0, 0, 0];
    let out = transcode(4, 4, D3DFormat::Standard(StandardFormat::DXT1), RGBA, &block).unwrap();
    assert_eq!(out, vec![0xff; 64]);
}

#[test]
fn dxt_decode_of_empty_image_fails() {
    assert_eq!(
        transcode(0, 4, D3DFormat::Standard(StandardFormat::DXT2Or3), RGBA, &[0; 16]),
        Err(TranscodeError::DecodeFailure)
    );
}

#[test]
fn rgba_to_dxt_compresses_to_blocks() {
    let pixels = vec![0xff; 4 * 5 * 4];
    let out = transcode(5, 4, D3DFormat::Swizzled(Swizzled::R8G8B8A8), D3DFormat::Standard(StandardFormat::DXT1), &pixels).unwrap();
    assert_eq!(out.len(), 16);
    let back = transcode(4, 4, D3DFormat::Standard(StandardFormat::DXT1), RGBA, &out[..8]).unwrap();
    assert_eq!(back, vec![0xff; 64]);
    let out = transcode(4, 4, D3DFormat::Swizzled(Swizzled::R8G8B8A8), D3DFormat::Standard(StandardFormat::DXT2Or3), &pixels[..64]).unwrap();
    assert_eq!(out.len(), 16);
}

#[test]
fn rgba_to_dxt_needs_enough_pixels() {
    assert_eq!(
        transcode(4, 4, D3DFormat::Swizzled(Swizzled::R8G8B8A8), D3DFormat::Standard(StandardFormat::DXT1), &[0; 63]),
        Err(TranscodeError::InvalidImageSize)
    );
    assert_eq!(
        transcode(0, 4, D3DFormat::Swizzled(Swizzled::R8G8B8A8), D3DFormat::Standard(StandardFormat::DXT1), &[0; 64]),
        Err(TranscodeError::InvalidImageSize)
    );
}

#[test]
fn compressed_sizes() {
    assert_eq!(compressed_size(5, 4, BcnKind::Bc1), Some(16));
    assert_eq!(compressed_size(4, 4, BcnKind::Bc2), Some(16));
    assert_eq!(compressed_size(0, 4, BcnKind::Bc1), Some(0));
    assert_eq!(compressed_size(usize::MAX, usize::MAX, BcnKind::Bc1), None);
}
