//! Conversion of texture pixels between surface formats: byte reordering
//! within each pixel, and BCn (DXT) block decoding and encoding.
use vstd::prelude::*;

use crate::d3d::{D3DFormat, LinearColour, StandardFormat, Swizzled};

verus! {

/// Why pixels could not be converted.
#[derive(Debug, Clone, Copy, PartialEq, Eq, Structural)]
pub enum TranscodeError {
    /// No conversion from the source format to the target format exists.
    UnsupportedFormat,
    /// The image size is zero, too large, or larger than the pixel data.
    InvalidImageSize,
    /// The compressed pixel data could not be decoded.
    DecodeFailure,
}

/// The block compression schemes textures use.
#[derive(Debug, Clone, Copy, PartialEq, Eq, Structural)]
pub enum BcnKind {
    /// BC1, stored as DXT1: 8 bytes per block of 4 by 4 pixels.
    Bc1,
    /// BC2, stored as DXT2 or DXT3: 16 bytes per block of 4 by 4 pixels.
    Bc2,
}

#[verifier::external_type_specification]
#[verifier::external_body]
pub struct ExBcnError(bcndecode::Error);

/// The RGBA pixels that decoding the `kind` blocks of `data` for a `width`
/// by `height` image gives, or `None` when decoding fails.
pub uninterp spec fn bcn_decoded(data: Seq<u8>, width: usize, height: usize, kind: BcnKind) -> Option<
    Seq<u8>,
>;

/// The `kind` blocks that encoding the RGBA pixels `rgba` of a `width` by
/// `height` image gives.
pub uninterp spec fn bcn_compressed(rgba: Seq<u8>, width: usize, height: usize, kind: BcnKind) -> Seq<
    u8,
>;

/// Relies on `bcndecode::decode` with RGBA output: four bytes per pixel, an
/// error exactly when the width or the height is zero.
#[verifier::external_body]
fn bcn_decode(data: &[u8], width: usize, height: usize, kind: BcnKind) -> (r: Result<Vec<u8>, bcndecode::Error>)
    requires
        4 * width * height <= usize::MAX,
    ensures
        r matches Ok(v) ==> bcn_decoded(data@, width, height, kind) == Some(v@),
        r matches Ok(v) ==> v@.len() == 4 * width * height,
        r is Err ==> bcn_decoded(data@, width, height, kind) is None,
        (width > 0 && height > 0) <==> r is Ok,
{
    let encoding = match kind {
        BcnKind::Bc1 => bcndecode::BcnEncoding::Bc1,
        BcnKind::Bc2 => bcndecode::BcnEncoding::Bc2,
    };
    bcndecode::decode(data, width, height, encoding, bcndecode::BcnDecoderFormat::RGBA)
}

/// Relies on `texpresso::Format::compress` with default parameters: it fills
/// an output of exactly the compressed size with the blocks of the image. It
/// rounds both sides up to whole blocks with `size + 3`, which must not
/// overflow.
#[verifier::external_body]
fn bcn_compress(rgba: &[u8], width: usize, height: usize, kind: BcnKind, output: &mut Vec<u8>)
    requires
        width > 0,
        width + 3 <= usize::MAX,
        height + 3 <= usize::MAX,
        rgba@.len() >= 4 * width * height,
        old(output)@.len() == compressed_size_of(width as int, height as int, kind),
    ensures
        final(output)@ == bcn_compressed(rgba@, width, height, kind),
{
    let format = match kind {
        BcnKind::Bc1 => texpresso::Format::Bc1,
        BcnKind::Bc2 => texpresso::Format::Bc2,
    };
    format.compress(rgba, width, height, texpresso::Params::default(), output.as_mut_slice());
}

/// The bytes of the `kind` blocks of a `width` by `height` image, padded to
/// whole blocks of 4 by 4 pixels.
pub open spec fn compressed_size_of(width: int, height: int, kind: BcnKind) -> int {
    ((width + 3) / 4) * ((height + 3) / 4) * match kind {
        BcnKind::Bc1 => 8int,
        BcnKind::Bc2 => 16int,
    }
}

/// The start of the four-byte pixel that holds byte `i`.
pub open spec fn pixel_start(i: int) -> int {
    i - i % 4
}

/// The bytes of the pixel that holds byte `i`: four, or fewer for a last
/// pixel cut short.
pub open spec fn pixel_len(len: int, i: int) -> int {
    if len - pixel_start(i) < 4 {
        len - pixel_start(i)
    } else {
        4
    }
}

/// Each pixel's bytes in reverse order.
pub open spec fn reverse_pixels(b: Seq<u8>) -> Seq<u8> {
    Seq::new(
        b.len(),
        |i: int| b[pixel_start(i) + pixel_len(b.len() as int, i) - 1 - i % 4],
    )
}

/// Each pixel's bytes rotated left by one.
pub open spec fn rotate_pixels(b: Seq<u8>) -> Seq<u8> {
    Seq::new(
        b.len(),
        |i: int| b[pixel_start(i) + (i % 4 + 1) % pixel_len(b.len() as int, i)],
    )
}

/// Each pixel with its first and third bytes swapped, where it has a third.
pub open spec fn swap_pixel_ends(b: Seq<u8>) -> Seq<u8> {
    Seq::new(
        b.len(),
        |i: int|
            if pixel_start(i) + 2 < b.len() && i % 4 == 0 {
                b[i + 2]
            } else if pixel_start(i) + 2 < b.len() && i % 4 == 2 {
                b[i - 2]
            } else {
                b[i]
            },
    )
}

/// Each whole pixel with its first and third bytes swapped; the bytes of a
/// last pixel cut short are zero.
pub open spec fn swap_red_blue(b: Seq<u8>) -> Seq<u8> {
    Seq::new(
        b.len(),
        |i: int|
            if pixel_start(i) + 4 <= b.len() {
                if i % 4 == 0 {
                    b[i + 2]
                } else if i % 4 == 2 {
                    b[i - 2]
                } else {
                    b[i]
                }
            } else {
                0u8
            },
    )
}

/// The result of decoding `kind` blocks into RGBA pixels.
pub open spec fn decode_result(b: Seq<u8>, width: usize, height: usize, kind: BcnKind) -> Result<
    Seq<u8>,
    TranscodeError,
> {
    if 4 * width * height > usize::MAX {
        Err(TranscodeError::InvalidImageSize)
    } else {
        match bcn_decoded(b, width, height, kind) {
            Some(v) => Ok(v),
            None => Err(TranscodeError::DecodeFailure),
        }
    }
}

/// The result of encoding RGBA pixels into `kind` blocks.
pub open spec fn compress_result(rgba: Seq<u8>, width: usize, height: usize, kind: BcnKind) -> Result<
    Seq<u8>,
    TranscodeError,
> {
    if width == 0 || width + 3 > usize::MAX || height + 3 > usize::MAX || 4 * width * height
        > rgba.len() || compressed_size_of(
        width as int,
        height as int,
        kind,
    ) > usize::MAX {
        Err(TranscodeError::InvalidImageSize)
    } else {
        Ok(bcn_compressed(rgba, width, height, kind))
    }
}

/// The pixels `b` of a `width` by `height` image in `src`, converted to `dst`.
pub open spec fn transcoded(
    width: usize,
    height: usize,
    src: D3DFormat,
    dst: D3DFormat,
    b: Seq<u8>,
) -> Result<Seq<u8>, TranscodeError> {
    let rgba = D3DFormat::Linear(LinearColour::R8G8B8A8);
    if src == dst {
        Ok(b)
    } else if src == D3DFormat::Standard(StandardFormat::DXT1) && dst == rgba {
        decode_result(b, width, height, BcnKind::Bc1)
    } else if src == D3DFormat::Standard(StandardFormat::DXT2Or3) && dst == rgba {
        decode_result(b, width, height, BcnKind::Bc2)
    } else if src == D3DFormat::Swizzled(Swizzled::A8B8G8R8) && dst == rgba {
        Ok(reverse_pixels(b))
    } else if src == D3DFormat::Swizzled(Swizzled::B8G8R8A8) && dst == rgba {
        Ok(swap_pixel_ends(b))
    } else if src == D3DFormat::Swizzled(Swizzled::A8R8G8B8) && dst == rgba {
        Ok(rotate_pixels(b))
    } else if src == D3DFormat::Swizzled(Swizzled::R8G8B8A8) && dst == D3DFormat::Standard(
        StandardFormat::DXT1,
    ) {
        compress_result(swap_red_blue(b), width, height, BcnKind::Bc1)
    } else if src == D3DFormat::Swizzled(Swizzled::R8G8B8A8) && dst == D3DFormat::Standard(
        StandardFormat::DXT2Or3,
    ) {
        compress_result(swap_red_blue(b), width, height, BcnKind::Bc2)
    } else if src == D3DFormat::Swizzled(Swizzled::R8G8B8A8) && dst == D3DFormat::Swizzled(
        Swizzled::B8G8R8A8,
    ) {
        Ok(swap_red_blue(b))
    } else {
        Err(TranscodeError::UnsupportedFormat)
    }
}

/// Each pixel's bytes in reverse order.
pub fn reverse_pixel_bytes(b: &[u8]) -> (r: Vec<u8>)
    ensures
        r@ == reverse_pixels(b@),
{
    let n = b.len();
    let mut out: Vec<u8> = Vec::new();
    let mut i: usize = 0;
    while i < n
        invariant
            n == b@.len(),
            i <= n,
            out@ == reverse_pixels(b@).take(i as int),
        decreases n - i,
    {
        let start = i - i % 4;
        let len = if n - start < 4 { n - start } else { 4 };
        out.push(b[start + len - 1 - i % 4]);
        i = i + 1;
        assert(out@ =~= reverse_pixels(b@).take(i as int));
    }
    assert(reverse_pixels(b@).take(n as int) =~= reverse_pixels(b@));
    out
}

/// Each pixel's bytes rotated left by one.
pub fn rotate_pixel_bytes(b: &[u8]) -> (r: Vec<u8>)
    ensures
        r@ == rotate_pixels(b@),
{
    let n = b.len();
    let mut out: Vec<u8> = Vec::new();
    let mut i: usize = 0;
    while i < n
        invariant
            n == b@.len(),
            i <= n,
            out@ == rotate_pixels(b@).take(i as int),
        decreases n - i,
    {
        let start = i - i % 4;
        let len = if n - start < 4 { n - start } else { 4 };
        out.push(b[start + (i % 4 + 1) % len]);
        i = i + 1;
        assert(out@ =~= rotate_pixels(b@).take(i as int));
    }
    assert(rotate_pixels(b@).take(n as int) =~= rotate_pixels(b@));
    out
}

/// Each pixel with its first and third bytes swapped, where it has a third.
pub fn swap_pixel_end_bytes(b: &[u8]) -> (r: Vec<u8>)
    ensures
        r@ == swap_pixel_ends(b@),
{
    let n = b.len();
    let mut out: Vec<u8> = Vec::new();
    let mut i: usize = 0;
    while i < n
        invariant
            n == b@.len(),
            i <= n,
            out@ == swap_pixel_ends(b@).take(i as int),
        decreases n - i,
    {
        let start = i - i % 4;
        let v = if start + 2 < n && i % 4 == 0 {
            b[i + 2]
        } else if start + 2 < n && i % 4 == 2 {
            b[i - 2]
        } else {
            b[i]
        };
        out.push(v);
        i = i + 1;
        assert(out@ =~= swap_pixel_ends(b@).take(i as int));
    }
    assert(swap_pixel_ends(b@).take(n as int) =~= swap_pixel_ends(b@));
    out
}

/// Each whole pixel with its first and third bytes swapped; the bytes of a
/// last pixel cut short are zero.
pub fn swap_red_blue_bytes(b: &[u8]) -> (r: Vec<u8>)
    ensures
        r@ == swap_red_blue(b@),
{
    let n = b.len();
    let mut out: Vec<u8> = Vec::new();
    let mut i: usize = 0;
    while i < n
        invariant
            n == b@.len(),
            i <= n,
            out@ == swap_red_blue(b@).take(i as int),
        decreases n - i,
    {
        let start = i - i % 4;
        let v = if n - start >= 4 {
            if i % 4 == 0 {
                b[i + 2]
            } else if i % 4 == 2 {
                b[i - 2]
            } else {
                b[i]
            }
        } else {
            0u8
        };
        out.push(v);
        i = i + 1;
        assert(out@ =~= swap_red_blue(b@).take(i as int));
    }
    assert(swap_red_blue(b@).take(n as int) =~= swap_red_blue(b@));
    out
}

/// The bytes of the `kind` blocks of a `width` by `height` image, or `None`
/// when that number exceeds `usize::MAX`.
pub fn compressed_size(width: usize, height: usize, kind: BcnKind) -> (r: Option<usize>)
    ensures
        compressed_size_of(width as int, height as int, kind) <= usize::MAX ==> r == Some(
            compressed_size_of(width as int, height as int, kind) as usize,
        ),
        compressed_size_of(width as int, height as int, kind) > usize::MAX ==> r is None,
{
    let bw = width / 4 + if width % 4 != 0 { 1usize } else { 0usize };
    let bh = height / 4 + if height % 4 != 0 { 1usize } else { 0usize };
    assert(bw == (width + 3) / 4);
    assert(bh == (height + 3) / 4);
    let block: usize = match kind {
        BcnKind::Bc1 => 8,
        BcnKind::Bc2 => 16,
    };
    let blocks = match bw.checked_mul(bh) {
        Some(x) => x,
        None => {
            assert(bw * bh * block >= bw * bh) by (nonlinear_arith)
                requires
                    block >= 1,
                    bw >= 0,
                    bh >= 0,
            ;
            return None;
        },
    };
    blocks.checked_mul(block)
}

/// Encodes RGBA pixels into `kind` blocks.
fn compress_pixels(rgba: &[u8], width: usize, height: usize, kind: BcnKind) -> (r: Result<
    Vec<u8>,
    TranscodeError,
>)
    ensures
        match compress_result(rgba@, width, height, kind) {
            Ok(v) => r matches Ok(x) && x@ == v,
            Err(e) => r == Err::<Vec<u8>, TranscodeError>(e),
        },
{
    if width == 0 || width > usize::MAX - 3 || height > usize::MAX - 3 {
        return Err(TranscodeError::InvalidImageSize);
    }
    let len = rgba.len();
    let pixels = match width.checked_mul(height) {
        Some(p) => p,
        None => {
            assert(4 * width * height > len) by (nonlinear_arith)
                requires
                    width * height > usize::MAX,
                    len <= usize::MAX,
            ;
            return Err(TranscodeError::InvalidImageSize);
        },
    };
    if pixels > len / 4 {
        assert(4 * width * height > len) by (nonlinear_arith)
            requires
                pixels == width * height,
                pixels > len / 4,
        ;
        return Err(TranscodeError::InvalidImageSize);
    }
    assert(4 * width * height <= len) by (nonlinear_arith)
        requires
            pixels == width * height,
            pixels <= len / 4,
    ;
    let size = match compressed_size(width, height, kind) {
        Some(s) => s,
        None => return Err(TranscodeError::InvalidImageSize),
    };
    let mut output: Vec<u8> = Vec::new();
    let mut i: usize = 0;
    while i < size
        invariant
            i <= size,
            output@.len() == i,
        decreases size - i,
    {
        output.push(0u8);
        i = i + 1;
    }
    bcn_compress(rgba, width, height, kind, &mut output);
    Ok(output)
}

/// Decodes `kind` blocks into RGBA pixels.
fn decode_pixels(b: &[u8], width: usize, height: usize, kind: BcnKind) -> (r: Result<
    Vec<u8>,
    TranscodeError,
>)
    ensures
        match decode_result(b@, width, height, kind) {
            Ok(v) => r matches Ok(x) && x@ == v,
            Err(e) => r == Err::<Vec<u8>, TranscodeError>(e),
        },
{
    let pixels = match width.checked_mul(height) {
        Some(p) => p,
        None => {
            assert(4 * width * height > usize::MAX) by (nonlinear_arith)
                requires
                    width * height > usize::MAX,
            ;
            return Err(TranscodeError::InvalidImageSize);
        },
    };
    if pixels.checked_mul(4).is_none() {
        assert(4 * width * height > usize::MAX) by (nonlinear_arith)
            requires
                pixels == width * height,
                pixels * 4 > usize::MAX,
        ;
        return Err(TranscodeError::InvalidImageSize);
    }
    assert(4 * width * height <= usize::MAX) by (nonlinear_arith)
        requires
            pixels == width * height,
            pixels * 4 <= usize::MAX,
    ;
    match bcn_decode(b, width, height, kind) {
        Ok(v) => Ok(v),
        Err(_) => Err(TranscodeError::DecodeFailure),
    }
}

/// Converts `bytes`, the pixels of a `width` by `height` image in
/// `src_format`, to `dst_format`.
pub fn transcode(
    width: usize,
    height: usize,
    src_format: D3DFormat,
    dst_format: D3DFormat,
    bytes: &[u8],
) -> (r: Result<Vec<u8>, TranscodeError>)
    ensures
        match transcoded(width, height, src_format, dst_format, bytes@) {
            Ok(v) => r matches Ok(x) && x@ == v,
            Err(e) => r == Err::<Vec<u8>, TranscodeError>(e),
        },
{
    let rgba = D3DFormat::Linear(LinearColour::R8G8B8A8);
    if src_format == dst_format {
        let mut out: Vec<u8> = Vec::new();
        crate::resource::append_bytes(&mut out, bytes);
        return Ok(out);
    }
    match src_format {
        D3DFormat::Standard(StandardFormat::DXT1) => {
            if dst_format == rgba {
                decode_pixels(bytes, width, height, BcnKind::Bc1)
            } else {
                Err(TranscodeError::UnsupportedFormat)
            }
        },
        D3DFormat::Standard(StandardFormat::DXT2Or3) => {
            if dst_format == rgba {
                decode_pixels(bytes, width, height, BcnKind::Bc2)
            } else {
                Err(TranscodeError::UnsupportedFormat)
            }
        },
        D3DFormat::Swizzled(Swizzled::A8B8G8R8) => {
            if dst_format == rgba {
                Ok(reverse_pixel_bytes(bytes))
            } else {
                Err(TranscodeError::UnsupportedFormat)
            }
        },
        D3DFormat::Swizzled(Swizzled::B8G8R8A8) => {
            if dst_format == rgba {
                Ok(swap_pixel_end_bytes(bytes))
            } else {
                Err(TranscodeError::UnsupportedFormat)
            }
        },
        D3DFormat::Swizzled(Swizzled::A8R8G8B8) => {
            if dst_format == rgba {
                Ok(rotate_pixel_bytes(bytes))
            } else {
                Err(TranscodeError::UnsupportedFormat)
            }
        },
        D3DFormat::Swizzled(Swizzled::R8G8B8A8) => match dst_format {
            D3DFormat::Standard(StandardFormat::DXT1) => {
                compress_pixels(swap_red_blue_bytes(bytes).as_slice(), width, height, BcnKind::Bc1)
            },
            D3DFormat::Standard(StandardFormat::DXT2Or3) => {
                compress_pixels(swap_red_blue_bytes(bytes).as_slice(), width, height, BcnKind::Bc2)
            },
            D3DFormat::Swizzled(Swizzled::B8G8R8A8) => Ok(swap_red_blue_bytes(bytes)),
            _ => Err(TranscodeError::UnsupportedFormat),
        },
        _ => Err(TranscodeError::UnsupportedFormat),
    }
}

} // verus!
