//! Preparing a screen region for recognition: cutting it to the image and packing its
//! pixels as tightly laid out RGB bytes.

use vstd::prelude::*;

use crate::chars::{chars_of, string_from_chars};
use crate::ocr::OcrError;

verus! {

/// The region `(x, y, width, height)` cut to an image of the given size: the origin moved
/// onto the image's top-left quadrant and each side shortened to what remains of the image
/// past it.
pub open spec fn spec_cut_region(x: i32, y: i32, width: u32, height: u32, image_width: u32, image_height: u32) -> (
    u32,
    u32,
    u32,
    u32,
) {
    let cx = if x > 0 { x as int } else { 0 };
    let cy = if y > 0 { y as int } else { 0 };
    let room_w = if image_width >= cx { image_width - cx } else { 0 };
    let room_h = if image_height >= cy { image_height - cy } else { 0 };
    (
        cx as u32,
        cy as u32,
        (if width <= room_w { width as int } else { room_w }) as u32,
        (if height <= room_h { height as int } else { room_h }) as u32,
    )
}

fn invalid_region(message: &str) -> (e: OcrError)
    ensures
        e matches OcrError::InvalidRegion { message: m } && m@ == message@,
{
    OcrError::InvalidRegion { message: string_from_chars(&chars_of(message)) }
}

/// The part of a region that lies on the image, as `(x, y, width, height)`. A region with
/// no area is refused with "zero-size region", one that misses the image with "region
/// outside image bounds".
pub fn clamp_ocr_region(
    x: i32,
    y: i32,
    width: u32,
    height: u32,
    image_width: u32,
    image_height: u32,
) -> (r: Result<(u32, u32, u32, u32), OcrError>)
    ensures
        (width == 0 || height == 0) ==> (r matches Err(OcrError::InvalidRegion { message }) && message@
            == "zero-size region"@),
        !(width == 0 || height == 0) ==> {
            let c = spec_cut_region(x, y, width, height, image_width, image_height);
            if c.2 == 0 || c.3 == 0 {
                r matches Err(OcrError::InvalidRegion { message }) && message@
                    == "region outside image bounds"@
            } else {
                r == Ok::<(u32, u32, u32, u32), OcrError>(c)
            }
        },
{
    if width == 0 || height == 0 {
        return Err(invalid_region("zero-size region"));
    }
    let clamped_x: u32 = if x > 0 { x as u32 } else { 0 };
    let clamped_y: u32 = if y > 0 { y as u32 } else { 0 };
    let room_w = if image_width >= clamped_x { image_width - clamped_x } else { 0 };
    let room_h = if image_height >= clamped_y { image_height - clamped_y } else { 0 };
    let clamped_w = if width <= room_w { width } else { room_w };
    let clamped_h = if height <= room_h { height } else { room_h };
    if clamped_w == 0 || clamped_h == 0 {
        return Err(invalid_region("region outside image bounds"));
    }
    Ok((clamped_x, clamped_y, clamped_w, clamped_h))
}

/// Where the `i`-th packed byte comes from in a buffer whose rows start `rowstride` bytes
/// apart and whose pixels take `n_channels` bytes each.
pub open spec fn spec_rgb_source_index(i: int, rowstride: int, n_channels: int, width: int) -> int {
    (i / 3 / width) * rowstride + ((i / 3) % width) * n_channels + i % 3
}

/// The first three channels of each pixel of a `width x height` image, row by row.
pub open spec fn spec_packed_rgb(pixels: Seq<u8>, rowstride: u32, n_channels: u32, width: u32, height: u32) -> Seq<u8> {
    Seq::new(
        (width * height * 3) as nat,
        |i: int| pixels[spec_rgb_source_index(i, rowstride as int, n_channels as int, width as int)],
    )
}

/// The layout fits: the packed size and every offset fit in `u32`, and every byte read
/// lies in the buffer.
pub open spec fn spec_rgb_layout_fits(len: int, rowstride: u32, n_channels: u32, width: u32, height: u32) -> bool {
    &&& width * height * 3 <= u32::MAX
    &&& height > 0 ==> (height - 1) * rowstride <= u32::MAX
    &&& (width > 0 && height > 0) ==> {
        &&& (width - 1) * n_channels <= u32::MAX
        &&& (height - 1) * rowstride + (width - 1) * n_channels + 2 < len
    }
}

proof fn lemma_rgb_index(row: int, col: int, k: int, rowstride: int, n_channels: int, width: int)
    requires
        0 <= row,
        0 <= col < width,
        0 <= k < 3,
    ensures
        spec_rgb_source_index((row * width + col) * 3 + k, rowstride, n_channels, width) == row
            * rowstride + col * n_channels + k,
{
    let q = row * width + col;
    vstd::arithmetic::div_mod::lemma_fundamental_div_mod_converse(q * 3 + k, 3, q, k);
    vstd::arithmetic::div_mod::lemma_fundamental_div_mod_converse(q, width, row, col);
}

/// Packs the first three channels of each pixel of a `width x height` image held in a
/// buffer with the given row stride and channel count.
pub fn pack_rgb_pixels(pixels: &[u8], rowstride: u32, n_channels: u32, width: u32, height: u32) -> (out: Vec<u8>)
    requires
        spec_rgb_layout_fits(pixels@.len() as int, rowstride, n_channels, width, height),
    ensures
        out@ == spec_packed_rgb(pixels@, rowstride, n_channels, width, height),
{
    let ghost total = spec_packed_rgb(pixels@, rowstride, n_channels, width, height);
    proof {
        assert(pixels@.len() == pixels.len());
    }
    let mut out: Vec<u8> = Vec::new();
    let mut row: u32 = 0;
    while row < height
        invariant
            0 <= row <= height,
            spec_rgb_layout_fits(pixels@.len() as int, rowstride, n_channels, width, height),
            pixels@.len() <= usize::MAX,
            total == spec_packed_rgb(pixels@, rowstride, n_channels, width, height),
            row * width * 3 <= total.len(),
            out@ == total.take(row * width * 3),
        decreases height - row,
    {
        assert(row * rowstride <= (height - 1) * rowstride) by (nonlinear_arith)
            requires
                row <= height - 1,
                0 <= rowstride,
        ;
        let row_offset = (row * rowstride) as usize;
        let mut col: u32 = 0;
        while col < width
            invariant
                0 <= row < height,
                0 <= col <= width,
                spec_rgb_layout_fits(pixels@.len() as int, rowstride, n_channels, width, height),
                pixels@.len() <= usize::MAX,
                total == spec_packed_rgb(pixels@, rowstride, n_channels, width, height),
                row_offset == row * rowstride,
                (row * width + col) * 3 <= total.len(),
                out@ == total.take((row * width + col) * 3),
            decreases width - col,
        {
            assert(col * n_channels <= (width - 1) * n_channels) by (nonlinear_arith)
                requires
                    col <= width - 1,
                    0 <= n_channels,
            ;
            assert(row * rowstride + col * n_channels <= (height - 1) * rowstride + (width - 1) * n_channels) by (nonlinear_arith)
                requires
                    row <= height - 1,
                    col <= width - 1,
                    0 <= rowstride,
                    0 <= n_channels,
            ;
            let px = row_offset + (col * n_channels) as usize;
            let ghost t: int = (row * width + col) * 3;
            assert((row * width + col + 1) * 3 <= width * height * 3) by (nonlinear_arith)
                requires
                    row + 1 <= height,
                    col + 1 <= width,
                    0 <= row,
                    0 <= col,
            ;
            proof {
                lemma_rgb_index(row as int, col as int, 0, rowstride as int, n_channels as int, width as int);
                lemma_rgb_index(row as int, col as int, 1, rowstride as int, n_channels as int, width as int);
                lemma_rgb_index(row as int, col as int, 2, rowstride as int, n_channels as int, width as int);
                assert(total[t] == pixels@[px as int]);
                assert(total[t + 1] == pixels@[px + 1]);
                assert(total[t + 2] == pixels@[px + 2]);
            }
            out.push(pixels[px]);
            out.push(pixels[px + 1]);
            out.push(pixels[px + 2]);
            assert(out@ =~= total.take((row * width + col + 1) * 3));
            col = col + 1;
        }
        assert((row + 1) * width * 3 == (row * width + width) * 3) by (nonlinear_arith);
        row = row + 1;
    }
    assert(row * width * 3 == total.len()) by (nonlinear_arith)
        requires
            row == height,
            total.len() == width * height * 3,
    ;
    assert(out@ =~= total);
    out
}

} // verus!
