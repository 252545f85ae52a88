//! Deterministic pixel content for the window's single buffer.
//!
//! The compositor protocol expects the buffer's backing store to hold
//! `width * height` pixels of four bytes each, written row by row in the
//! order blue, green, red, alpha. The content is a fixed two-axis gradient:
//! each channel is a ratio of the pixel's distance to an image edge, scaled
//! to the byte range. The stream is a pure function of the dimensions alone.

use vstd::arithmetic::div_mod::{
    lemma_div_by_multiple, lemma_div_is_ordered, lemma_fundamental_div_mod_converse_div,
    lemma_fundamental_div_mod_converse_mod,
};
use vstd::arithmetic::mul::lemma_mul_inequality;
use vstd::prelude::*;

verus! {

/// Mathematical minimum of two integers.
pub open spec fn spec_min(a: int, b: int) -> int {
    if a <= b {
        a
    } else {
        b
    }
}

/// Red channel at pixel (x, y) of a width-by-height image.
pub open spec fn red_at(width: int, height: int, x: int, y: int) -> int {
    spec_min(((width - x) * 0xFF) / width, ((height - y) * 0xFF) / height)
}

/// Green channel at pixel (x, y) of a width-by-height image.
pub open spec fn green_at(width: int, height: int, x: int, y: int) -> int {
    spec_min((x * 0xFF) / width, ((height - y) * 0xFF) / height)
}

/// Blue channel at pixel (x, y) of a width-by-height image.
pub open spec fn blue_at(width: int, height: int, x: int, y: int) -> int {
    spec_min(((width - x) * 0xFF) / width, (y * 0xFF) / height)
}

/// Byte `i` of the generated stream: four bytes per pixel in the order
/// blue, green, red, alpha; pixels in row-major order.
pub open spec fn byte_at(width: int, height: int, i: int) -> u8 {
    let pixel = i / 4;
    let channel = i % 4;
    let x = pixel % width;
    let y = pixel / width;
    if channel == 0 {
        blue_at(width, height, x, y) as u8
    } else if channel == 1 {
        green_at(width, height, x, y) as u8
    } else if channel == 2 {
        red_at(width, height, x, y) as u8
    } else {
        0xFF
    }
}

/// The whole generated stream for a width-by-height image.
pub open spec fn pixel_bytes(width: int, height: int) -> Seq<u8> {
    Seq::new((4 * width * height) as nat, |i: int| byte_at(width, height, i))
}

/// The generated content is a pure function of the dimensions alone, and its
/// length is always exactly `4 * width * height`.
pub proof fn lemma_pixel_stream_pure(width: int, height: int)
    requires
        0 <= width,
        0 <= height,
    ensures
        pixel_bytes(width, height).len() == 4 * width * height,
        forall|i: int|
            0 <= i < 4 * width * height ==> pixel_bytes(width, height)[i] == byte_at(
                width,
                height,
                i,
            ),
{
    assert(0 <= 4 * width * height) by (nonlinear_arith)
        requires
            0 <= width,
            0 <= height,
    ;
}

/// Byte layout of a width-by-height buffer: the stride (bytes per row) and
/// the exact backing-store size. The size covers stride-times-height bytes,
/// which is what a pool sized exactly to the generated content must hold.
pub fn buffer_layout(width: u32, height: u32) -> (layout: (u32, u32))
    requires
        1 <= width,
        1 <= height,
        4 * width * height <= u32::MAX,
    ensures
        layout.0 == 4 * width,
        layout.1 == 4 * width * height,
        layout.1 == layout.0 * height,
        layout.1 == pixel_bytes(width as int, height as int).len(),
{
    proof {
        assert(4 * width <= 4 * width * height && (4 * width) * height == 4 * width * height)
            by (nonlinear_arith)
            requires
                1 <= width,
                1 <= height,
        ;
        lemma_pixel_stream_pure(width as int, height as int);
    }
    let stride = 4 * width;
    (stride, stride * height)
}

/// A scaled edge-distance ratio: `(num * 0xFF) / denom`, which stays within
/// the byte range whenever `num <= denom`.
fn scaled(num: u32, denom: u32) -> (q: u32)
    requires
        1 <= denom,
        num <= denom,
        denom * 0xFF <= u32::MAX,
    ensures
        q == (num * 0xFF) / (denom as int),
        q <= 0xFF,
{
    proof {
        lemma_mul_inequality(num as int, denom as int, 0xFF);
        lemma_div_is_ordered(num * 0xFF, denom * 0xFF, denom as int);
        lemma_div_by_multiple(0xFF, denom as int);
        assert(denom * 0xFF == 0xFF * denom) by (nonlinear_arith);
    }
    (num * 0xFF) / denom
}

/// Minimum of two machine integers.
fn min_u32(a: u32, b: u32) -> (m: u32)
    ensures
        m == spec_min(a as int, b as int),
{
    if a <= b {
        a
    } else {
        b
    }
}

/// Produces the pixel stream for a width-by-height image: exactly
/// `4 * width * height` bytes, pinned byte for byte to [`pixel_bytes`].
/// Calling it twice with the same dimensions yields identical output.
pub fn generate_pixels(width: u32, height: u32) -> (bytes: Vec<u8>)
    requires
        1 <= width,
        1 <= height,
        width * 0xFF <= u32::MAX,
        height * 0xFF <= u32::MAX,
        4 * width * height <= u32::MAX,
    ensures
        bytes@ == pixel_bytes(width as int, height as int),
        bytes@.len() == 4 * width * height,
{
    let ghost w = width as int;
    let ghost h = height as int;
    let mut bytes: Vec<u8> = Vec::new();
    let mut y: u32 = 0;
    while y < height
        invariant
            1 <= width,
            1 <= height,
            width * 0xFF <= u32::MAX,
            height * 0xFF <= u32::MAX,
            4 * width * height <= u32::MAX,
            w == width as int,
            h == height as int,
            y <= height,
            bytes@.len() == 4 * (y * width),
            forall|i: int| 0 <= i < bytes@.len() ==> bytes@[i] == byte_at(w, h, i),
        decreases height - y,
    {
        let mut x: u32 = 0;
        while x < width
            invariant
                1 <= width,
                1 <= height,
                width * 0xFF <= u32::MAX,
                height * 0xFF <= u32::MAX,
                4 * width * height <= u32::MAX,
                w == width as int,
                h == height as int,
                y < height,
                x <= width,
                bytes@.len() == 4 * (y * width + x),
                forall|i: int| 0 <= i < bytes@.len() ==> bytes@[i] == byte_at(w, h, i),
            decreases width - x,
        {
            proof {
                assert(y * width + x < width * height) by (nonlinear_arith)
                    requires
                        0 <= x < width,
                        0 <= y < height,
                ;
                assert(4 * (y * width + x) + 4 <= 4 * (width * height)) by (nonlinear_arith)
                    requires
                        y * width + x < width * height,
                ;
                assert(4 * (width * height) == 4 * width * height) by (nonlinear_arith);
            }
            let blue = min_u32(scaled(width - x, width), scaled(y, height));
            let green = min_u32(scaled(x, width), scaled(height - y, height));
            let red = min_u32(scaled(width - x, width), scaled(height - y, height));
            let ghost pixel = y as int * w + x as int;
            proof {
                lemma_fundamental_div_mod_converse_div(pixel, w, y as int, x as int);
                lemma_fundamental_div_mod_converse_mod(pixel, w, y as int, x as int);
                lemma_fundamental_div_mod_converse_div(4 * pixel, 4, pixel, 0);
                lemma_fundamental_div_mod_converse_mod(4 * pixel, 4, pixel, 0);
                lemma_fundamental_div_mod_converse_div(4 * pixel + 1, 4, pixel, 1);
                lemma_fundamental_div_mod_converse_mod(4 * pixel + 1, 4, pixel, 1);
                lemma_fundamental_div_mod_converse_div(4 * pixel + 2, 4, pixel, 2);
                lemma_fundamental_div_mod_converse_mod(4 * pixel + 2, 4, pixel, 2);
                lemma_fundamental_div_mod_converse_div(4 * pixel + 3, 4, pixel, 3);
                lemma_fundamental_div_mod_converse_mod(4 * pixel + 3, 4, pixel, 3);
            }
            bytes.push(blue as u8);
            bytes.push(green as u8);
            bytes.push(red as u8);
            bytes.push(0xFF);
            x = x + 1;
        }
        proof {
            assert(4 * (y * width + width) == 4 * ((y + 1) * width)) by (nonlinear_arith);
        }
        y = y + 1;
    }
    proof {
        assert(4 * (height * width) == 4 * width * height) by (nonlinear_arith);
        assert(bytes@ =~= pixel_bytes(w, h));
    }
    bytes
}

} // verus!
