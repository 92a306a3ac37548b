//! The packed framebuffer model: how an `(x, y)` pixel coordinate maps onto
//! a byte and bit of the page-organized buffer, and what setting or
//! clearing one pixel does to it.
//!
//! The buffer holds `height / 8` pages of `width` bytes each; bit `b` of
//! byte `x + page * width` holds the pixel at `(x, page * 8 + b)`.

use vstd::prelude::*;
use vstd::arithmetic::div_mod::lemma_fundamental_div_mod_converse;
use vstd::arithmetic::mul::lemma_mul_inequality;

verus! {

/// Whether `(x, y)` lies on the panel.
pub open spec fn in_bounds(width: u8, height: u8, x: int, y: int) -> bool {
    0 <= x < width as int && 0 <= y < height as int
}

/// The index of the buffer byte holding pixel `(x, y)`.
pub open spec fn pixel_index(width: u8, x: int, y: int) -> int {
    x + (y / 8) * (width as int)
}

/// The single-bit mask of pixel `(x, y)` within its buffer byte.
pub open spec fn pixel_mask(y: int) -> u8 {
    1u8 << ((y % 8) as u8)
}

/// The buffer length a `width` x `height` panel needs: `height / 8` pages
/// of `width` bytes, i.e. one bit per pixel.
pub open spec fn frame_len(width: u8, height: u8) -> int {
    (height as int / 8) * (width as int)
}

/// The buffer after pixel `(x, y)` is driven to `on`: the mapped byte gets
/// its mapped bit set or cleared, every other byte stays.
pub open spec fn spec_set_pixel(buf: Seq<u8>, width: u8, x: int, y: int, on: bool) -> Seq<u8> {
    let i = pixel_index(width, x, y);
    if on {
        buf.update(i, buf[i] | pixel_mask(y))
    } else {
        buf.update(i, buf[i] & !pixel_mask(y))
    }
}

/// Whether pixel `(x, y)` is on in `buf`; the inverse of the mapping.
pub open spec fn spec_pixel(buf: Seq<u8>, width: u8, x: int, y: int) -> bool {
    buf[pixel_index(width, x, y)] & pixel_mask(y) != 0u8
}

/// An all-zero buffer of the given length: every pixel off.
pub open spec fn zero_frame(len: int) -> Seq<u8> {
    Seq::new(len as nat, |i: int| 0u8)
}

/// The byte index of every in-bounds pixel lies inside the buffer.
pub proof fn lemma_pixel_index_in_range(width: u8, height: u8, x: int, y: int)
    requires
        height % 8 == 0,
        in_bounds(width, height, x, y),
    ensures
        0 <= pixel_index(width, x, y) < frame_len(width, height),
{
    let w = width as int;
    let h = height as int;
    assert(y / 8 < h / 8) by (nonlinear_arith)
        requires
            0 <= y < h,
            h % 8 == 0,
    ;
    lemma_mul_inequality(y / 8 + 1, h / 8, w);
    assert((y / 8) * w + w == (y / 8 + 1) * w) by (nonlinear_arith);
}

/// Distinct in-bounds coordinates that share a buffer byte occupy distinct
/// bits of it: the coordinate-to-(byte, bit) mapping is injective.
proof fn lemma_pixel_index_injective(width: u8, height: u8, x: int, y: int, x2: int, y2: int)
    requires
        height % 8 == 0,
        in_bounds(width, height, x, y),
        in_bounds(width, height, x2, y2),
        pixel_index(width, x, y) == pixel_index(width, x2, y2),
    ensures
        x == x2,
        y / 8 == y2 / 8,
{
    let w = width as int;
    let i = pixel_index(width, x, y);
    lemma_fundamental_div_mod_converse(i, w, y / 8, x);
    lemma_fundamental_div_mod_converse(i, w, y2 / 8, x2);
}

/// Reading a pixel back right after setting it yields the value written.
pub proof fn lemma_set_pixel_reads_back(buf: Seq<u8>, width: u8, height: u8, x: int, y: int, on: bool)
    requires
        height % 8 == 0,
        buf.len() == frame_len(width, height),
        in_bounds(width, height, x, y),
    ensures
        spec_pixel(spec_set_pixel(buf, width, x, y, on), width, x, y) == on,
{
    lemma_pixel_index_in_range(width, height, x, y);
    let i = pixel_index(width, x, y);
    let b: u8 = (y % 8) as u8;
    let v: u8 = buf[i];
    assert(((v | (1u8 << b)) & (1u8 << b)) != 0) by (bit_vector)
        requires
            b < 8,
    ;
    assert(((v & !(1u8 << b)) & (1u8 << b)) == 0) by (bit_vector);
}

/// Setting a pixel leaves every other pixel of the buffer as it was: the
/// seven sibling bits packed into the same byte, and every other byte.
pub proof fn lemma_set_pixel_other_pixels_unchanged(
    buf: Seq<u8>,
    width: u8,
    height: u8,
    x: int,
    y: int,
    on: bool,
    x2: int,
    y2: int,
)
    requires
        height % 8 == 0,
        buf.len() == frame_len(width, height),
        in_bounds(width, height, x, y),
        in_bounds(width, height, x2, y2),
        !(x2 == x && y2 == y),
    ensures
        spec_pixel(spec_set_pixel(buf, width, x, y, on), width, x2, y2) == spec_pixel(
            buf,
            width,
            x2,
            y2,
        ),
{
    lemma_pixel_index_in_range(width, height, x, y);
    lemma_pixel_index_in_range(width, height, x2, y2);
    let i = pixel_index(width, x, y);
    let i2 = pixel_index(width, x2, y2);
    if i == i2 {
        lemma_pixel_index_injective(width, height, x, y, x2, y2);
        let b: u8 = (y % 8) as u8;
        let b2: u8 = (y2 % 8) as u8;
        let v: u8 = buf[i2];
        assert(((v | (1u8 << b)) & (1u8 << b2)) == (v & (1u8 << b2))) by (bit_vector)
            requires
                b < 8,
                b2 < 8,
                b != b2,
        ;
        assert(((v & !(1u8 << b)) & (1u8 << b2)) == (v & (1u8 << b2))) by (bit_vector)
            requires
                b < 8,
                b2 < 8,
                b != b2,
        ;
    }
}

/// Setting a pixel that was off and then clearing it again restores the
/// buffer byte-for-byte.
pub proof fn lemma_set_pixel_round_trip(buf: Seq<u8>, width: u8, height: u8, x: int, y: int)
    requires
        height % 8 == 0,
        buf.len() == frame_len(width, height),
        in_bounds(width, height, x, y),
        !spec_pixel(buf, width, x, y),
    ensures
        spec_set_pixel(spec_set_pixel(buf, width, x, y, true), width, x, y, false) == buf,
{
    lemma_pixel_index_in_range(width, height, x, y);
    let i = pixel_index(width, x, y);
    let b: u8 = (y % 8) as u8;
    let v: u8 = buf[i];
    assert(((v | (1u8 << b)) & !(1u8 << b)) == v) by (bit_vector)
        requires
            b < 8,
            v & (1u8 << b) == 0,
    ;
    assert(spec_set_pixel(spec_set_pixel(buf, width, x, y, true), width, x, y, false) =~= buf);
}

/// After a clear, reading any in-bounds pixel through the inverse of the
/// mapping yields off.
pub proof fn lemma_clear_pixels_off(width: u8, height: u8, x: int, y: int)
    requires
        height % 8 == 0,
        in_bounds(width, height, x, y),
    ensures
        !spec_pixel(zero_frame(frame_len(width, height)), width, x, y),
{
    lemma_pixel_index_in_range(width, height, x, y);
    let b: u8 = (y % 8) as u8;
    assert((0u8 & (1u8 << b)) == 0) by (bit_vector);
}

/// Allocates an all-zero buffer of the given length.
pub fn zero_buffer(len: usize) -> (r: Vec<u8>)
    ensures
        r@ == zero_frame(len as int),
{
    let mut v: Vec<u8> = Vec::new();
    while v.len() < len
        invariant
            v@.len() <= len,
            forall|i: int| 0 <= i < v@.len() ==> v@[i] == 0u8,
        decreases len - v.len(),
    {
        v.push(0u8);
    }
    proof {
        assert(v@ =~= zero_frame(len as int));
    }
    v
}

} // verus!
