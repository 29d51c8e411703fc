//! The raster-image command: a bitmap thresholded to ink and no ink, packed
//! eight pixels to a byte.

use vstd::prelude::*;
use crate::bitmap::{Bitmap, Raster};

verus! {

/// Intensities below this value are printed as ink.
pub const INK_THRESHOLD: u8 = 128;

/// The number of bytes that hold one packed row of `width` pixels.
pub open spec fn row_bytes(width: nat) -> nat {
    (width + 7) / 8
}

/// Whether the image fits the command's header, which has two bytes for the
/// row length in bytes and two for the number of rows.
pub open spec fn fits_raster_header(r: Raster) -> bool {
    row_bytes(r.width) <= 0xFFFF && r.height <= 0xFFFF
}

/// Whether the printer puts ink at column `x` of row `y`. Columns to the
/// right of the image never get ink.
pub open spec fn is_ink(r: Raster, x: int, y: int) -> bool {
    x < r.width && r.pixel(x, y) < INK_THRESHOLD
}

/// The bit that stands for the `k`-th pixel of a byte. The leftmost pixel is
/// the most significant bit.
pub open spec fn pixel_bit(k: nat) -> u8 {
    0x80u8 >> k
}

/// Byte `xb` of row `y` with only its first `n` pixels packed.
pub open spec fn packed_bits(r: Raster, y: int, xb: int, n: nat) -> u8
    decreases n,
{
    if n == 0 {
        0
    } else {
        let k = (n - 1) as nat;
        let earlier = packed_bits(r, y, xb, k);
        if is_ink(r, xb * 8 + k, y) {
            earlier | pixel_bit(k)
        } else {
            earlier
        }
    }
}

/// Byte `xb` of row `y`: the eight pixels from column `8 * xb` on.
pub open spec fn packed_byte(r: Raster, y: int, xb: int) -> u8 {
    packed_bits(r, y, xb, 8)
}

/// Row `y`, packed.
pub open spec fn packed_row(r: Raster, y: int) -> Seq<u8> {
    Seq::new(row_bytes(r.width), |xb: int| packed_byte(r, y, xb))
}

/// The first `n` rows, packed, one after the other.
pub open spec fn packed_rows(r: Raster, n: nat) -> Seq<u8>
    decreases n,
{
    if n == 0 {
        Seq::empty()
    } else {
        packed_rows(r, (n - 1) as nat) + packed_row(r, n - 1)
    }
}

/// The eight header bytes: the raster-image selector with mode 0, then the
/// row length in bytes and the number of rows, each as two bytes with the
/// low byte first.
pub open spec fn raster_header(r: Raster) -> Seq<u8> {
    seq![
        0x1Du8,
        0x76u8,
        0x30u8,
        0x00u8,
        (row_bytes(r.width) % 256) as u8,
        (row_bytes(r.width) / 256) as u8,
        (r.height % 256) as u8,
        (r.height / 256) as u8,
    ]
}

/// The whole raster-image command for `r`.
pub open spec fn raster_command(r: Raster) -> Seq<u8> {
    raster_header(r) + packed_rows(r, r.height)
}

/// `n` packed rows take `n` times the row length.
pub proof fn packed_rows_len(r: Raster, n: nat)
    ensures
        packed_rows(r, n).len() == n * row_bytes(r.width),
    decreases n,
{
    let rb = row_bytes(r.width);
    if n > 0 {
        packed_rows_len(r, (n - 1) as nat);
        assert(n * rb == (n - 1) * rb + rb) by (nonlinear_arith);
    } else {
        assert(n * rb == 0) by (nonlinear_arith)
            requires
                n == 0,
        ;
    }
}

/// The packed data is row-major: byte `xb` of row `y` stands at offset
/// `y * row_bytes + xb`.
pub proof fn packed_rows_index(r: Raster, n: nat, y: int, xb: int)
    requires
        0 <= y < n,
        0 <= xb < row_bytes(r.width),
    ensures
        0 <= y * row_bytes(r.width) + xb < packed_rows(r, n).len(),
        packed_rows(r, n)[y * row_bytes(r.width) + xb] == packed_byte(r, y, xb),
    decreases n,
{
    let rb = row_bytes(r.width);
    packed_rows_len(r, n);
    packed_rows_len(r, (n - 1) as nat);
    assert(0 <= y * rb <= (n - 1) * rb && n * rb == (n - 1) * rb + rb) by (nonlinear_arith)
        requires
            0 <= y < n,
            0 <= rb,
    ;
    if y < n - 1 {
        packed_rows_index(r, (n - 1) as nat, y, xb);
    } else {
        assert(packed_row(r, y)[xb] == packed_byte(r, y, xb));
    }
}

/// The length of the command: eight header bytes and the packed rows.
pub proof fn raster_command_len(r: Raster)
    ensures
        raster_command(r).len() == 8 + r.height * row_bytes(r.width),
{
    packed_rows_len(r, r.height);
}

/// A pixel decides exactly one bit, the most significant bit standing for
/// the leftmost pixel: bit `k` of a packed byte is set if and only if the
/// printer puts ink at column `8 * xb + k`.
pub proof fn packed_byte_bits(r: Raster, y: int, xb: int, k: nat)
    requires
        k < 8,
    ensures
        packed_byte(r, y, xb) & pixel_bit(k) != 0 <==> is_ink(r, xb * 8 + k, y),
{
    packed_bits_bits(r, y, xb, 8, k);
}

proof fn packed_bits_bits(r: Raster, y: int, xb: int, n: nat, k: nat)
    requires
        n <= 8,
        k < 8,
    ensures
        packed_bits(r, y, xb, n) & pixel_bit(k) != 0 <==> k < n && is_ink(r, xb * 8 + k, y),
    decreases n,
{
    let mask = pixel_bit(k);
    if n == 0 {
        assert(0u8 & mask == 0) by (bit_vector);
    } else {
        let j = (n - 1) as nat;
        let earlier = packed_bits(r, y, xb, j);
        packed_bits_bits(r, y, xb, j, k);
        let (j8, k8) = (j as u8, k as u8);
        assert(((earlier | (0x80u8 >> j8)) & (0x80u8 >> k8) != 0) <==> (earlier & (0x80u8 >> k8)
            != 0 || j8 == k8)) by (bit_vector)
            requires
                j8 < 8,
                k8 < 8,
        ;
    }
}

/// Where the width is not a multiple of eight, the bits of a row's last
/// byte that stand for no pixel are 0.
pub proof fn padding_bits_are_zero(r: Raster, y: int)
    requires
        r.width % 8 != 0,
    ensures
        packed_byte(r, y, row_bytes(r.width) - 1) & (0xFFu8 >> (r.width % 8)) == 0,
{
    padding_bits_stay_zero(r, y, 8);
}

proof fn padding_bits_stay_zero(r: Raster, y: int, n: nat)
    requires
        r.width % 8 != 0,
        n <= 8,
    ensures
        packed_bits(r, y, row_bytes(r.width) - 1, n) & (0xFFu8 >> (r.width % 8)) == 0,
    decreases n,
{
    let used = (r.width % 8) as u8;
    let xb = row_bytes(r.width) - 1;
    if n == 0 {
        assert(0u8 & (0xFFu8 >> used) == 0) by (bit_vector);
    } else {
        let j = (n - 1) as nat;
        let earlier = packed_bits(r, y, xb, j);
        padding_bits_stay_zero(r, y, j);
        if is_ink(r, xb * 8 + j, y) {
            let j8 = j as u8;
            assert((earlier | (0x80u8 >> j8)) & (0xFFu8 >> used) == 0) by (bit_vector)
                requires
                    j8 < used,
                    used < 8,
                    earlier & (0xFFu8 >> used) == 0,
            ;
        }
    }
}

/// In the command itself: where the width is not a multiple of eight, the
/// last byte of every row, which stands `8 + y * row_bytes + row_bytes - 1`
/// bytes into the command, has 0 in the bits that stand for no pixel.
pub proof fn command_padding_bits_are_zero(r: Raster, y: int)
    requires
        r.width % 8 != 0,
        0 <= y < r.height,
    ensures
        ({
            let last = 8 + y * row_bytes(r.width) + row_bytes(r.width) - 1;
            &&& 8 <= last < raster_command(r).len()
            &&& raster_command(r)[last] & (0xFFu8 >> (r.width % 8)) == 0
        }),
{
    let rb = row_bytes(r.width);
    packed_rows_index(r, r.height, y, rb - 1);
    padding_bits_are_zero(r, y);
    let at = y * rb + rb - 1;
    assert(raster_command(r)[8 + at] == packed_rows(r, r.height)[at]);
}

/// An image of 200 by 200 pixels gives rows of 25 bytes, a header that says
/// so, and 5000 bytes of packed data.
pub proof fn raster_command_of_200_square(r: Raster)
    requires
        r.width == 200,
        r.height == 200,
    ensures
        raster_header(r) == seq![0x1Du8, 0x76u8, 0x30u8, 0x00u8, 25u8, 0u8, 200u8, 0u8],
        raster_command(r).take(8) == raster_header(r),
        packed_rows(r, r.height).len() == 25 * 200,
        raster_command(r).len() == 8 + 25 * 200,
{
    packed_rows_len(r, 200);
    assert(raster_header(r) =~= seq![0x1Du8, 0x76u8, 0x30u8, 0x00u8, 25u8, 0u8, 200u8, 0u8]);
    assert(raster_command(r).take(8) =~= raster_header(r));
}

/// Tells whether `gray` fits the header of the raster command, so that
/// `pack_raster` may be called on it.
pub fn fits_header(gray: &Bitmap) -> (fits: bool)
    ensures
        fits == fits_raster_header(gray@),
{
    gray.width() <= 8 * 0xFFFF && gray.height() <= 0xFFFF
}

/// Packs one byte: the eight pixels of row `y` from column `8 * xb` on.
fn pack_byte(gray: &Bitmap, y: u32, xb: u32) -> (byte: u8)
    requires
        y < gray@.height,
        xb < row_bytes(gray@.width),
    ensures
        byte == packed_byte(gray@, y as int, xb as int),
{
    let width = gray.width();
    let mut byte: u8 = 0;
    let mut bit: u32 = 0;
    while bit < 8
        invariant
            bit <= 8,
            width == gray@.width,
            y < gray@.height,
            xb < row_bytes(gray@.width),
            byte == packed_bits(gray@, y as int, xb as int, bit as nat),
        decreases 8 - bit,
    {
        let x: u32 = xb * 8 + bit;
        if x < width {
            let intensity = gray.get_pixel(x, y);
            if intensity < INK_THRESHOLD {
                byte = byte | (0x80u8 >> bit);
            }
        }
        bit += 1;
    }
    byte
}

/// Builds the raster-image command for a grayscale image: the header, then
/// the rows from the top, each pixel below the threshold packed as a 1 bit.
pub fn pack_raster(gray: &Bitmap) -> (bytes: Vec<u8>)
    requires
        fits_raster_header(gray@),
    ensures
        bytes@ == raster_command(gray@),
{
    let width = gray.width();
    let height = gray.height();
    let width_bytes: u32 = (width + 7) / 8;
    let mut bytes: Vec<u8> = Vec::new();
    bytes.push(0x1D);
    bytes.push(0x76);
    bytes.push(0x30);
    bytes.push(0x00);
    assert(width_bytes & 0xFF == width_bytes % 256 && width_bytes >> 8 == width_bytes / 256
        && height & 0xFF == height % 256 && height >> 8 == height / 256) by (bit_vector);
    bytes.push((width_bytes & 0xFF) as u8);
    bytes.push((width_bytes >> 8) as u8);
    bytes.push((height & 0xFF) as u8);
    bytes.push((height >> 8) as u8);
    assert(bytes@ =~= raster_header(gray@));

    let mut y: u32 = 0;
    while y < height
        invariant
            y <= height,
            height == gray@.height,
            width_bytes == row_bytes(gray@.width),
            bytes@ == raster_header(gray@) + packed_rows(gray@, y as nat),
        decreases height - y,
    {
        let mut xb: u32 = 0;
        while xb < width_bytes
            invariant
                xb <= width_bytes,
                y < height,
                height == gray@.height,
                width_bytes == row_bytes(gray@.width),
                bytes@ == raster_header(gray@) + packed_rows(gray@, y as nat) + packed_row(
                    gray@,
                    y as int,
                ).take(xb as int),
            decreases width_bytes - xb,
        {
            let byte = pack_byte(gray, y, xb);
            bytes.push(byte);
            proof {
                let row = packed_row(gray@, y as int);
                assert(row.take(xb + 1) =~= row.take(xb as int).push(row[xb as int]));
            }
            xb += 1;
        }
        proof {
            let row = packed_row(gray@, y as int);
            assert(row.take(width_bytes as int) =~= row);
        }
        y += 1;
    }
    bytes
}

} // verus!
