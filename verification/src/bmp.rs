//! Whether the pixels of a palette BMP image (the BMP form of an `.ico`
//! entry) stay within the colour table its header declares.
use vstd::prelude::*;

verus! {

/// The 16-bit little-endian number at offset `o`.
pub open spec fn le_u16(d: Seq<u8>, o: int) -> int {
    d[o] as int + 256 * d[o + 1]
}

/// The 32-bit little-endian number at offset `o`.
pub open spec fn le_u32(d: Seq<u8>, o: int) -> int {
    d[o] as int + 256 * d[o + 1] + 65536 * d[o + 2] + 16777216 * d[o + 3]
}

/// Whether the data starts like a PNG file (`\x89PNG`), which is how an
/// `.ico` entry holding a PNG image is told from one holding a BMP.
pub open spec fn png_signature(d: Seq<u8>) -> bool {
    d.len() >= 4 && d[0] == 0x89 && d[1] == 0x50 && d[2] == 0x4e && d[3] == 0x47
}

/// The image width from the BMP header.
pub open spec fn bmp_width(d: Seq<u8>) -> int {
    le_u32(d, 4)
}

/// The image height: the header stores it doubled (colour rows and mask
/// rows).
pub open spec fn bmp_height(d: Seq<u8>) -> int {
    le_u32(d, 8) / 2
}

/// Bits per pixel, from the BMP header.
pub open spec fn bmp_bpp(d: Seq<u8>) -> int {
    le_u16(d, 14)
}

/// The most colours a palette of this depth can have.
pub open spec fn palette_max(bpp: int) -> int {
    if bpp == 1 {
        2
    } else if bpp == 4 {
        16
    } else {
        256
    }
}

/// The colour table's length: the header's count of colours used, or the
/// depth's full palette when that count is 0 or too large.
pub open spec fn palette_len(d: Seq<u8>) -> int {
    let used = le_u32(d, 32);
    let max = palette_max(bmp_bpp(d));
    if used == 0 || used > max {
        max
    } else {
        used
    }
}

/// The bytes of pixel data in one row, before padding.
pub open spec fn row_bytes(d: Seq<u8>) -> int {
    let w = bmp_width(d);
    if bmp_bpp(d) == 1 {
        (w + 7) / 8
    } else if bmp_bpp(d) == 4 {
        (4 * w + 7) / 8
    } else {
        w
    }
}

/// The bytes of one row, padded to a multiple of four.
pub open spec fn row_stride(d: Seq<u8>) -> int {
    ((row_bytes(d) + 3) / 4) * 4
}

/// Where the pixel rows start: after the 40-byte header and the colour
/// table (four bytes per colour).
pub open spec fn pixels_start(d: Seq<u8>) -> int {
    40 + 4 * palette_len(d)
}

/// The offset of the byte holding pixel `c` of stored row `r`.
pub open spec fn pixel_offset(d: Seq<u8>, r: int, c: int) -> int {
    pixels_start(d) + r * row_stride(d) + if bmp_bpp(d) == 8 {
        c
    } else if bmp_bpp(d) == 4 {
        c / 2
    } else {
        c / 8
    }
}

/// `2` to the power `7 - k`, for a bit position `k` counted from the most
/// significant bit.
pub open spec fn msb_divisor(k: int) -> int {
    if k == 0 {
        128
    } else if k == 1 {
        64
    } else if k == 2 {
        32
    } else if k == 3 {
        16
    } else if k == 4 {
        8
    } else if k == 5 {
        4
    } else if k == 6 {
        2
    } else {
        1
    }
}

/// The colour index of pixel `c` of stored row `r`: the whole byte at 8
/// bits, the high then the low nibble at 4 bits, the bits from the most
/// significant one at 1 bit.
pub open spec fn pixel_index(d: Seq<u8>, r: int, c: int) -> int {
    let b = d[pixel_offset(d, r, c)] as int;
    if bmp_bpp(d) == 8 {
        b
    } else if bmp_bpp(d) == 4 {
        if c % 2 == 0 {
            b / 16
        } else {
            b % 16
        }
    } else {
        (b / msb_divisor(c % 8)) % 2
    }
}

/// Pixel `c` of stored row `r` is present in the data and names a colour
/// past the end of the table.
pub open spec fn pixel_outside_palette(d: Seq<u8>, r: int, c: int) -> bool {
    pixel_offset(d, r, c) < d.len() && pixel_index(d, r, c) >= palette_len(d)
}

/// The data is a BMP image with a valid header (40-byte header, positive
/// width, positive even doubled height, at most 8192 × 8192 pixels) at 1, 4
/// or 8 bits per pixel whose colour table is shorter than its depth allows.
pub open spec fn short_palette_header(d: Seq<u8>) -> bool {
    &&& !png_signature(d)
    &&& d.len() >= 40
    &&& le_u32(d, 0) == 40
    &&& 1 <= le_u32(d, 4) < 0x8000_0000
    &&& 2 <= le_u32(d, 8) < 0x8000_0000
    &&& le_u32(d, 8) % 2 == 0
    &&& (bmp_bpp(d) == 1 || bmp_bpp(d) == 4 || bmp_bpp(d) == 8)
    &&& palette_len(d) < palette_max(bmp_bpp(d))
    &&& bmp_width(d) * bmp_height(d) <= 8192 * 8192
}

/// A BMP image some present pixel of which names a colour past the end of
/// its short colour table.
pub open spec fn palette_overflow(d: Seq<u8>) -> bool {
    &&& short_palette_header(d)
    &&& exists|r: int, c: int|
        0 <= r < bmp_height(d) && 0 <= c < bmp_width(d) && #[trigger] pixel_outside_palette(d, r, c)
}

fn le_u16_at(d: &[u8], o: usize) -> (r: u64)
    requires
        o + 2 <= d@.len(),
    ensures
        r == le_u16(d@, o as int),
{
    d[o] as u64 + 256 * (d[o + 1] as u64)
}

fn le_u32_at(d: &[u8], o: usize) -> (r: u64)
    requires
        o + 4 <= d@.len(),
    ensures
        r == le_u32(d@, o as int),
{
    d[o] as u64 + 256 * (d[o + 1] as u64) + 65536 * (d[o + 2] as u64) + 16777216 * (d[o + 3] as u64)
}

fn bit_from_msb(b: u64, k: u64) -> (r: u64)
    requires
        k < 8,
    ensures
        r == (b as int / msb_divisor(k as int)) % 2,
{
    if k == 0 {
        (b / 128) % 2
    } else if k == 1 {
        (b / 64) % 2
    } else if k == 2 {
        (b / 32) % 2
    } else if k == 3 {
        (b / 16) % 2
    } else if k == 4 {
        (b / 8) % 2
    } else if k == 5 {
        (b / 4) % 2
    } else if k == 6 {
        (b / 2) % 2
    } else {
        b % 2
    }
}

/// Whether every present pixel of the image names a colour of its table;
/// `true` for anything that is not such a BMP image.
pub fn palette_in_range(data: &[u8]) -> (r: bool)
    ensures
        r == !palette_overflow(data@),
{
    let n = data.len();
    if n >= 4 && data[0] == 0x89 && data[1] == 0x50 && data[2] == 0x4e && data[3] == 0x47 {
        return true;
    }
    if n < 40 {
        return true;
    }
    if le_u32_at(data, 0) != 40 {
        return true;
    }
    let w = le_u32_at(data, 4);
    if !(1 <= w && w < 0x8000_0000) {
        return true;
    }
    let hu = le_u32_at(data, 8);
    if !(2 <= hu && hu < 0x8000_0000 && hu % 2 == 0) {
        return true;
    }
    let h = hu / 2;
    let bpp = le_u16_at(data, 14);
    if !(bpp == 1 || bpp == 4 || bpp == 8) {
        return true;
    }
    let max: u64 = if bpp == 1 {
        2
    } else if bpp == 4 {
        16
    } else {
        256
    };
    let used = le_u32_at(data, 32);
    let colors = if used == 0 || used > max {
        max
    } else {
        used
    };
    if colors >= max {
        return true;
    }
    assert(w * h < 0x4000_0000_0000_0000) by (nonlinear_arith)
        requires
            w < 0x8000_0000,
            h < 0x8000_0000,
    ;
    if w * h > 8192 * 8192 {
        return true;
    }
    let ghost d = data@;
    assert(short_palette_header(d));
    let row: u64 = if bpp == 1 {
        (w + 7) / 8
    } else if bpp == 4 {
        (4 * w + 7) / 8
    } else {
        w
    };
    let stride: u64 = ((row + 3) / 4) * 4;
    let start: u64 = 40 + 4 * colors;
    assert(row == row_bytes(d) && stride == row_stride(d) && start == pixels_start(d));
    assert(stride < 0x1_0000_0000);
    assert(h * stride < 0x8000_0000_0000_0000) by (nonlinear_arith)
        requires
            h < 0x8000_0000,
            stride < 0x1_0000_0000,
    ;
    let mut r: u64 = 0;
    let mut row_base: u64 = start;
    while r < h
        invariant
            d == data@,
            n == d.len(),
            short_palette_header(d),
            w == bmp_width(d),
            h == bmp_height(d),
            bpp == bmp_bpp(d),
            colors == palette_len(d),
            stride == row_stride(d),
            start == pixels_start(d),
            start <= 1064,
            h * stride < 0x8000_0000_0000_0000,
            r <= h,
            row_base == start + r * stride,
            forall|r2: int, c2: int|
                0 <= r2 < r && 0 <= c2 < w ==> !#[trigger] pixel_outside_palette(d, r2, c2),
        decreases h - r,
    {
        assert(r * stride <= h * stride) by (nonlinear_arith)
            requires
                r <= h,
        ;
        let mut c: u64 = 0;
        while c < w
            invariant
                d == data@,
                n == d.len(),
                short_palette_header(d),
                w == bmp_width(d),
                h == bmp_height(d),
                bpp == bmp_bpp(d),
                bpp == 1 || bpp == 4 || bpp == 8,
                colors == palette_len(d),
                stride == row_stride(d),
                start == pixels_start(d),
                r < h,
                row_base == start + r * stride,
                row_base < 0x8000_0000_0000_0000 + 1064,
                w < 0x8000_0000,
                c <= w,
                forall|c2: int| 0 <= c2 < c ==> !#[trigger] pixel_outside_palette(d, r as int, c2),
            decreases w - c,
        {
            let within: u64 = if bpp == 8 {
                c
            } else if bpp == 4 {
                c / 2
            } else {
                c / 8
            };
            let off = row_base + within;
            assert(off == pixel_offset(d, r as int, c as int));
            if off < n as u64 {
                let b = data[off as usize] as u64;
                let index: u64 = if bpp == 8 {
                    b
                } else if bpp == 4 {
                    if c % 2 == 0 {
                        b / 16
                    } else {
                        b % 16
                    }
                } else {
                    bit_from_msb(b, c % 8)
                };
                assert(index == pixel_index(d, r as int, c as int));
                if index >= colors {
                    assert(pixel_outside_palette(d, r as int, c as int));
                    return false;
                }
            }
            c = c + 1;
        }
        assert((r + 1) * stride == r * stride + stride) by (nonlinear_arith);
        assert((r + 1) * stride <= h * stride) by (nonlinear_arith)
            requires
                r < h,
        ;
        row_base = row_base + stride;
        r = r + 1;
    }
    true
}

}
