//! Tile rows: eight pixels of two bits each, stored as two bit planes.

use vstd::prelude::*;

verus! {

/// The colour of the pixel that bit `j` of the two planes holds: the low
/// plane gives bit 0 of the colour, the high plane bit 1.
pub open spec fn plane_pixel(low: u8, high: u8, j: u8) -> u8 {
    (((low / crate::util::spec_pow2(j)) % 2) + 2 * ((high / crate::util::spec_pow2(j)) % 2)) as u8
}

/// A row as one word: the pixel of plane bit `j` lies in bits `2j` and
/// `2j + 1`, so the leftmost pixel, plane bit 7, is on top.
#[verifier::opaque]
pub open spec fn spec_pack_row(low: u8, high: u8) -> u16 {
    (plane_pixel(low, high, 0) + 4 * plane_pixel(low, high, 1) + 16 * plane_pixel(low, high, 2) + 64
        * plane_pixel(low, high, 3) + 256 * plane_pixel(low, high, 4) + 1024 * plane_pixel(
        low,
        high,
        5,
    ) + 4096 * plane_pixel(low, high, 6) + 16384 * plane_pixel(low, high, 7)) as u16
}

/// Four to the power `j`, for the eight pixel positions of a row.
pub open spec fn spec_pow4(j: u8) -> u16 {
    if j == 0 {
        1
    } else if j == 1 {
        4
    } else if j == 2 {
        16
    } else if j == 3 {
        64
    } else if j == 4 {
        256
    } else if j == 5 {
        1024
    } else if j == 6 {
        4096
    } else {
        16384
    }
}

/// The colour of pixel `k` of a packed row, counted from the left.
pub open spec fn row_pixel(row: u16, k: int) -> u8 {
    ((row / spec_pow4((7 - k) as u8)) % 4) as u8
}

/// The eight pixels of a packed row, leftmost first.
pub open spec fn row_pixels(row: u16) -> Seq<u8> {
    Seq::new(8, |k: int| row_pixel(row, k))
}

/// The low and the high plane that hold eight colours, leftmost first.
pub open spec fn encode_row(pixels: Seq<u8>) -> (u8, u8) {
    (
        ((pixels[7] % 2) + 2 * (pixels[6] % 2) + 4 * (pixels[5] % 2) + 8 * (pixels[4] % 2) + 16 * (
        pixels[3] % 2) + 32 * (pixels[2] % 2) + 64 * (pixels[1] % 2) + 128 * (pixels[0] % 2)) as u8,
        ((pixels[7] / 2) + 2 * (pixels[6] / 2) + 4 * (pixels[5] / 2) + 8 * (pixels[4] / 2) + 16 * (
        pixels[3] / 2) + 32 * (pixels[2] / 2) + 64 * (pixels[1] / 2) + 128 * (pixels[0] / 2)) as u8,
    )
}

/// Packs the two planes of a row into one word.
#[verifier::when_used_as_spec(spec_pack_row)]
pub fn pack_row(low: u8, high: u8) -> (row: u16)
    ensures
        row == spec_pack_row(low, high),
{
    reveal(spec_pack_row);
    let c0: u16 = (low % 2 + 2 * (high % 2)) as u16;
    let c1: u16 = ((low / 2) % 2 + 2 * ((high / 2) % 2)) as u16;
    let c2: u16 = ((low / 4) % 2 + 2 * ((high / 4) % 2)) as u16;
    let c3: u16 = ((low / 8) % 2 + 2 * ((high / 8) % 2)) as u16;
    let c4: u16 = ((low / 16) % 2 + 2 * ((high / 16) % 2)) as u16;
    let c5: u16 = ((low / 32) % 2 + 2 * ((high / 32) % 2)) as u16;
    let c6: u16 = ((low / 64) % 2 + 2 * ((high / 64) % 2)) as u16;
    let c7: u16 = ((low / 128) % 2 + 2 * ((high / 128) % 2)) as u16;
    c0 + 4 * c1 + 16 * c2 + 64 * c3 + 256 * c4 + 1024 * c5 + 4096 * c6 + 16384 * c7
}

/// Digit `j` of a number written with eight digits to base four.
proof fn lemma_base4_digit(c0: int, c1: int, c2: int, c3: int, c4: int, c5: int, c6: int, c7: int, j: u8)
    requires
        0 <= c0 < 4,
        0 <= c1 < 4,
        0 <= c2 < 4,
        0 <= c3 < 4,
        0 <= c4 < 4,
        0 <= c5 < 4,
        0 <= c6 < 4,
        0 <= c7 < 4,
        j < 8,
    ensures
        0 <= c0 + 4 * c1 + 16 * c2 + 64 * c3 + 256 * c4 + 1024 * c5 + 4096 * c6 + 16384 * c7 < 65536,
        ((c0 + 4 * c1 + 16 * c2 + 64 * c3 + 256 * c4 + 1024 * c5 + 4096 * c6 + 16384 * c7) / (
        spec_pow4(j) as int)) % 4 == (if j == 0 {
            c0
        } else if j == 1 {
            c1
        } else if j == 2 {
            c2
        } else if j == 3 {
            c3
        } else if j == 4 {
            c4
        } else if j == 5 {
            c5
        } else if j == 6 {
            c6
        } else {
            c7
        }),
{
    let s = c0 + 4 * c1 + 16 * c2 + 64 * c3 + 256 * c4 + 1024 * c5 + 4096 * c6 + 16384 * c7;
    let d = spec_pow4(j) as int;
    let head: int = if j == 0 {
        0
    } else if j == 1 {
        c0
    } else if j == 2 {
        c0 + 4 * c1
    } else if j == 3 {
        c0 + 4 * c1 + 16 * c2
    } else if j == 4 {
        c0 + 4 * c1 + 16 * c2 + 64 * c3
    } else if j == 5 {
        c0 + 4 * c1 + 16 * c2 + 64 * c3 + 256 * c4
    } else if j == 6 {
        c0 + 4 * c1 + 16 * c2 + 64 * c3 + 256 * c4 + 1024 * c5
    } else {
        c0 + 4 * c1 + 16 * c2 + 64 * c3 + 256 * c4 + 1024 * c5 + 4096 * c6
    };
    let digit: int = if j == 0 {
        c0
    } else if j == 1 {
        c1
    } else if j == 2 {
        c2
    } else if j == 3 {
        c3
    } else if j == 4 {
        c4
    } else if j == 5 {
        c5
    } else if j == 6 {
        c6
    } else {
        c7
    };
    let rest: int = if j == 0 {
        c1 + 4 * c2 + 16 * c3 + 64 * c4 + 256 * c5 + 1024 * c6 + 4096 * c7
    } else if j == 1 {
        c2 + 4 * c3 + 16 * c4 + 64 * c5 + 256 * c6 + 1024 * c7
    } else if j == 2 {
        c3 + 4 * c4 + 16 * c5 + 64 * c6 + 256 * c7
    } else if j == 3 {
        c4 + 4 * c5 + 16 * c6 + 64 * c7
    } else if j == 4 {
        c5 + 4 * c6 + 16 * c7
    } else if j == 5 {
        c6 + 4 * c7
    } else if j == 6 {
        c7
    } else {
        0
    };
    let tail = digit + 4 * rest;
    assert(s == tail * d + head);
    vstd::arithmetic::div_mod::lemma_fundamental_div_mod_converse(s, d, tail, head);
    vstd::arithmetic::div_mod::lemma_fundamental_div_mod_converse(tail, 4, rest, digit);
}

/// Bit `j` of a number written with eight binary digits.
proof fn lemma_base2_digit(d0: int, d1: int, d2: int, d3: int, d4: int, d5: int, d6: int, d7: int, j: u8)
    requires
        0 <= d0 < 2,
        0 <= d1 < 2,
        0 <= d2 < 2,
        0 <= d3 < 2,
        0 <= d4 < 2,
        0 <= d5 < 2,
        0 <= d6 < 2,
        0 <= d7 < 2,
        j < 8,
    ensures
        0 <= d0 + 2 * d1 + 4 * d2 + 8 * d3 + 16 * d4 + 32 * d5 + 64 * d6 + 128 * d7 < 256,
        ((d0 + 2 * d1 + 4 * d2 + 8 * d3 + 16 * d4 + 32 * d5 + 64 * d6 + 128 * d7) / (
        crate::util::spec_pow2(j) as int)) % 2 == (if j == 0 {
            d0
        } else if j == 1 {
            d1
        } else if j == 2 {
            d2
        } else if j == 3 {
            d3
        } else if j == 4 {
            d4
        } else if j == 5 {
            d5
        } else if j == 6 {
            d6
        } else {
            d7
        }),
{
    let s = d0 + 2 * d1 + 4 * d2 + 8 * d3 + 16 * d4 + 32 * d5 + 64 * d6 + 128 * d7;
    let d = crate::util::spec_pow2(j) as int;
    let head: int = if j == 0 {
        0
    } else if j == 1 {
        d0
    } else if j == 2 {
        d0 + 2 * d1
    } else if j == 3 {
        d0 + 2 * d1 + 4 * d2
    } else if j == 4 {
        d0 + 2 * d1 + 4 * d2 + 8 * d3
    } else if j == 5 {
        d0 + 2 * d1 + 4 * d2 + 8 * d3 + 16 * d4
    } else if j == 6 {
        d0 + 2 * d1 + 4 * d2 + 8 * d3 + 16 * d4 + 32 * d5
    } else {
        d0 + 2 * d1 + 4 * d2 + 8 * d3 + 16 * d4 + 32 * d5 + 64 * d6
    };
    let digit: int = if j == 0 {
        d0
    } else if j == 1 {
        d1
    } else if j == 2 {
        d2
    } else if j == 3 {
        d3
    } else if j == 4 {
        d4
    } else if j == 5 {
        d5
    } else if j == 6 {
        d6
    } else {
        d7
    };
    let rest: int = if j == 0 {
        d1 + 2 * d2 + 4 * d3 + 8 * d4 + 16 * d5 + 32 * d6 + 64 * d7
    } else if j == 1 {
        d2 + 2 * d3 + 4 * d4 + 8 * d5 + 16 * d6 + 32 * d7
    } else if j == 2 {
        d3 + 2 * d4 + 4 * d5 + 8 * d6 + 16 * d7
    } else if j == 3 {
        d4 + 2 * d5 + 4 * d6 + 8 * d7
    } else if j == 4 {
        d5 + 2 * d6 + 4 * d7
    } else if j == 5 {
        d6 + 2 * d7
    } else if j == 6 {
        d7
    } else {
        0
    };
    let tail = digit + 2 * rest;
    assert(s == tail * d + head);
    vstd::arithmetic::div_mod::lemma_fundamental_div_mod_converse(s, d, tail, head);
    vstd::arithmetic::div_mod::lemma_fundamental_div_mod_converse(tail, 2, rest, digit);
}

/// Pixel `k` of a packed row is the pixel that plane bit `7 - k` holds.
pub proof fn lemma_row_pixel_of_planes(low: u8, high: u8, k: int)
    requires
        0 <= k < 8,
    ensures
        row_pixel(spec_pack_row(low, high), k) == plane_pixel(low, high, (7 - k) as u8),
        row_pixel(spec_pack_row(low, high), k) < 4,
{
    reveal(spec_pack_row);
    lemma_base4_digit(
        plane_pixel(low, high, 0) as int,
        plane_pixel(low, high, 1) as int,
        plane_pixel(low, high, 2) as int,
        plane_pixel(low, high, 3) as int,
        plane_pixel(low, high, 4) as int,
        plane_pixel(low, high, 5) as int,
        plane_pixel(low, high, 6) as int,
        plane_pixel(low, high, 7) as int,
        (7 - k) as u8,
    );
}

/// Splits a packed row into its eight pixels, leftmost first.
pub fn get_individual_pixels(tile_row: u16) -> (pixels: Vec<u8>)
    ensures
        pixels@ == row_pixels(tile_row),
        pixels@.len() == 8,
        forall|k: int| 0 <= k < 8 ==> pixels@[k] < 4,
{
    let mut pixels: Vec<u8> = Vec::new();
    pixels.push(((tile_row / 16384) % 4) as u8);
    pixels.push(((tile_row / 4096) % 4) as u8);
    pixels.push(((tile_row / 1024) % 4) as u8);
    pixels.push(((tile_row / 256) % 4) as u8);
    pixels.push(((tile_row / 64) % 4) as u8);
    pixels.push(((tile_row / 16) % 4) as u8);
    pixels.push(((tile_row / 4) % 4) as u8);
    pixels.push((tile_row % 4) as u8);
    assert forall|k: int| 0 <= k < 8 implies pixels@[k] == row_pixel(tile_row, k) by {
        assert(spec_pow4((7 - k) as u8) == (if k == 0 {
            16384u16
        } else if k == 1 {
            4096
        } else if k == 2 {
            1024
        } else if k == 3 {
            256
        } else if k == 4 {
            64
        } else if k == 5 {
            16
        } else if k == 6 {
            4
        } else {
            1
        }));
    }
    assert(pixels@ =~= row_pixels(tile_row));
    pixels
}

/// Storing eight colours as two planes and decoding the planes gives the
/// colours back.
pub proof fn lemma_tile_row_round_trip(pixels: Seq<u8>)
    requires
        pixels.len() == 8,
        forall|k: int| 0 <= k < 8 ==> pixels[k] < 4,
    ensures
        row_pixels(spec_pack_row(encode_row(pixels).0, encode_row(pixels).1)) == pixels,
{
    let low = encode_row(pixels).0;
    let high = encode_row(pixels).1;
    assert forall|k: int| 0 <= k < 8 implies row_pixel(spec_pack_row(low, high), k) == pixels[k] by {
        lemma_row_pixel_of_planes(low, high, k);
        let j = (7 - k) as u8;
        lemma_base2_digit(
            pixels[7] as int % 2,
            pixels[6] as int % 2,
            pixels[5] as int % 2,
            pixels[4] as int % 2,
            pixels[3] as int % 2,
            pixels[2] as int % 2,
            pixels[1] as int % 2,
            pixels[0] as int % 2,
            j,
        );
        lemma_base2_digit(
            pixels[7] as int / 2,
            pixels[6] as int / 2,
            pixels[5] as int / 2,
            pixels[4] as int / 2,
            pixels[3] as int / 2,
            pixels[2] as int / 2,
            pixels[1] as int / 2,
            pixels[0] as int / 2,
            j,
        );
        assert(plane_pixel(low, high, j) == pixels[k]);
    }
    assert(row_pixels(spec_pack_row(low, high)) =~= pixels);
}

} // verus!
