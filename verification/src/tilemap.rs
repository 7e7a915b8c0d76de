use vstd::prelude::*;
use crate::register::bit_set;

verus! {

/// An 8x8 tile of colour numbers 0-3, row after row.
pub type Tile = [u8; 64];

/// The colour number of column `col` of a tile row given by its two bytes:
/// the bit of the first byte is the high bit, that of the second the low bit,
/// and column 0 is bit 7.
pub open spec fn tile_color(byte1: u8, byte2: u8, col: int) -> u8 {
    ((if bit_set(byte1, (7 - col) as u8) { 2int } else { 0 })
        + (if bit_set(byte2, (7 - col) as u8) { 1int } else { 0 })) as u8
}

/// Computes one pixel the way the hardware decoder does, with shifts.
pub fn pixel_color(byte1: u8, byte2: u8, col: u8) -> (r: u8)
    requires
        col < 8,
    ensures
        r == tile_color(byte1, byte2, col as int),
        r < 4,
{
    let low = ((byte1 << col) >> 7u8) << 1u8;
    let high = (byte2 << col) >> 7u8;
    proof { crate::bits::lemma_byte_pair_bits(byte1, col); crate::bits::lemma_byte_pair_bits(byte2, col); }
    high + low
}

/// The tile that 16 bytes encode, two bytes per row.
pub fn read_tile(tile_bytes: [u8; 16]) -> (r: Tile)
    ensures
        forall|row: int, col: int| 0 <= row < 8 && 0 <= col < 8 ==> #[trigger] r@[row * 8 + col]
            == tile_color(tile_bytes@[row * 2], tile_bytes@[row * 2 + 1], col),
{
    let mut tile: Tile = [0; 64];

    for row in 0..8usize
        invariant
            forall|rr: int, col: int| 0 <= rr < row && 0 <= col < 8 ==> #[trigger] tile@[rr * 8 + col]
                == tile_color(tile_bytes@[rr * 2], tile_bytes@[rr * 2 + 1], col),
    {
        for col in 0..8usize
            invariant
                0 <= row < 8,
                forall|rr: int, cc: int| 0 <= rr < row && 0 <= cc < 8 ==> #[trigger] tile@[rr * 8 + cc]
                    == tile_color(tile_bytes@[rr * 2], tile_bytes@[rr * 2 + 1], cc),
                forall|cc: int| 0 <= cc < col ==> #[trigger] tile@[row * 8 + cc]
                    == tile_color(tile_bytes@[row * 2], tile_bytes@[row * 2 + 1], cc),
        {
            let color = pixel_color(tile_bytes[row * 2], tile_bytes[row * 2 + 1], col as u8);
            tile[row * 8 + col] = color;
            assert forall|rr: int, cc: int| 0 <= rr < row && 0 <= cc < 8 implies #[trigger] tile@[rr * 8 + cc]
                == tile_color(tile_bytes@[rr * 2], tile_bytes@[rr * 2 + 1], cc) by {
                assert(rr * 8 + cc < row * 8);
            }
        }
        assert forall|rr: int, cc: int| 0 <= rr < row + 1 && 0 <= cc < 8 implies #[trigger] tile@[rr * 8 + cc]
            == tile_color(tile_bytes@[rr * 2], tile_bytes@[rr * 2 + 1], cc) by {
            if rr == row {
            }
        }
    }
    tile
}

proof fn lemma_bit_positions(x: u8)
    by (bit_vector)
    ensures
        (x & (1u8 << 7u8) != 0) == ((x / 128) % 2 == 1),
        (x & (1u8 << 6u8) != 0) == ((x / 64) % 2 == 1),
        (x & (1u8 << 5u8) != 0) == ((x / 32) % 2 == 1),
        (x & (1u8 << 4u8) != 0) == ((x / 16) % 2 == 1),
        (x & (1u8 << 3u8) != 0) == ((x / 8) % 2 == 1),
        (x & (1u8 << 2u8) != 0) == ((x / 4) % 2 == 1),
        (x & (1u8 << 1u8) != 0) == ((x / 2) % 2 == 1),
        (x & (1u8 << 0u8) != 0) == (x % 2 == 1),
{
}

/// Column `col` of a tile row takes bit 7 - col of each of its two bytes (the
/// leftmost pixel is bit 7): its colour number is twice that bit of the first
/// byte plus that bit of the second.
pub proof fn lemma_tile_color_bits(byte1: u8, byte2: u8, col: int)
    requires
        0 <= col < 8,
    ensures
        ({
            let d: int = if col == 0 { 128 } else if col == 1 { 64 } else if col == 2 { 32 } else if col == 3 { 16 }
                else if col == 4 { 8 } else if col == 5 { 4 } else if col == 6 { 2 } else { 1 };
            tile_color(byte1, byte2, col) as int == 2 * ((byte1 as int / d) % 2) + (byte2 as int / d) % 2
        }),
{
    lemma_bit_positions(byte1);
    lemma_bit_positions(byte2);
}

} // verus!
