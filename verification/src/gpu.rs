use vstd::prelude::*;

verus! {

/// Tile data is stored between 0x8000 and 0x97FF: 384 tiles.
pub const TILE_SET_SIZE: usize = 384;

pub const VRAM_BEGIN: usize = 0x8000;
pub const VRAM_END: usize = 0x9FFF;
pub const VRAM_SIZE: usize = 0x2000;

/// The colour number of a pixel, by its (high, low) bits.
#[derive(Clone, Copy, PartialEq, Eq, Structural, Debug)]
pub enum PixelColor {
    _00,
    _01,
    _10,
    _11,
}

/// The colour of a tile pixel: the bit of the first byte of its row is the low
/// bit, the bit of the second byte the high bit.
pub open spec fn pixel_color_of(lsb: bool, msb: bool) -> PixelColor {
    match (lsb, msb) {
        (false, false) => PixelColor::_00,
        (true, false) => PixelColor::_01,
        (false, true) => PixelColor::_10,
        (true, true) => PixelColor::_11,
    }
}

/// Whether bit `7 - pixel` of a byte is set: pixel 0 is the leftmost.
pub open spec fn pixel_bit(byte: u8, pixel: int) -> bool {
    byte & (1u8 << ((7 - pixel) as u8)) != 0
}

/// A tile of colour 0 everywhere: 64 pixels, row after row.
pub fn empty_tile() -> (r: Vec<PixelColor>)
    ensures
        r@ == Seq::new(64, |i: int| PixelColor::_00),
{
    let r = vec![PixelColor::_00; 64];
    assert(r@ =~= Seq::new(64, |i: int| PixelColor::_00));
    r
}

/// A set of empty tiles, tile after tile.
pub fn empty_tile_set() -> (r: Vec<PixelColor>)
    ensures
        r@ == Seq::new((TILE_SET_SIZE * 64) as nat, |i: int| PixelColor::_00),
{
    let mut set: Vec<PixelColor> = Vec::new();
    let mut t: usize = 0;
    while t < TILE_SET_SIZE
        invariant
            t <= TILE_SET_SIZE,
            set@ == Seq::new((t * 64) as nat, |i: int| PixelColor::_00),
        decreases TILE_SET_SIZE - t,
    {
        let mut tile = empty_tile();
        set.append(&mut tile);
        t += 1;
        assert(set@ =~= Seq::new((t * 64) as nat, |i: int| PixelColor::_00));
    }
    set
}

/// Video RAM and the tiles decoded from it, 64 pixels per tile, row after row.
pub struct Gpu {
    pub vram: [u8; VRAM_SIZE],
    pub tile_set: Vec<PixelColor>,
}

/// The index of pixel `pixel` of row `row` of tile `tile` in the decoded tile set.
pub open spec fn tile_pixel_index(tile: int, row: int, pixel: int) -> int {
    tile * 64 + row * 8 + pixel
}

/// The decoded tile set after the row holding VRAM offset `address` is decoded
/// again; rows lie in 0x0000-0x17FF, two bytes each.
pub open spec fn update_tileset_spec(vram: Seq<u8>, tiles: Seq<PixelColor>, address: int) -> Seq<PixelColor> {
    if address >= 0x1800 {
        tiles
    } else {
        let first = address - address % 2;
        let tile = address / 16;
        let row = (address % 16) / 2;
        Seq::new(tiles.len(), |i: int|
            if tile_pixel_index(tile, row, 0) <= i < tile_pixel_index(tile, row, 8) {
                pixel_color_of(pixel_bit(vram[first], i - tile_pixel_index(tile, row, 0)),
                    pixel_bit(vram[first + 1], i - tile_pixel_index(tile, row, 0)))
            } else {
                tiles[i]
            })
    }
}

impl Gpu {
    pub open spec fn wf(&self) -> bool {
        self.tile_set.len() == TILE_SET_SIZE * 64
    }

    pub fn new() -> (r: Gpu)
        ensures
            r.wf(),
            forall|i: int| 0 <= i < VRAM_SIZE ==> r.vram@[i] == 0,
            forall|i: int| 0 <= i < TILE_SET_SIZE * 64 ==> r.tile_set@[i] == PixelColor::_00,
    {
        Gpu { tile_set: empty_tile_set(), vram: [0; VRAM_SIZE] }
    }

    /// The byte at an offset into video RAM.
    pub fn read_vram(&self, address: usize) -> (r: u8)
        requires
            address < VRAM_SIZE,
        ensures
            r == self.vram@[address as int],
    {
        self.vram[address]
    }

    pub fn write_vram(&mut self, address: usize, value: u8)
        requires
            address < VRAM_SIZE,
        ensures
            final(self).vram@ == old(self).vram@.update(address as int, value),
            final(self).tile_set@ == old(self).tile_set@,
    {
        self.vram[address] = value;
    }

    /// Decodes again the tile row that holds an offset into video RAM.
    pub fn update_tileset(&mut self, address: usize)
        requires
            old(self).wf(),
        ensures
            final(self).wf(),
            final(self).vram@ == old(self).vram@,
            final(self).tile_set@ == update_tileset_spec(old(self).vram@, old(self).tile_set@, address as int),
    {
        if address >= 0x1800 {
            return;
        }

        // Tile rows are two bytes starting on an even address.
        let normalized_index = address & 0xFFFE;
        assert(address & 0xFFFE == address - address % 2) by (bit_vector)
            requires
                address < 0x1800,
        ;
        let byte1 = self.vram[normalized_index];
        let byte2 = self.vram[normalized_index + 1];

        // 8 rows of 2 byte tiles = 16 bytes
        let tile_index = address / 16;
        let row_index = (address % 16) / 2;
        let base = tile_index * 64 + row_index * 8;
        let ghost old_tiles = self.tile_set@;

        for pixel_index in 0..8usize
            invariant
                base == tile_pixel_index(tile_index as int, row_index as int, 0),
                tile_index < TILE_SET_SIZE,
                row_index < 8,
                self.tile_set@.len() == old_tiles.len(),
                old_tiles.len() == TILE_SET_SIZE * 64,
                self.vram@ == old(self).vram@,
                old_tiles == old(self).tile_set@,
                byte1 == self.vram@[address - address % 2],
                byte2 == self.vram@[address - address % 2 + 1],
                forall|i: int| 0 <= i < old_tiles.len() ==> #[trigger] self.tile_set@[i] == if base <= i < base
                    + pixel_index {
                    pixel_color_of(pixel_bit(byte1, i - base), pixel_bit(byte2, i - base))
                } else {
                    old_tiles[i]
                },
        {
            let mask: u8 = 1u8 << ((7 - pixel_index) as u8);
            let lsb = byte1 & mask;
            let msb = byte2 & mask;

            let color = match (lsb != 0, msb != 0) {
                (false, false) => PixelColor::_00,
                (true, false) => PixelColor::_01,
                (false, true) => PixelColor::_10,
                (true, true) => PixelColor::_11,
            };

            self.tile_set.set(base + pixel_index, color);
        }
        proof {
            assert(self.tile_set@ =~= update_tileset_spec(old(self).vram@, old_tiles, address as int));
        }
    }
}

} // verus!
