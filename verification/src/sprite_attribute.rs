use vstd::prelude::*;

verus! {

/// One entry of the object attribute memory (OAM): four bytes.
#[derive(Clone, Copy, PartialEq, Eq, Structural, Debug)]
pub struct SpriteAttribute {
    /// byte 0
    pub y: u8,
    /// byte 1
    pub x: u8,
    /// byte 2
    pub tile_index: u8,
    /// byte 3, bit 7
    pub bg_window_over_obj: bool,
    /// byte 3, bit 6
    pub flip_y: bool,
    /// byte 3, bit 5
    pub flip_x: bool,
    /// byte 3, bit 4
    pub palette_is_obp1: bool,
    /// byte 3, bit 3 (colour models only); compared against 0x80, so never set
    pub tile_vram_bank_cgb: bool,
    /// byte 3, bits 2-0 (colour models only)
    pub palette_cgb: u8,
}

/// The attribute that four OAM bytes describe.
pub open spec fn sprite_attribute_spec(b0: u8, b1: u8, b2: u8, b3: u8) -> SpriteAttribute {
    SpriteAttribute {
        y: b0,
        x: b1,
        tile_index: b2,
        bg_window_over_obj: b3 & 0x80 == 0x80,
        flip_y: b3 & 0x40 == 0x40,
        flip_x: b3 & 0x20 == 0x20,
        palette_is_obp1: b3 & 0x10 == 0x10,
        tile_vram_bank_cgb: b3 & 0x08 == 0x80,
        palette_cgb: b3 & 0x07,
    }
}

impl SpriteAttribute {
    pub fn new(data: &[u8; 4]) -> (r: SpriteAttribute)
        ensures
            r == sprite_attribute_spec(data@[0], data@[1], data@[2], data@[3]),
    {
        SpriteAttribute {
            y: data[0],
            x: data[1],
            tile_index: data[2],
            bg_window_over_obj: data[3] & 0x80 == 0x80,
            flip_y: data[3] & 0x40 == 0x40,
            flip_x: data[3] & 0x20 == 0x20,
            palette_is_obp1: data[3] & 0x10 == 0x10,
            tile_vram_bank_cgb: data[3] & 0x08 == 0x80,
            palette_cgb: data[3] & 0x07,
        }
    }
}

/// The four OAM bytes of a sprite are its Y, its X, its tile and its flags;
/// byte 3 gives, from bit 7 down, priority behind the background, vertical
/// flip, horizontal flip and the OBP1 palette, and in bits 2-0 the colour
/// palette number. The colour bank flag never reads as set.
pub proof fn lemma_sprite_attribute_bytes(b0: u8, b1: u8, b2: u8, b3: u8)
    ensures
        ({
            let s = sprite_attribute_spec(b0, b1, b2, b3);
            &&& s.y == b0 && s.x == b1 && s.tile_index == b2
            &&& s.bg_window_over_obj == ((b3 / 128) % 2 == 1)
            &&& s.flip_y == ((b3 / 64) % 2 == 1)
            &&& s.flip_x == ((b3 / 32) % 2 == 1)
            &&& s.palette_is_obp1 == ((b3 / 16) % 2 == 1)
            &&& !s.tile_vram_bank_cgb
            &&& s.palette_cgb == b3 % 8
        }),
{
    assert((b3 & 0x80 == 0x80) == ((b3 / 128) % 2 == 1) && (b3 & 0x40 == 0x40) == ((b3 / 64) % 2 == 1)
        && (b3 & 0x20 == 0x20) == ((b3 / 32) % 2 == 1) && (b3 & 0x10 == 0x10) == ((b3 / 16) % 2 == 1)
        && b3 & 0x08 != 0x80 && b3 & 0x07 == b3 % 8) by (bit_vector);
}

} // verus!
