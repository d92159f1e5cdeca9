// Video RAM, object attribute memory, and the tiles that are decoded from video RAM on
// every write.

use crate::bits::{bit_is_set, test_bit};
use crate::error::EmulationError;
use vstd::prelude::*;

verus! {

pub const VRAM_BEGIN: usize = 0x8000;

pub const VRAM_END: usize = 0x9FFF;

pub const VRAM_SIZE: usize = VRAM_END - VRAM_BEGIN + 1;

pub const OAM_BEGIN: usize = 0xFE00;

pub const OAM_END: usize = 0xFE9F;

pub const OAM_SIZE: usize = OAM_END - OAM_BEGIN + 1;

/// The part of video RAM that holds tile data, counted from its start.
pub const TILE_DATA_SIZE: usize = 0x1800;

/// The number of tiles in the tile data.
pub const TILE_COUNT: usize = 0x180;

/// One pixel of a tile: an index into a palette of four.
#[derive(Clone, Copy, Debug, PartialEq, Eq)]
pub enum TilePixelValue {
    Zero,
    One,
    Two,
    Three,
}

/// A tile: eight rows of eight pixels.
pub type Tile = [[TilePixelValue; 8]; 8];

/// Video RAM, object attribute memory and the tiles decoded from video RAM.
pub struct Gpu {
    vram: [u8; VRAM_SIZE],
    oam: [u8; OAM_SIZE],
    tile_set: [Tile; TILE_COUNT],
}

/// What a [`Gpu`] holds, as plain sequences.
pub ghost struct GpuView {
    /// Video RAM, byte by byte.
    pub vram: Seq<u8>,
    /// Object attribute memory, byte by byte.
    pub oam: Seq<u8>,
    /// The decoded tile rows in the order of the tile data: row `r` of tile `t` is entry
    /// `8 * t + r`, decoded from the bytes `2 * (8 * t + r)` and the next of video RAM.
    pub tile_rows: Seq<Seq<TilePixelValue>>,
}

/// The pixel whose lower bit comes from the first byte of a row and whose upper bit comes
/// from the second.
pub open spec fn pixel_value(low: bool, high: bool) -> TilePixelValue {
    if low && high {
        TilePixelValue::Three
    } else if high {
        TilePixelValue::Two
    } else if low {
        TilePixelValue::One
    } else {
        TilePixelValue::Zero
    }
}

/// Pixel `pixel` of the row stored in two bytes; pixel 0 is the most significant bit.
pub open spec fn row_pixel(byte1: u8, byte2: u8, pixel: int) -> TilePixelValue {
    pixel_value(bit_is_set(byte1, (7 - pixel) as u8), bit_is_set(byte2, (7 - pixel) as u8))
}

/// The eight pixels of the row stored in two bytes.
pub open spec fn decode_row(byte1: u8, byte2: u8) -> Seq<TilePixelValue> {
    Seq::new(8, |pixel: int| row_pixel(byte1, byte2, pixel))
}

impl GpuView {
    /// The memories have their sizes and every decoded row is what its two bytes say.
    pub open spec fn wf(self) -> bool {
        &&& self.vram.len() == VRAM_SIZE
        &&& self.oam.len() == OAM_SIZE
        &&& self.tile_rows.len() == TILE_DATA_SIZE / 2
        &&& forall|k: int|
            0 <= k < TILE_DATA_SIZE / 2 ==> #[trigger] self.tile_rows[k] == decode_row(
                self.vram[2 * k],
                self.vram[2 * k + 1],
            )
    }

    /// Memory filled with zeros, and the tiles decoded from it.
    pub open spec fn initial() -> GpuView {
        GpuView {
            vram: Seq::new(VRAM_SIZE as nat, |i: int| 0u8),
            oam: Seq::new(OAM_SIZE as nat, |i: int| 0u8),
            tile_rows: Seq::new(
                (TILE_DATA_SIZE / 2) as nat,
                |k: int| Seq::new(8, |pixel: int| TilePixelValue::Zero),
            ),
        }
    }

    /// The byte of video RAM at the bus address `address`.
    pub open spec fn read_vram(self, address: int) -> u8 {
        self.vram[address - VRAM_BEGIN]
    }

    /// The byte of object attribute memory at the bus address `address`.
    pub open spec fn read_oam(self, address: int) -> u8 {
        self.oam[address - OAM_BEGIN]
    }

    /// Video RAM after `value` was written to the bus address `address`. A write into the
    /// tile data decodes the row that the byte belongs to anew.
    pub open spec fn write_vram(self, address: int, value: u8) -> GpuView {
        let pos = address - VRAM_BEGIN;
        let vram = self.vram.update(pos, value);
        if pos >= TILE_DATA_SIZE {
            GpuView { vram, ..self }
        } else {
            let row = pos / 2;
            GpuView {
                vram,
                tile_rows: self.tile_rows.update(row, decode_row(vram[2 * row], vram[2 * row + 1])),
                ..self
            }
        }
    }

    /// Object attribute memory after `value` was written to the bus address `address`.
    pub open spec fn write_oam(self, address: int, value: u8) -> GpuView {
        GpuView { oam: self.oam.update(address - OAM_BEGIN, value), ..self }
    }

    /// Fresh memory is well formed.
    pub proof fn lemma_initial_wf()
        ensures
            GpuView::initial().wf(),
    {
        let zero = GpuView::initial();
        assert forall|k: int| 0 <= k < TILE_DATA_SIZE / 2 implies #[trigger] zero.tile_rows[k]
            == decode_row(zero.vram[2 * k], zero.vram[2 * k + 1]) by {
            assert forall|pixel: int| 0 <= pixel < 8 implies row_pixel(0, 0, pixel)
                == TilePixelValue::Zero by {
                let n = (7 - pixel) as u8;
                assert(0u8 & (1u8 << n) == 0) by (bit_vector);
            }
            assert(zero.tile_rows[k] =~= decode_row(0, 0));
        }
    }

    /// Writes keep the memory well formed: the decoded tiles follow every write to video RAM.
    pub proof fn lemma_writes_keep_wf(self, address: int, value: u8)
        requires
            self.wf(),
        ensures
            VRAM_BEGIN <= address <= VRAM_END ==> self.write_vram(address, value).wf(),
            OAM_BEGIN <= address <= OAM_END ==> self.write_oam(address, value).wf(),
    {
        if VRAM_BEGIN <= address <= VRAM_END {
            let after = self.write_vram(address, value);
            let pos = address - VRAM_BEGIN;
            assert forall|k: int| 0 <= k < TILE_DATA_SIZE / 2 implies #[trigger] after.tile_rows[k]
                == decode_row(after.vram[2 * k], after.vram[2 * k + 1]) by {
                if pos < TILE_DATA_SIZE && k == pos / 2 {
                } else {
                    assert(after.tile_rows[k] == self.tile_rows[k]);
                    assert(2 * k != pos && 2 * k + 1 != pos);
                }
            }
        }
    }
}

impl View for Gpu {
    type V = GpuView;

    closed spec fn view(&self) -> GpuView {
        GpuView {
            vram: self.vram@,
            oam: self.oam@,
            tile_rows: Seq::new(
                (TILE_DATA_SIZE / 2) as nat,
                |k: int| self.tile_set@[k / 8]@[k % 8]@,
            ),
        }
    }
}

/// A tile of pixels of value zero.
fn empty_tile() -> (tile: Tile)
    ensures
        forall|row: int, pixel: int|
            0 <= row < 8 && 0 <= pixel < 8 ==> tile@[row]@[pixel] == TilePixelValue::Zero,
{
    [[TilePixelValue::Zero;8];8]
}

impl Gpu {
    /// Memory filled with zeros.
    pub fn new() -> (gpu: Gpu)
        ensures
            gpu@ == GpuView::initial(),
    {
        let gpu = Gpu { vram: [0;VRAM_SIZE], oam: [0;OAM_SIZE], tile_set: [empty_tile();TILE_COUNT] };
        proof {
            assert(gpu@.vram =~= GpuView::initial().vram);
            assert(gpu@.oam =~= GpuView::initial().oam);
            assert forall|k: int| 0 <= k < TILE_DATA_SIZE / 2 implies gpu@.tile_rows[k]
                == GpuView::initial().tile_rows[k] by {
                assert(gpu.tile_set@[k / 8]@[k % 8]@ =~= Seq::new(
                    8,
                    |pixel: int| TilePixelValue::Zero,
                ));
            }
            assert(gpu@.tile_rows =~= GpuView::initial().tile_rows);
        }
        gpu
    }

    /// Reads the byte of video RAM at the bus address `address`.
    pub fn read_byte_vram(&self, address: usize) -> (result: Result<u8, EmulationError>)
        requires
            VRAM_BEGIN <= address <= VRAM_END,
        ensures
            result == Ok::<u8, EmulationError>(self@.read_vram(address as int)),
    {
        let vram_pos: usize = address - VRAM_BEGIN;
        Ok(self.vram[vram_pos])
    }

    /// Writes `value` to video RAM at the bus address `address` and, where the byte is tile
    /// data, decodes the row that it belongs to.
    pub fn write_byte_vram(&mut self, address: usize, value: u8) -> (result: Result<
        (),
        EmulationError,
    >)
        requires
            VRAM_BEGIN <= address <= VRAM_END,
        ensures
            result == Ok::<(), EmulationError>(()),
            final(self)@ == old(self)@.write_vram(address as int, value),
    {
        let vram_pos: usize = address - VRAM_BEGIN;
        self.vram[vram_pos] = value;

        // The tile data ends at 0x1800: past it there is nothing to decode.
        if vram_pos >= TILE_DATA_SIZE {
            assert(self@.tile_rows =~= old(self)@.tile_rows);
            return Ok(());
        }
        // A row takes two bytes, the first of them at an even address.

        let normalized_index: usize = vram_pos & 0xFFFE;
        assert(normalized_index == vram_pos - vram_pos % 2) by (bit_vector)
            requires
                normalized_index == vram_pos & 0xFFFE,
                vram_pos < 0x1800,
        ;

        let byte1: u8 = self.vram[normalized_index];
        let byte2: u8 = self.vram[normalized_index + 1];

        // A tile is eight rows of two bytes each.
        let tile_index: usize = vram_pos / 16;
        let row_index: usize = (vram_pos % 16) / 2;

        for pixel_index in 0..8usize
            invariant
                tile_index < TILE_COUNT,
                row_index < 8,
                self.vram@ == old(self).vram@.update(vram_pos as int, value),
                self.oam == old(self).oam,
                forall|t: int, r: int|
                    0 <= t < TILE_COUNT && 0 <= r < 8 && !(t == tile_index && r == row_index)
                        ==> self.tile_set@[t]@[r] == old(self).tile_set@[t]@[r],
                forall|p: int|
                    0 <= p < pixel_index ==> self.tile_set@[tile_index as int]@[row_index as int]@[p]
                        == row_pixel(byte1, byte2, p),
        {
            // Pixel 0 is the leftmost bit, bit 7.
            let lsb: bool = test_bit(byte1, 7 - pixel_index as u8);
            let msb: bool = test_bit(byte2, 7 - pixel_index as u8);
            let value: TilePixelValue = match (lsb, msb) {
                (true, true) => TilePixelValue::Three,
                (false, true) => TilePixelValue::Two,
                (true, false) => TilePixelValue::One,
                (false, false) => TilePixelValue::Zero,
            };

            self.tile_set[tile_index][row_index][pixel_index] = value;
        }

        proof {
            let goal = old(self)@.write_vram(address as int, value);
            let row = vram_pos as int / 2;
            assert(row / 8 == tile_index && row % 8 == row_index);
            assert(2 * row == normalized_index);
            assert forall|k: int| 0 <= k < TILE_DATA_SIZE / 2 implies self@.tile_rows[k]
                == goal.tile_rows[k] by {
                if k == row {
                    assert(self.tile_set@[k / 8]@[k % 8]@ =~= decode_row(byte1, byte2));
                } else {
                    assert(!(k / 8 == tile_index && k % 8 == row_index));
                }
            }
            assert(self@.tile_rows =~= goal.tile_rows);
        }
        Ok(())
    }

    /// Reads the byte of object attribute memory at the bus address `address`.
    pub fn read_byte_oam(&self, address: usize) -> (result: Result<u8, EmulationError>)
        requires
            OAM_BEGIN <= address <= OAM_END,
        ensures
            result == Ok::<u8, EmulationError>(self@.read_oam(address as int)),
    {
        let oam_pos: usize = address - OAM_BEGIN;
        Ok(self.oam[oam_pos])
    }

    /// Writes `value` to object attribute memory at the bus address `address`.
    pub fn write_byte_oam(&mut self, address: usize, value: u8) -> (result: Result<
        (),
        EmulationError,
    >)
        requires
            OAM_BEGIN <= address <= OAM_END,
        ensures
            result == Ok::<(), EmulationError>(()),
            final(self)@ == old(self)@.write_oam(address as int, value),
    {
        let oam_pos: usize = address - OAM_BEGIN;
        self.oam[oam_pos] = value;
        assert(self@.tile_rows =~= old(self)@.tile_rows);
        Ok(())
    }

    /// Row `row` of tile `tile`, as the last write to its two bytes left it.
    pub fn tile_row(&self, tile: usize, row: usize) -> (pixels: [TilePixelValue; 8])
        requires
            tile < TILE_COUNT,
            row < 8,
        ensures
            pixels@ == self@.tile_rows[8 * tile + row],
    {
        self.tile_set[tile][row]
    }
}

} // verus!
