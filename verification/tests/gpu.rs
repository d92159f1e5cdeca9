use gb_emu_common::gpu::{Gpu, TilePixelValue};

const ZERO: TilePixelValue = TilePixelValue::Zero;
const ONE: TilePixelValue = TilePixelValue::One;
const TWO: TilePixelValue = TilePixelValue::Two;
const THREE: TilePixelValue = TilePixelValue::Three;

#[test]
fn fresh_video_memory_is_zero() {
    let gpu = Gpu::new();
    assert_eq!(gpu.read_byte_vram(0x8000), Ok(0));
    assert_eq!(gpu.read_byte_vram(0x9FFF), Ok(0));
    assert_eq!(gpu.read_byte_oam(0xFE00), Ok(0));
    assert_eq!(gpu.read_byte_oam(0xFE9F), Ok(0));
    assert_eq!(gpu.tile_row(0, 0), [ZERO; 8]);
    assert_eq!(gpu.tile_row(0x17F, 7), [ZERO; 8]);
}

#[test]
fn video_memory_keeps_what_is_written() {
    let mut gpu = Gpu::new();
    assert_eq!(gpu.write_byte_vram(0x8000, 0x12), Ok(()));
    assert_eq!(gpu.write_byte_vram(0x9FFF, 0x34), Ok(()));
    assert_eq!(gpu.write_byte_oam(0xFE00, 0x56), Ok(()));
    assert_eq!(gpu.write_byte_oam(0xFE9F, 0x78), Ok(()));
    assert_eq!(gpu.read_byte_vram(0x8000), Ok(0x12));
    assert_eq!(gpu.read_byte_vram(0x9FFF), Ok(0x34));
    assert_eq!(gpu.read_byte_oam(0xFE00), Ok(0x56));
    assert_eq!(gpu.read_byte_oam(0xFE9F), Ok(0x78));
    assert_eq!(gpu.read_byte_vram(0x8001), Ok(0));
}

#[test]
fn a_row_is_decoded_from_its_two_bytes() {
    let mut gpu = Gpu::new();
    // the first byte gives the low bits, the second the high bits; bit 7 is pixel 0
    gpu.write_byte_vram(0x8000, 0b1010_0101).unwrap();
    assert_eq!(gpu.tile_row(0, 0), [ONE, ZERO, ONE, ZERO, ZERO, ONE, ZERO, ONE]);
    gpu.write_byte_vram(0x8001, 0b1100_0011).unwrap();
    assert_eq!(gpu.tile_row(0, 0), [THREE, TWO, ONE, ZERO, ZERO, ONE, TWO, THREE]);
    // the other rows are as they were
    assert_eq!(gpu.tile_row(0, 1), [ZERO; 8]);
    assert_eq!(gpu.tile_row(1, 0), [ZERO; 8]);
}

#[test]
fn rows_and_tiles_are_found_by_address() {
    let mut gpu = Gpu::new();
    // tile 1, row 3 is at 16 + 6
    gpu.write_byte_vram(0x8000 + 16 + 6, 0xFF).unwrap();
    assert_eq!(gpu.tile_row(1, 3), [ONE; 8]);
    gpu.write_byte_vram(0x8000 + 16 + 7, 0xFF).unwrap();
    assert_eq!(gpu.tile_row(1, 3), [THREE; 8]);
    // the last row of the last tile
    gpu.write_byte_vram(0x97FF, 0x80).unwrap();
    assert_eq!(gpu.tile_row(0x17F, 7), [TWO, ZERO, ZERO, ZERO, ZERO, ZERO, ZERO, ZERO]);
    // overwriting decodes the row anew
    gpu.write_byte_vram(0x8000 + 16 + 6, 0x00).unwrap();
    assert_eq!(gpu.tile_row(1, 3), [TWO; 8]);
}

#[test]
fn writes_past_the_tile_data_decode_nothing() {
    let mut gpu = Gpu::new();
    gpu.write_byte_vram(0x9800, 0xFF).unwrap();
    gpu.write_byte_vram(0x9801, 0xFF).unwrap();
    gpu.write_byte_vram(0x9FFF, 0xFF).unwrap();
    assert_eq!(gpu.read_byte_vram(0x9800), Ok(0xFF));
    for tile in [0usize, 1, 0x80, 0x17F] {
        for row in 0..8 {
            assert_eq!(gpu.tile_row(tile, row), [ZERO; 8]);
        }
    }
}
