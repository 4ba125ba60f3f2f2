//! The frame buffer and the background renderer.
//!
//! The background is a map of 32 by 32 tiles of 8 by 8 pixels. A tile row is
//! two bytes, one bit plane each; the two bits of a pixel select one of the
//! four shades of the palette BGP. A frame buffer byte is a shade, 0 to 3.
//!
//! ```text
//! LCDC  bit 0  background display on
//!       bit 3  background tile map: 0 at 0x9800, 1 at 0x9C00
//!       bit 4  background tile data: 0 at 0x8800 (signed tile numbers, tile 0
//!              at 0x9000), 1 at 0x8000
//! ```

use vstd::prelude::*;
use crate::hardware::bit_operations;
use crate::hardware::memory::Memory;
use crate::hardware::memory::MemoryView;
use crate::hardware::memory_map;

verus! {

pub const FRAME_WIDTH: usize = 160;

pub const FRAME_HEIGHT: usize = 144;

pub const FRAME_HEIGHT_FULL: usize = 154;

/// Tiles along each axis of the background
pub const BG_BLOCKS_PER_AXIS: u16 = 32;

/// Pixels along each axis of a tile
pub const TILE_DIMENSION: u8 = 8;

/// Tiles that a scanline draws
pub const TILES_PER_LINE: u8 = 20;

/// Tile map 0, 0x9800-0x9BFF
pub const CODE_AREA0: u16 = 0x9800;

/// Tile map 1, 0x9C00-0x9FFF
pub const CODE_AREA1: u16 = 0x9C00;

/// Tile data 0, 0x8800-0x97FF
pub const CHARACTER_DATA0: u16 = 0x8800;

/// Tile data 1, 0x8000-0x8FFF
pub const CHARACTER_DATA1: u16 = 0x8000;

/// Bytes of a tile
pub const TILE_ROW_PIXELS: u16 = 16;

/// Bytes of a tile row
pub const TILE_ROW_OFFSET: u16 = 2;

#[derive(Debug)]
pub struct Video {
    pub frame_buffer: Vec<u8>,
    pub scanline_pixels_rendered: usize,
}

pub struct VideoView {
    pub frame_buffer: Seq<u8>,
    pub scanline_pixels_rendered: usize,
}

impl View for Video {
    type V = VideoView;

    open spec fn view(&self) -> VideoView {
        VideoView { frame_buffer: self.frame_buffer@, scanline_pixels_rendered: self.scanline_pixels_rendered }
    }
}

impl VideoView {
    /// The frame buffer has one byte for each pixel of the frame.
    pub open spec fn well_formed(self) -> bool {
        self.frame_buffer.len() == FRAME_WIDTH * FRAME_HEIGHT
    }

    /// A frame of the lightest shade.
    pub open spec fn blank() -> VideoView {
        VideoView {
            frame_buffer: Seq::new((FRAME_WIDTH * FRAME_HEIGHT) as nat, |i: int| 0u8),
            scanline_pixels_rendered: 0,
        }
    }
}

/// The shade of a pixel: bit `pixel_x` of the two bit planes gives a number
/// from 0 to 3, low plane first, and the palette holds the shade for it in the
/// two bits at twice that number.
pub open spec fn shade(palette: u8, lsb: u8, msb: u8, pixel_x: int) -> u8 {
    let low = bit_operations::bit_is_set(lsb, pixel_x);
    let high = bit_operations::bit_is_set(msb, pixel_x);
    if !low && !high {
        palette % 4
    } else if low && !high {
        palette / 4 % 4
    } else if !low && high {
        palette / 16 % 4
    } else {
        palette / 64
    }
}

/// The address of the map entry for the tile at `column`, `row` of the
/// background.
pub open spec fn code_address(lcdc: u8, column: int, row: int) -> int {
    (if bit_operations::bit_is_set(lcdc, 3) {
        CODE_AREA1
    } else {
        CODE_AREA0
    }) + row * BG_BLOCKS_PER_AXIS + column
}

/// The address of the data of tile `code`. With LCDC bit 4 clear the tile
/// number is signed: tiles 0 to 127 follow 0x9000, tiles 128 to 255 precede
/// it, from 0x8800 on.
pub open spec fn character_address(lcdc: u8, code: u8) -> int {
    if bit_operations::bit_is_set(lcdc, 4) {
        CHARACTER_DATA1 + code * TILE_ROW_PIXELS
    } else if code < 128 {
        CHARACTER_DATA0 + 0x800 + code * TILE_ROW_PIXELS
    } else {
        CHARACTER_DATA0 + (code - 128) * TILE_ROW_PIXELS
    }
}

/// The line of the background that the current scanline shows.
pub open spec fn background_line(memory: MemoryView) -> int {
    (memory.read(memory_map::SCY) + memory.read(memory_map::LY)) % 256
}

/// The shade of the background at pixel `x` of the current scanline.
pub open spec fn background_shade(memory: MemoryView, x: int) -> u8 {
    let lcdc = memory.read(memory_map::LCDC);
    let scx = memory.read(memory_map::SCX);
    let line = background_line(memory);
    let column = (scx / 8 + (x + scx % 8) / 8) % (BG_BLOCKS_PER_AXIS as int);
    let code = memory.read(code_address(lcdc, column, line / 8) as u16);
    let data = character_address(lcdc, code) + (line % 8) * TILE_ROW_OFFSET;
    shade(
        memory.read(memory_map::BGP),
        memory.read(data as u16),
        memory.read((data + 1) as u16),
        7 - (x + scx) % 8,
    )
}

/// Pixels that a scanline draws: twenty tiles, the first one from the pixel
/// that SCX scrolls to.
pub open spec fn pixels_drawn(memory: MemoryView) -> int {
    FRAME_WIDTH - memory.read(memory_map::SCX) % 8
}

/// The frame buffer with the background drawn into the line LY.
pub open spec fn rendered(frame_buffer: Seq<u8>, memory: MemoryView) -> Seq<u8> {
    let start = memory.read(memory_map::LY) * FRAME_WIDTH;
    Seq::new(
        frame_buffer.len(),
        |i: int|
            if start <= i < start + pixels_drawn(memory) {
                background_shade(memory, i - start)
            } else {
                frame_buffer[i]
            },
    )
}

/// The frame buffer and the bus at the end of a scanline: the background is
/// drawn if LCDC shows it and LY is a line of the frame, and LY moves on by
/// one.
pub open spec fn scanned(video: VideoView, memory: MemoryView) -> (VideoView, MemoryView) {
    let ly = memory.read(memory_map::LY);
    let frame_buffer = if bit_operations::bit_is_set(memory.read(memory_map::LCDC), 0) && ly < FRAME_HEIGHT {
        rendered(video.frame_buffer, memory)
    } else {
        video.frame_buffer
    };
    (VideoView { frame_buffer, ..video }, memory.write(memory_map::LY, ((ly + 1) % 256) as u8))
}

/// The gray level that a display shows for a shade, from 255 for the lightest
/// to 27 for the darkest. A byte above 3 is no shade.
pub open spec fn gray_level(shade: u8) -> Option<u8> {
    if shade == 0 {
        Some(255u8)
    } else if shade == 1 {
        Some(198u8)
    } else if shade == 2 {
        Some(127u8)
    } else if shade == 3 {
        Some(27u8)
    } else {
        None
    }
}

proof fn lemma_palette_bits(palette: u8)
    by (bit_vector)
    ensures
        palette & 0x03 == palette % 4,
        (palette >> 2u8) & 0x03 == palette / 4 % 4,
        (palette >> 4u8) & 0x03 == palette / 16 % 4,
        palette >> 6u8 == palette / 64,
{
}

impl Video {
    pub fn new() -> (video: Video)
        ensures
            video@ == VideoView::blank(),
            video@.well_formed(),
    {
        let frame_buffer: Vec<u8> = vec![0u8; FRAME_WIDTH * FRAME_HEIGHT];
        assert(frame_buffer@ =~= VideoView::blank().frame_buffer);
        Video { frame_buffer, scanline_pixels_rendered: 0 }
    }

    /// Ends the scanline LY: draws it, and moves LY on to the next line.
    pub fn update_scanline(&mut self, memory: &mut Memory)
        requires
            old(self)@.well_formed(),
        ensures
            (final(self)@, final(memory)@) == scanned(old(self)@, old(memory)@),
            final(self)@.well_formed(),
    {
        let current_lcdc: u8 = memory.fetch(memory_map::LCDC);
        let current_ly: u8 = memory.fetch(memory_map::LY);

        if bit_operations::simple_bit(current_lcdc, 0) && (current_ly as usize) < FRAME_HEIGHT {
            self.update_background_actor(memory);
        }
        memory.write(memory_map::LY, current_ly.wrapping_add(1));
    }

    /// Draws the background into the line LY of the frame buffer.
    fn update_background_actor(&mut self, memory: &mut Memory)
        requires
            old(self)@.well_formed(),
            old(memory)@.read(memory_map::LY) < FRAME_HEIGHT,
        ensures
            final(self)@ == (VideoView {
                frame_buffer: rendered(old(self)@.frame_buffer, old(memory)@),
                ..old(self)@
            }),
            final(memory)@ == old(memory)@,
    {
        let ly: u8 = memory.fetch(memory_map::LY);
        let lcdc: u8 = memory.fetch(memory_map::LCDC);
        let scy: u8 = memory.fetch(memory_map::SCY);
        let scx: u8 = memory.fetch(memory_map::SCX);
        let palette: u8 = memory.fetch(memory_map::BGP);

        let start: usize = (ly as usize) * FRAME_WIDTH;
        let mut pixels_rendered: usize = 0;

        // The walk is over the tiles of the line, not over its pixels
        let line: u8 = scy.wrapping_add(ly);
        let y: u8 = line / TILE_DIMENSION;
        let tile_row: u8 = line % TILE_DIMENSION;
        let mut tile: u8 = 0;
        while tile < TILES_PER_LINE
            invariant
                tile <= TILES_PER_LINE,
                memory@ == old(memory)@,
                ly == memory@.read(memory_map::LY),
                lcdc == memory@.read(memory_map::LCDC),
                scx == memory@.read(memory_map::SCX),
                palette == memory@.read(memory_map::BGP),
                line == background_line(memory@),
                y == line / 8,
                tile_row == line % 8,
                ly < FRAME_HEIGHT,
                start == ly * FRAME_WIDTH,
                pixels_rendered == if tile == 0 {
                    0
                } else {
                    tile * 8 - scx % 8
                },
                self.scanline_pixels_rendered == old(self).scanline_pixels_rendered,
                self.frame_buffer@.len() == FRAME_WIDTH * FRAME_HEIGHT,
                self.frame_buffer@.len() == old(self).frame_buffer@.len(),
                forall|i: int|
                    0 <= i < self.frame_buffer@.len() ==> #[trigger] self.frame_buffer@[i] == if start <= i
                        < start + pixels_rendered {
                        background_shade(memory@, i - start)
                    } else {
                        old(self).frame_buffer@[i]
                    },
            decreases TILES_PER_LINE - tile,
        {
            // The background wraps around at its edges
            let local_x: u8 = (scx / TILE_DIMENSION + tile) % (BG_BLOCKS_PER_AXIS as u8);
            let block_id: u16 = (y as u16) * BG_BLOCKS_PER_AXIS + (local_x as u16);
            // LCDC selects the map that holds the tile number
            let character_code: u8 = if bit_operations::simple_bit(lcdc, 3) {
                memory.fetch(CODE_AREA1 + block_id)
            } else {
                memory.fetch(CODE_AREA0 + block_id)
            };
            // A tile is stored in 16 bytes, two for each of its rows, and
            // LCDC selects the bank that holds it
            let character_data_offset: u16 = if bit_operations::simple_bit(lcdc, 4) {
                CHARACTER_DATA1 + (character_code as u16) * TILE_ROW_PIXELS
            } else if character_code < 128 {
                CHARACTER_DATA0 + 0x800 + (character_code as u16) * TILE_ROW_PIXELS
            } else {
                CHARACTER_DATA0 + ((character_code - 128) as u16) * TILE_ROW_PIXELS
            };
            let row_address: u16 = character_data_offset + (tile_row as u16) * TILE_ROW_OFFSET;
            let lsb: u8 = memory.fetch(row_address);
            let msb: u8 = memory.fetch(row_address + 1);

            let tile_column: u8 = if tile == 0 {
                scx % TILE_DIMENSION
            } else {
                0
            };
            let ghost tile_start = pixels_rendered;
            // The pixels of the tile row, from the leftmost one that shows
            let mut column: u8 = tile_column;
            while column < TILE_DIMENSION
                invariant
                    tile < TILES_PER_LINE,
                    tile_column <= column <= TILE_DIMENSION,
                    tile_column == if tile == 0 {
                        scx % 8
                    } else {
                        0
                    },
                    tile_start == if tile == 0 {
                        0
                    } else {
                        tile * 8 - scx % 8
                    },
                    pixels_rendered == tile_start + (column - tile_column),
                    memory@ == old(memory)@,
                    scx == memory@.read(memory_map::SCX),
                    lcdc == memory@.read(memory_map::LCDC),
                    palette == memory@.read(memory_map::BGP),
                    line == background_line(memory@),
                    local_x == (scx / 8 + tile) % 32,
                    character_code == memory@.read(code_address(lcdc, local_x as int, (line / 8) as int) as u16),
                    row_address == character_address(lcdc, character_code) + (line % 8) * 2,
                    lsb == memory@.read(row_address),
                    msb == memory@.read((row_address + 1) as u16),
                    ly < FRAME_HEIGHT,
                    start == ly * FRAME_WIDTH,
                    self.scanline_pixels_rendered == old(self).scanline_pixels_rendered,
                    self.frame_buffer@.len() == FRAME_WIDTH * FRAME_HEIGHT,
                    self.frame_buffer@.len() == old(self).frame_buffer@.len(),
                    forall|i: int|
                        0 <= i < self.frame_buffer@.len() ==> #[trigger] self.frame_buffer@[i] == if start
                            <= i < start + pixels_rendered {
                            background_shade(memory@, i - start)
                        } else {
                            old(self).frame_buffer@[i]
                        },
                decreases TILE_DIMENSION - column,
            {
                let color: u8 = pixel_color(palette, lsb, msb, 7 - column);
                proof {
                    let x = pixels_rendered as int;
                    assert(x + scx % 8 == tile * 8 + column);
                    assert((x + scx % 8) / 8 == tile as int);
                    assert((x + scx) % 8 == column as int);
                    assert(color == background_shade(memory@, x));
                }
                self.frame_buffer[start + pixels_rendered] = color;
                pixels_rendered += 1;
                column += 1;
            }
            tile += 1;
        }
        assert(pixels_rendered == pixels_drawn(memory@));
        assert(self.frame_buffer@ =~= rendered(old(self)@.frame_buffer, old(memory)@));
    }
}

/// The shade of the pixel whose two bits come from bit `pixel_x` of the two
/// bit planes.
fn pixel_color(palette: u8, lsb: u8, msb: u8, pixel_x: u8) -> (color: u8)
    ensures
        color == shade(palette, lsb, msb, pixel_x as int),
        color <= 3,
{
    proof {
        lemma_palette_bits(palette);
    }
    let shade_0: u8 = palette & 0x03;
    let shade_1: u8 = (palette >> 2u8) & 0x03;
    let shade_2: u8 = (palette >> 4u8) & 0x03;
    let shade_3: u8 = palette >> 6u8;

    let bit0: bool = bit_operations::simple_bit(lsb, pixel_x as usize);
    let bit1: bool = bit_operations::simple_bit(msb, pixel_x as usize);

    match (bit1, bit0) {
        (false, false) => shade_0,
        (false, true) => shade_1,
        (true, false) => shade_2,
        (true, true) => shade_3,
    }
}

/// The gray level that a display shows for a shade of the frame buffer.
pub fn shade_gray_level(shade: u8) -> (level: Option<u8>)
    ensures
        level == gray_level(shade),
{
    match shade {
        0x00 => Some(255),
        0x01 => Some(198),
        0x02 => Some(127),
        0x03 => Some(27),
        _ => None,
    }
}

} // verus!
