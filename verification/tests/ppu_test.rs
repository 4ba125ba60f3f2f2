use gameboy_emulator::hardware::memory::Memory;
use gameboy_emulator::hardware::memory_map;
use gameboy_emulator::hardware::ppu::{
    FRAME_CYCLES, MODE00_THRESHOLD, MODE01_THRESHOLD, MODE10_THRESHOLD, MODE11_THRESHOLD, PPU,
};
use gameboy_emulator::hardware::video::{shade_gray_level, Video, FRAME_HEIGHT, FRAME_WIDTH};
use gameboy_emulator::hardware::video_mode;

fn memory() -> Memory {
    match Memory::new(vec![0u8; 256], None, None) {
        Ok(memory) => memory,
        Err(e) => panic!("no memory: {:?}", e),
    }
}

/// A bus with the display on, at the start of a frame.
fn frame_start() -> Memory {
    let mut memory = memory();
    memory.write(memory_map::LCDC, 0x80);
    memory.write(memory_map::STAT, video_mode::SEARCH_OAM);
    memory.write(memory_map::LY, 0x00);
    memory.write(memory_map::LYC, 0xFF);
    memory
}

fn mode(memory: &mut Memory) -> u8 {
    memory.fetch(memory_map::STAT) & 0x03
}

#[test]
fn test_new_ppu() {
    let ppu = PPU::new();
    assert_eq!(ppu.accumulated_cycles, 0);
    assert!(ppu.update_buffer);
    assert!(!ppu.debug_mode);
    assert_eq!(ppu.video.frame_buffer.len(), 160 * 144);
    assert!(ppu.video.frame_buffer.iter().all(|shade| *shade == 0));
    assert_eq!(ppu.video.scanline_pixels_rendered, 0);
}

#[test]
fn test_nothing_moves_while_the_display_is_off() {
    let mut memory = memory();
    memory.write(memory_map::LCDC, 0x7F);
    memory.write(memory_map::STAT, video_mode::SEARCH_OAM);
    let mut ppu = PPU::new();
    for _ in 0..1000 {
        ppu.cycle(&mut memory, 4);
    }
    assert_eq!(ppu.accumulated_cycles, 0);
    assert_eq!(ppu.registers.address_register, 0x0000);
    assert_eq!(memory.fetch(memory_map::STAT), video_mode::SEARCH_OAM);
    assert_eq!(memory.fetch(memory_map::LY), 0x00);
    assert_eq!(memory.fetch(memory_map::IF), 0x00);
}

#[test]
fn test_modes_of_a_line() {
    let mut memory = frame_start();
    let mut ppu = PPU::new();
    for _ in 0..MODE10_THRESHOLD - 1 {
        ppu.cycle(&mut memory, 1);
        assert_eq!(mode(&mut memory), video_mode::SEARCH_OAM);
    }
    ppu.cycle(&mut memory, 1);
    assert_eq!(mode(&mut memory), video_mode::SCANLINE);
    for _ in 0..MODE11_THRESHOLD - 1 {
        ppu.cycle(&mut memory, 1);
        assert_eq!(mode(&mut memory), video_mode::SCANLINE);
        assert_eq!(memory.fetch(memory_map::LY), 0);
    }
    ppu.cycle(&mut memory, 1);
    assert_eq!(mode(&mut memory), video_mode::HBLANK);
    // the line is over
    assert_eq!(memory.fetch(memory_map::LY), 1);
    for _ in 0..MODE00_THRESHOLD - 1 {
        ppu.cycle(&mut memory, 1);
        assert_eq!(mode(&mut memory), video_mode::HBLANK);
    }
    ppu.cycle(&mut memory, 1);
    assert_eq!(mode(&mut memory), video_mode::SEARCH_OAM);
    assert_eq!(memory.fetch(memory_map::LY), 1);
    assert_eq!(ppu.accumulated_cycles, 0);
    // no interrupt was asked for
    assert_eq!(memory.fetch(memory_map::IF), 0x00);
}

#[test]
fn test_cycles_beyond_a_mode_count_for_the_next() {
    let mut memory = frame_start();
    let mut ppu = PPU::new();
    ppu.cycle(&mut memory, 18);
    assert_eq!(mode(&mut memory), video_mode::SEARCH_OAM);
    ppu.cycle(&mut memory, 6);
    assert_eq!(mode(&mut memory), video_mode::SCANLINE);
    assert_eq!(ppu.accumulated_cycles, 4);
}

#[test]
fn test_a_frame_takes_17556_machine_cycles() {
    assert_eq!(FRAME_CYCLES * 4, 70224);
    assert_eq!(FRAME_CYCLES, 144 * (MODE10_THRESHOLD + MODE11_THRESHOLD + MODE00_THRESHOLD) + MODE01_THRESHOLD);
    for step in [1usize, 2, 3, 4, 6] {
        let mut memory = frame_start();
        let mut ppu = PPU::new();
        let mut spent = 0;
        let mut frames = 0;
        while frames < 2 {
            ppu.cycle(&mut memory, step);
            spent += step;
            if spent % FRAME_CYCLES == 0 {
                frames += 1;
                assert_eq!(memory.fetch(memory_map::LY), 0);
                assert_eq!(mode(&mut memory), video_mode::SEARCH_OAM);
                assert_eq!(ppu.accumulated_cycles, 0);
            } else if spent < FRAME_CYCLES {
                // not back at the start before the frame is over
                assert!(
                    memory.fetch(memory_map::LY) != 0
                        || mode(&mut memory) != video_mode::SEARCH_OAM
                        || spent < 114
                );
            }
        }
        assert_eq!(spent, 2 * FRAME_CYCLES);
    }
}

#[test]
fn test_vertical_blank() {
    let mut memory = frame_start();
    // the interrupt on entering VBLANK is asked for in STAT
    memory.write(memory_map::STAT, 0x10 | video_mode::SEARCH_OAM);
    let mut ppu = PPU::new();
    for _ in 0..144 * 114 - 1 {
        ppu.cycle(&mut memory, 1);
    }
    assert_eq!(mode(&mut memory), video_mode::HBLANK);
    assert_eq!(memory.fetch(memory_map::LY), 144);
    assert_eq!(memory.fetch(memory_map::IF), 0x00);
    ppu.cycle(&mut memory, 1);
    assert_eq!(mode(&mut memory), video_mode::VBLANK);
    // both the VBLANK and the LCDC interrupt are requested
    assert_eq!(memory.fetch(memory_map::IF), 0x03);
    // LY counts on through the ten lines
    for line in 144..154u8 {
        for _ in 0..114 {
            assert_eq!(mode(&mut memory), video_mode::VBLANK);
            ppu.cycle(&mut memory, 1);
        }
        if line < 153 {
            assert_eq!(memory.fetch(memory_map::LY), line + 1);
        }
    }
    assert_eq!(mode(&mut memory), video_mode::SEARCH_OAM);
    assert_eq!(memory.fetch(memory_map::LY), 0);
    assert_eq!(memory.fetch(memory_map::STAT), 0x10 | video_mode::SEARCH_OAM);
}

#[test]
fn test_vertical_blank_ends_when_ly_is_past_the_frame() {
    let mut memory = frame_start();
    memory.write(memory_map::STAT, video_mode::VBLANK);
    memory.write(memory_map::LY, 154);
    let mut ppu = PPU::new();
    ppu.cycle(&mut memory, 1);
    assert_eq!(mode(&mut memory), video_mode::SEARCH_OAM);
    assert_eq!(memory.fetch(memory_map::LY), 0);
    assert_eq!(ppu.accumulated_cycles, 0);
}

#[test]
fn test_stat_interrupts_on_entering_a_mode() {
    // HBLANK with bit 3
    let mut memory = frame_start();
    memory.write(memory_map::STAT, 0x08 | video_mode::SCANLINE);
    let mut ppu = PPU::new();
    ppu.cycle(&mut memory, 42);
    assert_eq!(memory.fetch(memory_map::IF), 0x00);
    ppu.cycle(&mut memory, 1);
    assert_eq!(memory.fetch(memory_map::STAT), 0x08 | video_mode::HBLANK);
    assert_eq!(memory.fetch(memory_map::IF), 0x02);

    // SEARCH_OAM with bit 5
    let mut memory = frame_start();
    memory.write(memory_map::STAT, 0x20 | video_mode::HBLANK);
    let mut ppu = PPU::new();
    ppu.cycle(&mut memory, 51);
    assert_eq!(memory.fetch(memory_map::STAT), 0x20 | video_mode::SEARCH_OAM);
    assert_eq!(memory.fetch(memory_map::IF), 0x02);

    // SCANLINE has no bit
    let mut memory = frame_start();
    memory.write(memory_map::STAT, 0x38 | video_mode::SEARCH_OAM);
    let mut ppu = PPU::new();
    ppu.cycle(&mut memory, 20);
    assert_eq!(memory.fetch(memory_map::STAT), 0x38 | video_mode::SCANLINE);
    assert_eq!(memory.fetch(memory_map::IF), 0x00);

    // VBLANK without bit 4 requests the VBLANK interrupt alone
    let mut memory = frame_start();
    memory.write(memory_map::STAT, 0x28 | video_mode::HBLANK);
    memory.write(memory_map::LY, 144);
    let mut ppu = PPU::new();
    ppu.cycle(&mut memory, 51);
    assert_eq!(memory.fetch(memory_map::STAT), 0x28 | video_mode::VBLANK);
    assert_eq!(memory.fetch(memory_map::IF), 0x01);
}

#[test]
fn test_ly_is_compared_with_lyc() {
    let mut memory = frame_start();
    memory.write(memory_map::LYC, 0x01);
    memory.write(memory_map::STAT, 0x40 | 0x04 | video_mode::SCANLINE);
    let mut ppu = PPU::new();
    // LY is 0: the match bit is cleared, and bit 6 stays
    ppu.cycle(&mut memory, 1);
    assert_eq!(memory.fetch(memory_map::STAT), 0x40 | video_mode::SCANLINE);
    assert_eq!(memory.fetch(memory_map::IF), 0x00);
    // the end of the scanline moves LY to 1: match, and interrupt by bit 6
    ppu.cycle(&mut memory, 42);
    assert_eq!(memory.fetch(memory_map::LY), 1);
    assert_eq!(memory.fetch(memory_map::STAT), 0x40 | 0x04 | video_mode::HBLANK);
    assert_eq!(memory.fetch(memory_map::IF), 0x02);

    // without bit 6 the match sets its bit alone
    let mut memory = frame_start();
    memory.write(memory_map::LYC, 0x00);
    let mut ppu = PPU::new();
    ppu.cycle(&mut memory, 1);
    assert_eq!(memory.fetch(memory_map::STAT), 0x04 | video_mode::SEARCH_OAM);
    assert_eq!(memory.fetch(memory_map::IF), 0x00);
    assert_eq!(ppu.registers.address_register, memory_map::STAT);
    assert_eq!(ppu.registers.data_register, 0x04 | video_mode::SEARCH_OAM);
}

#[test]
fn test_bus_accesses_of_the_ppu() {
    let mut memory = memory();
    let mut ppu = PPU::new();
    ppu.write_data(&mut memory, 0xC000, 0x12);
    assert_eq!(memory.fetch(0xC000), 0x12);
    assert_eq!(ppu.registers.address_register, 0xC000);
    assert_eq!(ppu.registers.data_register, 0x12);
    memory.write(0xC001, 0x34);
    assert_eq!(ppu.fetch_data(&mut memory, 0xC001), 0x34);
    assert_eq!(ppu.registers.address_register, 0xC001);
    assert_eq!(ppu.registers.data_register, 0x34);
}

/// Writes a tile whose row `row` has the bit planes `lsb` and `msb`.
fn write_tile_row(memory: &mut Memory, tile: u16, row: u16, lsb: u8, msb: u8) {
    memory.write(tile + 2 * row, lsb);
    memory.write(tile + 2 * row + 1, msb);
}

#[test]
fn test_scanline_of_the_background() {
    let mut memory = memory();
    // background on, tile data at 0x8000, tile map at 0x9800
    memory.write(memory_map::LCDC, 0x91);
    // shades 3, 2, 1, 0 for the numbers 0, 1, 2, 3
    memory.write(memory_map::BGP, 0x1B);
    memory.write(memory_map::LY, 2);
    // tile 1 in the first column, tile 2 in the others of the first 20
    memory.write(0x9800, 0x01);
    for column in 1..20u16 {
        memory.write(0x9800 + column, 0x02);
    }
    // row 2 of tile 1: the numbers 0 1 2 3 0 1 2 3 from left to right
    write_tile_row(&mut memory, 0x8010, 2, 0b0101_0101, 0b0011_0011);
    // row 2 of tile 2: 3 everywhere
    write_tile_row(&mut memory, 0x8020, 2, 0xFF, 0xFF);
    let mut video = Video::new();
    video.frame_buffer[0] = 0x7F;
    video.update_scanline(&mut memory);
    assert_eq!(memory.fetch(memory_map::LY), 3);
    let line = &video.frame_buffer[2 * FRAME_WIDTH..3 * FRAME_WIDTH];
    assert_eq!(&line[0..8], &[3, 2, 1, 0, 3, 2, 1, 0]);
    assert!(line[8..160].iter().all(|shade| *shade == 0));
    // the other lines are as they were
    assert_eq!(video.frame_buffer[0], 0x7F);
    assert!(video.frame_buffer[1..2 * FRAME_WIDTH].iter().all(|shade| *shade == 0));
    assert!(video.frame_buffer[3 * FRAME_WIDTH..].iter().all(|shade| *shade == 0));
    assert_eq!(video.frame_buffer.len(), FRAME_WIDTH * FRAME_HEIGHT);
}

#[test]
fn test_scanline_with_scroll() {
    let mut memory = memory();
    // background on, tile data at 0x8000, tile map at 0x9C00
    memory.write(memory_map::LCDC, 0x99);
    // every number its own shade
    memory.write(memory_map::BGP, 0xE4);
    memory.write(memory_map::LY, 1);
    // 3 pixels and 31 tiles to the right, 250 + 1 lines down: line 251 is row 3 of tile row 31
    memory.write(memory_map::SCX, 31 * 8 + 3);
    memory.write(memory_map::SCY, 250);
    // the map wraps around: column 31, then columns 0 to 18 of row 31
    memory.write(0x9C00 + 31 * 32 + 31, 0x03);
    memory.write(0x9C00 + 31 * 32, 0x04);
    // row 3 of tile 3: numbers 0 0 0 1 2 3 1 2; row 3 of tile 4: 1 everywhere
    write_tile_row(&mut memory, 0x8030, 3, 0b0001_0110, 0b0000_1101);
    write_tile_row(&mut memory, 0x8040, 3, 0xFF, 0x00);
    let mut video = Video::new();
    for shade in video.frame_buffer.iter_mut() {
        *shade = 0x7F;
    }
    video.update_scanline(&mut memory);
    assert_eq!(memory.fetch(memory_map::LY), 2);
    let line = &video.frame_buffer[FRAME_WIDTH..2 * FRAME_WIDTH];
    // the first tile shows from its fourth pixel on
    assert_eq!(&line[0..5], &[1, 2, 3, 1, 2]);
    assert_eq!(&line[5..13], &[1, 1, 1, 1, 1, 1, 1, 1]);
    assert!(line[13..157].iter().all(|shade| *shade == 0));
    // twenty tiles were drawn, so the last three pixels of the line were not
    assert_eq!(&line[157..160], &[0x7F, 0x7F, 0x7F]);
}

#[test]
fn test_signed_tile_numbers() {
    // tile data at 0x8800: tile 0 is at 0x9000, tile 0x80 at 0x8800, tile 0xFF at 0x8FF0
    for (code, address) in [(0x00u8, 0x9000u16), (0x7F, 0x97F0), (0x80, 0x8800), (0xFF, 0x8FF0)] {
        let mut memory = memory();
        memory.write(memory_map::LCDC, 0x81);
        memory.write(memory_map::BGP, 0xE4);
        memory.write(0x9800, code);
        if code != 0x00 {
            // the other tiles of the line are tile 0, which stays blank
            write_tile_row(&mut memory, address, 0, 0xFF, 0xFF);
        } else {
            for column in 1..20u16 {
                memory.write(0x9800 + column, 0x01);
            }
            write_tile_row(&mut memory, address, 0, 0xFF, 0xFF);
        }
        let mut video = Video::new();
        video.update_scanline(&mut memory);
        assert_eq!(&video.frame_buffer[0..8], &[3, 3, 3, 3, 3, 3, 3, 3], "tile {:#04X}", code);
        assert!(video.frame_buffer[8..160].iter().all(|shade| *shade == 0), "tile {:#04X}", code);
    }
}

#[test]
fn test_scanline_without_background_moves_ly_alone() {
    let mut memory = memory();
    memory.write(memory_map::LCDC, 0x90);
    memory.write(memory_map::BGP, 0xFF);
    memory.write(memory_map::LY, 0xFF);
    let mut video = Video::new();
    video.update_scanline(&mut memory);
    assert_eq!(memory.fetch(memory_map::LY), 0x00);
    assert!(video.frame_buffer.iter().all(|shade| *shade == 0));

    // a line past the frame is not drawn either
    memory.write(memory_map::LCDC, 0x91);
    memory.write(memory_map::LY, 144);
    video.update_scanline(&mut memory);
    assert_eq!(memory.fetch(memory_map::LY), 145);
    assert!(video.frame_buffer.iter().all(|shade| *shade == 0));

    // the last line of the frame is
    memory.write(memory_map::LY, 143);
    video.update_scanline(&mut memory);
    assert!(video.frame_buffer[..143 * FRAME_WIDTH].iter().all(|shade| *shade == 0));
    assert!(video.frame_buffer[143 * FRAME_WIDTH..].iter().all(|shade| *shade == 3));
}

#[test]
fn test_the_ppu_draws_at_the_end_of_a_scanline() {
    let mut memory = frame_start();
    memory.write(memory_map::LCDC, 0x91);
    memory.write(memory_map::BGP, 0x02);
    let mut ppu = PPU::new();
    ppu.cycle(&mut memory, 20);
    ppu.cycle(&mut memory, 42);
    assert!(ppu.video.frame_buffer.iter().all(|shade| *shade == 0));
    ppu.cycle(&mut memory, 1);
    assert!(ppu.video.frame_buffer[..FRAME_WIDTH].iter().all(|shade| *shade == 2));
    assert!(ppu.video.frame_buffer[FRAME_WIDTH..].iter().all(|shade| *shade == 0));
}

#[test]
fn test_gray_levels() {
    assert_eq!(shade_gray_level(0), Some(255));
    assert_eq!(shade_gray_level(1), Some(198));
    assert_eq!(shade_gray_level(2), Some(127));
    assert_eq!(shade_gray_level(3), Some(27));
    assert_eq!(shade_gray_level(4), None);
    assert_eq!(shade_gray_level(0xFF), None);
}
