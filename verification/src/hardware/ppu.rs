//! The pixel processing unit: the mode state machine that paces a frame.
//!
//! ```text
//!    Mode 10  x_____x_____x_____x_____x_____x_________________  SEARCH_OAM
//!    Mode 11  _xx____xx____xx____xx____xx____xx_______________  SCANLINE
//!    Mode 00  ___xxx___xxx___xxx___xxx___xxx___xxx____________  HBLANK
//!    Mode 01  ____________________________________xxxxxxxxxxxx  VBLANK
//! ```
//!
//! A visible line takes 80 + 172 + 204 = 456 clock cycles, the vertical blank
//! ten times as long, and a frame of 154 lines 70224. The unit counts machine
//! cycles, of four clock cycles each: 20 + 43 + 51 = 114 to a line, 17556 to a
//! frame.
//!
//! ```text
//! STAT  bit 6     interrupt on LY = LYC
//!       bit 5     interrupt on entering SEARCH_OAM
//!       bit 4     interrupt on entering VBLANK
//!       bit 3     interrupt on entering HBLANK
//!       bit 2     LY = LYC
//!       bits 1-0  mode
//! ```

use vstd::prelude::*;
use crate::hardware::bit_operations;
use crate::hardware::interrupt;
use crate::hardware::interrupt::Flag as InterruptFlag;
use crate::hardware::memory::Memory;
use crate::hardware::memory::MemoryView;
use crate::hardware::memory_map;
use crate::hardware::video;
use crate::hardware::video::Video;
use crate::hardware::video::VideoView;
use crate::hardware::video_mode;

verus! {

/// Machine cycles of HBLANK (204 clock cycles)
pub const MODE00_THRESHOLD: usize = 51;

/// Machine cycles of VBLANK (4560 clock cycles)
pub const MODE01_THRESHOLD: usize = 1140;

/// Machine cycles of SEARCH_OAM (80 clock cycles)
pub const MODE10_THRESHOLD: usize = 20;

/// Machine cycles of SCANLINE (172 clock cycles)
pub const MODE11_THRESHOLD: usize = 43;

pub const VBLANK_LINES: usize = 10;

pub const VBLANK_CYCLES_PER_LINE: usize = 114;

/// Machine cycles of a frame (70224 clock cycles)
pub const FRAME_CYCLES: usize = 17556;

#[derive(Clone, Copy, Debug)]
pub struct PPURegisters {
    /// Memory address register: the address of the last bus access
    pub address_register: u16,
    /// Memory data register: the byte of the last bus access
    pub data_register: u8,
}

#[derive(Debug)]
pub struct PPU {
    pub registers: PPURegisters,
    pub video: Video,
    /// Machine cycles spent in the current mode
    pub accumulated_cycles: usize,
    pub update_buffer: bool,
    /// Set by a driver that traces the unit; the unit never reads it.
    pub debug_mode: bool,
}

pub struct PPUView {
    pub registers: PPURegisters,
    pub video: VideoView,
    pub accumulated_cycles: usize,
    pub update_buffer: bool,
    pub debug_mode: bool,
}

impl View for PPU {
    type V = PPUView;

    open spec fn view(&self) -> PPUView {
        PPUView {
            registers: self.registers,
            video: self.video@,
            accumulated_cycles: self.accumulated_cycles,
            update_buffer: self.update_buffer,
            debug_mode: self.debug_mode,
        }
    }
}

/// What the end of a mode, or a step within VBLANK, changes.
pub struct Transition {
    /// The mode from here on
    pub mode: u8,
    /// Machine cycles already spent in that mode
    pub accumulated_cycles: int,
    /// LY from here on
    pub ly: u8,
    pub video: VideoView,
    pub memory: MemoryView,
    /// Whether STAT asks for an interrupt on entering the mode
    pub stat_interrupt: bool,
}

/// The mode in the low two bits of STAT.
pub open spec fn mode_of(stat: u8) -> u8 {
    stat % 4
}

/// STAT with its mode replaced.
pub open spec fn with_mode(stat: u8, mode: u8) -> u8 {
    (stat - stat % 4 + mode) as u8
}

/// Machine cycles that a mode lasts.
pub open spec fn threshold(mode: u8) -> int {
    if mode == video_mode::HBLANK {
        MODE00_THRESHOLD as int
    } else if mode == video_mode::VBLANK {
        MODE01_THRESHOLD as int
    } else if mode == video_mode::SEARCH_OAM {
        MODE10_THRESHOLD as int
    } else {
        MODE11_THRESHOLD as int
    }
}

/// What `total` machine cycles in `mode` lead to.
///
/// SEARCH_OAM is followed by SCANLINE, and SCANLINE by HBLANK, at whose start
/// the line is drawn and LY moves on. HBLANK is followed by SEARCH_OAM for
/// the next line, or after the last line of the frame by VBLANK, which
/// requests the VBLANK interrupt. VBLANK counts LY on, one line every 114
/// cycles, and is followed by SEARCH_OAM with LY at 0. The cycles beyond the
/// length of a mode count for the next one.
pub open spec fn transition(video: VideoView, memory: MemoryView, stat: u8, ly: u8, total: int) -> Transition {
    let mode = mode_of(stat);
    let stay = Transition { mode, accumulated_cycles: total, ly, video, memory, stat_interrupt: false };
    if mode == video_mode::VBLANK {
        if total >= MODE01_THRESHOLD || ly >= video::FRAME_HEIGHT_FULL {
            Transition {
                mode: video_mode::SEARCH_OAM,
                accumulated_cycles: if total >= MODE01_THRESHOLD {
                    total - MODE01_THRESHOLD
                } else {
                    0
                },
                ly: 0,
                memory: memory.write(memory_map::LY, 0),
                ..stay
            }
        } else {
            let line = (video::FRAME_HEIGHT + total / (VBLANK_CYCLES_PER_LINE as int)) as u8;
            Transition { ly: line, memory: memory.write(memory_map::LY, line), ..stay }
        }
    } else if total < threshold(mode) {
        stay
    } else if mode == video_mode::SEARCH_OAM {
        Transition { mode: video_mode::SCANLINE, accumulated_cycles: total - MODE10_THRESHOLD, ..stay }
    } else if mode == video_mode::SCANLINE {
        let (video1, memory1) = video::scanned(video, memory);
        Transition {
            mode: video_mode::HBLANK,
            accumulated_cycles: total - MODE11_THRESHOLD,
            ly: memory1.read(memory_map::LY),
            video: video1,
            memory: memory1,
            stat_interrupt: bit_operations::bit_is_set(with_mode(stat, video_mode::HBLANK), 3),
        }
    } else if ly >= video::FRAME_HEIGHT {
        Transition {
            mode: video_mode::VBLANK,
            accumulated_cycles: total - MODE00_THRESHOLD,
            memory: interrupt::raised(memory, InterruptFlag::VBLANK),
            stat_interrupt: bit_operations::bit_is_set(with_mode(stat, video_mode::VBLANK), 4),
            ..stay
        }
    } else {
        Transition {
            mode: video_mode::SEARCH_OAM,
            accumulated_cycles: total - MODE00_THRESHOLD,
            stat_interrupt: bit_operations::bit_is_set(with_mode(stat, video_mode::SEARCH_OAM), 5),
            ..stay
        }
    }
}

/// The unit and the bus after `cycles` more machine cycles.
///
/// Nothing moves while bit 7 of LCDC keeps the display off. Else the mode
/// machine takes the cycles, STAT takes the mode, and LY is compared with
/// LYC: bit 2 of STAT is set on a match and cleared otherwise. The LCDC
/// interrupt is requested on entering a mode whose STAT bit asks for it, and
/// on a match if bit 6 of STAT asks for it.
pub open spec fn stepped(ppu: PPUView, memory: MemoryView, cycles: usize) -> (PPUView, MemoryView) {
    if !bit_operations::bit_is_set(memory.read(memory_map::LCDC), 7) {
        (ppu, memory)
    } else {
        let stat = memory.read(memory_map::STAT);
        let t = transition(
            ppu.video,
            memory,
            stat,
            memory.read(memory_map::LY),
            ppu.accumulated_cycles + cycles,
        );
        let entered = t.mode != mode_of(stat);
        let stat1 = if entered {
            with_mode(stat, t.mode)
        } else {
            stat
        };
        let memory1 = if entered && t.stat_interrupt {
            interrupt::raised(t.memory, InterruptFlag::LCDC)
        } else {
            t.memory
        };
        let matched = t.ly == memory.read(memory_map::LYC);
        let stat2 = if matched {
            bit_operations::with_bit(stat1, 2) as u8
        } else {
            bit_operations::without_bit(stat1, 2) as u8
        };
        let memory2 = if matched && bit_operations::bit_is_set(stat2, 6) {
            interrupt::raised(memory1, InterruptFlag::LCDC)
        } else {
            memory1
        };
        (
            PPUView {
                registers: PPURegisters { address_register: memory_map::STAT, data_register: stat2 },
                video: t.video,
                accumulated_cycles: t.accumulated_cycles as usize,
                ..ppu
            },
            memory2.write(memory_map::STAT, stat2),
        )
    }
}

/// Where the unit stands in a frame.
pub struct Beam {
    pub mode: u8,
    pub ly: u8,
    /// Machine cycles spent in the mode
    pub accumulated_cycles: int,
}

/// Where the unit stands, from STAT, LY and its own count.
pub open spec fn beam_of(ppu: PPUView, memory: MemoryView) -> Beam {
    Beam {
        mode: mode_of(memory.read(memory_map::STAT)),
        ly: memory.read(memory_map::LY),
        accumulated_cycles: ppu.accumulated_cycles as int,
    }
}

impl Beam {
    /// The start of a frame: the first cycle of SEARCH_OAM of line 0.
    pub open spec fn frame_start() -> Beam {
        Beam { mode: video_mode::SEARCH_OAM, ly: 0, accumulated_cycles: 0 }
    }

    /// A stand that a frame passes through: a line of the frame in SEARCH_OAM
    /// and SCANLINE, the line after it in HBLANK, a line below the frame in
    /// VBLANK, and a count short of the length of the mode.
    pub open spec fn on_frame(self) -> bool {
        &&& 0 <= self.accumulated_cycles < threshold(self.mode)
        &&& if self.mode == video_mode::SEARCH_OAM || self.mode == video_mode::SCANLINE {
            self.ly < video::FRAME_HEIGHT
        } else if self.mode == video_mode::HBLANK {
            1 <= self.ly <= video::FRAME_HEIGHT
        } else {
            self.mode == video_mode::VBLANK && self.ly < video::FRAME_HEIGHT_FULL
        }
    }

    /// Machine cycles since the start of the frame.
    pub open spec fn elapsed(self) -> int {
        if self.mode == video_mode::SEARCH_OAM {
            self.ly * 114 + self.accumulated_cycles
        } else if self.mode == video_mode::SCANLINE {
            self.ly * 114 + MODE10_THRESHOLD + self.accumulated_cycles
        } else if self.mode == video_mode::HBLANK {
            (self.ly - 1) * 114 + MODE10_THRESHOLD + MODE11_THRESHOLD + self.accumulated_cycles
        } else {
            video::FRAME_HEIGHT * 114 + self.accumulated_cycles
        }
    }
}

/// The display is on: bit 7 of LCDC is set.
pub open spec fn display_on(memory: MemoryView) -> bool {
    bit_operations::bit_is_set(memory.read(memory_map::LCDC), 7)
}

/// The sum of the steps.
pub open spec fn total(steps: Seq<usize>) -> int
    decreases steps.len(),
{
    if steps.len() == 0 {
        0
    } else {
        total(steps.drop_last()) + steps.last()
    }
}

/// The unit and the bus after the steps, one after the other, with nothing
/// else writing to the bus in between.
pub open spec fn run(ppu: PPUView, memory: MemoryView, steps: Seq<usize>) -> (PPUView, MemoryView)
    decreases steps.len(),
{
    if steps.len() == 0 {
        (ppu, memory)
    } else {
        let (ppu1, memory1) = run(ppu, memory, steps.drop_last());
        stepped(ppu1, memory1, steps.last())
    }
}

/// What a write to LY, STAT or IF shows at the registers of the unit: the
/// byte at the register written to, and nothing at the others.
proof fn lemma_register_write(memory: MemoryView, address: u16, word: u8)
    requires
        memory.well_formed(),
        address == memory_map::LY || address == memory_map::STAT || address == memory_map::IF,
    ensures
        memory.write(address, word).well_formed(),
        memory.write(address, word).read(memory_map::LCDC) == memory.read(memory_map::LCDC),
        memory.write(address, word).read(memory_map::LYC) == memory.read(memory_map::LYC),
        memory.write(address, word).read(memory_map::LY) == if address == memory_map::LY {
            word
        } else {
            memory.read(memory_map::LY)
        },
        memory.write(address, word).read(memory_map::STAT) == if address == memory_map::STAT {
            word
        } else {
            memory.read(memory_map::STAT)
        },
{
}

/// A request of an interrupt shows at none of LCDC, LYC, LY and STAT.
proof fn lemma_request(memory: MemoryView, flag: InterruptFlag)
    requires
        memory.well_formed(),
    ensures
        interrupt::raised(memory, flag).well_formed(),
        interrupt::raised(memory, flag).read(memory_map::LCDC) == memory.read(memory_map::LCDC),
        interrupt::raised(memory, flag).read(memory_map::LYC) == memory.read(memory_map::LYC),
        interrupt::raised(memory, flag).read(memory_map::LY) == memory.read(memory_map::LY),
        interrupt::raised(memory, flag).read(memory_map::STAT) == memory.read(memory_map::STAT),
{
    lemma_register_write(
        memory,
        memory_map::IF,
        bit_operations::with_bit(memory.read(memory_map::IF), flag.bit_index()) as u8,
    );
}

/// One step of less than 20 machine cycles moves the unit on by as many
/// cycles of the frame, and from the last cycle of a frame to the start of the
/// next.
pub proof fn lemma_step_follows_the_frame(ppu: PPUView, memory: MemoryView, cycles: usize)
    requires
        memory.well_formed(),
        display_on(memory),
        beam_of(ppu, memory).on_frame(),
        cycles < MODE10_THRESHOLD,
        beam_of(ppu, memory).elapsed() + cycles <= FRAME_CYCLES,
    ensures
        ({
            let (ppu1, memory1) = stepped(ppu, memory, cycles);
            let before = beam_of(ppu, memory);
            let after = beam_of(ppu1, memory1);
            &&& memory1.well_formed()
            &&& display_on(memory1)
            &&& after.on_frame()
            &&& if before.elapsed() + cycles < FRAME_CYCLES {
                after.elapsed() == before.elapsed() + cycles
            } else {
                after == Beam::frame_start()
            }
        }),
{
    let stat = memory.read(memory_map::STAT);
    let ly = memory.read(memory_map::LY);
    let t = transition(ppu.video, memory, stat, ly, ppu.accumulated_cycles + cycles);
    // the bus after the mode machine
    if mode_of(stat) == video_mode::VBLANK {
        lemma_register_write(memory, memory_map::LY, t.ly);
    } else if mode_of(stat) == video_mode::SCANLINE {
        lemma_register_write(memory, memory_map::LY, ((ly + 1) % 256) as u8);
    } else {
        lemma_request(memory, InterruptFlag::VBLANK);
    }
    assert(t.memory.well_formed());
    assert(t.memory.read(memory_map::LY) == t.ly);
    assert(t.memory.read(memory_map::LCDC) == memory.read(memory_map::LCDC));
    // the requests and the write of STAT
    let entered = t.mode != mode_of(stat);
    let stat1 = if entered {
        with_mode(stat, t.mode)
    } else {
        stat
    };
    lemma_request(t.memory, InterruptFlag::LCDC);
    let memory1 = if entered && t.stat_interrupt {
        interrupt::raised(t.memory, InterruptFlag::LCDC)
    } else {
        t.memory
    };
    lemma_request(memory1, InterruptFlag::LCDC);
    let matched = t.ly == memory.read(memory_map::LYC);
    let stat2 = if matched {
        bit_operations::with_bit(stat1, 2) as u8
    } else {
        bit_operations::without_bit(stat1, 2) as u8
    };
    let memory2 = if matched && bit_operations::bit_is_set(stat2, 6) {
        interrupt::raised(memory1, InterruptFlag::LCDC)
    } else {
        memory1
    };
    lemma_register_write(memory2, memory_map::STAT, stat2);
    assert(mode_of(stat1) == t.mode);
    assert(mode_of(stat2) == t.mode);
    assert(stepped(ppu, memory, cycles).1 == memory2.write(memory_map::STAT, stat2));
}

/// A frame takes 17556 machine cycles, 70224 clock cycles: from the start of
/// a frame, steps of less than 20 machine cycles each that come to 17556
/// together lead to the start of the next frame, with LY at 0 and the mode
/// SEARCH_OAM. Nothing but the unit writes to the bus meanwhile.
pub proof fn lemma_frame_period(ppu: PPUView, memory: MemoryView, steps: Seq<usize>)
    requires
        memory.well_formed(),
        display_on(memory),
        beam_of(ppu, memory) == Beam::frame_start(),
        forall|i: int| 0 <= i < steps.len() ==> #[trigger] steps[i] < MODE10_THRESHOLD,
        total(steps) == FRAME_CYCLES,
    ensures
        beam_of(run(ppu, memory, steps).0, run(ppu, memory, steps).1) == Beam::frame_start(),
        run(ppu, memory, steps).1.read(memory_map::LY) == 0,
        mode_of(run(ppu, memory, steps).1.read(memory_map::STAT)) == video_mode::SEARCH_OAM,
        display_on(run(ppu, memory, steps).1),
{
    lemma_run_follows_the_frame(ppu, memory, steps);
}

/// Steps of less than 20 machine cycles each that stay within a frame move
/// the unit on by their sum.
pub proof fn lemma_run_follows_the_frame(ppu: PPUView, memory: MemoryView, steps: Seq<usize>)
    requires
        memory.well_formed(),
        display_on(memory),
        beam_of(ppu, memory).on_frame(),
        forall|i: int| 0 <= i < steps.len() ==> #[trigger] steps[i] < MODE10_THRESHOLD,
        beam_of(ppu, memory).elapsed() + total(steps) <= FRAME_CYCLES,
    ensures
        ({
            let (ppu1, memory1) = run(ppu, memory, steps);
            let before = beam_of(ppu, memory);
            let after = beam_of(ppu1, memory1);
            &&& memory1.well_formed()
            &&& display_on(memory1)
            &&& after.on_frame()
            &&& if before.elapsed() + total(steps) < FRAME_CYCLES {
                after.elapsed() == before.elapsed() + total(steps)
            } else {
                after == Beam::frame_start()
            }
        }),
    decreases steps.len(),
{
    if steps.len() > 0 {
        let earlier = steps.drop_last();
        lemma_total_is_not_negative(earlier);
        lemma_run_follows_the_frame(ppu, memory, earlier);
        let (ppu1, memory1) = run(ppu, memory, earlier);
        if beam_of(ppu, memory).elapsed() + total(earlier) == FRAME_CYCLES {
            // the frame is over, and the last step is empty
            assert(steps.last() == 0);
            assert(beam_of(ppu1, memory1) == Beam::frame_start());
            assert(Beam::frame_start().elapsed() == 0);
        }
        lemma_step_follows_the_frame(ppu1, memory1, steps.last());
    }
}

proof fn lemma_total_is_not_negative(steps: Seq<usize>)
    ensures
        total(steps) >= 0,
    decreases steps.len(),
{
    if steps.len() > 0 {
        lemma_total_is_not_negative(steps.drop_last());
    }
}

impl PPUView {
    /// The frame buffer has one byte for each pixel of the frame.
    pub open spec fn well_formed(self) -> bool {
        self.video.well_formed()
    }

    /// The unit as it is built: a blank frame, and no cycle counted.
    pub open spec fn initial() -> PPUView {
        PPUView {
            registers: PPURegisters { address_register: 0x0000, data_register: 0x00 },
            video: VideoView::blank(),
            accumulated_cycles: 0,
            update_buffer: true,
            debug_mode: false,
        }
    }
}

impl PPU {
    pub fn new() -> (ppu: PPU)
        ensures
            ppu@ == PPUView::initial(),
            ppu@.well_formed(),
    {
        let registers = PPURegisters { address_register: 0x0000, data_register: 0x00 };
        let video = Video::new();
        PPU { registers, video, accumulated_cycles: 0, update_buffer: true, debug_mode: false }
    }

    /// Advances the unit by `cycles` machine cycles.
    pub fn cycle(&mut self, memory: &mut Memory, cycles: usize)
        requires
            old(self)@.well_formed(),
            old(self).accumulated_cycles + cycles <= usize::MAX,
        ensures
            (final(self)@, final(memory)@) == stepped(old(self)@, old(memory)@, cycles),
            final(self)@.well_formed(),
            old(self).accumulated_cycles < MODE01_THRESHOLD && cycles < MODE10_THRESHOLD
                ==> final(self).accumulated_cycles < MODE01_THRESHOLD,
    {
        // The display is off while bit 7 of LCDC is clear
        if !bit_operations::simple_bit(memory.fetch(memory_map::LCDC), 7) {
            return ;
        }
        let current_stat: u8 = self.fetch_data(memory, memory_map::STAT);
        let current_mode: u8 = current_stat % 4;
        let clean_stat: u8 = current_stat - current_mode;
        let mut current_ly: u8 = self.fetch_data(memory, memory_map::LY);
        let current_lyc: u8 = self.fetch_data(memory, memory_map::LYC);

        let mut next_mode: u8 = current_mode;
        let mut next_stat: u8 = current_stat;
        let mut must_request_interrupt: bool = false;

        self.accumulated_cycles += cycles;

        match current_mode {
            video_mode::VBLANK => {
                if self.accumulated_cycles >= MODE01_THRESHOLD || current_ly as usize >= video::FRAME_HEIGHT_FULL {
                    // Request SEARCH_OAM
                    next_mode = video_mode::SEARCH_OAM;
                    next_stat = clean_stat + video_mode::SEARCH_OAM;
                    self.accumulated_cycles = if self.accumulated_cycles >= MODE01_THRESHOLD {
                        self.accumulated_cycles - MODE01_THRESHOLD
                    } else {
                        0
                    };
                    current_ly = 0x00;
                    memory.write(memory_map::LY, current_ly);
                } else {
                    // LY follows the lines of the vertical blank
                    let ly_checker: usize = self.accumulated_cycles / VBLANK_CYCLES_PER_LINE;
                    current_ly = (video::FRAME_HEIGHT + ly_checker) as u8;
                    memory.write(memory_map::LY, current_ly);
                }
            },
            video_mode::SEARCH_OAM => {
                if self.accumulated_cycles >= MODE10_THRESHOLD {
                    // Request SCANLINE
                    next_mode = video_mode::SCANLINE;
                    next_stat = clean_stat + video_mode::SCANLINE;
                    self.accumulated_cycles = self.accumulated_cycles - MODE10_THRESHOLD;
                }
            },
            video_mode::SCANLINE => {
                if self.accumulated_cycles >= MODE11_THRESHOLD {
                    // Request HBLANK
                    next_mode = video_mode::HBLANK;
                    next_stat = clean_stat + video_mode::HBLANK;
                    self.accumulated_cycles = self.accumulated_cycles - MODE11_THRESHOLD;
                    // The scanline has ended, and the whole line is drawn
                    self.video.update_scanline(memory);
                    current_ly = self.fetch_data(memory, memory_map::LY);
                    // Bit 3 of STAT asks for the interrupt
                    must_request_interrupt = bit_operations::simple_bit(next_stat, 3);
                }
            },
            _ => {
                if self.accumulated_cycles >= MODE00_THRESHOLD {
                    if current_ly as usize >= video::FRAME_HEIGHT {
                        // Request VBLANK
                        next_mode = video_mode::VBLANK;
                        next_stat = clean_stat + video_mode::VBLANK;
                        // Bit 4 of STAT asks for the interrupt
                        must_request_interrupt = bit_operations::simple_bit(next_stat, 4);
                        request_interrupt(self, memory, InterruptFlag::VBLANK);
                    } else {
                        // Request SEARCH_OAM
                        next_mode = video_mode::SEARCH_OAM;
                        next_stat = clean_stat + video_mode::SEARCH_OAM;
                        // Bit 5 of STAT asks for the interrupt
                        must_request_interrupt = bit_operations::simple_bit(next_stat, 5);
                    }
                    self.accumulated_cycles = self.accumulated_cycles - MODE00_THRESHOLD;
                }
            },
        }

        if must_request_interrupt && (next_mode != current_mode) {
            request_interrupt(self, memory, InterruptFlag::LCDC);
        }
        if current_ly == current_lyc {
            // Set the match flag (LYC = LY)
            next_stat = bit_operations::set(next_stat, 2);
            if bit_operations::simple_bit(next_stat, 6) {
                request_interrupt(self, memory, InterruptFlag::LCDC);
            }
        } else {
            // Reset the match flag (LYC != LY)
            next_stat = bit_operations::reset(next_stat, 2);
        }

        self.write_data(memory, memory_map::STAT, next_stat);
    }

    pub fn fetch_data(&mut self, memory: &mut Memory, address: u16) -> (data: u8)
        ensures
            data == old(memory)@.read(address),
            final(memory)@ == old(memory)@,
            final(self)@ == (PPUView {
                registers: PPURegisters { address_register: address, data_register: data },
                ..old(self)@
            }),
    {
        self.registers.address_register = address;
        self.registers.data_register = memory.fetch(self.registers.address_register);
        self.registers.data_register
    }

    pub fn write_data(&mut self, memory: &mut Memory, address: u16, word: u8)
        ensures
            final(memory)@ == old(memory)@.write(address, word),
            final(self)@ == (PPUView {
                registers: PPURegisters { address_register: address, data_register: word },
                ..old(self)@
            }),
    {
        self.registers.address_register = address;
        self.registers.data_register = word;
        memory.write(address, word);
    }
}

fn request_interrupt(ppu: &mut PPU, memory: &mut Memory, flag: InterruptFlag)
    ensures
        final(memory)@ == interrupt::raised(old(memory)@, flag),
        final(ppu)@.video == old(ppu)@.video,
        final(ppu)@.accumulated_cycles == old(ppu)@.accumulated_cycles,
        final(ppu)@.update_buffer == old(ppu)@.update_buffer,
        final(ppu)@.debug_mode == old(ppu)@.debug_mode,
{
    let interrupt_request: u8 = bit_operations::set(ppu.fetch_data(memory, memory_map::IF), flag.index());
    ppu.write_data(memory, memory_map::IF, interrupt_request);
}

} // verus!
