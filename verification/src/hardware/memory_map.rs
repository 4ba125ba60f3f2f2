//! Special memory addresses and the bounds of the memory-mapped areas.

use vstd::prelude::*;

verus! {

/// Internal / BOOT ROM (if enabled) Start
pub const IROM: u16 = 0x0000;

/// Internal / BOOT ROM (if enabled) End
pub const IROX: u16 = 0x00FF;

/// External ROM Space
pub const IROZ: u16 = 0x0100;

/// ROM Bank #0 Start
pub const ROM0: u16 = 0x0000;

/// Vertical Blank Interrupt Start Address
pub const VBI0: u16 = 0x0040;

/// LCD Control Status Interrupt Start Address
pub const LCS0: u16 = 0x0048;

/// Timer Overflow Interrupt Start Address
pub const TOI0: u16 = 0x0050;

/// Serial Transfer Completion Interrupt Start Address
pub const STCI: u16 = 0x0058;

/// High-to-Low of P10-P13 Interrupt Start Address
pub const HTLP: u16 = 0x0060;

/// Begin Instructions Point
pub const BGN: u16 = 0x0100;

/// Scrolling Nintendo Graphic Start
pub const NTD0: u16 = 0x0104;

/// Scrolling Nintendo Graphic End
pub const NTD9: u16 = 0x0133;

/// Title of the Game (Uppercase ASCII) Start
pub const TN0: u16 = 0x0134;

/// Title of the Game (Uppercase ASCII) End
pub const TN9: u16 = 0x0142;

/// Colorful or Colorless GameBoy Configuration
pub const COLO: u16 = 0x0143;

/// ASCII High nibble of Licensee
pub const HLIC: u16 = 0x0144;

/// ASCII Low nibble of Licensee
pub const LLIC: u16 = 0x0145;

/// GAME BOY Version Indicator
pub const GBV: u16 = 0x0146;

/// ROM Cartridge Type
pub const RTC: u16 = 0x0147;

/// ROM Size
pub const OSIZ: u16 = 0x0148;

/// RAM Size
pub const ASIZ: u16 = 0x0149;

/// Destination Code (Japan or Worldwide)
pub const DCOD: u16 = 0x014A;

/// Licensee Code (Old Format)
pub const LCOD: u16 = 0x014B;

/// Mask ROM Version Number
pub const MROM: u16 = 0x014C;

/// Complement Check
pub const CHEK: u16 = 0x014D;

/// Checksum Start
pub const CSU0: u16 = 0x014E;

/// Checksum End
pub const CSU9: u16 = 0x014F;

/// Non-switchable ROM Bank #0 End
pub const ROM9: u16 = 0x3FFF;

/// Switchable / External ROM Bank Start
pub const RB0: u16 = 0x4000;

/// Switchable / External ROM Bank End
pub const RB9: u16 = 0x7FFF;

/// VRAM Start
pub const VR0: u16 = 0x8000;

/// VRAM End
pub const VR9: u16 = 0x9FFF;

/// Switchable / External RAM Bank Start
pub const SWR0: u16 = 0xA000;

/// Switchable / External RAM Bank End
pub const SWR9: u16 = 0xBFFF;

/// Internal (Work) RAM Start
pub const WR0: u16 = 0xC000;

/// Internal (Work) RAM End
pub const WR9: u16 = 0xDFFF;

/// ECHO of RAM (0xC000) Start
pub const ER0: u16 = 0xE000;

/// ECHO of RAM (0xDFFF) End
pub const ER9: u16 = 0xFDFF;

/// Object Attribute Memory (OAM) Start
pub const OAM0: u16 = 0xFE00;

/// Object Attribute Memory (OAM) End
pub const OAM9: u16 = 0xFE9F;

/// High RAM Area Start
pub const RAM0: u16 = 0xFEA0;

/// Unused High RAM Area End
pub const URAM: u16 = 0xFEFF;

/// Usable High RAM Area Start
pub const HRAM: u16 = 0xFF00;

/// P1   (Read Joypad Info. & Determine System Type R/W)
pub const P1: u16 = 0xFF00;

/// SB   (Serial Transfer Data R/W)
pub const SB: u16 = 0xFF01;

/// SC   (Serial Transfer Control R/W)
pub const SC: u16 = 0xFF02;

/// DIV  (Divider R/W)
pub const DIV: u16 = 0xFF04;

/// TIMA (Timer Counter R/W)
pub const TIMA: u16 = 0xFF05;

/// TMA  (Timer Modulo R/W)
pub const TMA: u16 = 0xFF06;

/// TAC  (Timer Control R/W)
pub const TAC: u16 = 0xFF07;

/// IF   (Interrupt Flag R/W)
pub const IF: u16 = 0xFF0F;

/// NR10 (Sound Mode 1, Sweep Register R/W)
pub const NR10: u16 = 0xFF10;

/// NR11 (Sound Mode 1, Sound Length / Wave Pattern Duty R/W)
pub const NR11: u16 = 0xFF11;

/// NR12 (Sound Mode 1, Envelope R/W)
pub const NR12: u16 = 0xFF12;

/// NR13 (Sound Mode 1, Frequency Low W)
pub const NR13: u16 = 0xFF13;

/// NR14 (Sound Mode 1, Frequency High R/W)
pub const NR14: u16 = 0xFF14;

/// NR21 (Sound Mode 2, Sound Length / Wave Pattern Duty R/W)
pub const NR21: u16 = 0xFF16;

/// NR22 (Sound Mode 2, Envelope R/W)
pub const NR22: u16 = 0xFF17;

/// NR23 (Sound Mode 2, Frequency Low W)
pub const NR23: u16 = 0xFF18;

/// NR24 (Sound Mode 2, Frequency High R/W)
pub const NR24: u16 = 0xFF19;

/// NR30 (Sound Mode 3, Sound ON/OFF RW)
pub const NR30: u16 = 0xFF1A;

/// NR31 (Sound Mode 3, Sound Length R/W)
pub const NR31: u16 = 0xFF1B;

/// NR32 (Sound Mode 3, Select Output Level R/W)
pub const NR32: u16 = 0xFF1C;

/// NR33 (Sound Mode 3, Frequency Lower Data W)
pub const NR33: u16 = 0xFF1D;

/// NR34 (Sound Mode 3, Frequency Higher Data R/W)
pub const NR34: u16 = 0xFF1E;

/// NR41 (Sound Mode 4, SOund Length R/W)
pub const NR41: u16 = 0xFF20;

/// NR42 (Sound Mode 4, Envelope R/W)
pub const NR42: u16 = 0xFF21;

/// NR43 (Sound Mode 4, Polynomial Counter R/W)
pub const NR43: u16 = 0xFF22;

/// NR44 (Sound Mode 4, Counter/Consecutive; Initial R/W)
pub const NR44: u16 = 0xFF23;

/// NR50 (Channel Control / ON/OFF / Volume R/W)
pub const NR50: u16 = 0xFF24;

/// NR51 (Selection of Sound Output Terminal R/W)
pub const NR51: u16 = 0xFF25;

/// NR52 (Sound ON/OFF R/W)
pub const NR52: u16 = 0xFF26;

/// Wave Pattern RAM Bank Start
pub const WPR0: u16 = 0xFF30;

/// Wave Pattern RAM Bank End
pub const WPR9: u16 = 0xFF3F;

/// LCDC (LCD Control R/W)
pub const LCDC: u16 = 0xFF40;

/// STAT (LCD Control Status R/W)
pub const STAT: u16 = 0xFF41;

/// SCY  (Scroll Y R/W)
pub const SCY: u16 = 0xFF42;

/// SCX  (Scroll X R/W)
pub const SCX: u16 = 0xFF43;

/// LY   (LCD Control Y-Coordinate R)
pub const LY: u16 = 0xFF44;

/// LYC  (LY Compare R/W)
pub const LYC: u16 = 0xFF45;

/// DMA  (DMA Transfer and Start Address W)
pub const DMA: u16 = 0xFF46;

/// BGP  (Background & Window Palette Data R/W)
pub const BGP: u16 = 0xFF47;

/// OBP0 (Object Palette 0 Data R/W)
pub const OBP0: u16 = 0xFF48;

/// OBP1 (Object Palette 1 Data R/W)
pub const OBP1: u16 = 0xFF49;

/// WY   (Window Y Position R/W)
pub const WY: u16 = 0xFF4A;

/// WX   (Window X Position R/W) (Minus 7)
pub const WX: u16 = 0xFF4B;

/// DMG ROM Status
pub const DMGS: u16 = 0xFF50;

/// IE   (Interrupt Enable R/W)
pub const IE: u16 = 0xFFFF;

/// High RAM Area End
pub const RAM9: u16 = 0xFFFF;

/// Distance between an echo address and the work RAM address it mirrors
pub const ECHO_OFFSET: u16 = 0x2000;

} // verus!
