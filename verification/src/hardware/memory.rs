//! The memory bus: cartridge ROM, the boot ROM laid over its first page, and a
//! flat RAM that backs every writable area.
//!
//! Each of the 65536 addresses belongs to exactly one [`Region`], and the
//! region alone decides how a read or a write is served.

use vstd::prelude::*;
use crate::hardware::cartridge_types;
use crate::hardware::memory_map;

verus! {

/// Bytes in the boot ROM overlay.
pub const BOOT_ROM_SIZE: usize = 0x100;

/// Bytes in the two fixed cartridge areas, and in the image that stands for an
/// absent cartridge.
pub const ROM_BANK_SIZE: usize = 0x4000;

/// Bytes in the flat RAM, one per address.
pub const RAM_SIZE: usize = 0x10000;

/// Bytes that a DMA transfer copies into OAM.
pub const DMA_LENGTH: u16 = 0xA0;

/// The areas of the address space.
#[derive(Clone, Copy, Debug, PartialEq, Eq, Structural)]
pub enum Region {
    /// 0x0000-0x00FF: boot ROM while it is enabled, cartridge ROM afterwards.
    BootRom,
    /// 0x0100-0x3FFF: the fixed cartridge ROM bank.
    RomBank0,
    /// 0x4000-0x7FFF: the switchable cartridge ROM bank, not populated.
    SwitchableRom,
    /// 0x8000-0x9FFF: video RAM.
    VideoRam,
    /// 0xA000-0xBFFF: the switchable external RAM bank, not populated.
    ExternalRam,
    /// 0xC000-0xDFFF: work RAM.
    WorkRam,
    /// 0xE000-0xFDFF: mirror of work RAM.
    Echo,
    /// 0xFE00-0xFE9F: object attribute memory.
    Oam,
    /// 0xFEA0-0xFEFF: not usable.
    Unusable,
    /// 0xFF00-0xFFFF: control registers and high RAM.
    HighRam,
}

/// The region that `address` belongs to.
pub open spec fn region_of(address: u16) -> Region {
    if address <= memory_map::IROX {
        Region::BootRom
    } else if address <= memory_map::ROM9 {
        Region::RomBank0
    } else if address <= memory_map::RB9 {
        Region::SwitchableRom
    } else if address <= memory_map::VR9 {
        Region::VideoRam
    } else if address <= memory_map::SWR9 {
        Region::ExternalRam
    } else if address <= memory_map::WR9 {
        Region::WorkRam
    } else if address <= memory_map::ER9 {
        Region::Echo
    } else if address <= memory_map::OAM9 {
        Region::Oam
    } else if address <= memory_map::URAM {
        Region::Unusable
    } else {
        Region::HighRam
    }
}

/// Why a memory bus could not be built.
#[derive(Clone, Copy, Debug, PartialEq, Eq, Structural)]
pub enum ConfigError {
    /// The boot ROM image has fewer than 256 bytes.
    BootRomTooSmall,
    /// The cartridge image does not fill the fixed ROM bank.
    CartridgeTooSmall,
    /// The cartridge header asks for a memory bank controller.
    UnsupportedCartridge { cartridge_type: u8 },
    /// The three bytes of the stop sequence do not fit in the image that the
    /// address selects.
    StopAddressOutOfRange,
}

/// What the bus holds, as mathematical sequences.
pub struct MemoryView {
    pub boot_rom: Seq<u8>,
    pub cartridge: Seq<u8>,
    pub cartridge_type: u8,
    pub boot_rom_enabled: bool,
    pub ram: Seq<u8>,
}

impl MemoryView {
    /// Every address has a byte behind it.
    pub open spec fn well_formed(self) -> bool {
        &&& self.boot_rom.len() >= BOOT_ROM_SIZE
        &&& self.cartridge.len() >= ROM_BANK_SIZE
        &&& self.ram.len() == RAM_SIZE
    }

    /// The byte that a read of `address` returns.
    pub open spec fn read(self, address: u16) -> u8 {
        match region_of(address) {
            Region::BootRom => if self.boot_rom_enabled {
                self.boot_rom[address as int]
            } else {
                self.cartridge[address as int]
            },
            Region::RomBank0 => self.cartridge[address as int],
            Region::SwitchableRom | Region::ExternalRam | Region::Unusable => 0xFF,
            Region::VideoRam | Region::WorkRam | Region::Oam | Region::HighRam => self.ram[address as int],
            Region::Echo => self.ram[address - memory_map::ECHO_OFFSET],
        }
    }

    /// The RAM after a DMA transfer from page `page`: OAM holds the 160 bytes
    /// that started at `page * 256`, everything else is as before.
    pub open spec fn dma_ram(self, page: u8) -> Seq<u8> {
        Seq::new(
            self.ram.len(),
            |i: int|
                if memory_map::OAM0 <= i < memory_map::OAM0 + DMA_LENGTH {
                    self.ram[page * 256 + (i - memory_map::OAM0)]
                } else {
                    self.ram[i]
                },
        )
    }

    /// The bus after a write of `word` to `address`.
    pub open spec fn write(self, address: u16, word: u8) -> MemoryView {
        match region_of(address) {
            Region::BootRom | Region::RomBank0 | Region::SwitchableRom => self,
            Region::ExternalRam | Region::Unusable => self,
            Region::VideoRam | Region::WorkRam | Region::Oam => MemoryView {
                ram: self.ram.update(address as int, word),
                ..self
            },
            Region::Echo => MemoryView {
                ram: self.ram.update(address - memory_map::ECHO_OFFSET, word),
                ..self
            },
            Region::HighRam => if address == memory_map::DMA {
                MemoryView { ram: self.dma_ram(word), ..self }
            } else if address == memory_map::DMGS && word != 0 {
                MemoryView { ram: self.ram.update(address as int, word), boot_rom_enabled: false, ..self }
            } else {
                MemoryView { ram: self.ram.update(address as int, word), ..self }
            },
        }
    }

    /// Whether a write to `address` stores its byte where a read of `address`
    /// finds it.
    pub open spec fn stores(address: u16) -> bool {
        match region_of(address) {
            Region::VideoRam | Region::WorkRam | Region::Echo | Region::Oam => true,
            Region::HighRam => address != memory_map::DMA,
            _ => false,
        }
    }

    /// The place in the flat RAM that serves `address`, for the addresses that
    /// RAM serves.
    pub open spec fn cell(address: u16) -> int {
        if region_of(address) == Region::Echo {
            address - memory_map::ECHO_OFFSET
        } else {
            address as int
        }
    }
}

/// A write leaves every address with a byte behind it.
pub proof fn lemma_write_keeps_well_formed(memory: MemoryView, address: u16, word: u8)
    requires
        memory.well_formed(),
    ensures
        memory.write(address, word).well_formed(),
{
}

/// A byte written to an address that stores is the byte read back from it.
pub proof fn lemma_read_after_write(memory: MemoryView, address: u16, word: u8)
    requires
        memory.well_formed(),
        MemoryView::stores(address),
    ensures
        memory.write(address, word).read(address) == word,
{
}

/// A write does not show at another address that stores, unless the two
/// addresses are served by the same place in RAM or the write starts a DMA
/// transfer.
pub proof fn lemma_read_after_write_elsewhere(memory: MemoryView, address: u16, word: u8, other: u16)
    requires
        memory.well_formed(),
        MemoryView::stores(other),
        address != memory_map::DMA,
        MemoryView::cell(address) != MemoryView::cell(other),
    ensures
        memory.write(address, word).read(other) == memory.read(other),
{
}

/// The echo area mirrors work RAM: a byte written to a work RAM address is
/// read at the address `ECHO_OFFSET` above it, and a byte written there is read
/// at the work RAM address. The echo area ends at 0xFDFF, so the work RAM
/// addresses that have a mirror are 0xC000 to 0xDDFF.
pub proof fn lemma_echo_mirrors_work_ram(memory: MemoryView, address: u16, word: u8)
    requires
        memory.well_formed(),
        memory_map::WR0 <= address,
        address + memory_map::ECHO_OFFSET <= memory_map::ER9,
    ensures
        region_of(address) == Region::WorkRam,
        region_of((address + memory_map::ECHO_OFFSET) as u16) == Region::Echo,
        memory.write(address, word).read((address + memory_map::ECHO_OFFSET) as u16) == word,
        memory.write((address + memory_map::ECHO_OFFSET) as u16, word).read(address) == word,
        memory.write(address, word) == memory.write((address + memory_map::ECHO_OFFSET) as u16, word),
{
}

/// The echo area and work RAM show the same byte at corresponding addresses,
/// whatever the bus holds.
pub proof fn lemma_echo_reads_work_ram(memory: MemoryView, address: u16)
    requires
        memory_map::WR0 <= address,
        address + memory_map::ECHO_OFFSET <= memory_map::ER9,
    ensures
        memory.read((address + memory_map::ECHO_OFFSET) as u16) == memory.read(address),
{
}

/// Once the boot ROM is off the bus, no write brings it back.
pub proof fn lemma_boot_rom_stays_disabled(memory: MemoryView, address: u16, word: u8)
    requires
        !memory.boot_rom_enabled,
    ensures
        !memory.write(address, word).boot_rom_enabled,
{
}

/// A write changes neither ROM image.
pub proof fn lemma_write_keeps_rom(memory: MemoryView, address: u16, word: u8)
    ensures
        memory.write(address, word).boot_rom == memory.boot_rom,
        memory.write(address, word).cartridge == memory.cartridge,
        memory.write(address, word).cartridge_type == memory.cartridge_type,
{
}

/// `image` with the stop sequence (NOP, STOP, 0x00) laid over the three bytes
/// at `at`.
pub open spec fn with_stop_sequence(image: Seq<u8>, at: int) -> Seq<u8> {
    image.update(at, 0x00).update(at + 2, 0x00).update(at + 1, 0x10)
}

/// What `Memory::new` answers for the given images.
pub open spec fn power_on(boot_rom: Seq<u8>, cartridge: Option<Seq<u8>>, stop_at: Option<u16>) -> Result<
    MemoryView,
    ConfigError,
> {
    let image = match cartridge {
        Some(data) => data,
        None => Seq::new(ROM_BANK_SIZE as nat, |i: int| 0u8),
    };
    if boot_rom.len() < BOOT_ROM_SIZE {
        Err(ConfigError::BootRomTooSmall)
    } else if image.len() < ROM_BANK_SIZE {
        Err(ConfigError::CartridgeTooSmall)
    } else if image[memory_map::RTC as int] != cartridge_types::ROM_ONLY {
        Err(ConfigError::UnsupportedCartridge { cartridge_type: image[memory_map::RTC as int] })
    } else {
        let blank = MemoryView {
            boot_rom,
            cartridge: image,
            cartridge_type: cartridge_types::ROM_ONLY,
            boot_rom_enabled: true,
            ram: Seq::new(RAM_SIZE as nat, |i: int| 0u8),
        };
        match stop_at {
            None => Ok(blank),
            Some(at) => if at < memory_map::IROX {
                if at + 2 < boot_rom.len() {
                    Ok(MemoryView { boot_rom: with_stop_sequence(boot_rom, at as int), ..blank })
                } else {
                    Err(ConfigError::StopAddressOutOfRange)
                }
            } else {
                if at + 2 < image.len() {
                    Ok(MemoryView { cartridge: with_stop_sequence(image, at as int), ..blank })
                } else {
                    Err(ConfigError::StopAddressOutOfRange)
                }
            },
        }
    }
}

/// Cartridge and boot ROM.
#[derive(Debug)]
pub struct ROM {
    boot_rom_data: Vec<u8>,
    data: Vec<u8>,
    rom_cartridge_type: u8,
    boot_rom_enabled: bool,
}

/// The flat RAM, indexed by address.
#[derive(Debug)]
pub struct RAM {
    data: Vec<u8>,
}

/// The memory bus.
#[derive(Debug)]
pub struct Memory {
    rom: ROM,
    ram: RAM,
}

impl View for Memory {
    type V = MemoryView;

    closed spec fn view(&self) -> MemoryView {
        MemoryView {
            boot_rom: self.rom.boot_rom_data@,
            cartridge: self.rom.data@,
            cartridge_type: self.rom.rom_cartridge_type,
            boot_rom_enabled: self.rom.boot_rom_enabled,
            ram: self.ram.data@,
        }
    }
}

impl Memory {
    #[verifier::type_invariant]
    closed spec fn inv(&self) -> bool {
        self@.well_formed()
    }

    /// Builds the bus at power-on: the boot ROM enabled, the RAM zeroed. An
    /// absent cartridge is stood in for by 16 KiB of zeroes. With `stop_at`,
    /// a stop sequence is laid over the image that serves that address: the
    /// boot ROM below 0x00FF, the cartridge from there on.
    pub fn new(boot_rom: Vec<u8>, cartridge: Option<Vec<u8>>, stop_at: Option<u16>) -> (r: Result<
        Memory,
        ConfigError,
    >)
        ensures
            match (r, power_on(
                boot_rom@,
                match cartridge {
                    Some(data) => Some(data@),
                    None => None,
                },
                stop_at,
            )) {
                (Ok(memory), Ok(view)) => memory@ == view && memory@.well_formed(),
                (Err(e), Err(expected)) => e == expected,
                _ => false,
            },
    {
        let mut boot_rom_buffer = boot_rom;
        let mut rom_buffer: Vec<u8> = match cartridge {
            Some(data) => data,
            None => vec![0u8; ROM_BANK_SIZE],
        };
        proof {
            if cartridge is None {
                assert(rom_buffer@ =~= Seq::new(ROM_BANK_SIZE as nat, |i: int| 0u8));
            }
        }
        if boot_rom_buffer.len() < BOOT_ROM_SIZE {
            return Err(ConfigError::BootRomTooSmall);
        }
        if rom_buffer.len() < ROM_BANK_SIZE {
            return Err(ConfigError::CartridgeTooSmall);
        }
        let rom_cartridge_type: u8 = rom_buffer[memory_map::RTC as usize];
        if rom_cartridge_type != cartridge_types::ROM_ONLY {
            return Err(ConfigError::UnsupportedCartridge { cartridge_type: rom_cartridge_type });
        }
        match stop_at {
            None => {},
            Some(at) => {
                let first: usize = at as usize;
                if at < memory_map::IROX {
                    if first + 2 >= boot_rom_buffer.len() {
                        return Err(ConfigError::StopAddressOutOfRange);
                    }
                    boot_rom_buffer[first] = 0x00;
                    boot_rom_buffer[first + 2] = 0x00;
                    boot_rom_buffer[first + 1] = 0x10;
                } else {
                    if first + 2 >= rom_buffer.len() {
                        return Err(ConfigError::StopAddressOutOfRange);
                    }
                    rom_buffer[first] = 0x00;
                    rom_buffer[first + 2] = 0x00;
                    rom_buffer[first + 1] = 0x10;
                }
            },
        }
        let ram_buffer: Vec<u8> = vec![0u8; RAM_SIZE];
        assert(ram_buffer@ =~= Seq::new(RAM_SIZE as nat, |i: int| 0u8));
        let rom = ROM {
            boot_rom_data: boot_rom_buffer,
            data: rom_buffer,
            rom_cartridge_type,
            boot_rom_enabled: true,
        };
        let ram = RAM { data: ram_buffer };
        Ok(Memory { rom, ram })
    }

    /// The region that serves `address`.
    pub fn region(address: u16) -> (r: Region)
        ensures
            r == region_of(address),
    {
        match address {
            memory_map::IROM..=memory_map::IROX => Region::BootRom,
            memory_map::IROZ..=memory_map::ROM9 => Region::RomBank0,
            memory_map::RB0..=memory_map::RB9 => Region::SwitchableRom,
            memory_map::VR0..=memory_map::VR9 => Region::VideoRam,
            memory_map::SWR0..=memory_map::SWR9 => Region::ExternalRam,
            memory_map::WR0..=memory_map::WR9 => Region::WorkRam,
            memory_map::ER0..=memory_map::ER9 => Region::Echo,
            memory_map::OAM0..=memory_map::OAM9 => Region::Oam,
            memory_map::RAM0..=memory_map::URAM => Region::Unusable,
            memory_map::HRAM..=memory_map::RAM9 => Region::HighRam,
        }
    }

    /// Reads the byte at `address`.
    pub fn fetch(&mut self, address: u16) -> (r: u8)
        ensures
            r == old(self)@.read(address),
            final(self)@ == old(self)@,
            final(self)@.well_formed(),
    {
        proof {
            use_type_invariant(&*self);
        }
        match Self::region(address) {
            Region::BootRom => {
                if self.rom.boot_rom_enabled {
                    self.rom.boot_rom_data[address as usize]
                } else {
                    self.rom.data[address as usize]
                }
            },
            Region::RomBank0 => self.rom.data[address as usize],
            Region::SwitchableRom => 0xFF,
            Region::VideoRam => self.ram.data[address as usize],
            Region::ExternalRam => 0xFF,
            Region::WorkRam => self.ram.data[address as usize],
            Region::Echo => self.ram.data[(address - memory_map::ECHO_OFFSET) as usize],
            Region::Oam => self.ram.data[address as usize],
            Region::Unusable => 0xFF,
            Region::HighRam => self.ram.data[address as usize],
        }
    }

    /// Writes `word` to `address`. ROM and the unpopulated areas ignore the
    /// write. A write to the DMA register copies 160 bytes of RAM into OAM
    /// before it returns, and a nonzero write to the boot ROM register takes
    /// the boot ROM off the bus for good.
    pub fn write(&mut self, address: u16, word: u8)
        ensures
            final(self)@ == old(self)@.write(address, word),
            old(self)@.well_formed(),
            final(self)@.well_formed(),
    {
        proof {
            use_type_invariant(&*self);
        }
        match Self::region(address) {
            Region::BootRom => {},
            Region::RomBank0 => {},
            Region::SwitchableRom => {},
            Region::VideoRam => {
                self.ram.data[address as usize] = word;
            },
            Region::ExternalRam => {},
            Region::WorkRam => {
                self.ram.data[address as usize] = word;
            },
            Region::Echo => {
                self.ram.data[(address - memory_map::ECHO_OFFSET) as usize] = word;
            },
            Region::Oam => {
                self.ram.data[address as usize] = word;
            },
            Region::Unusable => {},
            Region::HighRam => {
                if address == memory_map::DMA {
                    self.transfer(word);
                    return ;
                }
                if address == memory_map::DMGS && word != 0x00 {
                    self.rom.boot_rom_enabled = false;
                }
                self.ram.data[address as usize] = word;
            },
        }
    }

    /// Copies the 160 bytes of RAM that start at `page * 256` into OAM.
    fn transfer(&mut self, page: u8)
        ensures
            final(self)@ == (MemoryView { ram: old(self)@.dma_ram(page), ..old(self)@ }),
            final(self)@.well_formed(),
    {
        proof {
            use_type_invariant(&*self);
        }
        let start_address: u16 = (page as u16) * 256;
        let mut i: u16 = 0;
        while i < DMA_LENGTH
            invariant
                i <= DMA_LENGTH,
                start_address == page * 256,
                old(self)@.well_formed(),
                self.ram.data@.len() == RAM_SIZE,
                self.rom == old(self).rom,
                forall|k: int|
                    0 <= k < RAM_SIZE ==> #[trigger] self.ram.data@[k] == if memory_map::OAM0 <= k
                        < memory_map::OAM0 + i {
                        old(self).ram.data@[page * 256 + (k - memory_map::OAM0)]
                    } else {
                        old(self).ram.data@[k]
                    },
            decreases DMA_LENGTH - i,
        {
            let byte: u8 = self.ram.data[(start_address + i) as usize];
            self.ram.data[(memory_map::OAM0 + i) as usize] = byte;
            i += 1;
        }
        assert(self.ram.data@ =~= old(self)@.dma_ram(page));
    }
}

} // verus!
