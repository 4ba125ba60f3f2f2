use gameboy_emulator::hardware::cpu::Fault;
use gameboy_emulator::hardware::memory::ConfigError;
use gameboy_emulator::hardware::system::System;

fn system(boot_rom: Vec<u8>, cartridge: Option<Vec<u8>>, stop_at: Option<u16>) -> System {
    match System::new(boot_rom, cartridge, stop_at) {
        Ok(system) => system,
        Err(e) => panic!("no system: {:?}", e),
    }
}

/// A boot ROM that turns the display on and then loops: LD A,0x91;
/// LD (0xFF40),A; JR -2.
fn display_on() -> Vec<u8> {
    let mut image = vec![0u8; 256];
    image[..6].copy_from_slice(&[0x3E, 0x91, 0xE0, 0x40, 0x18, 0xFE]);
    image
}

#[test]
fn test_boot_without_a_cartridge() {
    let mut system = system(vec![0u8; 256], None, None);
    system.boot();
    assert!(!system.has_stopped());
    assert_eq!(system.video_mode(), 0);
    // the boot ROM and then the empty cartridge are run through without a fault
    let mut cycles = 0;
    for _ in 0..0x4000 {
        match system.cycle() {
            Ok(cost) => cycles += cost,
            Err(fault) => panic!("fault: {:?}", fault),
        }
    }
    assert_eq!(cycles, 0x4000);
    // beyond the cartridge the bus reads 0xFF, which restarts at 0x0038
    for _ in 0..1000 {
        assert!(system.cycle().is_ok());
    }
    assert!(!system.has_stopped());
    let buffer = system.video_buffer();
    assert_eq!(buffer.len(), 160 * 144);
    assert!(buffer.iter().all(|shade| *shade == 0));
}

#[test]
fn test_configuration_errors() {
    assert_eq!(System::new(vec![0u8; 16], None, None).err(), Some(ConfigError::BootRomTooSmall));
    assert_eq!(
        System::new(vec![0u8; 256], Some(vec![0u8; 0x200]), None).err(),
        Some(ConfigError::CartridgeTooSmall)
    );
    let mut image = vec![0u8; 0x8000];
    image[0x0147] = 0x01;
    assert_eq!(
        System::new(vec![0u8; 256], Some(image), None).err(),
        Some(ConfigError::UnsupportedCartridge { cartridge_type: 0x01 })
    );
    assert_eq!(
        System::new(vec![0u8; 256], None, Some(0x4000)).err(),
        Some(ConfigError::StopAddressOutOfRange)
    );
}

#[test]
fn test_stop_sequence_stops_the_system() {
    let mut system = system(vec![0u8; 256], None, Some(0x0004));
    system.boot();
    for _ in 0..5 {
        assert_eq!(system.cycle(), Ok(1));
        assert!(!system.has_stopped());
    }
    assert_eq!(system.cycle(), Ok(1));
    assert!(system.has_stopped());
}

#[test]
fn test_illegal_instruction_is_reported() {
    let mut boot_rom = vec![0u8; 256];
    boot_rom[2] = 0xDD;
    let mut system = system(boot_rom, None, None);
    system.boot();
    assert_eq!(system.cycle(), Ok(1));
    assert_eq!(system.cycle(), Ok(1));
    assert_eq!(system.cycle(), Err(Fault::IllegalOpcode { pc: 0x0002, opcode: 0xDD }));
    // the next instruction is there to be executed
    assert_eq!(system.cycle(), Ok(1));
}

#[test]
fn test_the_cost_of_an_instruction_paces_the_display() {
    let mut system = system(display_on(), None, None);
    system.boot();
    assert_eq!(system.cycle(), Ok(2));
    assert_eq!(system.cycle(), Ok(3));
    // the display is on from here: the first mode is HBLANK, 51 cycles long,
    // of which 3 are spent
    assert_eq!(system.video_mode(), 0);
    for _ in 0..15 {
        assert_eq!(system.cycle(), Ok(3));
        assert_eq!(system.video_mode(), 0);
    }
    assert_eq!(system.cycle(), Ok(3));
    assert_eq!(system.video_mode(), 2);
    // SEARCH_OAM lasts 20 cycles
    for _ in 0..6 {
        assert_eq!(system.cycle(), Ok(3));
        assert_eq!(system.video_mode(), 2);
    }
    assert_eq!(system.cycle(), Ok(3));
    assert_eq!(system.video_mode(), 3);
}

#[test]
fn test_interrupts_between_two_ticks() {
    // LD A,0x04; LD (0xFFFF),A; LD A,0x05; LD (0xFF07),A; JR -2
    let mut boot_rom = vec![0u8; 256];
    boot_rom[..10].copy_from_slice(&[0x3E, 0x04, 0xE0, 0xFF, 0x3E, 0x05, 0xE0, 0x07, 0x18, 0xFE]);
    // the handler of the timer interrupt stops the system
    boot_rom[0x50] = 0x10;
    let mut system = system(boot_rom, None, None);
    system.boot();
    for _ in 0..4 {
        assert!(system.cycle().is_ok());
        system.interrupt();
    }
    // TIMA steps every 16 cycles from 0 and overflows after 256 steps
    let mut ticks = 0;
    while !system.has_stopped() {
        assert!(system.cycle().is_ok());
        system.interrupt();
        ticks += 1;
        assert!(ticks < 2000);
    }
    assert!(ticks > 1300);
}
