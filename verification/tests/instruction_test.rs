use gameboy_emulator::hardware::cpu::{Fault, CPU};
use gameboy_emulator::hardware::instruction_set;
use gameboy_emulator::hardware::instruction_subset;
use gameboy_emulator::hardware::memory::Memory;

/// A bus whose cartridge starts with `program` at 0x0100, with the boot ROM
/// off.
fn bus(program: &[u8]) -> Memory {
    let mut image = vec![0u8; 0x8000];
    image[0x0100..0x0100 + program.len()].copy_from_slice(program);
    let mut memory = match Memory::new(vec![0u8; 256], Some(image), None) {
        Ok(memory) => memory,
        Err(e) => panic!("no memory: {:?}", e),
    };
    memory.write(0xFF50, 0x01);
    memory
}

/// A processor about to run the program of `bus`, with its stack in high RAM.
fn processor() -> CPU {
    let mut cpu = CPU::new();
    cpu.registers.program_counter = 0x0100;
    cpu.registers.stack_pointer = 0xFFFE;
    cpu
}

fn run(cpu: &mut CPU, memory: &mut Memory) -> usize {
    match cpu.cycle(memory) {
        Ok(cycles) => cycles,
        Err(fault) => panic!("fault: {:?}", fault),
    }
}

#[test]
fn test_nop() {
    let mut memory = bus(&[0x00]);
    let mut cpu = processor();
    assert_eq!(cpu.cycle(&mut memory), Ok(1));
    assert_eq!(cpu.registers.program_counter, 0x0101);
    assert_eq!(cpu.registers.stack_pointer, 0xFFFE);
    assert_eq!(cpu.registers.r_a, 0x00);
    assert_eq!(cpu.registers.r_f, 0x00);
}

#[test]
fn test_jp() {
    let mut memory = bus(&[0xC3, 0x34, 0x12]);
    let mut cpu = processor();
    assert_eq!(cpu.cycle(&mut memory), Ok(4));
    assert_eq!(cpu.registers.program_counter, 0x1234);
}

#[test]
fn test_execute_takes_its_operands_at_the_program_counter() {
    let mut memory = bus(&[0x34, 0x12]);
    let mut cpu = processor();
    assert_eq!(instruction_set::execute(&mut cpu, &mut memory, 0xC3), Ok(4));
    assert_eq!(cpu.registers.program_counter, 0x1234);
}

#[test]
fn test_daa_after_an_addition_with_half_carry() {
    let mut memory = bus(&[0x27]);
    let mut cpu = processor();
    cpu.registers.r_a = 0x45;
    cpu.registers.r_f = 0x20;
    assert_eq!(cpu.cycle(&mut memory), Ok(1));
    assert_eq!(cpu.registers.r_a, 0x4B);
    assert_eq!(cpu.registers.r_f, 0x00);
}

#[test]
fn test_daa() {
    // (A, F) before and after
    let cases: [(u8, u8, u8, u8); 8] = [
        // 0x45 + 0x38 = 0x7D, to be read as 83
        (0x7D, 0x00, 0x83, 0x00),
        // 0x83 - 0x38 = 0x4B with a half borrow, to be read as 45
        (0x4B, 0x60, 0x45, 0x40),
        // 0x99 + 0x01 = 0x9A, to be read as 00 with a carry
        (0x9A, 0x00, 0x00, 0x90),
        // a carry alone corrects the high digit
        (0x12, 0x10, 0x72, 0x10),
        // both digits
        (0xAB, 0x00, 0x11, 0x10),
        // after a subtraction the digits themselves do not matter
        (0xAB, 0x40, 0xAB, 0x40),
        (0x00, 0x70, 0x9A, 0x50),
        (0x00, 0x00, 0x00, 0x80),
    ];
    for (a, f, a_after, f_after) in cases {
        let mut memory = bus(&[0x27]);
        let mut cpu = processor();
        cpu.registers.r_a = a;
        cpu.registers.r_f = f;
        assert_eq!(cpu.cycle(&mut memory), Ok(1));
        assert_eq!((cpu.registers.r_a, cpu.registers.r_f), (a_after, f_after), "DAA of {:#04X} with F {:#04X}", a, f);
    }
}

#[test]
fn test_push_then_pop_gives_the_pair_back() {
    // PUSH rr; POP rr' for every two pairs
    let pushes: [u8; 4] = [0xC5, 0xD5, 0xE5, 0xF5];
    let pops: [u8; 4] = [0xC1, 0xD1, 0xE1, 0xF1];
    for (source, push) in pushes.iter().enumerate() {
        for (target, pop) in pops.iter().enumerate() {
            let mut memory = bus(&[*push, *pop]);
            let mut cpu = processor();
            cpu.registers.r_a = 0x12;
            cpu.registers.r_f = 0xB0;
            cpu.registers.r_b = 0x34;
            cpu.registers.r_c = 0x50;
            cpu.registers.r_d = 0x78;
            cpu.registers.r_e = 0x90;
            cpu.registers.r_h = 0xBC;
            cpu.registers.r_l = 0xD0;
            let pairs = [(0x34u8, 0x50u8), (0x78, 0x90), (0xBC, 0xD0), (0x12, 0xB0)];
            assert_eq!(run(&mut cpu, &mut memory), 4);
            assert_eq!(cpu.registers.stack_pointer, 0xFFFC);
            // the high byte is at the higher address
            assert_eq!(memory.fetch(0xFFFD), pairs[source].0);
            assert_eq!(memory.fetch(0xFFFC), pairs[source].1);
            assert_eq!(run(&mut cpu, &mut memory), 3);
            assert_eq!(cpu.registers.stack_pointer, 0xFFFE);
            let popped = match target {
                0 => (cpu.registers.r_b, cpu.registers.r_c),
                1 => (cpu.registers.r_d, cpu.registers.r_e),
                2 => (cpu.registers.r_h, cpu.registers.r_l),
                _ => (cpu.registers.r_a, cpu.registers.r_f),
            };
            assert_eq!(popped, pairs[source]);
        }
    }
}

#[test]
fn test_pop_af_clears_the_low_nibble_of_f() {
    // PUSH BC; POP AF
    let mut memory = bus(&[0xC5, 0xF1]);
    let mut cpu = processor();
    cpu.registers.r_b = 0x12;
    cpu.registers.r_c = 0xFF;
    run(&mut cpu, &mut memory);
    run(&mut cpu, &mut memory);
    assert_eq!(cpu.registers.r_a, 0x12);
    assert_eq!(cpu.registers.r_f, 0xF0);
}

#[test]
fn test_push_into_rom_is_lost() {
    // PUSH BC; POP DE with the stack in ROM
    let mut memory = bus(&[0xC5, 0xD1]);
    let mut cpu = processor();
    cpu.registers.stack_pointer = 0x0100;
    cpu.registers.r_b = 0x12;
    cpu.registers.r_c = 0x34;
    run(&mut cpu, &mut memory);
    run(&mut cpu, &mut memory);
    assert_eq!(cpu.registers.stack_pointer, 0x0100);
    assert_eq!((cpu.registers.r_d, cpu.registers.r_e), (0x00, 0x00));
}

#[test]
fn test_ld_pair_literal() {
    let opcodes: [u8; 4] = [0x01, 0x11, 0x21, 0x31];
    for (index, opcode) in opcodes.iter().enumerate() {
        for literal in [0x0000u16, 0x1234, 0x8001, 0xFF00, 0x00FF, 0xFFFF] {
            let mut memory = bus(&[*opcode, literal as u8, (literal >> 8) as u8]);
            let mut cpu = processor();
            assert_eq!(run(&mut cpu, &mut memory), 3);
            assert_eq!(cpu.registers.program_counter, 0x0103);
            let pair = match index {
                0 => ((cpu.registers.r_b as u16) << 8) | cpu.registers.r_c as u16,
                1 => ((cpu.registers.r_d as u16) << 8) | cpu.registers.r_e as u16,
                2 => ((cpu.registers.r_h as u16) << 8) | cpu.registers.r_l as u16,
                _ => cpu.registers.stack_pointer,
            };
            assert_eq!(pair, literal);
        }
    }
}

#[test]
fn test_accumulator_rotates_always_clear_zero() {
    // RLCA, RRCA, RLA, RRA on a zero accumulator
    for opcode in [0x07u8, 0x0F, 0x17, 0x1F] {
        let mut memory = bus(&[opcode]);
        let mut cpu = processor();
        cpu.registers.r_a = 0x00;
        cpu.registers.r_f = 0xE0;
        assert_eq!(run(&mut cpu, &mut memory), 1);
        assert_eq!(cpu.registers.r_a, 0x00);
        assert_eq!(cpu.registers.r_f, 0x00);
    }
    // RLA of 0x80 leaves zero in A and sets the carry alone
    let mut memory = bus(&[0x17]);
    let mut cpu = processor();
    cpu.registers.r_a = 0x80;
    run(&mut cpu, &mut memory);
    assert_eq!((cpu.registers.r_a, cpu.registers.r_f), (0x00, 0x10));
    // RLCA of 0x85
    let mut memory = bus(&[0x07]);
    let mut cpu = processor();
    cpu.registers.r_a = 0x85;
    run(&mut cpu, &mut memory);
    assert_eq!((cpu.registers.r_a, cpu.registers.r_f), (0x0B, 0x10));
    // RRA of 0x81 with the carry set
    let mut memory = bus(&[0x1F]);
    let mut cpu = processor();
    cpu.registers.r_a = 0x81;
    cpu.registers.r_f = 0x10;
    run(&mut cpu, &mut memory);
    assert_eq!((cpu.registers.r_a, cpu.registers.r_f), (0xC0, 0x10));
    // RRCA of 0x3B
    let mut memory = bus(&[0x0F]);
    let mut cpu = processor();
    cpu.registers.r_a = 0x3B;
    run(&mut cpu, &mut memory);
    assert_eq!((cpu.registers.r_a, cpu.registers.r_f), (0x9D, 0x10));
}

#[test]
fn test_prefixed_rotate_sets_zero() {
    // RLC B on zero, against RLCA
    let mut memory = bus(&[0xCB, 0x00]);
    let mut cpu = processor();
    assert_eq!(run(&mut cpu, &mut memory), 2);
    assert_eq!(cpu.registers.program_counter, 0x0102);
    assert_eq!(cpu.registers.r_f, 0x80);
}

#[test]
fn test_illegal_opcodes() {
    for opcode in [0xD3u8, 0xDB, 0xDD, 0xE3, 0xE4, 0xEB, 0xEC, 0xED, 0xF4, 0xFC, 0xFD] {
        let mut memory = bus(&[0x00, opcode]);
        let mut cpu = processor();
        cpu.registers.r_a = 0x12;
        assert_eq!(cpu.cycle(&mut memory), Ok(1));
        assert_eq!(cpu.cycle(&mut memory), Err(Fault::IllegalOpcode { pc: 0x0101, opcode }));
        // the registers are untouched, and the program counter is past the opcode
        assert_eq!(cpu.registers.r_a, 0x12);
        assert_eq!(cpu.registers.stack_pointer, 0xFFFE);
        assert_eq!(cpu.registers.program_counter, 0x0102);
    }
}

#[test]
fn test_every_other_opcode_costs_one_to_six_cycles() {
    let mut legal = 0;
    for opcode in 0..=255u8 {
        let mut memory = bus(&[opcode, 0x00, 0xC0]);
        let mut cpu = processor();
        if let Ok(cycles) = cpu.cycle(&mut memory) {
            assert!(1 <= cycles && cycles <= 6, "{:#04X} costs {}", opcode, cycles);
            assert_eq!(cpu.registers.r_f & 0x0F, 0);
            legal += 1;
        }
    }
    assert_eq!(legal, 245);
}

#[test]
fn test_every_prefixed_opcode_costs_two_or_four_cycles() {
    for opcode in 0..=255u8 {
        let mut memory = bus(&[]);
        let mut cpu = processor();
        cpu.registers.r_h = 0xC0;
        let cycles = instruction_subset::execute(&mut cpu, &mut memory, opcode);
        assert_eq!(cycles, if opcode & 0x07 == 0x06 { 4 } else { 2 });
        assert_eq!(cpu.registers.r_f & 0x0F, 0);
    }
}

#[test]
fn test_jr() {
    // JR +5
    let mut memory = bus(&[0x18, 0x05]);
    let mut cpu = processor();
    assert_eq!(run(&mut cpu, &mut memory), 3);
    assert_eq!(cpu.registers.program_counter, 0x0107);
    // JR -2 jumps onto itself
    let mut memory = bus(&[0x18, 0xFE]);
    let mut cpu = processor();
    assert_eq!(run(&mut cpu, &mut memory), 3);
    assert_eq!(cpu.registers.program_counter, 0x0100);
    // JR -128
    let mut memory = bus(&[0x18, 0x80]);
    let mut cpu = processor();
    assert_eq!(run(&mut cpu, &mut memory), 3);
    assert_eq!(cpu.registers.program_counter, 0x0082);
}

#[test]
fn test_conditional_jr_costs_more_when_taken() {
    // (opcode, F that takes the jump, F that does not)
    let cases: [(u8, u8, u8); 4] = [(0x20, 0x00, 0x80), (0x28, 0x80, 0x00), (0x30, 0x00, 0x10), (0x38, 0x10, 0x00)];
    for (opcode, taken, skipped) in cases {
        let mut memory = bus(&[opcode, 0x10]);
        let mut cpu = processor();
        cpu.registers.r_f = taken;
        assert_eq!(run(&mut cpu, &mut memory), 3);
        assert_eq!(cpu.registers.program_counter, 0x0112);
        let mut memory = bus(&[opcode, 0x10]);
        let mut cpu = processor();
        cpu.registers.r_f = skipped;
        assert_eq!(run(&mut cpu, &mut memory), 2);
        assert_eq!(cpu.registers.program_counter, 0x0102);
    }
}

#[test]
fn test_conditional_jp_call_and_ret() {
    // (condition index, F that meets it, F that does not)
    let cases: [(u8, u8, u8); 4] = [(0, 0x00, 0x80), (1, 0x80, 0x00), (2, 0x00, 0x10), (3, 0x10, 0x00)];
    for (index, met, unmet) in cases {
        // JP cc,0x2000
        let mut memory = bus(&[0xC2 + 8 * index, 0x00, 0x20]);
        let mut cpu = processor();
        cpu.registers.r_f = met;
        assert_eq!(run(&mut cpu, &mut memory), 4);
        assert_eq!(cpu.registers.program_counter, 0x2000);
        let mut cpu = processor();
        cpu.registers.r_f = unmet;
        assert_eq!(run(&mut cpu, &mut memory), 3);
        assert_eq!(cpu.registers.program_counter, 0x0103);

        // CALL cc,0x2000
        let mut memory = bus(&[0xC4 + 8 * index, 0x00, 0x20]);
        let mut cpu = processor();
        cpu.registers.r_f = met;
        assert_eq!(run(&mut cpu, &mut memory), 6);
        assert_eq!(cpu.registers.program_counter, 0x2000);
        assert_eq!(cpu.registers.stack_pointer, 0xFFFC);
        assert_eq!(memory.fetch(0xFFFD), 0x01);
        assert_eq!(memory.fetch(0xFFFC), 0x03);
        let mut cpu = processor();
        cpu.registers.r_f = unmet;
        assert_eq!(run(&mut cpu, &mut memory), 3);
        assert_eq!(cpu.registers.program_counter, 0x0103);
        assert_eq!(cpu.registers.stack_pointer, 0xFFFE);

        // RET cc
        let mut memory = bus(&[0xC0 + 8 * index]);
        memory.write(0xFFFC, 0x34);
        memory.write(0xFFFD, 0x12);
        let mut cpu = processor();
        cpu.registers.stack_pointer = 0xFFFC;
        cpu.registers.r_f = met;
        assert_eq!(run(&mut cpu, &mut memory), 5);
        assert_eq!(cpu.registers.program_counter, 0x1234);
        assert_eq!(cpu.registers.stack_pointer, 0xFFFE);
        let mut cpu = processor();
        cpu.registers.stack_pointer = 0xFFFC;
        cpu.registers.r_f = unmet;
        assert_eq!(run(&mut cpu, &mut memory), 2);
        assert_eq!(cpu.registers.program_counter, 0x0101);
        assert_eq!(cpu.registers.stack_pointer, 0xFFFC);
    }
}

#[test]
fn test_call_then_ret() {
    // CALL 0x0104; NOP; RET
    let mut memory = bus(&[0xCD, 0x04, 0x01, 0x00, 0xC9]);
    let mut cpu = processor();
    assert_eq!(run(&mut cpu, &mut memory), 6);
    assert_eq!(cpu.registers.program_counter, 0x0104);
    assert_eq!(run(&mut cpu, &mut memory), 4);
    assert_eq!(cpu.registers.program_counter, 0x0103);
    assert_eq!(cpu.registers.stack_pointer, 0xFFFE);
}

#[test]
fn test_reti_enables_interrupts() {
    let mut memory = bus(&[0xD9]);
    memory.write(0xFFFC, 0x34);
    memory.write(0xFFFD, 0x12);
    let mut cpu = processor();
    cpu.registers.stack_pointer = 0xFFFC;
    cpu.interruption_enabled = false;
    assert_eq!(run(&mut cpu, &mut memory), 4);
    assert_eq!(cpu.registers.program_counter, 0x1234);
    assert!(cpu.interruption_enabled);
}

#[test]
fn test_rst() {
    for row in 0..8u8 {
        let mut memory = bus(&[0xC7 + 8 * row]);
        let mut cpu = processor();
        assert_eq!(run(&mut cpu, &mut memory), 4);
        assert_eq!(cpu.registers.program_counter, 8 * row as u16);
        assert_eq!(cpu.registers.stack_pointer, 0xFFFC);
        assert_eq!(memory.fetch(0xFFFD), 0x01);
        assert_eq!(memory.fetch(0xFFFC), 0x01);
    }
}

#[test]
fn test_stop_halt_di_ei() {
    // STOP takes a byte after it
    let mut memory = bus(&[0x10, 0x00]);
    let mut cpu = processor();
    assert_eq!(run(&mut cpu, &mut memory), 1);
    assert!(cpu.stopped);
    assert_eq!(cpu.registers.program_counter, 0x0102);

    let mut memory = bus(&[0x76]);
    let mut cpu = processor();
    assert_eq!(run(&mut cpu, &mut memory), 1);
    assert!(cpu.halted);
    assert!(!cpu.stopped);
    assert_eq!(cpu.registers.program_counter, 0x0101);

    // DI; EI
    let mut memory = bus(&[0xF3, 0xFB]);
    let mut cpu = processor();
    assert_eq!(run(&mut cpu, &mut memory), 1);
    assert!(!cpu.interruption_enabled);
    assert_eq!(run(&mut cpu, &mut memory), 1);
    assert!(cpu.interruption_enabled);
}

#[test]
fn test_register_loads() {
    // LD B,0x12; LD C,B; LD H,0xC0; LD L,0x10; LD (HL),C; LD A,(HL)
    let mut memory = bus(&[0x06, 0x12, 0x48, 0x26, 0xC0, 0x2E, 0x10, 0x71, 0x7E]);
    let mut cpu = processor();
    assert_eq!(run(&mut cpu, &mut memory), 2);
    assert_eq!(run(&mut cpu, &mut memory), 1);
    assert_eq!(cpu.registers.r_c, 0x12);
    assert_eq!(run(&mut cpu, &mut memory), 2);
    assert_eq!(run(&mut cpu, &mut memory), 2);
    assert_eq!(run(&mut cpu, &mut memory), 2);
    assert_eq!(memory.fetch(0xC010), 0x12);
    assert_eq!(run(&mut cpu, &mut memory), 2);
    assert_eq!(cpu.registers.r_a, 0x12);
    assert_eq!(cpu.registers.r_f, 0x00);
}

#[test]
fn test_loads_through_hl_that_move_hl() {
    // LD (HL+),A; LD (HL-),A; LD A,(HL+); LD A,(HL-)
    let mut memory = bus(&[0x22, 0x32, 0x2A, 0x3A]);
    let mut cpu = processor();
    cpu.registers.r_a = 0x5A;
    cpu.registers.r_h = 0xC0;
    cpu.registers.r_l = 0xFF;
    assert_eq!(run(&mut cpu, &mut memory), 2);
    assert_eq!(memory.fetch(0xC0FF), 0x5A);
    assert_eq!((cpu.registers.r_h, cpu.registers.r_l), (0xC1, 0x00));
    cpu.registers.r_a = 0xA5;
    assert_eq!(run(&mut cpu, &mut memory), 2);
    assert_eq!(memory.fetch(0xC100), 0xA5);
    assert_eq!((cpu.registers.r_h, cpu.registers.r_l), (0xC0, 0xFF));
    assert_eq!(run(&mut cpu, &mut memory), 2);
    assert_eq!(cpu.registers.r_a, 0x5A);
    assert_eq!((cpu.registers.r_h, cpu.registers.r_l), (0xC1, 0x00));
    assert_eq!(run(&mut cpu, &mut memory), 2);
    assert_eq!(cpu.registers.r_a, 0xA5);
    assert_eq!((cpu.registers.r_h, cpu.registers.r_l), (0xC0, 0xFF));
}

#[test]
fn test_loads_of_the_high_page() {
    // LD (0xFF80),A; LD A,(0xFF80); LD (C),A; LD A,(C)
    let mut memory = bus(&[0xE0, 0x80, 0xF0, 0x80, 0xE2, 0xF2]);
    let mut cpu = processor();
    cpu.registers.r_a = 0x5A;
    assert_eq!(run(&mut cpu, &mut memory), 3);
    assert_eq!(memory.fetch(0xFF80), 0x5A);
    cpu.registers.r_a = 0x00;
    assert_eq!(run(&mut cpu, &mut memory), 3);
    assert_eq!(cpu.registers.r_a, 0x5A);
    cpu.registers.r_c = 0x81;
    cpu.registers.r_a = 0xA5;
    assert_eq!(run(&mut cpu, &mut memory), 2);
    assert_eq!(memory.fetch(0xFF81), 0xA5);
    cpu.registers.r_a = 0x00;
    assert_eq!(run(&mut cpu, &mut memory), 2);
    assert_eq!(cpu.registers.r_a, 0xA5);
}

#[test]
fn test_ld_a16_sp_is_little_endian() {
    // LD (0xC000),SP
    let mut memory = bus(&[0x08, 0x00, 0xC0]);
    let mut cpu = processor();
    cpu.registers.stack_pointer = 0xFFF8;
    assert_eq!(run(&mut cpu, &mut memory), 5);
    assert_eq!(memory.fetch(0xC000), 0xF8);
    assert_eq!(memory.fetch(0xC001), 0xFF);
}

#[test]
fn test_sixteen_bit_arithmetic() {
    // ADD HL,BC: 0x8A23 + 0x0605 = 0x9028 with a carry out of bit 11
    let mut memory = bus(&[0x09]);
    let mut cpu = processor();
    cpu.registers.r_h = 0x8A;
    cpu.registers.r_l = 0x23;
    cpu.registers.r_b = 0x06;
    cpu.registers.r_c = 0x05;
    cpu.registers.r_f = 0xC0;
    assert_eq!(run(&mut cpu, &mut memory), 2);
    assert_eq!((cpu.registers.r_h, cpu.registers.r_l), (0x90, 0x28));
    // Z stays, N is cleared
    assert_eq!(cpu.registers.r_f, 0xA0);

    // ADD HL,HL: 0x8A23 + 0x8A23 = 0x11446 with both carries
    let mut memory = bus(&[0x29]);
    let mut cpu = processor();
    cpu.registers.r_h = 0x8A;
    cpu.registers.r_l = 0x23;
    assert_eq!(run(&mut cpu, &mut memory), 2);
    assert_eq!((cpu.registers.r_h, cpu.registers.r_l), (0x14, 0x46));
    assert_eq!(cpu.registers.r_f, 0x30);

    // INC DE and DEC BC wrap around and leave the flags alone
    let mut memory = bus(&[0x13, 0x0B]);
    let mut cpu = processor();
    cpu.registers.r_d = 0xFF;
    cpu.registers.r_e = 0xFF;
    cpu.registers.r_f = 0xF0;
    assert_eq!(run(&mut cpu, &mut memory), 2);
    assert_eq!((cpu.registers.r_d, cpu.registers.r_e), (0x00, 0x00));
    assert_eq!(run(&mut cpu, &mut memory), 2);
    assert_eq!((cpu.registers.r_b, cpu.registers.r_c), (0xFF, 0xFF));
    assert_eq!(cpu.registers.r_f, 0xF0);
}

#[test]
fn test_stack_pointer_with_offset() {
    // ADD SP,+2 at 0xFFF8
    let mut memory = bus(&[0xE8, 0x02]);
    let mut cpu = processor();
    cpu.registers.stack_pointer = 0xFFF8;
    cpu.registers.r_f = 0xC0;
    assert_eq!(run(&mut cpu, &mut memory), 4);
    assert_eq!(cpu.registers.stack_pointer, 0xFFFA);
    assert_eq!(cpu.registers.r_f, 0x00);

    // LD HL,SP+2 at 0xFFF8
    let mut memory = bus(&[0xF8, 0x02]);
    let mut cpu = processor();
    cpu.registers.stack_pointer = 0xFFF8;
    assert_eq!(run(&mut cpu, &mut memory), 3);
    assert_eq!((cpu.registers.r_h, cpu.registers.r_l), (0xFF, 0xFA));
    assert_eq!(cpu.registers.stack_pointer, 0xFFF8);
    assert_eq!(cpu.registers.r_f, 0x00);

    // ADD SP,-1 at 0x0001: both carries out of the low byte
    let mut memory = bus(&[0xE8, 0xFF]);
    let mut cpu = processor();
    cpu.registers.stack_pointer = 0x0001;
    assert_eq!(run(&mut cpu, &mut memory), 4);
    assert_eq!(cpu.registers.stack_pointer, 0x0000);
    assert_eq!(cpu.registers.r_f, 0x30);

    // ADD SP,+1 at 0x00FF: the carries come from the low byte alone
    let mut memory = bus(&[0xE8, 0x01]);
    let mut cpu = processor();
    cpu.registers.stack_pointer = 0x00FF;
    assert_eq!(run(&mut cpu, &mut memory), 4);
    assert_eq!(cpu.registers.stack_pointer, 0x0100);
    assert_eq!(cpu.registers.r_f, 0x30);
}

#[test]
fn test_accumulator_instructions() {
    // ADD A,B costs two cycles
    let mut memory = bus(&[0x80]);
    let mut cpu = processor();
    cpu.registers.r_a = 0x3A;
    cpu.registers.r_b = 0xC6;
    assert_eq!(run(&mut cpu, &mut memory), 2);
    assert_eq!((cpu.registers.r_a, cpu.registers.r_f), (0x00, 0xB0));

    // SUB (HL)
    let mut memory = bus(&[0x96]);
    memory.write(0xC000, 0x40);
    let mut cpu = processor();
    cpu.registers.r_a = 0x3E;
    cpu.registers.r_h = 0xC0;
    assert_eq!(run(&mut cpu, &mut memory), 2);
    assert_eq!((cpu.registers.r_a, cpu.registers.r_f), (0xFE, 0x50));

    // XOR A clears the accumulator
    let mut memory = bus(&[0xAF]);
    let mut cpu = processor();
    cpu.registers.r_a = 0x5A;
    cpu.registers.r_f = 0x70;
    assert_eq!(run(&mut cpu, &mut memory), 2);
    assert_eq!((cpu.registers.r_a, cpu.registers.r_f), (0x00, 0x80));

    // CP 0x3C
    let mut memory = bus(&[0xFE, 0x3C]);
    let mut cpu = processor();
    cpu.registers.r_a = 0x3C;
    assert_eq!(run(&mut cpu, &mut memory), 2);
    assert_eq!((cpu.registers.r_a, cpu.registers.r_f), (0x3C, 0xC0));
    assert_eq!(cpu.registers.program_counter, 0x0102);

    // ADC A,0x0F with the carry set
    let mut memory = bus(&[0xCE, 0x0F]);
    let mut cpu = processor();
    cpu.registers.r_a = 0xE1;
    cpu.registers.r_f = 0x10;
    assert_eq!(run(&mut cpu, &mut memory), 2);
    assert_eq!((cpu.registers.r_a, cpu.registers.r_f), (0xF1, 0x20));
}

#[test]
fn test_inc_and_dec() {
    // INC (HL) costs three cycles and keeps the carry
    let mut memory = bus(&[0x34, 0x35, 0x35]);
    memory.write(0xC000, 0xFF);
    let mut cpu = processor();
    cpu.registers.r_h = 0xC0;
    cpu.registers.r_f = 0x10;
    assert_eq!(run(&mut cpu, &mut memory), 3);
    assert_eq!(memory.fetch(0xC000), 0x00);
    assert_eq!(cpu.registers.r_f, 0xB0);
    assert_eq!(run(&mut cpu, &mut memory), 3);
    assert_eq!(memory.fetch(0xC000), 0xFF);
    assert_eq!(cpu.registers.r_f, 0x70);
    assert_eq!(run(&mut cpu, &mut memory), 3);
    assert_eq!(memory.fetch(0xC000), 0xFE);
    assert_eq!(cpu.registers.r_f, 0x50);

    // INC L and DEC H
    let mut memory = bus(&[0x2C, 0x25]);
    let mut cpu = processor();
    cpu.registers.r_l = 0x0F;
    cpu.registers.r_h = 0x01;
    assert_eq!(run(&mut cpu, &mut memory), 1);
    assert_eq!((cpu.registers.r_l, cpu.registers.r_f), (0x10, 0x20));
    assert_eq!(run(&mut cpu, &mut memory), 1);
    assert_eq!((cpu.registers.r_h, cpu.registers.r_f), (0x00, 0xC0));
}

#[test]
fn test_cpl_scf_ccf() {
    let mut memory = bus(&[0x2F, 0x37, 0x3F, 0x3F]);
    let mut cpu = processor();
    cpu.registers.r_a = 0x35;
    cpu.registers.r_f = 0x90;
    assert_eq!(run(&mut cpu, &mut memory), 1);
    assert_eq!((cpu.registers.r_a, cpu.registers.r_f), (0xCA, 0xF0));
    assert_eq!(run(&mut cpu, &mut memory), 1);
    assert_eq!(cpu.registers.r_f, 0x90);
    assert_eq!(run(&mut cpu, &mut memory), 1);
    assert_eq!(cpu.registers.r_f, 0x80);
    assert_eq!(run(&mut cpu, &mut memory), 1);
    assert_eq!(cpu.registers.r_f, 0x90);
}

#[test]
fn test_prefixed_instructions() {
    // SWAP A
    let mut memory = bus(&[0xCB, 0x37]);
    let mut cpu = processor();
    cpu.registers.r_a = 0xF1;
    cpu.registers.r_f = 0x70;
    assert_eq!(run(&mut cpu, &mut memory), 2);
    assert_eq!((cpu.registers.r_a, cpu.registers.r_f), (0x1F, 0x00));

    // BIT 7,H keeps the carry and sets the half carry
    let mut memory = bus(&[0xCB, 0x7C, 0xCB, 0x7C]);
    let mut cpu = processor();
    cpu.registers.r_h = 0x80;
    cpu.registers.r_f = 0x10;
    assert_eq!(run(&mut cpu, &mut memory), 2);
    assert_eq!(cpu.registers.r_f, 0x30);
    cpu.registers.r_h = 0x7F;
    assert_eq!(run(&mut cpu, &mut memory), 2);
    assert_eq!(cpu.registers.r_f, 0xB0);

    // SET 3,(HL); RES 7,(HL); BIT 3,(HL); SRL (HL)
    let mut memory = bus(&[0xCB, 0xDE, 0xCB, 0xBE, 0xCB, 0x5E, 0xCB, 0x3E]);
    memory.write(0xC000, 0x81);
    let mut cpu = processor();
    cpu.registers.r_h = 0xC0;
    assert_eq!(run(&mut cpu, &mut memory), 4);
    assert_eq!(memory.fetch(0xC000), 0x89);
    assert_eq!(run(&mut cpu, &mut memory), 4);
    assert_eq!(memory.fetch(0xC000), 0x09);
    assert_eq!(cpu.registers.r_f, 0x00);
    assert_eq!(run(&mut cpu, &mut memory), 4);
    assert_eq!(cpu.registers.r_f, 0x20);
    assert_eq!(run(&mut cpu, &mut memory), 4);
    assert_eq!(memory.fetch(0xC000), 0x04);
    assert_eq!(cpu.registers.r_f, 0x10);

    // RL C through the carry; SRA D keeps the sign; SLA E
    let mut memory = bus(&[0xCB, 0x11, 0xCB, 0x2A, 0xCB, 0x23]);
    let mut cpu = processor();
    cpu.registers.r_c = 0x80;
    cpu.registers.r_d = 0x8A;
    cpu.registers.r_e = 0xFF;
    assert_eq!(run(&mut cpu, &mut memory), 2);
    assert_eq!((cpu.registers.r_c, cpu.registers.r_f), (0x00, 0x90));
    assert_eq!(run(&mut cpu, &mut memory), 2);
    assert_eq!((cpu.registers.r_d, cpu.registers.r_f), (0xC5, 0x00));
    assert_eq!(run(&mut cpu, &mut memory), 2);
    assert_eq!((cpu.registers.r_e, cpu.registers.r_f), (0xFE, 0x10));
}

#[test]
fn test_boot_and_boot_expected() {
    let mut cpu = CPU::new();
    assert_eq!(cpu.registers.program_counter, 0x0000);
    assert_eq!(cpu.registers.stack_pointer, 0x0000);
    assert!(cpu.interruption_enabled);
    assert!(!cpu.stopped && !cpu.halted && !cpu.debug_mode);
    cpu.registers.r_a = 0x12;
    cpu.registers.program_counter = 0x1234;
    cpu.boot();
    assert_eq!(cpu.registers.r_a, 0x00);
    assert_eq!(cpu.registers.program_counter, 0x0000);
    assert_eq!(cpu.registers.stack_pointer, 0xFFFF);
    cpu.boot_expected();
    assert_eq!((cpu.registers.r_a, cpu.registers.r_f), (0x01, 0xB0));
    assert_eq!((cpu.registers.r_b, cpu.registers.r_c), (0x00, 0x13));
    assert_eq!((cpu.registers.r_d, cpu.registers.r_e), (0x00, 0xD8));
    assert_eq!((cpu.registers.r_h, cpu.registers.r_l), (0x01, 0x4D));
    assert_eq!(cpu.registers.stack_pointer, 0xFFFE);
    assert_eq!(cpu.registers.program_counter, 0x0000);
}

#[test]
fn test_bus_accesses_of_the_processor() {
    let mut memory = bus(&[0x12, 0x34]);
    let mut cpu = processor();
    assert_eq!(cpu.fetch_operand(&mut memory), 0x12);
    assert_eq!(cpu.registers.program_counter, 0x0101);
    assert_eq!(cpu.registers.address_register, 0x0100);
    assert_eq!(cpu.registers.data_register, 0x12);
    assert_eq!(cpu.fetch_data(&mut memory, 0x0101), 0x34);
    assert_eq!(cpu.registers.program_counter, 0x0101);
    cpu.write_data(&mut memory, 0xC000, 0x56);
    assert_eq!(memory.fetch(0xC000), 0x56);
    assert_eq!(cpu.registers.address_register, 0xC000);
    assert_eq!(cpu.registers.data_register, 0x56);
    // the program counter wraps around at the end of memory
    cpu.registers.program_counter = 0xFFFF;
    cpu.fetch_operand(&mut memory);
    assert_eq!(cpu.registers.program_counter, 0x0000);
}

/// The operand that a 3-bit field selects.
fn operand(cpu: &CPU, memory: &mut Memory, index: u8) -> u8 {
    match index {
        0 => cpu.registers.r_b,
        1 => cpu.registers.r_c,
        2 => cpu.registers.r_d,
        3 => cpu.registers.r_e,
        4 => cpu.registers.r_h,
        5 => cpu.registers.r_l,
        6 => memory.fetch(((cpu.registers.r_h as u16) << 8) | cpu.registers.r_l as u16),
        _ => cpu.registers.r_a,
    }
}

fn loaded() -> CPU {
    let mut cpu = processor();
    cpu.registers.r_a = 0x0A;
    cpu.registers.r_b = 0x0B;
    cpu.registers.r_c = 0x0C;
    cpu.registers.r_d = 0x0D;
    cpu.registers.r_e = 0x0E;
    cpu.registers.r_h = 0xC0;
    cpu.registers.r_l = 0x10;
    cpu.registers.r_f = 0x50;
    cpu
}

#[test]
fn test_every_load_between_two_operands() {
    for opcode in 0x40..=0x7Fu8 {
        if opcode == 0x76 {
            continue;
        }
        let source = opcode & 0x07;
        let target = (opcode >> 3) & 0x07;
        let mut memory = bus(&[opcode]);
        memory.write(0xC010, 0x99);
        let mut cpu = loaded();
        let value = operand(&cpu, &mut memory, source);
        let cycles = run(&mut cpu, &mut memory);
        assert_eq!(cycles, if source == 6 || target == 6 { 2 } else { 1 }, "{:#04X}", opcode);
        if target == 6 {
            // H and L address the target, and stay
            assert_eq!(memory.fetch(0xC010), value, "{:#04X}", opcode);
            assert_eq!((cpu.registers.r_h, cpu.registers.r_l), (0xC0, 0x10));
        } else {
            assert_eq!(operand(&cpu, &mut memory, target), value, "{:#04X}", opcode);
        }
        // no other register changes
        let before = loaded();
        for other in [0u8, 1, 2, 3, 4, 5, 7] {
            if other != target {
                assert_eq!(operand(&cpu, &mut memory, other), operand(&before, &mut memory, other));
            }
        }
        assert_eq!(cpu.registers.r_f, 0x50);
        assert_eq!(cpu.registers.program_counter, 0x0101);
    }
}

#[test]
fn test_every_accumulator_operation_on_every_operand() {
    // (result, flags) of each row on A = 0x0A with the carry set and N set
    for opcode in 0x80..=0xBFu8 {
        let source = opcode & 0x07;
        let mut memory = bus(&[opcode]);
        memory.write(0xC010, 0x99);
        let mut cpu = loaded();
        let value = operand(&cpu, &mut memory, source);
        let a: u8 = 0x0A;
        let (result, flags): (u8, u8) = match (opcode >> 3) & 0x07 {
            0 => {
                let r = a.wrapping_add(value);
                let h = (a & 0xF) + (value & 0xF) > 0xF;
                let c = a as u16 + value as u16 > 0xFF;
                (r, pack(r == 0, false, h, c))
            }
            1 => {
                let r = a.wrapping_add(value).wrapping_add(1);
                let h = (a & 0xF) + (value & 0xF) + 1 > 0xF;
                let c = a as u16 + value as u16 + 1 > 0xFF;
                (r, pack(r == 0, false, h, c))
            }
            2 => {
                let r = a.wrapping_sub(value);
                (r, pack(r == 0, true, (a & 0xF) < (value & 0xF), a < value))
            }
            3 => {
                let r = a.wrapping_sub(value).wrapping_sub(1);
                let h = (a & 0xF) < (value & 0xF) + 1;
                let c = (a as u16) < value as u16 + 1;
                (r, pack(r == 0, true, h, c))
            }
            4 => (a & value, pack(a & value == 0, false, true, false)),
            5 => (a ^ value, pack(a ^ value == 0, false, false, false)),
            6 => (a | value, pack(a | value == 0, false, false, false)),
            _ => (a, pack(a == value, true, (a & 0xF) < (value & 0xF), a < value)),
        };
        assert_eq!(run(&mut cpu, &mut memory), 2);
        assert_eq!((cpu.registers.r_a, cpu.registers.r_f), (result, flags), "{:#04X}", opcode);
        assert_eq!(cpu.registers.program_counter, 0x0101);
    }
}

fn pack(z: bool, n: bool, h: bool, c: bool) -> u8 {
    (if z { 0x80 } else { 0 }) | (if n { 0x40 } else { 0 }) | (if h { 0x20 } else { 0 }) | (if c { 0x10 } else { 0 })
}

#[test]
fn test_loads_through_bc_and_de() {
    // LD (BC),A; LD A,(DE); LD (DE),A; LD A,(BC)
    let mut memory = bus(&[0x02, 0x1A, 0x12, 0x0A]);
    memory.write(0xC020, 0x77);
    let mut cpu = processor();
    cpu.registers.r_a = 0x5A;
    cpu.registers.r_b = 0xC0;
    cpu.registers.r_c = 0x10;
    cpu.registers.r_d = 0xC0;
    cpu.registers.r_e = 0x20;
    assert_eq!(run(&mut cpu, &mut memory), 2);
    assert_eq!(memory.fetch(0xC010), 0x5A);
    assert_eq!(run(&mut cpu, &mut memory), 2);
    assert_eq!(cpu.registers.r_a, 0x77);
    cpu.registers.r_a = 0x33;
    assert_eq!(run(&mut cpu, &mut memory), 2);
    assert_eq!(memory.fetch(0xC020), 0x33);
    assert_eq!(run(&mut cpu, &mut memory), 2);
    assert_eq!(cpu.registers.r_a, 0x5A);
    assert_eq!((cpu.registers.r_b, cpu.registers.r_c), (0xC0, 0x10));
    assert_eq!((cpu.registers.r_d, cpu.registers.r_e), (0xC0, 0x20));
}

#[test]
fn test_jp_hl_and_ld_sp_hl() {
    let mut memory = bus(&[0xE9]);
    let mut cpu = processor();
    cpu.registers.r_h = 0x12;
    cpu.registers.r_l = 0x34;
    assert_eq!(run(&mut cpu, &mut memory), 1);
    assert_eq!(cpu.registers.program_counter, 0x1234);

    let mut memory = bus(&[0xF9]);
    let mut cpu = processor();
    cpu.registers.r_h = 0x12;
    cpu.registers.r_l = 0x34;
    assert_eq!(run(&mut cpu, &mut memory), 2);
    assert_eq!(cpu.registers.stack_pointer, 0x1234);
    assert_eq!(cpu.registers.program_counter, 0x0101);
}

#[test]
fn test_halted_stays_until_an_interrupt() {
    // HALT; NOP; INC A
    let mut memory = bus(&[0x76, 0x00, 0x3C]);
    let mut cpu = processor();
    run(&mut cpu, &mut memory);
    run(&mut cpu, &mut memory);
    run(&mut cpu, &mut memory);
    assert!(cpu.halted);
}
