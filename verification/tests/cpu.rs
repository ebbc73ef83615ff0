use feox::cpu::decode::JumpCond;
use feox::cpu::operands::{Addr, ImmediateByte, ImmediateWord};
use feox::cpu::registers::{pack_flags, Reg16, Reg8, Registers};
use feox::cpu::{Cpu, Fault};
use feox::emulator::Emulator;

/// A CPU at address 0 of a cartridge that holds `program`.
fn boot(program: &[u8]) -> (Cpu, Emulator) {
    let mut emulator = Emulator::new();
    emulator.load_rom(program);
    emulator.write_mapped(0xFF50, 1);
    (Cpu::new(), emulator)
}

/// Runs `steps` instructions and gives the machine cycles they took.
fn run(cpu: &mut Cpu, emulator: &mut Emulator, steps: usize) -> u32 {
    let before = emulator.cycles;
    for _ in 0..steps {
        assert_eq!(cpu.step(emulator), Ok(()));
    }
    emulator.cycles - before
}

#[test]
fn new_cpu_is_all_zero() {
    let cpu = Cpu::new();
    assert_eq!(cpu.regs, Registers::new());
    assert_eq!(cpu.regs.pc, 0);
    assert_eq!(cpu.regs.sp, 0);
    assert_eq!(cpu.regs.read_pair(Reg16::AF), 0);
    assert!(!cpu.halted);
    assert!(!cpu.interrupt_enabled);
    assert_eq!(cpu.opcode, 0);
}

#[test]
fn flags_sit_in_the_upper_nibble() {
    let mut regs = Registers::new();
    regs.set_zero(true);
    assert_eq!(regs.f, 0x80);
    regs.set_sub(true);
    assert_eq!(regs.f, 0xC0);
    regs.set_half_carry(true);
    assert_eq!(regs.f, 0xE0);
    regs.set_carry(true);
    assert_eq!(regs.f, 0xF0);
    assert!(regs.zero() && regs.sub() && regs.half_carry() && regs.carry());
    regs.set_zero(false);
    assert_eq!(regs.f, 0x70);
    regs.set_half_carry(false);
    assert_eq!(regs.f, 0x50);
    regs.set_flags(true, false, true, false);
    assert_eq!(regs.f, 0xA0);
    assert_eq!(pack_flags(false, false, false, true), 0x10);
    assert!(regs.zero() && !regs.sub() && regs.half_carry() && !regs.carry());
}

#[test]
fn register_pairs_round_trip() {
    let mut regs = Registers::new();
    for (pair, value) in [
        (Reg16::BC, 0x1234u16),
        (Reg16::DE, 0x5678),
        (Reg16::HL, 0x9ABC),
        (Reg16::SP, 0xFFFE),
        (Reg16::PC, 0x0100),
    ] {
        regs.write_pair(pair, value);
        assert_eq!(regs.read_pair(pair), value);
    }
    assert_eq!((regs.b, regs.c), (0x12, 0x34));
    assert_eq!((regs.d, regs.e), (0x56, 0x78));
    assert_eq!((regs.h, regs.l), (0x9A, 0xBC));
    assert_eq!(regs.read(Reg8::H), 0x9A);
    regs.write(Reg8::L, 0x01);
    assert_eq!(regs.read_pair(Reg16::HL), 0x9A01);
}

#[test]
fn af_never_holds_a_low_nibble() {
    let mut regs = Registers::new();
    for value in [0xFFFFu16, 0x120F, 0x00F1, 0xABCD, 0x0000] {
        regs.write_pair(Reg16::AF, value);
        assert_eq!(regs.read_pair(Reg16::AF), value & 0xFFF0);
        assert_eq!(regs.f & 0x0F, 0);
    }
}

#[test]
fn nop_takes_one_machine_cycle() {
    let (mut cpu, mut emulator) = boot(&[0x00]);
    assert_eq!(run(&mut cpu, &mut emulator, 1), 1);
    assert_eq!(cpu.regs.pc, 1);
    assert_eq!(cpu.opcode, 0x00);
}

#[test]
fn eight_bit_loads() {
    // LD A,0x42; LD B,A; LD HL,0xC000; LD (HL),B; LD C,(HL); LD (HL),0x99; LD E,(HL)
    let program = [0x3E, 0x42, 0x47, 0x21, 0x00, 0xC0, 0x70, 0x4E, 0x36, 0x99, 0x5E];
    let (mut cpu, mut emulator) = boot(&program);
    assert_eq!(run(&mut cpu, &mut emulator, 1), 2);
    assert_eq!(cpu.regs.a, 0x42);
    assert_eq!(run(&mut cpu, &mut emulator, 1), 1);
    assert_eq!(cpu.regs.b, 0x42);
    assert_eq!(run(&mut cpu, &mut emulator, 1), 3);
    assert_eq!(cpu.regs.read_pair(Reg16::HL), 0xC000);
    assert_eq!(run(&mut cpu, &mut emulator, 1), 2);
    assert_eq!(emulator.read_mapped(0xC000), 0x42);
    assert_eq!(run(&mut cpu, &mut emulator, 1), 2);
    assert_eq!(cpu.regs.c, 0x42);
    assert_eq!(run(&mut cpu, &mut emulator, 1), 3);
    assert_eq!(emulator.read_mapped(0xC000), 0x99);
    assert_eq!(run(&mut cpu, &mut emulator, 1), 2);
    assert_eq!(cpu.regs.e, 0x99);
    assert_eq!(cpu.regs.f, 0);
}

#[test]
fn loads_through_bc_de_and_hl_with_step() {
    // LD BC,0xC010; LD DE,0xC020; LD HL,0xC030; LD A,0x11; LD (BC),A;
    // LD (DE),A; LD (HL+),A; LD (HL-),A; LD A,(HL+); LD A,(HL-); LD A,(BC); LD A,(DE)
    let program = [
        0x01, 0x10, 0xC0, 0x11, 0x20, 0xC0, 0x21, 0x30, 0xC0, 0x3E, 0x11, 0x02, 0x12, 0x22, 0x32,
        0x2A, 0x3A, 0x0A, 0x1A,
    ];
    let (mut cpu, mut emulator) = boot(&program);
    run(&mut cpu, &mut emulator, 4);
    assert_eq!(run(&mut cpu, &mut emulator, 2), 4);
    assert_eq!(emulator.read_mapped(0xC010), 0x11);
    assert_eq!(emulator.read_mapped(0xC020), 0x11);
    assert_eq!(run(&mut cpu, &mut emulator, 1), 2);
    assert_eq!(emulator.read_mapped(0xC030), 0x11);
    assert_eq!(cpu.regs.read_pair(Reg16::HL), 0xC031);
    assert_eq!(run(&mut cpu, &mut emulator, 1), 2);
    assert_eq!(emulator.read_mapped(0xC031), 0x11);
    assert_eq!(cpu.regs.read_pair(Reg16::HL), 0xC030);
    emulator.write_mapped(0xC030, 0x77);
    emulator.write_mapped(0xC031, 0x88);
    assert_eq!(run(&mut cpu, &mut emulator, 1), 2);
    assert_eq!(cpu.regs.a, 0x77);
    assert_eq!(cpu.regs.read_pair(Reg16::HL), 0xC031);
    assert_eq!(run(&mut cpu, &mut emulator, 1), 2);
    assert_eq!(cpu.regs.a, 0x88);
    assert_eq!(cpu.regs.read_pair(Reg16::HL), 0xC030);
    emulator.write_mapped(0xC010, 0x55);
    emulator.write_mapped(0xC020, 0x66);
    run(&mut cpu, &mut emulator, 1);
    assert_eq!(cpu.regs.a, 0x55);
    run(&mut cpu, &mut emulator, 1);
    assert_eq!(cpu.regs.a, 0x66);
}

#[test]
fn high_page_and_absolute_loads() {
    // LD A,0x5A; LDH (0x80),A; LD C,0x81; LD (C),A; LD (0xC123),A;
    // LD A,0; LDH A,(0x80); LD A,0; LD A,(C); LD A,0; LD A,(0xC123)
    let program = [
        0x3E, 0x5A, 0xE0, 0x80, 0x0E, 0x81, 0xE2, 0xEA, 0x23, 0xC1, 0x3E, 0x00, 0xF0, 0x80, 0x3E,
        0x00, 0xF2, 0x3E, 0x00, 0xFA, 0x23, 0xC1,
    ];
    let (mut cpu, mut emulator) = boot(&program);
    run(&mut cpu, &mut emulator, 1);
    assert_eq!(run(&mut cpu, &mut emulator, 1), 3);
    assert_eq!(emulator.read_mapped(0xFF80), 0x5A);
    run(&mut cpu, &mut emulator, 1);
    assert_eq!(run(&mut cpu, &mut emulator, 1), 2);
    assert_eq!(emulator.read_mapped(0xFF81), 0x5A);
    assert_eq!(run(&mut cpu, &mut emulator, 1), 4);
    assert_eq!(emulator.read_mapped(0xC123), 0x5A);
    run(&mut cpu, &mut emulator, 1);
    assert_eq!(run(&mut cpu, &mut emulator, 1), 3);
    assert_eq!(cpu.regs.a, 0x5A);
    run(&mut cpu, &mut emulator, 1);
    assert_eq!(run(&mut cpu, &mut emulator, 1), 2);
    assert_eq!(cpu.regs.a, 0x5A);
    run(&mut cpu, &mut emulator, 1);
    assert_eq!(run(&mut cpu, &mut emulator, 1), 4);
    assert_eq!(cpu.regs.a, 0x5A);
    assert_eq!(cpu.regs.pc, 22);
}

#[test]
fn sixteen_bit_loads() {
    // LD SP,0xFFF8; LD (0xC000),SP; LD HL,0x1234; LD SP,HL; LD HL,SP+2; LD HL,SP-1
    let program = [
        0x31, 0xF8, 0xFF, 0x08, 0x00, 0xC0, 0x21, 0x34, 0x12, 0xF9, 0xF8, 0x02, 0xF8, 0xFF,
    ];
    let (mut cpu, mut emulator) = boot(&program);
    assert_eq!(run(&mut cpu, &mut emulator, 1), 3);
    assert_eq!(cpu.regs.sp, 0xFFF8);
    assert_eq!(run(&mut cpu, &mut emulator, 1), 5);
    assert_eq!(emulator.read_mapped(0xC000), 0xF8);
    assert_eq!(emulator.read_mapped(0xC001), 0xFF);
    run(&mut cpu, &mut emulator, 1);
    assert_eq!(run(&mut cpu, &mut emulator, 1), 2);
    assert_eq!(cpu.regs.sp, 0x1234);
    assert_eq!(run(&mut cpu, &mut emulator, 1), 3);
    assert_eq!(cpu.regs.read_pair(Reg16::HL), 0x1236);
    assert_eq!(cpu.regs.f, 0x00);
    assert_eq!(run(&mut cpu, &mut emulator, 1), 3);
    assert_eq!(cpu.regs.read_pair(Reg16::HL), 0x1233);
    // 0x34 + 0xFF carries out of bit 3 and out of bit 7.
    assert_eq!(cpu.regs.f, 0x30);
    assert_eq!(cpu.regs.sp, 0x1234);
}

#[test]
fn add_sets_zero_half_carry_and_carry() {
    // LD A,0x3A; ADD A,0xC6; ADD A,0x0F; LD B,0x01; ADD A,B
    let program = [0x3E, 0x3A, 0xC6, 0xC6, 0xC6, 0x0F, 0x06, 0x01, 0x80];
    let (mut cpu, mut emulator) = boot(&program);
    run(&mut cpu, &mut emulator, 1);
    assert_eq!(run(&mut cpu, &mut emulator, 1), 2);
    assert_eq!(cpu.regs.a, 0x00);
    assert_eq!(cpu.regs.f, 0xB0);
    run(&mut cpu, &mut emulator, 1);
    assert_eq!(cpu.regs.a, 0x0F);
    assert_eq!(cpu.regs.f, 0x00);
    run(&mut cpu, &mut emulator, 1);
    assert_eq!(run(&mut cpu, &mut emulator, 1), 1);
    assert_eq!(cpu.regs.a, 0x10);
    assert_eq!(cpu.regs.f, 0x20);
}

#[test]
fn adc_of_ff_with_carry_sets_carry() {
    for a in [0x00u8, 0x01, 0x12, 0x7F, 0x80, 0xFF] {
        // LD A,a; SCF; ADC A,0xFF
        let (mut cpu, mut emulator) = boot(&[0x3E, a, 0x37, 0xCE, 0xFF]);
        run(&mut cpu, &mut emulator, 3);
        assert_eq!(cpu.regs.a, a);
        assert!(cpu.regs.carry());
        assert!(cpu.regs.half_carry());
        assert!(!cpu.regs.sub());
        assert_eq!(cpu.regs.zero(), a == 0);
    }
}

#[test]
fn adc_adds_the_carry_in() {
    // LD A,0x0E; SCF; ADC A,0x01; ADC A,0x01
    let (mut cpu, mut emulator) = boot(&[0x3E, 0x0E, 0x37, 0xCE, 0x01, 0xCE, 0x01]);
    run(&mut cpu, &mut emulator, 3);
    assert_eq!(cpu.regs.a, 0x10);
    assert_eq!(cpu.regs.f, 0x20);
    run(&mut cpu, &mut emulator, 1);
    assert_eq!(cpu.regs.a, 0x11);
    assert_eq!(cpu.regs.f, 0x00);
}

#[test]
fn sub_of_a_from_itself_gives_zero() {
    for a in [0x00u8, 0x01, 0x77, 0xF0, 0xFF] {
        // LD A,a; SUB A
        let (mut cpu, mut emulator) = boot(&[0x3E, a, 0x97]);
        run(&mut cpu, &mut emulator, 2);
        assert_eq!(cpu.regs.a, 0);
        assert_eq!(cpu.regs.f, 0xC0);
    }
}

#[test]
fn sub_sbc_and_cp_borrow() {
    // LD A,0x10; SUB 0x01; CP 0x20; SCF; SBC A,0x0F; SBC A,0xFF
    let program = [0x3E, 0x10, 0xD6, 0x01, 0xFE, 0x20, 0x37, 0xDE, 0x0F, 0xDE, 0xFF];
    let (mut cpu, mut emulator) = boot(&program);
    run(&mut cpu, &mut emulator, 2);
    assert_eq!(cpu.regs.a, 0x0F);
    assert_eq!(cpu.regs.f, 0x60);
    run(&mut cpu, &mut emulator, 1);
    assert_eq!(cpu.regs.a, 0x0F);
    assert_eq!(cpu.regs.f, 0x50);
    run(&mut cpu, &mut emulator, 2);
    // 0x0F - 0x0F - 1 = 0xFF with a borrow out of both nibbles.
    assert_eq!(cpu.regs.a, 0xFF);
    assert_eq!(cpu.regs.f, 0x70);
    run(&mut cpu, &mut emulator, 1);
    // 0xFF - 0xFF - 1 = 0xFF again.
    assert_eq!(cpu.regs.a, 0xFF);
    assert_eq!(cpu.regs.f, 0x70);
}

#[test]
fn logic_operations() {
    // LD A,0xF0; AND 0x3C; OR 0x03; XOR 0x33; XOR A; CPL
    let program = [0x3E, 0xF0, 0xE6, 0x3C, 0xF6, 0x03, 0xEE, 0x33, 0xAF, 0x2F];
    let (mut cpu, mut emulator) = boot(&program);
    run(&mut cpu, &mut emulator, 2);
    assert_eq!(cpu.regs.a, 0x30);
    assert_eq!(cpu.regs.f, 0x20);
    run(&mut cpu, &mut emulator, 1);
    assert_eq!(cpu.regs.a, 0x33);
    assert_eq!(cpu.regs.f, 0x00);
    run(&mut cpu, &mut emulator, 1);
    assert_eq!(cpu.regs.a, 0x00);
    assert_eq!(cpu.regs.f, 0x80);
    run(&mut cpu, &mut emulator, 1);
    assert_eq!(cpu.regs.a, 0x00);
    assert_eq!(cpu.regs.f, 0x80);
    run(&mut cpu, &mut emulator, 1);
    assert_eq!(cpu.regs.a, 0xFF);
    assert_eq!(cpu.regs.f, 0xE0);
}

#[test]
fn carry_flag_instructions() {
    // SCF; CCF; CCF
    let (mut cpu, mut emulator) = boot(&[0x37, 0x3F, 0x3F]);
    cpu.regs.f = 0xE0;
    run(&mut cpu, &mut emulator, 1);
    assert_eq!(cpu.regs.f, 0x90);
    run(&mut cpu, &mut emulator, 1);
    assert_eq!(cpu.regs.f, 0x80);
    run(&mut cpu, &mut emulator, 1);
    assert_eq!(cpu.regs.f, 0x90);
}

#[test]
fn inc_at_hl_of_ff_gives_zero() {
    // LD HL,0xC000; LD (HL),0xFF; INC (HL); DEC (HL)
    let (mut cpu, mut emulator) = boot(&[0x21, 0x00, 0xC0, 0x36, 0xFF, 0x34, 0x35]);
    run(&mut cpu, &mut emulator, 2);
    assert_eq!(run(&mut cpu, &mut emulator, 1), 3);
    assert_eq!(emulator.read_mapped(0xC000), 0x00);
    assert_eq!(cpu.regs.f, 0xA0);
    assert_eq!(run(&mut cpu, &mut emulator, 1), 3);
    assert_eq!(emulator.read_mapped(0xC000), 0xFF);
    assert_eq!(cpu.regs.f, 0x60);
}

#[test]
fn inc_and_dec_leave_the_carry_alone() {
    // SCF; LD B,0x0F; INC B; DEC B; LD B,0x01; DEC B
    let (mut cpu, mut emulator) = boot(&[0x37, 0x06, 0x0F, 0x04, 0x05, 0x06, 0x01, 0x05]);
    run(&mut cpu, &mut emulator, 3);
    assert_eq!(cpu.regs.b, 0x10);
    assert_eq!(cpu.regs.f, 0x30);
    run(&mut cpu, &mut emulator, 1);
    assert_eq!(cpu.regs.b, 0x0F);
    assert_eq!(cpu.regs.f, 0x70);
    run(&mut cpu, &mut emulator, 2);
    assert_eq!(cpu.regs.b, 0x00);
    assert_eq!(cpu.regs.f, 0xD0);
}

#[test]
fn sixteen_bit_increments_change_no_flag() {
    // LD BC,0xFFFF; INC BC; DEC BC; LD SP,0x00FF; INC SP
    let (mut cpu, mut emulator) = boot(&[0x01, 0xFF, 0xFF, 0x03, 0x0B, 0x31, 0xFF, 0x00, 0x33]);
    cpu.regs.f = 0xF0;
    run(&mut cpu, &mut emulator, 1);
    assert_eq!(run(&mut cpu, &mut emulator, 1), 2);
    assert_eq!(cpu.regs.read_pair(Reg16::BC), 0x0000);
    assert_eq!(run(&mut cpu, &mut emulator, 1), 2);
    assert_eq!(cpu.regs.read_pair(Reg16::BC), 0xFFFF);
    run(&mut cpu, &mut emulator, 2);
    assert_eq!(cpu.regs.sp, 0x0100);
    assert_eq!(cpu.regs.f, 0xF0);
}

#[test]
fn add_hl_keeps_zero_and_carries_out_of_bit_11_and_15() {
    // LD HL,0x0FFF; LD BC,0x0001; ADD HL,BC; LD HL,0x8000; ADD HL,HL
    let program = [0x21, 0xFF, 0x0F, 0x01, 0x01, 0x00, 0x09, 0x21, 0x00, 0x80, 0x29];
    let (mut cpu, mut emulator) = boot(&program);
    cpu.regs.f = 0xC0;
    run(&mut cpu, &mut emulator, 2);
    assert_eq!(run(&mut cpu, &mut emulator, 1), 2);
    assert_eq!(cpu.regs.read_pair(Reg16::HL), 0x1000);
    assert_eq!(cpu.regs.f, 0xA0);
    run(&mut cpu, &mut emulator, 2);
    assert_eq!(cpu.regs.read_pair(Reg16::HL), 0x0000);
    assert_eq!(cpu.regs.f, 0x90);
}

#[test]
fn add_sp_takes_a_signed_offset() {
    // LD SP,0x00FF; ADD SP,1; ADD SP,-1; ADD SP,-128
    let (mut cpu, mut emulator) = boot(&[0x31, 0xFF, 0x00, 0xE8, 0x01, 0xE8, 0xFF, 0xE8, 0x80]);
    cpu.regs.f = 0xC0;
    run(&mut cpu, &mut emulator, 1);
    assert_eq!(run(&mut cpu, &mut emulator, 1), 4);
    assert_eq!(cpu.regs.sp, 0x0100);
    assert_eq!(cpu.regs.f, 0x30);
    run(&mut cpu, &mut emulator, 1);
    assert_eq!(cpu.regs.sp, 0x00FF);
    assert_eq!(cpu.regs.f, 0x00);
    run(&mut cpu, &mut emulator, 1);
    assert_eq!(cpu.regs.sp, 0x007F);
    assert_eq!(cpu.regs.f, 0x10);
}

#[test]
fn rotations_of_the_accumulator_clear_zero() {
    // RLCA on 0; LD A,0x85; RLCA; RRCA; RLA; RRA; RRA
    let (mut cpu, mut emulator) = boot(&[0x07, 0x3E, 0x85, 0x07, 0x0F, 0x17, 0x1F, 0x1F]);
    cpu.regs.f = 0x80;
    run(&mut cpu, &mut emulator, 1);
    assert_eq!(cpu.regs.a, 0x00);
    assert_eq!(cpu.regs.f, 0x00);
    run(&mut cpu, &mut emulator, 2);
    assert_eq!(cpu.regs.a, 0x0B);
    assert_eq!(cpu.regs.f, 0x10);
    run(&mut cpu, &mut emulator, 1);
    assert_eq!(cpu.regs.a, 0x85);
    assert_eq!(cpu.regs.f, 0x10);
    run(&mut cpu, &mut emulator, 1);
    assert_eq!(cpu.regs.a, 0x0B);
    assert_eq!(cpu.regs.f, 0x10);
    run(&mut cpu, &mut emulator, 1);
    assert_eq!(cpu.regs.a, 0x85);
    assert_eq!(cpu.regs.f, 0x10);
    run(&mut cpu, &mut emulator, 1);
    assert_eq!(cpu.regs.a, 0xC2);
    assert_eq!(cpu.regs.f, 0x10);
}

#[test]
fn decimal_adjust_after_add_and_sub() {
    // LD A,0x15; ADD A,0x27; DAA; LD A,0x99; ADD A,0x01; DAA; LD A,0x42; SUB 0x15; DAA
    let program = [
        0x3E, 0x15, 0xC6, 0x27, 0x27, 0x3E, 0x99, 0xC6, 0x01, 0x27, 0x3E, 0x42, 0xD6, 0x15, 0x27,
    ];
    let (mut cpu, mut emulator) = boot(&program);
    run(&mut cpu, &mut emulator, 2);
    assert_eq!(cpu.regs.a, 0x3C);
    assert_eq!(run(&mut cpu, &mut emulator, 1), 1);
    assert_eq!(cpu.regs.a, 0x42);
    assert_eq!(cpu.regs.f, 0x00);
    run(&mut cpu, &mut emulator, 3);
    assert_eq!(cpu.regs.a, 0x00);
    assert_eq!(cpu.regs.f, 0x90);
    run(&mut cpu, &mut emulator, 2);
    assert_eq!(cpu.regs.a, 0x2D);
    run(&mut cpu, &mut emulator, 1);
    assert_eq!(cpu.regs.a, 0x27);
    assert_eq!(cpu.regs.f, 0x40);
}

#[test]
fn decimal_adjust_keeps_sums_decimal() {
    for left in 0..100u32 {
        for right in 0..100u32 {
            let a = ((left / 10) << 4 | left % 10) as u8;
            let b = ((right / 10) << 4 | right % 10) as u8;
            // LD A,a; ADD A,b; DAA
            let (mut cpu, mut emulator) = boot(&[0x3E, a, 0xC6, b, 0x27]);
            run(&mut cpu, &mut emulator, 3);
            let sum = (left + right) % 100;
            assert_eq!(cpu.regs.a as u32, (sum / 10) << 4 | sum % 10);
            assert_eq!(cpu.regs.carry(), left + right >= 100);
            // LD A,a; SUB b; DAA
            let (mut cpu, mut emulator) = boot(&[0x3E, a, 0xD6, b, 0x27]);
            run(&mut cpu, &mut emulator, 3);
            let difference = (100 + left - right) % 100;
            assert_eq!(cpu.regs.a as u32, (difference / 10) << 4 | difference % 10);
            assert_eq!(cpu.regs.carry(), left < right);
        }
    }
}

#[test]
fn push_and_pop() {
    // LD SP,0xFFFE; LD BC,0x12FF; PUSH BC; POP AF; POP DE
    let (mut cpu, mut emulator) = boot(&[0x31, 0xFE, 0xFF, 0x01, 0xFF, 0x12, 0xC5, 0xF1, 0xD1]);
    run(&mut cpu, &mut emulator, 2);
    assert_eq!(run(&mut cpu, &mut emulator, 1), 4);
    assert_eq!(cpu.regs.sp, 0xFFFC);
    assert_eq!(emulator.read_mapped(0xFFFC), 0xFF);
    assert_eq!(emulator.read_mapped(0xFFFD), 0x12);
    assert_eq!(run(&mut cpu, &mut emulator, 1), 3);
    assert_eq!(cpu.regs.sp, 0xFFFE);
    assert_eq!(cpu.regs.a, 0x12);
    assert_eq!(cpu.regs.f, 0xF0);
    assert_eq!(cpu.regs.read_pair(Reg16::AF), 0x12F0);
    emulator.write_mapped(0xFFFE, 0x34);
    run(&mut cpu, &mut emulator, 1);
    // The high byte comes from 0xFFFF, the interrupt enable register.
    assert_eq!(cpu.regs.read_pair(Reg16::DE), 0x0034);
    assert_eq!(cpu.regs.sp, 0x0000);
}

#[test]
fn jumps_take_a_cycle_more_when_taken() {
    // 0x00: JP 0x0010
    // 0x10: JP NZ,0x0020 (taken)   0x20: XOR A; JP NZ,0x0000 (not taken)
    // 0x24: JP Z,0x0030            0x30: LD HL,0x0040; JP (HL)
    // 0x40: SCF; JP NC,0 (no); JP C,0x0050
    let mut program = [0u8; 0x60];
    program[0x00..0x03].copy_from_slice(&[0xC3, 0x10, 0x00]);
    program[0x10..0x13].copy_from_slice(&[0xC2, 0x20, 0x00]);
    program[0x20..0x27].copy_from_slice(&[0xAF, 0xC2, 0x00, 0x00, 0xCA, 0x30, 0x00]);
    program[0x30..0x34].copy_from_slice(&[0x21, 0x40, 0x00, 0xE9]);
    program[0x40..0x47].copy_from_slice(&[0x37, 0xD2, 0x00, 0x00, 0xDA, 0x50, 0x00]);
    let (mut cpu, mut emulator) = boot(&program);
    assert_eq!(run(&mut cpu, &mut emulator, 1), 4);
    assert_eq!(cpu.regs.pc, 0x10);
    assert_eq!(run(&mut cpu, &mut emulator, 1), 4);
    assert_eq!(cpu.regs.pc, 0x20);
    run(&mut cpu, &mut emulator, 1);
    assert_eq!(run(&mut cpu, &mut emulator, 1), 3);
    assert_eq!(cpu.regs.pc, 0x24);
    assert_eq!(run(&mut cpu, &mut emulator, 1), 4);
    assert_eq!(cpu.regs.pc, 0x30);
    run(&mut cpu, &mut emulator, 1);
    assert_eq!(run(&mut cpu, &mut emulator, 1), 1);
    assert_eq!(cpu.regs.pc, 0x40);
    run(&mut cpu, &mut emulator, 1);
    assert_eq!(run(&mut cpu, &mut emulator, 1), 3);
    assert_eq!(cpu.regs.pc, 0x44);
    assert_eq!(run(&mut cpu, &mut emulator, 1), 4);
    assert_eq!(cpu.regs.pc, 0x50);
}

#[test]
fn relative_jumps_go_both_ways() {
    // 0x00: JR +2; 0x04: XOR A; JR NZ,+5 (no); JR Z,-7 (to 0x02); 0x02: JR +5 (to 0x09)
    let program = [0x18, 0x02, 0x18, 0x05, 0xAF, 0x20, 0x05, 0x28, 0xF9, 0x00];
    let (mut cpu, mut emulator) = boot(&program);
    assert_eq!(run(&mut cpu, &mut emulator, 1), 3);
    assert_eq!(cpu.regs.pc, 0x04);
    run(&mut cpu, &mut emulator, 1);
    assert_eq!(run(&mut cpu, &mut emulator, 1), 2);
    assert_eq!(cpu.regs.pc, 0x07);
    assert_eq!(run(&mut cpu, &mut emulator, 1), 3);
    assert_eq!(cpu.regs.pc, 0x02);
    assert_eq!(run(&mut cpu, &mut emulator, 1), 3);
    assert_eq!(cpu.regs.pc, 0x09);
}

#[test]
fn relative_jump_wraps_around_the_address_space() {
    // JR -3 at address 0 lands at 0xFFFF.
    let (mut cpu, mut emulator) = boot(&[0x18, 0xFD]);
    run(&mut cpu, &mut emulator, 1);
    assert_eq!(cpu.regs.pc, 0xFFFF);
}

#[test]
fn call_and_return() {
    // 0x00: LD SP,0xFFFE; CALL 0x0010; 0x06: NOP
    // 0x10: XOR A; RET NZ (no); CALL NZ,0 (no); RET Z
    let mut program = [0u8; 0x20];
    program[0x00..0x06].copy_from_slice(&[0x31, 0xFE, 0xFF, 0xCD, 0x10, 0x00]);
    program[0x10..0x17].copy_from_slice(&[0xAF, 0xC0, 0xC4, 0x00, 0x00, 0xC8, 0x00]);
    let (mut cpu, mut emulator) = boot(&program);
    run(&mut cpu, &mut emulator, 1);
    assert_eq!(run(&mut cpu, &mut emulator, 1), 6);
    assert_eq!(cpu.regs.pc, 0x10);
    assert_eq!(cpu.regs.sp, 0xFFFC);
    assert_eq!(emulator.read_mapped(0xFFFC), 0x06);
    assert_eq!(emulator.read_mapped(0xFFFD), 0x00);
    run(&mut cpu, &mut emulator, 1);
    assert_eq!(run(&mut cpu, &mut emulator, 1), 2);
    assert_eq!(cpu.regs.pc, 0x12);
    assert_eq!(run(&mut cpu, &mut emulator, 1), 3);
    assert_eq!(cpu.regs.pc, 0x15);
    assert_eq!(run(&mut cpu, &mut emulator, 1), 5);
    assert_eq!(cpu.regs.pc, 0x06);
    assert_eq!(cpu.regs.sp, 0xFFFE);
}

#[test]
fn plain_return_reti_and_rst() {
    // 0x00: LD SP,0xFFFE; RST 0x28; 0x04: RST 0x38
    // 0x28: RET     0x38: RETI
    let mut program = [0u8; 0x40];
    program[0x00..0x05].copy_from_slice(&[0x31, 0xFE, 0xFF, 0xEF, 0xFF]);
    program[0x28] = 0xC9;
    program[0x38] = 0xD9;
    let (mut cpu, mut emulator) = boot(&program);
    run(&mut cpu, &mut emulator, 1);
    assert_eq!(run(&mut cpu, &mut emulator, 1), 4);
    assert_eq!(cpu.regs.pc, 0x28);
    assert_eq!(cpu.regs.sp, 0xFFFC);
    assert_eq!(run(&mut cpu, &mut emulator, 1), 4);
    assert_eq!(cpu.regs.pc, 0x04);
    assert!(!cpu.interrupt_enabled);
    run(&mut cpu, &mut emulator, 1);
    assert_eq!(cpu.regs.pc, 0x38);
    assert_eq!(run(&mut cpu, &mut emulator, 1), 4);
    assert_eq!(cpu.regs.pc, 0x05);
    assert_eq!(cpu.regs.sp, 0xFFFE);
    assert!(cpu.interrupt_enabled);
}

#[test]
fn every_rst_goes_to_its_vector() {
    for (opcode, vector) in [
        (0xC7u8, 0x00u16),
        (0xCF, 0x08),
        (0xD7, 0x10),
        (0xDF, 0x18),
        (0xE7, 0x20),
        (0xEF, 0x28),
        (0xF7, 0x30),
        (0xFF, 0x38),
    ] {
        let mut program = [0u8; 0x101];
        program[0x100] = opcode;
        let (mut cpu, mut emulator) = boot(&program);
        cpu.regs.pc = 0x100;
        cpu.regs.sp = 0xD000;
        run(&mut cpu, &mut emulator, 1);
        assert_eq!(cpu.regs.pc, vector);
        assert_eq!(emulator.read_mapped(0xCFFE), 0x01);
        assert_eq!(emulator.read_mapped(0xCFFF), 0x01);
    }
}

#[test]
fn interrupt_switches() {
    // EI; DI; EI
    let (mut cpu, mut emulator) = boot(&[0xFB, 0xF3, 0xFB]);
    assert_eq!(run(&mut cpu, &mut emulator, 1), 1);
    assert!(cpu.interrupt_enabled);
    run(&mut cpu, &mut emulator, 1);
    assert!(!cpu.interrupt_enabled);
    run(&mut cpu, &mut emulator, 1);
    assert!(cpu.interrupt_enabled);
}

#[test]
fn halt_idles_until_an_interrupt_is_requested() {
    // HALT; INC A
    let (mut cpu, mut emulator) = boot(&[0x76, 0x3C]);
    assert_eq!(run(&mut cpu, &mut emulator, 1), 1);
    assert!(cpu.halted);
    for _ in 0..5 {
        assert_eq!(run(&mut cpu, &mut emulator, 1), 1);
        assert!(cpu.halted);
        assert_eq!(cpu.regs.pc, 1);
    }
    // A request that is not enabled does not wake the CPU.
    emulator.write_mapped(0xFF0F, 0x04);
    run(&mut cpu, &mut emulator, 1);
    assert!(cpu.halted);
    // An enabled request wakes it even with the master enable off.
    emulator.write_mapped(0xFFFF, 0x04);
    assert_eq!(run(&mut cpu, &mut emulator, 1), 1);
    assert!(!cpu.halted);
    assert_eq!(cpu.regs.pc, 1);
    assert_eq!(emulator.read_mapped(0xFF0F), 0x04);
    run(&mut cpu, &mut emulator, 1);
    assert_eq!(cpu.regs.a, 1);
}

#[test]
fn illegal_opcodes_are_faults() {
    for opcode in [0xD3u8, 0xDB, 0xDD, 0xE3, 0xE4, 0xEB, 0xEC, 0xED, 0xF4, 0xFC, 0xFD] {
        let (mut cpu, mut emulator) = boot(&[opcode]);
        assert_eq!(cpu.step(&mut emulator), Err(Fault::IllegalOpcode(opcode)));
        assert_eq!(cpu.opcode, opcode);
        assert_eq!(cpu.regs.pc, 1);
        assert_eq!(emulator.cycles, 1);
    }
}

#[test]
fn stop_is_a_fault() {
    let (mut cpu, mut emulator) = boot(&[0x10, 0x00]);
    assert_eq!(cpu.step(&mut emulator), Err(Fault::Stop));
    assert_eq!(cpu.regs.pc, 1);
    let before = cpu.regs;
    assert_eq!(cpu.stop(&mut emulator), Err(Fault::Stop));
    assert_eq!(cpu.regs, before);
}

#[test]
fn every_other_opcode_runs() {
    let illegal = [0xD3u8, 0xDB, 0xDD, 0xE3, 0xE4, 0xEB, 0xEC, 0xED, 0xF4, 0xFC, 0xFD];
    for opcode in 0..=255u8 {
        if illegal.contains(&opcode) || opcode == 0x10 {
            continue;
        }
        let (mut cpu, mut emulator) = boot(&[opcode, 0x00, 0x00]);
        cpu.regs.sp = 0xD000;
        assert_eq!(cpu.step(&mut emulator), Ok(()));
        assert!(emulator.cycles >= 1 && emulator.cycles <= 6);
    }
    for opcode in 0..=255u8 {
        let (mut cpu, mut emulator) = boot(&[0xCB, opcode]);
        cpu.regs.write_pair(Reg16::HL, 0xC000);
        assert_eq!(cpu.step(&mut emulator), Ok(()));
        assert_eq!(cpu.opcode, opcode);
        let expected = if opcode & 0x07 != 6 {
            2
        } else if opcode & 0xC0 == 0x40 {
            3
        } else {
            4
        };
        assert_eq!(emulator.cycles, expected);
    }
}

#[test]
fn prefixed_shifts_and_rotations() {
    let cases: [(u8, u8, bool, u8, u8); 12] = [
        // opcode on B, value, carry in, result, flags
        (0x00, 0x85, false, 0x0B, 0x10),
        (0x00, 0x00, true, 0x00, 0x80),
        (0x08, 0x01, false, 0x80, 0x10),
        (0x10, 0x80, false, 0x00, 0x90),
        (0x10, 0x01, true, 0x03, 0x00),
        (0x18, 0x01, false, 0x00, 0x90),
        (0x18, 0x02, true, 0x81, 0x00),
        (0x20, 0xC1, true, 0x82, 0x10),
        (0x28, 0x81, false, 0xC0, 0x10),
        (0x30, 0xA5, true, 0x5A, 0x00),
        (0x38, 0x81, true, 0x40, 0x10),
        (0x38, 0x01, false, 0x00, 0x90),
    ];
    for (opcode, value, carry, result, flags) in cases {
        let (mut cpu, mut emulator) = boot(&[0xCB, opcode]);
        cpu.regs.b = value;
        cpu.regs.set_carry(carry);
        run(&mut cpu, &mut emulator, 1);
        assert_eq!((cpu.regs.b, cpu.regs.f), (result, flags), "opcode {:#04x}", opcode);
    }
}

#[test]
fn prefixed_operations_on_memory() {
    // SWAP (HL); BIT 0,(HL); BIT 4,(HL); RES 4,(HL); SET 7,(HL); SRL (HL)
    let program = [0xCB, 0x36, 0xCB, 0x46, 0xCB, 0x66, 0xCB, 0xA6, 0xCB, 0xFE, 0xCB, 0x3E];
    let (mut cpu, mut emulator) = boot(&program);
    cpu.regs.write_pair(Reg16::HL, 0xC000);
    emulator.write_mapped(0xC000, 0x1F);
    cpu.regs.set_carry(true);
    assert_eq!(run(&mut cpu, &mut emulator, 1), 4);
    assert_eq!(emulator.read_mapped(0xC000), 0xF1);
    assert_eq!(cpu.regs.f, 0x00);
    cpu.regs.set_carry(true);
    assert_eq!(run(&mut cpu, &mut emulator, 1), 3);
    assert_eq!(cpu.regs.f, 0x30);
    run(&mut cpu, &mut emulator, 1);
    assert_eq!(cpu.regs.f, 0x30);
    assert_eq!(run(&mut cpu, &mut emulator, 1), 4);
    assert_eq!(emulator.read_mapped(0xC000), 0xE1);
    run(&mut cpu, &mut emulator, 1);
    assert_eq!(emulator.read_mapped(0xC000), 0xE1);
    emulator.write_mapped(0xC000, 0x01);
    assert_eq!(cpu.regs.f, 0x30);
    run(&mut cpu, &mut emulator, 1);
    assert_eq!(emulator.read_mapped(0xC000), 0x00);
    assert_eq!(cpu.regs.f, 0x90);
}

#[test]
fn bit_tests_every_bit() {
    for bit in 0..8u8 {
        // BIT bit,A
        let (mut cpu, mut emulator) = boot(&[0xCB, 0x47 | bit << 3, 0xCB, 0x47 | bit << 3]);
        cpu.regs.a = 1 << bit;
        run(&mut cpu, &mut emulator, 1);
        assert_eq!(cpu.regs.f, 0x20);
        cpu.regs.a = !(1 << bit);
        run(&mut cpu, &mut emulator, 1);
        assert_eq!(cpu.regs.f, 0xA0);
        // RES bit,A and SET bit,A
        let (mut cpu, mut emulator) = boot(&[0xCB, 0x87 | bit << 3, 0xCB, 0xC7 | bit << 3]);
        cpu.regs.a = 0xFF;
        run(&mut cpu, &mut emulator, 1);
        assert_eq!(cpu.regs.a, !(1 << bit));
        cpu.regs.a = 0x00;
        run(&mut cpu, &mut emulator, 1);
        assert_eq!(cpu.regs.a, 1 << bit);
    }
}

#[test]
fn instructions_can_be_called_with_any_operand() {
    let (mut cpu, mut emulator) = boot(&[0x12, 0x34, 0x56]);
    cpu.load(&mut emulator, Reg8::B, ImmediateByte);
    assert_eq!(cpu.regs.b, 0x12);
    cpu.load16(&mut emulator, Reg16::DE, ImmediateWord);
    assert_eq!(cpu.regs.read_pair(Reg16::DE), 0x5634);
    cpu.regs.write_pair(Reg16::HL, 0xC000);
    cpu.load(&mut emulator, Addr::HL, Reg8::B);
    assert_eq!(emulator.read_mapped(0xC000), 0x12);
    cpu.add(&mut emulator, Addr::HL);
    assert_eq!(cpu.regs.a, 0x12);
    cpu.inc(&mut emulator, Addr::HL);
    assert_eq!(emulator.read_mapped(0xC000), 0x13);
    cpu.regs.sp = 0xD000;
    cpu.push(&mut emulator, Reg16::DE);
    cpu.pop(&mut emulator, Reg16::BC);
    assert_eq!(cpu.regs.read_pair(Reg16::BC), 0x5634);
    cpu.jp(&mut emulator, JumpCond::Always, Reg16::BC);
    assert_eq!(cpu.regs.pc, 0x5634);
    assert!(cpu.cond_met(JumpCond::NotZero));
    assert!(!cpu.cond_met(JumpCond::Carry));
    assert_eq!(emulator.cycles, 1 + 2 + 1 + 1 + 2 + 3 + 2 + 1);
}

#[test]
fn fetch_and_memory_helpers() {
    let (mut cpu, mut emulator) = boot(&[0x11, 0x22, 0x33]);
    assert_eq!(cpu.fetch(&mut emulator), 0x11);
    assert_eq!(cpu.fetch_word(&mut emulator), 0x3322);
    assert_eq!(cpu.regs.pc, 3);
    cpu.write_word(&mut emulator, 0xC000, 0xBEEF);
    assert_eq!(cpu.read_byte(&mut emulator, 0xC000), 0xEF);
    assert_eq!(cpu.read_byte(&mut emulator, 0xC001), 0xBE);
    assert_eq!(cpu.read_word(&mut emulator, 0xC000), 0xBEEF);
    cpu.write_byte(&mut emulator, 0xC002, 0x01);
    assert_eq!(emulator.cycles, 3 + 2 + 2 + 2 + 1);
    cpu.opcode = 0x3C;
    assert_eq!(cpu.decode(&mut emulator), Ok(()));
    assert_eq!(cpu.regs.a, 1);
    cpu.opcode = 0x37;
    cpu.prefixed_decode(&mut emulator);
    assert_eq!(cpu.regs.a, 0x10);
}
