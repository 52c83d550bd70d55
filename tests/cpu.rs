use nes_emu::cpu::alu::{ALUOperation, ALU};
use nes_emu::cpu::instruction::{AddressingMode, IndexMode, Instruction, TargetRegister};
use nes_emu::cpu::state::{CPUState, CycleMode};
use nes_emu::cpu::status::StatusRegister;
use nes_emu::nes::NES;

/// An NROM image with 32 KiB of PRG: `program` at 0x8000, reset vector 0x8000.
fn rom_with(program: &[u8], extra: &[(u16, &[u8])]) -> Vec<u8> {
    let mut image = vec![0x4E, 0x45, 0x53, 0x1A, 2, 1, 0, 0, 0, 0, 0, 0, 0, 0, 0, 0];
    let mut prg = vec![0xEAu8; 0x8000];
    prg[..program.len()].copy_from_slice(program);
    for (address, bytes) in extra {
        let start = (*address - 0x8000) as usize;
        prg[start..start + bytes.len()].copy_from_slice(bytes);
    }
    prg[0x7FFC] = 0x00;
    prg[0x7FFD] = 0x80;
    image.extend_from_slice(&prg);
    image.extend_from_slice(&vec![0u8; 0x2000]);
    image
}

/// Runs the console for `n` CPU cycles (12 master cycles each).
fn run_cpu_cycles(nes: &mut NES, n: usize) {
    for _ in 0..n * 12 {
        nes.tick();
    }
}

/// The number of CPU cycles until the CPU is at the next instruction boundary.
fn cycles_of_next_instruction(nes: &mut NES) -> usize {
    run_cpu_cycles(nes, 1);
    let mut n = 1;
    while !nes.cpu.at_instruction_boundary() {
        run_cpu_cycles(nes, 1);
        n += 1;
        assert!(n < 20);
    }
    n
}

#[test]
fn lda_sta_program_stores_after_six_cycles() {
    let image = rom_with(&[0xA9, 0x42, 0x8D, 0x00, 0x02, 0x00], &[]);
    let mut nes = NES::from_ines(&image).unwrap();
    assert_eq!(nes.cpu.registers.program_counter, 0x8000);
    run_cpu_cycles(&mut nes, 5);
    assert_eq!(nes.bus.ram[0x0200], 0x00);
    run_cpu_cycles(&mut nes, 1);
    assert_eq!(nes.bus.ram[0x0200], 0x42);
}

#[test]
fn adc_immediate_sets_negative_and_overflow() {
    let image = rom_with(&[0x69, 0x50, 0xEA, 0xEA], &[]);
    let mut nes = NES::from_ines(&image).unwrap();
    nes.cpu.registers.status = StatusRegister(0x24);
    nes.cpu.registers.a = 0x50;
    run_cpu_cycles(&mut nes, 4);
    let status = &nes.cpu.registers.status;
    assert_eq!(nes.cpu.registers.a, 0xA0);
    assert!(status.get_negative());
    assert!(status.get_overflow());
    assert!(!status.get_zero());
    assert!(!status.get_carry());
}

#[test]
fn alu_commits_in_two_steps() {
    let mut alu = ALU::new();
    let mut status = StatusRegister::new();
    alu.set(0x50, 0x50, ALUOperation::ADC);
    assert_eq!(alu.get_output(&mut status), None);
    assert_eq!(status.get(), 0x34);
    assert_eq!(alu.get_output(&mut status), Some(0xA0));
    assert!(status.get_overflow() && status.get_negative() && !status.get_carry());
    assert_eq!(alu.get_output(&mut status), None);
}

#[test]
fn alu_overflow_follows_the_sign_rule() {
    for &(a, b, carry) in &[(0x50u8, 0x10u8, false), (0x7F, 0x01, false), (0x80, 0xFF, false), (0xD0, 0x90, true), (0x01, 0x01, true)] {
        for &op in &[ALUOperation::ADC, ALUOperation::SBC] {
            let mut alu = ALU::new();
            let mut status = StatusRegister::new();
            status.set_carry(carry);
            alu.set(a, b, op);
            alu.get_output(&mut status);
            let r = alu.get_output(&mut status).unwrap();
            let b_eff = if op == ALUOperation::SBC { !b } else { b };
            let sum = a as u16 + b_eff as u16 + carry as u16;
            assert_eq!(r, sum as u8);
            let expected = (a ^ r) & (b_eff ^ r) & 0x80 != 0;
            assert_eq!(status.get_overflow(), expected);
            assert_eq!(status.get_carry(), sum > 0xFF);
        }
    }
}

#[test]
fn sbc_subtracts_with_borrow() {
    let mut alu = ALU::new();
    let mut status = StatusRegister::new();
    status.set_carry(true);
    alu.set(0x50, 0xF0, ALUOperation::SBC);
    alu.get_output(&mut status);
    assert_eq!(alu.get_output(&mut status), Some(0x60));
    assert!(!status.get_carry());
    assert!(!status.get_overflow());
}

#[test]
fn compare_sets_flags_without_result() {
    let mut alu = ALU::new();
    let mut status = StatusRegister::new();
    alu.set(0x40, 0x40, ALUOperation::CMP);
    assert_eq!(alu.get_output(&mut status), None);
    assert_eq!(alu.get_output(&mut status), None);
    assert!(status.get_zero() && status.get_carry() && !status.get_negative());
}

#[test]
fn bit_sets_flags_at_once() {
    let mut alu = ALU::new();
    let mut status = StatusRegister::new();
    alu.set(0x01, 0xC0, ALUOperation::BIT);
    assert_eq!(alu.get_output(&mut status), None);
    assert!(status.get_negative() && status.get_overflow() && status.get_zero());
}

#[test]
fn shifts_and_rotates() {
    let cases = [
        (ALUOperation::ASL, 0x81u8, false, 0x02u8, true),
        (ALUOperation::ROL, 0x81, true, 0x03, true),
        (ALUOperation::LSR, 0x81, false, 0x40, true),
        (ALUOperation::ROR, 0x02, true, 0x81, false),
        (ALUOperation::INC, 0xFF, false, 0x00, false),
        (ALUOperation::DEC, 0x00, false, 0xFF, false),
    ];
    for &(op, b, carry, expected, carry_out) in &cases {
        let mut alu = ALU::new();
        let mut status = StatusRegister::new();
        status.set_carry(carry);
        alu.set(0, b, op);
        alu.get_output(&mut status);
        assert_eq!(alu.get_output(&mut status), Some(expected));
        assert_eq!(status.get_carry(), if matches!(op, ALUOperation::INC | ALUOperation::DEC) { carry } else { carry_out });
    }
}

#[test]
fn status_register_keeps_bits_four_and_five() {
    let mut status = StatusRegister::new();
    assert_eq!(status.get(), 0x34);
    status.set(0x00);
    assert_eq!(status.get(), 0x30);
    assert_eq!(status.get_b_clear(), 0x20);
    status.set_carry(true);
    status.set_zero(true);
    status.set_decimal(true);
    assert_eq!(status.get(), 0x3B);
    status.set_interrupt(true);
    status.set_negative(true);
    status.set_overflow(true);
    assert_eq!(status.get(), 0xFF);
    status.set_carry(false);
    assert_eq!(status.get(), 0xFE);
}

#[test]
fn decode_addressing_modes() {
    assert_eq!(Instruction::new(0xA9).get_addressing_mode(), AddressingMode::Immediate);
    assert_eq!(Instruction::new(0xA5).get_addressing_mode(), AddressingMode::ZeroPage);
    assert_eq!(Instruction::new(0xB6).get_addressing_mode(), AddressingMode::ZeroPageIndexed(IndexMode::Y));
    assert_eq!(Instruction::new(0xBE).get_addressing_mode(), AddressingMode::AbsoluteIndexed(IndexMode::Y));
    assert_eq!(Instruction::new(0xBD).get_addressing_mode(), AddressingMode::AbsoluteIndexed(IndexMode::X));
    assert_eq!(Instruction::new(0xA1).get_addressing_mode(), AddressingMode::Indirect(IndexMode::X));
    assert_eq!(Instruction::new(0xB1).get_addressing_mode(), AddressingMode::Indirect(IndexMode::Y));
    assert_eq!(Instruction::new(0xD0).get_addressing_mode(), AddressingMode::Branch);
    assert_eq!(Instruction::new(0xEA).get_addressing_mode(), AddressingMode::Implied);
    assert_eq!(Instruction::new(0xA0).get_addressing_mode(), AddressingMode::Immediate);
    assert_eq!(Instruction::new(0x20).get_addressing_mode(), AddressingMode::Absolute);
}

#[test]
fn decode_operators_and_registers() {
    assert_eq!(Instruction::new(0x69).get_alu_operation(), Some(ALUOperation::ADC));
    assert_eq!(Instruction::new(0xE9).get_alu_operation(), Some(ALUOperation::SBC));
    assert_eq!(Instruction::new(0xC9).get_alu_operation(), Some(ALUOperation::CMP));
    assert_eq!(Instruction::new(0xE0).get_alu_operation(), Some(ALUOperation::CMP));
    assert_eq!(Instruction::new(0x24).get_alu_operation(), Some(ALUOperation::BIT));
    assert_eq!(Instruction::new(0x0A).get_alu_operation(), Some(ALUOperation::ASL));
    assert_eq!(Instruction::new(0xE6).get_alu_operation(), Some(ALUOperation::INC));
    assert_eq!(Instruction::new(0xA9).get_alu_operation(), Some(ALUOperation::LOAD));
    assert_eq!(Instruction::new(0xA2).get_output(), TargetRegister::X);
    assert_eq!(Instruction::new(0xA0).get_output(), TargetRegister::Y);
    assert_eq!(Instruction::new(0x9A).get_output(), TargetRegister::SP);
    assert_eq!(Instruction::new(0xE0).get_input(), TargetRegister::X);
    assert_eq!(Instruction::new(0x08).get_input(), TargetRegister::SR);
    assert!(Instruction::new(0xAD).is_read() && !Instruction::new(0xAD).is_write());
    assert!(!Instruction::new(0x8D).is_read() && Instruction::new(0x8D).is_write());
    assert!(Instruction::new(0xEE).is_read() && Instruction::new(0xEE).is_write());
}

#[test]
fn branch_conditions() {
    let status = StatusRegister(0x30 | 0x02);
    assert!(Instruction::new(0xF0).branch(&status));
    assert!(!Instruction::new(0xD0).branch(&status));
    assert!(Instruction::new(0x10).branch(&status));
    assert!(!Instruction::new(0x30).branch(&status));
    assert!(Instruction::new(0x90).branch(&status));
    assert!(Instruction::new(0x50).branch(&status));
}

#[test]
fn cycle_modes_of_states() {
    assert_eq!(CPUState::FetchInstruction.get_mode(), CycleMode::Fetch);
    assert_eq!(CPUState::Read.get_mode(), CycleMode::Read);
    assert_eq!(CPUState::Write.get_mode(), CycleMode::Write);
    assert_eq!(CPUState::PullRegister(0, TargetRegister::A).get_mode(), CycleMode::Pop);
    assert_eq!(CPUState::PullRegister(1, TargetRegister::A).get_mode(), CycleMode::Peak);
    assert_eq!(CPUState::PushRegister(TargetRegister::A).get_mode(), CycleMode::Push);
}

#[test]
fn documented_cycle_counts() {
    // LDA #, LDA zp, LDA abs, LDA abs,X (no cross), LDA abs,X (cross), STA abs,X,
    // INC zp, JSR, PHA, PLA, LDA (zp),Y, LDA (zp,X), NOP
    let program = [
        0xA9, 0x01, // 2
        0xA5, 0x10, // 3
        0xAD, 0x00, 0x03, // 4
        0xA2, 0x01, // 2
        0xBD, 0x00, 0x03, // 4
        0xA2, 0xFF, // 2
        0xBD, 0x01, 0x03, // 5 (page crossed)
        0x9D, 0x00, 0x03, // 5
        0xE6, 0x10, // 5
        0x48, // 3
        0x68, // 4
        0xA1, 0x20, // 6
        0xB1, 0x20, // 5
        0x20, 0x00, 0x90, // 6
    ];
    let expected = [2, 3, 4, 2, 4, 2, 5, 5, 5, 3, 4, 6, 5, 6, 6, 2];
    let image = rom_with(&program, &[(0x9000, &[0x60])]);
    let mut nes = NES::from_ines(&image).unwrap();
    for (i, &cycles) in expected.iter().enumerate() {
        assert_eq!(cycles_of_next_instruction(&mut nes), cycles, "instruction {}", i);
    }
}

#[test]
fn brk_takes_seven_cycles_and_pushes_state() {
    let image = rom_with(&[0x00, 0xEA], &[(0x9000, &[0xEA]), (0xFFFE, &[0x00, 0x90])]);
    let mut nes = NES::from_ines(&image).unwrap();
    let sp = nes.cpu.registers.stack_pointer;
    assert_eq!(cycles_of_next_instruction(&mut nes), 7);
    assert_eq!(nes.cpu.registers.program_counter, 0x9000);
    assert_eq!(nes.cpu.registers.stack_pointer, sp.wrapping_sub(3));
    assert_eq!(nes.bus.ram[0x0100 + sp as usize], 0x80);
    assert_eq!(nes.bus.ram[0x0100 + sp as usize - 1], 0x02);
    assert_eq!(nes.bus.ram[0x0100 + sp as usize - 2] & 0x10, 0x10);
    assert!(nes.cpu.registers.status.get_interrupt());
}

#[test]
fn branch_costs_one_more_per_page_crossed() {
    // BNE not taken (Z set by LDA #0), BEQ taken same page, BEQ taken across a page.
    let image = rom_with(&[0xA9, 0x00, 0xD0, 0x10, 0xF0, 0x00, 0xF0, 0x7F], &[(0x8087, &[0xF0, 0x7F])]);
    let mut nes = NES::from_ines(&image).unwrap();
    assert_eq!(cycles_of_next_instruction(&mut nes), 2);
    assert_eq!(cycles_of_next_instruction(&mut nes), 2);
    assert_eq!(cycles_of_next_instruction(&mut nes), 3);
    assert_eq!(nes.cpu.registers.program_counter, 0x8006);
    assert_eq!(cycles_of_next_instruction(&mut nes), 3);
    assert_eq!(nes.cpu.registers.program_counter, 0x8087);
    assert_eq!(cycles_of_next_instruction(&mut nes), 4);
    assert_eq!(nes.cpu.registers.program_counter, 0x8108);
}

#[test]
fn backward_branch_across_a_page() {
    let image = rom_with(&[0x4C, 0x02, 0x81], &[(0x8102, &[0xA9, 0x00, 0xF0, 0xF0])]);
    let mut nes = NES::from_ines(&image).unwrap();
    assert_eq!(cycles_of_next_instruction(&mut nes), 3);
    assert_eq!(cycles_of_next_instruction(&mut nes), 2);
    assert_eq!(cycles_of_next_instruction(&mut nes), 4);
    assert_eq!(nes.cpu.registers.program_counter, 0x80F6);
}

#[test]
fn push_then_pull_restores_value_and_stack_pointer() {
    let image = rom_with(&[0xA9, 0x5A, 0x48, 0xA9, 0x00, 0x68, 0xEA, 0xEA], &[]);
    let mut nes = NES::from_ines(&image).unwrap();
    let sp = nes.cpu.registers.stack_pointer;
    cycles_of_next_instruction(&mut nes);
    cycles_of_next_instruction(&mut nes);
    assert_eq!(nes.cpu.registers.stack_pointer, sp.wrapping_sub(1));
    assert_eq!(nes.bus.ram[0x0100 + sp as usize], 0x5A);
    cycles_of_next_instruction(&mut nes);
    cycles_of_next_instruction(&mut nes);
    cycles_of_next_instruction(&mut nes);
    assert_eq!(nes.cpu.registers.a, 0x5A);
    assert_eq!(nes.cpu.registers.stack_pointer, sp);
}

#[test]
fn jsr_and_rts_return_after_the_call() {
    let image = rom_with(&[0x20, 0x00, 0x90, 0xA9, 0x07, 0xEA], &[(0x9000, &[0x60])]);
    let mut nes = NES::from_ines(&image).unwrap();
    cycles_of_next_instruction(&mut nes);
    assert_eq!(nes.cpu.registers.program_counter, 0x9000);
    cycles_of_next_instruction(&mut nes);
    assert_eq!(nes.cpu.registers.program_counter, 0x8003);
    cycles_of_next_instruction(&mut nes);
    cycles_of_next_instruction(&mut nes);
    assert_eq!(nes.cpu.registers.a, 0x07);
}

#[test]
fn nmi_enters_the_handler_at_the_next_boundary() {
    let image = rom_with(&[0xEA, 0xEA, 0xEA], &[(0x9000, &[0xEA]), (0xFFFA, &[0x00, 0x90])]);
    let mut nes = NES::from_ines(&image).unwrap();
    nes.cpu.send_nmi();
    assert_eq!(cycles_of_next_instruction(&mut nes), 7);
    assert_eq!(nes.cpu.registers.program_counter, 0x9000);
    assert!(!nes.cpu.nmi);
}

#[test]
fn stack_pointer_wraps_within_the_stack_page() {
    // LDX #$00; TXS; LDA #$33; PHA: the push lands at 0x0100 and SP wraps to 0xFF.
    let image = rom_with(&[0xA2, 0x00, 0x9A, 0xA9, 0x33, 0x48, 0xEA, 0xEA], &[]);
    let mut nes = NES::from_ines(&image).unwrap();
    for _ in 0..4 {
        cycles_of_next_instruction(&mut nes);
    }
    assert_eq!(nes.bus.ram[0x0100], 0x33);
    assert_eq!(nes.cpu.registers.stack_pointer, 0xFF);
    assert!(nes.cpu.registers.program_counter >= 0x8000);
}

#[test]
fn tsx_copies_the_stack_pointer() {
    let image = rom_with(&[0xBA, 0xEA, 0xEA], &[]);
    let mut nes = NES::from_ines(&image).unwrap();
    cycles_of_next_instruction(&mut nes);
    cycles_of_next_instruction(&mut nes);
    assert_eq!(nes.cpu.registers.x, 0xFD);
}
