use mobulator::cpu::{Cpu, Status};
use mobulator::instruction::{Instruction, PrefixedInstruction};
use mobulator::memory::{InterruptByte, InterruptType, Memory};
use mobulator::registers::R8;
use mobulator::utils::{high_u8, low_u8, set_high, set_low};
use mobulator::CpuError;

#[test]
fn ld_bc_imm16_scenario() {
    // LD BC, imm16 with little-endian operand bytes, three cycles.
    let mut cpu = Cpu::default();
    cpu.memory.load_instructions(&[0x01, 0x3C, 0xBC]);

    let status = cpu.run_next_instruction().expect("LD BC, imm16 runs");

    assert_eq!(status, Status::Cycles(3));
    assert_eq!(cpu.registers.bc, 0xBC3C);
    assert_eq!(cpu.registers.pc, 3);
}

#[test]
fn inc_b_half_carry_scenario() {
    // INC B across the nibble boundary sets H and clears N.
    let mut cpu = Cpu::default();
    cpu.memory.load_instructions(&[0x04]);
    cpu.set_r8(R8::B, 0b0000_1111);

    cpu.run_next_instruction().expect("INC B runs");

    assert_eq!(cpu.get_r8(R8::B).unwrap(), 0b0001_0000);
    assert_eq!(cpu.registers.h_flg(), true);
    assert_eq!(cpu.registers.n_flg(), false);
}

#[test]
fn daa_scenario() {
    // DAA after an add that left BCD-invalid nibbles: A = 0x9C corrects
    // to 0x02 with carry set.
    let mut cpu = Cpu::default();
    cpu.memory.load_instructions(&[0x27]);
    cpu.registers.set_a(0x9C);

    cpu.run_next_instruction().expect("DAA runs");

    assert_eq!(cpu.registers.a(), 0x02);
    assert_eq!(cpu.registers.c_flg(), true);
}

#[test]
fn stack_push_pop_roundtrip_scenario() {
    // CALL pushes the return address 0x1234; RET pops it back, and SP
    // returns to 0xFFFE.
    let mut cpu = Cpu::default();
    cpu.registers.sp = 0xFFFE;
    cpu.registers.pc = 0x1231;
    cpu.memory.set_byte(0x1231, 0xCD); // call 0x2000
    cpu.memory.set_byte(0x1232, 0x00);
    cpu.memory.set_byte(0x1233, 0x20);
    cpu.memory.set_byte(0x2000, 0xC9); // ret

    cpu.run_next_instruction().expect("CALL runs");
    assert_eq!(cpu.registers.pc, 0x2000);
    assert_eq!(cpu.registers.sp, 0xFFFC);

    cpu.run_next_instruction().expect("RET runs");
    assert_eq!(cpu.registers.pc, 0x1234);
    assert_eq!(cpu.registers.sp, 0xFFFE);
}

#[test]
fn every_address_is_valid() {
    // The full 16-bit address space reads and writes without error.
    let mut mem = Memory::default();
    for addr in 0..=0xFFFFu16 {
        assert_eq!(mem.get_byte(addr), Ok(0));
    }
    for addr in 0..=0xFFFFu16 {
        mem.set_byte(addr, (addr % 251) as u8);
    }
    for addr in 0..=0xFFFFu16 {
        assert_eq!(mem.get_byte(addr), Ok((addr % 251) as u8));
    }
}

#[test]
fn unassigned_opcodes_are_decode_errors() {
    for byte in [
        0x10u8, 0xD3, 0xDB, 0xDD, 0xE3, 0xE4, 0xEB, 0xEC, 0xED, 0xF4, 0xFC, 0xFD,
    ] {
        let mut cpu = Cpu::default();
        cpu.memory.load_instructions(&[byte]);
        assert_eq!(
            cpu.run_next_instruction(),
            Err(CpuError::Decode { byte })
        );
        assert_eq!(cpu.registers.pc, 1);
    }
    assert!(Instruction::decode(0xD3).is_err());
    assert!(Instruction::decode(0x40).is_ok());
}

#[test]
fn halt_reports_break() {
    let mut cpu = Cpu::default();
    cpu.memory.load_instructions(&[0x76]);
    assert_eq!(cpu.run_next_instruction(), Ok(Status::Break));
    assert_eq!(cpu.registers.pc, 1);
}

#[test]
fn conditional_cycle_differential() {
    // The same JR NZ opcode costs 3 cycles taken, 2 not taken.
    let mut cpu = Cpu::default();
    cpu.memory.load_instructions(&[0x20, 5]);
    assert_eq!(cpu.run_next_instruction(), Ok(Status::Cycles(3)));
    assert_eq!(cpu.registers.pc, 7);

    let mut cpu = Cpu::default();
    cpu.memory.load_instructions(&[0x20, 5]);
    cpu.registers.set_z_flg(true);
    assert_eq!(cpu.run_next_instruction(), Ok(Status::Cycles(2)));
    assert_eq!(cpu.registers.pc, 2);

    // CALL NC: 6 cycles taken, 3 not taken.
    let mut cpu = Cpu::default();
    cpu.registers.sp = 0xFFFE;
    cpu.memory.load_instructions(&[0xD4, 0x00, 0x10]);
    assert_eq!(cpu.run_next_instruction(), Ok(Status::Cycles(6)));

    let mut cpu = Cpu::default();
    cpu.registers.sp = 0xFFFE;
    cpu.memory.load_instructions(&[0xD4, 0x00, 0x10]);
    cpu.registers.set_c_flg(true);
    assert_eq!(cpu.run_next_instruction(), Ok(Status::Cycles(3)));

    // RET Z: 5 cycles taken, 2 not taken.
    let mut cpu = Cpu::default();
    cpu.registers.sp = 0xFFFC;
    cpu.memory.load_instructions(&[0xC8]);
    cpu.registers.set_z_flg(true);
    assert_eq!(cpu.run_next_instruction(), Ok(Status::Cycles(5)));

    let mut cpu = Cpu::default();
    cpu.registers.sp = 0xFFFC;
    cpu.memory.load_instructions(&[0xC8]);
    assert_eq!(cpu.run_next_instruction(), Ok(Status::Cycles(2)));

    // JP C: 4 cycles taken, 3 not taken.
    let mut cpu = Cpu::default();
    cpu.memory.load_instructions(&[0xDA, 0x00, 0x10]);
    cpu.registers.set_c_flg(true);
    assert_eq!(cpu.run_next_instruction(), Ok(Status::Cycles(4)));

    let mut cpu = Cpu::default();
    cpu.memory.load_instructions(&[0xDA, 0x00, 0x10]);
    assert_eq!(cpu.run_next_instruction(), Ok(Status::Cycles(3)));
}

#[test]
fn sixteen_bit_wraparound() {
    // INC BC at 0xFFFF wraps to 0x0000; DEC BC at 0x0000 wraps back.
    let mut cpu = Cpu::default();
    cpu.memory.load_instructions(&[0x03]);
    cpu.registers.bc = 0xFFFF;
    cpu.run_next_instruction().expect("INC BC runs");
    assert_eq!(cpu.registers.bc, 0x0000);

    let mut cpu = Cpu::default();
    cpu.memory.load_instructions(&[0x0B]);
    cpu.registers.bc = 0x0000;
    cpu.run_next_instruction().expect("DEC BC runs");
    assert_eq!(cpu.registers.bc, 0xFFFF);
}

#[test]
fn hl_auto_index_wraps() {
    // LD A, [HL+] at 0xFFFF leaves HL wrapped to 0x0000; the mirror for
    // HL- at 0x0000.
    let mut cpu = Cpu::default();
    cpu.memory.load_instructions(&[0x2A]);
    cpu.registers.hl = 0xFFFF;
    cpu.memory.set_byte(0xFFFF, 0x5A);
    cpu.run_next_instruction().expect("LD A, [HL+] runs");
    assert_eq!(cpu.registers.a(), 0x5A);
    assert_eq!(cpu.registers.hl, 0x0000);

    let mut cpu = Cpu::default();
    cpu.memory.load_instructions(&[0x3A]);
    cpu.registers.hl = 0x0000;
    cpu.run_next_instruction().expect("LD A, [HL-] runs");
    assert_eq!(cpu.registers.hl, 0xFFFF);
}

#[test]
fn relative_jump_wraps_backwards() {
    // JR with a negative displacement from the bottom of the space wraps.
    let mut cpu = Cpu::default();
    cpu.memory.load_instructions(&[0x18, 0xFC]);
    cpu.run_next_instruction().expect("JR runs");
    assert_eq!(cpu.registers.pc, 0xFFFE);
}

#[test]
fn pop_af_masks_flag_nibble() {
    // POP AF forces the low four bits of F to zero whatever was stored.
    let mut cpu = Cpu::default();
    cpu.registers.sp = 0xFFF0;
    cpu.memory.set_byte(0xFFF0, 0xFF);
    cpu.memory.set_byte(0xFFF1, 0x12);
    cpu.memory.load_instructions(&[0xF1]);
    cpu.run_next_instruction().expect("POP AF runs");
    assert_eq!(cpu.registers.af, 0x12F0);
    assert_eq!(cpu.registers.flags(), 0xF0);
    assert_eq!(cpu.registers.sp, 0xFFF2);
}

#[test]
fn push_pop_r16stk_roundtrip() {
    let mut cpu = Cpu::default();
    cpu.registers.sp = 0xFFFE;
    cpu.registers.bc = 0xBEEF;
    cpu.memory.load_instructions(&[0xC5, 0xD1]); // push bc; pop de
    cpu.run_num_instructions(2).expect("push/pop run");
    assert_eq!(cpu.registers.de, 0xBEEF);
    assert_eq!(cpu.registers.sp, 0xFFFE);
}

#[test]
fn rst_pushes_and_jumps_to_vector() {
    let mut cpu = Cpu::default();
    cpu.registers.sp = 0xFFFE;
    cpu.registers.pc = 0x0200;
    cpu.memory.set_byte(0x0200, 0xFF); // rst 0x38
    assert_eq!(cpu.run_next_instruction(), Ok(Status::Cycles(4)));
    assert_eq!(cpu.registers.pc, 0x38);
    assert_eq!(cpu.registers.sp, 0xFFFC);
    assert_eq!(cpu.memory.get_byte(0xFFFC), Ok(0x01));
    assert_eq!(cpu.memory.get_byte(0xFFFD), Ok(0x02));
}

#[test]
fn ldh_high_page_loads() {
    // LDH [imm8], A writes the high page; LDH A, [C] reads it back.
    let mut cpu = Cpu::default();
    cpu.registers.set_a(0x77);
    cpu.memory.load_instructions(&[0xE0, 0x47]);
    assert_eq!(cpu.run_next_instruction(), Ok(Status::Cycles(3)));
    assert_eq!(cpu.memory.get_byte(0xFF47), Ok(0x77));

    let mut cpu = Cpu::default();
    cpu.memory.set_byte(0xFF12, 0x3D);
    cpu.registers.bc = 0x0012;
    cpu.memory.load_instructions(&[0xF2]);
    assert_eq!(cpu.run_next_instruction(), Ok(Status::Cycles(2)));
    assert_eq!(cpu.registers.a(), 0x3D);
}

#[test]
fn ld_absolute_roundtrip() {
    let mut cpu = Cpu::default();
    cpu.registers.set_a(0xA5);
    cpu.memory.load_instructions(&[0xEA, 0x34, 0xC2, 0xFA, 0x34, 0xC2]);
    cpu.run_next_instruction().expect("LD [imm16], A runs");
    assert_eq!(cpu.memory.get_byte(0xC234), Ok(0xA5));
    cpu.registers.set_a(0x00);
    cpu.run_next_instruction().expect("LD A, [imm16] runs");
    assert_eq!(cpu.registers.a(), 0xA5);
}

#[test]
fn add_sp_imm8_low_byte_flags() {
    // ADD SP, imm8 computes H and C from the low byte of SP only.
    let mut cpu = Cpu::default();
    cpu.registers.sp = 0xFFF8;
    cpu.memory.load_instructions(&[0xE8, 0x08]);
    assert_eq!(cpu.run_next_instruction(), Ok(Status::Cycles(4)));
    assert_eq!(cpu.registers.sp, 0x0000);
    assert_eq!(cpu.registers.z_flg(), false);
    assert_eq!(cpu.registers.n_flg(), false);
    assert_eq!(cpu.registers.h_flg(), true);
    assert_eq!(cpu.registers.c_flg(), true);
}

#[test]
fn ld_hl_sp_imm8_flags() {
    let mut cpu = Cpu::default();
    cpu.registers.sp = 0x00FF;
    cpu.memory.load_instructions(&[0xF8, 0x01]);
    assert_eq!(cpu.run_next_instruction(), Ok(Status::Cycles(3)));
    assert_eq!(cpu.registers.hl, 0x0100);
    assert_eq!(cpu.registers.sp, 0x00FF);
    assert_eq!(cpu.registers.h_flg(), true);
    assert_eq!(cpu.registers.c_flg(), true);
}

#[test]
fn prefixed_swap_and_rotates() {
    // SWAP A
    let mut cpu = Cpu::default();
    cpu.registers.set_a(0xAB);
    cpu.memory.load_instructions(&[0xCB, 0x37]);
    assert_eq!(cpu.run_next_instruction(), Ok(Status::Cycles(2)));
    assert_eq!(cpu.registers.a(), 0xBA);
    assert_eq!(cpu.registers.z_flg(), false);
    assert_eq!(cpu.registers.c_flg(), false);

    // RLC B sets carry from the bit rotated around, and Z from the result
    let mut cpu = Cpu::default();
    cpu.set_r8(R8::B, 0x85);
    cpu.memory.load_instructions(&[0xCB, 0x00]);
    assert_eq!(cpu.run_next_instruction(), Ok(Status::Cycles(2)));
    assert_eq!(cpu.get_r8(R8::B).unwrap(), 0x0B);
    assert_eq!(cpu.registers.c_flg(), true);

    // SRL A of 0x01 leaves zero with carry out
    let mut cpu = Cpu::default();
    cpu.registers.set_a(0x01);
    cpu.memory.load_instructions(&[0xCB, 0x3F]);
    assert_eq!(cpu.run_next_instruction(), Ok(Status::Cycles(2)));
    assert_eq!(cpu.registers.a(), 0x00);
    assert_eq!(cpu.registers.z_flg(), true);
    assert_eq!(cpu.registers.c_flg(), true);

    // RR C rotates the old carry in
    let mut cpu = Cpu::default();
    cpu.set_r8(R8::C, 0x02);
    cpu.registers.set_c_flg(true);
    cpu.memory.load_instructions(&[0xCB, 0x19]);
    assert_eq!(cpu.run_next_instruction(), Ok(Status::Cycles(2)));
    assert_eq!(cpu.get_r8(R8::C).unwrap(), 0x81);
    assert_eq!(cpu.registers.c_flg(), false);

    // SRA D keeps the sign bit
    let mut cpu = Cpu::default();
    cpu.set_r8(R8::D, 0x81);
    cpu.memory.load_instructions(&[0xCB, 0x2A]);
    assert_eq!(cpu.run_next_instruction(), Ok(Status::Cycles(2)));
    assert_eq!(cpu.get_r8(R8::D).unwrap(), 0xC0);
    assert_eq!(cpu.registers.c_flg(), true);
}

#[test]
fn prefixed_bit_res_set() {
    // BIT 7, H: Z reports the complement of the tested bit; H=1, N=0.
    let mut cpu = Cpu::default();
    cpu.set_r8(R8::H, 0x80);
    cpu.memory.load_instructions(&[0xCB, 0x7C]);
    assert_eq!(cpu.run_next_instruction(), Ok(Status::Cycles(2)));
    assert_eq!(cpu.registers.z_flg(), false);
    assert_eq!(cpu.registers.n_flg(), false);
    assert_eq!(cpu.registers.h_flg(), true);

    let mut cpu = Cpu::default();
    cpu.set_r8(R8::H, 0x7F);
    cpu.memory.load_instructions(&[0xCB, 0x7C]);
    cpu.run_next_instruction().expect("BIT runs");
    assert_eq!(cpu.registers.z_flg(), true);

    // RES 0, A clears the bit without touching flags
    let mut cpu = Cpu::default();
    cpu.registers.set_a(0xFF);
    cpu.memory.load_instructions(&[0xCB, 0x87]);
    assert_eq!(cpu.run_next_instruction(), Ok(Status::Cycles(2)));
    assert_eq!(cpu.registers.a(), 0xFE);

    // SET 3, [HL] works through memory and costs four cycles
    let mut cpu = Cpu::default();
    cpu.registers.hl = 0xC123;
    cpu.memory.load_instructions(&[0xCB, 0xDE]);
    assert_eq!(cpu.run_next_instruction(), Ok(Status::Cycles(4)));
    assert_eq!(cpu.memory.get_byte(0xC123), Ok(0x08));
}

#[test]
fn cycle_tables() {
    assert_eq!(Instruction::decode(0x00).unwrap().cycles(), 1);
    assert_eq!(Instruction::decode(0x01).unwrap().cycles(), 3);
    assert_eq!(Instruction::decode(0x08).unwrap().cycles(), 5);
    assert_eq!(Instruction::decode(0x34).unwrap().cycles(), 3); // inc [hl]
    assert_eq!(Instruction::decode(0x04).unwrap().cycles(), 1); // inc b
    assert_eq!(Instruction::decode(0xCD).unwrap().cycles(), 6);
    assert_eq!(Instruction::decode(0xC9).unwrap().cycles(), 4);
    assert_eq!(Instruction::decode(0x86).unwrap().cycles(), 2); // add a, [hl]
    assert_eq!(PrefixedInstruction::decode(0x06).cycles(), 4); // rlc [hl]
    assert_eq!(PrefixedInstruction::decode(0x00).cycles(), 2); // rlc b
    assert_eq!(PrefixedInstruction::decode(0x46).cycles(), 3); // bit 0, [hl]
    assert_eq!(PrefixedInstruction::decode(0xC6).cycles(), 4); // set 0, [hl]
}

#[test]
fn flag_nibble_stays_zero() {
    // After any instruction the low four bits of F read zero.
    let mut cpu = Cpu::default();
    cpu.registers.af = 0xAB30;
    cpu.registers.bc = 0x01FF;
    cpu.registers.sp = 0xFFFE;
    cpu.memory.load_instructions(&[0x80, 0x27, 0x09, 0xC5, 0xF1, 0x17]);
    for _ in 0..6 {
        cpu.run_next_instruction().expect("instruction runs");
        assert_eq!(cpu.registers.flags() & 0x0F, 0);
    }
}

#[test]
fn di_ei_leave_state_untouched() {
    let mut cpu = Cpu::default();
    cpu.registers.af = 0x1230;
    cpu.memory.load_instructions(&[0xF3, 0xFB]);
    assert_eq!(cpu.run_next_instruction(), Ok(Status::Cycles(1)));
    assert_eq!(cpu.run_next_instruction(), Ok(Status::Cycles(1)));
    assert_eq!(cpu.registers.af, 0x1230);
    assert_eq!(cpu.registers.pc, 2);
}

#[test]
fn run_num_instructions_steps_in_sequence() {
    let mut cpu = Cpu::default();
    cpu.memory.load_instructions(&[0x00, 0x00, 0x00]);
    cpu.run_num_instructions(3).expect("three NOPs run");
    assert_eq!(cpu.registers.pc, 3);
}

#[test]
fn interrupt_priority_and_clearing() {
    // The lowest set bit of IE & IF wins, and only its IF bit is cleared.
    let mut mem = Memory::default();
    mem.set_byte(0xFFFF, 0b0000_0101);
    mem.set_byte(0xFF0F, 0b0000_0110);
    assert_eq!(mem.interrupt_to_run(), Ok(Some(InterruptType::Timer)));
    assert_eq!(mem.get_byte(0xFF0F), Ok(0b0000_0010));

    // Nothing pending.
    let mut mem = Memory::default();
    mem.set_byte(0xFFFF, 0b0001_1111);
    assert_eq!(mem.interrupt_to_run(), Ok(None));

    // A pending bit above the defined interrupts is an invalid encoding.
    let mut mem = Memory::default();
    mem.set_byte(0xFFFF, 0b0010_0000);
    mem.set_byte(0xFF0F, 0b0010_0000);
    assert_eq!(mem.interrupt_to_run(), Err(CpuError::Decode { byte: 32 }));
}

#[test]
fn interrupt_byte_flags() {
    let mut b = InterruptByte(0);
    b.set_flag(InterruptType::Serial, true);
    assert_eq!(b.0, 0b0000_1000);
    assert_eq!(b.get_flag(InterruptType::Serial), true);
    assert_eq!(b.get_flag(InterruptType::VBlank), false);
    b.set_flag(InterruptType::Serial, false);
    assert_eq!(b.0, 0);
}

#[test]
fn interrupt_type_vectors() {
    assert_eq!(InterruptType::VBlank.bit(), 0);
    assert_eq!(InterruptType::VBlank.addr(), 0x40);
    assert_eq!(InterruptType::LCD.addr(), 0x48);
    assert_eq!(InterruptType::Timer.addr(), 0x50);
    assert_eq!(InterruptType::Serial.addr(), 0x56);
    assert_eq!(InterruptType::Joypad.bit(), 4);
    assert_eq!(InterruptType::Joypad.addr(), 0x60);
    assert_eq!(InterruptType::from_u8(8), Ok(InterruptType::Serial));
    assert_eq!(
        InterruptType::from_u8(3),
        Err(CpuError::Decode { byte: 3 })
    );
}

#[test]
fn register_packing_roundtrip_values() {
    // Splitting a word into bytes and storing them back reassembles it.
    for v in [0x0000u16, 0x1234, 0xABCD, 0xFFFF, 0x00FF, 0xFF00] {
        let pair = 0x5A5Au16;
        assert_eq!(set_low(set_high(pair, high_u8(v)), low_u8(v)), v);
    }
}

#[test]
fn cp_discards_result() {
    let mut cpu = Cpu::default();
    cpu.registers.set_a(0x3C);
    cpu.memory.load_instructions(&[0xFE, 0x3C]); // cp a, 0x3C
    assert_eq!(cpu.run_next_instruction(), Ok(Status::Cycles(2)));
    assert_eq!(cpu.registers.a(), 0x3C);
    assert_eq!(cpu.registers.z_flg(), true);
    assert_eq!(cpu.registers.n_flg(), true);

    let mut cpu = Cpu::default();
    cpu.registers.set_a(0x10);
    cpu.memory.load_instructions(&[0xFE, 0x20]); // cp a, 0x20 borrows
    cpu.run_next_instruction().expect("CP runs");
    assert_eq!(cpu.registers.c_flg(), true);
    assert_eq!(cpu.registers.z_flg(), false);
}

#[test]
fn immediate_alu_forms() {
    // ADC A, imm8 with carry-in
    let mut cpu = Cpu::default();
    cpu.registers.set_a(0xFF);
    cpu.registers.set_c_flg(true);
    cpu.memory.load_instructions(&[0xCE, 0x00]); // adc a, 0
    cpu.run_next_instruction().expect("ADC runs");
    assert_eq!(cpu.registers.a(), 0x00);
    assert_eq!(cpu.registers.z_flg(), true);
    assert_eq!(cpu.registers.c_flg(), true);
    assert_eq!(cpu.registers.h_flg(), true);

    // SBC A, imm8 with borrow-in
    let mut cpu = Cpu::default();
    cpu.registers.set_a(0x10);
    cpu.registers.set_c_flg(true);
    cpu.memory.load_instructions(&[0xDE, 0x0F]); // sbc a, 0x0F
    cpu.run_next_instruction().expect("SBC runs");
    assert_eq!(cpu.registers.a(), 0x00);
    assert_eq!(cpu.registers.z_flg(), true);

    // AND sets H; OR and XOR clear it
    let mut cpu = Cpu::default();
    cpu.registers.set_a(0xF0);
    cpu.memory.load_instructions(&[0xE6, 0x0F]); // and a, 0x0F
    cpu.run_next_instruction().expect("AND runs");
    assert_eq!(cpu.registers.a(), 0x00);
    assert_eq!(cpu.registers.z_flg(), true);
    assert_eq!(cpu.registers.h_flg(), true);
    assert_eq!(cpu.registers.c_flg(), false);

    let mut cpu = Cpu::default();
    cpu.registers.set_a(0xF0);
    cpu.memory.load_instructions(&[0xF6, 0x0F]); // or a, 0x0F
    cpu.run_next_instruction().expect("OR runs");
    assert_eq!(cpu.registers.a(), 0xFF);
    assert_eq!(cpu.registers.h_flg(), false);

    let mut cpu = Cpu::default();
    cpu.registers.set_a(0xFF);
    cpu.memory.load_instructions(&[0xEE, 0xFF]); // xor a, 0xFF
    cpu.run_next_instruction().expect("XOR runs");
    assert_eq!(cpu.registers.a(), 0x00);
    assert_eq!(cpu.registers.z_flg(), true);
}

#[test]
fn jp_hl_and_ld_sp_hl() {
    let mut cpu = Cpu::default();
    cpu.registers.hl = 0x4321;
    cpu.memory.load_instructions(&[0xE9]);
    assert_eq!(cpu.run_next_instruction(), Ok(Status::Cycles(1)));
    assert_eq!(cpu.registers.pc, 0x4321);

    let mut cpu = Cpu::default();
    cpu.registers.hl = 0x8765;
    cpu.memory.load_instructions(&[0xF9]);
    assert_eq!(cpu.run_next_instruction(), Ok(Status::Cycles(2)));
    assert_eq!(cpu.registers.sp, 0x8765);
}

#[test]
fn get_u16_little_endian() {
    let mut mem = Memory::default();
    mem.set_u16(0xC000, 0xBEEF);
    assert_eq!(mem.get_byte(0xC000), Ok(0xEF));
    assert_eq!(mem.get_byte(0xC001), Ok(0xBE));
    assert_eq!(mem.get_u16(0xC000), 0xBEEF);
}

#[test]
fn run_num_instructions_stops_on_error() {
    let mut cpu = Cpu::default();
    cpu.memory.load_instructions(&[0x00, 0xD3, 0x00]);
    assert_eq!(
        cpu.run_num_instructions(3),
        Err(CpuError::Decode { byte: 0xD3 })
    );
    assert_eq!(cpu.registers.pc, 2);
}
