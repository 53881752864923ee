use vstd::prelude::*;

verus! {

use crate::CpuError;
use crate::instruction::{
    Instruction, PrefixedInstruction, spec_decode, spec_decode_prefixed,
};
use crate::memory::Memory;
use crate::registers::{
    Cond, R8, R16, R16Mem, R16Stk, Registers, c_of, cond_holds, h_of, mask_flag_nibble, n_of,
    with_flags, z_of,
};
use crate::utils::{
    high_byte, low_byte, spec_set_high, to_word, wrap_add16, wrap_dec, wrap_inc, half_carry_add_u8,
    half_carry_sub_u8, half_carry_add_u16, low_u8,
};
use vstd::arithmetic::power2::{pow2, lemma_pow2_pos};
use vstd::arithmetic::div_mod::{lemma_add_mod_noop, lemma_add_mod_noop_right,
    lemma_mod_multiples_vanish};

/// What one executed instruction reports: a machine-cycle count, the halted
/// state, or that a 0xCB prefix byte was consumed and the next byte belongs
/// to the extended opcode table.
#[derive(Clone, Copy, Debug, PartialEq, Eq, Structural)]
pub enum Status {
    Cycles(u8),
    Break,
    Prefix,
}

/// The execution engine: it exclusively owns the register file and the
/// memory for the duration of each instruction.
#[derive(Clone, Debug)]
pub struct Cpu {
    pub registers: Registers,
    pub memory: Memory,
}

/// The value of the 8-bit operand selected by an r8 operand; the `HL`
/// selector means the byte in memory at address HL.
pub open spec fn r8_val(r: Registers, m: Seq<u8>, reg: R8) -> u8 {
    match reg {
        R8::B => high_byte(r.bc),
        R8::C => low_byte(r.bc),
        R8::D => high_byte(r.de),
        R8::E => low_byte(r.de),
        R8::H => high_byte(r.hl),
        R8::L => low_byte(r.hl),
        R8::HL => m[r.hl as int],
        R8::A => high_byte(r.af),
    }
}

/// The register file and memory after storing `val` through an r8
/// operand; the `HL` selector writes memory at address HL.
pub open spec fn set_r8_spec(r: Registers, m: Seq<u8>, reg: R8, val: u8) -> (Registers, Seq<u8>) {
    match reg {
        R8::B => ((Registers { bc: spec_set_high(r.bc, val), ..r }), m),
        R8::C => ((Registers { bc: crate::utils::spec_set_low(r.bc, val), ..r }), m),
        R8::D => ((Registers { de: spec_set_high(r.de, val), ..r }), m),
        R8::E => ((Registers { de: crate::utils::spec_set_low(r.de, val), ..r }), m),
        R8::H => ((Registers { hl: spec_set_high(r.hl, val), ..r }), m),
        R8::L => ((Registers { hl: crate::utils::spec_set_low(r.hl, val), ..r }), m),
        R8::HL => (r, m.update(r.hl as int, val)),
        R8::A => ((Registers { af: spec_set_high(r.af, val), ..r }), m),
    }
}

pub open spec fn set_r16_spec(r: Registers, reg: R16, val: u16) -> Registers {
    match reg {
        R16::BC => (Registers { bc: val, ..r }),
        R16::DE => (Registers { de: val, ..r }),
        R16::HL => (Registers { hl: val, ..r }),
        R16::SP => (Registers { sp: val, ..r }),
    }
}

pub open spec fn r16stk_val(r: Registers, reg: R16Stk) -> u16 {
    match reg {
        R16Stk::BC => r.bc,
        R16Stk::DE => r.de,
        R16Stk::HL => r.hl,
        R16Stk::AF => r.af,
    }
}

pub open spec fn set_r16stk_spec(r: Registers, reg: R16Stk, val: u16) -> Registers {
    match reg {
        R16Stk::BC => (Registers { bc: val, ..r }),
        R16Stk::DE => (Registers { de: val, ..r }),
        R16Stk::HL => (Registers { hl: val, ..r }),
        R16Stk::AF => (Registers { af: mask_flag_nibble(val), ..r }),
    }
}

/// The address an r16mem operand reads; HL+ and HL- read HL itself.
pub open spec fn r16mem_val(r: Registers, reg: R16Mem) -> u16 {
    match reg {
        R16Mem::BC => r.bc,
        R16Mem::DE => r.de,
        R16Mem::HLI => r.hl,
        R16Mem::HLD => r.hl,
    }
}

/// The register file after the auto-index side effect of an r16mem access:
/// HL+ increments and HL- decrements HL, wrapping modulo 2^16.
pub open spec fn r16mem_post(r: Registers, reg: R16Mem) -> Registers {
    match reg {
        R16Mem::BC => r,
        R16Mem::DE => r,
        R16Mem::HLI => (Registers { hl: wrap_add16(r.hl, 1), ..r }),
        R16Mem::HLD => (Registers { hl: wrap_add16(r.hl, -1), ..r }),
    }
}

/// A 16-bit value read little-endian at `addr`, wrapping at the top of
/// the address space.
pub open spec fn load16(m: Seq<u8>, addr: u16) -> u16 {
    to_word(m[wrap_add16(addr, 1) as int], m[addr as int])
}

/// Memory after a little-endian 16-bit store at `addr`, wrapping at the
/// top of the address space.
pub open spec fn store16(m: Seq<u8>, addr: u16, val: u16) -> Seq<u8> {
    m.update(addr as int, low_byte(val)).update(wrap_add16(addr, 1) as int, high_byte(val))
}

/// The target of a relative jump: the displacement byte is two's-complement
/// signed, and the addition wraps modulo 2^16.
pub open spec fn rel_target(pc: u16, d: u8) -> u16 {
    wrap_add16(pc, if d < 128 {
        d as int
    } else {
        d - 256
    })
}

/// Whether bit `b` of `v` is set.
pub open spec fn bit8(v: u8, b: u8) -> bool {
    (v as int / pow2(b as nat) as int) % 2 == 1
}

/// The full transition of one base-table instruction `i`: `r0` and `m0`
/// are the register file and memory after the opcode byte was fetched (PC
/// already past it), `r1` and `m1` the state after execution, and `st`
/// what the instruction reports. Every register, every memory cell, every
/// flag bit and the cycle count (including the taken/not-taken
/// differential of conditional branches) are pinned exactly.
pub open spec fn step8(
    r0: Registers,
    m0: Seq<u8>,
    i: Instruction,
    r1: Registers,
    m1: Seq<u8>,
    st: Status,
) -> bool {
    match i {
        Instruction::Nop => r1 == r0 && m1 == m0 && st == Status::Cycles(1u8),
        Instruction::Halt => r1 == r0 && m1 == m0 && st == Status::Break,
        Instruction::Di => r1 == r0 && m1 == m0 && st == Status::Cycles(1u8),
        Instruction::Ei => r1 == r0 && m1 == m0 && st == Status::Cycles(1u8),
        Instruction::Prefix => r1 == r0 && m1 == m0 && st == Status::Prefix,
        Instruction::LdR16Imm16 { reg } => {
            let v = load16(m0, r0.pc);
            &&& r1 == set_r16_spec((Registers { pc: wrap_add16(r0.pc, 2), ..r0 }), reg, v)
            &&& m1 == m0
            &&& st == Status::Cycles(3u8)
        },
        Instruction::LdR16memA { reg } => {
            let addr = r16mem_val(r0, reg);
            &&& r1 == r16mem_post(r0, reg)
            &&& m1 == m0.update(addr as int, high_byte(r0.af))
            &&& st == Status::Cycles(2u8)
        },
        Instruction::LdAR16mem { reg } => {
            let addr = r16mem_val(r0, reg);
            let rm = r16mem_post(r0, reg);
            &&& r1 == (Registers { af: spec_set_high(r0.af, m0[addr as int]), ..rm })
            &&& m1 == m0
            &&& st == Status::Cycles(2u8)
        },
        Instruction::LdImm16Sp => {
            let addr = load16(m0, r0.pc);
            &&& r1 == (Registers { pc: wrap_add16(r0.pc, 2), ..r0 })
            &&& m1 == store16(m0, addr, r0.sp)
            &&& st == Status::Cycles(5u8)
        },
        Instruction::IncR16 { reg } => {
            &&& r1 == set_r16_spec(r0, reg, wrap_add16(crate::registers::spec_r16(r0, reg), 1))
            &&& m1 == m0
            &&& st == Status::Cycles(2u8)
        },
        Instruction::DecR16 { reg } => {
            &&& r1 == set_r16_spec(r0, reg, wrap_add16(crate::registers::spec_r16(r0, reg), -1))
            &&& m1 == m0
            &&& st == Status::Cycles(2u8)
        },
        Instruction::AddHlR16 { reg } => {
            let v = crate::registers::spec_r16(r0, reg);
            let sum = r0.hl + v;
            &&& r1 == (Registers {
                hl: ((sum % 65536) as u16),
                af: with_flags(r0.af, z_of(r0.af), false, v % 4096 + r0.hl % 4096 > 4095, sum
                    > 65535),
                ..r0
            })
            &&& m1 == m0
            &&& st == Status::Cycles(2u8)
        },
        Instruction::IncR8 { reg } => {
            let v = r8_val(r0, m0, reg);
            let res = ((v + 1) % 256) as u8;
            let pair = set_r8_spec(r0, m0, reg, res);
            &&& r1 == (Registers {
                af: with_flags(pair.0.af, res == 0, false, v % 16 + 1 > 15, c_of(r0.af)),
                ..pair.0
            })
            &&& m1 == pair.1
            &&& st == Status::Cycles(if reg == R8::HL {
                3u8
            } else {
                1u8
            })
        },
        Instruction::DecR8 { reg } => {
            let v = r8_val(r0, m0, reg);
            let res = ((v + 255) % 256) as u8;
            let pair = set_r8_spec(r0, m0, reg, res);
            &&& r1 == (Registers {
                af: with_flags(pair.0.af, res == 0, true, (v % 16) < 1, c_of(r0.af)),
                ..pair.0
            })
            &&& m1 == pair.1
            &&& st == Status::Cycles(if reg == R8::HL {
                3u8
            } else {
                1u8
            })
        },
        Instruction::LdR8Imm8 { reg } => {
            let d = m0[r0.pc as int];
            let rmid = (Registers { pc: wrap_add16(r0.pc, 1), ..r0 });
            let pair = set_r8_spec(rmid, m0, reg, d);
            &&& r1 == pair.0
            &&& m1 == pair.1
            &&& st == Status::Cycles(if reg == R8::HL {
                3u8
            } else {
                2u8
            })
        },
        Instruction::Rlca => {
            let a = high_byte(r0.af);
            let res = ((a % 128) * 2 + a / 128) as u8;
            &&& r1 == (Registers {
                af: with_flags(spec_set_high(r0.af, res), false, false, false, res % 2 == 1),
                ..r0
            })
            &&& m1 == m0
            &&& st == Status::Cycles(1u8)
        },
        Instruction::Rrca => {
            let a = high_byte(r0.af);
            let res = ((a / 2) + (a % 2) * 128) as u8;
            &&& r1 == (Registers {
                af: with_flags(spec_set_high(r0.af, res), false, false, false, a % 2 == 1),
                ..r0
            })
            &&& m1 == m0
            &&& st == Status::Cycles(1u8)
        },
        Instruction::Rla => {
            let a = high_byte(r0.af);
            let res = ((a % 128) * 2 + (if c_of(r0.af) {
                1int
            } else {
                0int
            })) as u8;
            &&& r1 == (Registers {
                af: with_flags(spec_set_high(r0.af, res), false, false, false, a / 128 == 1),
                ..r0
            })
            &&& m1 == m0
            &&& st == Status::Cycles(1u8)
        },
        Instruction::Rra => {
            let a = high_byte(r0.af);
            let res = ((a / 2) + (if c_of(r0.af) {
                128int
            } else {
                0int
            })) as u8;
            &&& r1 == (Registers {
                af: with_flags(spec_set_high(r0.af, res), false, false, false, a % 2 == 1),
                ..r0
            })
            &&& m1 == m0
            &&& st == Status::Cycles(1u8)
        },
        Instruction::Daa => {
            let a = high_byte(r0.af);
            let sub = n_of(r0.af);
            let low_adj = (!sub && a % 16 > 9) || h_of(r0.af);
            let high_adj = (!sub && a > 0x99) || c_of(r0.af);
            let off = (if low_adj {
                6int
            } else {
                0int
            }) + (if high_adj {
                0x60int
            } else {
                0int
            });
            let res = (if sub {
                ((a - off) % 256) as u8
            } else {
                ((a + off) % 256) as u8
            });
            &&& r1 == (Registers {
                af: with_flags(spec_set_high(r0.af, res), res == 0, sub, false, high_adj),
                ..r0
            })
            &&& m1 == m0
            &&& st == Status::Cycles(1u8)
        },
        Instruction::Cpl => {
            let res = (255 - high_byte(r0.af)) as u8;
            &&& r1 == (Registers {
                af: with_flags(spec_set_high(r0.af, res), z_of(r0.af), true, true, c_of(r0.af)),
                ..r0
            })
            &&& m1 == m0
            &&& st == Status::Cycles(1u8)
        },
        Instruction::Scf => {
            &&& r1 == (Registers { af: with_flags(r0.af, z_of(r0.af), false, false, true), ..r0 })
            &&& m1 == m0
            &&& st == Status::Cycles(1u8)
        },
        Instruction::Ccf => {
            &&& r1 == (Registers {
                af: with_flags(r0.af, z_of(r0.af), false, false, !c_of(r0.af)),
                ..r0
            })
            &&& m1 == m0
            &&& st == Status::Cycles(1u8)
        },
        Instruction::JrImm8 => {
            let d = m0[r0.pc as int];
            &&& r1 == (Registers { pc: rel_target(wrap_add16(r0.pc, 1), d), ..r0 })
            &&& m1 == m0
            &&& st == Status::Cycles(3u8)
        },
        Instruction::JrCondImm8 { cond } => {
            let d = m0[r0.pc as int];
            let taken = cond_holds(r0.af, cond);
            &&& r1 == (Registers {
                pc: if taken {
                    rel_target(wrap_add16(r0.pc, 1), d)
                } else {
                    wrap_add16(r0.pc, 1)
                },
                ..r0
            })
            &&& m1 == m0
            &&& st == Status::Cycles(if taken {
                3u8
            } else {
                2u8
            })
        },
        Instruction::LdR8R8 { src, dst } => {
            let v = r8_val(r0, m0, src);
            let pair = set_r8_spec(r0, m0, dst, v);
            &&& if src == dst {
                r1 == r0 && m1 == m0
            } else {
                r1 == pair.0 && m1 == pair.1
            }
            &&& st == Status::Cycles(if src == R8::HL || dst == R8::HL {
                2u8
            } else {
                1u8
            })
        },
        Instruction::AddAR8 { reg, carry } => {
            let v = r8_val(r0, m0, reg);
            let a = high_byte(r0.af);
            let cin: int = if carry && c_of(r0.af) {
                1
            } else {
                0
            };
            let sum = a + v + cin;
            &&& r1 == (Registers {
                af: with_flags(spec_set_high(r0.af, ((sum % 256) as u8)), sum % 256 == 0, false, v
                    % 16 + a % 16 + cin > 15, sum > 255),
                ..r0
            })
            &&& m1 == m0
            &&& st == Status::Cycles(if reg == R8::HL {
                2u8
            } else {
                1u8
            })
        },
        Instruction::SubAR8 { reg, carry } => {
            let v = r8_val(r0, m0, reg);
            let a = high_byte(r0.af);
            let cin: int = if carry && c_of(r0.af) {
                1
            } else {
                0
            };
            let res = (a - v - cin) % 256;
            &&& r1 == (Registers {
                af: with_flags(spec_set_high(r0.af, (res as u8)), res == 0, true, (a % 16) < v % 16
                    + cin, a < v + cin),
                ..r0
            })
            &&& m1 == m0
            &&& st == Status::Cycles(if reg == R8::HL {
                2u8
            } else {
                1u8
            })
        },
        Instruction::AndAR8 { reg } => {
            let v = r8_val(r0, m0, reg);
            let res = high_byte(r0.af) & v;
            &&& r1 == (Registers {
                af: with_flags(spec_set_high(r0.af, res), res == 0, false, true, false),
                ..r0
            })
            &&& m1 == m0
            &&& st == Status::Cycles(if reg == R8::HL {
                2u8
            } else {
                1u8
            })
        },
        Instruction::XorAR8 { reg } => {
            let v = r8_val(r0, m0, reg);
            let res = high_byte(r0.af) ^ v;
            &&& r1 == (Registers {
                af: with_flags(spec_set_high(r0.af, res), res == 0, false, false, false),
                ..r0
            })
            &&& m1 == m0
            &&& st == Status::Cycles(if reg == R8::HL {
                2u8
            } else {
                1u8
            })
        },
        Instruction::OrAR8 { reg } => {
            let v = r8_val(r0, m0, reg);
            let res = high_byte(r0.af) | v;
            &&& r1 == (Registers {
                af: with_flags(spec_set_high(r0.af, res), res == 0, false, false, false),
                ..r0
            })
            &&& m1 == m0
            &&& st == Status::Cycles(if reg == R8::HL {
                2u8
            } else {
                1u8
            })
        },
        Instruction::CpAR8 { reg } => {
            let v = r8_val(r0, m0, reg);
            let a = high_byte(r0.af);
            &&& r1 == (Registers {
                af: with_flags(r0.af, v == a, true, (a % 16) < v % 16, a < v),
                ..r0
            })
            &&& m1 == m0
            &&& st == Status::Cycles(if reg == R8::HL {
                2u8
            } else {
                1u8
            })
        },
        Instruction::AddAImm8 { carry } => {
            let v = m0[r0.pc as int];
            let a = high_byte(r0.af);
            let cin: int = if carry && c_of(r0.af) {
                1
            } else {
                0
            };
            let sum = a + v + cin;
            &&& r1 == (Registers {
                af: with_flags(spec_set_high(r0.af, ((sum % 256) as u8)), sum % 256 == 0, false, v
                    % 16 + a % 16 + cin > 15, sum > 255),
                pc: wrap_add16(r0.pc, 1),
                ..r0
            })
            &&& m1 == m0
            &&& st == Status::Cycles(2u8)
        },
        Instruction::SubAImm8 { carry } => {
            let v = m0[r0.pc as int];
            let a = high_byte(r0.af);
            let cin: int = if carry && c_of(r0.af) {
                1
            } else {
                0
            };
            let res = (a - v - cin) % 256;
            &&& r1 == (Registers {
                af: with_flags(spec_set_high(r0.af, (res as u8)), res == 0, true, (a % 16) < v % 16
                    + cin, a < v + cin),
                pc: wrap_add16(r0.pc, 1),
                ..r0
            })
            &&& m1 == m0
            &&& st == Status::Cycles(2u8)
        },
        Instruction::AndAImm8 => {
            let v = m0[r0.pc as int];
            let res = high_byte(r0.af) & v;
            &&& r1 == (Registers {
                af: with_flags(spec_set_high(r0.af, res), res == 0, false, true, false),
                pc: wrap_add16(r0.pc, 1),
                ..r0
            })
            &&& m1 == m0
            &&& st == Status::Cycles(2u8)
        },
        Instruction::XorAImm8 => {
            let v = m0[r0.pc as int];
            let res = high_byte(r0.af) ^ v;
            &&& r1 == (Registers {
                af: with_flags(spec_set_high(r0.af, res), res == 0, false, false, false),
                pc: wrap_add16(r0.pc, 1),
                ..r0
            })
            &&& m1 == m0
            &&& st == Status::Cycles(2u8)
        },
        Instruction::OrAImm8 => {
            let v = m0[r0.pc as int];
            let res = high_byte(r0.af) | v;
            &&& r1 == (Registers {
                af: with_flags(spec_set_high(r0.af, res), res == 0, false, false, false),
                pc: wrap_add16(r0.pc, 1),
                ..r0
            })
            &&& m1 == m0
            &&& st == Status::Cycles(2u8)
        },
        Instruction::CpAImm8 => {
            let v = m0[r0.pc as int];
            let a = high_byte(r0.af);
            &&& r1 == (Registers {
                af: with_flags(r0.af, v == a, true, (a % 16) < v % 16, a < v),
                pc: wrap_add16(r0.pc, 1),
                ..r0
            })
            &&& m1 == m0
            &&& st == Status::Cycles(2u8)
        },
        Instruction::RetCond { cond } => {
            let taken = cond_holds(r0.af, cond);
            &&& if taken {
                r1 == (Registers { pc: load16(m0, r0.sp), sp: wrap_add16(r0.sp, 2), ..r0 })
            } else {
                r1 == r0
            }
            &&& m1 == m0
            &&& st == Status::Cycles(if taken {
                5u8
            } else {
                2u8
            })
        },
        Instruction::Ret => {
            &&& r1 == (Registers { pc: load16(m0, r0.sp), sp: wrap_add16(r0.sp, 2), ..r0 })
            &&& m1 == m0
            &&& st == Status::Cycles(4u8)
        },
        Instruction::Reti => {
            &&& r1 == (Registers { pc: load16(m0, r0.sp), sp: wrap_add16(r0.sp, 2), ..r0 })
            &&& m1 == m0
            &&& st == Status::Cycles(4u8)
        },
        Instruction::JpCondImm16 { cond } => {
            let target = load16(m0, r0.pc);
            let taken = cond_holds(r0.af, cond);
            &&& r1 == (Registers {
                pc: if taken {
                    target
                } else {
                    wrap_add16(r0.pc, 2)
                },
                ..r0
            })
            &&& m1 == m0
            &&& st == Status::Cycles(if taken {
                4u8
            } else {
                3u8
            })
        },
        Instruction::JpImm16 => {
            &&& r1 == (Registers { pc: load16(m0, r0.pc), ..r0 })
            &&& m1 == m0
            &&& st == Status::Cycles(4u8)
        },
        Instruction::JpHl => {
            &&& r1 == (Registers { pc: r0.hl, ..r0 })
            &&& m1 == m0
            &&& st == Status::Cycles(1u8)
        },
        Instruction::CallCondImm16 { cond } => {
            let target = load16(m0, r0.pc);
            let ret = wrap_add16(r0.pc, 2);
            let sp_new = wrap_add16(r0.sp, -2);
            let taken = cond_holds(r0.af, cond);
            &&& if taken {
                r1 == (Registers { pc: target, sp: sp_new, ..r0 }) && m1 == store16(m0, sp_new, ret)
            } else {
                r1 == (Registers { pc: ret, ..r0 }) && m1 == m0
            }
            &&& st == Status::Cycles(if taken {
                6u8
            } else {
                3u8
            })
        },
        Instruction::CallImm16 => {
            let target = load16(m0, r0.pc);
            let ret = wrap_add16(r0.pc, 2);
            let sp_new = wrap_add16(r0.sp, -2);
            &&& r1 == (Registers { pc: target, sp: sp_new, ..r0 })
            &&& m1 == store16(m0, sp_new, ret)
            &&& st == Status::Cycles(6u8)
        },
        Instruction::RstTgt3 { tgt3 } => {
            let sp_new = wrap_add16(r0.sp, -2);
            &&& r1 == (Registers { pc: ((tgt3 * 8) as u16), sp: sp_new, ..r0 })
            &&& m1 == store16(m0, sp_new, r0.pc)
            &&& st == Status::Cycles(4u8)
        },
        Instruction::PopR16stk { reg } => {
            let v = load16(m0, r0.sp);
            &&& r1 == set_r16stk_spec((Registers { sp: wrap_add16(r0.sp, 2), ..r0 }), reg, v)
            &&& m1 == m0
            &&& st == Status::Cycles(3u8)
        },
        Instruction::PushR16stk { reg } => {
            let sp_new = wrap_add16(r0.sp, -2);
            &&& r1 == (Registers { sp: sp_new, ..r0 })
            &&& m1 == store16(m0, sp_new, r16stk_val(r0, reg))
            &&& st == Status::Cycles(4u8)
        },
        Instruction::LdhCA => {
            &&& r1 == r0
            &&& m1 == m0.update(0xFF00 + low_byte(r0.bc) as int, high_byte(r0.af))
            &&& st == Status::Cycles(2u8)
        },
        Instruction::LdhImm8A => {
            let d = m0[r0.pc as int];
            &&& r1 == (Registers { pc: wrap_add16(r0.pc, 1), ..r0 })
            &&& m1 == m0.update(0xFF00 + d as int, high_byte(r0.af))
            &&& st == Status::Cycles(3u8)
        },
        Instruction::LdImm16A => {
            let addr = load16(m0, r0.pc);
            &&& r1 == (Registers { pc: wrap_add16(r0.pc, 2), ..r0 })
            &&& m1 == m0.update(addr as int, high_byte(r0.af))
            &&& st == Status::Cycles(4u8)
        },
        Instruction::LdhAC => {
            &&& r1 == (Registers {
                af: spec_set_high(r0.af, m0[0xFF00 + low_byte(r0.bc) as int]),
                ..r0
            })
            &&& m1 == m0
            &&& st == Status::Cycles(2u8)
        },
        Instruction::LdhAImm8 => {
            let d = m0[r0.pc as int];
            &&& r1 == (Registers {
                af: spec_set_high(r0.af, m0[0xFF00 + d as int]),
                pc: wrap_add16(r0.pc, 1),
                ..r0
            })
            &&& m1 == m0
            &&& st == Status::Cycles(3u8)
        },
        Instruction::LdAImm16 => {
            let addr = load16(m0, r0.pc);
            &&& r1 == (Registers {
                af: spec_set_high(r0.af, m0[addr as int]),
                pc: wrap_add16(r0.pc, 2),
                ..r0
            })
            &&& m1 == m0
            &&& st == Status::Cycles(4u8)
        },
        Instruction::AddSpImm8 => {
            let d = m0[r0.pc as int];
            &&& r1 == (Registers {
                sp: rel_target(r0.sp, d),
                af: with_flags(r0.af, false, false, low_byte(r0.sp) % 16 + d % 16 > 15, low_byte(
                    r0.sp,
                ) + d > 255),
                pc: wrap_add16(r0.pc, 1),
                ..r0
            })
            &&& m1 == m0
            &&& st == Status::Cycles(4u8)
        },
        Instruction::LdHlSpImm8 => {
            let d = m0[r0.pc as int];
            &&& r1 == (Registers {
                hl: rel_target(r0.sp, d),
                af: with_flags(r0.af, false, false, low_byte(r0.sp) % 16 + d % 16 > 15, low_byte(
                    r0.sp,
                ) + d > 255),
                pc: wrap_add16(r0.pc, 1),
                ..r0
            })
            &&& m1 == m0
            &&& st == Status::Cycles(3u8)
        },
        Instruction::LdSpHl => {
            &&& r1 == (Registers { sp: r0.hl, ..r0 })
            &&& m1 == m0
            &&& st == Status::Cycles(2u8)
        },
    }
}

/// The full transition of one extended-table instruction `i` (the byte
/// after a 0xCB prefix): `r0` and `m0` are the state after that byte was
/// fetched, `r1` and `m1` the state after execution.
pub open spec fn step16(
    r0: Registers,
    m0: Seq<u8>,
    i: PrefixedInstruction,
    r1: Registers,
    m1: Seq<u8>,
    st: Status,
) -> bool {
    match i {
        PrefixedInstruction::RlcR8 { reg } => {
            let v = r8_val(r0, m0, reg);
            let res = (((v % 128) * 2 + v / 128)) as u8;
            let pair = set_r8_spec(r0, m0, reg, res);
            &&& r1 == (Registers {
                af: with_flags(pair.0.af, res == 0, false, false, res % 2 == 1),
                ..pair.0
            })
            &&& m1 == pair.1
            &&& st == Status::Cycles(if reg == R8::HL {
                4u8
            } else {
                2u8
            })
        },
        PrefixedInstruction::RrcR8 { reg } => {
            let v = r8_val(r0, m0, reg);
            let res = ((v / 2 + (v % 2) * 128)) as u8;
            let pair = set_r8_spec(r0, m0, reg, res);
            &&& r1 == (Registers {
                af: with_flags(pair.0.af, res == 0, false, false, v % 2 == 1),
                ..pair.0
            })
            &&& m1 == pair.1
            &&& st == Status::Cycles(if reg == R8::HL {
                4u8
            } else {
                2u8
            })
        },
        PrefixedInstruction::RlR8 { reg } => {
            let v = r8_val(r0, m0, reg);
            let res = (((v % 128) * 2 + (if c_of(r0.af) {
                1int
            } else {
                0int
            }))) as u8;
            let pair = set_r8_spec(r0, m0, reg, res);
            &&& r1 == (Registers {
                af: with_flags(pair.0.af, res == 0, false, false, v / 128 == 1),
                ..pair.0
            })
            &&& m1 == pair.1
            &&& st == Status::Cycles(if reg == R8::HL {
                4u8
            } else {
                2u8
            })
        },
        PrefixedInstruction::RrR8 { reg } => {
            let v = r8_val(r0, m0, reg);
            let res = ((v / 2 + (if c_of(r0.af) {
                128int
            } else {
                0int
            }))) as u8;
            let pair = set_r8_spec(r0, m0, reg, res);
            &&& r1 == (Registers {
                af: with_flags(pair.0.af, res == 0, false, false, v % 2 == 1),
                ..pair.0
            })
            &&& m1 == pair.1
            &&& st == Status::Cycles(if reg == R8::HL {
                4u8
            } else {
                2u8
            })
        },
        PrefixedInstruction::SlaR8 { reg } => {
            let v = r8_val(r0, m0, reg);
            let res = (((v % 128) * 2)) as u8;
            let pair = set_r8_spec(r0, m0, reg, res);
            &&& r1 == (Registers {
                af: with_flags(pair.0.af, res == 0, false, false, v / 128 == 1),
                ..pair.0
            })
            &&& m1 == pair.1
            &&& st == Status::Cycles(if reg == R8::HL {
                4u8
            } else {
                2u8
            })
        },
        PrefixedInstruction::SraR8 { reg } => {
            let v = r8_val(r0, m0, reg);
            let res = ((v / 2 + (v / 128) * 128)) as u8;
            let pair = set_r8_spec(r0, m0, reg, res);
            &&& r1 == (Registers {
                af: with_flags(pair.0.af, res == 0, false, false, v % 2 == 1),
                ..pair.0
            })
            &&& m1 == pair.1
            &&& st == Status::Cycles(if reg == R8::HL {
                4u8
            } else {
                2u8
            })
        },
        PrefixedInstruction::SwapR8 { reg } => {
            let v = r8_val(r0, m0, reg);
            let res = (((v % 16) * 16 + v / 16)) as u8;
            let pair = set_r8_spec(r0, m0, reg, res);
            &&& r1 == (Registers {
                af: with_flags(pair.0.af, res == 0, false, false, false),
                ..pair.0
            })
            &&& m1 == pair.1
            &&& st == Status::Cycles(if reg == R8::HL {
                4u8
            } else {
                2u8
            })
        },
        PrefixedInstruction::SrlR8 { reg } => {
            let v = r8_val(r0, m0, reg);
            let res = ((v / 2)) as u8;
            let pair = set_r8_spec(r0, m0, reg, res);
            &&& r1 == (Registers {
                af: with_flags(pair.0.af, res == 0, false, false, v % 2 == 1),
                ..pair.0
            })
            &&& m1 == pair.1
            &&& st == Status::Cycles(if reg == R8::HL {
                4u8
            } else {
                2u8
            })
        },
        PrefixedInstruction::BitB3R8 { bit, reg } => {
            let v = r8_val(r0, m0, reg);
            &&& r1 == (Registers {
                af: with_flags(r0.af, !bit8(v, bit), false, true, c_of(r0.af)),
                ..r0
            })
            &&& m1 == m0
            &&& st == Status::Cycles(if reg == R8::HL {
                3u8
            } else {
                2u8
            })
        },
        PrefixedInstruction::ResB3R8 { bit, reg } => {
            let v = r8_val(r0, m0, reg);
            let res = (crate::utils::spec_set_bit(v as int, pow2(bit as nat) as int, false)) as u8;
            let pair = set_r8_spec(r0, m0, reg, res);
            &&& r1 == pair.0
            &&& m1 == pair.1
            &&& st == Status::Cycles(if reg == R8::HL {
                4u8
            } else {
                2u8
            })
        },
        PrefixedInstruction::SetB3R8 { bit, reg } => {
            let v = r8_val(r0, m0, reg);
            let res = (crate::utils::spec_set_bit(v as int, pow2(bit as nat) as int, true)) as u8;
            let pair = set_r8_spec(r0, m0, reg, res);
            &&& r1 == pair.0
            &&& m1 == pair.1
            &&& st == Status::Cycles(if reg == R8::HL {
                4u8
            } else {
                2u8
            })
        },
    }
}

/// The full transition of one call of `run_next_instruction`, from the
/// state still pointing at the opcode byte: an unassigned opcode is the
/// decode error carrying that byte, a 0xCB byte executes the following
/// byte against the extended table, and every other byte executes against
/// the base table.
pub open spec fn full_step(
    r0: Registers,
    m0: Seq<u8>,
    r1: Registers,
    m1: Seq<u8>,
    r: Result<Status, CpuError>,
) -> bool {
    let b = m0[r0.pc as int];
    let rf = (Registers { pc: wrap_add16(r0.pc, 1), ..r0 });
    match spec_decode(b) {
        None => r == Err::<Status, CpuError>(CpuError::Decode { byte: b }) && r1 == rf && m1 == m0,
        Some(Instruction::Prefix) => {
            let b2 = m0[rf.pc as int];
            let rf2 = (Registers { pc: wrap_add16(rf.pc, 1), ..rf });
            match r {
                Ok(st) => step16(rf2, m0, spec_decode_prefixed(b2), r1, m1, st),
                Err(_) => false,
            }
        },
        Some(i) => match r {
            Ok(st) => step8(rf, m0, i, r1, m1, st),
            Err(_) => false,
        },
    }
}

/// `n` successful instructions in sequence lead from the first state to
/// the second, each step satisfying `full_step`.
pub open spec fn multi_step(r0: Registers, m0: Seq<u8>, r1: Registers, m1: Seq<u8>, n: nat) -> bool
    decreases n,
{
    if n == 0 {
        r1 == r0 && m1 == m0
    } else {
        exists|rm: Registers, mm: Seq<u8>, st: Status|
            {
                &&& #[trigger] full_step(r0, m0, rm, mm, Ok(st))
                &&& multi_step(rm, mm, r1, m1, (n - 1) as nat)
            }
    }
}

/// A run of `n` steps followed by one more successful step is a run of
/// `n + 1` steps.
pub proof fn lemma_multi_step_extend(
    r0: Registers,
    m0: Seq<u8>,
    rm: Registers,
    mm: Seq<u8>,
    r1: Registers,
    m1: Seq<u8>,
    st: Status,
    n: nat,
)
    requires
        multi_step(r0, m0, rm, mm, n),
        full_step(rm, mm, r1, m1, Ok(st)),
    ensures
        multi_step(r0, m0, r1, m1, n + 1),
    decreases n,
{
    if n == 0 {
        assert(full_step(r0, m0, r1, m1, Ok(st)) && multi_step(r1, m1, r1, m1, 0));
    } else {
        let (ra, ma, sa): (Registers, Seq<u8>, Status) = choose|ra: Registers, ma: Seq<u8>, sa:
            Status|
            {
                &&& #[trigger] full_step(r0, m0, ra, ma, Ok(sa))
                &&& multi_step(ra, ma, rm, mm, (n - 1) as nat)
            };
        lemma_multi_step_extend(ra, ma, rm, mm, r1, m1, st, (n - 1) as nat);
        assert(full_step(r0, m0, ra, ma, Ok(sa)) && multi_step(ra, ma, r1, m1, n));
    }
}

/// Displacing a 16-bit value twice collapses into one displacement.
pub proof fn lemma_wrap_add16_assoc(w: u16, a: int, b: int)
    ensures
        wrap_add16(wrap_add16(w, a), b) == wrap_add16(w, a + b),
{
    let m = 0x10000int;
    let t = (w + a) % m;
    lemma_add_mod_noop_right(t, b, m);
    lemma_add_mod_noop(w + a, b, m);
    lemma_add_mod_noop_right(w + a, b, m);
}

/// Relative-jump helper: add a two's-complement displacement byte to a
/// 16-bit address, wrapping modulo 2^16.
pub fn rel_jump(pc: u16, d: u8) -> (r: u16)
    ensures
        r == rel_target(pc, d),
{
    if d < 128 {
        ((pc as u32 + d as u32) % 65536) as u16
    } else {
        proof {
            lemma_mod_multiples_vanish(1, pc + d - 256, 65536);
        }
        ((pc as u32 + d as u32 + 65280) % 65536) as u16
    }
}

fn bit_power8(b: u8) -> (r: u8)
    requires
        b < 8,
    ensures
        r == pow2(b as nat),
{
    proof {
        vstd::arithmetic::power2::lemma2_to64();
        vstd::arithmetic::power2::lemma_pow2_strictly_increases(b as nat, 8);
    }
    crate::utils::calc_nth_bit_power(b as u32) as u8
}

impl Default for Cpu {
    fn default() -> (r: Self)
        ensures
            r.wf(),
            r.registers.af == 0 && r.registers.bc == 0 && r.registers.de == 0 && r.registers.hl
                == 0 && r.registers.sp == 0 && r.registers.pc == 0,
            forall|i: int| 0 <= i < crate::memory::MEM_SIZE ==> r.memory.memory@[i] == 0,
    {
        Cpu { registers: Registers::default(), memory: Memory::default() }
    }
}

impl Cpu {
    /// A well-formed engine owns memory spanning the whole 16-bit address
    /// space.
    pub open spec fn wf(&self) -> bool {
        self.memory.wf()
    }

    /// Read the byte at PC and advance PC by one, wrapping modulo 2^16.
    fn fetch_next_byte(&mut self) -> (b: u8)
        requires
            old(self).wf(),
        ensures
            final(self).wf(),
            b == old(self).memory.memory@[old(self).registers.pc as int],
            final(self).registers == (Registers {
                pc: wrap_add16(old(self).registers.pc, 1),
                ..old(self).registers
            }),
            final(self).memory.memory@ == old(self).memory.memory@,
    {
        let pc = self.registers.pc;
        let b = self.memory.memory[pc as usize];
        self.registers.pc = wrap_inc(pc);
        b
    }

    fn imm8(&mut self) -> (b: u8)
        requires
            old(self).wf(),
        ensures
            final(self).wf(),
            b == old(self).memory.memory@[old(self).registers.pc as int],
            final(self).registers == (Registers {
                pc: wrap_add16(old(self).registers.pc, 1),
                ..old(self).registers
            }),
            final(self).memory.memory@ == old(self).memory.memory@,
    {
        self.fetch_next_byte()
    }

    /// Fetch a little-endian 16-bit immediate from the two bytes at PC.
    fn imm16(&mut self) -> (w: u16)
        requires
            old(self).wf(),
        ensures
            final(self).wf(),
            w == load16(old(self).memory.memory@, old(self).registers.pc),
            final(self).registers == (Registers {
                pc: wrap_add16(old(self).registers.pc, 2),
                ..old(self).registers
            }),
            final(self).memory.memory@ == old(self).memory.memory@,
    {
        let first_byte = self.fetch_next_byte();
        let second_byte = self.fetch_next_byte();
        proof {
            lemma_wrap_add16_assoc(old(self).registers.pc, 1, 1);
        }
        (second_byte as u16) * 256 + first_byte as u16
    }

    fn cond_met(&self, cond: Cond) -> (r: bool)
        ensures
            r == cond_holds(self.registers.af, cond),
    {
        match cond {
            Cond::NZ => !self.registers.z_flg(),
            Cond::Z => self.registers.z_flg(),
            Cond::NC => !self.registers.c_flg(),
            Cond::C => self.registers.c_flg(),
        }
    }

    /// Pop a 16-bit value: read low byte at SP, high byte at SP+1, then
    /// advance SP by two.
    fn pop(&mut self) -> (r: u16)
        requires
            old(self).wf(),
        ensures
            final(self).wf(),
            r == load16(old(self).memory.memory@, old(self).registers.sp),
            final(self).registers == (Registers {
                sp: wrap_add16(old(self).registers.sp, 2),
                ..old(self).registers
            }),
            final(self).memory.memory@ == old(self).memory.memory@,
    {
        let sp = self.registers.sp;
        let val = self.memory.get_u16(sp);
        proof {
            lemma_wrap_add16_assoc(sp, 1, 1);
        }
        self.registers.sp = wrap_inc(wrap_inc(sp));
        val
    }

    /// Push a 16-bit value: decrement SP by two, then store the value
    /// little-endian at the new SP (so the high byte sits at the higher
    /// address).
    fn push(&mut self, val: u16)
        requires
            old(self).wf(),
        ensures
            final(self).wf(),
            final(self).registers == (Registers {
                sp: wrap_add16(old(self).registers.sp, -2),
                ..old(self).registers
            }),
            final(self).memory.memory@ == store16(old(self).memory.memory@, wrap_add16(
                old(self).registers.sp, -2), val),
    {
        let sp = self.registers.sp;
        proof {
            lemma_wrap_add16_assoc(sp, -1, -1);
        }
        let sp_new = wrap_dec(wrap_dec(sp));
        self.registers.sp = sp_new;
        self.memory.set_u16(sp_new, val);
    }

    /// Push the current PC, as CALL and RST do before jumping.
    fn push_stack_pc(&mut self)
        requires
            old(self).wf(),
        ensures
            final(self).wf(),
            final(self).registers == (Registers {
                sp: wrap_add16(old(self).registers.sp, -2),
                ..old(self).registers
            }),
            final(self).memory.memory@ == store16(old(self).memory.memory@, wrap_add16(
                old(self).registers.sp, -2), old(self).registers.pc),
    {
        let pc = self.registers.pc;
        self.push(pc);
    }

    /// Read the operand selected by an r8 operand; the `HL` selector reads
    /// the byte in memory at address HL, which is the one way this can
    /// fail, and only on memory that does not span the address space.
    pub fn get_r8(&self, r8: R8) -> (r: Result<u8, CpuError>)
        ensures
            self.wf() ==> r == Ok::<u8, CpuError>(r8_val(self.registers, self.memory.memory@, r8)),
            r8 != R8::HL ==> r == Ok::<u8, CpuError>(r8_val(self.registers, self.memory.memory@,
                r8)),
            r8 == R8::HL && self.registers.hl >= self.memory.memory@.len() ==> r == Err::<
                u8,
                CpuError,
            >(CpuError::MemoryAccess { addr: self.registers.hl }),
    {
        match r8 {
            R8::B => Ok(self.registers.b()),
            R8::C => Ok(self.registers.c()),
            R8::D => Ok(self.registers.d()),
            R8::E => Ok(self.registers.e()),
            R8::H => Ok(self.registers.h()),
            R8::L => Ok(self.registers.l()),
            R8::A => Ok(self.registers.a()),
            R8::HL => self.memory.get_byte(self.registers.hl),
        }
    }

    /// Store through an r8 operand; the `HL` selector writes the byte in
    /// memory at address HL.
    pub fn set_r8(&mut self, r8: R8, value: u8)
        requires
            old(self).wf(),
        ensures
            final(self).wf(),
            final(self).registers == set_r8_spec(old(self).registers, old(self).memory.memory@,
                r8, value).0,
            final(self).memory.memory@ == set_r8_spec(old(self).registers, old(self).memory.memory@,
                r8, value).1,
            final(self).registers.af as int % 16 == old(self).registers.af as int % 16,
    {
        proof {
            crate::utils::lemma_set_high_nibble(old(self).registers.af, value);
        }
        match r8 {
            R8::B => self.registers.bc = crate::utils::set_high(self.registers.bc, value),
            R8::C => self.registers.bc = crate::utils::set_low(self.registers.bc, value),
            R8::D => self.registers.de = crate::utils::set_high(self.registers.de, value),
            R8::E => self.registers.de = crate::utils::set_low(self.registers.de, value),
            R8::H => self.registers.hl = crate::utils::set_high(self.registers.hl, value),
            R8::L => self.registers.hl = crate::utils::set_low(self.registers.hl, value),
            R8::A => self.registers.af = crate::utils::set_high(self.registers.af, value),
            R8::HL => self.memory.set_byte(self.registers.hl, value),
        }
    }
}

impl Cpu {
    /// ADD/ADC into A: H is the carry out of bit 3, C the carry out of
    /// bit 7, N is cleared and Z set from the 8-bit result.
    fn alu_add_a(&mut self, v: u8, use_carry: bool)
        requires
            old(self).wf(),
        ensures
            final(self).wf(),
            final(self).registers.af as int % 16 == old(self).registers.af as int % 16,
            ({
                let af0 = old(self).registers.af;
                let a = high_byte(af0);
                let cin: int = if use_carry && c_of(af0) {
                    1
                } else {
                    0
                };
                let sum = a + v + cin;
                final(self).registers == (Registers {
                    af: with_flags(spec_set_high(af0, ((sum % 256) as u8)), sum % 256 == 0, false,
                        v % 16 + a % 16 + cin > 15, sum > 255),
                    ..old(self).registers
                })
            }),
            final(self).memory.memory@ == old(self).memory.memory@,
    {
        let a = self.registers.a();
        let use_c = use_carry && self.registers.c_flg();
        let cin: u16 = if use_c {
            1
        } else {
            0
        };
        let sum: u16 = a as u16 + v as u16 + cin;
        let res: u8 = (sum % 256) as u8;
        let hh = half_carry_add_u8(v, a, use_c);
        self.registers.set_a(res);
        self.registers.set_flags(res == 0, false, hh, sum > 255);
    }

    /// SUB/SBC from A: H is the borrow out of bit 3, C the borrow out of
    /// bit 7, N is set and Z set from the 8-bit result.
    fn alu_sub_a(&mut self, v: u8, use_carry: bool)
        requires
            old(self).wf(),
        ensures
            final(self).wf(),
            final(self).registers.af as int % 16 == old(self).registers.af as int % 16,
            ({
                let af0 = old(self).registers.af;
                let a = high_byte(af0);
                let cin: int = if use_carry && c_of(af0) {
                    1
                } else {
                    0
                };
                let res = (a - v - cin) % 256;
                final(self).registers == (Registers {
                    af: with_flags(spec_set_high(af0, (res as u8)), res == 0, true, (a % 16) < v
                        % 16 + cin, a < v + cin),
                    ..old(self).registers
                })
            }),
            final(self).memory.memory@ == old(self).memory.memory@,
    {
        let a = self.registers.a();
        let use_c = use_carry && self.registers.c_flg();
        let cin: u16 = if use_c {
            1
        } else {
            0
        };
        proof {
            lemma_mod_multiples_vanish(1, high_byte(old(self).registers.af) - v - (if use_c {
                1int
            } else {
                0int
            }), 256);
        }
        let res: u8 = (((a as u16 + 256) - (v as u16) - cin) % 256) as u8;
        let hh = half_carry_sub_u8(a, v, use_c);
        self.registers.set_a(res);
        self.registers.set_flags(res == 0, true, hh, (a as u16) < v as u16 + cin);
    }

    /// CP: compare A with the operand by subtraction, keeping A and
    /// setting only the flags.
    fn alu_cp_a(&mut self, v: u8)
        requires
            old(self).wf(),
        ensures
            final(self).wf(),
            final(self).registers.af as int % 16 == old(self).registers.af as int % 16,
            ({
                let af0 = old(self).registers.af;
                let a = high_byte(af0);
                final(self).registers == (Registers {
                    af: with_flags(af0, v == a, true, (a % 16) < v % 16, a < v),
                    ..old(self).registers
                })
            }),
            final(self).memory.memory@ == old(self).memory.memory@,
    {
        let a = self.registers.a();
        let hh = half_carry_sub_u8(a, v, false);
        self.registers.set_flags(v == a, true, hh, a < v);
    }

    /// AND into A: Z from the result, N=0, H=1, C=0.
    fn alu_and_a(&mut self, v: u8)
        requires
            old(self).wf(),
        ensures
            final(self).wf(),
            final(self).registers.af as int % 16 == old(self).registers.af as int % 16,
            ({
                let af0 = old(self).registers.af;
                let res = high_byte(af0) & v;
                final(self).registers == (Registers {
                    af: with_flags(spec_set_high(af0, res), res == 0, false, true, false),
                    ..old(self).registers
                })
            }),
            final(self).memory.memory@ == old(self).memory.memory@,
    {
        let a = self.registers.a();
        let res = a & v;
        self.registers.set_a(res);
        self.registers.set_flags(res == 0, false, true, false);
    }

    /// XOR into A: Z from the result, N=0, H=0, C=0.
    fn alu_xor_a(&mut self, v: u8)
        requires
            old(self).wf(),
        ensures
            final(self).wf(),
            final(self).registers.af as int % 16 == old(self).registers.af as int % 16,
            ({
                let af0 = old(self).registers.af;
                let res = high_byte(af0) ^ v;
                final(self).registers == (Registers {
                    af: with_flags(spec_set_high(af0, res), res == 0, false, false, false),
                    ..old(self).registers
                })
            }),
            final(self).memory.memory@ == old(self).memory.memory@,
    {
        let a = self.registers.a();
        let res = a ^ v;
        self.registers.set_a(res);
        self.registers.set_flags(res == 0, false, false, false);
    }

    /// OR into A: Z from the result, N=0, H=0, C=0.
    fn alu_or_a(&mut self, v: u8)
        requires
            old(self).wf(),
        ensures
            final(self).wf(),
            final(self).registers.af as int % 16 == old(self).registers.af as int % 16,
            ({
                let af0 = old(self).registers.af;
                let res = high_byte(af0) | v;
                final(self).registers == (Registers {
                    af: with_flags(spec_set_high(af0, res), res == 0, false, false, false),
                    ..old(self).registers
                })
            }),
            final(self).memory.memory@ == old(self).memory.memory@,
    {
        let a = self.registers.a();
        let res = a | v;
        self.registers.set_a(res);
        self.registers.set_flags(res == 0, false, false, false);
    }

    /// INC/DEC of an 8-bit operand: Z from the result, N records whether
    /// this was the decrement, H is the nibble carry or borrow of the
    /// one-step change, and C is not touched by these forms.
    fn alu_inc_dec_r8(&mut self, reg: R8, is_inc: bool)
        requires
            old(self).wf(),
        ensures
            final(self).wf(),
            final(self).registers.af as int % 16 == old(self).registers.af as int % 16,
            ({
                let r0 = old(self).registers;
                let m0 = old(self).memory.memory@;
                let v = r8_val(r0, m0, reg);
                let res = if is_inc {
                    ((v + 1) % 256) as u8
                } else {
                    ((v + 255) % 256) as u8
                };
                let h = if is_inc {
                    v % 16 + 1 > 15
                } else {
                    (v % 16) < 1
                };
                let pair = set_r8_spec(r0, m0, reg, res);
                final(self).registers == (Registers {
                    af: with_flags(pair.0.af, res == 0, !is_inc, h, c_of(r0.af)),
                    ..pair.0
                }) && final(self).memory.memory@ == pair.1
            }),
    {
        let c = self.registers.c_flg();
        let v = match self.get_r8(reg) {
            Ok(v) => v,
            Err(_) => 0,
        };
        let res: u8 = if is_inc {
            if v == 255 {
                0
            } else {
                v + 1
            }
        } else {
            if v == 0 {
                255
            } else {
                v - 1
            }
        };
        let hh = if is_inc {
            half_carry_add_u8(v, 1, false)
        } else {
            half_carry_sub_u8(v, 1, false)
        };
        self.set_r8(reg, res);
        self.registers.set_flags(res == 0, !is_inc, hh, c);
    }
}

impl Cpu {
    /// NOP, HALT, DI, EI, the prefix marker, the one-cycle register
    /// moves, the bare flag instructions and the BCD correction.
    #[verifier::rlimit(100)]
    fn exec_misc(&mut self, i: Instruction) -> (r: Result<Status, CpuError>)
        requires
            old(self).wf(),
            i matches Instruction::Nop || i matches Instruction::Halt || i matches Instruction::Di || i matches Instruction::Ei || i matches Instruction::Prefix || i matches Instruction::JpHl || i matches Instruction::LdSpHl || i matches Instruction::Scf || i matches Instruction::Ccf || i matches Instruction::Cpl || i matches Instruction::Daa,
        ensures
            final(self).wf(),
            old(self).registers.af as int % 16 == 0 ==> final(self).registers.af as int % 16 == 0,
            (match r {
                Ok(st) => step8(old(self).registers, old(self).memory.memory@, i,
                    final(self).registers, final(self).memory.memory@, st),
                Err(_) => false,
            }),
    {
        match i {
            Instruction::Nop => Ok(Status::Cycles(1)),
            Instruction::Halt => Ok(Status::Break),
            Instruction::Di => Ok(Status::Cycles(1)),
            Instruction::Ei => Ok(Status::Cycles(1)),
            Instruction::Prefix => Ok(Status::Prefix),
            Instruction::JpHl => {
                self.registers.pc = self.registers.hl;
                Ok(Status::Cycles(1))
            },
            Instruction::LdSpHl => {
                self.registers.sp = self.registers.hl;
                Ok(Status::Cycles(2))
            },
            Instruction::Scf => {
                let z = self.registers.z_flg();
                self.registers.set_flags(z, false, false, true);
                Ok(Status::Cycles(1))
            },
            Instruction::Ccf => {
                let z = self.registers.z_flg();
                let c = self.registers.c_flg();
                self.registers.set_flags(z, false, false, !c);
                Ok(Status::Cycles(1))
            },
            Instruction::Cpl => {
                let a = self.registers.a();
                let z = self.registers.z_flg();
                let c = self.registers.c_flg();
                self.registers.set_a(255 - a);
                self.registers.set_flags(z, true, true, c);
                Ok(Status::Cycles(1))
            },
            Instruction::Daa => {
                let a = self.registers.a();
                let subtract = self.registers.n_flg();
                let low_adj = (!subtract && a % 16 > 9) || self.registers.h_flg();
                let high_adj = (!subtract && a > 0x99) || self.registers.c_flg();
                let offset: u8 = (if low_adj {
                    6
                } else {
                    0
                }) + (if high_adj {
                    0x60
                } else {
                    0
                });
                let val: u8 = if subtract {
                    proof {
                        lemma_mod_multiples_vanish(1, a - offset, 256);
                    }
                    (((a as u16) + 256 - (offset as u16)) % 256) as u8
                } else {
                    (((a as u16) + (offset as u16)) % 256) as u8
                };
                self.registers.set_a(val);
                self.registers.set_flags(val == 0, subtract, false, high_adj);
                Ok(Status::Cycles(1))
            },
            _ => Ok(Status::Break),
        }
    }

    /// The 16-bit loads, arithmetic and stack pushes and pops.
    #[verifier::rlimit(100)]
    fn exec_word_ops(&mut self, i: Instruction) -> (r: Result<Status, CpuError>)
        requires
            old(self).wf(),
            i matches Instruction::LdR16Imm16 { .. } || i matches Instruction::LdImm16Sp || i matches Instruction::IncR16 { .. } || i matches Instruction::DecR16 { .. } || i matches Instruction::AddHlR16 { .. } || i matches Instruction::PopR16stk { .. } || i matches Instruction::PushR16stk { .. },
        ensures
            final(self).wf(),
            old(self).registers.af as int % 16 == 0 ==> final(self).registers.af as int % 16 == 0,
            (match r {
                Ok(st) => step8(old(self).registers, old(self).memory.memory@, i,
                    final(self).registers, final(self).memory.memory@, st),
                Err(_) => false,
            }),
    {
        match i {
            Instruction::LdR16Imm16 { reg } => {
                let data = self.imm16();
                self.registers.set_r16(reg, data);
                Ok(Status::Cycles(3))
            },
            Instruction::LdImm16Sp => {
                let addr = self.imm16();
                let sp = self.registers.sp;
                self.memory.set_u16(addr, sp);
                Ok(Status::Cycles(5))
            },
            Instruction::IncR16 { reg } => {
                let v = self.registers.get_r16(reg);
                let nv = wrap_inc(v);
                self.registers.set_r16(reg, nv);
                Ok(Status::Cycles(2))
            },
            Instruction::DecR16 { reg } => {
                let v = self.registers.get_r16(reg);
                let nv = wrap_dec(v);
                self.registers.set_r16(reg, nv);
                Ok(Status::Cycles(2))
            },
            Instruction::AddHlR16 { reg } => {
                let v = self.registers.get_r16(reg);
                let hl0 = self.registers.hl;
                let z = self.registers.z_flg();
                let hh = half_carry_add_u16(v, hl0);
                let carry = (hl0 as u32) + (v as u32) > 65535;
                self.registers.set_flags(z, false, hh, carry);
                self.registers.hl = (((hl0 as u32) + (v as u32)) % 65536) as u16;
                Ok(Status::Cycles(2))
            },
            Instruction::PopR16stk { reg } => {
                let val = self.pop();
                self.registers.set_r16stk(reg, val);
                Ok(Status::Cycles(3))
            },
            Instruction::PushR16stk { reg } => {
                let v = self.registers.get_r16stk(reg);
                self.push(v);
                Ok(Status::Cycles(4))
            },
            _ => Ok(Status::Break),
        }
    }

    /// The 8-bit loads between registers, memory and immediates.
    #[verifier::rlimit(100)]
    fn exec_byte_loads(&mut self, i: Instruction) -> (r: Result<Status, CpuError>)
        requires
            old(self).wf(),
            i matches Instruction::LdR16memA { .. } || i matches Instruction::LdAR16mem { .. } || i matches Instruction::LdR8Imm8 { .. } || i matches Instruction::LdR8R8 { .. } || i matches Instruction::LdhCA || i matches Instruction::LdhImm8A || i matches Instruction::LdImm16A || i matches Instruction::LdhAC || i matches Instruction::LdhAImm8 || i matches Instruction::LdAImm16,
        ensures
            final(self).wf(),
            old(self).registers.af as int % 16 == 0 ==> final(self).registers.af as int % 16 == 0,
            (match r {
                Ok(st) => step8(old(self).registers, old(self).memory.memory@, i,
                    final(self).registers, final(self).memory.memory@, st),
                Err(_) => false,
            }),
    {
        match i {
            Instruction::LdR16memA { reg } => {
                let addr = self.registers.get_r16mem(reg);
                let a = self.registers.a();
                self.memory.set_byte(addr, a);
                Ok(Status::Cycles(2))
            },
            Instruction::LdAR16mem { reg } => {
                let addr = self.registers.get_r16mem(reg);
                let data = match self.memory.get_byte(addr) {
                    Ok(v) => v,
                    Err(e) => {
                        return Err(e);
                    },
                };
                self.registers.set_a(data);
                Ok(Status::Cycles(2))
            },
            Instruction::LdR8Imm8 { reg } => {
                let value = self.imm8();
                self.set_r8(reg, value);
                Ok(Status::Cycles(if reg == R8::HL {
                    3
                } else {
                    2
                }))
            },
            Instruction::LdR8R8 { src, dst } => {
                if src != dst {
                    let v = match self.get_r8(src) {
                        Ok(v) => v,
                        Err(e) => {
                            return Err(e);
                        },
                    };
                    self.set_r8(dst, v);
                }
                Ok(Status::Cycles(if src == R8::HL || dst == R8::HL {
                    2
                } else {
                    1
                }))
            },
            Instruction::LdhCA => {
                let addr: u16 = 0xFF00 + (self.registers.c() as u16);
                let a = self.registers.a();
                self.memory.set_byte(addr, a);
                Ok(Status::Cycles(2))
            },
            Instruction::LdhImm8A => {
                let d = self.imm8();
                let addr: u16 = 0xFF00 + (d as u16);
                let a = self.registers.a();
                self.memory.set_byte(addr, a);
                Ok(Status::Cycles(3))
            },
            Instruction::LdImm16A => {
                let addr = self.imm16();
                let a = self.registers.a();
                self.memory.set_byte(addr, a);
                Ok(Status::Cycles(4))
            },
            Instruction::LdhAC => {
                let addr: u16 = 0xFF00 + (self.registers.c() as u16);
                let val = match self.memory.get_byte(addr) {
                    Ok(v) => v,
                    Err(e) => {
                        return Err(e);
                    },
                };
                self.registers.set_a(val);
                Ok(Status::Cycles(2))
            },
            Instruction::LdhAImm8 => {
                let d = self.imm8();
                let addr: u16 = 0xFF00 + (d as u16);
                let val = match self.memory.get_byte(addr) {
                    Ok(v) => v,
                    Err(e) => {
                        return Err(e);
                    },
                };
                self.registers.set_a(val);
                Ok(Status::Cycles(3))
            },
            Instruction::LdAImm16 => {
                let addr = self.imm16();
                let val = match self.memory.get_byte(addr) {
                    Ok(v) => v,
                    Err(e) => {
                        return Err(e);
                    },
                };
                self.registers.set_a(val);
                Ok(Status::Cycles(4))
            },
            _ => Ok(Status::Break),
        }
    }

    /// The 8-bit arithmetic, logic and compare instructions, with a
    /// register or an immediate operand.
    /// The 8-bit INC and DEC instructions.
    #[verifier::rlimit(100)]
    fn exec_inc_dec_ops(&mut self, i: Instruction) -> (r: Result<Status, CpuError>)
        requires
            old(self).wf(),
            i matches Instruction::IncR8 { .. } || i matches Instruction::DecR8 { .. },
        ensures
            final(self).wf(),
            old(self).registers.af as int % 16 == 0 ==> final(self).registers.af as int % 16 == 0,
            (match r {
                Ok(st) => step8(old(self).registers, old(self).memory.memory@, i,
                    final(self).registers, final(self).memory.memory@, st),
                Err(_) => false,
            }),
    {
        match i {
            Instruction::IncR8 { reg } => {
                self.alu_inc_dec_r8(reg, true);
                Ok(Status::Cycles(if reg == R8::HL {
                    3
                } else {
                    1
                }))
            },
            Instruction::DecR8 { reg } => {
                self.alu_inc_dec_r8(reg, false);
                Ok(Status::Cycles(if reg == R8::HL {
                    3
                } else {
                    1
                }))
            },
            _ => Ok(Status::Break),
        }
    }

    /// ADD/ADC and SUB/SBC with a register operand.
    #[verifier::rlimit(100)]
    fn exec_add_sub_reg(&mut self, i: Instruction) -> (r: Result<Status, CpuError>)
        requires
            old(self).wf(),
            i matches Instruction::AddAR8 { .. } || i matches Instruction::SubAR8 { .. },
        ensures
            final(self).wf(),
            old(self).registers.af as int % 16 == 0 ==> final(self).registers.af as int % 16 == 0,
            (match r {
                Ok(st) => step8(old(self).registers, old(self).memory.memory@, i,
                    final(self).registers, final(self).memory.memory@, st),
                Err(_) => false,
            }),
    {
        match i {
            Instruction::AddAR8 { reg, carry } => {
                let v = match self.get_r8(reg) {
                    Ok(v) => v,
                    Err(e) => {
                        return Err(e);
                    },
                };
                self.alu_add_a(v, carry);
                Ok(Status::Cycles(if reg == R8::HL {
                    2
                } else {
                    1
                }))
            },
            Instruction::SubAR8 { reg, carry } => {
                let v = match self.get_r8(reg) {
                    Ok(v) => v,
                    Err(e) => {
                        return Err(e);
                    },
                };
                self.alu_sub_a(v, carry);
                Ok(Status::Cycles(if reg == R8::HL {
                    2
                } else {
                    1
                }))
            },
            _ => Ok(Status::Break),
        }
    }

    /// AND, XOR, OR and CP with a register operand.
    #[verifier::rlimit(100)]
    fn exec_logic_reg(&mut self, i: Instruction) -> (r: Result<Status, CpuError>)
        requires
            old(self).wf(),
            i matches Instruction::AndAR8 { .. } || i matches Instruction::XorAR8 { .. } || i matches Instruction::OrAR8 { .. } || i matches Instruction::CpAR8 { .. },
        ensures
            final(self).wf(),
            old(self).registers.af as int % 16 == 0 ==> final(self).registers.af as int % 16 == 0,
            (match r {
                Ok(st) => step8(old(self).registers, old(self).memory.memory@, i,
                    final(self).registers, final(self).memory.memory@, st),
                Err(_) => false,
            }),
    {
        match i {
            Instruction::AndAR8 { reg } => {
                let v = match self.get_r8(reg) {
                    Ok(v) => v,
                    Err(e) => {
                        return Err(e);
                    },
                };
                self.alu_and_a(v);
                Ok(Status::Cycles(if reg == R8::HL {
                    2
                } else {
                    1
                }))
            },
            Instruction::XorAR8 { reg } => {
                let v = match self.get_r8(reg) {
                    Ok(v) => v,
                    Err(e) => {
                        return Err(e);
                    },
                };
                self.alu_xor_a(v);
                Ok(Status::Cycles(if reg == R8::HL {
                    2
                } else {
                    1
                }))
            },
            Instruction::OrAR8 { reg } => {
                let v = match self.get_r8(reg) {
                    Ok(v) => v,
                    Err(e) => {
                        return Err(e);
                    },
                };
                self.alu_or_a(v);
                Ok(Status::Cycles(if reg == R8::HL {
                    2
                } else {
                    1
                }))
            },
            Instruction::CpAR8 { reg } => {
                let v = match self.get_r8(reg) {
                    Ok(v) => v,
                    Err(e) => {
                        return Err(e);
                    },
                };
                self.alu_cp_a(v);
                Ok(Status::Cycles(if reg == R8::HL {
                    2
                } else {
                    1
                }))
            },
            _ => Ok(Status::Break),
        }
    }

    /// ADD/ADC and SUB/SBC with an immediate operand.
    #[verifier::rlimit(100)]
    fn exec_add_sub_imm(&mut self, i: Instruction) -> (r: Result<Status, CpuError>)
        requires
            old(self).wf(),
            i matches Instruction::AddAImm8 { .. } || i matches Instruction::SubAImm8 { .. },
        ensures
            final(self).wf(),
            old(self).registers.af as int % 16 == 0 ==> final(self).registers.af as int % 16 == 0,
            (match r {
                Ok(st) => step8(old(self).registers, old(self).memory.memory@, i,
                    final(self).registers, final(self).memory.memory@, st),
                Err(_) => false,
            }),
    {
        match i {
            Instruction::AddAImm8 { carry } => {
                let v = self.imm8();
                self.alu_add_a(v, carry);
                Ok(Status::Cycles(2))
            },
            Instruction::SubAImm8 { carry } => {
                let v = self.imm8();
                self.alu_sub_a(v, carry);
                Ok(Status::Cycles(2))
            },
            _ => Ok(Status::Break),
        }
    }

    /// AND, XOR, OR and CP with an immediate operand.
    #[verifier::rlimit(100)]
    fn exec_logic_imm(&mut self, i: Instruction) -> (r: Result<Status, CpuError>)
        requires
            old(self).wf(),
            i matches Instruction::AndAImm8 || i matches Instruction::XorAImm8 || i matches Instruction::OrAImm8 || i matches Instruction::CpAImm8,
        ensures
            final(self).wf(),
            old(self).registers.af as int % 16 == 0 ==> final(self).registers.af as int % 16 == 0,
            (match r {
                Ok(st) => step8(old(self).registers, old(self).memory.memory@, i,
                    final(self).registers, final(self).memory.memory@, st),
                Err(_) => false,
            }),
    {
        match i {
            Instruction::AndAImm8 => {
                let v = self.imm8();
                self.alu_and_a(v);
                Ok(Status::Cycles(2))
            },
            Instruction::XorAImm8 => {
                let v = self.imm8();
                self.alu_xor_a(v);
                Ok(Status::Cycles(2))
            },
            Instruction::OrAImm8 => {
                let v = self.imm8();
                self.alu_or_a(v);
                Ok(Status::Cycles(2))
            },
            Instruction::CpAImm8 => {
                let v = self.imm8();
                self.alu_cp_a(v);
                Ok(Status::Cycles(2))
            },
            _ => Ok(Status::Break),
        }
    }

    /// The four one-cycle accumulator rotates.
    #[verifier::rlimit(100)]
    fn exec_accumulator_rotates(&mut self, i: Instruction) -> (r: Result<Status, CpuError>)
        requires
            old(self).wf(),
            i matches Instruction::Rlca || i matches Instruction::Rrca || i matches Instruction::Rla || i matches Instruction::Rra,
        ensures
            final(self).wf(),
            old(self).registers.af as int % 16 == 0 ==> final(self).registers.af as int % 16 == 0,
            (match r {
                Ok(st) => step8(old(self).registers, old(self).memory.memory@, i,
                    final(self).registers, final(self).memory.memory@, st),
                Err(_) => false,
            }),
    {
        match i {
            Instruction::Rlca => {
                let a = self.registers.a();
                let rotated: u8 = (a % 128) * 2 + a / 128;
                self.registers.set_a(rotated);
                self.registers.set_flags(false, false, false, rotated % 2 == 1);
                Ok(Status::Cycles(1))
            },
            Instruction::Rrca => {
                let a = self.registers.a();
                let rotated: u8 = a / 2 + (a % 2) * 128;
                self.registers.set_a(rotated);
                self.registers.set_flags(false, false, false, a % 2 == 1);
                Ok(Status::Cycles(1))
            },
            Instruction::Rla => {
                let a = self.registers.a();
                let cin: u8 = if self.registers.c_flg() {
                    1
                } else {
                    0
                };
                let rotated: u8 = (a % 128) * 2 + cin;
                self.registers.set_a(rotated);
                self.registers.set_flags(false, false, false, a / 128 == 1);
                Ok(Status::Cycles(1))
            },
            Instruction::Rra => {
                let a = self.registers.a();
                let cin: u8 = if self.registers.c_flg() {
                    128
                } else {
                    0
                };
                let rotated: u8 = a / 2 + cin;
                self.registers.set_a(rotated);
                self.registers.set_flags(false, false, false, a % 2 == 1);
                Ok(Status::Cycles(1))
            },
            _ => Ok(Status::Break),
        }
    }

    /// Jumps, calls, returns, RST and the SP-relative loads, with the
    /// cycle differential between taken and not-taken conditions.
    #[verifier::rlimit(100)]
    fn exec_control_flow(&mut self, i: Instruction) -> (r: Result<Status, CpuError>)
        requires
            old(self).wf(),
            i matches Instruction::JrImm8 || i matches Instruction::JrCondImm8 { .. } || i matches Instruction::RetCond { .. } || i matches Instruction::Ret || i matches Instruction::Reti || i matches Instruction::JpCondImm16 { .. } || i matches Instruction::JpImm16 || i matches Instruction::CallCondImm16 { .. } || i matches Instruction::CallImm16 || i matches Instruction::RstTgt3 { .. } || i matches Instruction::AddSpImm8 || i matches Instruction::LdHlSpImm8,
        ensures
            final(self).wf(),
            old(self).registers.af as int % 16 == 0 ==> final(self).registers.af as int % 16 == 0,
            (match r {
                Ok(st) => step8(old(self).registers, old(self).memory.memory@, i,
                    final(self).registers, final(self).memory.memory@, st),
                Err(_) => false,
            }),
    {
        match i {
            Instruction::JrImm8 => {
                let d = self.imm8();
                let target = rel_jump(self.registers.pc, d);
                self.registers.pc = target;
                Ok(Status::Cycles(3))
            },
            Instruction::JrCondImm8 { cond } => {
                let d = self.imm8();
                if self.cond_met(cond) {
                    let target = rel_jump(self.registers.pc, d);
                    self.registers.pc = target;
                    return Ok(Status::Cycles(3));
                }
                Ok(Status::Cycles(2))
            },
            Instruction::RetCond { cond } => {
                if self.cond_met(cond) {
                    let val = self.pop();
                    self.registers.pc = val;
                    return Ok(Status::Cycles(5));
                }
                Ok(Status::Cycles(2))
            },
            Instruction::Ret => {
                let val = self.pop();
                self.registers.pc = val;
                Ok(Status::Cycles(4))
            },
            Instruction::Reti => {
                let val = self.pop();
                self.registers.pc = val;
                Ok(Status::Cycles(4))
            },
            Instruction::JpCondImm16 { cond } => {
                let imm = self.imm16();
                if self.cond_met(cond) {
                    self.registers.pc = imm;
                    return Ok(Status::Cycles(4));
                }
                Ok(Status::Cycles(3))
            },
            Instruction::JpImm16 => {
                let imm = self.imm16();
                self.registers.pc = imm;
                Ok(Status::Cycles(4))
            },
            Instruction::CallCondImm16 { cond } => {
                let imm = self.imm16();
                if self.cond_met(cond) {
                    self.push_stack_pc();
                    self.registers.pc = imm;
                    return Ok(Status::Cycles(6));
                }
                Ok(Status::Cycles(3))
            },
            Instruction::CallImm16 => {
                let imm = self.imm16();
                self.push_stack_pc();
                self.registers.pc = imm;
                Ok(Status::Cycles(6))
            },
            Instruction::RstTgt3 { tgt3 } => {
                self.push_stack_pc();
                let addr = (tgt3 as u16) * 8;
                self.registers.pc = addr;
                Ok(Status::Cycles(4))
            },
            Instruction::AddSpImm8 => {
                let d = self.imm8();
                let sp = self.registers.sp;
                let spl = low_u8(sp);
                let hh = half_carry_add_u8(spl, d, false);
                let carry = (spl as u16) + (d as u16) > 255;
                self.registers.set_flags(false, false, hh, carry);
                let nsp = rel_jump(sp, d);
                self.registers.sp = nsp;
                Ok(Status::Cycles(4))
            },
            Instruction::LdHlSpImm8 => {
                let d = self.imm8();
                let sp = self.registers.sp;
                let spl = low_u8(sp);
                let hh = half_carry_add_u8(spl, d, false);
                let carry = (spl as u16) + (d as u16) > 255;
                self.registers.set_flags(false, false, hh, carry);
                let nhl = rel_jump(sp, d);
                self.registers.hl = nhl;
                Ok(Status::Cycles(3))
            },
            _ => Ok(Status::Break),
        }
    }

    /// Execute one already-decoded base-table instruction from the state
    /// just past its opcode byte, exactly as `step8` describes.
    fn exec_instruction(&mut self, i: Instruction) -> (r: Result<Status, CpuError>)
        requires
            old(self).wf(),
        ensures
            final(self).wf(),
            old(self).registers.af as int % 16 == 0 ==> final(self).registers.af as int % 16 == 0,
            (match r {
                Ok(st) => step8(old(self).registers, old(self).memory.memory@, i,
                    final(self).registers, final(self).memory.memory@, st),
                Err(_) => false,
            }),
    {
        match i {
            Instruction::Nop | Instruction::Halt | Instruction::Di | Instruction::Ei | Instruction::Prefix | Instruction::JpHl | Instruction::LdSpHl | Instruction::Scf | Instruction::Ccf | Instruction::Cpl | Instruction::Daa => self.exec_misc(i),
            Instruction::LdR16Imm16 { .. } | Instruction::LdImm16Sp | Instruction::IncR16 { .. } | Instruction::DecR16 { .. } | Instruction::AddHlR16 { .. } | Instruction::PopR16stk { .. } | Instruction::PushR16stk { .. } => self.exec_word_ops(i),
            Instruction::LdR16memA { .. } | Instruction::LdAR16mem { .. } | Instruction::LdR8Imm8 { .. } | Instruction::LdR8R8 { .. } | Instruction::LdhCA | Instruction::LdhImm8A | Instruction::LdImm16A | Instruction::LdhAC | Instruction::LdhAImm8 | Instruction::LdAImm16 => self.exec_byte_loads(i),
            Instruction::IncR8 { .. } | Instruction::DecR8 { .. } => self.exec_inc_dec_ops(i),
            Instruction::AddAR8 { .. } | Instruction::SubAR8 { .. } => self.exec_add_sub_reg(i),
            Instruction::AndAR8 { .. } | Instruction::XorAR8 { .. } | Instruction::OrAR8 { .. } | Instruction::CpAR8 { .. } => self.exec_logic_reg(i),
            Instruction::AddAImm8 { .. } | Instruction::SubAImm8 { .. } => self.exec_add_sub_imm(i),
            Instruction::AndAImm8 | Instruction::XorAImm8 | Instruction::OrAImm8 | Instruction::CpAImm8 => self.exec_logic_imm(i),
            Instruction::Rlca | Instruction::Rrca | Instruction::Rla | Instruction::Rra => self.exec_accumulator_rotates(i),
            Instruction::JrImm8 | Instruction::JrCondImm8 { .. } | Instruction::RetCond { .. } | Instruction::Ret | Instruction::Reti | Instruction::JpCondImm16 { .. } | Instruction::JpImm16 | Instruction::CallCondImm16 { .. } | Instruction::CallImm16 | Instruction::RstTgt3 { .. } | Instruction::AddSpImm8 | Instruction::LdHlSpImm8 => self.exec_control_flow(i),
        }
    }

    /// Fetch the byte at PC, decode it against the base opcode table, and
    /// execute it. An unassigned opcode is reported as a decode error with
    /// PC left just past the offending byte; everything else executes
    /// exactly as `step8` describes, reporting its cycle count, `Break`
    /// for HALT, or `Prefix` when the byte announces the extended table.
    pub fn run_8bit_opcode(&mut self) -> (r: Result<Status, CpuError>)
        requires
            old(self).wf(),
        ensures
            final(self).wf(),
            old(self).registers.af as int % 16 == 0 ==> final(self).registers.af as int % 16 == 0,
            ({
                let r0 = old(self).registers;
                let m0 = old(self).memory.memory@;
                let b = m0[r0.pc as int];
                let rf = (Registers { pc: wrap_add16(r0.pc, 1), ..r0 });
                match spec_decode(b) {
                    Some(i) => (match r {
                        Ok(st) => step8(rf, m0, i, final(self).registers,
                            final(self).memory.memory@, st),
                        Err(_) => false,
                    }),
                    None => r == Err::<Status, CpuError>(CpuError::Decode { byte: b }) && final(self).registers == rf && final(self).memory.memory@ == m0,
                }
            }),
    {
        let instruction_byte = self.fetch_next_byte();
        let instruction = match Instruction::decode(instruction_byte) {
            Ok(i) => i,
            Err(e) => {
                return Err(e);
            },
        };
        self.exec_instruction(instruction)
    }
}

impl Cpu {
    /// The extended-table rotates, shifts and nibble swap: Z from the
    /// result, N=0, H=0, and C from the bit shifted or rotated out.
    #[verifier::rlimit(100)]
    fn exec_prefixed_rotates(&mut self, i: PrefixedInstruction) -> (r: Result<Status, CpuError>)
        requires
            old(self).wf(),
            i matches PrefixedInstruction::RlcR8 { .. } || i matches PrefixedInstruction::RrcR8 {
                ..
            } || i matches PrefixedInstruction::RlR8 { .. } || i matches PrefixedInstruction::RrR8 {
                ..
            } || i matches PrefixedInstruction::SlaR8 { .. } || i
                matches PrefixedInstruction::SraR8 { .. } || i matches PrefixedInstruction::SwapR8 {
                ..
            } || i matches PrefixedInstruction::SrlR8 { .. },
        ensures
            final(self).wf(),
            old(self).registers.af as int % 16 == 0 ==> final(self).registers.af as int % 16 == 0,
            (match r {
                Ok(st) => step16(old(self).registers, old(self).memory.memory@, i,
                    final(self).registers, final(self).memory.memory@, st),
                Err(_) => false,
            }),
    {
        let reg = match i {
            PrefixedInstruction::RlcR8 { reg } => reg,
            PrefixedInstruction::RrcR8 { reg } => reg,
            PrefixedInstruction::RlR8 { reg } => reg,
            PrefixedInstruction::RrR8 { reg } => reg,
            PrefixedInstruction::SlaR8 { reg } => reg,
            PrefixedInstruction::SraR8 { reg } => reg,
            PrefixedInstruction::SwapR8 { reg } => reg,
            PrefixedInstruction::SrlR8 { reg } => reg,
            PrefixedInstruction::BitB3R8 { reg, .. } => reg,
            PrefixedInstruction::ResB3R8 { reg, .. } => reg,
            PrefixedInstruction::SetB3R8 { reg, .. } => reg,
        };
        let carry_in = self.registers.c_flg();
        let v = match self.get_r8(reg) {
            Ok(v) => v,
            Err(e) => {
                return Err(e);
            },
        };
        let (res, carry_out): (u8, bool) = match i {
            PrefixedInstruction::RlcR8 { .. } => {
                let res: u8 = (v % 128) * 2 + v / 128;
                (res, res % 2 == 1)
            },
            PrefixedInstruction::RrcR8 { .. } => (v / 2 + (v % 2) * 128, v % 2 == 1),
            PrefixedInstruction::RlR8 { .. } => ((v % 128) * 2 + (if carry_in {
                1
            } else {
                0
            }), v / 128 == 1),
            PrefixedInstruction::RrR8 { .. } => (v / 2 + (if carry_in {
                128
            } else {
                0
            }), v % 2 == 1),
            PrefixedInstruction::SlaR8 { .. } => ((v % 128) * 2, v / 128 == 1),
            PrefixedInstruction::SraR8 { .. } => (v / 2 + (v / 128) * 128, v % 2 == 1),
            PrefixedInstruction::SwapR8 { .. } => ((v % 16) * 16 + v / 16, false),
            PrefixedInstruction::SrlR8 { .. } => (v / 2, v % 2 == 1),
            _ => (0, false),
        };
        self.set_r8(reg, res);
        self.registers.set_flags(res == 0, false, false, carry_out);
        Ok(Status::Cycles(if reg == R8::HL {
            4
        } else {
            2
        }))
    }

    /// The extended-table single-bit test, reset and set instructions.
    #[verifier::rlimit(100)]
    fn exec_prefixed_bits(&mut self, i: PrefixedInstruction) -> (r: Result<Status, CpuError>)
        requires
            old(self).wf(),
            i matches PrefixedInstruction::BitB3R8 { .. } || i
                matches PrefixedInstruction::ResB3R8 { .. } || i
                matches PrefixedInstruction::SetB3R8 { .. },
            (match i {
                PrefixedInstruction::BitB3R8 { bit, .. } => bit < 8,
                PrefixedInstruction::ResB3R8 { bit, .. } => bit < 8,
                PrefixedInstruction::SetB3R8 { bit, .. } => bit < 8,
                _ => true,
            }),
        ensures
            final(self).wf(),
            old(self).registers.af as int % 16 == 0 ==> final(self).registers.af as int % 16 == 0,
            (match r {
                Ok(st) => step16(old(self).registers, old(self).memory.memory@, i,
                    final(self).registers, final(self).memory.memory@, st),
                Err(_) => false,
            }),
    {
        match i {
            PrefixedInstruction::BitB3R8 { bit, reg } => {
                let v = match self.get_r8(reg) {
                    Ok(v) => v,
                    Err(e) => {
                        return Err(e);
                    },
                };
                let c = self.registers.c_flg();
                let p = bit_power8(bit);
                proof {
                    lemma_pow2_pos(bit as nat);
                }
                let z = (v / p) % 2 == 0;
                self.registers.set_flags(z, false, true, c);
                Ok(Status::Cycles(if reg == R8::HL {
                    3
                } else {
                    2
                }))
            },
            PrefixedInstruction::ResB3R8 { bit, reg } => {
                let v = match self.get_r8(reg) {
                    Ok(v) => v,
                    Err(e) => {
                        return Err(e);
                    },
                };
                let res = crate::utils::set_bit_u8(v, bit as u32, false);
                self.set_r8(reg, res);
                Ok(Status::Cycles(if reg == R8::HL {
                    4
                } else {
                    2
                }))
            },
            PrefixedInstruction::SetB3R8 { bit, reg } => {
                let v = match self.get_r8(reg) {
                    Ok(v) => v,
                    Err(e) => {
                        return Err(e);
                    },
                };
                let res = crate::utils::set_bit_u8(v, bit as u32, true);
                self.set_r8(reg, res);
                Ok(Status::Cycles(if reg == R8::HL {
                    4
                } else {
                    2
                }))
            },
            _ => Ok(Status::Break),
        }
    }

    /// Fetch the byte at PC and execute it against the extended opcode
    /// table that a 0xCB prefix selects. Every byte value is assigned
    /// there, so under well-formed memory this cannot fail.
    pub fn run_16bit_opcode(&mut self) -> (r: Result<Status, CpuError>)
        requires
            old(self).wf(),
        ensures
            final(self).wf(),
            old(self).registers.af as int % 16 == 0 ==> final(self).registers.af as int % 16 == 0,
            ({
                let r0 = old(self).registers;
                let m0 = old(self).memory.memory@;
                let b = m0[r0.pc as int];
                let rf = (Registers { pc: wrap_add16(r0.pc, 1), ..r0 });
                match r {
                    Ok(st) => step16(rf, m0, spec_decode_prefixed(b), final(self).registers,
                        final(self).memory.memory@, st),
                    Err(_) => false,
                }
            }),
    {
        let instruction_byte = self.fetch_next_byte();
        let instruction = PrefixedInstruction::decode(instruction_byte);
        match instruction {
            PrefixedInstruction::BitB3R8 { .. } | PrefixedInstruction::ResB3R8 { .. }
                | PrefixedInstruction::SetB3R8 { .. } => self.exec_prefixed_bits(instruction),
            _ => self.exec_prefixed_rotates(instruction),
        }
    }

    /// Execute exactly one instruction: fetch and decode the byte at PC,
    /// following a 0xCB prefix into the extended table, and report the
    /// machine cycles consumed (or the halted state). The one error under
    /// well-formed memory is an unassigned opcode, reported with the
    /// offending byte; and the low nibble of F stays zero.
    pub fn run_next_instruction(&mut self) -> (r: Result<Status, CpuError>)
        requires
            old(self).wf(),
        ensures
            final(self).wf(),
            old(self).registers.af as int % 16 == 0 ==> final(self).registers.af as int % 16 == 0,
            full_step(old(self).registers, old(self).memory.memory@, final(self).registers,
                final(self).memory.memory@, r),
    {
        let result = match self.run_8bit_opcode() {
            Ok(s) => s,
            Err(e) => {
                return Err(e);
            },
        };
        match result {
            Status::Prefix => self.run_16bit_opcode(),
            _ => Ok(result),
        }
    }

    /// Run `num` instructions in sequence, stopping at the first error: a
    /// successful run is `num` chained `full_step` transitions, and an
    /// error is the first failing step, reported as soon as it happens,
    /// with the effects of the completed steps (and of the failing fetch)
    /// kept in place.
    pub fn run_num_instructions(&mut self, num: u8) -> (r: Result<(), CpuError>)
        requires
            old(self).wf(),
        ensures
            final(self).wf(),
            old(self).registers.af as int % 16 == 0 ==> final(self).registers.af as int % 16 == 0,
            (match r {
                Ok(_) => multi_step(old(self).registers, old(self).memory.memory@,
                    final(self).registers, final(self).memory.memory@, num as nat),
                Err(e) => exists|rm: Registers, mm: Seq<u8>, k: nat|
                    {
                        &&& k < num
                        &&& #[trigger] multi_step(old(self).registers, old(self).memory.memory@,
                            rm, mm, k)
                        &&& full_step(rm, mm, final(self).registers, final(self).memory.memory@,
                            Err::<Status, CpuError>(e))
                    },
            }),
    {
        let mut i: u8 = 0;
        while i < num
            invariant
                self.wf(),
                i <= num,
                old(self).registers.af as int % 16 == 0 ==> self.registers.af as int % 16 == 0,
                multi_step(old(self).registers, old(self).memory.memory@, self.registers,
                    self.memory.memory@, i as nat),
            decreases num - i,
        {
            let ghost pre_regs = self.registers;
            let ghost pre_mem = self.memory.memory@;
            match self.run_next_instruction() {
                Ok(st) => {
                    proof {
                        lemma_multi_step_extend(old(self).registers, old(self).memory.memory@,
                            pre_regs, pre_mem, self.registers, self.memory.memory@, st, i as nat);
                    }
                },
                Err(e) => {
                    proof {
                        assert(multi_step(old(self).registers, old(self).memory.memory@, pre_regs,
                            pre_mem, i as nat) && full_step(pre_regs, pre_mem, self.registers,
                            self.memory.memory@, Err::<Status, CpuError>(e)));
                    }
                    return Err(e);
                },
            }
            i = i + 1;
        }
        Ok(())
    }
}

/// Wraparound law: a 16-bit INC at 0xFFFF wraps to 0x0000 without error.
#[verifier::rlimit(50)]
pub proof fn lemma_inc_r16_wraps(
    r0: Registers,
    m0: Seq<u8>,
    reg: R16,
    r1: Registers,
    m1: Seq<u8>,
    st: Status,
)
    requires
        step8(r0, m0, Instruction::IncR16 { reg }, r1, m1, st),
        crate::registers::spec_r16(r0, reg) == 0xFFFF,
    ensures
        crate::registers::spec_r16(r1, reg) == 0,
{
}

/// Wraparound law: a 16-bit DEC at 0x0000 wraps to 0xFFFF without error.
#[verifier::rlimit(50)]
pub proof fn lemma_dec_r16_wraps(
    r0: Registers,
    m0: Seq<u8>,
    reg: R16,
    r1: Registers,
    m1: Seq<u8>,
    st: Status,
)
    requires
        step8(r0, m0, Instruction::DecR16 { reg }, r1, m1, st),
        crate::registers::spec_r16(r0, reg) == 0,
    ensures
        crate::registers::spec_r16(r1, reg) == 0xFFFF,
{
}

/// Conditional-branch cycle differential: the same JR opcode costs three
/// machine cycles when its condition holds and two when it does not, so a
/// taken branch always costs strictly more.
#[verifier::rlimit(50)]
pub proof fn lemma_jr_cond_cycle_differential(
    rt0: Registers,
    mt0: Seq<u8>,
    rt1: Registers,
    mt1: Seq<u8>,
    stt: Status,
    rn0: Registers,
    mn0: Seq<u8>,
    rn1: Registers,
    mn1: Seq<u8>,
    stn: Status,
    cond: Cond,
)
    requires
        step8(rt0, mt0, Instruction::JrCondImm8 { cond }, rt1, mt1, stt),
        step8(rn0, mn0, Instruction::JrCondImm8 { cond }, rn1, mn1, stn),
        cond_holds(rt0.af, cond),
        !cond_holds(rn0.af, cond),
    ensures
        stt == Status::Cycles(3u8),
        stn == Status::Cycles(2u8),
{
}


} // verus!
