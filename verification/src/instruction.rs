use vstd::prelude::*;

verus! {

use crate::CpuError;
use crate::byte_instruction::ByteInstruction;
use crate::registers::{Cond, R8, R16, R16Mem, R16Stk};

/// One decoded instruction of the base (unprefixed) opcode table. Each
/// variant carries only the operand selectors; immediates are fetched from
/// memory during execution, not stored here.
#[derive(Clone, Copy, Debug, PartialEq, Eq, Structural)]
pub enum Instruction {
    Nop,
    Halt,
    LdR16Imm16 { reg: R16 },
    LdR16memA { reg: R16Mem },
    LdAR16mem { reg: R16Mem },
    LdImm16Sp,
    IncR16 { reg: R16 },
    DecR16 { reg: R16 },
    AddHlR16 { reg: R16 },
    IncR8 { reg: R8 },
    DecR8 { reg: R8 },
    LdR8Imm8 { reg: R8 },
    Rlca,
    Rrca,
    Rla,
    Rra,
    Daa,
    Cpl,
    Scf,
    Ccf,
    JrImm8,
    JrCondImm8 { cond: Cond },
    LdR8R8 { src: R8, dst: R8 },
    AddAR8 { reg: R8, carry: bool },
    SubAR8 { reg: R8, carry: bool },
    AndAR8 { reg: R8 },
    XorAR8 { reg: R8 },
    OrAR8 { reg: R8 },
    CpAR8 { reg: R8 },
    AddAImm8 { carry: bool },
    SubAImm8 { carry: bool },
    AndAImm8,
    XorAImm8,
    OrAImm8,
    CpAImm8,
    RetCond { cond: Cond },
    Ret,
    Reti,
    JpCondImm16 { cond: Cond },
    JpImm16,
    JpHl,
    CallCondImm16 { cond: Cond },
    CallImm16,
    RstTgt3 { tgt3: u8 },
    PopR16stk { reg: R16Stk },
    PushR16stk { reg: R16Stk },
    Prefix,
    LdhCA,
    LdhImm8A,
    LdImm16A,
    LdhAC,
    LdhAImm8,
    LdAImm16,
    AddSpImm8,
    LdHlSpImm8,
    LdSpHl,
    Di,
    Ei,
}

/// One decoded instruction of the extended opcode table that follows a
/// 0xCB prefix byte.
#[derive(Clone, Copy, Debug, PartialEq, Eq, Structural)]
pub enum PrefixedInstruction {
    RlcR8 { reg: R8 },
    RrcR8 { reg: R8 },
    RlR8 { reg: R8 },
    RrR8 { reg: R8 },
    SlaR8 { reg: R8 },
    SraR8 { reg: R8 },
    SwapR8 { reg: R8 },
    SrlR8 { reg: R8 },
    BitB3R8 { bit: u8, reg: R8 },
    ResB3R8 { bit: u8, reg: R8 },
    SetB3R8 { bit: u8, reg: R8 },
}

pub open spec fn r8_sel(v: int) -> R8 {
    if v == 0 {
        R8::B
    } else if v == 1 {
        R8::C
    } else if v == 2 {
        R8::D
    } else if v == 3 {
        R8::E
    } else if v == 4 {
        R8::H
    } else if v == 5 {
        R8::L
    } else if v == 6 {
        R8::HL
    } else {
        R8::A
    }
}

pub open spec fn r16_sel(v: int) -> R16 {
    if v == 0 {
        R16::BC
    } else if v == 1 {
        R16::DE
    } else if v == 2 {
        R16::HL
    } else {
        R16::SP
    }
}

pub open spec fn r16mem_sel(v: int) -> R16Mem {
    if v == 0 {
        R16Mem::BC
    } else if v == 1 {
        R16Mem::DE
    } else if v == 2 {
        R16Mem::HLI
    } else {
        R16Mem::HLD
    }
}

pub open spec fn r16stk_sel(v: int) -> R16Stk {
    if v == 0 {
        R16Stk::BC
    } else if v == 1 {
        R16Stk::DE
    } else if v == 2 {
        R16Stk::HL
    } else {
        R16Stk::AF
    }
}

pub open spec fn cond_sel(v: int) -> Cond {
    if v == 0 {
        Cond::NZ
    } else if v == 1 {
        Cond::Z
    } else if v == 2 {
        Cond::NC
    } else {
        Cond::C
    }
}

/// The base opcode table: which instruction a byte decodes to, or `None`
/// for the handful of unassigned SM83 opcodes.
pub open spec fn spec_decode(b: u8) -> Option<Instruction> {
    let x = b / 64;
    let y = (b / 8) % 8;
    let z = b % 8;
    let p = (b / 16) % 4;
    let q = (b / 8) % 2 == 1;
    if x == 0 {
        if z == 0 {
            if y == 0 {
                Some(Instruction::Nop)
            } else if y == 1 {
                Some(Instruction::LdImm16Sp)
            } else if y == 2 {
                None
            } else if y == 3 {
                Some(Instruction::JrImm8)
            } else {
                Some(Instruction::JrCondImm8 { cond: cond_sel(y - 4) })
            }
        } else if z == 1 {
            if !q {
                Some(Instruction::LdR16Imm16 { reg: r16_sel(p as int) })
            } else {
                Some(Instruction::AddHlR16 { reg: r16_sel(p as int) })
            }
        } else if z == 2 {
            if !q {
                Some(Instruction::LdR16memA { reg: r16mem_sel(p as int) })
            } else {
                Some(Instruction::LdAR16mem { reg: r16mem_sel(p as int) })
            }
        } else if z == 3 {
            if !q {
                Some(Instruction::IncR16 { reg: r16_sel(p as int) })
            } else {
                Some(Instruction::DecR16 { reg: r16_sel(p as int) })
            }
        } else if z == 4 {
            Some(Instruction::IncR8 { reg: r8_sel(y as int) })
        } else if z == 5 {
            Some(Instruction::DecR8 { reg: r8_sel(y as int) })
        } else if z == 6 {
            Some(Instruction::LdR8Imm8 { reg: r8_sel(y as int) })
        } else {
            if y == 0 {
                Some(Instruction::Rlca)
            } else if y == 1 {
                Some(Instruction::Rrca)
            } else if y == 2 {
                Some(Instruction::Rla)
            } else if y == 3 {
                Some(Instruction::Rra)
            } else if y == 4 {
                Some(Instruction::Daa)
            } else if y == 5 {
                Some(Instruction::Cpl)
            } else if y == 6 {
                Some(Instruction::Scf)
            } else {
                Some(Instruction::Ccf)
            }
        }
    } else if x == 1 {
        if b == 0x76 {
            Some(Instruction::Halt)
        } else {
            Some(Instruction::LdR8R8 { src: r8_sel(z as int), dst: r8_sel(y as int) })
        }
    } else if x == 2 {
        if y == 0 || y == 1 {
            Some(Instruction::AddAR8 { reg: r8_sel(z as int), carry: q })
        } else if y == 2 || y == 3 {
            Some(Instruction::SubAR8 { reg: r8_sel(z as int), carry: q })
        } else if y == 4 {
            Some(Instruction::AndAR8 { reg: r8_sel(z as int) })
        } else if y == 5 {
            Some(Instruction::XorAR8 { reg: r8_sel(z as int) })
        } else if y == 6 {
            Some(Instruction::OrAR8 { reg: r8_sel(z as int) })
        } else {
            Some(Instruction::CpAR8 { reg: r8_sel(z as int) })
        }
    } else {
        if z == 0 {
            if y < 4 {
                Some(Instruction::RetCond { cond: cond_sel(y as int) })
            } else if y == 4 {
                Some(Instruction::LdhImm8A)
            } else if y == 5 {
                Some(Instruction::AddSpImm8)
            } else if y == 6 {
                Some(Instruction::LdhAImm8)
            } else {
                Some(Instruction::LdHlSpImm8)
            }
        } else if z == 1 {
            if !q {
                Some(Instruction::PopR16stk { reg: r16stk_sel(p as int) })
            } else if p == 0 {
                Some(Instruction::Ret)
            } else if p == 1 {
                Some(Instruction::Reti)
            } else if p == 2 {
                Some(Instruction::JpHl)
            } else {
                Some(Instruction::LdSpHl)
            }
        } else if z == 2 {
            if y < 4 {
                Some(Instruction::JpCondImm16 { cond: cond_sel(y as int) })
            } else if y == 4 {
                Some(Instruction::LdhCA)
            } else if y == 5 {
                Some(Instruction::LdImm16A)
            } else if y == 6 {
                Some(Instruction::LdhAC)
            } else {
                Some(Instruction::LdAImm16)
            }
        } else if z == 3 {
            if y == 0 {
                Some(Instruction::JpImm16)
            } else if y == 1 {
                Some(Instruction::Prefix)
            } else if y == 6 {
                Some(Instruction::Di)
            } else if y == 7 {
                Some(Instruction::Ei)
            } else {
                None
            }
        } else if z == 4 {
            if y < 4 {
                Some(Instruction::CallCondImm16 { cond: cond_sel(y as int) })
            } else {
                None
            }
        } else if z == 5 {
            if !q {
                Some(Instruction::PushR16stk { reg: r16stk_sel(p as int) })
            } else if p == 0 {
                Some(Instruction::CallImm16)
            } else {
                None
            }
        } else if z == 6 {
            if y == 0 || y == 1 {
                Some(Instruction::AddAImm8 { carry: q })
            } else if y == 2 || y == 3 {
                Some(Instruction::SubAImm8 { carry: q })
            } else if y == 4 {
                Some(Instruction::AndAImm8)
            } else if y == 5 {
                Some(Instruction::XorAImm8)
            } else if y == 6 {
                Some(Instruction::OrAImm8)
            } else {
                Some(Instruction::CpAImm8)
            }
        } else {
            Some(Instruction::RstTgt3 { tgt3: y })
        }
    }
}

/// The extended opcode table: every byte after a 0xCB prefix decodes to
/// exactly one instruction.
pub open spec fn spec_decode_prefixed(b: u8) -> PrefixedInstruction {
    let x = b / 64;
    let y = (b / 8) % 8;
    let z = b % 8;
    if x == 0 {
        if y == 0 {
            PrefixedInstruction::RlcR8 { reg: r8_sel(z as int) }
        } else if y == 1 {
            PrefixedInstruction::RrcR8 { reg: r8_sel(z as int) }
        } else if y == 2 {
            PrefixedInstruction::RlR8 { reg: r8_sel(z as int) }
        } else if y == 3 {
            PrefixedInstruction::RrR8 { reg: r8_sel(z as int) }
        } else if y == 4 {
            PrefixedInstruction::SlaR8 { reg: r8_sel(z as int) }
        } else if y == 5 {
            PrefixedInstruction::SraR8 { reg: r8_sel(z as int) }
        } else if y == 6 {
            PrefixedInstruction::SwapR8 { reg: r8_sel(z as int) }
        } else {
            PrefixedInstruction::SrlR8 { reg: r8_sel(z as int) }
        }
    } else if x == 1 {
        PrefixedInstruction::BitB3R8 { bit: y, reg: r8_sel(z as int) }
    } else if x == 2 {
        PrefixedInstruction::ResB3R8 { bit: y, reg: r8_sel(z as int) }
    } else {
        PrefixedInstruction::SetB3R8 { bit: y, reg: r8_sel(z as int) }
    }
}

fn r8_of(v: u8) -> (r: R8)
    requires
        v < 8,
    ensures
        r == r8_sel(v as int),
{
    match v {
        0 => R8::B,
        1 => R8::C,
        2 => R8::D,
        3 => R8::E,
        4 => R8::H,
        5 => R8::L,
        6 => R8::HL,
        _ => R8::A,
    }
}

fn r16_of(v: u8) -> (r: R16)
    requires
        v < 4,
    ensures
        r == r16_sel(v as int),
{
    match v {
        0 => R16::BC,
        1 => R16::DE,
        2 => R16::HL,
        _ => R16::SP,
    }
}

fn r16mem_of(v: u8) -> (r: R16Mem)
    requires
        v < 4,
    ensures
        r == r16mem_sel(v as int),
{
    match v {
        0 => R16Mem::BC,
        1 => R16Mem::DE,
        2 => R16Mem::HLI,
        _ => R16Mem::HLD,
    }
}

fn r16stk_of(v: u8) -> (r: R16Stk)
    requires
        v < 4,
    ensures
        r == r16stk_sel(v as int),
{
    match v {
        0 => R16Stk::BC,
        1 => R16Stk::DE,
        2 => R16Stk::HL,
        _ => R16Stk::AF,
    }
}

fn cond_of(v: u8) -> (r: Cond)
    requires
        v < 4,
    ensures
        r == cond_sel(v as int),
{
    match v {
        0 => Cond::NZ,
        1 => Cond::Z,
        2 => Cond::NC,
        _ => Cond::C,
    }
}

impl Instruction {
    /// Decode one opcode byte of the base table; an unassigned byte is a
    /// decode error carrying that byte.
    pub fn decode(value: u8) -> (r: Result<Instruction, CpuError>)
        ensures
            r == (match spec_decode(value) {
                Some(i) => Ok::<Instruction, CpuError>(i),
                None => Err::<Instruction, CpuError>(CpuError::Decode { byte: value }),
            }),
    {
        let fields = ByteInstruction(value);
        let x = fields.x();
        let y = fields.y();
        let z = fields.z();
        let p = fields.p();
        let q = fields.q();
        if x == 0 {
            if z == 0 {
                if y == 0 {
                    Ok(Instruction::Nop)
                } else if y == 1 {
                    Ok(Instruction::LdImm16Sp)
                } else if y == 2 {
                    Err(CpuError::Decode { byte: value })
                } else if y == 3 {
                    Ok(Instruction::JrImm8)
                } else {
                    Ok(Instruction::JrCondImm8 { cond: cond_of(y - 4) })
                }
            } else if z == 1 {
                if !q {
                    Ok(Instruction::LdR16Imm16 { reg: r16_of(p) })
                } else {
                    Ok(Instruction::AddHlR16 { reg: r16_of(p) })
                }
            } else if z == 2 {
                if !q {
                    Ok(Instruction::LdR16memA { reg: r16mem_of(p) })
                } else {
                    Ok(Instruction::LdAR16mem { reg: r16mem_of(p) })
                }
            } else if z == 3 {
                if !q {
                    Ok(Instruction::IncR16 { reg: r16_of(p) })
                } else {
                    Ok(Instruction::DecR16 { reg: r16_of(p) })
                }
            } else if z == 4 {
                Ok(Instruction::IncR8 { reg: r8_of(y) })
            } else if z == 5 {
                Ok(Instruction::DecR8 { reg: r8_of(y) })
            } else if z == 6 {
                Ok(Instruction::LdR8Imm8 { reg: r8_of(y) })
            } else {
                if y == 0 {
                    Ok(Instruction::Rlca)
                } else if y == 1 {
                    Ok(Instruction::Rrca)
                } else if y == 2 {
                    Ok(Instruction::Rla)
                } else if y == 3 {
                    Ok(Instruction::Rra)
                } else if y == 4 {
                    Ok(Instruction::Daa)
                } else if y == 5 {
                    Ok(Instruction::Cpl)
                } else if y == 6 {
                    Ok(Instruction::Scf)
                } else {
                    Ok(Instruction::Ccf)
                }
            }
        } else if x == 1 {
            if value == 0x76 {
                Ok(Instruction::Halt)
            } else {
                Ok(Instruction::LdR8R8 { src: r8_of(z), dst: r8_of(y) })
            }
        } else if x == 2 {
            if y == 0 || y == 1 {
                Ok(Instruction::AddAR8 { reg: r8_of(z), carry: q })
            } else if y == 2 || y == 3 {
                Ok(Instruction::SubAR8 { reg: r8_of(z), carry: q })
            } else if y == 4 {
                Ok(Instruction::AndAR8 { reg: r8_of(z) })
            } else if y == 5 {
                Ok(Instruction::XorAR8 { reg: r8_of(z) })
            } else if y == 6 {
                Ok(Instruction::OrAR8 { reg: r8_of(z) })
            } else {
                Ok(Instruction::CpAR8 { reg: r8_of(z) })
            }
        } else {
            if z == 0 {
                if y < 4 {
                    Ok(Instruction::RetCond { cond: cond_of(y) })
                } else if y == 4 {
                    Ok(Instruction::LdhImm8A)
                } else if y == 5 {
                    Ok(Instruction::AddSpImm8)
                } else if y == 6 {
                    Ok(Instruction::LdhAImm8)
                } else {
                    Ok(Instruction::LdHlSpImm8)
                }
            } else if z == 1 {
                if !q {
                    Ok(Instruction::PopR16stk { reg: r16stk_of(p) })
                } else if p == 0 {
                    Ok(Instruction::Ret)
                } else if p == 1 {
                    Ok(Instruction::Reti)
                } else if p == 2 {
                    Ok(Instruction::JpHl)
                } else {
                    Ok(Instruction::LdSpHl)
                }
            } else if z == 2 {
                if y < 4 {
                    Ok(Instruction::JpCondImm16 { cond: cond_of(y) })
                } else if y == 4 {
                    Ok(Instruction::LdhCA)
                } else if y == 5 {
                    Ok(Instruction::LdImm16A)
                } else if y == 6 {
                    Ok(Instruction::LdhAC)
                } else {
                    Ok(Instruction::LdAImm16)
                }
            } else if z == 3 {
                if y == 0 {
                    Ok(Instruction::JpImm16)
                } else if y == 1 {
                    Ok(Instruction::Prefix)
                } else if y == 6 {
                    Ok(Instruction::Di)
                } else if y == 7 {
                    Ok(Instruction::Ei)
                } else {
                    Err(CpuError::Decode { byte: value })
                }
            } else if z == 4 {
                if y < 4 {
                    Ok(Instruction::CallCondImm16 { cond: cond_of(y) })
                } else {
                    Err(CpuError::Decode { byte: value })
                }
            } else if z == 5 {
                if !q {
                    Ok(Instruction::PushR16stk { reg: r16stk_of(p) })
                } else if p == 0 {
                    Ok(Instruction::CallImm16)
                } else {
                    Err(CpuError::Decode { byte: value })
                }
            } else if z == 6 {
                if y == 0 || y == 1 {
                    Ok(Instruction::AddAImm8 { carry: q })
                } else if y == 2 || y == 3 {
                    Ok(Instruction::SubAImm8 { carry: q })
                } else if y == 4 {
                    Ok(Instruction::AndAImm8)
                } else if y == 5 {
                    Ok(Instruction::XorAImm8)
                } else if y == 6 {
                    Ok(Instruction::OrAImm8)
                } else {
                    Ok(Instruction::CpAImm8)
                }
            } else {
                Ok(Instruction::RstTgt3 { tgt3: y })
            }
        }
    }
}

/// The baseline machine-cycle cost of each base-table instruction; for
/// conditional branches this is the not-taken cost.
pub open spec fn spec_cycles(i: Instruction) -> u8 {
    match i {
        Instruction::Nop => 1,
        Instruction::Halt => 1,
        Instruction::LdR16Imm16 { .. } => 3,
        Instruction::LdR16memA { .. } => 2,
        Instruction::LdAR16mem { .. } => 2,
        Instruction::LdImm16Sp => 5,
        Instruction::IncR16 { .. } => 2,
        Instruction::DecR16 { .. } => 2,
        Instruction::AddHlR16 { .. } => 2,
        Instruction::IncR8 { reg: R8::HL } => 3,
        Instruction::DecR8 { reg: R8::HL } => 3,
        Instruction::IncR8 { .. } => 1,
        Instruction::DecR8 { .. } => 1,
        Instruction::LdR8Imm8 { reg: R8::HL } => 3,
        Instruction::LdR8Imm8 { .. } => 2,
        Instruction::Rlca => 1,
        Instruction::Rrca => 1,
        Instruction::Rla => 1,
        Instruction::Rra => 1,
        Instruction::Daa => 1,
        Instruction::Cpl => 1,
        Instruction::Scf => 1,
        Instruction::Ccf => 1,
        Instruction::JrImm8 => 3,
        Instruction::JrCondImm8 { .. } => 2,
        Instruction::LdR8R8 { src: R8::HL, .. } => 2,
        Instruction::LdR8R8 { dst: R8::HL, .. } => 2,
        Instruction::LdR8R8 { .. } => 1,
        Instruction::AddAR8 { reg: R8::HL, .. } => 2,
        Instruction::AddAR8 { .. } => 1,
        Instruction::SubAR8 { reg: R8::HL, .. } => 2,
        Instruction::SubAR8 { .. } => 1,
        Instruction::AndAR8 { reg: R8::HL } => 2,
        Instruction::AndAR8 { .. } => 1,
        Instruction::XorAR8 { reg: R8::HL } => 2,
        Instruction::XorAR8 { .. } => 1,
        Instruction::OrAR8 { reg: R8::HL } => 2,
        Instruction::OrAR8 { .. } => 1,
        Instruction::CpAR8 { reg: R8::HL } => 2,
        Instruction::CpAR8 { .. } => 1,
        Instruction::AddAImm8 { .. } => 2,
        Instruction::SubAImm8 { .. } => 2,
        Instruction::AndAImm8 => 2,
        Instruction::XorAImm8 => 2,
        Instruction::OrAImm8 => 2,
        Instruction::CpAImm8 => 2,
        Instruction::RetCond { .. } => 2,
        Instruction::Ret => 4,
        Instruction::Reti => 4,
        Instruction::JpCondImm16 { .. } => 3,
        Instruction::JpImm16 => 4,
        Instruction::JpHl => 1,
        Instruction::CallCondImm16 { .. } => 3,
        Instruction::CallImm16 => 6,
        Instruction::RstTgt3 { .. } => 4,
        Instruction::PopR16stk { .. } => 3,
        Instruction::PushR16stk { .. } => 4,
        Instruction::Prefix => 0,
        Instruction::LdhCA => 2,
        Instruction::LdhImm8A => 3,
        Instruction::LdImm16A => 4,
        Instruction::LdhAC => 2,
        Instruction::LdhAImm8 => 3,
        Instruction::LdAImm16 => 4,
        Instruction::AddSpImm8 => 4,
        Instruction::LdHlSpImm8 => 3,
        Instruction::LdSpHl => 2,
        Instruction::Di => 1,
        Instruction::Ei => 1,
    }
}

impl Instruction {
    pub fn cycles(&self) -> (r: u8)
        ensures
            r == spec_cycles(*self),
    {
        match self {
            Instruction::Nop => 1,
            Instruction::Halt => 1,
            Instruction::LdR16Imm16 { .. } => 3,
            Instruction::LdR16memA { .. } => 2,
            Instruction::LdAR16mem { .. } => 2,
            Instruction::LdImm16Sp => 5,
            Instruction::IncR16 { .. } => 2,
            Instruction::DecR16 { .. } => 2,
            Instruction::AddHlR16 { .. } => 2,
            Instruction::IncR8 { reg: R8::HL } => 3,
            Instruction::DecR8 { reg: R8::HL } => 3,
            Instruction::IncR8 { .. } => 1,
            Instruction::DecR8 { .. } => 1,
            Instruction::LdR8Imm8 { reg: R8::HL } => 3,
            Instruction::LdR8Imm8 { .. } => 2,
            Instruction::Rlca => 1,
            Instruction::Rrca => 1,
            Instruction::Rla => 1,
            Instruction::Rra => 1,
            Instruction::Daa => 1,
            Instruction::Cpl => 1,
            Instruction::Scf => 1,
            Instruction::Ccf => 1,
            Instruction::JrImm8 => 3,
            Instruction::JrCondImm8 { .. } => 2,
            Instruction::LdR8R8 { src: R8::HL, .. } => 2,
            Instruction::LdR8R8 { dst: R8::HL, .. } => 2,
            Instruction::LdR8R8 { .. } => 1,
            Instruction::AddAR8 { reg: R8::HL, .. } => 2,
            Instruction::AddAR8 { .. } => 1,
            Instruction::SubAR8 { reg: R8::HL, .. } => 2,
            Instruction::SubAR8 { .. } => 1,
            Instruction::AndAR8 { reg: R8::HL } => 2,
            Instruction::AndAR8 { .. } => 1,
            Instruction::XorAR8 { reg: R8::HL } => 2,
            Instruction::XorAR8 { .. } => 1,
            Instruction::OrAR8 { reg: R8::HL } => 2,
            Instruction::OrAR8 { .. } => 1,
            Instruction::CpAR8 { reg: R8::HL } => 2,
            Instruction::CpAR8 { .. } => 1,
            Instruction::AddAImm8 { .. } => 2,
            Instruction::SubAImm8 { .. } => 2,
            Instruction::AndAImm8 => 2,
            Instruction::XorAImm8 => 2,
            Instruction::OrAImm8 => 2,
            Instruction::CpAImm8 => 2,
            Instruction::RetCond { .. } => 2,
            Instruction::Ret => 4,
            Instruction::Reti => 4,
            Instruction::JpCondImm16 { .. } => 3,
            Instruction::JpImm16 => 4,
            Instruction::JpHl => 1,
            Instruction::CallCondImm16 { .. } => 3,
            Instruction::CallImm16 => 6,
            Instruction::RstTgt3 { .. } => 4,
            Instruction::PopR16stk { .. } => 3,
            Instruction::PushR16stk { .. } => 4,
            Instruction::Prefix => 0,
            Instruction::LdhCA => 2,
            Instruction::LdhImm8A => 3,
            Instruction::LdImm16A => 4,
            Instruction::LdhAC => 2,
            Instruction::LdhAImm8 => 3,
            Instruction::LdAImm16 => 4,
            Instruction::AddSpImm8 => 4,
            Instruction::LdHlSpImm8 => 3,
            Instruction::LdSpHl => 2,
            Instruction::Di => 1,
            Instruction::Ei => 1,
        }
    }
}

/// The machine-cycle cost of each extended-table instruction.
pub open spec fn spec_prefixed_cycles(i: PrefixedInstruction) -> u8 {
    match i {
        PrefixedInstruction::RlcR8 { reg: R8::HL } => 4,
        PrefixedInstruction::RlcR8 { .. } => 2,
        PrefixedInstruction::RrcR8 { reg: R8::HL } => 4,
        PrefixedInstruction::RrcR8 { .. } => 2,
        PrefixedInstruction::RlR8 { reg: R8::HL } => 4,
        PrefixedInstruction::RlR8 { .. } => 2,
        PrefixedInstruction::RrR8 { reg: R8::HL } => 4,
        PrefixedInstruction::RrR8 { .. } => 2,
        PrefixedInstruction::SlaR8 { reg: R8::HL } => 4,
        PrefixedInstruction::SlaR8 { .. } => 2,
        PrefixedInstruction::SraR8 { reg: R8::HL } => 4,
        PrefixedInstruction::SraR8 { .. } => 2,
        PrefixedInstruction::SwapR8 { reg: R8::HL } => 4,
        PrefixedInstruction::SwapR8 { .. } => 2,
        PrefixedInstruction::SrlR8 { reg: R8::HL } => 4,
        PrefixedInstruction::SrlR8 { .. } => 2,
        PrefixedInstruction::BitB3R8 { reg: R8::HL, .. } => 3,
        PrefixedInstruction::BitB3R8 { .. } => 2,
        PrefixedInstruction::ResB3R8 { reg: R8::HL, .. } => 4,
        PrefixedInstruction::ResB3R8 { .. } => 2,
        PrefixedInstruction::SetB3R8 { reg: R8::HL, .. } => 4,
        PrefixedInstruction::SetB3R8 { .. } => 2,
    }
}

impl PrefixedInstruction {
    /// Decode one opcode byte of the extended table; every byte value is
    /// assigned, so this cannot fail.
    pub fn decode(value: u8) -> (r: PrefixedInstruction)
        ensures
            r == spec_decode_prefixed(value),
    {
        let fields = ByteInstruction(value);
        let x = fields.x();
        let y = fields.y();
        let z = fields.z();
        if x == 0 {
            if y == 0 {
                PrefixedInstruction::RlcR8 { reg: r8_of(z) }
            } else if y == 1 {
                PrefixedInstruction::RrcR8 { reg: r8_of(z) }
            } else if y == 2 {
                PrefixedInstruction::RlR8 { reg: r8_of(z) }
            } else if y == 3 {
                PrefixedInstruction::RrR8 { reg: r8_of(z) }
            } else if y == 4 {
                PrefixedInstruction::SlaR8 { reg: r8_of(z) }
            } else if y == 5 {
                PrefixedInstruction::SraR8 { reg: r8_of(z) }
            } else if y == 6 {
                PrefixedInstruction::SwapR8 { reg: r8_of(z) }
            } else {
                PrefixedInstruction::SrlR8 { reg: r8_of(z) }
            }
        } else if x == 1 {
            PrefixedInstruction::BitB3R8 { bit: y, reg: r8_of(z) }
        } else if x == 2 {
            PrefixedInstruction::ResB3R8 { bit: y, reg: r8_of(z) }
        } else {
            PrefixedInstruction::SetB3R8 { bit: y, reg: r8_of(z) }
        }
    }

    pub fn cycles(&self) -> (r: u8)
        ensures
            r == spec_prefixed_cycles(*self),
    {
        match self {
            PrefixedInstruction::RlcR8 { reg: R8::HL } => 4,
            PrefixedInstruction::RlcR8 { .. } => 2,
            PrefixedInstruction::RrcR8 { reg: R8::HL } => 4,
            PrefixedInstruction::RrcR8 { .. } => 2,
            PrefixedInstruction::RlR8 { reg: R8::HL } => 4,
            PrefixedInstruction::RlR8 { .. } => 2,
            PrefixedInstruction::RrR8 { reg: R8::HL } => 4,
            PrefixedInstruction::RrR8 { .. } => 2,
            PrefixedInstruction::SlaR8 { reg: R8::HL } => 4,
            PrefixedInstruction::SlaR8 { .. } => 2,
            PrefixedInstruction::SraR8 { reg: R8::HL } => 4,
            PrefixedInstruction::SraR8 { .. } => 2,
            PrefixedInstruction::SwapR8 { reg: R8::HL } => 4,
            PrefixedInstruction::SwapR8 { .. } => 2,
            PrefixedInstruction::SrlR8 { reg: R8::HL } => 4,
            PrefixedInstruction::SrlR8 { .. } => 2,
            PrefixedInstruction::BitB3R8 { reg: R8::HL, .. } => 3,
            PrefixedInstruction::BitB3R8 { .. } => 2,
            PrefixedInstruction::ResB3R8 { reg: R8::HL, .. } => 4,
            PrefixedInstruction::ResB3R8 { .. } => 2,
            PrefixedInstruction::SetB3R8 { reg: R8::HL, .. } => 4,
            PrefixedInstruction::SetB3R8 { .. } => 2,
        }
    }
}

} // verus!
