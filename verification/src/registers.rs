use vstd::prelude::*;

verus! {

use crate::CpuError;
use crate::utils::{
    high_byte, low_byte, spec_set_high, wrap_add16, wrap_inc, wrap_dec, set_high, high_u8, low_u8,
};
use vstd::arithmetic::div_mod::lemma_fundamental_div_mod_converse;

/// Whether the zero flag (bit 7 of F) is set in an AF value.
pub open spec fn z_of(af: u16) -> bool {
    (af / 128) % 2 == 1
}

/// Whether the subtract flag (bit 6 of F) is set in an AF value.
pub open spec fn n_of(af: u16) -> bool {
    (af / 64) % 2 == 1
}

/// Whether the half-carry flag (bit 5 of F) is set in an AF value.
pub open spec fn h_of(af: u16) -> bool {
    (af / 32) % 2 == 1
}

/// Whether the carry flag (bit 4 of F) is set in an AF value.
pub open spec fn c_of(af: u16) -> bool {
    (af / 16) % 2 == 1
}

pub open spec fn bit_int(b: bool) -> int {
    if b {
        1
    } else {
        0
    }
}

/// An AF value with the four flag bits replaced and everything else
/// (the accumulator byte and the low nibble of F) kept.
#[verifier::opaque]
pub open spec fn with_flags(af: u16, z: bool, n: bool, h: bool, c: bool) -> u16 {
    ((af as int / 256) * 256 + bit_int(z) * 128 + bit_int(n) * 64 + bit_int(h) * 32 + bit_int(c)
        * 16 + (af as int) % 16) as u16
}

/// A 16-bit value with its low nibble cleared, as stored into AF by a
/// stack pop: the low four bits of F always read as zero.
pub open spec fn mask_flag_nibble(v: u16) -> u16 {
    ((v as int / 16) * 16) as u16
}

/// How an AF value with freshly written flag bits reads back: each flag
/// getter returns the bit just written, and the accumulator byte and the
/// low nibble of F are untouched.
pub proof fn lemma_with_flags_parts(af: u16, z: bool, n: bool, h: bool, c: bool)
    ensures
        z_of(with_flags(af, z, n, h, c)) == z,
        n_of(with_flags(af, z, n, h, c)) == n,
        h_of(with_flags(af, z, n, h, c)) == h,
        c_of(with_flags(af, z, n, h, c)) == c,
        high_byte(with_flags(af, z, n, h, c)) == high_byte(af),
        with_flags(af, z, n, h, c) as int % 16 == af as int % 16,
{
    reveal(with_flags);
    let acc = af as int / 256;
    let nib = af as int % 16;
    let zi = bit_int(z);
    let ni = bit_int(n);
    let hi = bit_int(h);
    let ci = bit_int(c);
    let v = acc * 256 + zi * 128 + ni * 64 + hi * 32 + ci * 16 + nib;
    assert(0 <= nib < 16);
    assert(0 <= acc <= 255);
    assert(0 <= v < 65536);
    assert(with_flags(af, z, n, h, c) as int == v);
    lemma_fundamental_div_mod_converse(v, 128, acc * 2 + zi, ni * 64 + hi * 32 + ci * 16 + nib);
    lemma_fundamental_div_mod_converse(acc * 2 + zi, 2, acc, zi);
    lemma_fundamental_div_mod_converse(v, 64, acc * 4 + zi * 2 + ni, hi * 32 + ci * 16 + nib);
    lemma_fundamental_div_mod_converse(acc * 4 + zi * 2 + ni, 2, acc * 2 + zi, ni);
    lemma_fundamental_div_mod_converse(v, 32, acc * 8 + zi * 4 + ni * 2 + hi, ci * 16 + nib);
    lemma_fundamental_div_mod_converse(acc * 8 + zi * 4 + ni * 2 + hi, 2, acc * 4 + zi * 2 + ni,
        hi);
    lemma_fundamental_div_mod_converse(v, 16, acc * 16 + zi * 8 + ni * 4 + hi * 2 + ci, nib);
    lemma_fundamental_div_mod_converse(acc * 16 + zi * 8 + ni * 4 + hi * 2 + ci, 2, acc * 8 + zi
        * 4 + ni * 2 + hi, ci);
    lemma_fundamental_div_mod_converse(v, 256, acc, zi * 128 + ni * 64 + hi * 32 + ci * 16 + nib);
}

// ┌───────┬────┬────┬────┬────┬────┬────┬──────┬────┐
// │       │  0 │  1 │  2 │  3 │  4 │  5 │  6   │  7 │
// ├───────┼────┼────┼────┼────┼────┼────┼──────┼────┤
// │ r8    │ b  │ c  │ d  │ e  │ h  │ l  │ [hl] │ a  │
// │ r16   │ bc │ de │ hl │ sp │    │    │      │    │
// │ r16stk│ bc │ de │ hl │ af │    │    │      │    │
// │ r16mem│ bc │ de │ hl+│ hl-│    │    │      │    │
// │ cond  │ nz │ z  │ nc │ c  │    │    │      │    │
// ├───────┴────┴────┴────┴────┴────┴────┴──────┴────┤
// │ b3    │ A 3-bit bit index                       │
// │ tgt3  │ rst's target address, divided by 8      │
// │ imm8  │ The following byte                      │
// │ imm16 │ The following two bytes (little-endian) │
// └─────────────────────────────────────────────────┘
#[derive(Clone, Copy, Debug, PartialEq, Eq, Structural)]
pub enum R8 {
    B,
    C,
    D,
    E,
    H,
    L,
    HL,
    A,
}

#[derive(Clone, Copy, Debug, PartialEq, Eq, Structural)]
pub enum R16 {
    BC,
    DE,
    HL,
    SP,
}

#[derive(Clone, Copy, Debug, PartialEq, Eq, Structural)]
pub enum R16Mem {
    BC,
    DE,
    HLI,
    HLD,
}

#[derive(Clone, Copy, Debug, PartialEq, Eq, Structural)]
pub enum R16Stk {
    BC,
    DE,
    HL,
    AF,
}

#[derive(Clone, Copy, Debug, PartialEq, Eq, Structural)]
pub enum Cond {
    NZ,
    Z,
    NC,
    C,
}

pub open spec fn spec_r8_from(value: u8) -> Result<R8, CpuError> {
    if value == 0 {
        Ok(R8::B)
    } else if value == 1 {
        Ok(R8::C)
    } else if value == 2 {
        Ok(R8::D)
    } else if value == 3 {
        Ok(R8::E)
    } else if value == 4 {
        Ok(R8::H)
    } else if value == 5 {
        Ok(R8::L)
    } else if value == 6 {
        Ok(R8::HL)
    } else if value == 7 {
        Ok(R8::A)
    } else {
        Err(CpuError::Decode { byte: value })
    }
}

pub open spec fn spec_r16_from(value: u8) -> Result<R16, CpuError> {
    if value == 0 {
        Ok(R16::BC)
    } else if value == 1 {
        Ok(R16::DE)
    } else if value == 2 {
        Ok(R16::HL)
    } else if value == 3 {
        Ok(R16::SP)
    } else {
        Err(CpuError::Decode { byte: value })
    }
}

pub open spec fn spec_r16mem_from(value: u8) -> Result<R16Mem, CpuError> {
    if value == 0 {
        Ok(R16Mem::BC)
    } else if value == 1 {
        Ok(R16Mem::DE)
    } else if value == 2 {
        Ok(R16Mem::HLI)
    } else if value == 3 {
        Ok(R16Mem::HLD)
    } else {
        Err(CpuError::Decode { byte: value })
    }
}

pub open spec fn spec_r16stk_from(value: u8) -> Result<R16Stk, CpuError> {
    if value == 0 {
        Ok(R16Stk::BC)
    } else if value == 1 {
        Ok(R16Stk::DE)
    } else if value == 2 {
        Ok(R16Stk::HL)
    } else if value == 3 {
        Ok(R16Stk::AF)
    } else {
        Err(CpuError::Decode { byte: value })
    }
}

pub open spec fn spec_cond_from(value: u8) -> Result<Cond, CpuError> {
    if value == 0 {
        Ok(Cond::NZ)
    } else if value == 1 {
        Ok(Cond::Z)
    } else if value == 2 {
        Ok(Cond::NC)
    } else if value == 3 {
        Ok(Cond::C)
    } else {
        Err(CpuError::Decode { byte: value })
    }
}

/// Whether a branch condition holds of the flags in an AF value.
pub open spec fn cond_holds(af: u16, cond: Cond) -> bool {
    match cond {
        Cond::NZ => !z_of(af),
        Cond::Z => z_of(af),
        Cond::NC => !c_of(af),
        Cond::C => c_of(af),
    }
}

impl R8 {
    pub fn from_u8(value: u8) -> (r: Result<R8, CpuError>)
        ensures
            r == spec_r8_from(value),
    {
        match value {
            0 => Ok(R8::B),
            1 => Ok(R8::C),
            2 => Ok(R8::D),
            3 => Ok(R8::E),
            4 => Ok(R8::H),
            5 => Ok(R8::L),
            6 => Ok(R8::HL),
            7 => Ok(R8::A),
            _ => Err(CpuError::Decode { byte: value }),
        }
    }
}

impl R16 {
    pub fn from_u8(value: u8) -> (r: Result<R16, CpuError>)
        ensures
            r == spec_r16_from(value),
    {
        match value {
            0 => Ok(R16::BC),
            1 => Ok(R16::DE),
            2 => Ok(R16::HL),
            3 => Ok(R16::SP),
            _ => Err(CpuError::Decode { byte: value }),
        }
    }
}

impl R16Mem {
    pub fn from_u8(value: u8) -> (r: Result<R16Mem, CpuError>)
        ensures
            r == spec_r16mem_from(value),
    {
        match value {
            0 => Ok(R16Mem::BC),
            1 => Ok(R16Mem::DE),
            2 => Ok(R16Mem::HLI),
            3 => Ok(R16Mem::HLD),
            _ => Err(CpuError::Decode { byte: value }),
        }
    }
}

impl R16Stk {
    pub fn from_u8(value: u8) -> (r: Result<R16Stk, CpuError>)
        ensures
            r == spec_r16stk_from(value),
    {
        match value {
            0 => Ok(R16Stk::BC),
            1 => Ok(R16Stk::DE),
            2 => Ok(R16Stk::HL),
            3 => Ok(R16Stk::AF),
            _ => Err(CpuError::Decode { byte: value }),
        }
    }
}

impl Cond {
    pub fn from_u8(value: u8) -> (r: Result<Cond, CpuError>)
        ensures
            r == spec_cond_from(value),
    {
        match value {
            0 => Ok(Cond::NZ),
            1 => Ok(Cond::Z),
            2 => Ok(Cond::NC),
            3 => Ok(Cond::C),
            _ => Err(CpuError::Decode { byte: value }),
        }
    }
}

/// The register file: four 16-bit pairs (AF holds the accumulator in its
/// high byte and the flags in its low byte), the stack pointer and the
/// program counter.
#[derive(Clone, Debug)]
pub struct Registers {
    pub af: u16,
    pub bc: u16,
    pub de: u16,
    pub hl: u16,
    pub sp: u16,
    pub pc: u16,
}

impl Default for Registers {
    fn default() -> (r: Self)
        ensures
            r.af == 0 && r.bc == 0 && r.de == 0 && r.hl == 0 && r.sp == 0 && r.pc == 0,
    {
        Registers { af: 0, bc: 0, de: 0, hl: 0, sp: 0, pc: 0 }
    }
}

impl Registers {
    pub fn a(&self) -> (r: u8)
        ensures
            r == high_byte(self.af),
    {
        high_u8(self.af)
    }

    pub fn set_a(&mut self, val: u8)
        ensures
            final(self).af == spec_set_high(old(self).af, val),
            final(self).af as int % 16 == old(self).af as int % 16,
            final(self).bc == old(self).bc,
            final(self).de == old(self).de,
            final(self).hl == old(self).hl,
            final(self).sp == old(self).sp,
            final(self).pc == old(self).pc,
    {
        proof {
            crate::utils::lemma_set_high_nibble(old(self).af, val);
        }
        self.af = set_high(self.af, val);
    }

    pub fn z_flg(&self) -> (r: bool)
        ensures
            r == z_of(self.af),
    {
        (self.af / 128) % 2 == 1
    }

    pub fn n_flg(&self) -> (r: bool)
        ensures
            r == n_of(self.af),
    {
        (self.af / 64) % 2 == 1
    }

    pub fn h_flg(&self) -> (r: bool)
        ensures
            r == h_of(self.af),
    {
        (self.af / 32) % 2 == 1
    }

    pub fn c_flg(&self) -> (r: bool)
        ensures
            r == c_of(self.af),
    {
        (self.af / 16) % 2 == 1
    }

    /// Replace all four flag bits at once, keeping the accumulator and the
    /// low nibble of F.
    pub fn set_flags(&mut self, z: bool, n: bool, h: bool, c: bool)
        ensures
            final(self).af == with_flags(old(self).af, z, n, h, c),
            z_of(final(self).af) == z,
            n_of(final(self).af) == n,
            h_of(final(self).af) == h,
            c_of(final(self).af) == c,
            high_byte(final(self).af) == high_byte(old(self).af),
            final(self).af as int % 16 == old(self).af as int % 16,
            final(self).bc == old(self).bc,
            final(self).de == old(self).de,
            final(self).hl == old(self).hl,
            final(self).sp == old(self).sp,
            final(self).pc == old(self).pc,
    {
        let acc: u16 = self.af / 256;
        let nib: u16 = self.af % 16;
        self.af = acc * 256 + (if z {
            128u16
        } else {
            0u16
        }) + (if n {
            64u16
        } else {
            0u16
        }) + (if h {
            32u16
        } else {
            0u16
        }) + (if c {
            16u16
        } else {
            0u16
        }) + nib;
        proof {
            reveal(with_flags);
            lemma_with_flags_parts(old(self).af, z, n, h, c);
        }
    }

    pub fn set_z_flg(&mut self, value: bool)
        ensures
            final(self).af == with_flags(old(self).af, value, n_of(old(self).af), h_of(old(self).af),
                c_of(old(self).af)),
            final(self).af as int % 16 == old(self).af as int % 16,
            final(self).bc == old(self).bc,
            final(self).de == old(self).de,
            final(self).hl == old(self).hl,
            final(self).sp == old(self).sp,
            final(self).pc == old(self).pc,
    {
        let n = self.n_flg();
        let h = self.h_flg();
        let c = self.c_flg();
        self.set_flags(value, n, h, c);
    }

    pub fn set_n_flg(&mut self, value: bool)
        ensures
            final(self).af == with_flags(old(self).af, z_of(old(self).af), value, h_of(old(self).af),
                c_of(old(self).af)),
            final(self).af as int % 16 == old(self).af as int % 16,
            final(self).bc == old(self).bc,
            final(self).de == old(self).de,
            final(self).hl == old(self).hl,
            final(self).sp == old(self).sp,
            final(self).pc == old(self).pc,
    {
        let z = self.z_flg();
        let h = self.h_flg();
        let c = self.c_flg();
        self.set_flags(z, value, h, c);
    }

    pub fn set_h_flg(&mut self, value: bool)
        ensures
            final(self).af == with_flags(old(self).af, z_of(old(self).af), n_of(old(self).af), value,
                c_of(old(self).af)),
            final(self).af as int % 16 == old(self).af as int % 16,
            final(self).bc == old(self).bc,
            final(self).de == old(self).de,
            final(self).hl == old(self).hl,
            final(self).sp == old(self).sp,
            final(self).pc == old(self).pc,
    {
        let z = self.z_flg();
        let n = self.n_flg();
        let c = self.c_flg();
        self.set_flags(z, n, value, c);
    }

    pub fn set_c_flg(&mut self, value: bool)
        ensures
            final(self).af == with_flags(old(self).af, z_of(old(self).af), n_of(old(self).af),
                h_of(old(self).af), value),
            final(self).af as int % 16 == old(self).af as int % 16,
            final(self).bc == old(self).bc,
            final(self).de == old(self).de,
            final(self).hl == old(self).hl,
            final(self).sp == old(self).sp,
            final(self).pc == old(self).pc,
    {
        let z = self.z_flg();
        let n = self.n_flg();
        let h = self.h_flg();
        self.set_flags(z, n, h, value);
    }

    /// The flags byte F, the low byte of AF.
    pub fn flags(&self) -> (r: u8)
        ensures
            r == low_byte(self.af),
    {
        low_u8(self.af)
    }

    pub fn b(&self) -> (r: u8)
        ensures
            r == high_byte(self.bc),
    {
        high_u8(self.bc)
    }

    pub fn c(&self) -> (r: u8)
        ensures
            r == low_byte(self.bc),
    {
        low_u8(self.bc)
    }

    pub fn d(&self) -> (r: u8)
        ensures
            r == high_byte(self.de),
    {
        high_u8(self.de)
    }

    pub fn e(&self) -> (r: u8)
        ensures
            r == low_byte(self.de),
    {
        low_u8(self.de)
    }

    pub fn h(&self) -> (r: u8)
        ensures
            r == high_byte(self.hl),
    {
        high_u8(self.hl)
    }

    pub fn l(&self) -> (r: u8)
        ensures
            r == low_byte(self.hl),
    {
        low_u8(self.hl)
    }

    pub fn set_r16(&mut self, r16: R16, val: u16)
        ensures
            final(self).bc == (if r16 == R16::BC {
                val
            } else {
                old(self).bc
            }),
            final(self).de == (if r16 == R16::DE {
                val
            } else {
                old(self).de
            }),
            final(self).hl == (if r16 == R16::HL {
                val
            } else {
                old(self).hl
            }),
            final(self).sp == (if r16 == R16::SP {
                val
            } else {
                old(self).sp
            }),
            final(self).af == old(self).af,
            final(self).pc == old(self).pc,
    {
        match r16 {
            R16::BC => self.bc = val,
            R16::DE => self.de = val,
            R16::HL => self.hl = val,
            R16::SP => self.sp = val,
        }
    }

    pub fn get_r16(&self, r16: R16) -> (r: u16)
        ensures
            r == spec_r16(*self, r16),
    {
        match r16 {
            R16::BC => self.bc,
            R16::DE => self.de,
            R16::HL => self.hl,
            R16::SP => self.sp,
        }
    }

    pub fn get_r16_mut(&mut self, r16: R16) -> (r: &mut u16)
        ensures
            *r == spec_r16(*old(self), r16),
            final(self).bc == (if r16 == R16::BC {
                *final(r)
            } else {
                old(self).bc
            }),
            final(self).de == (if r16 == R16::DE {
                *final(r)
            } else {
                old(self).de
            }),
            final(self).hl == (if r16 == R16::HL {
                *final(r)
            } else {
                old(self).hl
            }),
            final(self).sp == (if r16 == R16::SP {
                *final(r)
            } else {
                old(self).sp
            }),
            final(self).af == old(self).af,
            final(self).pc == old(self).pc,
    {
        match r16 {
            R16::BC => &mut self.bc,
            R16::DE => &mut self.de,
            R16::HL => &mut self.hl,
            R16::SP => &mut self.sp,
        }
    }

    /// Read the pair selected by an r16mem operand; the HL+ and HL- forms
    /// return the pre-step value of HL and increment or decrement HL
    /// (wrapping modulo 2^16) as a side effect of the read.
    pub fn get_r16mem(&mut self, r16: R16Mem) -> (r: u16)
        ensures
            r == (match r16 {
                R16Mem::BC => old(self).bc,
                R16Mem::DE => old(self).de,
                R16Mem::HLI => old(self).hl,
                R16Mem::HLD => old(self).hl,
            }),
            final(self).hl == (match r16 {
                R16Mem::BC => old(self).hl,
                R16Mem::DE => old(self).hl,
                R16Mem::HLI => wrap_add16(old(self).hl, 1),
                R16Mem::HLD => wrap_add16(old(self).hl, -1),
            }),
            final(self).af == old(self).af,
            final(self).bc == old(self).bc,
            final(self).de == old(self).de,
            final(self).sp == old(self).sp,
            final(self).pc == old(self).pc,
    {
        match r16 {
            R16Mem::BC => self.bc,
            R16Mem::DE => self.de,
            R16Mem::HLI => {
                let val = self.hl;
                self.hl = wrap_inc(self.hl);
                val
            },
            R16Mem::HLD => {
                let val = self.hl;
                self.hl = wrap_dec(self.hl);
                val
            },
        }
    }

    pub fn get_r16stk(&self, r16: R16Stk) -> (r: u16)
        ensures
            r == (match r16 {
                R16Stk::BC => self.bc,
                R16Stk::DE => self.de,
                R16Stk::HL => self.hl,
                R16Stk::AF => self.af,
            }),
    {
        match r16 {
            R16Stk::BC => self.bc,
            R16Stk::DE => self.de,
            R16Stk::HL => self.hl,
            R16Stk::AF => self.af,
        }
    }

    /// Write the pair selected by an r16stk operand; a store into AF
    /// forces the low nibble of F to zero, as the hardware flag register
    /// has no low four bits.
    pub fn set_r16stk(&mut self, r16: R16Stk, val: u16)
        ensures
            final(self).bc == (if r16 == R16Stk::BC {
                val
            } else {
                old(self).bc
            }),
            final(self).de == (if r16 == R16Stk::DE {
                val
            } else {
                old(self).de
            }),
            final(self).hl == (if r16 == R16Stk::HL {
                val
            } else {
                old(self).hl
            }),
            final(self).af == (if r16 == R16Stk::AF {
                mask_flag_nibble(val)
            } else {
                old(self).af
            }),
            r16 == R16Stk::AF ==> final(self).af as int % 16 == 0,
            final(self).sp == old(self).sp,
            final(self).pc == old(self).pc,
    {
        match r16 {
            R16Stk::BC => self.bc = val,
            R16Stk::DE => self.de = val,
            R16Stk::HL => self.hl = val,
            R16Stk::AF => self.af = (val / 16) * 16,
        }
    }
}

/// The value of the pair selected by an r16 operand.
pub open spec fn spec_r16(r: Registers, r16: R16) -> u16 {
    match r16 {
        R16::BC => r.bc,
        R16::DE => r.de,
        R16::HL => r.hl,
        R16::SP => r.sp,
    }
}

} // verus!
