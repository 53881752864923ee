use vstd::prelude::*;

verus! {

use crate::CpuError;
use crate::utils::{high_byte, low_byte, to_word, wrap_add16, wrap_inc, high_u8, low_u8};

pub const MEM_SIZE: usize = 0xFFFF + 1;

/// Address of the interrupt-enable register IE.
pub const INTERRUPT_ENABLE: u16 = 0xFFFF;

/// Address of the interrupt-flag register IF.
pub const INTERRUPT_FLAG: u16 = 0xFF0F;

/// Whether the interrupt selected by the power of two `p` is both enabled
/// in IE and requested in IF.
pub open spec fn pending_at(ie: u8, fl: u8, p: int) -> bool {
    (ie as int / p) % 2 == 1 && (fl as int / p) % 2 == 1
}

/// The flat byte-addressable space, 0x0000 - 0xFFFF:
///
/// 0x0000 - 0x00FF: Boot ROM
/// 0x0000 - 0x3FFF: Game ROM Bank 0
/// 0x4000 - 0x7FFF: Game ROM Bank N
/// 0x8000 - 0x97FF: Tile RAM
/// 0x9800 - 0x9FFF: Background Map
/// 0xA000 - 0xBFFF: Cartridge RAM
/// 0xC000 - 0xDFFF: Working RAM
/// 0xE000 - 0xFDFF: Echo RAM
/// 0xFE00 - 0xFE9F: OAM (Object Attribute Memory)
/// 0xFEA0 - 0xFEFF: Unused
/// 0xFF00 - 0xFF7F: I/O Registers
/// 0xFF80 - 0xFFFE: High RAM Area
/// 0xFFFF: Interrupt Enabled Register
#[derive(Clone, Debug)]
pub struct Memory {
    pub memory: Vec<u8>,
}

impl Memory {
    /// Well-formed memory spans the whole 16-bit address space, so every
    /// 16-bit address is readable and writable.
    pub open spec fn wf(&self) -> bool {
        self.memory@.len() == MEM_SIZE
    }

    pub fn get_byte(&self, addr: u16) -> (r: Result<u8, CpuError>)
        ensures
            addr < self.memory@.len() ==> r == Ok::<u8, CpuError>(self.memory@[addr as int]),
            addr >= self.memory@.len() ==> r == Err::<u8, CpuError>(CpuError::MemoryAccess {
                addr,
            }),
            self.wf() ==> r == Ok::<u8, CpuError>(self.memory@[addr as int]),
    {
        if (addr as usize) < self.memory.len() {
            Ok(self.memory[addr as usize])
        } else {
            Err(CpuError::MemoryAccess { addr })
        }
    }

    pub fn set_byte(&mut self, addr: u16, value: u8)
        requires
            addr < old(self).memory@.len(),
        ensures
            final(self).memory@ == old(self).memory@.update(addr as int, value),
    {
        self.memory.set(addr as usize, value);
    }

    /// Store a 16-bit value little-endian: low byte at `addr`, high byte
    /// at the following address, wrapping at the top of the space.
    pub fn set_u16(&mut self, addr: u16, value: u16)
        requires
            old(self).wf(),
        ensures
            final(self).memory@ == old(self).memory@.update(addr as int, low_byte(value)).update(
                wrap_add16(addr, 1) as int, high_byte(value)),
    {
        let low = low_u8(value);
        let high = high_u8(value);
        self.set_byte(addr, low);
        let next = wrap_inc(addr);
        self.set_byte(next, high);
    }

    /// Read a 16-bit value little-endian from `addr` and the following
    /// address, wrapping at the top of the space.
    pub fn get_u16(&self, addr: u16) -> (r: u16)
        requires
            self.wf(),
        ensures
            r == to_word(self.memory@[wrap_add16(addr, 1) as int], self.memory@[addr as int]),
    {
        let low = self.memory[addr as usize];
        let next = wrap_inc(addr);
        let high = self.memory[next as usize];
        (high as u16) * 256 + low as u16
    }

    /// Copy a program into the bottom of the address space.
    pub fn load_instructions(&mut self, instructions: &[u8])
        requires
            instructions@.len() <= old(self).memory@.len(),
        ensures
            final(self).memory@.len() == old(self).memory@.len(),
            forall|i: int|
                0 <= i < instructions@.len() ==> final(self).memory@[i] == instructions@[i],
            forall|i: int|
                instructions@.len() <= i < old(self).memory@.len() ==> final(self).memory@[i]
                    == old(self).memory@[i],
    {
        let mut i: usize = 0;
        while i < instructions.len()
            invariant
                i <= instructions@.len(),
                instructions@.len() <= self.memory@.len(),
                self.memory@.len() == old(self).memory@.len(),
                forall|k: int| 0 <= k < i ==> self.memory@[k] == instructions@[k],
                forall|k: int|
                    i <= k < self.memory@.len() ==> self.memory@[k] == old(self).memory@[k],
            decreases instructions@.len() - i,
        {
            let b = instructions[i];
            self.memory.set(i, b);
            i = i + 1;
        }
    }

    /// Inspect IE and IF; if an interrupt is both enabled and requested,
    /// return the one with the lowest bit index (the highest priority) and
    /// clear its IF bit. A pending bit above the five defined interrupts
    /// is an invalid encoding and is reported as an error.
    pub fn interrupt_to_run(&mut self) -> (r: Result<Option<InterruptType>, CpuError>)
        requires
            old(self).wf(),
        ensures
            final(self).wf(),
            ({
                let ie = old(self).memory@[INTERRUPT_ENABLE as int];
                let fl = old(self).memory@[INTERRUPT_FLAG as int];
                if pending_at(ie, fl, 1) {
                    r == Ok::<Option<InterruptType>, CpuError>(Some(InterruptType::VBlank))
                        && final(self).memory@ == old(self).memory@.update(INTERRUPT_FLAG as int, (
                    fl - 1) as u8)
                } else if pending_at(ie, fl, 2) {
                    r == Ok::<Option<InterruptType>, CpuError>(Some(InterruptType::LCD)) && final(self).memory@ == old(self).memory@.update(INTERRUPT_FLAG as int, (fl - 2) as u8)
                } else if pending_at(ie, fl, 4) {
                    r == Ok::<Option<InterruptType>, CpuError>(Some(InterruptType::Timer)) && final(self).memory@ == old(self).memory@.update(INTERRUPT_FLAG as int, (fl - 4) as u8)
                } else if pending_at(ie, fl, 8) {
                    r == Ok::<Option<InterruptType>, CpuError>(Some(InterruptType::Serial))
                        && final(self).memory@ == old(self).memory@.update(INTERRUPT_FLAG as int, (
                    fl - 8) as u8)
                } else if pending_at(ie, fl, 16) {
                    r == Ok::<Option<InterruptType>, CpuError>(Some(InterruptType::Joypad))
                        && final(self).memory@ == old(self).memory@.update(INTERRUPT_FLAG as int, (
                    fl - 16) as u8)
                } else if pending_at(ie, fl, 32) {
                    r == Err::<Option<InterruptType>, CpuError>(CpuError::Decode { byte: 32 })
                        && final(self).memory@ == old(self).memory@
                } else if pending_at(ie, fl, 64) {
                    r == Err::<Option<InterruptType>, CpuError>(CpuError::Decode { byte: 64 })
                        && final(self).memory@ == old(self).memory@
                } else if pending_at(ie, fl, 128) {
                    r == Err::<Option<InterruptType>, CpuError>(CpuError::Decode { byte: 128 })
                        && final(self).memory@ == old(self).memory@
                } else {
                    r == Ok::<Option<InterruptType>, CpuError>(None) && final(self).memory@ == old(self).memory@
                }
            }),
    {
        let ie = self.memory[INTERRUPT_ENABLE as usize];
        let fl = self.memory[INTERRUPT_FLAG as usize];
        if (ie / 1) % 2 == 1 && (fl / 1) % 2 == 1 {
            self.set_byte(INTERRUPT_FLAG, fl - 1);
            Ok(Some(InterruptType::VBlank))
        } else if (ie / 2) % 2 == 1 && (fl / 2) % 2 == 1 {
            self.set_byte(INTERRUPT_FLAG, fl - 2);
            Ok(Some(InterruptType::LCD))
        } else if (ie / 4) % 2 == 1 && (fl / 4) % 2 == 1 {
            self.set_byte(INTERRUPT_FLAG, fl - 4);
            Ok(Some(InterruptType::Timer))
        } else if (ie / 8) % 2 == 1 && (fl / 8) % 2 == 1 {
            self.set_byte(INTERRUPT_FLAG, fl - 8);
            Ok(Some(InterruptType::Serial))
        } else if (ie / 16) % 2 == 1 && (fl / 16) % 2 == 1 {
            self.set_byte(INTERRUPT_FLAG, fl - 16);
            Ok(Some(InterruptType::Joypad))
        } else if (ie / 32) % 2 == 1 && (fl / 32) % 2 == 1 {
            Err(CpuError::Decode { byte: 32 })
        } else if (ie / 64) % 2 == 1 && (fl / 64) % 2 == 1 {
            Err(CpuError::Decode { byte: 64 })
        } else if (ie / 128) % 2 == 1 && (fl / 128) % 2 == 1 {
            Err(CpuError::Decode { byte: 128 })
        } else {
            Ok(None)
        }
    }
}

impl Default for Memory {
    fn default() -> (r: Self)
        ensures
            r.wf(),
            forall|i: int| 0 <= i < MEM_SIZE ==> r.memory@[i] == 0,
    {
        let mut v: Vec<u8> = Vec::new();
        let mut i: usize = 0;
        while i < MEM_SIZE
            invariant
                i <= MEM_SIZE,
                v@.len() == i,
                forall|k: int| 0 <= k < i ==> v@[k] == 0,
            decreases MEM_SIZE - i,
        {
            v.push(0);
            i = i + 1;
        }
        Memory { memory: v }
    }
}

/// ┌────┬───┬───┬───┬──────┬──────┬─────┬───┬──────┐
/// │ IE │ 7 │ 6 │ 5 │  4   │  3   │  2  │ 1 │  0   │
/// ├────┼───┼───┼───┼──────┼──────┼─────┼───┼──────┤
/// │    │   │   │   │Joypad│Serial│Timer│LCD│VBlank│
/// └────┴───┴───┴───┴──────┴──────┴─────┴───┴──────┘
#[derive(Clone, Copy, Debug, PartialEq, Eq, Structural)]
pub enum InterruptType {
    Joypad,
    Serial,
    Timer,
    LCD,
    VBlank,
}

/// The power of two selecting an interrupt's bit in IE and IF.
pub open spec fn interrupt_power(t: InterruptType) -> int {
    match t {
        InterruptType::Joypad => 16,
        InterruptType::Serial => 8,
        InterruptType::Timer => 4,
        InterruptType::LCD => 2,
        InterruptType::VBlank => 1,
    }
}

pub open spec fn spec_interrupt_from(value: u8) -> Result<InterruptType, CpuError> {
    if value == 16 {
        Ok(InterruptType::Joypad)
    } else if value == 8 {
        Ok(InterruptType::Serial)
    } else if value == 4 {
        Ok(InterruptType::Timer)
    } else if value == 2 {
        Ok(InterruptType::LCD)
    } else if value == 1 {
        Ok(InterruptType::VBlank)
    } else {
        Err(CpuError::Decode { byte: value })
    }
}

impl InterruptType {
    /// The bit index of this interrupt in IE and IF.
    pub fn bit(&self) -> (r: u8)
        ensures
            r == (match self {
                InterruptType::Joypad => 4int,
                InterruptType::Serial => 3int,
                InterruptType::Timer => 2int,
                InterruptType::LCD => 1int,
                InterruptType::VBlank => 0int,
            }),
    {
        match self {
            InterruptType::Joypad => 4,
            InterruptType::Serial => 3,
            InterruptType::Timer => 2,
            InterruptType::LCD => 1,
            InterruptType::VBlank => 0,
        }
    }

    /// The fixed dispatch vector address of this interrupt.
    pub fn addr(&self) -> (r: u16)
        ensures
            r == (match self {
                InterruptType::Joypad => 0x60int,
                InterruptType::Serial => 0x56int,
                InterruptType::Timer => 0x50int,
                InterruptType::LCD => 0x48int,
                InterruptType::VBlank => 0x40int,
            }),
    {
        match self {
            InterruptType::Joypad => 0x60,
            InterruptType::Serial => 0x56,
            InterruptType::Timer => 0x50,
            InterruptType::LCD => 0x48,
            InterruptType::VBlank => 0x40,
        }
    }

    pub fn from_u8(value: u8) -> (r: Result<InterruptType, CpuError>)
        ensures
            r == spec_interrupt_from(value),
    {
        match value {
            16 => Ok(InterruptType::Joypad),
            8 => Ok(InterruptType::Serial),
            4 => Ok(InterruptType::Timer),
            2 => Ok(InterruptType::LCD),
            1 => Ok(InterruptType::VBlank),
            _ => Err(CpuError::Decode { byte: value }),
        }
    }
}

/// An IE or IF byte, with one flag bit per interrupt.
#[derive(Clone, Copy, Debug, PartialEq, Eq, Structural)]
pub struct InterruptByte(pub u8);

impl InterruptByte {
    pub fn get_flag(&self, flag: InterruptType) -> (r: bool)
        ensures
            r == ((self.0 as int / interrupt_power(flag)) % 2 == 1),
    {
        match flag {
            InterruptType::Joypad => (self.0 / 16) % 2 == 1,
            InterruptType::Serial => (self.0 / 8) % 2 == 1,
            InterruptType::Timer => (self.0 / 4) % 2 == 1,
            InterruptType::LCD => (self.0 / 2) % 2 == 1,
            InterruptType::VBlank => (self.0 / 1) % 2 == 1,
        }
    }

    pub fn set_flag(&mut self, flag: InterruptType, val: bool)
        ensures
            final(self).0 as int == crate::utils::spec_set_bit(old(self).0 as int,
                interrupt_power(flag), val),
    {
        let setv: u8 = if val {
            1
        } else {
            0
        };
        match flag {
            InterruptType::Joypad => self.0 = self.0 - ((self.0 / 16) % 2) * 16 + setv * 16,
            InterruptType::Serial => self.0 = self.0 - ((self.0 / 8) % 2) * 8 + setv * 8,
            InterruptType::Timer => self.0 = self.0 - ((self.0 / 4) % 2) * 4 + setv * 4,
            InterruptType::LCD => self.0 = self.0 - ((self.0 / 2) % 2) * 2 + setv * 2,
            InterruptType::VBlank => self.0 = self.0 - ((self.0 / 1) % 2) * 1 + setv * 1,
        }
    }
}

} // verus!
