use vstd::prelude::*;

use crate::machine::{
    le16, stack_addr, wrap16, wrap8, Machine, MEMORY_SIZE, STACK, STACK_RESET, STATUS_RESET,
    power_on,
};
use crate::opcodes::AddressingMode;
use crate::status::ProcessorStatus;

verus! {

/// A 6502 processor together with the 64 KiB of memory it owns.
pub struct CPU {
    pub ra: u8,
    pub rx: u8,
    pub ry: u8,
    pub rs: u8,
    pub pc: u16,
    pub rp: ProcessorStatus,
    pub memory: [u8; 65536],
}

impl View for CPU {
    type V = Machine;

    open spec fn view(&self) -> Machine {
        Machine {
            a: self.ra,
            x: self.rx,
            y: self.ry,
            sp: self.rs,
            pc: self.pc,
            p: self.rp.bits,
            mem: self.memory@,
        }
    }
}

impl CPU {
    /// Registers zeroed, SP = 0xFD, status = {U, I}, memory cleared.
    pub fn new() -> (r: CPU)
        ensures
            r@ == power_on(),
    {
        let r = CPU {
            ra: 0,
            rx: 0,
            ry: 0,
            rs: STACK_RESET,
            pc: 0,
            rp: ProcessorStatus::from_bits(STATUS_RESET),
            memory: [0u8; 65536],
        };
        assert(r.memory@ =~= power_on().mem);
        r
    }

    pub fn mem_read(&self, addr: u16) -> (r: u8)
        ensures
            r == self@.read(addr),
            self@.wf(),
    {
        self.memory[addr as usize]
    }

    pub fn mem_write(&mut self, addr: u16, val: u8)
        ensures
            final(self)@ == old(self)@.write(addr, val),
    {
        self.memory[addr as usize] = val;
    }

    /// Little-endian 16-bit read; the second byte's address wraps.
    pub fn mem_read_u16(&self, pos: u16) -> (r: u16)
        ensures
            r == self@.read16(pos),
    {
        let lo = self.mem_read(pos);
        let hi = self.mem_read(pos.wrapping_add(1));
        hi as u16 * 256 + lo as u16
    }

    /// Low byte at `pos`, high byte at `pos + 1` (wrapping).
    pub fn mem_write_u16(&mut self, pos: u16, val: u16)
        ensures
            final(self)@ == old(self)@.write16(pos, val),
    {
        let hi = (val / 256) as u8;
        let lo = (val % 256) as u8;
        self.mem_write(pos, lo);
        self.mem_write(pos.wrapping_add(1), hi);
    }

    pub fn stack_pop(&mut self) -> (r: u8)
        ensures
            r == old(self)@.pop_value(),
            final(self)@ == old(self)@.after_pop(),
    {
        self.rs = self.rs.wrapping_add(1);
        self.mem_read(STACK + self.rs as u16)
    }

    /// Low byte first, then high byte.
    pub fn stack_pop_u16(&mut self) -> (r: u16)
        ensures
            r == old(self)@.pop16_value(),
            final(self)@ == old(self)@.after_pop16(),
    {
        let lo = self.stack_pop();
        let hi = self.stack_pop();
        hi as u16 * 256 + lo as u16
    }

    pub fn stack_push(&mut self, val: u8)
        ensures
            final(self)@ == old(self)@.push(val),
    {
        self.mem_write(STACK + self.rs as u16, val);
        self.rs = self.rs.wrapping_sub(1);
    }

    /// High byte first, so that the low byte lies at the lower address.
    pub fn stack_push_u16(&mut self, val: u16)
        ensures
            final(self)@ == old(self)@.push16(val),
    {
        let hi = (val / 256) as u8;
        let lo = (val % 256) as u8;
        self.stack_push(hi);
        self.stack_push(lo);
    }

    /// The effective address of the operand at PC. The implied forms have none.
    pub fn get_operand_address(&self, mode: AddressingMode) -> (r: u16)
        requires
            mode != AddressingMode::Implied,
        ensures
            r == self@.operand_address(mode),
    {
        match mode {
            AddressingMode::Immediate => self.pc,
            AddressingMode::ZeroPage => self.mem_read(self.pc) as u16,
            AddressingMode::Absolute => self.mem_read_u16(self.pc),
            AddressingMode::ZeroPageX => self.mem_read(self.pc).wrapping_add(self.rx) as u16,
            AddressingMode::ZeroPageY => self.mem_read(self.pc).wrapping_add(self.ry) as u16,
            AddressingMode::AbsoluteX => self.mem_read_u16(self.pc).wrapping_add(self.rx as u16),
            AddressingMode::AbsoluteY => self.mem_read_u16(self.pc).wrapping_add(self.ry as u16),
            AddressingMode::IndirectX => {
                let ptr = self.mem_read(self.pc).wrapping_add(self.rx);
                let lo = self.mem_read(ptr as u16);
                let hi = self.mem_read(ptr.wrapping_add(1) as u16);
                hi as u16 * 256 + lo as u16
            },
            AddressingMode::IndirectY => {
                let ptr = self.mem_read(self.pc);
                let lo = self.mem_read(ptr as u16);
                let hi = self.mem_read(ptr.wrapping_add(1) as u16);
                let base = hi as u16 * 256 + lo as u16;
                base.wrapping_add(self.ry as u16)
            },
            // excluded by the precondition
            AddressingMode::Implied => 0,
        }
    }

    pub fn update_negative_flag(&mut self, reg: u8)
        ensures
            final(self)@ == old(self)@.with_flag(ProcessorStatus::NEGATIVE, reg & 0x80 != 0),
    {
        self.rp.set(ProcessorStatus::NEGATIVE, reg & 0b1000_0000 != 0);
    }

    pub fn update_zero_and_negative_flags(&mut self, reg: u8)
        ensures
            final(self)@ == old(self)@.with_zn(reg),
    {
        self.rp.set(ProcessorStatus::ZERO, reg == 0);
        self.update_negative_flag(reg);
    }

    pub fn set_reg_a(&mut self, val: u8)
        ensures
            final(self)@ == old(self)@.load_a(val),
    {
        self.ra = val;
        self.update_zero_and_negative_flags(self.ra);
    }

    /// `A + val + C`, setting C, V, Z and N.
    pub fn add_to_reg_a(&mut self, val: u8)
        ensures
            final(self)@ == old(self)@.add_to_a(val),
    {
        let carry: u16 = if self.rp.contains(ProcessorStatus::CARRY) {
            1
        } else {
            0
        };
        let s = self.ra as u16 + val as u16 + carry;
        self.rp.set(ProcessorStatus::CARRY, 0xff < s);
        let result = (s % 256) as u8;
        self.rp.set(ProcessorStatus::OVERFLOW, (val ^ result) & (self.ra ^ result) & 0x80 != 0);
        self.set_reg_a(result);
    }
}

} // verus!
