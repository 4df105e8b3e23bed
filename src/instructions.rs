use vstd::prelude::*;

use crate::cpu::CPU;
use crate::machine::execute;
use crate::opcodes::{AddressingMode, Mnemonic};
use crate::status::ProcessorStatus;

verus! {

impl CPU {
    /// With PC at the offset byte: when `condition` holds, PC moves past that
    /// byte plus the signed offset, else just past it.
    pub fn branch(&mut self, condition: bool)
        ensures
            final(self)@ == old(self)@.branch(condition),
    {
        if condition {
            let jump = self.mem_read(self.pc);
            let high: u32 = if jump >= 128 {
                0xff00
            } else {
                0
            };
            let target = self.pc as u32 + 1 + jump as u32 + high;
            self.pc = (target % 65536) as u16;
        } else {
            self.pc = self.pc.wrapping_add(1);
        }
    }

    /// C when `M <= other`; Z and N from `other - M`.
    pub fn compare(&mut self, mode: AddressingMode, other: u8)
        requires
            mode != AddressingMode::Implied,
        ensures
            final(self)@ == old(self)@.compare(other, old(self)@.operand(mode)),
    {
        let addr = self.get_operand_address(mode);
        let val = self.mem_read(addr);
        self.rp.set(ProcessorStatus::CARRY, val <= other);
        self.update_zero_and_negative_flags(other.wrapping_sub(val));
    }

    /// Add with carry: `A + M + C`.
    pub fn adc(&mut self, mode: AddressingMode)
        requires
            mode != AddressingMode::Implied,
        ensures
            final(self)@ == execute(old(self)@, Mnemonic::Adc, mode),
    {
        proof {
            reveal(execute);
        }
        let addr = self.get_operand_address(mode);
        let val = self.mem_read(addr);
        self.add_to_reg_a(val);
    }

    pub fn and(&mut self, mode: AddressingMode)
        requires
            mode != AddressingMode::Implied,
        ensures
            final(self)@ == execute(old(self)@, Mnemonic::And, mode),
    {
        proof {
            reveal(execute);
        }
        let addr = self.get_operand_address(mode);
        let val = self.mem_read(addr);
        self.set_reg_a(self.ra & val);
    }

    /// Shifts A left; bit 7 goes to C.
    pub fn asl_accumulator(&mut self)
        ensures
            final(self)@ == execute(old(self)@, Mnemonic::AslAcc, AddressingMode::Implied),
    {
        proof {
            reveal(execute);
        }
        let val = self.ra;
        self.rp.set(ProcessorStatus::CARRY, val & 0x80 != 0);
        self.set_reg_a(val << 1u8);
    }

    /// Shifts memory left; bit 7 goes to C.
    pub fn asl(&mut self, mode: AddressingMode)
        requires
            mode != AddressingMode::Implied,
        ensures
            final(self)@ == execute(old(self)@, Mnemonic::Asl, mode),
    {
        proof {
            reveal(execute);
        }
        let addr = self.get_operand_address(mode);
        let val = self.mem_read(addr);
        self.rp.set(ProcessorStatus::CARRY, val & 0x80 != 0);
        let result = val << 1u8;
        self.mem_write(addr, result);
        self.update_zero_and_negative_flags(result);
    }

    pub fn bbc(&mut self)
        ensures
            final(self)@ == execute(old(self)@, Mnemonic::Bcc, AddressingMode::Implied),
    {
        proof {
            reveal(execute);
        }
        self.branch(!self.rp.contains(ProcessorStatus::CARRY));
    }

    pub fn bcs(&mut self)
        ensures
            final(self)@ == execute(old(self)@, Mnemonic::Bcs, AddressingMode::Implied),
    {
        proof {
            reveal(execute);
        }
        self.branch(self.rp.contains(ProcessorStatus::CARRY));
    }

    pub fn beq(&mut self)
        ensures
            final(self)@ == execute(old(self)@, Mnemonic::Beq, AddressingMode::Implied),
    {
        proof {
            reveal(execute);
        }
        self.branch(self.rp.contains(ProcessorStatus::ZERO));
    }

    /// Z from `A & M`, V and N from bits 6 and 7 of M; A is kept.
    pub fn bit(&mut self, mode: AddressingMode)
        requires
            mode != AddressingMode::Implied,
        ensures
            final(self)@ == execute(old(self)@, Mnemonic::Bit, mode),
    {
        proof {
            reveal(execute);
        }
        let addr = self.get_operand_address(mode);
        let val = self.mem_read(addr);
        self.rp.set(ProcessorStatus::ZERO, self.ra & val == 0);
        self.rp.set(ProcessorStatus::OVERFLOW, val & 0b0100_0000 != 0);
        self.rp.set(ProcessorStatus::NEGATIVE, val & 0b1000_0000 != 0);
    }

    pub fn bmi(&mut self)
        ensures
            final(self)@ == execute(old(self)@, Mnemonic::Bmi, AddressingMode::Implied),
    {
        proof {
            reveal(execute);
        }
        self.branch(self.rp.contains(ProcessorStatus::NEGATIVE));
    }

    pub fn bne(&mut self)
        ensures
            final(self)@ == execute(old(self)@, Mnemonic::Bne, AddressingMode::Implied),
    {
        proof {
            reveal(execute);
        }
        self.branch(!self.rp.contains(ProcessorStatus::ZERO));
    }

    pub fn bpl(&mut self)
        ensures
            final(self)@ == execute(old(self)@, Mnemonic::Bpl, AddressingMode::Implied),
    {
        proof {
            reveal(execute);
        }
        self.branch(!self.rp.contains(ProcessorStatus::NEGATIVE));
    }

    pub fn bvc(&mut self)
        ensures
            final(self)@ == execute(old(self)@, Mnemonic::Bvc, AddressingMode::Implied),
    {
        proof {
            reveal(execute);
        }
        self.branch(!self.rp.contains(ProcessorStatus::OVERFLOW));
    }

    pub fn bvs(&mut self)
        ensures
            final(self)@ == execute(old(self)@, Mnemonic::Bvs, AddressingMode::Implied),
    {
        proof {
            reveal(execute);
        }
        self.branch(self.rp.contains(ProcessorStatus::OVERFLOW));
    }

    pub fn clc(&mut self)
        ensures
            final(self)@ == execute(old(self)@, Mnemonic::Clc, AddressingMode::Implied),
    {
        proof {
            reveal(execute);
        }
        self.rp.remove(ProcessorStatus::CARRY);
    }

    pub fn cld(&mut self)
        ensures
            final(self)@ == execute(old(self)@, Mnemonic::Cld, AddressingMode::Implied),
    {
        proof {
            reveal(execute);
        }
        self.rp.remove(ProcessorStatus::DECIMAL_MODE);
    }

    pub fn cli(&mut self)
        ensures
            final(self)@ == execute(old(self)@, Mnemonic::Cli, AddressingMode::Implied),
    {
        proof {
            reveal(execute);
        }
        self.rp.remove(ProcessorStatus::INTERRUPT_DISABLE);
    }

    pub fn clv(&mut self)
        ensures
            final(self)@ == execute(old(self)@, Mnemonic::Clv, AddressingMode::Implied),
    {
        proof {
            reveal(execute);
        }
        self.rp.remove(ProcessorStatus::OVERFLOW);
    }

    pub fn cmp(&mut self, mode: AddressingMode)
        requires
            mode != AddressingMode::Implied,
        ensures
            final(self)@ == execute(old(self)@, Mnemonic::Cmp, mode),
    {
        proof {
            reveal(execute);
        }
        self.compare(mode, self.ra);
    }

    pub fn cpx(&mut self, mode: AddressingMode)
        requires
            mode != AddressingMode::Implied,
        ensures
            final(self)@ == execute(old(self)@, Mnemonic::Cpx, mode),
    {
        proof {
            reveal(execute);
        }
        self.compare(mode, self.rx);
    }

    pub fn cpy(&mut self, mode: AddressingMode)
        requires
            mode != AddressingMode::Implied,
        ensures
            final(self)@ == execute(old(self)@, Mnemonic::Cpy, mode),
    {
        proof {
            reveal(execute);
        }
        self.compare(mode, self.ry);
    }

    pub fn dec(&mut self, mode: AddressingMode)
        requires
            mode != AddressingMode::Implied,
        ensures
            final(self)@ == execute(old(self)@, Mnemonic::Dec, mode),
    {
        proof {
            reveal(execute);
        }
        let addr = self.get_operand_address(mode);
        let val = self.mem_read(addr);
        let result = val.wrapping_sub(1);
        self.mem_write(addr, result);
        self.update_zero_and_negative_flags(result);
    }

    pub fn dex(&mut self)
        ensures
            final(self)@ == execute(old(self)@, Mnemonic::Dex, AddressingMode::Implied),
    {
        proof {
            reveal(execute);
        }
        self.rx = self.rx.wrapping_sub(1);
        self.update_zero_and_negative_flags(self.rx);
    }

    pub fn dey(&mut self)
        ensures
            final(self)@ == execute(old(self)@, Mnemonic::Dey, AddressingMode::Implied),
    {
        proof {
            reveal(execute);
        }
        self.ry = self.ry.wrapping_sub(1);
        self.update_zero_and_negative_flags(self.ry);
    }

    pub fn eor(&mut self, mode: AddressingMode)
        requires
            mode != AddressingMode::Implied,
        ensures
            final(self)@ == execute(old(self)@, Mnemonic::Eor, mode),
    {
        proof {
            reveal(execute);
        }
        let addr = self.get_operand_address(mode);
        let val = self.mem_read(addr);
        self.set_reg_a(self.ra ^ val);
    }

    pub fn inc(&mut self, mode: AddressingMode)
        requires
            mode != AddressingMode::Implied,
        ensures
            final(self)@ == execute(old(self)@, Mnemonic::Inc, mode),
    {
        proof {
            reveal(execute);
        }
        let addr = self.get_operand_address(mode);
        let val = self.mem_read(addr);
        let result = val.wrapping_add(1);
        self.mem_write(addr, result);
        self.update_zero_and_negative_flags(result);
    }

    pub fn inx(&mut self)
        ensures
            final(self)@ == execute(old(self)@, Mnemonic::Inx, AddressingMode::Implied),
    {
        proof {
            reveal(execute);
        }
        self.rx = self.rx.wrapping_add(1);
        self.update_zero_and_negative_flags(self.rx);
    }

    pub fn iny(&mut self)
        ensures
            final(self)@ == execute(old(self)@, Mnemonic::Iny, AddressingMode::Implied),
    {
        proof {
            reveal(execute);
        }
        self.ry = self.ry.wrapping_add(1);
        self.update_zero_and_negative_flags(self.ry);
    }

    pub fn jmp_absolute(&mut self)
        ensures
            final(self)@ == execute(old(self)@, Mnemonic::JmpAbs, AddressingMode::Implied),
    {
        proof {
            reveal(execute);
        }
        let addr = self.mem_read_u16(self.pc);
        self.pc = addr;
    }

    /// Jumps through a pointer. A pointer at the end of a page takes its high
    /// byte from the start of that same page, as the 6502 does.
    pub fn jmp_indirect(&mut self)
        ensures
            final(self)@ == execute(old(self)@, Mnemonic::JmpInd, AddressingMode::Implied),
    {
        proof {
            reveal(execute);
        }
        let addr = self.mem_read_u16(self.pc);
        let target = if addr & 0x00ff == 0x00ff {
            let lo = self.mem_read(addr);
            let hi = self.mem_read(addr & 0xff00);
            hi as u16 * 256 + lo as u16
        } else {
            self.mem_read_u16(addr)
        };
        self.pc = target;
    }

    /// Pushes the address of the last operand byte, then jumps.
    pub fn jsr(&mut self)
        ensures
            final(self)@ == execute(old(self)@, Mnemonic::Jsr, AddressingMode::Implied),
    {
        proof {
            reveal(execute);
        }
        self.stack_push_u16(self.pc.wrapping_add(1));
        let addr = self.mem_read_u16(self.pc);
        self.pc = addr;
    }

    pub fn lda(&mut self, mode: AddressingMode)
        requires
            mode != AddressingMode::Implied,
        ensures
            final(self)@ == execute(old(self)@, Mnemonic::Lda, mode),
    {
        proof {
            reveal(execute);
        }
        let addr = self.get_operand_address(mode);
        let val = self.mem_read(addr);
        self.set_reg_a(val);
    }

    pub fn ldx(&mut self, mode: AddressingMode)
        requires
            mode != AddressingMode::Implied,
        ensures
            final(self)@ == execute(old(self)@, Mnemonic::Ldx, mode),
    {
        proof {
            reveal(execute);
        }
        let addr = self.get_operand_address(mode);
        let val = self.mem_read(addr);
        self.rx = val;
        self.update_zero_and_negative_flags(self.rx);
    }

    pub fn ldy(&mut self, mode: AddressingMode)
        requires
            mode != AddressingMode::Implied,
        ensures
            final(self)@ == execute(old(self)@, Mnemonic::Ldy, mode),
    {
        proof {
            reveal(execute);
        }
        let addr = self.get_operand_address(mode);
        let val = self.mem_read(addr);
        self.ry = val;
        self.update_zero_and_negative_flags(self.ry);
    }

    /// Shifts A right; bit 0 goes to C.
    pub fn lsr_accumulator(&mut self)
        ensures
            final(self)@ == execute(old(self)@, Mnemonic::LsrAcc, AddressingMode::Implied),
    {
        proof {
            reveal(execute);
        }
        let val = self.ra;
        self.rp.set(ProcessorStatus::CARRY, val & 1 != 0);
        self.set_reg_a(val >> 1u8);
    }

    /// Shifts memory right; bit 0 goes to C.
    pub fn lsr(&mut self, mode: AddressingMode)
        requires
            mode != AddressingMode::Implied,
        ensures
            final(self)@ == execute(old(self)@, Mnemonic::Lsr, mode),
    {
        proof {
            reveal(execute);
        }
        let addr = self.get_operand_address(mode);
        let val = self.mem_read(addr);
        self.rp.set(ProcessorStatus::CARRY, val & 1 != 0);
        let result = val >> 1u8;
        self.mem_write(addr, result);
        self.update_zero_and_negative_flags(result);
    }

    pub fn ora(&mut self, mode: AddressingMode)
        requires
            mode != AddressingMode::Implied,
        ensures
            final(self)@ == execute(old(self)@, Mnemonic::Ora, mode),
    {
        proof {
            reveal(execute);
        }
        let addr = self.get_operand_address(mode);
        let val = self.mem_read(addr);
        self.set_reg_a(self.ra | val);
    }

    pub fn pha(&mut self)
        ensures
            final(self)@ == execute(old(self)@, Mnemonic::Pha, AddressingMode::Implied),
    {
        proof {
            reveal(execute);
        }
        self.stack_push(self.ra);
    }

    /// Pushes the status byte with B and U set in the pushed copy.
    pub fn php(&mut self)
        ensures
            final(self)@ == execute(old(self)@, Mnemonic::Php, AddressingMode::Implied),
    {
        proof {
            reveal(execute);
        }
        let mut rp = self.rp;
        rp.insert(ProcessorStatus::BREAK);
        rp.insert(ProcessorStatus::BREAK2);
        self.stack_push(rp.bits());
    }

    pub fn pla(&mut self)
        ensures
            final(self)@ == execute(old(self)@, Mnemonic::Pla, AddressingMode::Implied),
    {
        proof {
            reveal(execute);
        }
        let val = self.stack_pop();
        self.set_reg_a(val);
    }

    /// Pops the status byte, then clears B and sets U.
    pub fn plp(&mut self)
        ensures
            final(self)@ == execute(old(self)@, Mnemonic::Plp, AddressingMode::Implied),
    {
        proof {
            reveal(execute);
        }
        self.rp.bits = self.stack_pop();
        self.rp.remove(ProcessorStatus::BREAK);
        self.rp.insert(ProcessorStatus::BREAK2);
    }

    /// Rotates A left through C.
    pub fn rol_accumulator(&mut self)
        ensures
            final(self)@ == execute(old(self)@, Mnemonic::RolAcc, AddressingMode::Implied),
    {
        proof {
            reveal(execute);
        }
        let val = self.ra;
        let c = self.rp.contains(ProcessorStatus::CARRY);
        self.rp.set(ProcessorStatus::CARRY, val & 0x80 != 0);
        let result = if c {
            (val << 1u8) | 1
        } else {
            val << 1u8
        };
        self.set_reg_a(result);
    }

    /// Rotates memory left through C; Z and N follow the stored byte.
    pub fn rol(&mut self, mode: AddressingMode)
        requires
            mode != AddressingMode::Implied,
        ensures
            final(self)@ == execute(old(self)@, Mnemonic::Rol, mode),
    {
        proof {
            reveal(execute);
        }
        let addr = self.get_operand_address(mode);
        let val = self.mem_read(addr);
        let c = self.rp.contains(ProcessorStatus::CARRY);
        self.rp.set(ProcessorStatus::CARRY, val & 0x80 != 0);
        let result = if c {
            (val << 1u8) | 1
        } else {
            val << 1u8
        };
        self.mem_write(addr, result);
        self.update_zero_and_negative_flags(result);
    }

    /// Rotates A right through C.
    pub fn ror_accumulator(&mut self)
        ensures
            final(self)@ == execute(old(self)@, Mnemonic::RorAcc, AddressingMode::Implied),
    {
        proof {
            reveal(execute);
        }
        let val = self.ra;
        let c = self.rp.contains(ProcessorStatus::CARRY);
        self.rp.set(ProcessorStatus::CARRY, val & 1 != 0);
        let result = if c {
            (val >> 1u8) | 0b1000_0000
        } else {
            val >> 1u8
        };
        self.set_reg_a(result);
    }

    /// Rotates memory right through C; Z and N follow the stored byte.
    pub fn ror(&mut self, mode: AddressingMode)
        requires
            mode != AddressingMode::Implied,
        ensures
            final(self)@ == execute(old(self)@, Mnemonic::Ror, mode),
    {
        proof {
            reveal(execute);
        }
        let addr = self.get_operand_address(mode);
        let val = self.mem_read(addr);
        let c = self.rp.contains(ProcessorStatus::CARRY);
        self.rp.set(ProcessorStatus::CARRY, val & 1 != 0);
        let result = if c {
            (val >> 1u8) | 0b1000_0000
        } else {
            val >> 1u8
        };
        self.mem_write(addr, result);
        self.update_zero_and_negative_flags(result);
    }

    /// Pops the status byte (B cleared, U set), then PC.
    pub fn rti(&mut self)
        ensures
            final(self)@ == execute(old(self)@, Mnemonic::Rti, AddressingMode::Implied),
    {
        proof {
            reveal(execute);
        }
        self.rp.bits = self.stack_pop();
        self.rp.remove(ProcessorStatus::BREAK);
        self.rp.insert(ProcessorStatus::BREAK2);
        self.pc = self.stack_pop_u16();
    }

    /// Pops the return address and resumes just after it.
    pub fn rts(&mut self)
        ensures
            final(self)@ == execute(old(self)@, Mnemonic::Rts, AddressingMode::Implied),
    {
        proof {
            reveal(execute);
        }
        self.pc = self.stack_pop_u16().wrapping_add(1);
    }

    /// Subtract with borrow: adds the one's complement of M with C.
    pub fn sbc(&mut self, mode: AddressingMode)
        requires
            mode != AddressingMode::Implied,
        ensures
            final(self)@ == execute(old(self)@, Mnemonic::Sbc, mode),
    {
        proof {
            reveal(execute);
        }
        let addr = self.get_operand_address(mode);
        let val = self.mem_read(addr);
        self.add_to_reg_a(255 - val);
    }

    pub fn sec(&mut self)
        ensures
            final(self)@ == execute(old(self)@, Mnemonic::Sec, AddressingMode::Implied),
    {
        proof {
            reveal(execute);
        }
        self.rp.insert(ProcessorStatus::CARRY);
    }

    pub fn sed(&mut self)
        ensures
            final(self)@ == execute(old(self)@, Mnemonic::Sed, AddressingMode::Implied),
    {
        proof {
            reveal(execute);
        }
        self.rp.insert(ProcessorStatus::DECIMAL_MODE);
    }

    pub fn sei(&mut self)
        ensures
            final(self)@ == execute(old(self)@, Mnemonic::Sei, AddressingMode::Implied),
    {
        proof {
            reveal(execute);
        }
        self.rp.insert(ProcessorStatus::INTERRUPT_DISABLE);
    }

    pub fn sta(&mut self, mode: AddressingMode)
        requires
            mode != AddressingMode::Implied,
        ensures
            final(self)@ == execute(old(self)@, Mnemonic::Sta, mode),
    {
        proof {
            reveal(execute);
        }
        let addr = self.get_operand_address(mode);
        self.mem_write(addr, self.ra);
    }

    pub fn stx(&mut self, mode: AddressingMode)
        requires
            mode != AddressingMode::Implied,
        ensures
            final(self)@ == execute(old(self)@, Mnemonic::Stx, mode),
    {
        proof {
            reveal(execute);
        }
        let addr = self.get_operand_address(mode);
        self.mem_write(addr, self.rx);
    }

    pub fn sty(&mut self, mode: AddressingMode)
        requires
            mode != AddressingMode::Implied,
        ensures
            final(self)@ == execute(old(self)@, Mnemonic::Sty, mode),
    {
        proof {
            reveal(execute);
        }
        let addr = self.get_operand_address(mode);
        self.mem_write(addr, self.ry);
    }

    pub fn tax(&mut self)
        ensures
            final(self)@ == execute(old(self)@, Mnemonic::Tax, AddressingMode::Implied),
    {
        proof {
            reveal(execute);
        }
        self.rx = self.ra;
        self.update_zero_and_negative_flags(self.rx);
    }

    pub fn tay(&mut self)
        ensures
            final(self)@ == execute(old(self)@, Mnemonic::Tay, AddressingMode::Implied),
    {
        proof {
            reveal(execute);
        }
        self.ry = self.ra;
        self.update_zero_and_negative_flags(self.ry);
    }

    pub fn tsx(&mut self)
        ensures
            final(self)@ == execute(old(self)@, Mnemonic::Tsx, AddressingMode::Implied),
    {
        proof {
            reveal(execute);
        }
        self.rx = self.rs;
        self.update_zero_and_negative_flags(self.rx);
    }

    pub fn txa(&mut self)
        ensures
            final(self)@ == execute(old(self)@, Mnemonic::Txa, AddressingMode::Implied),
    {
        proof {
            reveal(execute);
        }
        self.ra = self.rx;
        self.update_zero_and_negative_flags(self.ra);
    }

    /// Copies X to SP; no flag changes.
    pub fn txs(&mut self)
        ensures
            final(self)@ == execute(old(self)@, Mnemonic::Txs, AddressingMode::Implied),
    {
        proof {
            reveal(execute);
        }
        self.rs = self.rx;
    }

    pub fn tya(&mut self)
        ensures
            final(self)@ == execute(old(self)@, Mnemonic::Tya, AddressingMode::Implied),
    {
        proof {
            reveal(execute);
        }
        self.ra = self.ry;
        self.update_zero_and_negative_flags(self.ra);
    }
}

} // verus!
