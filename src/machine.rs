use vstd::prelude::*;

use crate::opcodes::{opcode_table, operand_len, AddressingMode, Mnemonic};
use crate::status::{set_bits, ProcessorStatus};

verus! {

/// Base address of the stack page.
pub const STACK: u16 = 0x0100;

/// Stack pointer after power-on and reset.
pub const STACK_RESET: u8 = 0xfd;

/// Status byte after power-on and reset: interrupts disabled, unused bit set.
pub const STATUS_RESET: u8 = 0b0010_0100;

/// Address of the little-endian reset vector.
pub const RESET_VECTOR: u16 = 0xfffc;

/// Where programs are loaded.
pub const PROGRAM_START: u16 = 0x0600;

/// Size of the address space, in bytes.
pub const MEMORY_SIZE: usize = 65536;

pub open spec fn wrap8(i: int) -> u8 {
    (i % 256) as u8
}

pub open spec fn wrap16(i: int) -> u16 {
    (i % 65536) as u16
}

/// The 16-bit value whose low byte is `lo` and high byte is `hi`.
pub open spec fn le16(lo: u8, hi: u8) -> u16 {
    (hi as int * 256 + lo as int) as u16
}

pub open spec fn lo_byte(v: u16) -> u8 {
    (v % 256) as u8
}

pub open spec fn hi_byte(v: u16) -> u8 {
    (v / 256) as u8
}

/// The byte read as a two's complement signed offset.
pub open spec fn sign_extend(b: u8) -> int {
    if b < 128 {
        b as int
    } else {
        b as int - 256
    }
}

/// Address in the stack page that a stack pointer designates.
pub open spec fn stack_addr(sp: u8) -> u16 {
    (STACK + sp) as u16
}

/// The status byte that `PLP` and `RTI` keep from a popped byte: B cleared, U set.
pub open spec fn pulled_status(v: u8) -> u8 {
    (v & !ProcessorStatus::BREAK) | ProcessorStatus::BREAK2
}

/// The status byte that `PHP` pushes: B and U set in the copy.
pub open spec fn pushed_status(p: u8) -> u8 {
    p | ProcessorStatus::BREAK | ProcessorStatus::BREAK2
}

/// `v` shifted left by one, with `carry_in` entering bit 0.
pub open spec fn shift_left(v: u8, carry_in: bool) -> u8 {
    if carry_in {
        (v << 1u8) | 1
    } else {
        v << 1u8
    }
}

/// `v` shifted right by one, with `carry_in` entering bit 7.
pub open spec fn shift_right(v: u8, carry_in: bool) -> u8 {
    if carry_in {
        (v >> 1u8) | 0x80
    } else {
        v >> 1u8
    }
}

/// Why execution stopped short of a `BRK`.
#[derive(Clone, Copy, Debug, PartialEq, Eq, Structural)]
pub enum CpuError {
    /// The byte at `pc` is not a documented opcode.
    UnknownOpcode { opcode: u8, pc: u16 },
}

/// What the processor does after an instruction.
#[derive(Clone, Copy, Debug, PartialEq, Eq, Structural)]
pub enum StepStatus {
    /// More instructions follow.
    Running,
    /// A `BRK` was executed.
    Halted,
}

/// Abstract state of the processor: registers, status byte and the memory image.
pub ghost struct Machine {
    pub a: u8,
    pub x: u8,
    pub y: u8,
    pub sp: u8,
    pub pc: u16,
    pub p: u8,
    pub mem: Seq<u8>,
}

impl Machine {
    pub open spec fn wf(self) -> bool {
        self.mem.len() == MEMORY_SIZE
    }

    pub open spec fn read(self, addr: u16) -> u8 {
        self.mem[addr as int]
    }

    /// Little-endian; the high byte comes from `addr + 1`, which wraps.
    pub open spec fn read16(self, addr: u16) -> u16 {
        le16(self.read(addr), self.read(wrap16(addr + 1)))
    }

    pub open spec fn write(self, addr: u16, v: u8) -> Machine {
        Machine { mem: self.mem.update(addr as int, v), ..self }
    }

    pub open spec fn write16(self, addr: u16, v: u16) -> Machine {
        self.write(addr, lo_byte(v)).write(wrap16(addr + 1), hi_byte(v))
    }

    pub open spec fn flag(self, f: u8) -> bool {
        self.p & f == f
    }

    pub open spec fn with_flag(self, f: u8, on: bool) -> Machine {
        Machine { p: set_bits(self.p, f, on), ..self }
    }

    pub open spec fn with_pc(self, pc: u16) -> Machine {
        Machine { pc, ..self }
    }

    /// Z and N set from `v`: Z when it is zero, N when its bit 7 is set.
    pub open spec fn with_zn(self, v: u8) -> Machine {
        self.with_flag(ProcessorStatus::ZERO, v == 0).with_flag(
            ProcessorStatus::NEGATIVE,
            v & 0x80 != 0,
        )
    }

    /// A takes `v`, then Z and N follow it.
    pub open spec fn load_a(self, v: u8) -> Machine {
        Machine { a: v, ..self }.with_zn(v)
    }

    pub open spec fn load_x(self, v: u8) -> Machine {
        Machine { x: v, ..self }.with_zn(v)
    }

    pub open spec fn load_y(self, v: u8) -> Machine {
        Machine { y: v, ..self }.with_zn(v)
    }

    /// Writes at `0x0100 + SP`, then decrements SP.
    pub open spec fn push(self, v: u8) -> Machine {
        Machine { sp: wrap8(self.sp - 1), ..self.write(stack_addr(self.sp), v) }
    }

    /// The byte that a pop returns: the one at `0x0100 + SP + 1`.
    pub open spec fn pop_value(self) -> u8 {
        self.read(stack_addr(wrap8(self.sp + 1)))
    }

    /// The state after a pop: SP incremented.
    pub open spec fn after_pop(self) -> Machine {
        Machine { sp: wrap8(self.sp + 1), ..self }
    }

    /// High byte first, so that the low byte ends at the lower address.
    pub open spec fn push16(self, v: u16) -> Machine {
        self.push(hi_byte(v)).push(lo_byte(v))
    }

    pub open spec fn pop16_value(self) -> u16 {
        le16(self.pop_value(), self.after_pop().pop_value())
    }

    pub open spec fn after_pop16(self) -> Machine {
        self.after_pop().after_pop()
    }

    /// The effective address of the operand at PC in `mode`.
    pub open spec fn operand_address(self, mode: AddressingMode) -> u16 {
        match mode {
            AddressingMode::Immediate => self.pc,
            AddressingMode::ZeroPage => self.read(self.pc) as u16,
            AddressingMode::ZeroPageX => wrap8(self.read(self.pc) + self.x) as u16,
            AddressingMode::ZeroPageY => wrap8(self.read(self.pc) + self.y) as u16,
            AddressingMode::Absolute => self.read16(self.pc),
            AddressingMode::AbsoluteX => wrap16(self.read16(self.pc) + self.x),
            AddressingMode::AbsoluteY => wrap16(self.read16(self.pc) + self.y),
            AddressingMode::IndirectX => {
                let ptr = wrap8(self.read(self.pc) + self.x);
                le16(self.read(ptr as u16), self.read(wrap8(ptr + 1) as u16))
            },
            AddressingMode::IndirectY => {
                let ptr = self.read(self.pc);
                wrap16(
                    le16(self.read(ptr as u16), self.read(wrap8(ptr + 1) as u16)) + self.y,
                )
            },
            AddressingMode::Implied => 0,
        }
    }

    pub open spec fn operand(self, mode: AddressingMode) -> u8 {
        self.read(self.operand_address(mode))
    }

    /// `A + v + C`: carry out of bit 7, signed overflow, then A and Z, N.
    pub open spec fn add_to_a(self, v: u8) -> Machine {
        let sum = self.a + v + if self.flag(ProcessorStatus::CARRY) {
            1int
        } else {
            0int
        };
        let result = wrap8(sum);
        self.with_flag(ProcessorStatus::CARRY, sum > 0xff).with_flag(
            ProcessorStatus::OVERFLOW,
            (v ^ result) & (self.a ^ result) & 0x80 != 0,
        ).load_a(result)
    }

    /// C when `m <= reg`; Z and N from `reg - m`.
    pub open spec fn compare(self, reg: u8, m: u8) -> Machine {
        self.with_flag(ProcessorStatus::CARRY, m <= reg).with_zn(wrap8(reg - m))
    }

    /// PC points at the offset byte. Taken: past it plus the signed offset;
    /// otherwise past it.
    pub open spec fn branch(self, condition: bool) -> Machine {
        if condition {
            self.with_pc(wrap16(self.pc + 1 + sign_extend(self.read(self.pc))))
        } else {
            self.with_pc(wrap16(self.pc + 1))
        }
    }

    /// A read-modify-write at the operand address: C from `carry`, the result
    /// stored, then Z and N from it.
    pub open spec fn modify(self, mode: AddressingMode, carry: bool, result: u8) -> Machine {
        self.with_flag(ProcessorStatus::CARRY, carry).write(
            self.operand_address(mode),
            result,
        ).with_zn(result)
    }
}

/// What one instruction does, with PC pointing just past its opcode. The
/// dispatcher then steps over the operand bytes of the mode.
#[verifier::opaque]
pub open spec fn execute(s: Machine, m: Mnemonic, mode: AddressingMode) -> Machine {
    let v = s.operand(mode);
    let c = s.flag(ProcessorStatus::CARRY);
    match m {
        Mnemonic::Adc => s.add_to_a(v),
        Mnemonic::And => s.load_a(s.a & v),
        Mnemonic::AslAcc => s.with_flag(ProcessorStatus::CARRY, s.a & 0x80 != 0).load_a(
            shift_left(s.a, false),
        ),
        Mnemonic::Asl => s.modify(mode, v & 0x80 != 0, shift_left(v, false)),
        Mnemonic::Bcc => s.branch(!c),
        Mnemonic::Bcs => s.branch(c),
        Mnemonic::Beq => s.branch(s.flag(ProcessorStatus::ZERO)),
        Mnemonic::Bit => s.with_flag(ProcessorStatus::ZERO, s.a & v == 0).with_flag(
            ProcessorStatus::OVERFLOW,
            v & 0x40 != 0,
        ).with_flag(ProcessorStatus::NEGATIVE, v & 0x80 != 0),
        Mnemonic::Bmi => s.branch(s.flag(ProcessorStatus::NEGATIVE)),
        Mnemonic::Bne => s.branch(!s.flag(ProcessorStatus::ZERO)),
        Mnemonic::Bpl => s.branch(!s.flag(ProcessorStatus::NEGATIVE)),
        Mnemonic::Brk => s,
        Mnemonic::Bvc => s.branch(!s.flag(ProcessorStatus::OVERFLOW)),
        Mnemonic::Bvs => s.branch(s.flag(ProcessorStatus::OVERFLOW)),
        Mnemonic::Clc => s.with_flag(ProcessorStatus::CARRY, false),
        Mnemonic::Cld => s.with_flag(ProcessorStatus::DECIMAL_MODE, false),
        Mnemonic::Cli => s.with_flag(ProcessorStatus::INTERRUPT_DISABLE, false),
        Mnemonic::Clv => s.with_flag(ProcessorStatus::OVERFLOW, false),
        Mnemonic::Cmp => s.compare(s.a, v),
        Mnemonic::Cpx => s.compare(s.x, v),
        Mnemonic::Cpy => s.compare(s.y, v),
        Mnemonic::Dec => s.write(s.operand_address(mode), wrap8(v - 1)).with_zn(wrap8(v - 1)),
        Mnemonic::Dex => s.load_x(wrap8(s.x - 1)),
        Mnemonic::Dey => s.load_y(wrap8(s.y - 1)),
        Mnemonic::Eor => s.load_a(s.a ^ v),
        Mnemonic::Inc => s.write(s.operand_address(mode), wrap8(v + 1)).with_zn(wrap8(v + 1)),
        Mnemonic::Inx => s.load_x(wrap8(s.x + 1)),
        Mnemonic::Iny => s.load_y(wrap8(s.y + 1)),
        Mnemonic::JmpAbs => s.with_pc(s.read16(s.pc)),
        Mnemonic::JmpInd => {
            let addr = s.read16(s.pc);
            if addr & 0x00ff == 0x00ff {
                s.with_pc(le16(s.read(addr), s.read(addr & 0xff00)))
            } else {
                s.with_pc(s.read16(addr))
            }
        },
        Mnemonic::Jsr => {
            let t = s.push16(wrap16(s.pc + 1));
            t.with_pc(t.read16(t.pc))
        },
        Mnemonic::Lda => s.load_a(v),
        Mnemonic::Ldx => s.load_x(v),
        Mnemonic::Ldy => s.load_y(v),
        Mnemonic::LsrAcc => s.with_flag(ProcessorStatus::CARRY, s.a & 1 != 0).load_a(
            shift_right(s.a, false),
        ),
        Mnemonic::Lsr => s.modify(mode, v & 1 != 0, shift_right(v, false)),
        Mnemonic::Nop => s,
        Mnemonic::Ora => s.load_a(s.a | v),
        Mnemonic::Pha => s.push(s.a),
        Mnemonic::Php => s.push(pushed_status(s.p)),
        Mnemonic::Pla => s.after_pop().load_a(s.pop_value()),
        Mnemonic::Plp => Machine { p: pulled_status(s.pop_value()), ..s.after_pop() },
        Mnemonic::RolAcc => s.with_flag(ProcessorStatus::CARRY, s.a & 0x80 != 0).load_a(
            shift_left(s.a, c),
        ),
        Mnemonic::Rol => s.modify(mode, v & 0x80 != 0, shift_left(v, c)),
        Mnemonic::RorAcc => s.with_flag(ProcessorStatus::CARRY, s.a & 1 != 0).load_a(
            shift_right(s.a, c),
        ),
        Mnemonic::Ror => s.modify(mode, v & 1 != 0, shift_right(v, c)),
        Mnemonic::Rti => {
            let t = Machine { p: pulled_status(s.pop_value()), ..s.after_pop() };
            t.after_pop16().with_pc(t.pop16_value())
        },
        Mnemonic::Rts => s.after_pop16().with_pc(wrap16(s.pop16_value() + 1)),
        Mnemonic::Sbc => s.add_to_a((255 - v) as u8),
        Mnemonic::Sec => s.with_flag(ProcessorStatus::CARRY, true),
        Mnemonic::Sed => s.with_flag(ProcessorStatus::DECIMAL_MODE, true),
        Mnemonic::Sei => s.with_flag(ProcessorStatus::INTERRUPT_DISABLE, true),
        Mnemonic::Sta => s.write(s.operand_address(mode), s.a),
        Mnemonic::Stx => s.write(s.operand_address(mode), s.x),
        Mnemonic::Sty => s.write(s.operand_address(mode), s.y),
        Mnemonic::Tax => s.load_x(s.a),
        Mnemonic::Tay => s.load_y(s.a),
        Mnemonic::Tsx => s.load_x(s.sp),
        Mnemonic::Txa => s.load_a(s.x),
        Mnemonic::Txs => Machine { sp: s.x, ..s },
        Mnemonic::Tya => s.load_a(s.y),
    }
}

/// One fetch-decode-execute cycle. An undocumented opcode leaves the state as
/// it was and reports the opcode and its address.
pub open spec fn step_spec(s: Machine) -> (Machine, Result<StepStatus, CpuError>) {
    let op = s.read(s.pc);
    match opcode_table(op) {
        None => (s, Err(CpuError::UnknownOpcode { opcode: op, pc: s.pc })),
        Some(ins) => {
            let fetched = s.with_pc(wrap16(s.pc + 1));
            if ins.mnemonic == Mnemonic::Brk {
                (fetched, Ok(StepStatus::Halted))
            } else {
                let t = execute(fetched, ins.mnemonic, ins.mode);
                (t.with_pc(wrap16(t.pc + operand_len(ins.mode))), Ok(StepStatus::Running))
            }
        },
    }
}

/// At most `fuel` steps, stopping at the first `BRK` or undocumented opcode.
/// `Ok(Running)` means the fuel ran out first.
pub open spec fn run_spec(s: Machine, fuel: nat) -> (Machine, Result<StepStatus, CpuError>)
    decreases fuel,
{
    if fuel == 0 {
        (s, Ok(StepStatus::Running))
    } else {
        let (t, r) = step_spec(s);
        match r {
            Ok(StepStatus::Running) => run_spec(t, (fuel - 1) as nat),
            _ => (t, r),
        }
    }
}

/// Registers as reset leaves them; memory untouched and PC from the reset vector.
pub open spec fn reset_spec(s: Machine) -> Machine {
    Machine {
        a: 0,
        x: 0,
        y: 0,
        sp: STACK_RESET,
        p: STATUS_RESET,
        pc: s.read16(RESET_VECTOR),
        ..s
    }
}

/// `program` copied to `PROGRAM_START`, then the reset vector pointed there.
pub open spec fn load_spec(s: Machine, program: Seq<u8>) -> Machine {
    Machine {
        mem: Seq::new(
            s.mem.len(),
            |i: int|
                if PROGRAM_START <= i < PROGRAM_START + program.len() {
                    program[i - PROGRAM_START]
                } else {
                    s.mem[i]
                },
        ),
        ..s
    }.write16(RESET_VECTOR, PROGRAM_START)
}

/// The state of a newly created processor.
pub open spec fn power_on() -> Machine {
    Machine {
        a: 0,
        x: 0,
        y: 0,
        sp: STACK_RESET,
        pc: 0,
        p: STATUS_RESET,
        mem: Seq::new(MEMORY_SIZE as nat, |i: int| 0u8),
    }
}

} // verus!
