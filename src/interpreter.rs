use vstd::prelude::*;

use crate::cpu::CPU;
use crate::machine::{
    execute, load_spec, reset_spec, run_spec, step_spec, CpuError, Machine, StepStatus, MEMORY_SIZE,
    PROGRAM_START, RESET_VECTOR, STACK_RESET, STATUS_RESET,
};
use crate::opcodes::{decode, AddressingMode, Instruction, Mnemonic};
use crate::status::ProcessorStatus;

verus! {

impl CPU {
    /// A, X, Y cleared, SP and status restored, PC taken from the reset vector.
    pub fn reset(&mut self)
        ensures
            final(self)@ == reset_spec(old(self)@),
    {
        self.ra = 0;
        self.rx = 0;
        self.ry = 0;
        self.rs = STACK_RESET;
        self.rp = ProcessorStatus::from_bits(STATUS_RESET);
        self.pc = self.mem_read_u16(RESET_VECTOR);
    }

    /// Copies `program` to `PROGRAM_START` and points the reset vector there.
    pub fn load(&mut self, program: Vec<u8>)
        requires
            program.len() <= MEMORY_SIZE - PROGRAM_START,
        ensures
            final(self)@ == load_spec(old(self)@, program@),
    {
        let ghost start = self@;
        let n = program.len();
        let mut i: usize = 0;
        while i < n
            invariant
                n == program.len(),
                n <= MEMORY_SIZE - PROGRAM_START,
                i <= n,
                self@ == (Machine { mem: self@.mem, ..start }),
                self@.mem.len() == MEMORY_SIZE,
                forall|j: int|
                    0 <= j < MEMORY_SIZE ==> #[trigger] self@.mem[j] == if PROGRAM_START <= j
                        < PROGRAM_START + i {
                        program@[j - PROGRAM_START]
                    } else {
                        start.mem[j]
                    },
            decreases n - i,
        {
            self.memory[PROGRAM_START as usize + i] = program[i];
            i = i + 1;
        }
        let ghost copied = self@;
        assert(copied.mem =~= Seq::new(
            start.mem.len(),
            |j: int|
                if PROGRAM_START <= j < PROGRAM_START + program@.len() {
                    program@[j - PROGRAM_START]
                } else {
                    start.mem[j]
                },
        ));
        self.mem_write_u16(RESET_VECTOR, PROGRAM_START);
    }

    /// Runs the handler of an instruction that only reads its operand.
    fn execute_read(&mut self, ins: Instruction)
        requires
            ins.mode != AddressingMode::Implied,
        ensures
            ins.mnemonic.reads_operand() ==> final(self)@ == execute(
                old(self)@,
                ins.mnemonic,
                ins.mode,
            ),
    {
        match ins.mnemonic {
            Mnemonic::Adc => self.adc(ins.mode),
            Mnemonic::And => self.and(ins.mode),
            Mnemonic::Bit => self.bit(ins.mode),
            Mnemonic::Cmp => self.cmp(ins.mode),
            Mnemonic::Cpx => self.cpx(ins.mode),
            Mnemonic::Cpy => self.cpy(ins.mode),
            Mnemonic::Eor => self.eor(ins.mode),
            Mnemonic::Lda => self.lda(ins.mode),
            Mnemonic::Ldx => self.ldx(ins.mode),
            Mnemonic::Ldy => self.ldy(ins.mode),
            Mnemonic::Ora => self.ora(ins.mode),
            Mnemonic::Sbc => self.sbc(ins.mode),
            _ => {},
        }
    }

    /// Runs the handler of an instruction that writes at its operand address.
    fn execute_modify(&mut self, ins: Instruction)
        requires
            ins.mode != AddressingMode::Implied,
        ensures
            ins.mnemonic.writes_operand() ==> final(self)@ == execute(
                old(self)@,
                ins.mnemonic,
                ins.mode,
            ),
    {
        match ins.mnemonic {
            Mnemonic::Asl => self.asl(ins.mode),
            Mnemonic::Dec => self.dec(ins.mode),
            Mnemonic::Inc => self.inc(ins.mode),
            Mnemonic::Lsr => self.lsr(ins.mode),
            Mnemonic::Rol => self.rol(ins.mode),
            Mnemonic::Ror => self.ror(ins.mode),
            Mnemonic::Sta => self.sta(ins.mode),
            Mnemonic::Stx => self.stx(ins.mode),
            Mnemonic::Sty => self.sty(ins.mode),
            _ => {},
        }
    }

    /// Runs the handler of an instruction that reads or writes an operand address.
    fn execute_addressed(&mut self, ins: Instruction)
        requires
            ins.mode != AddressingMode::Implied,
            ins.mnemonic.uses_operand_address(),
        ensures
            final(self)@ == execute(old(self)@, ins.mnemonic, ins.mode),
    {
        if ins.mnemonic.writes_operand_address() {
            self.execute_modify(ins);
        } else {
            self.execute_read(ins);
        }
    }

    /// Runs the handler of an instruction that needs no operand address.
    fn execute_implied(&mut self, ins: Instruction)
        requires
            !ins.mnemonic.uses_operand_address(),
            ins.mode == AddressingMode::Implied,
        ensures
            final(self)@ == execute(old(self)@, ins.mnemonic, ins.mode),
    {
        match ins.mnemonic {
            Mnemonic::AslAcc => self.asl_accumulator(),
            Mnemonic::Bcc => self.bbc(),
            Mnemonic::Bcs => self.bcs(),
            Mnemonic::Beq => self.beq(),
            Mnemonic::Bmi => self.bmi(),
            Mnemonic::Bne => self.bne(),
            Mnemonic::Bpl => self.bpl(),
            Mnemonic::Bvc => self.bvc(),
            Mnemonic::Bvs => self.bvs(),
            Mnemonic::Clc => self.clc(),
            Mnemonic::Cld => self.cld(),
            Mnemonic::Cli => self.cli(),
            Mnemonic::Clv => self.clv(),
            Mnemonic::Dex => self.dex(),
            Mnemonic::Dey => self.dey(),
            Mnemonic::Inx => self.inx(),
            Mnemonic::Iny => self.iny(),
            Mnemonic::JmpAbs => self.jmp_absolute(),
            Mnemonic::JmpInd => self.jmp_indirect(),
            Mnemonic::Jsr => self.jsr(),
            Mnemonic::LsrAcc => self.lsr_accumulator(),
            Mnemonic::Pha => self.pha(),
            Mnemonic::Php => self.php(),
            Mnemonic::Pla => self.pla(),
            Mnemonic::Plp => self.plp(),
            Mnemonic::RolAcc => self.rol_accumulator(),
            Mnemonic::RorAcc => self.ror_accumulator(),
            Mnemonic::Rti => self.rti(),
            Mnemonic::Rts => self.rts(),
            Mnemonic::Sec => self.sec(),
            Mnemonic::Sed => self.sed(),
            Mnemonic::Sei => self.sei(),
            Mnemonic::Tax => self.tax(),
            Mnemonic::Tay => self.tay(),
            Mnemonic::Tsx => self.tsx(),
            Mnemonic::Txa => self.txa(),
            Mnemonic::Txs => self.txs(),
            Mnemonic::Tya => self.tya(),
            Mnemonic::Brk | Mnemonic::Nop => proof {
                reveal(execute);
            },
            _ => {},
        }
    }

    /// Runs the handler of `ins`, with PC just past the opcode.
    pub fn execute(&mut self, ins: Instruction)
        requires
            ins.wf(),
        ensures
            final(self)@ == execute(old(self)@, ins.mnemonic, ins.mode),
    {
        if ins.mode == AddressingMode::Implied {
            self.execute_implied(ins);
        } else {
            self.execute_addressed(ins);
        }
    }

    /// One fetch-decode-execute cycle: fetch the opcode at PC and step past it,
    /// run its handler, then step over the operand bytes of its mode. `BRK`
    /// halts; an undocumented opcode is reported and changes nothing.
    pub fn step(&mut self) -> (r: Result<StepStatus, CpuError>)
        ensures
            (final(self)@, r) == step_spec(old(self)@),
    {
        let opcode = self.mem_read(self.pc);
        let ins = match decode(opcode) {
            Some(ins) => ins,
            None => {
                return Err(CpuError::UnknownOpcode { opcode, pc: self.pc });
            },
        };
        self.pc = self.pc.wrapping_add(1);
        if let Mnemonic::Brk = ins.mnemonic {
            return Ok(StepStatus::Halted);
        }
        self.execute(ins);
        self.pc = self.pc.wrapping_add(ins.mode.operand_bytes());
        Ok(StepStatus::Running)
    }

    /// Runs at most `max_steps` instructions, stopping after a `BRK` or at an
    /// undocumented opcode. `Ok(Running)` means the budget ran out first.
    pub fn run_for(&mut self, max_steps: u64) -> (r: Result<StepStatus, CpuError>)
        ensures
            (final(self)@, r) == run_spec(old(self)@, max_steps as nat),
    {
        let ghost start = self@;
        let mut remaining = max_steps;
        while remaining > 0
            invariant
                start == old(self)@,
                run_spec(self@, remaining as nat) == run_spec(start, max_steps as nat),
            decreases remaining,
        {
            let ghost before = self@;
            let r = self.step();
            assert(run_spec(before, remaining as nat) == match r {
                Ok(StepStatus::Running) => run_spec(self@, (remaining - 1) as nat),
                _ => (self@, r),
            });
            match r {
                Ok(StepStatus::Running) => {},
                _ => {
                    return r;
                },
            }
            remaining = remaining - 1;
        }
        Ok(StepStatus::Running)
    }

    /// Runs until `BRK` (or an undocumented opcode), giving up only after
    /// `u64::MAX` instructions.
    pub fn run(&mut self) -> (r: Result<StepStatus, CpuError>)
        ensures
            (final(self)@, r) == run_spec(old(self)@, u64::MAX as nat),
    {
        self.run_for(u64::MAX)
    }

    /// Loads `program`, resets, and runs it.
    pub fn load_and_run(&mut self, program: Vec<u8>) -> (r: Result<StepStatus, CpuError>)
        requires
            program.len() <= MEMORY_SIZE - PROGRAM_START,
        ensures
            (final(self)@, r) == run_spec(
                reset_spec(load_spec(old(self)@, program@)),
                u64::MAX as nat,
            ),
    {
        self.load(program);
        self.reset();
        self.run()
    }
}

} // verus!
