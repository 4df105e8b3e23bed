use vstd::prelude::*;

verus! {

/// How an instruction finds its operand, given a program counter that points at
/// the first operand byte.
#[derive(Clone, Copy, Debug, PartialEq, Eq, Structural)]
pub enum AddressingMode {
    Immediate,
    ZeroPage,
    ZeroPageX,
    ZeroPageY,
    Absolute,
    AbsoluteX,
    AbsoluteY,
    IndirectX,
    IndirectY,
    /// No operand address: implied and accumulator forms, and the branches and
    /// jumps, which read their own operand bytes.
    Implied,
}

/// The number of operand bytes that the dispatcher steps over after the
/// handler of an instruction in this mode has run.
pub open spec fn operand_len(mode: AddressingMode) -> u16 {
    match mode {
        AddressingMode::Immediate
        | AddressingMode::ZeroPage
        | AddressingMode::ZeroPageX
        | AddressingMode::ZeroPageY
        | AddressingMode::IndirectX
        | AddressingMode::IndirectY => 1,
        AddressingMode::Absolute | AddressingMode::AbsoluteX | AddressingMode::AbsoluteY => 2,
        AddressingMode::Implied => 0,
    }
}

impl AddressingMode {
    pub fn operand_bytes(&self) -> (r: u16)
        ensures
            r == operand_len(*self),
    {
        match self {
            AddressingMode::Immediate
            | AddressingMode::ZeroPage
            | AddressingMode::ZeroPageX
            | AddressingMode::ZeroPageY
            | AddressingMode::IndirectX
            | AddressingMode::IndirectY => 1,
            AddressingMode::Absolute | AddressingMode::AbsoluteX | AddressingMode::AbsoluteY => 2,
            AddressingMode::Implied => 0,
        }
    }
}

/// The documented 6502 mnemonics. The shifts and rotates on the accumulator and
/// the two forms of `JMP` have variants of their own.
#[derive(Clone, Copy, Debug, PartialEq, Eq, Structural)]
pub enum Mnemonic {
    Adc,
    And,
    AslAcc,
    Asl,
    Bcc,
    Bcs,
    Beq,
    Bit,
    Bmi,
    Bne,
    Bpl,
    Brk,
    Bvc,
    Bvs,
    Clc,
    Cld,
    Cli,
    Clv,
    Cmp,
    Cpx,
    Cpy,
    Dec,
    Dex,
    Dey,
    Eor,
    Inc,
    Inx,
    Iny,
    JmpAbs,
    JmpInd,
    Jsr,
    Lda,
    Ldx,
    Ldy,
    LsrAcc,
    Lsr,
    Nop,
    Ora,
    Pha,
    Php,
    Pla,
    Plp,
    RolAcc,
    Rol,
    RorAcc,
    Ror,
    Rti,
    Rts,
    Sbc,
    Sec,
    Sed,
    Sei,
    Sta,
    Stx,
    Sty,
    Tax,
    Tay,
    Tsx,
    Txa,
    Txs,
    Tya,
}

impl Mnemonic {
    /// Mnemonics whose handler resolves an operand address from the mode.
    pub open spec fn uses_operand_address(self) -> bool {
        match self {
            Mnemonic::Adc | Mnemonic::And | Mnemonic::Asl | Mnemonic::Bit | Mnemonic::Cmp
            | Mnemonic::Cpx | Mnemonic::Cpy | Mnemonic::Dec | Mnemonic::Eor | Mnemonic::Inc
            | Mnemonic::Lda | Mnemonic::Ldx | Mnemonic::Ldy | Mnemonic::Lsr | Mnemonic::Ora
            | Mnemonic::Rol | Mnemonic::Ror | Mnemonic::Sbc | Mnemonic::Sta | Mnemonic::Stx
            | Mnemonic::Sty => true,
            _ => false,
        }
    }
}

impl Mnemonic {
    /// Mnemonics that read the operand and leave memory as it is.
    pub open spec fn reads_operand(self) -> bool {
        match self {
            Mnemonic::Adc
            | Mnemonic::And
            | Mnemonic::Bit
            | Mnemonic::Cmp
            | Mnemonic::Cpx
            | Mnemonic::Cpy
            | Mnemonic::Eor
            | Mnemonic::Lda
            | Mnemonic::Ldx
            | Mnemonic::Ldy
            | Mnemonic::Ora
            | Mnemonic::Sbc => true,
            _ => false,
        }
    }

    /// Mnemonics that store at the operand address.
    pub open spec fn writes_operand(self) -> bool {
        match self {
            Mnemonic::Asl
            | Mnemonic::Dec
            | Mnemonic::Inc
            | Mnemonic::Lsr
            | Mnemonic::Rol
            | Mnemonic::Ror
            | Mnemonic::Sta
            | Mnemonic::Stx
            | Mnemonic::Sty => true,
            _ => false,
        }
    }

    pub fn writes_operand_address(&self) -> (r: bool)
        ensures
            r == self.writes_operand(),
    {
        match self {
            Mnemonic::Asl
            | Mnemonic::Dec
            | Mnemonic::Inc
            | Mnemonic::Lsr
            | Mnemonic::Rol
            | Mnemonic::Ror
            | Mnemonic::Sta
            | Mnemonic::Stx
            | Mnemonic::Sty => true,
            _ => false,
        }
    }
}

/// One entry of the opcode table: what to run and in which addressing mode.
#[derive(Clone, Copy, Debug, PartialEq, Eq, Structural)]
pub struct Instruction {
    pub mnemonic: Mnemonic,
    pub mode: AddressingMode,
}

impl Instruction {
    /// The mode gives an operand address exactly where the handler needs one.
    pub open spec fn wf(self) -> bool {
        self.mnemonic.uses_operand_address() <==> self.mode != AddressingMode::Implied
    }
}

/// The opcode matrix: every documented 6502 opcode with its mnemonic and mode.
pub open spec fn opcode_table(op: u8) -> Option<Instruction> {
    match op {
        0x00 => Some(Instruction { mnemonic: Mnemonic::Brk, mode: AddressingMode::Implied }),
        0x01 => Some(Instruction { mnemonic: Mnemonic::Ora, mode: AddressingMode::IndirectX }),
        0x05 => Some(Instruction { mnemonic: Mnemonic::Ora, mode: AddressingMode::ZeroPage }),
        0x06 => Some(Instruction { mnemonic: Mnemonic::Asl, mode: AddressingMode::ZeroPage }),
        0x08 => Some(Instruction { mnemonic: Mnemonic::Php, mode: AddressingMode::Implied }),
        0x09 => Some(Instruction { mnemonic: Mnemonic::Ora, mode: AddressingMode::Immediate }),
        0x0a => Some(Instruction { mnemonic: Mnemonic::AslAcc, mode: AddressingMode::Implied }),
        0x0d => Some(Instruction { mnemonic: Mnemonic::Ora, mode: AddressingMode::Absolute }),
        0x0e => Some(Instruction { mnemonic: Mnemonic::Asl, mode: AddressingMode::Absolute }),
        0x10 => Some(Instruction { mnemonic: Mnemonic::Bpl, mode: AddressingMode::Implied }),
        0x11 => Some(Instruction { mnemonic: Mnemonic::Ora, mode: AddressingMode::IndirectY }),
        0x15 => Some(Instruction { mnemonic: Mnemonic::Ora, mode: AddressingMode::ZeroPageX }),
        0x16 => Some(Instruction { mnemonic: Mnemonic::Asl, mode: AddressingMode::ZeroPageX }),
        0x18 => Some(Instruction { mnemonic: Mnemonic::Clc, mode: AddressingMode::Implied }),
        0x19 => Some(Instruction { mnemonic: Mnemonic::Ora, mode: AddressingMode::AbsoluteY }),
        0x1d => Some(Instruction { mnemonic: Mnemonic::Ora, mode: AddressingMode::AbsoluteX }),
        0x1e => Some(Instruction { mnemonic: Mnemonic::Asl, mode: AddressingMode::AbsoluteX }),
        0x20 => Some(Instruction { mnemonic: Mnemonic::Jsr, mode: AddressingMode::Implied }),
        0x21 => Some(Instruction { mnemonic: Mnemonic::And, mode: AddressingMode::IndirectX }),
        0x24 => Some(Instruction { mnemonic: Mnemonic::Bit, mode: AddressingMode::ZeroPage }),
        0x25 => Some(Instruction { mnemonic: Mnemonic::And, mode: AddressingMode::ZeroPage }),
        0x26 => Some(Instruction { mnemonic: Mnemonic::Rol, mode: AddressingMode::ZeroPage }),
        0x28 => Some(Instruction { mnemonic: Mnemonic::Plp, mode: AddressingMode::Implied }),
        0x29 => Some(Instruction { mnemonic: Mnemonic::And, mode: AddressingMode::Immediate }),
        0x2a => Some(Instruction { mnemonic: Mnemonic::RolAcc, mode: AddressingMode::Implied }),
        0x2c => Some(Instruction { mnemonic: Mnemonic::Bit, mode: AddressingMode::Absolute }),
        0x2d => Some(Instruction { mnemonic: Mnemonic::And, mode: AddressingMode::Absolute }),
        0x2e => Some(Instruction { mnemonic: Mnemonic::Rol, mode: AddressingMode::Absolute }),
        0x30 => Some(Instruction { mnemonic: Mnemonic::Bmi, mode: AddressingMode::Implied }),
        0x31 => Some(Instruction { mnemonic: Mnemonic::And, mode: AddressingMode::IndirectY }),
        0x35 => Some(Instruction { mnemonic: Mnemonic::And, mode: AddressingMode::ZeroPageX }),
        0x36 => Some(Instruction { mnemonic: Mnemonic::Rol, mode: AddressingMode::ZeroPageX }),
        0x38 => Some(Instruction { mnemonic: Mnemonic::Sec, mode: AddressingMode::Implied }),
        0x39 => Some(Instruction { mnemonic: Mnemonic::And, mode: AddressingMode::AbsoluteY }),
        0x3d => Some(Instruction { mnemonic: Mnemonic::And, mode: AddressingMode::AbsoluteX }),
        0x3e => Some(Instruction { mnemonic: Mnemonic::Rol, mode: AddressingMode::AbsoluteX }),
        0x40 => Some(Instruction { mnemonic: Mnemonic::Rti, mode: AddressingMode::Implied }),
        0x41 => Some(Instruction { mnemonic: Mnemonic::Eor, mode: AddressingMode::IndirectX }),
        0x45 => Some(Instruction { mnemonic: Mnemonic::Eor, mode: AddressingMode::ZeroPage }),
        0x46 => Some(Instruction { mnemonic: Mnemonic::Lsr, mode: AddressingMode::ZeroPage }),
        0x48 => Some(Instruction { mnemonic: Mnemonic::Pha, mode: AddressingMode::Implied }),
        0x49 => Some(Instruction { mnemonic: Mnemonic::Eor, mode: AddressingMode::Immediate }),
        0x4a => Some(Instruction { mnemonic: Mnemonic::LsrAcc, mode: AddressingMode::Implied }),
        0x4c => Some(Instruction { mnemonic: Mnemonic::JmpAbs, mode: AddressingMode::Implied }),
        0x4d => Some(Instruction { mnemonic: Mnemonic::Eor, mode: AddressingMode::Absolute }),
        0x4e => Some(Instruction { mnemonic: Mnemonic::Lsr, mode: AddressingMode::Absolute }),
        0x50 => Some(Instruction { mnemonic: Mnemonic::Bvc, mode: AddressingMode::Implied }),
        0x51 => Some(Instruction { mnemonic: Mnemonic::Eor, mode: AddressingMode::IndirectY }),
        0x55 => Some(Instruction { mnemonic: Mnemonic::Eor, mode: AddressingMode::ZeroPageX }),
        0x56 => Some(Instruction { mnemonic: Mnemonic::Lsr, mode: AddressingMode::ZeroPageX }),
        0x58 => Some(Instruction { mnemonic: Mnemonic::Cli, mode: AddressingMode::Implied }),
        0x59 => Some(Instruction { mnemonic: Mnemonic::Eor, mode: AddressingMode::AbsoluteY }),
        0x5d => Some(Instruction { mnemonic: Mnemonic::Eor, mode: AddressingMode::AbsoluteX }),
        0x5e => Some(Instruction { mnemonic: Mnemonic::Lsr, mode: AddressingMode::AbsoluteX }),
        0x60 => Some(Instruction { mnemonic: Mnemonic::Rts, mode: AddressingMode::Implied }),
        0x61 => Some(Instruction { mnemonic: Mnemonic::Adc, mode: AddressingMode::IndirectX }),
        0x65 => Some(Instruction { mnemonic: Mnemonic::Adc, mode: AddressingMode::ZeroPage }),
        0x66 => Some(Instruction { mnemonic: Mnemonic::Ror, mode: AddressingMode::ZeroPage }),
        0x68 => Some(Instruction { mnemonic: Mnemonic::Pla, mode: AddressingMode::Implied }),
        0x69 => Some(Instruction { mnemonic: Mnemonic::Adc, mode: AddressingMode::Immediate }),
        0x6a => Some(Instruction { mnemonic: Mnemonic::RorAcc, mode: AddressingMode::Implied }),
        0x6c => Some(Instruction { mnemonic: Mnemonic::JmpInd, mode: AddressingMode::Implied }),
        0x6d => Some(Instruction { mnemonic: Mnemonic::Adc, mode: AddressingMode::Absolute }),
        0x6e => Some(Instruction { mnemonic: Mnemonic::Ror, mode: AddressingMode::Absolute }),
        0x70 => Some(Instruction { mnemonic: Mnemonic::Bvs, mode: AddressingMode::Implied }),
        0x71 => Some(Instruction { mnemonic: Mnemonic::Adc, mode: AddressingMode::IndirectY }),
        0x75 => Some(Instruction { mnemonic: Mnemonic::Adc, mode: AddressingMode::ZeroPageX }),
        0x76 => Some(Instruction { mnemonic: Mnemonic::Ror, mode: AddressingMode::ZeroPageX }),
        0x78 => Some(Instruction { mnemonic: Mnemonic::Sei, mode: AddressingMode::Implied }),
        0x79 => Some(Instruction { mnemonic: Mnemonic::Adc, mode: AddressingMode::AbsoluteY }),
        0x7d => Some(Instruction { mnemonic: Mnemonic::Adc, mode: AddressingMode::AbsoluteX }),
        0x7e => Some(Instruction { mnemonic: Mnemonic::Ror, mode: AddressingMode::AbsoluteX }),
        0x81 => Some(Instruction { mnemonic: Mnemonic::Sta, mode: AddressingMode::IndirectX }),
        0x84 => Some(Instruction { mnemonic: Mnemonic::Sty, mode: AddressingMode::ZeroPage }),
        0x85 => Some(Instruction { mnemonic: Mnemonic::Sta, mode: AddressingMode::ZeroPage }),
        0x86 => Some(Instruction { mnemonic: Mnemonic::Stx, mode: AddressingMode::ZeroPage }),
        0x88 => Some(Instruction { mnemonic: Mnemonic::Dey, mode: AddressingMode::Implied }),
        0x8a => Some(Instruction { mnemonic: Mnemonic::Txa, mode: AddressingMode::Implied }),
        0x8c => Some(Instruction { mnemonic: Mnemonic::Sty, mode: AddressingMode::Absolute }),
        0x8d => Some(Instruction { mnemonic: Mnemonic::Sta, mode: AddressingMode::Absolute }),
        0x8e => Some(Instruction { mnemonic: Mnemonic::Stx, mode: AddressingMode::Absolute }),
        0x90 => Some(Instruction { mnemonic: Mnemonic::Bcc, mode: AddressingMode::Implied }),
        0x91 => Some(Instruction { mnemonic: Mnemonic::Sta, mode: AddressingMode::IndirectY }),
        0x94 => Some(Instruction { mnemonic: Mnemonic::Sty, mode: AddressingMode::ZeroPageX }),
        0x95 => Some(Instruction { mnemonic: Mnemonic::Sta, mode: AddressingMode::ZeroPageX }),
        0x96 => Some(Instruction { mnemonic: Mnemonic::Stx, mode: AddressingMode::ZeroPageY }),
        0x98 => Some(Instruction { mnemonic: Mnemonic::Tya, mode: AddressingMode::Implied }),
        0x99 => Some(Instruction { mnemonic: Mnemonic::Sta, mode: AddressingMode::AbsoluteY }),
        0x9a => Some(Instruction { mnemonic: Mnemonic::Txs, mode: AddressingMode::Implied }),
        0x9d => Some(Instruction { mnemonic: Mnemonic::Sta, mode: AddressingMode::AbsoluteX }),
        0xa0 => Some(Instruction { mnemonic: Mnemonic::Ldy, mode: AddressingMode::Immediate }),
        0xa1 => Some(Instruction { mnemonic: Mnemonic::Lda, mode: AddressingMode::IndirectX }),
        0xa2 => Some(Instruction { mnemonic: Mnemonic::Ldx, mode: AddressingMode::Immediate }),
        0xa4 => Some(Instruction { mnemonic: Mnemonic::Ldy, mode: AddressingMode::ZeroPage }),
        0xa5 => Some(Instruction { mnemonic: Mnemonic::Lda, mode: AddressingMode::ZeroPage }),
        0xa6 => Some(Instruction { mnemonic: Mnemonic::Ldx, mode: AddressingMode::ZeroPage }),
        0xa8 => Some(Instruction { mnemonic: Mnemonic::Tay, mode: AddressingMode::Implied }),
        0xa9 => Some(Instruction { mnemonic: Mnemonic::Lda, mode: AddressingMode::Immediate }),
        0xaa => Some(Instruction { mnemonic: Mnemonic::Tax, mode: AddressingMode::Implied }),
        0xac => Some(Instruction { mnemonic: Mnemonic::Ldy, mode: AddressingMode::Absolute }),
        0xad => Some(Instruction { mnemonic: Mnemonic::Lda, mode: AddressingMode::Absolute }),
        0xae => Some(Instruction { mnemonic: Mnemonic::Ldx, mode: AddressingMode::Absolute }),
        0xb0 => Some(Instruction { mnemonic: Mnemonic::Bcs, mode: AddressingMode::Implied }),
        0xb1 => Some(Instruction { mnemonic: Mnemonic::Lda, mode: AddressingMode::IndirectY }),
        0xb4 => Some(Instruction { mnemonic: Mnemonic::Ldy, mode: AddressingMode::ZeroPageX }),
        0xb5 => Some(Instruction { mnemonic: Mnemonic::Lda, mode: AddressingMode::ZeroPageX }),
        0xb6 => Some(Instruction { mnemonic: Mnemonic::Ldx, mode: AddressingMode::ZeroPageY }),
        0xb8 => Some(Instruction { mnemonic: Mnemonic::Clv, mode: AddressingMode::Implied }),
        0xb9 => Some(Instruction { mnemonic: Mnemonic::Lda, mode: AddressingMode::AbsoluteY }),
        0xba => Some(Instruction { mnemonic: Mnemonic::Tsx, mode: AddressingMode::Implied }),
        0xbc => Some(Instruction { mnemonic: Mnemonic::Ldy, mode: AddressingMode::AbsoluteX }),
        0xbd => Some(Instruction { mnemonic: Mnemonic::Lda, mode: AddressingMode::AbsoluteX }),
        0xbe => Some(Instruction { mnemonic: Mnemonic::Ldx, mode: AddressingMode::AbsoluteY }),
        0xc0 => Some(Instruction { mnemonic: Mnemonic::Cpy, mode: AddressingMode::Immediate }),
        0xc1 => Some(Instruction { mnemonic: Mnemonic::Cmp, mode: AddressingMode::IndirectX }),
        0xc4 => Some(Instruction { mnemonic: Mnemonic::Cpy, mode: AddressingMode::ZeroPage }),
        0xc5 => Some(Instruction { mnemonic: Mnemonic::Cmp, mode: AddressingMode::ZeroPage }),
        0xc6 => Some(Instruction { mnemonic: Mnemonic::Dec, mode: AddressingMode::ZeroPage }),
        0xc8 => Some(Instruction { mnemonic: Mnemonic::Iny, mode: AddressingMode::Implied }),
        0xc9 => Some(Instruction { mnemonic: Mnemonic::Cmp, mode: AddressingMode::Immediate }),
        0xca => Some(Instruction { mnemonic: Mnemonic::Dex, mode: AddressingMode::Implied }),
        0xcc => Some(Instruction { mnemonic: Mnemonic::Cpy, mode: AddressingMode::Absolute }),
        0xcd => Some(Instruction { mnemonic: Mnemonic::Cmp, mode: AddressingMode::Absolute }),
        0xce => Some(Instruction { mnemonic: Mnemonic::Dec, mode: AddressingMode::Absolute }),
        0xd0 => Some(Instruction { mnemonic: Mnemonic::Bne, mode: AddressingMode::Implied }),
        0xd1 => Some(Instruction { mnemonic: Mnemonic::Cmp, mode: AddressingMode::IndirectY }),
        0xd5 => Some(Instruction { mnemonic: Mnemonic::Cmp, mode: AddressingMode::ZeroPageX }),
        0xd6 => Some(Instruction { mnemonic: Mnemonic::Dec, mode: AddressingMode::ZeroPageX }),
        0xd8 => Some(Instruction { mnemonic: Mnemonic::Cld, mode: AddressingMode::Implied }),
        0xd9 => Some(Instruction { mnemonic: Mnemonic::Cmp, mode: AddressingMode::AbsoluteY }),
        0xdd => Some(Instruction { mnemonic: Mnemonic::Cmp, mode: AddressingMode::AbsoluteX }),
        0xde => Some(Instruction { mnemonic: Mnemonic::Dec, mode: AddressingMode::AbsoluteX }),
        0xe0 => Some(Instruction { mnemonic: Mnemonic::Cpx, mode: AddressingMode::Immediate }),
        0xe1 => Some(Instruction { mnemonic: Mnemonic::Sbc, mode: AddressingMode::IndirectX }),
        0xe4 => Some(Instruction { mnemonic: Mnemonic::Cpx, mode: AddressingMode::ZeroPage }),
        0xe5 => Some(Instruction { mnemonic: Mnemonic::Sbc, mode: AddressingMode::ZeroPage }),
        0xe6 => Some(Instruction { mnemonic: Mnemonic::Inc, mode: AddressingMode::ZeroPage }),
        0xe8 => Some(Instruction { mnemonic: Mnemonic::Inx, mode: AddressingMode::Implied }),
        0xe9 => Some(Instruction { mnemonic: Mnemonic::Sbc, mode: AddressingMode::Immediate }),
        0xea => Some(Instruction { mnemonic: Mnemonic::Nop, mode: AddressingMode::Implied }),
        0xec => Some(Instruction { mnemonic: Mnemonic::Cpx, mode: AddressingMode::Absolute }),
        0xed => Some(Instruction { mnemonic: Mnemonic::Sbc, mode: AddressingMode::Absolute }),
        0xee => Some(Instruction { mnemonic: Mnemonic::Inc, mode: AddressingMode::Absolute }),
        0xf0 => Some(Instruction { mnemonic: Mnemonic::Beq, mode: AddressingMode::Implied }),
        0xf1 => Some(Instruction { mnemonic: Mnemonic::Sbc, mode: AddressingMode::IndirectY }),
        0xf5 => Some(Instruction { mnemonic: Mnemonic::Sbc, mode: AddressingMode::ZeroPageX }),
        0xf6 => Some(Instruction { mnemonic: Mnemonic::Inc, mode: AddressingMode::ZeroPageX }),
        0xf8 => Some(Instruction { mnemonic: Mnemonic::Sed, mode: AddressingMode::Implied }),
        0xf9 => Some(Instruction { mnemonic: Mnemonic::Sbc, mode: AddressingMode::AbsoluteY }),
        0xfd => Some(Instruction { mnemonic: Mnemonic::Sbc, mode: AddressingMode::AbsoluteX }),
        0xfe => Some(Instruction { mnemonic: Mnemonic::Inc, mode: AddressingMode::AbsoluteX }),
        _ => None,
    }
}

/// Looks an opcode up in the opcode matrix; `None` for an undocumented opcode.
pub fn decode(op: u8) -> (r: Option<Instruction>)
    ensures
        r == opcode_table(op),
        r matches Some(ins) ==> ins.wf(),
{
    match op {
        0x00 => Some(Instruction { mnemonic: Mnemonic::Brk, mode: AddressingMode::Implied }),
        0x01 => Some(Instruction { mnemonic: Mnemonic::Ora, mode: AddressingMode::IndirectX }),
        0x05 => Some(Instruction { mnemonic: Mnemonic::Ora, mode: AddressingMode::ZeroPage }),
        0x06 => Some(Instruction { mnemonic: Mnemonic::Asl, mode: AddressingMode::ZeroPage }),
        0x08 => Some(Instruction { mnemonic: Mnemonic::Php, mode: AddressingMode::Implied }),
        0x09 => Some(Instruction { mnemonic: Mnemonic::Ora, mode: AddressingMode::Immediate }),
        0x0a => Some(Instruction { mnemonic: Mnemonic::AslAcc, mode: AddressingMode::Implied }),
        0x0d => Some(Instruction { mnemonic: Mnemonic::Ora, mode: AddressingMode::Absolute }),
        0x0e => Some(Instruction { mnemonic: Mnemonic::Asl, mode: AddressingMode::Absolute }),
        0x10 => Some(Instruction { mnemonic: Mnemonic::Bpl, mode: AddressingMode::Implied }),
        0x11 => Some(Instruction { mnemonic: Mnemonic::Ora, mode: AddressingMode::IndirectY }),
        0x15 => Some(Instruction { mnemonic: Mnemonic::Ora, mode: AddressingMode::ZeroPageX }),
        0x16 => Some(Instruction { mnemonic: Mnemonic::Asl, mode: AddressingMode::ZeroPageX }),
        0x18 => Some(Instruction { mnemonic: Mnemonic::Clc, mode: AddressingMode::Implied }),
        0x19 => Some(Instruction { mnemonic: Mnemonic::Ora, mode: AddressingMode::AbsoluteY }),
        0x1d => Some(Instruction { mnemonic: Mnemonic::Ora, mode: AddressingMode::AbsoluteX }),
        0x1e => Some(Instruction { mnemonic: Mnemonic::Asl, mode: AddressingMode::AbsoluteX }),
        0x20 => Some(Instruction { mnemonic: Mnemonic::Jsr, mode: AddressingMode::Implied }),
        0x21 => Some(Instruction { mnemonic: Mnemonic::And, mode: AddressingMode::IndirectX }),
        0x24 => Some(Instruction { mnemonic: Mnemonic::Bit, mode: AddressingMode::ZeroPage }),
        0x25 => Some(Instruction { mnemonic: Mnemonic::And, mode: AddressingMode::ZeroPage }),
        0x26 => Some(Instruction { mnemonic: Mnemonic::Rol, mode: AddressingMode::ZeroPage }),
        0x28 => Some(Instruction { mnemonic: Mnemonic::Plp, mode: AddressingMode::Implied }),
        0x29 => Some(Instruction { mnemonic: Mnemonic::And, mode: AddressingMode::Immediate }),
        0x2a => Some(Instruction { mnemonic: Mnemonic::RolAcc, mode: AddressingMode::Implied }),
        0x2c => Some(Instruction { mnemonic: Mnemonic::Bit, mode: AddressingMode::Absolute }),
        0x2d => Some(Instruction { mnemonic: Mnemonic::And, mode: AddressingMode::Absolute }),
        0x2e => Some(Instruction { mnemonic: Mnemonic::Rol, mode: AddressingMode::Absolute }),
        0x30 => Some(Instruction { mnemonic: Mnemonic::Bmi, mode: AddressingMode::Implied }),
        0x31 => Some(Instruction { mnemonic: Mnemonic::And, mode: AddressingMode::IndirectY }),
        0x35 => Some(Instruction { mnemonic: Mnemonic::And, mode: AddressingMode::ZeroPageX }),
        0x36 => Some(Instruction { mnemonic: Mnemonic::Rol, mode: AddressingMode::ZeroPageX }),
        0x38 => Some(Instruction { mnemonic: Mnemonic::Sec, mode: AddressingMode::Implied }),
        0x39 => Some(Instruction { mnemonic: Mnemonic::And, mode: AddressingMode::AbsoluteY }),
        0x3d => Some(Instruction { mnemonic: Mnemonic::And, mode: AddressingMode::AbsoluteX }),
        0x3e => Some(Instruction { mnemonic: Mnemonic::Rol, mode: AddressingMode::AbsoluteX }),
        0x40 => Some(Instruction { mnemonic: Mnemonic::Rti, mode: AddressingMode::Implied }),
        0x41 => Some(Instruction { mnemonic: Mnemonic::Eor, mode: AddressingMode::IndirectX }),
        0x45 => Some(Instruction { mnemonic: Mnemonic::Eor, mode: AddressingMode::ZeroPage }),
        0x46 => Some(Instruction { mnemonic: Mnemonic::Lsr, mode: AddressingMode::ZeroPage }),
        0x48 => Some(Instruction { mnemonic: Mnemonic::Pha, mode: AddressingMode::Implied }),
        0x49 => Some(Instruction { mnemonic: Mnemonic::Eor, mode: AddressingMode::Immediate }),
        0x4a => Some(Instruction { mnemonic: Mnemonic::LsrAcc, mode: AddressingMode::Implied }),
        0x4c => Some(Instruction { mnemonic: Mnemonic::JmpAbs, mode: AddressingMode::Implied }),
        0x4d => Some(Instruction { mnemonic: Mnemonic::Eor, mode: AddressingMode::Absolute }),
        0x4e => Some(Instruction { mnemonic: Mnemonic::Lsr, mode: AddressingMode::Absolute }),
        0x50 => Some(Instruction { mnemonic: Mnemonic::Bvc, mode: AddressingMode::Implied }),
        0x51 => Some(Instruction { mnemonic: Mnemonic::Eor, mode: AddressingMode::IndirectY }),
        0x55 => Some(Instruction { mnemonic: Mnemonic::Eor, mode: AddressingMode::ZeroPageX }),
        0x56 => Some(Instruction { mnemonic: Mnemonic::Lsr, mode: AddressingMode::ZeroPageX }),
        0x58 => Some(Instruction { mnemonic: Mnemonic::Cli, mode: AddressingMode::Implied }),
        0x59 => Some(Instruction { mnemonic: Mnemonic::Eor, mode: AddressingMode::AbsoluteY }),
        0x5d => Some(Instruction { mnemonic: Mnemonic::Eor, mode: AddressingMode::AbsoluteX }),
        0x5e => Some(Instruction { mnemonic: Mnemonic::Lsr, mode: AddressingMode::AbsoluteX }),
        0x60 => Some(Instruction { mnemonic: Mnemonic::Rts, mode: AddressingMode::Implied }),
        0x61 => Some(Instruction { mnemonic: Mnemonic::Adc, mode: AddressingMode::IndirectX }),
        0x65 => Some(Instruction { mnemonic: Mnemonic::Adc, mode: AddressingMode::ZeroPage }),
        0x66 => Some(Instruction { mnemonic: Mnemonic::Ror, mode: AddressingMode::ZeroPage }),
        0x68 => Some(Instruction { mnemonic: Mnemonic::Pla, mode: AddressingMode::Implied }),
        0x69 => Some(Instruction { mnemonic: Mnemonic::Adc, mode: AddressingMode::Immediate }),
        0x6a => Some(Instruction { mnemonic: Mnemonic::RorAcc, mode: AddressingMode::Implied }),
        0x6c => Some(Instruction { mnemonic: Mnemonic::JmpInd, mode: AddressingMode::Implied }),
        0x6d => Some(Instruction { mnemonic: Mnemonic::Adc, mode: AddressingMode::Absolute }),
        0x6e => Some(Instruction { mnemonic: Mnemonic::Ror, mode: AddressingMode::Absolute }),
        0x70 => Some(Instruction { mnemonic: Mnemonic::Bvs, mode: AddressingMode::Implied }),
        0x71 => Some(Instruction { mnemonic: Mnemonic::Adc, mode: AddressingMode::IndirectY }),
        0x75 => Some(Instruction { mnemonic: Mnemonic::Adc, mode: AddressingMode::ZeroPageX }),
        0x76 => Some(Instruction { mnemonic: Mnemonic::Ror, mode: AddressingMode::ZeroPageX }),
        0x78 => Some(Instruction { mnemonic: Mnemonic::Sei, mode: AddressingMode::Implied }),
        0x79 => Some(Instruction { mnemonic: Mnemonic::Adc, mode: AddressingMode::AbsoluteY }),
        0x7d => Some(Instruction { mnemonic: Mnemonic::Adc, mode: AddressingMode::AbsoluteX }),
        0x7e => Some(Instruction { mnemonic: Mnemonic::Ror, mode: AddressingMode::AbsoluteX }),
        0x81 => Some(Instruction { mnemonic: Mnemonic::Sta, mode: AddressingMode::IndirectX }),
        0x84 => Some(Instruction { mnemonic: Mnemonic::Sty, mode: AddressingMode::ZeroPage }),
        0x85 => Some(Instruction { mnemonic: Mnemonic::Sta, mode: AddressingMode::ZeroPage }),
        0x86 => Some(Instruction { mnemonic: Mnemonic::Stx, mode: AddressingMode::ZeroPage }),
        0x88 => Some(Instruction { mnemonic: Mnemonic::Dey, mode: AddressingMode::Implied }),
        0x8a => Some(Instruction { mnemonic: Mnemonic::Txa, mode: AddressingMode::Implied }),
        0x8c => Some(Instruction { mnemonic: Mnemonic::Sty, mode: AddressingMode::Absolute }),
        0x8d => Some(Instruction { mnemonic: Mnemonic::Sta, mode: AddressingMode::Absolute }),
        0x8e => Some(Instruction { mnemonic: Mnemonic::Stx, mode: AddressingMode::Absolute }),
        0x90 => Some(Instruction { mnemonic: Mnemonic::Bcc, mode: AddressingMode::Implied }),
        0x91 => Some(Instruction { mnemonic: Mnemonic::Sta, mode: AddressingMode::IndirectY }),
        0x94 => Some(Instruction { mnemonic: Mnemonic::Sty, mode: AddressingMode::ZeroPageX }),
        0x95 => Some(Instruction { mnemonic: Mnemonic::Sta, mode: AddressingMode::ZeroPageX }),
        0x96 => Some(Instruction { mnemonic: Mnemonic::Stx, mode: AddressingMode::ZeroPageY }),
        0x98 => Some(Instruction { mnemonic: Mnemonic::Tya, mode: AddressingMode::Implied }),
        0x99 => Some(Instruction { mnemonic: Mnemonic::Sta, mode: AddressingMode::AbsoluteY }),
        0x9a => Some(Instruction { mnemonic: Mnemonic::Txs, mode: AddressingMode::Implied }),
        0x9d => Some(Instruction { mnemonic: Mnemonic::Sta, mode: AddressingMode::AbsoluteX }),
        0xa0 => Some(Instruction { mnemonic: Mnemonic::Ldy, mode: AddressingMode::Immediate }),
        0xa1 => Some(Instruction { mnemonic: Mnemonic::Lda, mode: AddressingMode::IndirectX }),
        0xa2 => Some(Instruction { mnemonic: Mnemonic::Ldx, mode: AddressingMode::Immediate }),
        0xa4 => Some(Instruction { mnemonic: Mnemonic::Ldy, mode: AddressingMode::ZeroPage }),
        0xa5 => Some(Instruction { mnemonic: Mnemonic::Lda, mode: AddressingMode::ZeroPage }),
        0xa6 => Some(Instruction { mnemonic: Mnemonic::Ldx, mode: AddressingMode::ZeroPage }),
        0xa8 => Some(Instruction { mnemonic: Mnemonic::Tay, mode: AddressingMode::Implied }),
        0xa9 => Some(Instruction { mnemonic: Mnemonic::Lda, mode: AddressingMode::Immediate }),
        0xaa => Some(Instruction { mnemonic: Mnemonic::Tax, mode: AddressingMode::Implied }),
        0xac => Some(Instruction { mnemonic: Mnemonic::Ldy, mode: AddressingMode::Absolute }),
        0xad => Some(Instruction { mnemonic: Mnemonic::Lda, mode: AddressingMode::Absolute }),
        0xae => Some(Instruction { mnemonic: Mnemonic::Ldx, mode: AddressingMode::Absolute }),
        0xb0 => Some(Instruction { mnemonic: Mnemonic::Bcs, mode: AddressingMode::Implied }),
        0xb1 => Some(Instruction { mnemonic: Mnemonic::Lda, mode: AddressingMode::IndirectY }),
        0xb4 => Some(Instruction { mnemonic: Mnemonic::Ldy, mode: AddressingMode::ZeroPageX }),
        0xb5 => Some(Instruction { mnemonic: Mnemonic::Lda, mode: AddressingMode::ZeroPageX }),
        0xb6 => Some(Instruction { mnemonic: Mnemonic::Ldx, mode: AddressingMode::ZeroPageY }),
        0xb8 => Some(Instruction { mnemonic: Mnemonic::Clv, mode: AddressingMode::Implied }),
        0xb9 => Some(Instruction { mnemonic: Mnemonic::Lda, mode: AddressingMode::AbsoluteY }),
        0xba => Some(Instruction { mnemonic: Mnemonic::Tsx, mode: AddressingMode::Implied }),
        0xbc => Some(Instruction { mnemonic: Mnemonic::Ldy, mode: AddressingMode::AbsoluteX }),
        0xbd => Some(Instruction { mnemonic: Mnemonic::Lda, mode: AddressingMode::AbsoluteX }),
        0xbe => Some(Instruction { mnemonic: Mnemonic::Ldx, mode: AddressingMode::AbsoluteY }),
        0xc0 => Some(Instruction { mnemonic: Mnemonic::Cpy, mode: AddressingMode::Immediate }),
        0xc1 => Some(Instruction { mnemonic: Mnemonic::Cmp, mode: AddressingMode::IndirectX }),
        0xc4 => Some(Instruction { mnemonic: Mnemonic::Cpy, mode: AddressingMode::ZeroPage }),
        0xc5 => Some(Instruction { mnemonic: Mnemonic::Cmp, mode: AddressingMode::ZeroPage }),
        0xc6 => Some(Instruction { mnemonic: Mnemonic::Dec, mode: AddressingMode::ZeroPage }),
        0xc8 => Some(Instruction { mnemonic: Mnemonic::Iny, mode: AddressingMode::Implied }),
        0xc9 => Some(Instruction { mnemonic: Mnemonic::Cmp, mode: AddressingMode::Immediate }),
        0xca => Some(Instruction { mnemonic: Mnemonic::Dex, mode: AddressingMode::Implied }),
        0xcc => Some(Instruction { mnemonic: Mnemonic::Cpy, mode: AddressingMode::Absolute }),
        0xcd => Some(Instruction { mnemonic: Mnemonic::Cmp, mode: AddressingMode::Absolute }),
        0xce => Some(Instruction { mnemonic: Mnemonic::Dec, mode: AddressingMode::Absolute }),
        0xd0 => Some(Instruction { mnemonic: Mnemonic::Bne, mode: AddressingMode::Implied }),
        0xd1 => Some(Instruction { mnemonic: Mnemonic::Cmp, mode: AddressingMode::IndirectY }),
        0xd5 => Some(Instruction { mnemonic: Mnemonic::Cmp, mode: AddressingMode::ZeroPageX }),
        0xd6 => Some(Instruction { mnemonic: Mnemonic::Dec, mode: AddressingMode::ZeroPageX }),
        0xd8 => Some(Instruction { mnemonic: Mnemonic::Cld, mode: AddressingMode::Implied }),
        0xd9 => Some(Instruction { mnemonic: Mnemonic::Cmp, mode: AddressingMode::AbsoluteY }),
        0xdd => Some(Instruction { mnemonic: Mnemonic::Cmp, mode: AddressingMode::AbsoluteX }),
        0xde => Some(Instruction { mnemonic: Mnemonic::Dec, mode: AddressingMode::AbsoluteX }),
        0xe0 => Some(Instruction { mnemonic: Mnemonic::Cpx, mode: AddressingMode::Immediate }),
        0xe1 => Some(Instruction { mnemonic: Mnemonic::Sbc, mode: AddressingMode::IndirectX }),
        0xe4 => Some(Instruction { mnemonic: Mnemonic::Cpx, mode: AddressingMode::ZeroPage }),
        0xe5 => Some(Instruction { mnemonic: Mnemonic::Sbc, mode: AddressingMode::ZeroPage }),
        0xe6 => Some(Instruction { mnemonic: Mnemonic::Inc, mode: AddressingMode::ZeroPage }),
        0xe8 => Some(Instruction { mnemonic: Mnemonic::Inx, mode: AddressingMode::Implied }),
        0xe9 => Some(Instruction { mnemonic: Mnemonic::Sbc, mode: AddressingMode::Immediate }),
        0xea => Some(Instruction { mnemonic: Mnemonic::Nop, mode: AddressingMode::Implied }),
        0xec => Some(Instruction { mnemonic: Mnemonic::Cpx, mode: AddressingMode::Absolute }),
        0xed => Some(Instruction { mnemonic: Mnemonic::Sbc, mode: AddressingMode::Absolute }),
        0xee => Some(Instruction { mnemonic: Mnemonic::Inc, mode: AddressingMode::Absolute }),
        0xf0 => Some(Instruction { mnemonic: Mnemonic::Beq, mode: AddressingMode::Implied }),
        0xf1 => Some(Instruction { mnemonic: Mnemonic::Sbc, mode: AddressingMode::IndirectY }),
        0xf5 => Some(Instruction { mnemonic: Mnemonic::Sbc, mode: AddressingMode::ZeroPageX }),
        0xf6 => Some(Instruction { mnemonic: Mnemonic::Inc, mode: AddressingMode::ZeroPageX }),
        0xf8 => Some(Instruction { mnemonic: Mnemonic::Sed, mode: AddressingMode::Implied }),
        0xf9 => Some(Instruction { mnemonic: Mnemonic::Sbc, mode: AddressingMode::AbsoluteY }),
        0xfd => Some(Instruction { mnemonic: Mnemonic::Sbc, mode: AddressingMode::AbsoluteX }),
        0xfe => Some(Instruction { mnemonic: Mnemonic::Inc, mode: AddressingMode::AbsoluteX }),
        _ => None,
    }
}

} // verus!
