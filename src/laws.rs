use vstd::prelude::*;

use crate::machine::{
    execute, hi_byte, le16, lo_byte, shift_left, shift_right, sign_extend, stack_addr, wrap16,
    wrap8, Machine,
};
use crate::opcodes::{AddressingMode, Mnemonic};
use crate::status::{set_bits, ProcessorStatus};

verus! {

/// The value that Z and N describe after `m`, for the instructions that set
/// them from a result; `None` for those that leave them alone or follow rules
/// of their own (`BIT`, `PLP`, `RTI`).
pub open spec fn zn_result(s: Machine, m: Mnemonic, mode: AddressingMode) -> Option<u8> {
    let v = s.operand(mode);
    let c: int = if s.flag(ProcessorStatus::CARRY) {
        1
    } else {
        0
    };
    match m {
        Mnemonic::Adc => Some(wrap8(s.a + v + c)),
        Mnemonic::Sbc => Some(wrap8(s.a + (255 - v) + c)),
        Mnemonic::And => Some(s.a & v),
        Mnemonic::Eor => Some(s.a ^ v),
        Mnemonic::Ora => Some(s.a | v),
        Mnemonic::AslAcc => Some(shift_left(s.a, false)),
        Mnemonic::Asl => Some(shift_left(v, false)),
        Mnemonic::LsrAcc => Some(shift_right(s.a, false)),
        Mnemonic::Lsr => Some(shift_right(v, false)),
        Mnemonic::RolAcc => Some(shift_left(s.a, c == 1)),
        Mnemonic::Rol => Some(shift_left(v, c == 1)),
        Mnemonic::RorAcc => Some(shift_right(s.a, c == 1)),
        Mnemonic::Ror => Some(shift_right(v, c == 1)),
        Mnemonic::Cmp => Some(wrap8(s.a - v)),
        Mnemonic::Cpx => Some(wrap8(s.x - v)),
        Mnemonic::Cpy => Some(wrap8(s.y - v)),
        Mnemonic::Dec => Some(wrap8(v - 1)),
        Mnemonic::Inc => Some(wrap8(v + 1)),
        Mnemonic::Dex => Some(wrap8(s.x - 1)),
        Mnemonic::Dey => Some(wrap8(s.y - 1)),
        Mnemonic::Inx => Some(wrap8(s.x + 1)),
        Mnemonic::Iny => Some(wrap8(s.y + 1)),
        Mnemonic::Lda | Mnemonic::Ldx | Mnemonic::Ldy => Some(v),
        Mnemonic::Pla => Some(s.pop_value()),
        Mnemonic::Tax | Mnemonic::Tay => Some(s.a),
        Mnemonic::Tsx => Some(s.sp),
        Mnemonic::Txa => Some(s.x),
        Mnemonic::Tya => Some(s.y),
        _ => None,
    }
}

/// Setting one flag leaves the state of another flag as it was.
proof fn lemma_set_bits_other(p: u8, f: u8, on: bool, g: u8)
    requires
        f & g == 0,
    ensures
        (set_bits(p, f, on) & g == g) == (p & g == g),
{
    if on {
        assert((p | f) & g == g <==> p & g == g) by (bit_vector)
            requires
                f & g == 0,
        ;
    } else {
        assert((p & !f) & g == g <==> p & g == g) by (bit_vector)
            requires
                f & g == 0,
        ;
    }
}

/// After setting a single-bit flag it reads as what was set.
proof fn lemma_set_bits_same(p: u8, f: u8, on: bool)
    requires
        f == 1 || f == 2 || f == 0x40 || f == 0x80,
    ensures
        (set_bits(p, f, on) & f == f) == on,
{
    if on {
        assert((p | f) & f == f) by (bit_vector);
    } else {
        assert(f == 1 || f == 2 || f == 0x40 || f == 0x80 ==> (p & !f) & f != f) by (bit_vector);
    }
}

/// Z and N as `with_zn` leaves them, and every other flag kept.
proof fn lemma_with_zn(t: Machine, v: u8)
    ensures
        t.with_zn(v).flag(ProcessorStatus::ZERO) == (v == 0),
        t.with_zn(v).flag(ProcessorStatus::NEGATIVE) == (v & 0x80 != 0),
        t.with_zn(v).flag(ProcessorStatus::CARRY) == t.flag(ProcessorStatus::CARRY),
        t.with_zn(v).flag(ProcessorStatus::OVERFLOW) == t.flag(ProcessorStatus::OVERFLOW),
{
    assert(0x80u8 & 0x02u8 == 0 && 0x02u8 & 0x01u8 == 0 && 0x80u8 & 0x01u8 == 0) by (bit_vector);
    assert(0x02u8 & 0x40u8 == 0 && 0x80u8 & 0x40u8 == 0) by (bit_vector);
    let q = set_bits(t.p, ProcessorStatus::ZERO, v == 0);
    lemma_set_bits_same(t.p, ProcessorStatus::ZERO, v == 0);
    lemma_set_bits_other(q, ProcessorStatus::NEGATIVE, v & 0x80 != 0, ProcessorStatus::ZERO);
    lemma_set_bits_same(q, ProcessorStatus::NEGATIVE, v & 0x80 != 0);
    lemma_set_bits_other(t.p, ProcessorStatus::ZERO, v == 0, ProcessorStatus::CARRY);
    lemma_set_bits_other(q, ProcessorStatus::NEGATIVE, v & 0x80 != 0, ProcessorStatus::CARRY);
    lemma_set_bits_other(t.p, ProcessorStatus::ZERO, v == 0, ProcessorStatus::OVERFLOW);
    lemma_set_bits_other(q, ProcessorStatus::NEGATIVE, v & 0x80 != 0, ProcessorStatus::OVERFLOW);
}

/// Every instruction that sets Z and N from a result leaves Z set exactly
/// when that result is zero and N equal to its bit 7.
pub proof fn lemma_zero_negative_follow_result(s: Machine, m: Mnemonic, mode: AddressingMode)
    ensures
        zn_result(s, m, mode) matches Some(r) ==> {
            &&& execute(s, m, mode).flag(ProcessorStatus::ZERO) == (r == 0)
            &&& execute(s, m, mode).flag(ProcessorStatus::NEGATIVE) == (r & 0x80 != 0)
        },
{
    reveal(execute);
    assert forall|t: Machine, v: u8|
        #![trigger t.with_zn(v)]
        t.with_zn(v).flag(ProcessorStatus::ZERO) == (v == 0) && t.with_zn(v).flag(
            ProcessorStatus::NEGATIVE,
        ) == (v & 0x80 != 0) by {
        lemma_with_zn(t, v);
    }
}

/// A byte pushed and then popped comes back, and SP is where it started.
pub proof fn lemma_push_pop(s: Machine, v: u8)
    requires
        s.wf(),
    ensures
        s.push(v).pop_value() == v,
        s.push(v).after_pop().sp == s.sp,
{
}

/// A 16-bit value pushed and then popped comes back and SP is restored; on
/// the stack its low byte lies below its high byte.
pub proof fn lemma_push16_pop16(s: Machine, v: u16)
    requires
        s.wf(),
    ensures
        s.push16(v).pop16_value() == v,
        s.push16(v).after_pop16().sp == s.sp,
        s.push16(v).read(stack_addr(wrap8(s.sp - 1))) == lo_byte(v),
        s.push16(v).read(stack_addr(s.sp)) == hi_byte(v),
{
}

/// `ADC M` and then `SBC M` in the same mode, with the carry that `ADC` left
/// going into `SBC`, give back the original A exactly when that carry differs
/// from the one that went into `ADC` (as after `CLC; ADC; SEC; SBC`).
pub proof fn lemma_adc_then_sbc(s: Machine, mode: AddressingMode)
    requires
        s.wf(),
    ensures
        ({
            let t = execute(s, Mnemonic::Adc, mode);
            let u = execute(t, Mnemonic::Sbc, mode);
            (u.a == s.a) <==> (t.flag(ProcessorStatus::CARRY) != s.flag(ProcessorStatus::CARRY))
        }),
{
    reveal(execute);
    let v = s.operand(mode);
    let c: int = if s.flag(ProcessorStatus::CARRY) {
        1
    } else {
        0
    };
    let sum = s.a + v + c;
    let r = wrap8(sum);
    let t1 = s.with_flag(ProcessorStatus::CARRY, sum > 0xff);
    let t2 = t1.with_flag(ProcessorStatus::OVERFLOW, (v ^ r) & (s.a ^ r) & 0x80 != 0);
    let t = execute(s, Mnemonic::Adc, mode);
    assert(t == t2.load_a(r));
    assert(0x40u8 & 0x01u8 == 0) by (bit_vector);
    lemma_set_bits_same(s.p, ProcessorStatus::CARRY, sum > 0xff);
    lemma_set_bits_other(
        t1.p,
        ProcessorStatus::OVERFLOW,
        (v ^ r) & (s.a ^ r) & 0x80 != 0,
        ProcessorStatus::CARRY,
    );
    lemma_with_zn(Machine { a: r, ..t2 }, r);
    assert(t.flag(ProcessorStatus::CARRY) == (sum > 0xff));
    assert(t.operand(mode) == v);
    let c1: int = if sum > 0xff {
        1
    } else {
        0
    };
    let u = execute(t, Mnemonic::Sbc, mode);
    assert(u.a == wrap8(r + (255 - v) + c1));
    assert(wrap8(r + (255 - v) + c1) == wrap8(s.a + c + c1 + 255)) by {
        assert(r == sum - 256 * c1);
    }
}

/// The bit that `ASL` or `LSR` shifts out, on A or in memory, is the new C.
pub proof fn lemma_shift_out_is_carry(s: Machine, mode: AddressingMode)
    ensures
        execute(s, Mnemonic::AslAcc, mode).flag(ProcessorStatus::CARRY) == (s.a & 0x80 != 0),
        execute(s, Mnemonic::LsrAcc, mode).flag(ProcessorStatus::CARRY) == (s.a & 1 != 0),
        execute(s, Mnemonic::Asl, mode).flag(ProcessorStatus::CARRY) == (s.operand(mode) & 0x80
            != 0),
        execute(s, Mnemonic::Lsr, mode).flag(ProcessorStatus::CARRY) == (s.operand(mode) & 1 != 0),
{
    reveal(execute);
    let v = s.operand(mode);
    lemma_set_bits_same(s.p, ProcessorStatus::CARRY, s.a & 0x80 != 0);
    lemma_set_bits_same(s.p, ProcessorStatus::CARRY, s.a & 1 != 0);
    lemma_set_bits_same(s.p, ProcessorStatus::CARRY, v & 0x80 != 0);
    lemma_set_bits_same(s.p, ProcessorStatus::CARRY, v & 1 != 0);
    let a1 = s.with_flag(ProcessorStatus::CARRY, s.a & 0x80 != 0);
    lemma_with_zn(Machine { a: shift_left(s.a, false), ..a1 }, shift_left(s.a, false));
    let a2 = s.with_flag(ProcessorStatus::CARRY, s.a & 1 != 0);
    lemma_with_zn(Machine { a: shift_right(s.a, false), ..a2 }, shift_right(s.a, false));
    let m1 = s.with_flag(ProcessorStatus::CARRY, v & 0x80 != 0).write(
        s.operand_address(mode),
        shift_left(v, false),
    );
    lemma_with_zn(m1, shift_left(v, false));
    let m2 = s.with_flag(ProcessorStatus::CARRY, v & 1 != 0).write(
        s.operand_address(mode),
        shift_right(v, false),
    );
    lemma_with_zn(m2, shift_right(v, false));
}

/// `BIT M` copies bit 7 of M to N and bit 6 to V, and leaves A alone: an M
/// with bit 7 clear gives N clear, one with bit 6 set gives V set.
pub proof fn lemma_bit_flags(s: Machine, mode: AddressingMode)
    ensures
        execute(s, Mnemonic::Bit, mode).flag(ProcessorStatus::NEGATIVE) == (s.operand(mode) & 0x80
            != 0),
        execute(s, Mnemonic::Bit, mode).flag(ProcessorStatus::OVERFLOW) == (s.operand(mode) & 0x40
            != 0),
        execute(s, Mnemonic::Bit, mode).a == s.a,
{
    reveal(execute);
    let v = s.operand(mode);
    let t1 = s.with_flag(ProcessorStatus::ZERO, s.a & v == 0);
    let t2 = t1.with_flag(ProcessorStatus::OVERFLOW, v & 0x40 != 0);
    assert(0x80u8 & 0x40u8 == 0) by (bit_vector);
    lemma_set_bits_same(t1.p, ProcessorStatus::OVERFLOW, v & 0x40 != 0);
    lemma_set_bits_other(t2.p, ProcessorStatus::NEGATIVE, v & 0x80 != 0, ProcessorStatus::OVERFLOW);
    lemma_set_bits_same(t2.p, ProcessorStatus::NEGATIVE, v & 0x80 != 0);
}

/// A taken branch with a signed offset `d` at PC `p` lands at `p + 1 + d`,
/// modulo 2^16.
pub proof fn lemma_branch_target(s: Machine, d: int)
    requires
        -128 <= d < 128,
        s.read(s.pc) == wrap8(d),
    ensures
        s.branch(true).pc == wrap16(s.pc + 1 + d),
        s.branch(false).pc == wrap16(s.pc + 1),
{
    assert(sign_extend(wrap8(d)) == d);
}

/// The zero-page pointer of `(zp,X)` and `(zp),Y` wraps within page zero: a
/// pointer at 0xFF takes its high byte from 0x0000, not from 0x0100.
pub proof fn lemma_indirect_pointer_wraps(s: Machine)
    ensures
        ({
            let ptr = wrap8(s.read(s.pc) + s.x);
            s.operand_address(AddressingMode::IndirectX) == le16(
                s.read(ptr as u16),
                s.read(wrap8(ptr + 1) as u16),
            )
        }),
        wrap8(s.read(s.pc) + s.x) == 0xff ==> s.operand_address(AddressingMode::IndirectX) == le16(
            s.read(0x00ff),
            s.read(0x0000),
        ),
        s.read(s.pc) == 0xff ==> s.operand_address(AddressingMode::IndirectY) == wrap16(
            le16(s.read(0x00ff), s.read(0x0000)) + s.y,
        ),
{
}

} // verus!
