//! The lower four bits of the flag register.
//!
//! They are zero when the CPU is made, and nothing the CPU does sets one of
//! them: every instruction that writes the flag register writes four flags
//! and four zeros, and a word popped into AF loses its lowest four bits on
//! the way.

use vstd::prelude::*;
use crate::bits::low_byte;
use crate::cpu::alu::Shift;
use crate::cpu::decode::JumpCond;
use crate::cpu::operands::{Addr, ByteOperand, WordOperand};
use crate::cpu::registers::{flags_byte, lemma_flags_pack, lemma_flags_unpack, Reg16};
use crate::cpu::{Cpu, Machine};

verus! {

impl Machine {
    /// Whether the lower four bits of the flag register are zero.
    pub open spec fn flags_clean(self) -> bool {
        self.cpu.regs.f & 0x0F == 0
    }
}

/// Four flags make a flag register whose lower four bits are zero.
proof fn lemma_flags_byte_clean()
    ensures
        forall|z: bool, n: bool, h: bool, c: bool| #[trigger] flags_byte(z, n, h, c) & 0x0F == 0,
{
    assert forall|z: bool, n: bool, h: bool, c: bool| #[trigger]
        flags_byte(z, n, h, c) & 0x0F == 0 by {
        lemma_flags_unpack(z, n, h, c);
    }
}

/// Reading and writing operands leaves the flag register alone, but for a
/// word written to AF, which loses its lowest four bits.
proof fn lemma_operands_keep_flags()
    ensures
        forall|m: Machine, a: Addr| (#[trigger] m.resolve(a)).1.cpu.regs.f == m.cpu.regs.f,
        forall|m: Machine, op: ByteOperand| (#[trigger] m.read8(op)).1.cpu.regs.f == m.cpu.regs.f,
        forall|m: Machine, op: ByteOperand, v: u8| (#[trigger] m.write8(op, v)).cpu.regs.f
            == m.cpu.regs.f,
        forall|m: Machine, op: WordOperand| (#[trigger] m.read16(op)).1.cpu.regs.f
            == m.cpu.regs.f,
        forall|m: Machine, op: WordOperand, v: u16|
            m.flags_clean() ==> (#[trigger] m.write16(op, v)).flags_clean(),
{
    reveal(Machine::resolve);
    reveal(Machine::read8);
    reveal(Machine::write8);
    reveal(Machine::read16);
    reveal(Machine::write16);
    assert forall|m: Machine, op: WordOperand, v: u16| m.flags_clean() implies (
    #[trigger] m.write16(op, v)).flags_clean() by {
        lemma_flags_pack(low_byte(v));
    }
}

/// The arithmetic and logic instructions keep the lower four bits of the
/// flag register zero.
proof fn lemma_arithmetic_keeps_flags_clean()
    ensures
        forall|m: Machine, op: ByteOperand| m.flags_clean() ==> (#[trigger] m.add(op)).flags_clean(),
        forall|m: Machine, op: ByteOperand| m.flags_clean() ==> (#[trigger] m.adc(op)).flags_clean(),
        forall|m: Machine, op: ByteOperand| m.flags_clean() ==> (#[trigger] m.sub(op)).flags_clean(),
        forall|m: Machine, op: ByteOperand| m.flags_clean() ==> (#[trigger] m.sbc(op)).flags_clean(),
        forall|m: Machine, op: ByteOperand| m.flags_clean() ==> (#[trigger] m.and(op)).flags_clean(),
        forall|m: Machine, op: ByteOperand| m.flags_clean() ==> (#[trigger] m.xor(op)).flags_clean(),
        forall|m: Machine, op: ByteOperand| m.flags_clean() ==> (#[trigger] m.or(op)).flags_clean(),
        forall|m: Machine, op: ByteOperand| m.flags_clean() ==> (#[trigger] m.cp(op)).flags_clean(),
        forall|m: Machine, op: ByteOperand| m.flags_clean() ==> (#[trigger] m.inc(op)).flags_clean(),
        forall|m: Machine, op: ByteOperand| m.flags_clean() ==> (#[trigger] m.dec(op)).flags_clean(),
        forall|m: Machine| m.flags_clean() ==> (#[trigger] m.cpl()).flags_clean(),
        forall|m: Machine| m.flags_clean() ==> (#[trigger] m.scf()).flags_clean(),
        forall|m: Machine| m.flags_clean() ==> (#[trigger] m.ccf()).flags_clean(),
        forall|m: Machine| m.flags_clean() ==> (#[trigger] m.daa()).flags_clean(),
        forall|m: Machine, kind: Shift|
            m.flags_clean() ==> (#[trigger] m.rotate_accumulator(kind)).flags_clean(),
        forall|m: Machine, kind: Shift, op: ByteOperand|
            m.flags_clean() ==> (#[trigger] m.shift(kind, op)).flags_clean(),
        forall|m: Machine, bit: u8, op: ByteOperand|
            m.flags_clean() ==> (#[trigger] m.bit(bit, op)).flags_clean(),
        forall|m: Machine, bit: u8, op: ByteOperand|
            m.flags_clean() ==> (#[trigger] m.res(bit, op)).flags_clean(),
        forall|m: Machine, bit: u8, op: ByteOperand|
            m.flags_clean() ==> (#[trigger] m.set(bit, op)).flags_clean(),
{
    lemma_flags_byte_clean();
    lemma_operands_keep_flags();
    reveal(Machine::add);
    reveal(Machine::adc);
    reveal(Machine::sub);
    reveal(Machine::sbc);
    reveal(Machine::and);
    reveal(Machine::xor);
    reveal(Machine::or);
    reveal(Machine::cp);
    reveal(Machine::inc);
    reveal(Machine::dec);
    reveal(Machine::cpl);
    reveal(Machine::scf);
    reveal(Machine::ccf);
    reveal(Machine::daa);
    reveal(Machine::rotate_accumulator);
    reveal(Machine::shift);
    reveal(Machine::bit);
    reveal(Machine::res);
    reveal(Machine::set);
}

/// The loads and the 16-bit arithmetic keep the lower four bits of the
/// flag register zero.
proof fn lemma_loads_keep_flags_clean()
    ensures
        forall|m: Machine, dest: ByteOperand, src: ByteOperand|
            m.flags_clean() ==> (#[trigger] m.load(dest, src)).flags_clean(),
        forall|m: Machine, dest: WordOperand, src: WordOperand|
            m.flags_clean() ==> (#[trigger] m.load16(dest, src)).flags_clean(),
        forall|m: Machine| m.flags_clean() ==> (#[trigger] m.load16_sphl()).flags_clean(),
        forall|m: Machine| m.flags_clean() ==> (#[trigger] m.load16_hlsp_n()).flags_clean(),
        forall|m: Machine| m.flags_clean() ==> (#[trigger] m.add16_sp_n()).flags_clean(),
        forall|m: Machine, src: Reg16| m.flags_clean() ==> (#[trigger] m.add16hl(src)).flags_clean(),
        forall|m: Machine, op: WordOperand|
            m.flags_clean() ==> (#[trigger] m.inc16(op)).flags_clean(),
        forall|m: Machine, op: WordOperand|
            m.flags_clean() ==> (#[trigger] m.dec16(op)).flags_clean(),
        forall|m: Machine, op: WordOperand| m.flags_clean() ==> (#[trigger] m.push(op)).flags_clean(),
        forall|m: Machine, op: WordOperand| m.flags_clean() ==> (#[trigger] m.pop(op)).flags_clean(),
{
    lemma_flags_byte_clean();
    lemma_operands_keep_flags();
    reveal(Machine::load);
    reveal(Machine::load16);
    reveal(Machine::load16_sphl);
    reveal(Machine::load16_hlsp_n);
    reveal(Machine::add16_sp_n);
    reveal(Machine::add16hl);
    reveal(Machine::inc16);
    reveal(Machine::dec16);
    reveal(Machine::push);
    reveal(Machine::pop);
}

/// Jumps, calls and returns, and the instructions that switch the CPU, keep
/// the lower four bits of the flag register zero.
proof fn lemma_control_keeps_flags_clean()
    ensures
        forall|m: Machine| m.flags_clean() ==> (#[trigger] m.halt()).flags_clean(),
        forall|m: Machine| m.flags_clean() ==> (#[trigger] m.di()).flags_clean(),
        forall|m: Machine| m.flags_clean() ==> (#[trigger] m.ei()).flags_clean(),
        forall|m: Machine| m.flags_clean() ==> (#[trigger] m.jp_hl()).flags_clean(),
        forall|m: Machine, cond: JumpCond| m.flags_clean() ==> (#[trigger] m.call(cond)).flags_clean(),
        forall|m: Machine, cond: JumpCond| m.flags_clean() ==> (#[trigger] m.jr(cond)).flags_clean(),
        forall|m: Machine, cond: JumpCond, op: WordOperand|
            m.flags_clean() ==> (#[trigger] m.jp(cond, op)).flags_clean(),
        forall|m: Machine, cond: JumpCond| m.flags_clean() ==> (#[trigger] m.ret(cond)).flags_clean(),
        forall|m: Machine, cond: JumpCond| m.flags_clean() ==> (#[trigger] m.reti(cond)).flags_clean(),
        forall|m: Machine, address: u16|
            m.flags_clean() ==> (#[trigger] m.rst(address)).flags_clean(),
{
    lemma_operands_keep_flags();
    lemma_loads_keep_flags_clean();
    reveal(Machine::halt);
    reveal(Machine::di);
    reveal(Machine::ei);
    reveal(Machine::jp_hl);
    reveal(Machine::call);
    reveal(Machine::jr);
    reveal(Machine::jp);
    reveal(Machine::ret);
    reveal(Machine::reti);
    reveal(Machine::rst);
}

/// Whatever the opcode, the instruction it stands for keeps the lower four
/// bits of the flag register zero.
pub proof fn lemma_execute_keeps_flags_clean(m: Machine, opcode: u8)
    requires
        m.flags_clean(),
    ensures
        m.execute(opcode).flags_clean(),
        m.execute_prefixed(opcode).flags_clean(),
{
    lemma_arithmetic_keeps_flags_clean();
    lemma_loads_keep_flags_clean();
    lemma_control_keeps_flags_clean();
    lemma_operands_keep_flags();
    reveal(Machine::execute_prefixed);
    assert(m.execute_prefixed(opcode).flags_clean());
    assert(m.execute(opcode).flags_clean()) by {
        reveal(Machine::execute);
        reveal(Machine::execute_block0);
        reveal(Machine::execute_block3);
        reveal(Machine::accumulate);
        reveal(Machine::load_indirect);
        if opcode == 0xCB {
            let (second, next) = m.fetch();
            assert(next.with_opcode(second).flags_clean());
        }
    }
}

/// The lower four bits of the flag register are zero in every state that
/// the CPU reaches: they are zero when it is made, and a step keeps them
/// zero, whatever the program and whatever interrupts arrive.
pub proof fn lemma_flags_stay_clean(m: Machine)
    requires
        m.flags_clean(),
    ensures
        m.step().flags_clean(),
        (Machine { cpu: Cpu::new_spec(), bus: m.bus }).flags_clean(),
{
    assert(0u8 & 0x0F == 0) by (bit_vector);
    let (opcode, fetched) = m.fetch();
    lemma_execute_keeps_flags_clean(fetched.with_opcode(opcode), opcode);
}

} // verus!
