//! What holds of the processor over all states.
use super::cycles::op_cycles;
use super::step::lemma_low_nibble;
use super::{hi, lo, word, wrap16, Flags, Machine, ProcessingUnit};
use crate::dmg::intf::InterruptFlag;
use crate::dmg::mem::{
    lemma_write_keeps_interrupts, lemma_write_keeps_others, lemma_write_then_read, plain,
};
use vstd::prelude::*;

verus! {

/// The two bytes of a word make the word, and the word of two bytes gives
/// them back.
pub proof fn lemma_word_bytes(v: u16, msb: u8, lsb: u8)
    ensures
        word(hi(v), lo(v)) == v,
        hi(word(msb, lsb)) == msb,
        lo(word(msb, lsb)) == lsb,
{
}

/// The flags read out of a byte are that byte without its low nibble, and the
/// flags read out of their own byte are the flags.
pub proof fn lemma_flags_byte(f: Flags, v: u8)
    ensures
        Flags::of_byte(f.value()) == f,
        Flags::of_byte(v).value() == v - v % 16,
{
}

/// A register pair that is set holds the value that it was set to; for AF
/// that is a value without a low nibble. The other pairs, SP, PC and the
/// latches stay. The pairs are numbered BC, DE, HL, AF.
pub proof fn lemma_stack_pair_set(cpu: ProcessingUnit, pair: int, v: u16)
    requires
        0 <= pair < 4,
        pair == 3 ==> v % 16 == 0,
    ensures
        cpu.with_stack_pair(pair, v).stack_pair(pair) == v,
        forall|other: int|
            0 <= other < 4 && other != pair ==> cpu.with_stack_pair(pair, v).stack_pair(other)
                == cpu.stack_pair(other),
        cpu.with_stack_pair(pair, v).sp == cpu.sp,
        cpu.with_stack_pair(pair, v).pc == cpu.pc,
        cpu.with_stack_pair(pair, v).halted == cpu.halted,
        cpu.with_stack_pair(pair, v).interrupt_master_enable == cpu.interrupt_master_enable,
{
    lemma_word_bytes(v, hi(v), lo(v));
    if pair == 3 {
        lemma_flags_byte(cpu.f, lo(v));
    }
}

/// A register pair that is set to its own value is as it was.
pub proof fn lemma_stack_pair_kept(cpu: ProcessingUnit, pair: int)
    requires
        0 <= pair < 4,
    ensures
        cpu.with_stack_pair(pair, cpu.stack_pair(pair)) == cpu,
{
    if pair == 0 {
        lemma_word_bytes(0, cpu.b, cpu.c);
    } else if pair == 1 {
        lemma_word_bytes(0, cpu.d, cpu.e);
    } else if pair == 2 {
        lemma_word_bytes(0, cpu.h, cpu.l);
    } else {
        lemma_word_bytes(0, cpu.a, cpu.f.value());
        lemma_flags_byte(cpu.f, 0);
    }
}

/// The two bytes that a push of `v` leaves on the stack are read back as `v`
/// by a pop from where the push left SP, whatever else the processor holds by
/// then, and the pop puts SP back where it was before the push. The two bytes
/// below SP must be memory.
pub proof fn lemma_pop_reads_push(m: Machine, later: Machine, v: u16)
    requires
        plain(wrap16(m.cpu.sp - 1)),
        plain(wrap16(m.cpu.sp - 2)),
        later.bus == m.push16(v).bus,
        later.cpu.sp == m.push16(v).cpu.sp,
    ensures
        later.pop16().0 == v,
        later.pop16().1 == (Machine {
            cpu: ProcessingUnit { sp: m.cpu.sp, ..later.cpu },
            bus: later.bus,
        }),
{
    let high = wrap16(m.cpu.sp - 1);
    let low = wrap16(m.cpu.sp - 2);
    let first = m.push8(hi(v));
    lemma_write_then_read(m.bus, high, hi(v));
    lemma_write_then_read(first.bus, low, lo(v));
    lemma_write_keeps_others(first.bus, low, high, lo(v));
    lemma_word_bytes(v, 0, 0);
    assert(later.cpu.sp == low);
    assert(later.read(low) == lo(v));
    assert(later.read(high) == hi(v));
}

/// A word that is pushed is popped again, and SP is back where it was, when
/// the two bytes below SP are memory.
pub proof fn lemma_push_pop(m: Machine, v: u16)
    requires
        plain(wrap16(m.cpu.sp - 1)),
        plain(wrap16(m.cpu.sp - 2)),
    ensures
        m.push16(v).pop16().0 == v,
        m.push16(v).pop16().1.cpu == m.cpu,
{
    lemma_pop_reads_push(m, m.push16(v), v);
}

/// The opcodes 0xC5, 0xD5, 0xE5 and 0xF5 push the pairs BC, DE, HL and AF.
pub proof fn lemma_decode_push(m: Machine, pair: int)
    requires
        0 <= pair < 4,
    ensures
        m.execute((0xc5 + 16 * pair) as u8) == (m.push16(m.cpu.stack_pair(pair)), false),
        op_cycles((0xc5 + 16 * pair) as u8) == (16u32, 16u32),
{
    reveal(Machine::execute);
    reveal(Machine::push_or_call);
    let op = (0xc5 + 16 * pair) as u8;
    assert(op as int / 64 == 3 && op as int % 8 == 5 && (op as int / 8) % 8 == 2 * pair);
}

/// The opcodes 0xC1, 0xD1, 0xE1 and 0xF1 pop the pairs BC, DE, HL and AF.
pub proof fn lemma_decode_pop(m: Machine, pair: int)
    requires
        0 <= pair < 4,
    ensures
        m.execute((0xc1 + 16 * pair) as u8) == (
            m.pop16().1.with_cpu(m.pop16().1.cpu.with_stack_pair(pair, m.pop16().0)),
            false,
        ),
        op_cycles((0xc1 + 16 * pair) as u8) == (12u32, 12u32),
{
    reveal(Machine::execute);
    reveal(Machine::pop_or_misc);
    let op = (0xc1 + 16 * pair) as u8;
    assert(op as int / 64 == 3 && op as int % 8 == 1 && (op as int / 8) % 8 == 2 * pair);
}

/// A step that fetches PUSH of a pair moves the program counter past the
/// opcode, pushes the pair and takes 16 clocks.
pub proof fn lemma_step_push(m: Machine, pair: int)
    requires
        0 <= pair < 4,
        m.fetches(),
        m.imm8() == 0xc5 + 16 * pair,
    ensures
        m.step() == (m.advance(1).push16(m.cpu.stack_pair(pair)), 16u32),
{
    lemma_decode_push(m.advance(1), pair);
}

/// A step that fetches POP of a pair moves the program counter past the
/// opcode, pops a word into the pair and takes 12 clocks.
pub proof fn lemma_step_pop(m: Machine, pair: int)
    requires
        0 <= pair < 4,
        m.fetches(),
        m.imm8() == 0xc1 + 16 * pair,
    ensures
        m.step() == (
            m.advance(1).pop16().1.with_cpu(
                m.advance(1).pop16().1.cpu.with_stack_pair(pair, m.advance(1).pop16().0),
            ),
            12u32,
        ),
{
    lemma_decode_pop(m.advance(1), pair);
}

/// PUSH of a register pair followed by POP of the same pair leaves every
/// register, SP and the flags as they were, when the two bytes below SP are
/// memory. The pairs are numbered BC, DE, HL, AF.
pub proof fn lemma_push_then_pop(m: Machine, pair: int)
    requires
        0 <= pair < 4,
        plain(wrap16(m.cpu.sp - 1)),
        plain(wrap16(m.cpu.sp - 2)),
    ensures
        m.execute((0xc5 + 16 * pair) as u8).0.execute((0xc1 + 16 * pair) as u8).0.cpu == m.cpu,
{
    let v = m.cpu.stack_pair(pair);
    let pushed = m.push16(v);
    lemma_decode_push(m, pair);
    lemma_decode_pop(pushed, pair);
    lemma_push_pop(m, v);
    lemma_stack_pair_kept(m.cpu, pair);
}

/// A step that runs PUSH of a register pair and a later step that runs POP of
/// the same pair, with SP and the memory as the push left them, give the pair
/// the value that was pushed, whatever the registers held in between. The
/// other pairs keep what they held before the pop, SP is back where it was
/// before the push, and the pop changes no memory. The two bytes below SP
/// must be memory. The pairs are numbered BC, DE, HL, AF.
pub proof fn lemma_push_step_then_pop_step(m: Machine, later: Machine, pair: int)
    requires
        0 <= pair < 4,
        plain(wrap16(m.cpu.sp - 1)),
        plain(wrap16(m.cpu.sp - 2)),
        m.fetches(),
        m.imm8() == 0xc5 + 16 * pair,
        later.bus == m.step().0.bus,
        later.cpu.sp == m.step().0.cpu.sp,
        later.fetches(),
        later.imm8() == 0xc1 + 16 * pair,
    ensures
        m.step().1 == 16,
        later.step().1 == 12,
        later.step().0.cpu.stack_pair(pair) == m.cpu.stack_pair(pair),
        forall|other: int|
            0 <= other < 4 && other != pair ==> later.step().0.cpu.stack_pair(other)
                == later.cpu.stack_pair(other),
        later.step().0.cpu.sp == m.cpu.sp,
        later.step().0.cpu.pc == wrap16(later.cpu.pc + 1),
        later.step().0.bus == later.bus,
{
    let v = m.cpu.stack_pair(pair);
    let fetched = later.advance(1);
    lemma_step_push(m, pair);
    lemma_step_pop(later, pair);
    lemma_pop_reads_push(m.advance(1), fetched, v);
    lemma_low_nibble(m.cpu);
    lemma_stack_pair_set(fetched.pop16().1.cpu, pair, v);
}

/// Taking an interrupt clears the master enable, withdraws the request of
/// the line that is serviced and of no other, and enters the handler of that
/// line. The two bytes pushed must not fall on the request register itself.
pub proof fn lemma_dispatch(m: Machine)
    requires
        m.will_dispatch(),
        wrap16(m.cpu.sp - 1) != 0xff0f,
        wrap16(m.cpu.sp - 2) != 0xff0f,
    ensures
        !m.dispatch().cpu.interrupt_master_enable,
        !m.dispatch().cpu.halted,
        m.dispatch().bus.ppu.interrupt_flag.bits == m.bus.ppu.interrupt_flag.bits
            & !InterruptFlag::first_raised(m.pending()),
        m.dispatch().bus.ppu.interrupt_flag.bits & InterruptFlag::first_raised(m.pending()) == 0,
        InterruptFlag::first_raised(m.pending()) != 0,
        Some(m.dispatch().cpu.pc) == InterruptFlag::vector(m.pending()),
{
    let line = InterruptFlag::first_raised(m.pending());
    let requests = m.bus.ppu.interrupt_flag.bits;
    let cleared = Machine {
        cpu: ProcessingUnit { interrupt_master_enable: false, halted: false, ..m.cpu },
        bus: crate::dmg::mem::BusView {
            ppu: crate::dmg::gpu::GPU {
                interrupt_flag: InterruptFlag { bits: requests & !line },
                ..m.bus.ppu
            },
            ..m.bus
        },
    };
    let first = cleared.push8(hi(m.cpu.pc));
    lemma_write_keeps_interrupts(cleared.bus, wrap16(m.cpu.sp - 1), hi(m.cpu.pc));
    lemma_write_keeps_interrupts(first.bus, wrap16(m.cpu.sp - 2), lo(m.cpu.pc));
    assert((requests & !line) & line == 0) by (bit_vector);
    let pending = m.pending();
    assert(pending != 0 && pending == pending & 0x1f ==> pending % 2 == 1 || (pending / 2) % 2
        == 1 || (pending / 4) % 2 == 1 || (pending / 8) % 2 == 1 || (pending / 16) % 2 == 1)
        by (bit_vector);
    assert(pending == pending & 0x1f) by {
        let ie = m.bus.interrupt_enable.bits;
        assert((ie & requests & 0x1f) == (ie & requests & 0x1f) & 0x1f) by (bit_vector);
    }
}

} // verus!
