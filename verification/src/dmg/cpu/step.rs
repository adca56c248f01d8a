//! One step of the processor: interrupt dispatch, halt, or one instruction.
//!
//! An opcode is read as three fields: `x`, its two high bits; `y`, the three
//! bits below them; `z`, its three low bits. Registers are numbered B, C, D,
//! E, H, L, the byte at HL, A; register pairs BC, DE, HL, and SP or AF.
use super::cycles::{
    cb_cycles, lemma_cycle_values, lookup_cb_prefix_op_code, lookup_op_code, op_cycles,
};
use super::{
    hi, lo, rl_value, rlc_value, rr_value, rrc_value, shift_flags, sla_value, sra_value,
    srl_value, swap_value, wrap16, Flags, Machine, ProcessingUnit,
};
use crate::dmg::bits::{assign_bit, bit, with_bit};
use crate::dmg::mem::MemoryBus;
use vstd::prelude::*;

verus! {

impl Machine {
    pub open spec fn with_flags(self, f: Flags) -> Machine {
        Machine { cpu: ProcessingUnit { f, ..self.cpu }, ..self }
    }

    pub open spec fn with_cpu(self, cpu: ProcessingUnit) -> Machine {
        Machine { cpu, ..self }
    }

    /// Register `idx`; number 6 is the byte at HL.
    pub open spec fn r8(self, idx: int) -> u8 {
        if idx == 0 {
            self.cpu.b
        } else if idx == 1 {
            self.cpu.c
        } else if idx == 2 {
            self.cpu.d
        } else if idx == 3 {
            self.cpu.e
        } else if idx == 4 {
            self.cpu.h
        } else if idx == 5 {
            self.cpu.l
        } else if idx == 6 {
            self.read(self.cpu.hl())
        } else {
            self.cpu.a
        }
    }

    pub open spec fn with_r8(self, idx: int, v: u8) -> Machine {
        if idx == 0 {
            self.with_cpu(ProcessingUnit { b: v, ..self.cpu })
        } else if idx == 1 {
            self.with_cpu(ProcessingUnit { c: v, ..self.cpu })
        } else if idx == 2 {
            self.with_cpu(ProcessingUnit { d: v, ..self.cpu })
        } else if idx == 3 {
            self.with_cpu(ProcessingUnit { e: v, ..self.cpu })
        } else if idx == 4 {
            self.with_cpu(ProcessingUnit { h: v, ..self.cpu })
        } else if idx == 5 {
            self.with_cpu(ProcessingUnit { l: v, ..self.cpu })
        } else if idx == 6 {
            self.write(self.cpu.hl(), v)
        } else {
            self.with_cpu(ProcessingUnit { a: v, ..self.cpu })
        }
    }

    /// Register pair `idx` of BC, DE, HL, SP.
    pub open spec fn r16(self, idx: int) -> u16 {
        self.cpu.pair(idx)
    }

    pub open spec fn with_r16(self, idx: int, v: u16) -> Machine {
        self.with_cpu(self.cpu.with_pair(idx, v))
    }

    /// Register pair `idx` of BC, DE, HL, AF, as the stack instructions
    /// number them.
    pub open spec fn r16_stack(self, idx: int) -> u16 {
        self.cpu.stack_pair(idx)
    }

    pub open spec fn with_r16_stack(self, idx: int, v: u16) -> Machine {
        self.with_cpu(self.cpu.with_stack_pair(idx, v))
    }

    /// Condition `cc` of NZ, Z, NC, C.
    pub open spec fn condition(self, cc: int) -> bool {
        self.cpu.condition_spec(cc)
    }

    /// Operation `op` of ADD, ADC, SUB, SBC, AND, XOR, OR, CP on A and `n`.
    pub open spec fn alu(self, op: int, n: u8) -> Machine {
        self.with_cpu(self.cpu.alu_spec(op, n))
    }

    /// The result and the carry of operation `kind` of RLC, RRC, RL, RR,
    /// SLA, SRA, SWAP, SRL on `v`.
    pub open spec fn shifted(self, kind: int, v: u8) -> (u8, bool) {
        self.cpu.shifted(kind, v)
    }

    /// A relative jump: the offset byte is fetched, then added to the
    /// program counter.
    pub open spec fn jump_relative(self) -> Machine {
        self.advance(1).jump(ProcessingUnit::offset_value(self.advance(1).cpu.pc, self.imm8()))
    }

    /// `x = 0, z = 0`: NOP, LD (nn),SP, STOP, JR and the conditional JR.
    #[verifier::opaque]
    pub open spec fn control(self, y: int) -> (Machine, bool) {
        if y == 1 {
            (
                self.advance(2).write(self.imm16(), lo(self.cpu.sp)).write(
                    wrap16(self.imm16() + 1),
                    hi(self.cpu.sp),
                ),
                false,
            )
        } else if y == 3 {
            (self.jump_relative(), false)
        } else if y >= 4 {
            if self.condition(y - 4) {
                (self.jump_relative(), true)
            } else {
                (self.advance(1), false)
            }
        } else {
            (self, false)
        }
    }

    /// `x = 0, z = 1`: LD rr,nn and ADD HL,rr.
    #[verifier::opaque]
    pub open spec fn wide_load_or_add(self, y: int) -> Machine {
        if y % 2 == 0 {
            self.advance(2).with_r16(y / 2, self.imm16())
        } else {
            self.with_cpu(self.cpu.add_hl_16_spec(self.r16(y / 2)))
        }
    }

    /// The address that an indirect load uses, and HL after it: BC, DE, HL
    /// with increment, HL with decrement.
    pub open spec fn indirect(self, p: int) -> (u16, u16) {
        if p == 0 {
            (self.cpu.bc(), self.cpu.hl())
        } else if p == 1 {
            (self.cpu.de(), self.cpu.hl())
        } else if p == 2 {
            (self.cpu.hl(), wrap16(self.cpu.hl() + 1))
        } else {
            (self.cpu.hl(), wrap16(self.cpu.hl() - 1))
        }
    }

    /// `x = 0, z = 2`: A to or from the byte at BC, DE, HL+ or HL-.
    #[verifier::opaque]
    pub open spec fn indirect_load(self, y: int) -> Machine {
        let (addr, hl) = self.indirect(y / 2);
        if y % 2 == 0 {
            self.write(addr, self.cpu.a).with_cpu(self.cpu.with_hl(hl))
        } else {
            self.with_cpu(ProcessingUnit { a: self.read(addr), ..self.cpu.with_hl(hl) })
        }
    }

    /// `x = 0, z = 3`: INC rr and DEC rr. No flag changes.
    #[verifier::opaque]
    pub open spec fn wide_step(self, y: int) -> Machine {
        if y % 2 == 0 {
            self.with_r16(y / 2, wrap16(self.r16(y / 2) + 1))
        } else {
            self.with_r16(y / 2, wrap16(self.r16(y / 2) - 1))
        }
    }

    /// `x = 0, z = 4`: INC r. The carry is kept.
    #[verifier::opaque]
    pub open spec fn inc8(self, y: int) -> Machine {
        self.with_flags(self.cpu.inc_flags(self.r8(y))).with_r8(
            y,
            ((self.r8(y) + 1) % 256) as u8,
        )
    }

    /// `x = 0, z = 5`: DEC r. The carry is kept.
    #[verifier::opaque]
    pub open spec fn dec8(self, y: int) -> Machine {
        self.with_flags(self.cpu.dec_flags_spec(self.r8(y))).with_r8(
            y,
            ((self.r8(y) - 1) % 256) as u8,
        )
    }

    /// `x = 0, z = 6`: LD r,n.
    #[verifier::opaque]
    pub open spec fn load_immediate(self, y: int) -> Machine {
        self.advance(1).with_r8(y, self.imm8())
    }

    /// `x = 0, z = 7`: RLCA, RRCA, RLA, RRA, which rotate A and clear Z; DAA,
    /// CPL, SCF, CCF.
    #[verifier::opaque]
    pub open spec fn accumulator_op(self, y: int) -> Machine {
        let f = self.cpu.f;
        if y < 4 {
            let r = self.shifted(y, self.cpu.a);
            self.with_cpu(
                ProcessingUnit {
                    a: r.0,
                    f: Flags { zero: false, ..shift_flags(r.0, r.1) },
                    ..self.cpu
                },
            )
        } else if y == 4 {
            self.with_cpu(self.cpu.daa_spec())
        } else if y == 5 {
            self.with_cpu(
                ProcessingUnit {
                    a: (255 - self.cpu.a) as u8,
                    f: Flags { n: true, h: true, ..f },
                    ..self.cpu
                },
            )
        } else if y == 6 {
            self.with_flags(Flags { n: false, h: false, carry: true, ..f })
        } else {
            self.with_flags(Flags { n: false, h: false, carry: !f.carry, ..f })
        }
    }

    /// `x = 1`: LD r,r'; the slot of LD (HL),(HL) holds HALT.
    #[verifier::opaque]
    pub open spec fn load_or_halt(self, y: int, z: int) -> Machine {
        if y == 6 && z == 6 {
            self.with_cpu(ProcessingUnit { halted: true, ..self.cpu })
        } else {
            self.with_r8(y, self.r8(z))
        }
    }

    /// `x = 3, z = 0`: RET cc, LDH (n),A, ADD SP,d, LDH A,(n), LD HL,SP+d.
    #[verifier::opaque]
    pub open spec fn ret_or_high(self, y: int) -> (Machine, bool) {
        let n = self.imm8();
        let sp = self.cpu.sp;
        if y < 4 {
            if self.condition(y) {
                (self.ret(), true)
            } else {
                (self, false)
            }
        } else if y == 4 {
            (self.advance(1).write((0xff00 + n) as u16, self.cpu.a), false)
        } else if y == 5 {
            (
                self.advance(1).with_flags(ProcessingUnit::offset_flags(sp, n)).with_r16(
                    3,
                    ProcessingUnit::offset_value(sp, n),
                ),
                false,
            )
        } else if y == 6 {
            (self.advance(1).with_r8(7, self.read((0xff00 + n) as u16)), false)
        } else {
            (
                self.advance(1).with_flags(ProcessingUnit::offset_flags(sp, n)).with_r16(
                    2,
                    ProcessingUnit::offset_value(sp, n),
                ),
                false,
            )
        }
    }

    /// `x = 3, z = 1`: POP rr, RET, RETI, JP (HL), LD SP,HL.
    #[verifier::opaque]
    pub open spec fn pop_or_misc(self, y: int) -> Machine {
        if y % 2 == 0 {
            self.pop16().1.with_r16_stack(y / 2, self.pop16().0)
        } else if y == 1 {
            self.ret()
        } else if y == 3 {
            self.ret().with_cpu(
                ProcessingUnit { interrupt_master_enable: true, ..self.ret().cpu },
            )
        } else if y == 5 {
            self.jump(self.cpu.hl())
        } else {
            self.with_r16(3, self.cpu.hl())
        }
    }

    /// `x = 3, z = 2`: JP cc,nn, LD (C),A, LD (nn),A, LD A,(C), LD A,(nn).
    #[verifier::opaque]
    pub open spec fn jump_or_high(self, y: int) -> (Machine, bool) {
        let nn = self.imm16();
        let port = (0xff00 + self.cpu.c) as u16;
        if y < 4 {
            if self.condition(y) {
                (self.jump(nn), true)
            } else {
                (self.advance(2), false)
            }
        } else if y == 4 {
            (self.write(port, self.cpu.a), false)
        } else if y == 5 {
            (self.advance(2).write(nn, self.cpu.a), false)
        } else if y == 6 {
            (self.with_r8(7, self.read(port)), false)
        } else {
            (self.advance(2).with_r8(7, self.read(nn)), false)
        }
    }

    /// `x = 3, z = 3`: JP nn, DI, EI. The other slots but that of the second
    /// page hold no instruction and do nothing.
    #[verifier::opaque]
    pub open spec fn jump_or_switch(self, y: int) -> Machine {
        if y == 0 {
            self.jump(self.imm16())
        } else if y == 6 {
            self.with_cpu(ProcessingUnit { interrupt_master_enable: false, ..self.cpu })
        } else if y == 7 {
            self.with_cpu(ProcessingUnit { interrupt_master_enable: true, ..self.cpu })
        } else {
            self
        }
    }

    /// `x = 3, z = 4`: CALL cc,nn. The slots above hold no instruction.
    #[verifier::opaque]
    pub open spec fn call_conditional(self, y: int) -> (Machine, bool) {
        if y < 4 {
            if self.condition(y) {
                (self.advance(2).call(self.imm16()), true)
            } else {
                (self.advance(2), false)
            }
        } else {
            (self, false)
        }
    }

    /// `x = 3, z = 5`: PUSH rr and CALL nn. The other slots hold no
    /// instruction.
    #[verifier::opaque]
    pub open spec fn push_or_call(self, y: int) -> Machine {
        if y % 2 == 0 {
            self.push16(self.r16_stack(y / 2))
        } else if y == 1 {
            self.advance(2).call(self.imm16())
        } else {
            self
        }
    }

    /// The machine after the first-page instruction `op`, whose opcode has
    /// been fetched, and whether it took a conditional branch.
    #[verifier::opaque]
    pub open spec fn execute(self, op: u8) -> (Machine, bool) {
        let x = op as int / 64;
        let y = (op as int / 8) % 8;
        let z = op as int % 8;
        if x == 0 {
            if z == 0 {
                self.control(y)
            } else if z == 1 {
                (self.wide_load_or_add(y), false)
            } else if z == 2 {
                (self.indirect_load(y), false)
            } else if z == 3 {
                (self.wide_step(y), false)
            } else if z == 4 {
                (self.inc8(y), false)
            } else if z == 5 {
                (self.dec8(y), false)
            } else if z == 6 {
                (self.load_immediate(y), false)
            } else {
                (self.accumulator_op(y), false)
            }
        } else if x == 1 {
            (self.load_or_halt(y, z), false)
        } else if x == 2 {
            (self.alu(y, self.r8(z)), false)
        } else {
            if z == 0 {
                self.ret_or_high(y)
            } else if z == 1 {
                (self.pop_or_misc(y), false)
            } else if z == 2 {
                self.jump_or_high(y)
            } else if z == 3 {
                (self.jump_or_switch(y), false)
            } else if z == 4 {
                self.call_conditional(y)
            } else if z == 5 {
                (self.push_or_call(y), false)
            } else if z == 6 {
                (self.advance(1).alu(y, self.imm8()), false)
            } else {
                (self.call((y * 8) as u16), false)
            }
        }
    }

    /// The machine after the second-page instruction `op`, whose two opcode
    /// bytes have been fetched: a rotate or shift, BIT, RES or SET on
    /// register `z`.
    #[verifier::opaque]
    pub open spec fn execute_cb(self, op: u8) -> Machine {
        let x = op as int / 64;
        let y = (op as int / 8) % 8;
        let z = op as int % 8;
        let v = self.r8(z);
        if x == 0 {
            let r = self.shifted(y, v);
            self.with_flags(shift_flags(r.0, r.1)).with_r8(z, r.0)
        } else if x == 1 {
            self.with_flags(
                Flags { zero: !bit(v, y as nat), n: false, h: true, carry: self.cpu.f.carry },
            )
        } else if x == 2 {
            self.with_r8(z, with_bit(v, y as nat, false))
        } else {
            self.with_r8(z, with_bit(v, y as nat, true))
        }
    }

    /// The machine after one step and the clocks that the step took. A
    /// pending interrupt is taken first, in 20 clocks; a halted processor
    /// idles for 4 clocks and wakes when an interrupt is pending; else one
    /// instruction runs.
    pub open spec fn step(self) -> (Machine, u32) {
        if self.will_dispatch() {
            (self.dispatch(), 20)
        } else if self.cpu.halted {
            (
                if self.pending() != 0 {
                    self.with_cpu(ProcessingUnit { halted: false, ..self.cpu })
                } else {
                    self
                },
                4,
            )
        } else {
            let op = self.imm8();
            let fetched = self.advance(1);
            if op == 0xcb {
                (fetched.advance(1).execute_cb(fetched.imm8()), cb_cycles(fetched.imm8()))
            } else {
                let done = fetched.execute(op);
                (
                    done.0,
                    if done.1 {
                        op_cycles(op).1
                    } else {
                        op_cycles(op).0
                    },
                )
            }
        }
    }
}


/// The low nibble of F is zero in every state of the register file.
pub proof fn lemma_low_nibble(cpu: ProcessingUnit)
    ensures
        cpu.f.value() % 16 == 0,
        cpu.af() % 16 == 0,
{
}

impl ProcessingUnit {
    /// Register pair `idx` of BC, DE, HL, SP.
    pub open spec fn pair(self, idx: int) -> u16 {
        if idx == 0 {
            self.bc()
        } else if idx == 1 {
            self.de()
        } else if idx == 2 {
            self.hl()
        } else {
            self.sp
        }
    }

    pub open spec fn with_pair(self, idx: int, v: u16) -> ProcessingUnit {
        if idx == 0 {
            self.with_bc(v)
        } else if idx == 1 {
            self.with_de(v)
        } else if idx == 2 {
            self.with_hl(v)
        } else {
            ProcessingUnit { sp: v, ..self }
        }
    }

    /// Register pair `idx` of BC, DE, HL, AF.
    pub open spec fn stack_pair(self, idx: int) -> u16 {
        if idx == 3 {
            self.af()
        } else {
            self.pair(idx)
        }
    }

    /// A pop into AF drops the low nibble of F.
    pub open spec fn with_stack_pair(self, idx: int, v: u16) -> ProcessingUnit {
        if idx == 3 {
            self.with_af(v)
        } else {
            self.with_pair(idx, v)
        }
    }

    /// Condition `cc` of NZ, Z, NC, C.
    pub open spec fn condition_spec(self, cc: int) -> bool {
        if cc == 0 {
            !self.f.zero
        } else if cc == 1 {
            self.f.zero
        } else if cc == 2 {
            !self.f.carry
        } else {
            self.f.carry
        }
    }

    /// Operation `op` of ADD, ADC, SUB, SBC, AND, XOR, OR, CP on A and `n`.
    pub open spec fn alu_spec(self, op: int, n: u8) -> ProcessingUnit {
        if op == 0 {
            self.add_a_spec(n)
        } else if op == 1 {
            self.adc_spec(n)
        } else if op == 2 {
            self.sub_a_spec(n)
        } else if op == 3 {
            self.sbc_spec(n)
        } else if op == 4 {
            self.and_spec(n)
        } else if op == 5 {
            self.xor_a_spec(n)
        } else if op == 6 {
            self.or_spec(n)
        } else {
            self.compare_a_with_spec(n)
        }
    }

    /// The result and the carry of operation `kind` of RLC, RRC, RL, RR,
    /// SLA, SRA, SWAP, SRL on `v`.
    pub open spec fn shifted(self, kind: int, v: u8) -> (u8, bool) {
        if kind == 0 {
            (rlc_value(v), v >= 128)
        } else if kind == 1 {
            (rrc_value(v), v % 2 == 1)
        } else if kind == 2 {
            (rl_value(v, self.f.carry), v >= 128)
        } else if kind == 3 {
            (rr_value(v, self.f.carry), v % 2 == 1)
        } else if kind == 4 {
            (sla_value(v), v >= 128)
        } else if kind == 5 {
            (sra_value(v), v % 2 == 1)
        } else if kind == 6 {
            (swap_value(v), false)
        } else {
            (srl_value(v), v % 2 == 1)
        }
    }

    fn get_r8(&self, bus: &MemoryBus, idx: u8) -> (r: u8)
        ensures
            r == self.on(bus@).r8(idx as int),
    {
        match idx {
            0 => self.b,
            1 => self.c,
            2 => self.d,
            3 => self.e,
            4 => self.h,
            5 => self.l,
            6 => self.read_byte(bus, self.get_hl()),
            _ => self.a,
        }
    }

    fn set_r8(&mut self, bus: &mut MemoryBus, idx: u8, v: u8)
        ensures
            final(bus)@.ppu.phase() == old(bus)@.ppu.phase(),
            final(self).on(final(bus)@) == old(self).on(old(bus)@).with_r8(idx as int, v),
    {
        match idx {
            0 => self.ld_b(v),
            1 => self.ld_c(v),
            2 => self.ld_d(v),
            3 => self.ld_e(v),
            4 => self.ld_h(v),
            5 => self.ld_l(v),
            6 => self.ld_hl(v, bus),
            _ => self.ld_a(v),
        }
    }

    fn get_r16(&self, idx: u8) -> (r: u16)
        ensures
            r == self.pair(idx as int),
    {
        match idx {
            0 => self.get_bc(),
            1 => self.get_de(),
            2 => self.get_hl(),
            _ => self.sp,
        }
    }

    fn set_r16(&mut self, idx: u8, v: u16)
        ensures
            *final(self) == old(self).with_pair(idx as int, v),
    {
        match idx {
            0 => self.set_bc(v),
            1 => self.set_de(v),
            2 => self.set_hl(v),
            _ => {
                self.sp = v;
            },
        }
    }

    fn condition(&self, cc: u8) -> (r: bool)
        ensures
            r == self.condition_spec(cc as int),
    {
        match cc {
            0 => !self.f.zero,
            1 => self.f.zero,
            2 => !self.f.carry,
            _ => self.f.carry,
        }
    }

    fn alu(&mut self, op: u8, n: u8)
        ensures
            *final(self) == old(self).alu_spec(op as int, n),
    {
        match op {
            0 => self.add_a(n),
            1 => self.adc(n),
            2 => self.sub_a(n),
            3 => self.sbc(n),
            4 => self.and(n),
            5 => self.xor_a(n),
            6 => self.or(n),
            _ => self.compare_a_with(n),
        }
    }

    /// Rotates or shifts `v` and sets the flags of the result.
    fn shift(&mut self, kind: u8, v: u8) -> (r: u8)
        ensures
            r == old(self).shifted(kind as int, v).0,
            *final(self) == (ProcessingUnit {
                f: shift_flags(r, old(self).shifted(kind as int, v).1),
                ..*old(self)
            }),
    {
        match kind {
            0 => self.rlc_8(v),
            1 => self.rrc_8(v),
            2 => self.rl_8(v),
            3 => self.rr_8(v),
            4 => self.sla_8(v),
            5 => self.sra_8(v),
            6 => self.swap(v),
            _ => self.srl_8(v),
        }
    }

    fn jump_relative(&mut self, bus: &MemoryBus)
        ensures
            final(self).on(bus@) == old(self).on(bus@).jump_relative(),
    {
        let n: u8 = self.get_immediate_i8(bus);
        let offset: u16 = if n < 128 {
            n as u16
        } else {
            0xff00 + (n as u16)
        };
        self.pc = self.pc.wrapping_add(offset);
    }

    fn control(&mut self, bus: &mut MemoryBus, y: u8) -> (taken: bool)
        requires
            y < 8,
        ensures
            final(bus)@.ppu.phase() == old(bus)@.ppu.phase(),
            (final(self).on(final(bus)@), taken) == old(self).on(old(bus)@).control(y as int),
    {
        reveal(Machine::control);
        if y == 1 {
            let lsb_addr: u16 = self.get_immediate_u16(bus);
            let msb_addr: u16 = lsb_addr.wrapping_add(1);
            let (sp_msb, sp_lsb) = Self::get_bits(self.sp);
            self.write_byte(bus, lsb_addr, sp_lsb);
            self.write_byte(bus, msb_addr, sp_msb);
            false
        } else if y == 3 {
            self.jump_relative(bus);
            false
        } else if y >= 4 {
            if self.condition(y - 4) {
                self.jump_relative(bus);
                true
            } else {
                let _ = self.get_immediate_i8(bus);
                false
            }
        } else {
            false
        }
    }

    fn wide_load_or_add(&mut self, bus: &MemoryBus, y: u8)
        requires
            y < 8,
        ensures
            final(self).on(bus@) == old(self).on(bus@).wide_load_or_add(y as int),
    {
        reveal(Machine::wide_load_or_add);
        if y % 2 == 0 {
            let nn: u16 = self.get_immediate_u16(bus);
            self.set_r16(y / 2, nn);
        } else {
            let n: u16 = self.get_r16(y / 2);
            self.add_hl_16(n);
        }
    }

    fn indirect_load(&mut self, bus: &mut MemoryBus, y: u8)
        requires
            y < 8,
        ensures
            final(bus)@.ppu.phase() == old(bus)@.ppu.phase(),
            final(self).on(final(bus)@) == old(self).on(old(bus)@).indirect_load(y as int),
    {
        reveal(Machine::indirect_load);
        let p: u8 = y / 2;
        let addr: u16 = if p == 0 {
            self.get_bc()
        } else if p == 1 {
            self.get_de()
        } else if p == 2 {
            self.hli()
        } else {
            self.hld()
        };
        if y % 2 == 0 {
            let a: u8 = self.a;
            self.write_byte(bus, addr, a);
        } else {
            self.a = self.read_byte(bus, addr);
        }
    }

    fn wide_step(&mut self, y: u8)
        requires
            y < 8,
        ensures
            *final(self) == old(self).with_pair(
                y as int / 2,
                if y % 2 == 0 {
                    wrap16(old(self).pair(y as int / 2) + 1)
                } else {
                    wrap16(old(self).pair(y as int / 2) - 1)
                },
            ),
    {
        let v: u16 = self.get_r16(y / 2);
        if y % 2 == 0 {
            self.set_r16(y / 2, v.wrapping_add(1));
        } else {
            self.set_r16(y / 2, v.wrapping_sub(1));
        }
    }

    fn inc8(&mut self, bus: &mut MemoryBus, y: u8)
        requires
            y < 8,
        ensures
            final(bus)@.ppu.phase() == old(bus)@.ppu.phase(),
            final(self).on(final(bus)@) == old(self).on(old(bus)@).inc8(y as int),
    {
        reveal(Machine::inc8);
        let prev: u8 = self.get_r8(bus, y);
        let new: u8 = prev.wrapping_add(1);
        self.reset_and_set_carry_zero(prev, new);
        self.set_r8(bus, y, new);
    }

    fn dec8(&mut self, bus: &mut MemoryBus, y: u8)
        requires
            y < 8,
        ensures
            final(bus)@.ppu.phase() == old(bus)@.ppu.phase(),
            final(self).on(final(bus)@) == old(self).on(old(bus)@).dec8(y as int),
    {
        reveal(Machine::dec8);
        let prev: u8 = self.get_r8(bus, y);
        let new: u8 = prev.wrapping_sub(1);
        self.dec_flags(prev, new);
        self.set_r8(bus, y, new);
    }

    fn load_immediate(&mut self, bus: &mut MemoryBus, y: u8)
        requires
            y < 8,
        ensures
            final(bus)@.ppu.phase() == old(bus)@.ppu.phase(),
            final(self).on(final(bus)@) == old(self).on(old(bus)@).load_immediate(y as int),
    {
        reveal(Machine::load_immediate);
        let n: u8 = self.get_immediate_u8(bus);
        self.set_r8(bus, y, n);
    }

    fn accumulator_op(&mut self, y: u8)
        requires
            y < 8,
        ensures
            forall|bus: crate::dmg::mem::BusView| #[trigger]
                final(self).on(bus) == old(self).on(bus).accumulator_op(y as int),
    {
        reveal(Machine::accumulator_op);
        if y < 4 {
            let a: u8 = self.a;
            self.a = self.shift(y, a);
            self.f.zero = false;
        } else if y == 4 {
            self.daa();
        } else if y == 5 {
            self.a = 255 - self.a;
            self.f.n = true;
            self.f.h = true;
        } else if y == 6 {
            self.f.n = false;
            self.f.h = false;
            self.f.carry = true;
        } else {
            self.f.n = false;
            self.f.h = false;
            self.f.carry = !self.f.carry;
        }
    }

    fn load_or_halt(&mut self, bus: &mut MemoryBus, y: u8, z: u8)
        requires
            y < 8,
            z < 8,
        ensures
            final(bus)@.ppu.phase() == old(bus)@.ppu.phase(),
            final(self).on(final(bus)@) == old(self).on(old(bus)@).load_or_halt(
                y as int,
                z as int,
            ),
    {
        reveal(Machine::load_or_halt);
        if y == 6 && z == 6 {
            self.halted = true;
        } else {
            let v: u8 = self.get_r8(bus, z);
            self.set_r8(bus, y, v);
        }
    }

    fn ret_or_high(&mut self, bus: &mut MemoryBus, y: u8) -> (taken: bool)
        requires
            y < 8,
        ensures
            final(bus)@.ppu.phase() == old(bus)@.ppu.phase(),
            (final(self).on(final(bus)@), taken) == old(self).on(old(bus)@).ret_or_high(y as int),
    {
        reveal(Machine::ret_or_high);
        if y < 4 {
            if self.condition(y) {
                self.ret(bus);
                true
            } else {
                false
            }
        } else if y == 4 {
            let n: u16 = self.get_immediate_u8(bus) as u16;
            let a: u8 = self.a;
            self.write_byte(bus, 0xff00 + n, a);
            false
        } else if y == 5 {
            let n: u8 = self.get_immediate_i8(bus);
            let sp: u16 = self.sp;
            self.sp = self.add_16_imm(sp, n);
            false
        } else if y == 6 {
            let n: u16 = self.get_immediate_u8(bus) as u16;
            self.a = self.read_byte(bus, 0xff00 + n);
            false
        } else {
            let n: u8 = self.get_immediate_i8(bus);
            let sp: u16 = self.sp;
            let r: u16 = self.add_16_imm(sp, n);
            self.set_hl(r);
            false
        }
    }

    fn pop_or_misc(&mut self, bus: &MemoryBus, y: u8)
        requires
            y < 8,
        ensures
            final(self).on(bus@) == old(self).on(bus@).pop_or_misc(y as int),
    {
        reveal(Machine::pop_or_misc);
        if y % 2 == 0 {
            let low: u8 = self.read_sp_u8(bus);
            let high: u8 = self.read_sp_u8(bus);
            if y == 0 {
                self.c = low;
                self.b = high;
            } else if y == 2 {
                self.e = low;
                self.d = high;
            } else if y == 4 {
                self.l = low;
                self.h = high;
            } else {
                self.f = Flags::from_bits_truncate(low);
                self.a = high;
            }
        } else if y == 1 {
            self.ret(bus);
        } else if y == 3 {
            self.ret(bus);
            self.interrupt_master_enable = true;
        } else if y == 5 {
            self.pc = self.get_hl();
        } else {
            self.sp = self.get_hl();
        }
    }

    fn jump_or_high(&mut self, bus: &mut MemoryBus, y: u8) -> (taken: bool)
        requires
            y < 8,
        ensures
            final(bus)@.ppu.phase() == old(bus)@.ppu.phase(),
            (final(self).on(final(bus)@), taken) == old(self).on(old(bus)@).jump_or_high(y as int),
    {
        reveal(Machine::jump_or_high);
        if y < 4 {
            let nn: u16 = self.get_immediate_u16(bus);
            if self.condition(y) {
                self.pc = nn;
                true
            } else {
                false
            }
        } else if y == 4 {
            let addr: u16 = 0xff00 + (self.c as u16);
            let a: u8 = self.a;
            self.write_byte(bus, addr, a);
            false
        } else if y == 5 {
            let addr: u16 = self.get_immediate_u16(bus);
            let a: u8 = self.a;
            self.write_byte(bus, addr, a);
            false
        } else if y == 6 {
            let addr: u16 = 0xff00 + (self.c as u16);
            self.a = self.read_byte(bus, addr);
            false
        } else {
            let addr: u16 = self.get_immediate_u16(bus);
            self.a = self.read_byte(bus, addr);
            false
        }
    }

    fn jump_or_switch(&mut self, bus: &MemoryBus, y: u8)
        requires
            y < 8,
        ensures
            final(self).on(bus@) == old(self).on(bus@).jump_or_switch(y as int),
    {
        reveal(Machine::jump_or_switch);
        if y == 0 {
            self.pc = self.get_immediate_u16(bus);
        } else if y == 6 {
            self.interrupt_master_enable = false;
        } else if y == 7 {
            self.interrupt_master_enable = true;
        }
    }

    fn call_conditional(&mut self, bus: &mut MemoryBus, y: u8) -> (taken: bool)
        requires
            y < 8,
        ensures
            final(bus)@.ppu.phase() == old(bus)@.ppu.phase(),
            (final(self).on(final(bus)@), taken) == old(self).on(old(bus)@).call_conditional(
                y as int,
            ),
    {
        reveal(Machine::call_conditional);
        if y < 4 {
            let nn: u16 = self.get_immediate_u16(bus);
            if self.condition(y) {
                self.call(nn, bus);
                true
            } else {
                false
            }
        } else {
            false
        }
    }

    fn push_or_call(&mut self, bus: &mut MemoryBus, y: u8)
        requires
            y < 8,
        ensures
            final(bus)@.ppu.phase() == old(bus)@.ppu.phase(),
            final(self).on(final(bus)@) == old(self).on(old(bus)@).push_or_call(y as int),
    {
        reveal(Machine::push_or_call);
        if y % 2 == 0 {
            let v: u16 = if y == 6 {
                self.get_af()
            } else {
                self.get_r16(y / 2)
            };
            self.push_u16(v, bus);
        } else if y == 1 {
            let nn: u16 = self.get_immediate_u16(bus);
            self.call(nn, bus);
        }
    }

    /// Runs the first-page instruction `op`, whose opcode has been fetched,
    /// and tells whether it took a conditional branch.
    fn execute(&mut self, bus: &mut MemoryBus, op: u8) -> (taken: bool)
        ensures
            final(bus)@.ppu.phase() == old(bus)@.ppu.phase(),
            (final(self).on(final(bus)@), taken) == old(self).on(old(bus)@).execute(op),
    {
        reveal(Machine::execute);
        reveal(Machine::wide_step);
        let x: u8 = op / 64;
        let y: u8 = (op / 8) % 8;
        let z: u8 = op % 8;
        if x == 0 {
            if z == 0 {
                self.control(bus, y)
            } else if z == 1 {
                self.wide_load_or_add(bus, y);
                false
            } else if z == 2 {
                self.indirect_load(bus, y);
                false
            } else if z == 3 {
                self.wide_step(y);
                false
            } else if z == 4 {
                self.inc8(bus, y);
                false
            } else if z == 5 {
                self.dec8(bus, y);
                false
            } else if z == 6 {
                self.load_immediate(bus, y);
                false
            } else {
                self.accumulator_op(y);
                false
            }
        } else if x == 1 {
            self.load_or_halt(bus, y, z);
            false
        } else if x == 2 {
            let n: u8 = self.get_r8(bus, z);
            self.alu(y, n);
            false
        } else {
            if z == 0 {
                self.ret_or_high(bus, y)
            } else if z == 1 {
                self.pop_or_misc(bus, y);
                false
            } else if z == 2 {
                self.jump_or_high(bus, y)
            } else if z == 3 {
                self.jump_or_switch(bus, y);
                false
            } else if z == 4 {
                self.call_conditional(bus, y)
            } else if z == 5 {
                self.push_or_call(bus, y);
                false
            } else if z == 6 {
                let n: u8 = self.get_immediate_u8(bus);
                self.alu(y, n);
                false
            } else {
                self.rst((y * 8) as u16, bus);
                false
            }
        }
    }

    /// Runs the second-page instruction `op`, whose two opcode bytes have
    /// been fetched.
    fn execute_cb(&mut self, bus: &mut MemoryBus, op: u8)
        ensures
            final(bus)@.ppu.phase() == old(bus)@.ppu.phase(),
            final(self).on(final(bus)@) == old(self).on(old(bus)@).execute_cb(op),
    {
        reveal(Machine::execute_cb);
        let x: u8 = op / 64;
        let y: u8 = (op / 8) % 8;
        let z: u8 = op % 8;
        let v: u8 = self.get_r8(bus, z);
        if x == 0 {
            let r: u8 = self.shift(y, v);
            self.set_r8(bus, z, r);
        } else if x == 1 {
            Self::bit(y as usize, v, &mut self.f);
        } else if x == 2 {
            self.set_r8(bus, z, assign_bit(v, y as usize, false));
        } else {
            self.set_r8(bus, z, assign_bit(v, y as usize, true));
        }
    }

    /// Runs one step and returns the clocks that it took: 20 for an
    /// interrupt that is taken, 4 for a halted processor, else the cost of
    /// the instruction at the program counter. An opcode that holds no
    /// instruction passes as a NOP.
    pub fn next(&mut self, bus: &mut MemoryBus) -> (cycles: u32)
        ensures
            final(bus)@.ppu.phase() == old(bus)@.ppu.phase(),
            (final(self).on(final(bus)@), cycles) == old(self).on(old(bus)@).step(),
            cycles == 4 || cycles == 8 || cycles == 12 || cycles == 16 || cycles == 20 || cycles
                == 24,
            final(self).af() % 16 == 0,
    {
        proof {
            lemma_low_nibble(*self);
        }
        if self.check_and_execute_interrupts(bus) {
            proof {
                lemma_low_nibble(*self);
            }
            return 20;
        }
        if self.halted {
            if bus.check_interrupt() {
                self.halted = false;
            }
            return 4;
        }
        let op: u8 = self.get_immediate_u8(bus);
        proof {
            lemma_cycle_values(op);
        }
        if op == 0xCB {
            let second: u8 = self.get_immediate_u8(bus);
            proof {
                lemma_cycle_values(second);
            }
            self.execute_cb(bus, second);
            proof {
                lemma_low_nibble(*self);
            }
            lookup_cb_prefix_op_code(second)
        } else {
            let taken: bool = self.execute(bus, op);
            let cost: (u32, u32) = lookup_op_code(op);
            proof {
                lemma_low_nibble(*self);
            }
            if taken {
                cost.1
            } else {
                cost.0
            }
        }
    }
}

} // verus!
