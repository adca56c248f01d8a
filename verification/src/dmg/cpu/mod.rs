//! The processor: register file, flag rules and the arithmetic unit.
use crate::dmg::bits::{assign_bit, bit, test_bit};
use crate::dmg::intf::InterruptFlag;
use crate::dmg::mem::{BusView, MemoryBus};
use vstd::prelude::*;

pub mod cycles;
pub mod step;
pub mod laws;

verus! {

/// The four condition flags. As a byte they occupy the high nibble of F; the
/// low nibble has no storage.
#[derive(Clone, Copy, Debug, PartialEq, Eq, Structural)]
pub struct Flags {
    pub zero: bool,
    pub n: bool,
    pub h: bool,
    pub carry: bool,
}

impl Flags {
    pub const ZERO: u8 = 0x80;

    pub const N: u8 = 0x40;

    pub const H: u8 = 0x20;

    pub const CARRY: u8 = 0x10;

    /// The flags as the byte F.
    pub open spec fn value(self) -> u8 {
        ((if self.zero {
            128int
        } else {
            0
        }) + (if self.n {
            64int
        } else {
            0
        }) + (if self.h {
            32int
        } else {
            0
        }) + (if self.carry {
            16int
        } else {
            0
        })) as u8
    }

    /// The flags that the high nibble of `v` holds.
    pub open spec fn of_byte(v: u8) -> Flags {
        Flags { zero: bit(v, 7), n: bit(v, 6), h: bit(v, 5), carry: bit(v, 4) }
    }

    pub fn empty() -> (r: Flags)
        ensures
            r == (Flags { zero: false, n: false, h: false, carry: false }),
    {
        Flags { zero: false, n: false, h: false, carry: false }
    }

    pub fn bits(&self) -> (r: u8)
        ensures
            r == self.value(),
            r % 16 == 0,
    {
        let z: u8 = if self.zero {
            0x80
        } else {
            0
        };
        let n: u8 = if self.n {
            0x40
        } else {
            0
        };
        let h: u8 = if self.h {
            0x20
        } else {
            0
        };
        let c: u8 = if self.carry {
            0x10
        } else {
            0
        };
        z + n + h + c
    }

    /// Reads the flags out of a byte; its low nibble is dropped.
    pub fn from_bits_truncate(v: u8) -> (r: Flags)
        ensures
            r == Self::of_byte(v),
            r.value() == v - v % 16,
    {
        Flags {
            zero: test_bit(v, 7),
            n: test_bit(v, 6),
            h: test_bit(v, 5),
            carry: test_bit(v, 4),
        }
    }

    /// Whether every flag of `mask` is set.
    pub fn contains(&self, mask: u8) -> (r: bool)
        ensures
            r == (self.value() & mask == mask),
    {
        self.bits() & mask == mask
    }
}

/// The sum `a + n + carry` as the arithmetic unit reports it: the low byte,
/// the carry out of bit 3 and the carry out of bit 7.
pub open spec fn add8(a: u8, n: u8, carry: bool) -> (u8, bool, bool) {
    let cin: int = if carry {
        1
    } else {
        0
    };
    (((a + n + cin) % 256) as u8, a % 16 + n % 16 + cin > 15, a + n + cin > 255)
}

/// The difference `a - n - carry`: the low byte, the borrow into bit 3 and the
/// borrow into bit 7.
pub open spec fn sub8(a: u8, n: u8, carry: bool) -> (u8, bool, bool) {
    let cin: int = if carry {
        1
    } else {
        0
    };
    (((a - n - cin) % 256) as u8, a % 16 < n % 16 + cin, a < n + cin)
}

/// A byte read as a signed offset and widened to 16 bits.
pub open spec fn sign_extend(n: u8) -> u16 {
    if n < 128 {
        n as u16
    } else {
        (0xff00 + n) as u16
    }
}

/// The high byte of a 16-bit word.
pub open spec fn hi(v: u16) -> u8 {
    (v / 256) as u8
}

/// The low byte of a 16-bit word.
pub open spec fn lo(v: u16) -> u8 {
    (v % 256) as u8
}

/// The word made of a high and a low byte.
pub open spec fn word(msb: u8, lsb: u8) -> u16 {
    (msb * 256 + lsb) as u16
}

/// Rotate left, bit 7 into bit 0 and into the carry.
pub open spec fn rlc_value(v: u8) -> u8 {
    ((v % 128) * 2 + v / 128) as u8
}

/// Rotate left through the carry.
pub open spec fn rl_value(v: u8, carry: bool) -> u8 {
    ((v % 128) * 2 + if carry {
        1int
    } else {
        0
    }) as u8
}

/// Rotate right, bit 0 into bit 7 and into the carry.
pub open spec fn rrc_value(v: u8) -> u8 {
    (v / 2 + (v % 2) * 128) as u8
}

/// Rotate right through the carry.
pub open spec fn rr_value(v: u8, carry: bool) -> u8 {
    (v / 2 + if carry {
        128int
    } else {
        0
    }) as u8
}

/// Shift left, a zero into bit 0.
pub open spec fn sla_value(v: u8) -> u8 {
    ((v % 128) * 2) as u8
}

/// Shift right, bit 7 kept.
pub open spec fn sra_value(v: u8) -> u8 {
    (v / 2 + if v >= 128 {
        128int
    } else {
        0
    }) as u8
}

/// Shift right, a zero into bit 7.
pub open spec fn srl_value(v: u8) -> u8 {
    v / 2
}

/// The two nibbles exchanged.
pub open spec fn swap_value(v: u8) -> u8 {
    ((v % 16) * 16 + v / 16) as u8
}

/// The flags after a rotate or shift that produced `r` and moved `carry` out.
pub open spec fn shift_flags(r: u8, carry: bool) -> Flags {
    Flags { zero: r == 0, n: false, h: false, carry }
}

/// The register file and the two latches that steer instruction fetch.
#[derive(Clone, Copy, Debug)]
pub struct ProcessingUnit {
    pub a: u8,
    pub b: u8,
    pub c: u8,
    pub d: u8,
    pub e: u8,
    pub f: Flags,
    pub h: u8,
    pub l: u8,
    pub pc: u16,
    pub sp: u16,
    pub halted: bool,
    pub interrupt_master_enable: bool,
    pub enable_debugging: bool,
}

impl ProcessingUnit {
    /// The state at power-on.
    pub open spec fn initial() -> ProcessingUnit {
        ProcessingUnit {
            a: 0,
            b: 0,
            c: 0,
            d: 0,
            e: 0,
            f: Flags { zero: false, n: false, h: false, carry: false },
            h: 0,
            l: 0,
            pc: 0,
            sp: 0xfffe,
            halted: false,
            interrupt_master_enable: false,
            enable_debugging: false,
        }
    }

    /// The registers as the boot program leaves them.
    pub open spec fn skip_boot_rom_spec(self) -> ProcessingUnit {
        ProcessingUnit {
            a: 0x01,
            f: Flags { zero: true, n: false, h: true, carry: true },
            b: 0x00,
            c: 0x13,
            d: 0x00,
            e: 0xd8,
            h: 0x01,
            l: 0x4d,
            sp: 0xfffe,
            pc: 0x0100,
            ..self
        }
    }

    pub open spec fn af(self) -> u16 {
        word(self.a, self.f.value())
    }

    pub open spec fn bc(self) -> u16 {
        word(self.b, self.c)
    }

    pub open spec fn de(self) -> u16 {
        word(self.d, self.e)
    }

    pub open spec fn hl(self) -> u16 {
        word(self.h, self.l)
    }

    pub open spec fn with_bc(self, v: u16) -> ProcessingUnit {
        ProcessingUnit { b: hi(v), c: lo(v), ..self }
    }

    pub open spec fn with_de(self, v: u16) -> ProcessingUnit {
        ProcessingUnit { d: hi(v), e: lo(v), ..self }
    }

    pub open spec fn with_hl(self, v: u16) -> ProcessingUnit {
        ProcessingUnit { h: hi(v), l: lo(v), ..self }
    }

    pub open spec fn with_af(self, v: u16) -> ProcessingUnit {
        ProcessingUnit { a: hi(v), f: Flags::of_byte(lo(v)), ..self }
    }

    pub open spec fn add_a_spec(self, n: u8) -> ProcessingUnit {
        let (r, h, c) = add8(self.a, n, false);
        ProcessingUnit { a: r, f: Flags { zero: r == 0, n: false, h, carry: c }, ..self }
    }

    pub open spec fn adc_spec(self, n: u8) -> ProcessingUnit {
        let (r, h, c) = add8(self.a, n, self.f.carry);
        ProcessingUnit { a: r, f: Flags { zero: r == 0, n: false, h, carry: c }, ..self }
    }

    pub open spec fn sub_a_spec(self, n: u8) -> ProcessingUnit {
        let (r, h, c) = sub8(self.a, n, false);
        ProcessingUnit { a: r, f: Flags { zero: r == 0, n: true, h, carry: c }, ..self }
    }

    pub open spec fn sbc_spec(self, n: u8) -> ProcessingUnit {
        let (r, h, c) = sub8(self.a, n, self.f.carry);
        ProcessingUnit { a: r, f: Flags { zero: r == 0, n: true, h, carry: c }, ..self }
    }

    /// A compare is a subtraction that keeps A.
    pub open spec fn compare_a_with_spec(self, n: u8) -> ProcessingUnit {
        ProcessingUnit { a: self.a, ..self.sub_a_spec(n) }
    }

    pub open spec fn and_spec(self, n: u8) -> ProcessingUnit {
        let r = self.a & n;
        ProcessingUnit { a: r, f: Flags { zero: r == 0, n: false, h: true, carry: false }, ..self }
    }

    pub open spec fn or_spec(self, n: u8) -> ProcessingUnit {
        let r = self.a | n;
        ProcessingUnit {
            a: r,
            f: Flags { zero: r == 0, n: false, h: false, carry: false },
            ..self
        }
    }

    pub open spec fn xor_a_spec(self, n: u8) -> ProcessingUnit {
        let r = self.a ^ n;
        ProcessingUnit {
            a: r,
            f: Flags { zero: r == 0, n: false, h: false, carry: false },
            ..self
        }
    }

    /// The flags after an 8-bit increment of `prev`; the carry is kept.
    pub open spec fn inc_flags(self, prev: u8) -> Flags {
        Flags { zero: prev == 255, n: false, h: prev % 16 == 15, carry: self.f.carry }
    }

    /// The flags after an 8-bit decrement of `prev`; the carry is kept.
    pub open spec fn dec_flags_spec(self, prev: u8) -> Flags {
        Flags { zero: prev == 1, n: true, h: prev % 16 == 0, carry: self.f.carry }
    }

    /// HL plus a 16-bit operand: Z is kept, H is the carry out of bit 11, C
    /// the carry out of bit 15.
    pub open spec fn add_hl_16_spec(self, n: u16) -> ProcessingUnit {
        let hl = self.hl();
        ProcessingUnit {
            f: Flags {
                zero: self.f.zero,
                n: false,
                h: hl % 4096 + n % 4096 > 4095,
                carry: hl + n > 65535,
            },
            ..self.with_hl(((hl + n) % 65536) as u16)
        }
    }

    /// The flags after adding the signed byte `n` to the word `a`: H and C
    /// come from the unsigned sum of the low nibbles and of the low bytes.
    pub open spec fn offset_flags(a: u16, n: u8) -> Flags {
        Flags { zero: false, n: false, h: a % 16 + n % 16 > 15, carry: a % 256 + n > 255 }
    }

    /// The word `a` moved by the signed byte `n`, wrapping.
    pub open spec fn offset_value(a: u16, n: u8) -> u16 {
        ((a + sign_extend(n)) % 65536) as u16
    }

    /// The decimal adjustment of A after an addition or subtraction of packed
    /// decimal digits.
    pub open spec fn daa_spec(self) -> ProcessingUnit {
        let low = self.f.h || (!self.f.n && self.a % 16 > 9);
        let high = self.f.carry || (!self.f.n && self.a > 0x99);
        let adjust: int = (if low {
            0x06int
        } else {
            0
        }) + (if high {
            0x60int
        } else {
            0
        });
        let r = if self.f.n {
            ((self.a - adjust) % 256) as u8
        } else {
            ((self.a + adjust) % 256) as u8
        };
        ProcessingUnit {
            a: r,
            f: Flags { zero: r == 0, n: self.f.n, h: false, carry: high },
            ..self
        }
    }

    pub fn new() -> (r: ProcessingUnit)
        ensures
            r == Self::initial(),
    {
        ProcessingUnit {
            a: 0,
            b: 0,
            c: 0,
            d: 0,
            e: 0,
            f: Flags::empty(),
            h: 0,
            l: 0,
            pc: 0x0,
            sp: 0xFFFE,
            halted: false,
            interrupt_master_enable: false,
            enable_debugging: false,
        }
    }

    pub fn skip_boot_rom(&mut self)
        ensures
            *final(self) == old(self).skip_boot_rom_spec(),
            final(self).af() == 0x01b0,
            final(self).bc() == 0x0013,
            final(self).de() == 0x00d8,
            final(self).hl() == 0x014d,
    {
        self.a = 0x01;
        self.f = Flags { zero: true, n: false, h: true, carry: true };
        self.b = 0x00;
        self.c = 0x13;
        self.d = 0x00;
        self.e = 0xd8;
        self.h = 0x01;
        self.l = 0x4d;
        self.sp = 0xFFFE;
        self.pc = 0x0100;
    }

    /// Turns the trace mode on and starts from the state after the boot
    /// program.
    pub fn initialize_gameboy_doctor(&mut self)
        ensures
            *final(self) == (ProcessingUnit {
                enable_debugging: true,
                ..old(self).skip_boot_rom_spec()
            }),
    {
        self.enable_debugging = true;
        self.skip_boot_rom();
    }

    pub fn swap(&mut self, n: u8) -> (r: u8)
        ensures
            r == swap_value(n),
            *final(self) == (ProcessingUnit { f: shift_flags(r, false), ..*old(self) }),
    {
        let r: u8 = (n % 16) * 16 + n / 16;
        self.f = Flags { zero: r == 0, n: false, h: false, carry: false };
        r
    }

    pub fn get_carry(&self) -> (r: u8)
        ensures
            r == if self.f.carry {
                1u8
            } else {
                0u8
            },
    {
        if self.f.carry {
            1
        } else {
            0
        }
    }

    pub fn get_af(&self) -> (r: u16)
        ensures
            r == self.af(),
            r % 16 == 0,
    {
        (self.a as u16) * 256 + (self.f.bits() as u16)
    }

    pub fn get_bc(&self) -> (r: u16)
        ensures
            r == self.bc(),
    {
        (self.b as u16) * 256 + (self.c as u16)
    }

    pub fn get_de(&self) -> (r: u16)
        ensures
            r == self.de(),
    {
        (self.d as u16) * 256 + (self.e as u16)
    }

    pub fn get_hl(&self) -> (r: u16)
        ensures
            r == self.hl(),
    {
        (self.h as u16) * 256 + (self.l as u16)
    }

    pub fn set_bc(&mut self, v: u16)
        ensures
            *final(self) == old(self).with_bc(v),
            final(self).bc() == v,
    {
        self.b = (v / 256) as u8;
        self.c = (v % 256) as u8;
    }

    pub fn set_de(&mut self, v: u16)
        ensures
            *final(self) == old(self).with_de(v),
            final(self).de() == v,
    {
        self.d = (v / 256) as u8;
        self.e = (v % 256) as u8;
    }

    pub fn set_hl(&mut self, v: u16)
        ensures
            *final(self) == old(self).with_hl(v),
            final(self).hl() == v,
    {
        self.h = (v / 256) as u8;
        self.l = (v % 256) as u8;
    }

    /// Splits a word into its high and its low byte.
    pub fn get_bits(n: u16) -> (r: (u8, u8))
        ensures
            r == (hi(n), lo(n)),
    {
        ((n / 256) as u8, (n % 256) as u8)
    }

    pub fn daa(&mut self)
        ensures
            *final(self) == old(self).daa_spec(),
    {
        let mut adjust: u8 = if self.f.carry {
            0x60
        } else {
            0
        };
        if self.f.h {
            adjust = adjust + 0x06;
        }
        if !self.f.n {
            if self.a % 16 > 0x09 && adjust % 16 == 0 {
                adjust = adjust + 0x06;
            }
            if self.a > 0x99 && adjust < 0x60 {
                adjust = adjust + 0x60;
            }
            self.a = self.a.wrapping_add(adjust);
        } else {
            self.a = self.a.wrapping_sub(adjust);
        }
        self.f.carry = adjust >= 0x60;
        self.f.h = false;
        self.f.zero = self.a == 0;
    }

    pub fn ld_a(&mut self, n: u8)
        ensures
            *final(self) == (ProcessingUnit { a: n, ..*old(self) }),
    {
        self.a = n;
    }

    pub fn ld_b(&mut self, n: u8)
        ensures
            *final(self) == (ProcessingUnit { b: n, ..*old(self) }),
    {
        self.b = n;
    }

    pub fn ld_c(&mut self, n: u8)
        ensures
            *final(self) == (ProcessingUnit { c: n, ..*old(self) }),
    {
        self.c = n;
    }

    pub fn ld_d(&mut self, n: u8)
        ensures
            *final(self) == (ProcessingUnit { d: n, ..*old(self) }),
    {
        self.d = n;
    }

    pub fn ld_e(&mut self, n: u8)
        ensures
            *final(self) == (ProcessingUnit { e: n, ..*old(self) }),
    {
        self.e = n;
    }

    pub fn ld_h(&mut self, n: u8)
        ensures
            *final(self) == (ProcessingUnit { h: n, ..*old(self) }),
    {
        self.h = n;
    }

    pub fn ld_l(&mut self, n: u8)
        ensures
            *final(self) == (ProcessingUnit { l: n, ..*old(self) }),
    {
        self.l = n;
    }

    /// Adds the signed byte `n` to the word `a` and sets the flags of that
    /// addition.
    pub fn add_16_imm(&mut self, a: u16, n: u8) -> (r: u16)
        ensures
            r == Self::offset_value(a, n),
            *final(self) == (ProcessingUnit { f: Self::offset_flags(a, n), ..*old(self) }),
    {
        let b: u16 = if n < 128 {
            n as u16
        } else {
            0xff00 + (n as u16)
        };
        self.f = Flags {
            zero: false,
            n: false,
            h: (a % 16) + ((n % 16) as u16) > 0xf,
            carry: (a % 256) + (n as u16) > 0xff,
        };
        a.wrapping_add(b)
    }

    pub fn add_hl_16(&mut self, hl: u16)
        ensures
            *final(self) == old(self).add_hl_16_spec(hl),
    {
        let prev: u16 = self.get_hl();
        let new_hl: u16 = prev.wrapping_add(hl);
        let overflow: bool = (prev as u32) + (hl as u32) > 0xffff;
        self.f.n = false;
        self.f.h = (prev % 4096) + (hl % 4096) > 4095;
        self.f.carry = overflow;
        self.set_hl(new_hl);
    }

    /// Returns HL and then increments it.
    pub fn hli(&mut self) -> (r: u16)
        ensures
            r == old(self).hl(),
            *final(self) == old(self).with_hl(((r + 1) % 65536) as u16),
    {
        let hl: u16 = self.get_hl();
        self.set_hl(hl.wrapping_add(1));
        hl
    }

    /// Returns HL and then decrements it.
    pub fn hld(&mut self) -> (r: u16)
        ensures
            r == old(self).hl(),
            *final(self) == old(self).with_hl(((r - 1) % 65536) as u16),
    {
        let hl: u16 = self.get_hl();
        self.set_hl(hl.wrapping_sub(1));
        hl
    }

    pub fn rr_8(&mut self, v: u8) -> (r: u8)
        ensures
            r == rr_value(v, old(self).f.carry),
            *final(self) == (ProcessingUnit { f: shift_flags(r, v % 2 == 1), ..*old(self) }),
    {
        let carry: bool = test_bit(v, 0);
        let r: u8 = assign_bit(v / 2, 7, self.f.carry);
        self.f = Flags { zero: r == 0, n: false, h: false, carry };
        r
    }

    pub fn rrc_8(&mut self, v: u8) -> (r: u8)
        ensures
            r == rrc_value(v),
            *final(self) == (ProcessingUnit { f: shift_flags(r, v % 2 == 1), ..*old(self) }),
    {
        let carry: bool = test_bit(v, 0);
        let r: u8 = assign_bit(v / 2, 7, carry);
        self.f = Flags { zero: r == 0, n: false, h: false, carry };
        r
    }

    pub fn rl_8(&mut self, v: u8) -> (r: u8)
        ensures
            r == rl_value(v, old(self).f.carry),
            *final(self) == (ProcessingUnit { f: shift_flags(r, v >= 128), ..*old(self) }),
    {
        let carry: bool = test_bit(v, 7);
        let r: u8 = assign_bit((v % 128) * 2, 0, self.f.carry);
        self.f = Flags { zero: r == 0, n: false, h: false, carry };
        r
    }

    pub fn rlc_8(&mut self, v: u8) -> (r: u8)
        ensures
            r == rlc_value(v),
            *final(self) == (ProcessingUnit { f: shift_flags(r, v >= 128), ..*old(self) }),
    {
        let carry: bool = test_bit(v, 7);
        let r: u8 = assign_bit((v % 128) * 2, 0, carry);
        self.f = Flags { zero: r == 0, n: false, h: false, carry };
        r
    }

    pub fn set_slr_flags(&mut self, c: bool, r: u8)
        ensures
            *final(self) == (ProcessingUnit { f: shift_flags(r, c), ..*old(self) }),
    {
        self.f = Flags { zero: r == 0, n: false, h: false, carry: c };
    }

    pub fn sla_8(&mut self, v: u8) -> (r: u8)
        ensures
            r == sla_value(v),
            *final(self) == (ProcessingUnit { f: shift_flags(r, v >= 128), ..*old(self) }),
    {
        let c: bool = v >= 0x80;
        let r: u8 = (v % 128) * 2;
        self.set_slr_flags(c, r);
        r
    }

    pub fn sra_8(&mut self, v: u8) -> (r: u8)
        ensures
            r == sra_value(v),
            *final(self) == (ProcessingUnit { f: shift_flags(r, v % 2 == 1), ..*old(self) }),
    {
        let c: bool = v % 2 == 1;
        let r: u8 = (v / 2) + (if v >= 0x80 {
            0x80
        } else {
            0
        });
        self.set_slr_flags(c, r);
        r
    }

    pub fn srl_8(&mut self, v: u8) -> (r: u8)
        ensures
            r == srl_value(v),
            *final(self) == (ProcessingUnit { f: shift_flags(r, v % 2 == 1), ..*old(self) }),
    {
        let c: bool = v % 2 == 1;
        let r: u8 = v / 2;
        self.set_slr_flags(c, r);
        r
    }

    pub fn xor_a(&mut self, n: u8)
        ensures
            *final(self) == old(self).xor_a_spec(n),
    {
        self.a = self.a ^ n;
        self.reset_and_set_zero(self.a);
    }

    /// Sets the flags of an 8-bit increment that turned `prev` into `new`: Z
    /// from the result, H from the low nibble that it left; the carry is
    /// kept.
    pub fn reset_and_set_carry_zero(&mut self, prev: u8, new: u8)
        ensures
            *final(self) == (ProcessingUnit {
                f: Flags { zero: new == 0, n: false, h: prev % 16 == 15, carry: old(self).f.carry },
                ..*old(self)
            }),
    {
        self.f.zero = new == 0;
        self.f.h = prev % 16 == 15;
        self.f.n = false;
    }

    /// Clears the flags and sets Z when `n` is zero.
    pub fn reset_and_set_zero(&mut self, n: u8)
        ensures
            *final(self) == (ProcessingUnit {
                f: Flags { zero: n == 0, n: false, h: false, carry: false },
                ..*old(self)
            }),
    {
        self.f = Flags::empty();
        self.f.zero = n == 0;
    }

    /// Sets the flags of an 8-bit decrement that turned `prev` into `n`: Z
    /// from the result, H when the high nibble changed; the carry is kept.
    pub fn dec_flags(&mut self, prev: u8, n: u8)
        ensures
            *final(self) == (ProcessingUnit {
                f: Flags { zero: n == 0, n: true, h: prev / 16 != n / 16, carry: old(self).f.carry },
                ..*old(self)
            }),
    {
        self.f.zero = n == 0;
        self.f.n = true;
        self.set_half_carry(prev, n);
    }

    /// Sets H when the step from `prev` to `n` changed the high nibble.
    pub fn set_half_carry(&mut self, prev: u8, n: u8)
        ensures
            *final(self) == (ProcessingUnit {
                f: Flags { h: prev / 16 != n / 16, ..old(self).f },
                ..*old(self)
            }),
    {
        self.f.h = prev / 16 != n / 16;
    }

    pub fn compare_a_with(&mut self, n: u8)
        ensures
            *final(self) == old(self).compare_a_with_spec(n),
    {
        let r: u8 = self.a.wrapping_sub(n);
        self.f = Flags { zero: r == 0, n: true, h: self.a % 16 < n % 16, carry: self.a < n };
    }

    pub fn sub_a(&mut self, n: u8)
        ensures
            *final(self) == old(self).sub_a_spec(n),
    {
        let nn: u8 = self.a.wrapping_sub(n);
        self.f = Flags { zero: nn == 0, n: true, h: self.a % 16 < n % 16, carry: self.a < n };
        self.a = nn;
    }

    pub fn add_a(&mut self, n: u8)
        ensures
            *final(self) == old(self).add_a_spec(n),
    {
        let nn: u8 = self.a.wrapping_add(n);
        self.f = Flags {
            zero: nn == 0,
            n: false,
            h: (self.a % 16) + (n % 16) > 0xf,
            carry: (self.a as u16) + (n as u16) > 0xff,
        };
        self.a = nn;
    }

    pub fn and(&mut self, n: u8)
        ensures
            *final(self) == old(self).and_spec(n),
    {
        self.a = self.a & n;
        self.reset_and_set_zero(self.a);
        self.f.h = true;
    }

    pub fn or(&mut self, n: u8)
        ensures
            *final(self) == old(self).or_spec(n),
    {
        self.a = self.a | n;
        self.reset_and_set_zero(self.a);
    }

    pub fn adc(&mut self, n: u8)
        ensures
            *final(self) == old(self).adc_spec(n),
    {
        let carry: u8 = self.get_carry();
        let r: u8 = self.a.wrapping_add(n).wrapping_add(carry);
        self.f = Flags {
            zero: r == 0,
            n: false,
            h: (self.a % 16) + (n % 16) + carry > 0xf,
            carry: (self.a as u16) + (n as u16) + (carry as u16) > 0xff,
        };
        self.a = r;
    }

    pub fn sbc(&mut self, n: u8)
        ensures
            *final(self) == old(self).sbc_spec(n),
    {
        let carry: u8 = self.get_carry();
        let r: u8 = self.a.wrapping_sub(n).wrapping_sub(carry);
        self.f = Flags {
            zero: r == 0,
            n: true,
            h: (self.a % 16) < (n % 16) + carry,
            carry: (self.a as u16) < (n as u16) + (carry as u16),
        };
        self.a = r;
    }

    /// Tests bit `bit` of `reg`: Z is set when the bit is clear, N is
    /// cleared, H is set and C is kept.
    pub fn bit(bit: usize, reg: u8, flags: &mut Flags)
        requires
            bit < 8,
        ensures
            *final(flags) == (Flags {
                zero: !crate::dmg::bits::bit(reg, bit as nat),
                n: false,
                h: true,
                carry: old(flags).carry,
            }),
    {
        flags.zero = !test_bit(reg, bit);
        flags.n = false;
        flags.h = true;
    }
}


/// The processor together with the bus that it drives.
pub struct Machine {
    pub cpu: ProcessingUnit,
    pub bus: BusView,
}

/// A word moved by `n`, wrapping at both ends.
pub open spec fn wrap16(v: int) -> u16 {
    (v % 65536) as u16
}

impl Machine {
    pub open spec fn read(self, addr: u16) -> u8 {
        self.bus.read(addr)
    }

    pub open spec fn write(self, addr: u16, v: u8) -> Machine {
        Machine { bus: self.bus.write(addr, v), ..self }
    }

    /// The machine with the program counter moved on by `n` bytes.
    pub open spec fn advance(self, n: int) -> Machine {
        Machine { cpu: ProcessingUnit { pc: wrap16(self.cpu.pc + n), ..self.cpu }, ..self }
    }

    pub open spec fn jump(self, pc: u16) -> Machine {
        Machine { cpu: ProcessingUnit { pc, ..self.cpu }, ..self }
    }

    /// The byte at the program counter.
    pub open spec fn imm8(self) -> u8 {
        self.read(self.cpu.pc)
    }

    /// The word at the program counter, low byte first.
    pub open spec fn imm16(self) -> u16 {
        word(self.read(wrap16(self.cpu.pc + 1)), self.read(self.cpu.pc))
    }

    /// The stack grows downwards: a push moves SP down by one and writes
    /// there.
    pub open spec fn push8(self, v: u8) -> Machine {
        let sp = wrap16(self.cpu.sp - 1);
        (Machine { cpu: ProcessingUnit { sp, ..self.cpu }, ..self }).write(sp, v)
    }

    /// A word is pushed high byte first, so that its low byte lies at SP.
    pub open spec fn push16(self, v: u16) -> Machine {
        self.push8(hi(v)).push8(lo(v))
    }

    /// The byte at SP, and the machine with SP moved up by one.
    pub open spec fn pop8(self) -> (u8, Machine) {
        (
            self.read(self.cpu.sp),
            Machine { cpu: ProcessingUnit { sp: wrap16(self.cpu.sp + 1), ..self.cpu }, ..self },
        )
    }

    /// The word at SP, and the machine with SP moved up by two.
    pub open spec fn pop16(self) -> (u16, Machine) {
        let low = self.pop8();
        let high = low.1.pop8();
        (word(high.0, low.0), high.1)
    }

    /// A call pushes the program counter and jumps.
    pub open spec fn call(self, target: u16) -> Machine {
        self.push16(self.cpu.pc).jump(target)
    }

    /// A return pops the program counter.
    pub open spec fn ret(self) -> Machine {
        let popped = self.pop16();
        popped.1.jump(popped.0)
    }

    /// The lines that are both requested and enabled.
    pub open spec fn pending(self) -> u8 {
        self.bus.interrupt_enable.bits & self.bus.ppu.interrupt_flag.bits & 0x1f
    }

    /// Whether the next step services an interrupt.
    pub open spec fn will_dispatch(self) -> bool {
        self.cpu.interrupt_master_enable && self.pending() != 0
    }

    /// Whether the next step fetches an instruction: no interrupt is taken
    /// and the processor is not halted.
    pub open spec fn fetches(self) -> bool {
        !self.will_dispatch() && !self.cpu.halted
    }

    /// The machine after an interrupt is taken: the master enable and the
    /// halt are cleared, the request of the line that has priority is
    /// withdrawn, and its handler is called.
    pub open spec fn dispatch(self) -> Machine {
        let line = InterruptFlag::first_raised(self.pending());
        let target = match InterruptFlag::vector(self.pending()) {
            Some(v) => v,
            None => 0u16,
        };
        (Machine {
            cpu: ProcessingUnit { interrupt_master_enable: false, halted: false, ..self.cpu },
            bus: BusView {
                ppu: crate::dmg::gpu::GPU {
                    interrupt_flag: InterruptFlag {
                        bits: self.bus.ppu.interrupt_flag.bits & !line,
                    },
                    ..self.bus.ppu
                },
                ..self.bus
            },
        }).call(target)
    }
}

impl ProcessingUnit {
    /// The processor on a bus.
    pub open spec fn on(self, bus: BusView) -> Machine {
        Machine { cpu: self, bus }
    }

    pub fn read_byte(&self, bus: &MemoryBus, addr: u16) -> (r: u8)
        ensures
            r == bus@.read(addr),
    {
        bus.read_byte(addr)
    }

    pub fn write_byte(&mut self, bus: &mut MemoryBus, addr: u16, value: u8)
        ensures
            final(bus)@.ppu.phase() == old(bus)@.ppu.phase(),
            final(self).on(final(bus)@) == old(self).on(old(bus)@).write(addr, value),
    {
        bus.write_byte(addr, value);
    }

    pub fn get_immediate_u8(&mut self, bus: &MemoryBus) -> (r: u8)
        ensures
            r == old(self).on(bus@).imm8(),
            final(self).on(bus@) == old(self).on(bus@).advance(1),
    {
        let v: u8 = self.read_byte(bus, self.pc);
        self.pc = self.pc.wrapping_add(1);
        v
    }

    /// Fetches the byte of a signed offset.
    pub fn get_immediate_i8(&mut self, bus: &MemoryBus) -> (r: u8)
        ensures
            r == old(self).on(bus@).imm8(),
            final(self).on(bus@) == old(self).on(bus@).advance(1),
    {
        self.get_immediate_u8(bus)
    }

    pub fn get_immediate_u16(&mut self, bus: &MemoryBus) -> (r: u16)
        ensures
            r == old(self).on(bus@).imm16(),
            final(self).on(bus@) == old(self).on(bus@).advance(2),
    {
        let msb: u8 = self.read_byte(bus, self.pc.wrapping_add(1));
        let lsb: u8 = self.read_byte(bus, self.pc);
        self.pc = self.pc.wrapping_add(2);
        (msb as u16) * 256 + (lsb as u16)
    }

    /// LD (HL), n.
    pub fn ld_hl(&mut self, n: u8, bus: &mut MemoryBus)
        ensures
            final(bus)@.ppu.phase() == old(bus)@.ppu.phase(),
            final(self).on(final(bus)@) == old(self).on(old(bus)@).write(old(self).hl(), n),
    {
        let hl: u16 = self.get_hl();
        self.write_byte(bus, hl, n);
    }

    /// LD A, (HL+).
    pub fn lda_hli(&mut self, bus: &MemoryBus)
        ensures
            *final(self) == (ProcessingUnit {
                a: bus@.read(old(self).hl()),
                ..old(self).with_hl(wrap16(old(self).hl() + 1))
            }),
    {
        let hl: u16 = self.hli();
        self.a = self.read_byte(bus, hl);
    }

    /// LD (HL+), A.
    pub fn ldi_hla(&mut self, bus: &mut MemoryBus)
        ensures
            final(bus)@.ppu.phase() == old(bus)@.ppu.phase(),
            final(self).on(final(bus)@) == (Machine {
                cpu: old(self).with_hl(wrap16(old(self).hl() + 1)),
                bus: old(bus)@.write(old(self).hl(), old(self).a),
            }),
    {
        self.ld_hl(self.a, bus);
        self.hli();
    }

    pub fn push_u8(&mut self, n: u8, bus: &mut MemoryBus)
        ensures
            final(bus)@.ppu.phase() == old(bus)@.ppu.phase(),
            final(self).on(final(bus)@) == old(self).on(old(bus)@).push8(n),
    {
        self.sp = self.sp.wrapping_sub(1);
        let sp: u16 = self.sp;
        self.write_byte(bus, sp, n);
    }

    pub fn push_u16(&mut self, n: u16, bus: &mut MemoryBus)
        ensures
            final(bus)@.ppu.phase() == old(bus)@.ppu.phase(),
            final(self).on(final(bus)@) == old(self).on(old(bus)@).push16(n),
    {
        let (n_msb, n_lsb) = Self::get_bits(n);
        self.push_u8(n_msb, bus);
        self.push_u8(n_lsb, bus);
    }

    pub fn read_sp_u8(&mut self, bus: &MemoryBus) -> (r: u8)
        ensures
            (r, final(self).on(bus@)) == old(self).on(bus@).pop8(),
    {
        let x: u8 = self.read_byte(bus, self.sp);
        self.sp = self.sp.wrapping_add(1);
        x
    }

    pub fn read_sp_u16(&mut self, bus: &MemoryBus) -> (r: u16)
        ensures
            (r, final(self).on(bus@)) == old(self).on(bus@).pop16(),
    {
        let lsb: u8 = self.read_sp_u8(bus);
        let msb: u8 = self.read_sp_u8(bus);
        (msb as u16) * 256 + (lsb as u16)
    }

    pub fn ret(&mut self, bus: &MemoryBus)
        ensures
            final(self).on(bus@) == old(self).on(bus@).ret(),
    {
        let nn: u16 = self.read_sp_u16(bus);
        self.pc = nn;
    }

    pub fn call(&mut self, nn: u16, bus: &mut MemoryBus)
        ensures
            final(bus)@.ppu.phase() == old(bus)@.ppu.phase(),
            final(self).on(final(bus)@) == old(self).on(old(bus)@).call(nn),
    {
        let pc: u16 = self.pc;
        self.push_u16(pc, bus);
        self.pc = nn;
    }

    pub fn rst(&mut self, addr: u16, bus: &mut MemoryBus)
        ensures
            final(bus)@.ppu.phase() == old(bus)@.ppu.phase(),
            final(self).on(final(bus)@) == old(self).on(old(bus)@).call(addr),
    {
        let pc: u16 = self.pc;
        self.push_u16(pc, bus);
        self.pc = addr;
    }

    /// Tells whether the next step fetches an instruction.
    pub fn fetches_next(&self, bus: &MemoryBus) -> (r: bool)
        ensures
            r == self.on(bus@).fetches(),
    {
        !(self.interrupt_master_enable && bus.check_interrupt()) && !self.halted
    }

    /// Services the interrupt that has priority, if the master enable is set
    /// and a line is both requested and enabled, and tells whether it did.
    pub fn check_and_execute_interrupts(&mut self, bus: &mut MemoryBus) -> (r: bool)
        ensures
            final(bus)@.ppu.phase() == old(bus)@.ppu.phase(),
            r == old(self).on(old(bus)@).will_dispatch(),
            final(self).on(final(bus)@) == if r {
                old(self).on(old(bus)@).dispatch()
            } else {
                old(self).on(old(bus)@)
            },
    {
        let pending: InterruptFlag = InterruptFlag {
            bits: bus.interrupt_enable.bits & bus.ppu.interrupt_flag.bits & 0x1f,
        };
        if self.interrupt_master_enable && pending.bits != 0 {
            let addr: u16 = match pending.interrupt_starting_address() {
                Some(a) => a,
                None => 0,
            };
            self.halted = false;
            self.interrupt_master_enable = false;
            let triggered: InterruptFlag = pending.highest_prio_bit();
            bus.ppu.interrupt_flag.remove(triggered.bits);
            self.call(addr, bus);
            return true;
        }
        false
    }
}

} // verus!
