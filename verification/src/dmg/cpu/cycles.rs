//! The clock cost of every instruction.
use vstd::prelude::*;

verus! {

/// The two bits that select the row of the instruction map.
pub open spec fn op_x(op: u8) -> int {
    op as int / 64
}

/// The three bits that select a target register, an operation or a
/// condition.
pub open spec fn op_y(op: u8) -> int {
    (op as int / 8) % 8
}

/// The three bits that select a source register or a column of the map.
pub open spec fn op_z(op: u8) -> int {
    op as int % 8
}

/// The clocks of a first-page instruction: the cost when a conditional jump,
/// call or return is not taken, and the cost when it is. Register 6 stands
/// for the byte at HL and costs a memory access more.
pub open spec fn op_cycles(op: u8) -> (u32, u32) {
    let x = op_x(op);
    let y = op_y(op);
    let z = op_z(op);
    if x == 0 {
        if z == 0 {
            if y == 0 || y == 2 {
                (4, 4)
            } else if y == 1 {
                (20, 20)
            } else if y == 3 {
                (12, 12)
            } else {
                (8, 12)
            }
        } else if z == 1 {
            if y % 2 == 0 {
                (12, 12)
            } else {
                (8, 8)
            }
        } else if z == 2 || z == 3 {
            (8, 8)
        } else if z == 4 || z == 5 {
            if y == 6 {
                (12, 12)
            } else {
                (4, 4)
            }
        } else if z == 6 {
            if y == 6 {
                (12, 12)
            } else {
                (8, 8)
            }
        } else {
            (4, 4)
        }
    } else if x == 1 {
        if op == 0x76 {
            (4, 4)
        } else if z == 6 || y == 6 {
            (8, 8)
        } else {
            (4, 4)
        }
    } else if x == 2 {
        if z == 6 {
            (8, 8)
        } else {
            (4, 4)
        }
    } else if z == 0 {
        if y < 4 {
            (8, 20)
        } else if y == 5 {
            (16, 16)
        } else {
            (12, 12)
        }
    } else if z == 1 {
        if y % 2 == 0 {
            (12, 12)
        } else if y == 1 || y == 3 {
            (16, 16)
        } else if y == 5 {
            (4, 4)
        } else {
            (8, 8)
        }
    } else if z == 2 {
        if y < 4 {
            (12, 16)
        } else if y == 4 || y == 6 {
            (8, 8)
        } else {
            (16, 16)
        }
    } else if z == 3 {
        if y == 0 {
            (16, 16)
        } else {
            (4, 4)
        }
    } else if z == 4 {
        if y < 4 {
            (12, 24)
        } else {
            (4, 4)
        }
    } else if z == 5 {
        if y % 2 == 0 {
            (16, 16)
        } else if y == 1 {
            (24, 24)
        } else {
            (4, 4)
        }
    } else if z == 6 {
        (8, 8)
    } else {
        (16, 16)
    }
}

/// The clocks of a second-page instruction, prefix included: 8 on a
/// register; on the byte at HL 12 for a bit test and 16 for the rest.
pub open spec fn cb_cycles(op: u8) -> u32 {
    if op_z(op) == 6 {
        if op_x(op) == 1 {
            12
        } else {
            16
        }
    } else {
        8
    }
}

/// Looks the clocks of a first-page instruction up, not taken and taken.
pub fn lookup_op_code(op: u8) -> (r: (u32, u32))
    ensures
        r == op_cycles(op),
{
    match op {
        0x08 => (20, 20),
        0xCD => (24, 24),
        0x20 | 0x28 | 0x30 | 0x38 => (8, 12),
        0xC0 | 0xC8 | 0xD0 | 0xD8 => (8, 20),
        0xC2 | 0xCA | 0xD2 | 0xDA => (12, 16),
        0xC4 | 0xCC | 0xD4 | 0xDC => (12, 24),
        0x01 | 0x11 | 0x18 | 0x21 | 0x31 | 0x34 | 0x35 | 0x36 | 0xC1 | 0xD1 | 0xE0 | 0xE1
            | 0xF0 | 0xF1 | 0xF8 => (12, 12),
        0xC3 | 0xC5 | 0xC7 | 0xC9 | 0xCF | 0xD5 | 0xD7 | 0xD9 | 0xDF | 0xE5 | 0xE7 | 0xE8
            | 0xEA | 0xEF | 0xF5 | 0xF7 | 0xFA | 0xFF => (16, 16),
        0x02 | 0x03 | 0x06 | 0x09 | 0x0A | 0x0B | 0x0E | 0x12 | 0x13 | 0x16 | 0x19 | 0x1A
            | 0x1B | 0x1E | 0x22 | 0x23 | 0x26 | 0x29 | 0x2A | 0x2B | 0x2E | 0x32 | 0x33 | 0x39
            | 0x3A | 0x3B | 0x3E | 0x46 | 0x4E | 0x56 | 0x5E | 0x66 | 0x6E | 0x70 | 0x71 | 0x72
            | 0x73 | 0x74 | 0x75 | 0x77 | 0x7E | 0x86 | 0x8E | 0x96 | 0x9E | 0xA6 | 0xAE | 0xB6
            | 0xBE | 0xC6 | 0xCE | 0xD6 | 0xDE | 0xE2 | 0xE6 | 0xEE | 0xF2 | 0xF6 | 0xF9 | 0xFE => (8, 8),
        _ => (4, 4),
    }
}

/// Looks the clocks of a second-page instruction up.
pub fn lookup_cb_prefix_op_code(op: u8) -> (r: u32)
    ensures
        r == cb_cycles(op),
{
    match op {
        0x46 | 0x4E | 0x56 | 0x5E | 0x66 | 0x6E | 0x76 | 0x7E => 12,
        0x06 | 0x0E | 0x16 | 0x1E | 0x26 | 0x2E | 0x36 | 0x3E | 0x86 | 0x8E | 0x96 | 0x9E
            | 0xA6 | 0xAE | 0xB6 | 0xBE | 0xC6 | 0xCE | 0xD6 | 0xDE | 0xE6 | 0xEE | 0xF6 | 0xFE => 16,
        _ => 8,
    }
}

/// Every instruction costs 4, 8, 12, 16, 20 or 24 clocks, and taking a
/// branch never costs less than passing it.
pub proof fn lemma_cycle_values(op: u8)
    ensures
        op_cycles(op).0 % 4 == 0 && 4 <= op_cycles(op).0 <= op_cycles(op).1 <= 24,
        op_cycles(op).1 % 4 == 0,
        cb_cycles(op) == 8 || cb_cycles(op) == 12 || cb_cycles(op) == 16,
{
}

} // verus!
