use dmg::dmg::console::Core;
use dmg::dmg::cpu::cycles::{lookup_cb_prefix_op_code, lookup_op_code};
use dmg::dmg::cpu::Flags;

fn machine_with(program: &[u8]) -> Core {
    let mut rom = vec![0u8; 0x8000];
    rom[0x100..0x100 + program.len()].copy_from_slice(program);
    Core::load_without_boot_rom(Some(rom)).unwrap()
}

fn run(core: &mut Core, steps: usize) -> u32 {
    let mut total = 0;
    for _ in 0..steps {
        total += core.cpu.next(&mut core.bus);
    }
    total
}

#[test]
fn ld_hl_sp_plus_offset() {
    let mut core = machine_with(&[0x31, 0xf8, 0xff, 0xf8, 0x02]);
    assert_eq!(run(&mut core, 2), 12 + 12);
    assert_eq!(core.cpu.get_hl(), 0xfffa);
    assert_eq!(core.cpu.sp, 0xfff8);
    assert_eq!(core.cpu.f.bits(), 0x00);
    assert_eq!(core.cpu.pc, 0x105);
}

#[test]
fn add_sp_negative_offset() {
    let mut core = machine_with(&[0x31, 0x00, 0xd0, 0xe8, 0xff]);
    assert_eq!(run(&mut core, 2), 12 + 16);
    assert_eq!(core.cpu.sp, 0xcfff);
    assert_eq!(core.cpu.f.bits(), 0x00);
}

#[test]
fn add_hl_bc_by_opcode() {
    let mut core = machine_with(&[0x21, 0x23, 0x8a, 0x01, 0x05, 0x06, 0x09]);
    core.cpu.f = Flags::empty();
    assert_eq!(run(&mut core, 3), 12 + 12 + 8);
    assert_eq!(core.cpu.get_hl(), 0x9028);
    assert_eq!(core.cpu.f.bits(), 0x20);
}

#[test]
fn add_hl_hl_by_opcode() {
    let mut core = machine_with(&[0x21, 0x23, 0x8a, 0x29]);
    core.cpu.f = Flags::empty();
    run(&mut core, 2);
    assert_eq!(core.cpu.get_hl(), 0x1446);
    assert_eq!(core.cpu.f.bits(), 0x30);
}

#[test]
fn cp_immediate_by_opcode() {
    let mut core = machine_with(&[0x3e, 0x3c, 0xfe, 0x40, 0xbf]);
    assert_eq!(run(&mut core, 2), 8 + 8);
    assert_eq!(core.cpu.a, 0x3c);
    assert_eq!(core.cpu.f.bits(), 0x50);
    assert_eq!(run(&mut core, 1), 4);
    assert_eq!(core.cpu.f.bits(), 0xc0);
}

#[test]
fn push_then_pop_restores_the_pair() {
    // LD BC,0x1234; PUSH BC; LD BC,0; POP BC
    let mut core = machine_with(&[0x01, 0x34, 0x12, 0xc5, 0x01, 0x00, 0x00, 0xc1]);
    let sp = core.cpu.sp;
    assert_eq!(run(&mut core, 2), 12 + 16);
    assert_eq!(core.cpu.sp, sp - 2);
    assert_eq!(core.bus.read_byte(sp - 1), 0x12);
    assert_eq!(core.bus.read_byte(sp - 2), 0x34);
    assert_eq!(run(&mut core, 2), 12 + 12);
    assert_eq!(core.cpu.get_bc(), 0x1234);
    assert_eq!(core.cpu.sp, sp);
}

#[test]
fn pop_af_drops_the_low_nibble() {
    // LD BC,0x12ff; PUSH BC; POP AF
    let mut core = machine_with(&[0x01, 0xff, 0x12, 0xc5, 0xf1]);
    run(&mut core, 3);
    assert_eq!(core.cpu.get_af(), 0x12f0);
    assert_eq!(core.cpu.f.bits() & 0x0f, 0);
}

#[test]
fn every_step_leaves_the_low_nibble_of_f_clear() {
    // JP 0x0150, and from there every opcode once, clear of the header
    let mut program = vec![0u8; 0x50];
    program[..3].copy_from_slice(&[0xc3, 0x50, 0x01]);
    for op in 0..=255u8 {
        if op == 0x76 || op == 0x10 || op == 0xcb {
            continue;
        }
        program.push(op);
    }
    let mut core = machine_with(&program);
    for _ in 0..400 {
        core.cpu.next(&mut core.bus);
        assert_eq!(core.cpu.get_af() & 0x000f, 0);
    }
}

#[test]
fn jr_jumps_backwards_and_forwards() {
    // 0x100: JR +2; 0x102: NOP NOP; 0x104: JR -4 (to 0x102)
    let mut core = machine_with(&[0x18, 0x02, 0x00, 0x00, 0x18, 0xfc]);
    assert_eq!(run(&mut core, 1), 12);
    assert_eq!(core.cpu.pc, 0x104);
    assert_eq!(run(&mut core, 1), 12);
    assert_eq!(core.cpu.pc, 0x102);
}

#[test]
fn conditional_branches_cost_more_when_taken() {
    // XOR A (Z=1); JR NZ,+5 (not taken, 8); JR Z,+1 (taken, 12); NOP; JP NZ (12); JP Z,0x0150 (16)
    let mut core = machine_with(&[
        0xaf, 0x20, 0x05, 0x28, 0x01, 0x00, 0xc2, 0x00, 0x02, 0xca, 0x50, 0x01,
    ]);
    assert_eq!(run(&mut core, 1), 4);
    assert_eq!(run(&mut core, 1), 8);
    assert_eq!(core.cpu.pc, 0x103);
    assert_eq!(run(&mut core, 1), 12);
    assert_eq!(core.cpu.pc, 0x106);
    assert_eq!(run(&mut core, 1), 12);
    assert_eq!(core.cpu.pc, 0x109);
    assert_eq!(run(&mut core, 1), 16);
    assert_eq!(core.cpu.pc, 0x150);
}

#[test]
fn call_and_ret_use_the_stack() {
    // 0x100: CALL 0x0110 ... 0x110: RET
    let mut program = vec![0u8; 0x20];
    program[0] = 0xcd;
    program[1] = 0x10;
    program[2] = 0x01;
    program[0x10] = 0xc9;
    let mut core = machine_with(&program);
    assert_eq!(run(&mut core, 1), 24);
    assert_eq!(core.cpu.pc, 0x110);
    assert_eq!(core.cpu.sp, 0xfffc);
    assert_eq!(core.bus.read_byte(0xfffd), 0x01);
    assert_eq!(core.bus.read_byte(0xfffc), 0x03);
    assert_eq!(run(&mut core, 1), 16);
    assert_eq!(core.cpu.pc, 0x103);
    assert_eq!(core.cpu.sp, 0xfffe);
}

#[test]
fn conditional_call_and_ret_costs() {
    // XOR A; CALL NZ (12); CALL Z,0x0110 (24); at 0x110: RET NZ (8); RET Z (20)
    let mut program = vec![0u8; 0x20];
    program[0] = 0xaf;
    program[1] = 0xc4;
    program[2] = 0x10;
    program[3] = 0x01;
    program[4] = 0xcc;
    program[5] = 0x10;
    program[6] = 0x01;
    program[0x10] = 0xc0;
    program[0x11] = 0xc8;
    let mut core = machine_with(&program);
    run(&mut core, 1);
    assert_eq!(run(&mut core, 1), 12);
    assert_eq!(core.cpu.pc, 0x104);
    assert_eq!(run(&mut core, 1), 24);
    assert_eq!(core.cpu.pc, 0x110);
    assert_eq!(run(&mut core, 1), 8);
    assert_eq!(run(&mut core, 1), 20);
    assert_eq!(core.cpu.pc, 0x107);
}

#[test]
fn rst_calls_its_vector() {
    let mut core = machine_with(&[0xef]);
    assert_eq!(run(&mut core, 1), 16);
    assert_eq!(core.cpu.pc, 0x28);
    assert_eq!(core.bus.read_byte(0xfffc), 0x01);
    assert_eq!(core.bus.read_byte(0xfffd), 0x01);
}

#[test]
fn loads_through_hl_and_high_memory() {
    // LD HL,0xC000; LD (HL),0x5A; LD B,(HL); INC (HL); LD A,(HL+); LDH (0x80),A; LD C,0x80; LD A,(C)
    let mut core = machine_with(&[
        0x21, 0x00, 0xc0, 0x36, 0x5a, 0x46, 0x34, 0x2a, 0xe0, 0x80, 0x0e, 0x80, 0xaf, 0xf2,
    ]);
    assert_eq!(run(&mut core, 2), 12 + 12);
    assert_eq!(core.bus.read_byte(0xc000), 0x5a);
    assert_eq!(run(&mut core, 1), 8);
    assert_eq!(core.cpu.b, 0x5a);
    assert_eq!(run(&mut core, 1), 12);
    assert_eq!(core.bus.read_byte(0xc000), 0x5b);
    assert_eq!(run(&mut core, 1), 8);
    assert_eq!(core.cpu.a, 0x5b);
    assert_eq!(core.cpu.get_hl(), 0xc001);
    assert_eq!(run(&mut core, 1), 12);
    assert_eq!(core.bus.read_byte(0xff80), 0x5b);
    assert_eq!(run(&mut core, 2), 8 + 4);
    assert_eq!(core.cpu.a, 0x00);
    assert_eq!(run(&mut core, 1), 8);
    assert_eq!(core.cpu.a, 0x5b);
}

#[test]
fn ld_nn_sp_stores_low_byte_first() {
    let mut core = machine_with(&[0x08, 0x00, 0xc1]);
    assert_eq!(run(&mut core, 1), 20);
    assert_eq!(core.bus.read_byte(0xc100), 0xfe);
    assert_eq!(core.bus.read_byte(0xc101), 0xff);
}

#[test]
fn inc_and_dec_keep_the_carry() {
    // SCF; LD B,0x0F; INC B; LD C,0x01; DEC C; LD D,0x10; DEC D; LD E,0xFF; INC E
    let mut core = machine_with(&[
        0x37, 0x06, 0x0f, 0x04, 0x0e, 0x01, 0x0d, 0x16, 0x10, 0x15, 0x1e, 0xff, 0x1c,
    ]);
    run(&mut core, 3);
    assert_eq!(core.cpu.b, 0x10);
    assert_eq!(core.cpu.f.bits(), 0x30);
    run(&mut core, 2);
    assert_eq!(core.cpu.c, 0x00);
    assert_eq!(core.cpu.f.bits(), 0xd0);
    run(&mut core, 2);
    assert_eq!(core.cpu.d, 0x0f);
    assert_eq!(core.cpu.f.bits(), 0x70);
    run(&mut core, 2);
    assert_eq!(core.cpu.e, 0x00);
    assert_eq!(core.cpu.f.bits(), 0xb0);
}

#[test]
fn sixteen_bit_inc_and_dec_wrap_without_flags() {
    // LD BC,0xFFFF; INC BC; DEC BC; LD SP,0x0000; DEC SP
    let mut core = machine_with(&[0x01, 0xff, 0xff, 0x03, 0x0b, 0x31, 0x00, 0x00, 0x3b]);
    let flags = core.cpu.f.bits();
    assert_eq!(run(&mut core, 2), 12 + 8);
    assert_eq!(core.cpu.get_bc(), 0x0000);
    assert_eq!(run(&mut core, 1), 8);
    assert_eq!(core.cpu.get_bc(), 0xffff);
    run(&mut core, 2);
    assert_eq!(core.cpu.sp, 0xffff);
    assert_eq!(core.cpu.f.bits(), flags);
}

#[test]
fn accumulator_rotates_clear_zero() {
    // XOR A; RLCA; LD A,0x80; RLA; CPL; SCF; CCF
    let mut core = machine_with(&[0xaf, 0x07, 0x3e, 0x80, 0x17, 0x2f, 0x37, 0x3f]);
    run(&mut core, 2);
    assert_eq!(core.cpu.a, 0x00);
    assert_eq!(core.cpu.f.bits(), 0x00);
    run(&mut core, 2);
    assert_eq!(core.cpu.a, 0x00);
    assert_eq!(core.cpu.f.bits(), 0x10);
    run(&mut core, 1);
    assert_eq!(core.cpu.a, 0xff);
    assert_eq!(core.cpu.f.bits(), 0x70);
    run(&mut core, 1);
    assert_eq!(core.cpu.f.bits(), 0x10);
    run(&mut core, 1);
    assert_eq!(core.cpu.f.bits(), 0x00);
}

#[test]
fn second_page_bit_operations() {
    // LD HL,0xC000; LD (HL),0x01; SET 7,(HL); RES 0,(HL); BIT 7,(HL); BIT 0,(HL); SWAP (HL); LD B,0x81; RLC B; SRL B
    let mut core = machine_with(&[
        0x21, 0x00, 0xc0, 0x36, 0x01, 0xcb, 0xfe, 0xcb, 0x86, 0xcb, 0x7e, 0xcb, 0x46, 0xcb,
        0x36, 0x06, 0x81, 0xcb, 0x00, 0xcb, 0x38,
    ]);
    run(&mut core, 2);
    core.cpu.f = Flags::empty();
    assert_eq!(run(&mut core, 1), 16);
    assert_eq!(core.bus.read_byte(0xc000), 0x81);
    assert_eq!(run(&mut core, 1), 16);
    assert_eq!(core.bus.read_byte(0xc000), 0x80);
    assert_eq!(core.cpu.f.bits(), 0x00);
    assert_eq!(run(&mut core, 1), 12);
    assert_eq!(core.cpu.f.bits(), 0x20);
    assert_eq!(run(&mut core, 1), 12);
    assert_eq!(core.cpu.f.bits(), 0xa0);
    assert_eq!(run(&mut core, 1), 16);
    assert_eq!(core.bus.read_byte(0xc000), 0x08);
    assert_eq!(core.cpu.f.bits(), 0x00);
    assert_eq!(run(&mut core, 2), 8 + 8);
    assert_eq!(core.cpu.b, 0x03);
    assert_eq!(core.cpu.f.bits(), 0x10);
    assert_eq!(run(&mut core, 1), 8);
    assert_eq!(core.cpu.b, 0x01);
    assert_eq!(core.cpu.f.bits(), 0x10);
    assert_eq!(core.cpu.pc, 0x115);
}

#[test]
fn interrupt_priority() {
    let mut core = machine_with(&[0x00]);
    core.cpu.interrupt_master_enable = true;
    core.cpu.pc = 0x1234;
    core.bus.write_byte(0xffff, 0x1f);
    core.bus.write_byte(0xff0f, 0x1f);
    assert_eq!(run(&mut core, 1), 20);
    assert_eq!(core.bus.read_byte(0xff0f), 0x1e);
    assert_eq!(core.bus.read_byte(0xffff), 0x1f);
    assert_eq!(core.cpu.pc, 0x0040);
    assert!(!core.cpu.interrupt_master_enable);
    assert_eq!(core.cpu.sp, 0xfffc);
    assert_eq!(core.bus.read_byte(0xfffd), 0x12);
    assert_eq!(core.bus.read_byte(0xfffc), 0x34);
}

#[test]
fn only_enabled_requests_are_serviced() {
    let mut core = machine_with(&[0x00, 0x00]);
    core.cpu.interrupt_master_enable = true;
    core.bus.write_byte(0xffff, 0x14);
    core.bus.write_byte(0xff0f, 0x07);
    assert_eq!(run(&mut core, 1), 20);
    assert_eq!(core.cpu.pc, 0x0050);
    assert_eq!(core.bus.read_byte(0xff0f), 0x03);
    // Nothing else is both requested and enabled: the next step runs code.
    core.cpu.interrupt_master_enable = true;
    core.cpu.pc = 0x100;
    assert_eq!(run(&mut core, 1), 4);
    assert_eq!(core.cpu.pc, 0x101);
    assert_eq!(core.bus.read_byte(0xff0f), 0x03);
}

#[test]
fn requests_wait_while_the_master_enable_is_off() {
    // DI; NOP; EI; NOP
    let mut core = machine_with(&[0xf3, 0x00, 0xfb, 0x00]);
    core.bus.write_byte(0xffff, 0x01);
    core.bus.write_byte(0xff0f, 0x01);
    assert_eq!(run(&mut core, 2), 8);
    assert_eq!(core.cpu.pc, 0x102);
    assert_eq!(run(&mut core, 1), 4);
    assert!(core.cpu.interrupt_master_enable);
    assert_eq!(run(&mut core, 1), 20);
    assert_eq!(core.cpu.pc, 0x0040);
    assert_eq!(core.bus.read_byte(0xfffc), 0x03);
}

#[test]
fn halt_idles_until_a_request_is_pending() {
    // HALT; INC A
    let mut core = machine_with(&[0x76, 0x3c]);
    let a = core.cpu.a;
    assert_eq!(run(&mut core, 1), 4);
    assert!(core.cpu.halted);
    assert_eq!(run(&mut core, 3), 12);
    assert!(core.cpu.halted);
    assert_eq!(core.cpu.pc, 0x101);
    core.bus.write_byte(0xffff, 0x04);
    core.bus.write_byte(0xff0f, 0x04);
    // The master enable is off: the processor wakes without servicing.
    assert_eq!(run(&mut core, 1), 4);
    assert!(!core.cpu.halted);
    assert_eq!(core.bus.read_byte(0xff0f), 0x04);
    assert_eq!(core.cpu.a, a);
    assert_eq!(run(&mut core, 1), 4);
    assert_eq!(core.cpu.a, a + 1);
}

#[test]
fn halted_processor_is_woken_by_dispatch() {
    let mut core = machine_with(&[0x76]);
    core.cpu.interrupt_master_enable = true;
    run(&mut core, 1);
    assert!(core.cpu.halted);
    core.bus.write_byte(0xffff, 0x10);
    core.bus.write_byte(0xff0f, 0x10);
    assert_eq!(run(&mut core, 1), 20);
    assert!(!core.cpu.halted);
    assert_eq!(core.cpu.pc, 0x0060);
    assert_eq!(core.bus.read_byte(0xff0f), 0x00);
}

#[test]
fn reti_returns_and_enables() {
    let mut program = vec![0u8; 0x20];
    program[0] = 0xcd;
    program[1] = 0x10;
    program[2] = 0x01;
    program[0x10] = 0xd9;
    let mut core = machine_with(&program);
    run(&mut core, 1);
    assert!(!core.cpu.interrupt_master_enable);
    assert_eq!(run(&mut core, 1), 16);
    assert_eq!(core.cpu.pc, 0x103);
    assert!(core.cpu.interrupt_master_enable);
}

#[test]
fn opcodes_without_an_instruction_pass_as_nop() {
    for op in [0xd3u8, 0xdb, 0xdd, 0xe3, 0xe4, 0xeb, 0xec, 0xed, 0xf4, 0xfc, 0xfd] {
        let mut core = machine_with(&[op]);
        let before = core.cpu;
        assert_eq!(run(&mut core, 1), 4);
        assert_eq!(core.cpu.pc, 0x101);
        assert_eq!(core.cpu.get_af(), before.get_af());
        assert_eq!(core.cpu.get_bc(), before.get_bc());
        assert_eq!(core.cpu.sp, before.sp);
    }
}

#[test]
fn stop_is_a_nop() {
    let mut core = machine_with(&[0x10, 0x3c]);
    assert_eq!(run(&mut core, 1), 4);
    assert_eq!(core.cpu.pc, 0x101);
    assert!(!core.cpu.halted);
}

#[test]
fn cycle_table_values() {
    assert_eq!(lookup_op_code(0x00), (4, 4));
    assert_eq!(lookup_op_code(0x01), (12, 12));
    assert_eq!(lookup_op_code(0x08), (20, 20));
    assert_eq!(lookup_op_code(0x18), (12, 12));
    assert_eq!(lookup_op_code(0x20), (8, 12));
    assert_eq!(lookup_op_code(0x34), (12, 12));
    assert_eq!(lookup_op_code(0x36), (12, 12));
    assert_eq!(lookup_op_code(0x46), (8, 8));
    assert_eq!(lookup_op_code(0x70), (8, 8));
    assert_eq!(lookup_op_code(0x76), (4, 4));
    assert_eq!(lookup_op_code(0x86), (8, 8));
    assert_eq!(lookup_op_code(0xc0), (8, 20));
    assert_eq!(lookup_op_code(0xc1), (12, 12));
    assert_eq!(lookup_op_code(0xc2), (12, 16));
    assert_eq!(lookup_op_code(0xc3), (16, 16));
    assert_eq!(lookup_op_code(0xc4), (12, 24));
    assert_eq!(lookup_op_code(0xc5), (16, 16));
    assert_eq!(lookup_op_code(0xc9), (16, 16));
    assert_eq!(lookup_op_code(0xcd), (24, 24));
    assert_eq!(lookup_op_code(0xe0), (12, 12));
    assert_eq!(lookup_op_code(0xe2), (8, 8));
    assert_eq!(lookup_op_code(0xe8), (16, 16));
    assert_eq!(lookup_op_code(0xe9), (4, 4));
    assert_eq!(lookup_op_code(0xea), (16, 16));
    assert_eq!(lookup_op_code(0xf8), (12, 12));
    assert_eq!(lookup_op_code(0xf9), (8, 8));
    assert_eq!(lookup_op_code(0xff), (16, 16));
    assert_eq!(lookup_cb_prefix_op_code(0x00), 8);
    assert_eq!(lookup_cb_prefix_op_code(0x06), 16);
    assert_eq!(lookup_cb_prefix_op_code(0x46), 12);
    assert_eq!(lookup_cb_prefix_op_code(0x7e), 12);
    assert_eq!(lookup_cb_prefix_op_code(0x86), 16);
    assert_eq!(lookup_cb_prefix_op_code(0xfe), 16);
    assert_eq!(lookup_cb_prefix_op_code(0xff), 8);
}

#[test]
fn every_step_costs_a_multiple_of_four_up_to_24() {
    for op in 0..=255u8 {
        let (short, long) = lookup_op_code(op);
        assert!(short % 4 == 0 && short >= 4 && short <= long && long <= 24);
        let second = lookup_cb_prefix_op_code(op);
        assert!(second == 8 || second == 12 || second == 16);
    }
}

#[test]
fn a_step_fetches_unless_it_dispatches_or_idles() {
    // HALT
    let mut core = machine_with(&[0x76, 0x00]);
    assert!(core.cpu.fetches_next(&core.bus));
    run(&mut core, 1);
    assert!(core.cpu.halted);
    assert!(!core.cpu.fetches_next(&core.bus));
    core.bus.write_byte(0xffff, 0x01);
    core.bus.write_byte(0xff0f, 0x01);
    // pending, master enable off: the next step only wakes the processor
    assert!(!core.cpu.fetches_next(&core.bus));
    run(&mut core, 1);
    assert!(core.cpu.fetches_next(&core.bus));
    core.cpu.interrupt_master_enable = true;
    assert!(!core.cpu.fetches_next(&core.bus));
    core.bus.write_byte(0xffff, 0x02);
    assert!(core.cpu.fetches_next(&core.bus));
}

#[test]
fn pop_reads_what_push_left_after_the_registers_changed() {
    // PUSH AF; PUSH HL; then every register is overwritten; POP HL; POP AF
    let mut core = machine_with(&[0xf5, 0xe5, 0xe1, 0xf1]);
    core.cpu.sp = 0xd000;
    core.cpu.a = 0x9c;
    core.cpu.f = Flags::from_bits_truncate(0x50);
    core.cpu.set_hl(0xbeef);
    assert_eq!(run(&mut core, 2), 16 + 16);
    assert_eq!(core.cpu.sp, 0xcffc);
    core.cpu.a = 0;
    core.cpu.f = Flags::empty();
    core.cpu.set_hl(0);
    core.cpu.set_bc(0x1111);
    core.cpu.set_de(0x2222);
    assert_eq!(run(&mut core, 1), 12);
    assert_eq!(core.cpu.get_hl(), 0xbeef);
    assert_eq!(core.cpu.get_af(), 0x0000);
    assert_eq!(run(&mut core, 1), 12);
    assert_eq!(core.cpu.get_af(), 0x9c50);
    assert_eq!(core.cpu.get_bc(), 0x1111);
    assert_eq!(core.cpu.get_de(), 0x2222);
    assert_eq!(core.cpu.get_hl(), 0xbeef);
    assert_eq!(core.cpu.sp, 0xd000);
}
