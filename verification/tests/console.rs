use dmg::dmg::console::Core;
use dmg::dmg::gpu::SCREEN_PIXELS;
use dmg::dmg::input::JoypadInput;
use dmg::dmg::mbc::CartridgeError;

fn rom_with(program: &[u8]) -> Vec<u8> {
    let mut rom = vec![0u8; 0x8000];
    rom[0x100..0x100 + program.len()].copy_from_slice(program);
    rom
}

#[test]
fn it_works() {
    let _d = Core::load_without_boot_rom(None);
    assert_eq!(2 + 2, 4);
}

#[test]
fn it_can_load_bootrom() {
    let _d = Core::load([0u8; 256], None);
    assert_eq!(2 + 2, 4);
}

#[test]
fn power_on_state_with_a_boot_program() {
    let mut boot = [0u8; 256];
    boot[0] = 0x31;
    let core = Core::load(boot, Some(rom_with(&[]))).unwrap();
    assert_eq!(core.cpu.pc, 0);
    assert_eq!(core.cpu.sp, 0xfffe);
    assert_eq!(core.cpu.get_af(), 0);
    assert_eq!(core.bus.read_byte(0), 0x31);
    assert_eq!(core.bus.read_byte(0xff40), 0x48);
    assert_eq!(core.audio_sampler.clock, 95);
}

#[test]
fn state_after_skipping_the_boot_program() {
    let core = Core::load_without_boot_rom(Some(rom_with(&[0xc3, 0x50, 0x01]))).unwrap();
    assert_eq!(core.cpu.get_af(), 0x01b0);
    assert_eq!(core.cpu.get_bc(), 0x0013);
    assert_eq!(core.cpu.get_de(), 0x00d8);
    assert_eq!(core.cpu.get_hl(), 0x014d);
    assert_eq!(core.cpu.sp, 0xfffe);
    assert_eq!(core.cpu.pc, 0x0100);
    assert_eq!(core.bus.read_byte(0xff40), 0x91);
    assert_eq!(core.bus.read_byte(0xff50), 0xff);
    assert_eq!(core.bus.read_byte(0x0100), 0xc3);
}

#[test]
fn a_boot_program_runs_to_0x0100_and_hands_over() {
    // LD SP,0xFFFE; LD A,0x91; LDH (0x40),A; ... ; LD A,1; LDH (0x50),A at 0xFC
    let mut boot = [0u8; 256];
    boot[..7].copy_from_slice(&[0x31, 0xfe, 0xff, 0x3e, 0x91, 0xe0, 0x40]);
    boot[0xfc..].copy_from_slice(&[0x3e, 0x01, 0xe0, 0x50]);
    let mut core = Core::load(boot, Some(rom_with(&[0x18, 0xfe]))).unwrap();
    let mut buffer = [0u32; SCREEN_PIXELS];
    let mut samples = Vec::new();
    let mut steps = 0;
    while core.cpu.pc != 0x0100 {
        core.step(&mut buffer, &mut samples, JoypadInput::empty());
        steps += 1;
        assert!(steps < 1000);
    }
    assert_eq!(core.cpu.sp, 0xfffe);
    assert_eq!(core.cpu.a, 0x01);
    assert_eq!(core.bus.read_byte(0xff50), 0xff);
    assert_eq!(core.bus.read_byte(0x0000), 0x00);
    assert_eq!(core.bus.read_byte(0xff40), 0x91);
}

#[test]
fn construction_fails_for_an_unsupported_cartridge() {
    let mut rom = rom_with(&[]);
    rom[0x147] = 0x06;
    assert_eq!(Core::load_without_boot_rom(Some(rom.clone())).err(), Some(CartridgeError::UnsupportedType(6)));
    assert_eq!(Core::load([0u8; 256], Some(rom)).err(), Some(CartridgeError::UnsupportedType(6)));
    let mut rom = rom_with(&[]);
    rom[0x147] = 0x13;
    assert_eq!(Core::load_without_boot_rom(Some(rom)).err(), Some(CartridgeError::UnsupportedType(0x13)));
    // the ROM size byte turns no cartridge down
    let mut rom = rom_with(&[]);
    rom[0x147] = 0x01;
    rom[0x148] = 0x20;
    assert!(Core::load_without_boot_rom(Some(rom)).is_ok());
}

#[test]
fn rom_name_is_read_up_to_the_first_zero() {
    let mut rom = rom_with(&[]);
    rom[0x134..0x13a].copy_from_slice(b"TETRIS");
    let core = Core::load_without_boot_rom(Some(rom)).unwrap();
    assert_eq!(core.read_rom_name(), "TETRIS");
    let mut rom = rom_with(&[]);
    rom[0x134..0x144].copy_from_slice(b"ABCDEFGHIJKLMNOP");
    let core = Core::load_without_boot_rom(Some(rom)).unwrap();
    assert_eq!(core.read_rom_name(), "ABCDEFGHIJKLMNO");
    let core = Core::load_without_boot_rom(None).unwrap();
    assert_eq!(core.read_rom_name(), "");
    let mut rom = rom_with(&[]);
    rom[0x134] = b'A';
    rom[0x136] = b'B';
    let core = Core::load_without_boot_rom(Some(rom)).unwrap();
    assert_eq!(core.read_rom_name(), "A");
}

#[test]
fn rom_name_maps_each_byte_to_one_character() {
    let mut rom = rom_with(&[]);
    rom[0x134] = 0xe9;
    rom[0x135] = b'!';
    let core = Core::load_without_boot_rom(Some(rom)).unwrap();
    let name = core.read_rom_name();
    assert_eq!(name.chars().count(), 2);
    assert_eq!(name.chars().next(), Some('\u{e9}'));
}

#[test]
fn a_frame_is_ready_every_70224_clocks() {
    // JR -2: 12 clocks a step
    let mut core = Core::load_without_boot_rom(Some(rom_with(&[0x18, 0xfe]))).unwrap();
    let mut buffer = [0u32; SCREEN_PIXELS];
    let mut samples = Vec::new();
    let mut steps = 0u64;
    let mut ready_at = Vec::new();
    while ready_at.len() < 3 {
        steps += 1;
        if core.step(&mut buffer, &mut samples, JoypadInput::empty()) {
            ready_at.push(steps * 12);
        }
        samples.clear();
    }
    assert_eq!(ready_at[1] - ready_at[0], 70224);
    assert_eq!(ready_at[2] - ready_at[1], 70224);
    assert_eq!(core.cpu.pc, 0x100);
}

#[test]
fn no_frame_while_the_display_is_off() {
    // XOR A; LDH (0x40),A; JR -2
    let mut core = Core::load_without_boot_rom(Some(rom_with(&[0xaf, 0xe0, 0x40, 0x18, 0xfe]))).unwrap();
    let mut buffer = [0u32; SCREEN_PIXELS];
    let mut samples = Vec::new();
    for _ in 0..20000 {
        assert!(!core.step(&mut buffer, &mut samples, JoypadInput::empty()));
        assert_eq!(core.bus.read_byte(0xff44), 0);
    }
}

#[test]
fn samples_fall_due_every_95_clocks() {
    let mut core = Core::load_without_boot_rom(Some(rom_with(&[0x18, 0xfe]))).unwrap();
    let mut buffer = [0u32; SCREEN_PIXELS];
    let mut samples = Vec::new();
    for _ in 0..95 {
        core.step(&mut buffer, &mut samples, JoypadInput::empty());
    }
    assert_eq!(samples.len(), 12);
    assert!(samples.iter().all(|s| *s == (0, 0)));
}

#[test]
fn step_latches_the_buttons() {
    // LD A,0x20; LDH (0x00),A; LDH A,(0x00); JR -2
    let mut core =
        Core::load_without_boot_rom(Some(rom_with(&[0x3e, 0x20, 0xe0, 0x00, 0xf0, 0x00, 0x18, 0xfe])))
            .unwrap();
    let mut buffer = [0u32; SCREEN_PIXELS];
    let mut samples = Vec::new();
    let keys = JoypadInput { bits: JoypadInput::LEFT | JoypadInput::A };
    for _ in 0..3 {
        core.step(&mut buffer, &mut samples, keys);
    }
    assert_eq!(core.cpu.a, 0x0d);
    assert_eq!(core.bus.input.input, keys);
}

#[test]
fn step_draws_the_lines_of_a_frame() {
    let mut rom = rom_with(&[0x18, 0xfe]);
    rom[0x147] = 0;
    let mut core = Core::load_without_boot_rom(Some(rom)).unwrap();
    // all-black background: palette 0xFF
    core.bus.write_byte(0xff47, 0xff);
    let mut buffer = [0u32; SCREEN_PIXELS];
    let mut samples = Vec::new();
    let mut frames = 0;
    while frames < 2 {
        if core.step(&mut buffer, &mut samples, JoypadInput::empty()) {
            frames += 1;
        }
        samples.clear();
    }
    assert!(buffer.iter().all(|p| *p == 0xff091820));
}

#[test]
fn trace_mode() {
    let mut core = Core::load_without_boot_rom(None).unwrap();
    core.initialize_gameboy_doctor();
    assert!(core.cpu.enable_debugging);
    assert_eq!(core.cpu.pc, 0x100);
    assert_eq!(core.cpu.get_af(), 0x01b0);
    assert_eq!(core.bus.read_byte(0xff40), 0x91);
    assert_eq!(core.bus.read_byte(0xff44), 0x90);
}

#[test]
fn trace_mode_with_the_display_off_reads_line_0() {
    let mut core = Core::load([0u8; 256], None).unwrap();
    core.initialize_gameboy_doctor();
    assert_eq!(core.bus.read_byte(0xff40), 0x48);
    assert_eq!(core.bus.read_byte(0xff44), 0);
    core.bus.write_byte(0xff40, 0x91);
    assert_eq!(core.bus.read_byte(0xff44), 0x90);
    core.bus.write_byte(0xff40, 0x11);
    assert_eq!(core.bus.read_byte(0xff44), 0);
}

#[test]
fn timer_interrupt_reaches_the_processor() {
    // LD A,0x05; LDH (0x07),A; LD A,0x04; LDH (0xFF),A; EI; JR -2; handler at 0x50: INC B; RETI
    let mut rom = rom_with(&[0x3e, 0x05, 0xe0, 0x07, 0x3e, 0x04, 0xe0, 0xff, 0xfb, 0x18, 0xfe]);
    rom[0x50] = 0x04;
    rom[0x51] = 0xd9;
    let mut core = Core::load_without_boot_rom(Some(rom)).unwrap();
    let b = core.cpu.b;
    let mut buffer = [0u32; SCREEN_PIXELS];
    let mut samples = Vec::new();
    let mut steps = 0;
    while core.cpu.b == b {
        core.step(&mut buffer, &mut samples, JoypadInput::empty());
        samples.clear();
        steps += 1;
        assert!(steps < 1000);
    }
    assert_eq!(core.cpu.pc, 0x51);
    assert_eq!(core.bus.read_byte(0xff0f) & 0x04, 0);
    // TIMA overflows after 256 periods of 16 clocks
    assert!(steps > 256 * 16 / 12);
    core.step(&mut buffer, &mut samples, JoypadInput::empty());
    assert_eq!(core.cpu.pc, 0x109);
    assert!(core.cpu.interrupt_master_enable);
}
