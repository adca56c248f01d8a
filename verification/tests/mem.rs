use dmg::dmg::input::JoypadInput;
use dmg::dmg::mbc::CartridgeError;
use dmg::dmg::mem::MemoryBus;

fn bus() -> MemoryBus {
    MemoryBus::new(None, None).unwrap()
}

#[test]
fn memory_reads_back_what_was_written() {
    let mut bus = bus();
    let mut value = 1u8;
    for range in [0x8000u16..=0x9fff, 0xc000..=0xdfff, 0xfe00..=0xfe9f, 0xff80..=0xfffe] {
        for addr in range.clone().step_by(13) {
            bus.write_byte(addr, value);
            assert_eq!(bus.read_byte(addr), value);
            value = value.wrapping_mul(5).wrapping_add(3);
        }
        let (first, last) = (*range.start(), *range.end());
        bus.write_byte(first, 0xa5);
        bus.write_byte(last, 0x5a);
        assert_eq!(bus.read_byte(first), 0xa5);
        assert_eq!(bus.read_byte(last), 0x5a);
    }
}

#[test]
fn memory_starts_zeroed() {
    let bus = bus();
    for addr in [0x8000u16, 0x9fff, 0xc000, 0xdfff, 0xfe00, 0xfe9f, 0xff80, 0xfffe, 0xffff] {
        assert_eq!(bus.read_byte(addr), 0);
    }
}

#[test]
fn work_ram_is_mirrored() {
    let mut bus = bus();
    bus.write_byte(0xc000, 0x11);
    bus.write_byte(0xddff, 0x22);
    assert_eq!(bus.read_byte(0xe000), 0x11);
    assert_eq!(bus.read_byte(0xfdff), 0x22);
    bus.write_byte(0xe123, 0x33);
    assert_eq!(bus.read_byte(0xc123), 0x33);
    bus.write_byte(0xd000, 0x44);
    assert_eq!(bus.read_byte(0xf000), 0x44);
    assert_eq!(bus.read_byte(0xc000), 0x11);
}

#[test]
fn a_write_leaves_other_bytes_alone() {
    let mut bus = bus();
    bus.write_byte(0xc100, 0x01);
    bus.write_byte(0xc101, 0x02);
    bus.write_byte(0xff80, 0x03);
    bus.write_byte(0x8000, 0x04);
    bus.write_byte(0xfe00, 0x05);
    bus.write_byte(0xc0ff, 0x06);
    assert_eq!(bus.read_byte(0xc100), 0x01);
    assert_eq!(bus.read_byte(0xc101), 0x02);
    assert_eq!(bus.read_byte(0xff80), 0x03);
    assert_eq!(bus.read_byte(0x8000), 0x04);
    assert_eq!(bus.read_byte(0xfe00), 0x05);
}

#[test]
fn interrupt_registers_keep_five_bits() {
    let mut bus = bus();
    bus.write_byte(0xffff, 0xff);
    assert_eq!(bus.read_byte(0xffff), 0x1f);
    bus.write_byte(0xff0f, 0xe5);
    assert_eq!(bus.read_byte(0xff0f), 0x05);
    bus.write_byte(0xffff, 0x0a);
    assert_eq!(bus.read_byte(0xffff), 0x0a);
    assert!(!bus.check_interrupt());
    bus.write_byte(0xffff, 0x04);
    assert!(bus.check_interrupt());
    bus.write_byte(0xff0f, 0x00);
    assert!(!bus.check_interrupt());
}

#[test]
fn unmapped_addresses_read_ff_and_drop_writes() {
    let mut bus = bus();
    for addr in [0xfea0u16, 0xfeff, 0xff03, 0xff08, 0xff0e, 0xff4c, 0xff4d, 0xff4f, 0xff50, 0xff51, 0xff7f] {
        bus.write_byte(addr, 0x12);
        assert_eq!(bus.read_byte(addr), 0xff);
    }
}

#[test]
fn boot_program_is_mapped_until_it_is_latched_off() {
    let mut boot = [0u8; 256];
    for i in 0..256 {
        boot[i] = (i as u8) ^ 0xaa;
    }
    let mut rom = vec![0x77u8; 0x8000];
    rom[0x147] = 0;
    let mut bus = MemoryBus::new(Some(boot), Some(rom)).unwrap();
    assert_eq!(bus.read_byte(0x0000), 0xaa);
    assert_eq!(bus.read_byte(0x00ff), 0x55);
    assert_eq!(bus.read_byte(0x0100), 0x77);
    bus.write_byte(0xff50, 0x00);
    assert_eq!(bus.read_byte(0x0000), 0xaa);
    bus.write_byte(0xff50, 0x01);
    assert_eq!(bus.read_byte(0x0000), 0x77);
    assert_eq!(bus.read_byte(0x00ff), 0x77);
    bus.write_byte(0xff50, 0x00);
    assert_eq!(bus.read_byte(0x0000), 0x77);
    assert_eq!(bus.read_byte(0xff50), 0xff);
}

#[test]
fn without_a_boot_program_the_cartridge_is_mapped_from_the_start() {
    let mut rom = vec![0u8; 0x8000];
    rom[0] = 0x31;
    let bus = MemoryBus::new(None, Some(rom.clone())).unwrap();
    assert_eq!(bus.read_byte(0), 0x31);
    assert_eq!(bus.read_byte(0xff40), 0x48);
    let bus = MemoryBus::new_without_boot_rom(Some(rom)).unwrap();
    assert_eq!(bus.read_byte(0), 0x31);
    assert_eq!(bus.read_byte(0xff40), 0x91);
}

#[test]
fn default_bus_maps_a_boot_program_of_zeros() {
    let mut bus = MemoryBus::default();
    assert_eq!(bus.read_byte(0x0000), 0);
    assert_eq!(bus.read_byte(0x00ff), 0);
    assert_eq!(bus.read_byte(0x0100), 0);
    assert_eq!(bus.read_byte(8000), 0xff);
    bus.write_byte(0xff50, 1);
    assert_eq!(bus.read_byte(0x0000), 0);
}

#[test]
fn construction_fails_on_a_cartridge_that_is_turned_down() {
    let mut rom = vec![0u8; 0x8000];
    rom[0x147] = 0x05;
    assert_eq!(MemoryBus::new(None, Some(rom.clone())).err(), Some(CartridgeError::UnsupportedType(5)));
    assert_eq!(
        MemoryBus::new_without_boot_rom(Some(rom)).err(),
        Some(CartridgeError::UnsupportedType(5))
    );
}

#[test]
fn oam_dma_copies_160_bytes() {
    let mut bus = bus();
    for i in 0..0x100u16 {
        bus.write_byte(0xc200 + i, (i as u8) ^ 0x3c);
    }
    bus.write_byte(0xfe9f, 0xee);
    bus.write_byte(0xff46, 0xc2);
    for i in 0..0xa0u16 {
        assert_eq!(bus.read_byte(0xfe00 + i), (i as u8) ^ 0x3c);
    }
    // the page that was copied from is untouched
    assert_eq!(bus.read_byte(0xc2a0), 0xa0 ^ 0x3c);
    // from ROM
    let mut rom = vec![0u8; 0x8000];
    for i in 0..0xa0 {
        rom[0x1200 + i] = 0xa0 - i as u8;
    }
    let mut bus = MemoryBus::new(None, Some(rom)).unwrap();
    bus.write_byte(0xff46, 0x12);
    assert_eq!(bus.read_byte(0xfe00), 0xa0);
    assert_eq!(bus.read_byte(0xfe9f), 0x01);
}

#[test]
fn registers_are_routed_to_their_components() {
    let mut bus = bus();
    // picture unit
    bus.write_byte(0xff42, 0x21);
    assert_eq!(bus.ppu.scy, 0x21);
    assert_eq!(bus.read_byte(0xff42), 0x21);
    // timer
    bus.write_byte(0xff06, 0x45);
    assert_eq!(bus.ppu.timer.tma, 0x45);
    assert_eq!(bus.read_byte(0xff06), 0x45);
    // sound unit
    bus.write_byte(0xff26, 0x80);
    assert_eq!(bus.read_byte(0xff26), 0xf0);
    bus.write_byte(0xff25, 0x5a);
    assert_eq!(bus.read_byte(0xff25), 0x5a);
    bus.write_byte(0xff30, 0xcd);
    assert_eq!(bus.read_byte(0xff30), 0xcd);
    // serial port
    bus.write_byte(0xff01, 0x41);
    assert_eq!(bus.serial.value, Some(0x41));
    assert_eq!(bus.read_byte(0xff01), 0x00);
    assert_eq!(bus.read_byte(0xff02), 0x00);
    // joypad
    bus.input.update(JoypadInput { bits: JoypadInput::A });
    bus.write_byte(0xff00, 0x10);
    assert_eq!(bus.read_byte(0xff00), 0x0e);
    // cartridge
    let mut rom = vec![0u8; 0x10000];
    rom[0x147] = 0x03;
    rom[0x148] = 0x01;
    rom[0x149] = 0x02;
    rom[0x8000] = 0x99;
    let mut bus = MemoryBus::new(None, Some(rom)).unwrap();
    bus.write_byte(0x2000, 0x02);
    assert_eq!(bus.read_byte(0x4000), 0x99);
    bus.write_byte(0x0000, 0x0a);
    bus.write_byte(0xa123, 0x42);
    assert_eq!(bus.read_byte(0xa123), 0x42);
}
