use dmg::dmg::input::{Joypad, JoypadInput, JoypadMode, JoypadOutput};
use dmg::dmg::intf::InterruptFlag;
use dmg::dmg::serial::Serial;
use dmg::dmg::traits::Mem;

#[test]
fn joypad_mask_bits() {
    assert_eq!(JoypadInput::DOWN, 1);
    assert_eq!(JoypadInput::LEFT, 2);
    assert_eq!(JoypadInput::UP, 4);
    assert_eq!(JoypadInput::RIGHT, 8);
    assert_eq!(JoypadInput::START, 16);
    assert_eq!(JoypadInput::SELECT, 32);
    assert_eq!(JoypadInput::A, 64);
    assert_eq!(JoypadInput::B, 128);
    let mut held = JoypadInput::empty();
    assert_eq!(held.bits(), 0);
    held.insert(JoypadInput::UP);
    held.insert(JoypadInput::B);
    assert!(held.contains(JoypadInput::UP));
    assert!(held.contains(JoypadInput::B));
    assert!(!held.contains(JoypadInput::A));
    assert_eq!(held, JoypadInput::from_bits_truncate(0x84));
    assert_eq!(JoypadOutput::all().bits, 0x0f);
}

#[test]
fn nothing_held_reads_all_lines_high() {
    let mut pad = Joypad::new();
    assert_eq!(pad.read_byte(0xff00), 0x0f);
    pad.write_byte(0xff00, 0x20);
    assert_eq!(pad.read_byte(0xff00), 0x0f);
}

#[test]
fn action_row() {
    let mut pad = Joypad::new();
    pad.write_byte(0xff00, 0x10);
    assert!(pad.mode == JoypadMode::Action);
    for (button, value) in [
        (JoypadInput::A, 0x0eu8),
        (JoypadInput::B, 0x0d),
        (JoypadInput::SELECT, 0x0b),
        (JoypadInput::START, 0x07),
        (JoypadInput::DOWN, 0x0f),
        (JoypadInput::UP, 0x0f),
        (JoypadInput::LEFT, 0x0f),
        (JoypadInput::RIGHT, 0x0f),
    ] {
        pad.update(JoypadInput { bits: button });
        assert_eq!(pad.read_byte(0xff00), value);
    }
    pad.update(JoypadInput { bits: JoypadInput::A | JoypadInput::START | JoypadInput::LEFT });
    assert_eq!(pad.read_byte(0xff00), 0x06);
    pad.update(JoypadInput { bits: 0xff });
    assert_eq!(pad.read_byte(0xff00), 0x00);
}

#[test]
fn direction_row() {
    let mut pad = Joypad::new();
    pad.write_byte(0xff00, 0x20);
    assert!(pad.mode == JoypadMode::Direction);
    for (button, value) in [
        (JoypadInput::RIGHT, 0x0eu8),
        (JoypadInput::LEFT, 0x0d),
        (JoypadInput::UP, 0x0b),
        (JoypadInput::DOWN, 0x07),
        (JoypadInput::A, 0x0f),
        (JoypadInput::B, 0x0f),
        (JoypadInput::SELECT, 0x0f),
        (JoypadInput::START, 0x0f),
    ] {
        pad.update(JoypadInput { bits: button });
        assert_eq!(pad.read_byte(0xff00), value);
    }
}

#[test]
fn row_select() {
    let mut pad = Joypad::new();
    pad.update(JoypadInput { bits: JoypadInput::DOWN });
    // both select bits clear: the direction row wins
    pad.write_byte(0xff00, 0x00);
    assert_eq!(pad.read_byte(0xff00), 0x07);
    // both set: the row stays
    pad.write_byte(0xff00, 0x30);
    assert_eq!(pad.read_byte(0xff00), 0x07);
    pad.write_byte(0xff00, 0x10);
    assert_eq!(pad.read_byte(0xff00), 0x0f);
}

#[test]
fn interrupt_lines_and_vectors() {
    assert_eq!(InterruptFlag::V_BLANK, 1);
    assert_eq!(InterruptFlag::LCD_STAT, 2);
    assert_eq!(InterruptFlag::TIMER, 4);
    assert_eq!(InterruptFlag::SERIAL, 8);
    assert_eq!(InterruptFlag::JOYPAD, 16);
    for (bits, first, vector) in [
        (0x00u8, 0x00u8, None),
        (0x01, 0x01, Some(0x40u16)),
        (0x02, 0x02, Some(0x48)),
        (0x04, 0x04, Some(0x50)),
        (0x08, 0x08, Some(0x58)),
        (0x10, 0x10, Some(0x60)),
        (0x1f, 0x01, Some(0x40)),
        (0x1e, 0x02, Some(0x48)),
        (0x1c, 0x04, Some(0x50)),
        (0x18, 0x08, Some(0x58)),
        (0x14, 0x04, Some(0x50)),
        (0xe0, 0x00, None),
    ] {
        let flags = InterruptFlag { bits };
        assert_eq!(flags.highest_prio_bit().bits(), first);
        assert_eq!(flags.interrupt_starting_address(), vector);
    }
}

#[test]
fn interrupt_flag_set_operations() {
    assert_eq!(InterruptFlag::from_bits_truncate(0xff).bits(), 0x1f);
    assert_eq!(InterruptFlag::empty().bits(), 0);
    let mut flags = InterruptFlag::empty();
    flags.insert(InterruptFlag::TIMER);
    flags.insert(InterruptFlag::V_BLANK);
    assert_eq!(flags.bits(), 0x05);
    assert!(flags.contains(InterruptFlag::TIMER));
    assert!(!flags.contains(InterruptFlag::SERIAL));
    assert!(flags.intersects(InterruptFlag { bits: 0x0c }));
    assert!(!flags.intersects(InterruptFlag { bits: 0x0a }));
    flags.remove(InterruptFlag::V_BLANK);
    assert_eq!(flags.bits(), 0x04);
    flags.remove(InterruptFlag::V_BLANK);
    assert_eq!(flags.bits(), 0x04);
}

#[test]
fn removing_the_serviced_line_clears_only_that_line() {
    for bits in 0..=255u8 {
        let flags = InterruptFlag { bits };
        let first = flags.highest_prio_bit().bits();
        let mut after = flags;
        after.remove(first);
        assert_eq!(after.bits() & first, 0);
        assert_eq!(after.bits() | first, bits | first);
        assert_eq!(after.bits(), bits & !first);
    }
}

#[test]
fn serial_port_keeps_and_hands_over_a_byte() {
    let mut serial = Serial::new();
    assert_eq!(serial.read_byte(0xff01), 0x00);
    assert_eq!(serial.read_byte(0xff02), 0x00);
    assert_eq!(serial.read_byte(0xff03), 0xff);
    // a transfer without a byte sends nothing
    serial.write_byte(0xff02, 0x81);
    assert_eq!(serial.take_sent(), None);
    serial.write_byte(0xff01, b'P');
    assert_eq!(serial.value, Some(b'P'));
    assert_eq!(serial.take_sent(), None);
    serial.write_byte(0xff02, 0x81);
    assert_eq!(serial.take_sent(), Some(b'P'));
    assert_eq!(serial.take_sent(), None);
    assert_eq!(serial.value, Some(b'P'));
    // a control byte without bit 7 drops the byte
    serial.write_byte(0xff02, 0x01);
    assert_eq!(serial.value, None);
    serial.write_byte(0xff02, 0x80);
    assert_eq!(serial.take_sent(), None);
    serial.write_byte(0xff10, 0x55);
    assert_eq!(serial.value, None);
}
