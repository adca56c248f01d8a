use dmg::dmg::sound::apu::{Apu, ChannelEnabled};
use dmg::dmg::sound::channel1::Channel1;
use dmg::dmg::sound::channel2::Channel2;
use dmg::dmg::sound::channel3::Channel3;
use dmg::dmg::sound::channel4::Channel4;
use dmg::dmg::sound::common::{duty_table, ChannelCommon};
use dmg::dmg::sound::frequency_sweep::FrequencySweep;
use dmg::dmg::sound::length_counter::LengthCounter;
use dmg::dmg::sound::sampler::{drain_samples, AudioSampler};
use dmg::dmg::sound::traits::{Mem, Tick};
use dmg::dmg::sound::volume_envelope::VolumeEnvelope;
use dmg::dmg::traits::{Mem as BusMem, Tick as BusTick};

fn powered() -> Apu {
    let mut apu = Apu::new();
    apu.write(0xff26, 0x80);
    apu
}

fn ticks(apu: &mut Apu, n: u32) {
    for _ in 0..n {
        apu.tick();
    }
}

#[test]
fn power_register_reports_the_switches() {
    let mut apu = Apu::new();
    assert_eq!(apu.read(0xff26), 0x70);
    apu.write(0xff26, 0x80);
    assert_eq!(apu.read(0xff26), 0xf0);
    // channel 2: converter on, trigger
    apu.write(0xff17, 0xf0);
    assert_eq!(apu.read(0xff26), 0xf0);
    apu.write(0xff19, 0x80);
    assert_eq!(apu.read(0xff26), 0xf2);
    // channel 1
    apu.write(0xff12, 0xf0);
    apu.write(0xff14, 0x80);
    assert_eq!(apu.read(0xff26), 0xf3);
    // channel 3
    apu.write(0xff1a, 0x80);
    apu.write(0xff1e, 0x80);
    assert_eq!(apu.read(0xff26), 0xf7);
    // channel 4
    apu.write(0xff21, 0xf0);
    apu.write(0xff23, 0x80);
    assert_eq!(apu.read(0xff26), 0xff);
    // cutting the power of a converter switches its channel off
    apu.write(0xff17, 0x00);
    assert_eq!(apu.read(0xff26), 0xfd);
    // the low bits of a write are ignored
    apu.write(0xff26, 0x8f);
    assert_eq!(apu.read(0xff26), 0xfd);
    apu.write(0xff26, 0x7f);
    assert_eq!(apu.read(0xff26), 0x70);
}

#[test]
fn a_trigger_without_a_converter_leaves_the_channel_off() {
    let mut apu = powered();
    apu.write(0xff17, 0x07);
    apu.write(0xff19, 0x80);
    assert_eq!(apu.read(0xff26), 0xf0);
}

#[test]
fn power_off_clears_the_registers_but_not_the_lengths() {
    let mut apu = powered();
    apu.write(0xff24, 0xff);
    apu.write(0xff25, 0xff);
    apu.write(0xff10, 0x7f);
    apu.write(0xff11, 0xc5);
    apu.write(0xff11, 0xc5);
    apu.write(0xff12, 0xf3);
    apu.write(0xff14, 0x80);
    apu.write(0xff22, 0xff);
    assert_eq!(apu.read(0xff24), 0xff);
    assert_eq!(apu.read(0xff25), 0xff);
    assert_eq!(apu.read(0xff11), 0xff);
    assert_eq!(apu.read(0xff22), 0xff);
    let length = apu.channel1.common.length_counter.length;
    assert_eq!(length, 64 - 5);
    apu.channel1.common.output = 9;
    apu.write(0xff26, 0x00);
    assert_eq!(apu.read(0xff26), 0x70);
    assert_eq!(apu.read(0xff24), 0x00);
    assert_eq!(apu.read(0xff25), 0x00);
    assert_eq!(apu.read(0xff10), 0x80);
    assert_eq!(apu.read(0xff11), 0x3f);
    assert_eq!(apu.read(0xff12), 0x00);
    assert_eq!(apu.read(0xff22), 0x00);
    assert_eq!(apu.channel1.common.length_counter.length, length);
    assert_eq!(apu.channel1.common.output, 0);
    assert_eq!(apu.sample(), (0, 0));
}

#[test]
fn a_unit_without_power_stands_still() {
    let mut apu = Apu::new();
    ticks(&mut apu, 10000);
    assert_eq!(apu.frame_sequencer_counter, 8192);
    assert_eq!(apu.frame_sequencer, 0);
    assert_eq!(apu.frequency_counter, 95);
}

#[test]
fn frame_sequencer_steps_every_8192_clocks() {
    let mut apu = powered();
    ticks(&mut apu, 8191);
    assert_eq!(apu.frame_sequencer, 0);
    ticks(&mut apu, 1);
    assert_eq!(apu.frame_sequencer, 1);
    assert_eq!(apu.channel1.common.length_counter.frame_sequencer, 1);
    assert_eq!(apu.channel4.common.length_counter.frame_sequencer, 1);
    ticks(&mut apu, 8192 * 6);
    assert_eq!(apu.frame_sequencer, 7);
    ticks(&mut apu, 8192);
    assert_eq!(apu.frame_sequencer, 0);
}

#[test]
fn length_counter_switches_the_channel_off() {
    let mut apu = powered();
    apu.write(0xff17, 0xf0);
    // the first write restarts the counter in full, the second sets 64 - 62
    apu.write(0xff16, 0x3e);
    apu.write(0xff16, 0x3e);
    assert_eq!(apu.channel2.common.length_counter.length, 2);
    apu.write(0xff19, 0xc0);
    assert_eq!(apu.read(0xff19), 0xff);
    assert_eq!(apu.read(0xff26), 0xf2);
    // step 0 clocks the lengths
    ticks(&mut apu, 8192);
    assert_eq!(apu.channel2.common.length_counter.length, 1);
    assert_eq!(apu.read(0xff26), 0xf2);
    // step 1 does not, step 2 does
    ticks(&mut apu, 8192);
    assert_eq!(apu.read(0xff26), 0xf2);
    ticks(&mut apu, 8192);
    assert_eq!(apu.channel2.common.length_counter.length, 0);
    assert_eq!(apu.read(0xff26), 0xf0);
}

#[test]
fn length_counter_without_enable_does_not_count() {
    let mut apu = powered();
    apu.write(0xff17, 0xf0);
    apu.write(0xff19, 0x80);
    assert_eq!(apu.read(0xff19), 0xbf);
    ticks(&mut apu, 8192 * 8);
    assert_eq!(apu.channel2.common.length_counter.length, 64);
    assert_eq!(apu.read(0xff26), 0xf2);
}

#[test]
fn enabling_the_length_after_a_length_step_clocks_it_at_once() {
    let mut counter = LengthCounter::new(64);
    counter.set_length(0);
    counter.set_length(60);
    assert_eq!(counter.length, 4);
    counter.frame_sequencer = 1;
    counter.set_nr14(0x40);
    assert!(counter.is_enabled());
    assert_eq!(counter.length, 3);
    // already enabled: no extra step
    counter.set_nr14(0x40);
    assert_eq!(counter.length, 3);
    // before a length step: no extra step
    let mut counter = LengthCounter::new(64);
    counter.set_length(0);
    counter.set_length(60);
    counter.frame_sequencer = 2;
    counter.set_nr14(0x40);
    assert_eq!(counter.length, 4);
    // a trigger restarts a counter that has run out, one step short when
    // the length is enabled after a length step
    let mut counter = LengthCounter::new(64);
    assert!(counter.is_zero());
    counter.set_nr14(0x80);
    assert_eq!(counter.length, 64);
    let mut counter = LengthCounter::new(64);
    counter.frame_sequencer = 1;
    counter.set_nr14(0xc0);
    assert_eq!(counter.length, 63);
    let mut counter = LengthCounter::new(256);
    counter.enabled = true;
    counter.frame_sequencer = 3;
    counter.set_nr14(0xc0);
    assert_eq!(counter.length, 255);
    counter.tick();
    assert_eq!(counter.length, 254);
    counter.power_off();
    assert!(!counter.is_enabled());
    assert_eq!(counter.length, 254);
    counter.tick();
    assert_eq!(counter.length, 254);
}

#[test]
fn wave_channel_has_a_length_of_256() {
    let common = ChannelCommon::new(3);
    assert_eq!(common.length_counter.full_length, 256);
    assert_eq!(ChannelCommon::new(1).length_counter.full_length, 64);
    let mut apu = powered();
    apu.write(0xff1b, 0x00);
    apu.write(0xff1b, 0x10);
    assert_eq!(apu.channel3.common.length_counter.length, 240);
}

#[test]
fn channel_common_needs_both_switches() {
    let mut common = ChannelCommon::new(2);
    assert!(!common.is_channel_enabled());
    common.ch_enabled = true;
    assert!(!common.is_channel_enabled());
    common.dac_enabled = true;
    assert!(common.is_channel_enabled());
    common.length_counter.enabled = true;
    common.length_counter.length = 1;
    common.tick_channel_length();
    assert!(!common.ch_enabled);
    assert_eq!(common.length_counter.length, 0);
}

#[test]
fn volume_envelope_steps_towards_its_end() {
    let mut envelope = VolumeEnvelope::new();
    envelope.set_nr12(0xf2);
    assert_eq!(envelope.get_nr12(), 0xf2);
    envelope.trigger();
    assert_eq!(envelope.get_volume(), 15);
    BusTick::tick(&mut envelope);
    assert_eq!(envelope.get_volume(), 15);
    BusTick::tick(&mut envelope);
    assert_eq!(envelope.get_volume(), 14);
    for _ in 0..2 * 13 {
        BusTick::tick(&mut envelope);
    }
    assert_eq!(envelope.get_volume(), 1);
    for _ in 0..10 {
        BusTick::tick(&mut envelope);
    }
    assert_eq!(envelope.get_volume(), 0);

    let mut envelope = VolumeEnvelope::new();
    envelope.set_nr12(0xd9);
    envelope.trigger();
    assert_eq!(envelope.get_volume(), 13);
    BusTick::tick(&mut envelope);
    assert_eq!(envelope.get_volume(), 14);
    BusTick::tick(&mut envelope);
    BusTick::tick(&mut envelope);
    BusTick::tick(&mut envelope);
    assert_eq!(envelope.get_volume(), 15);

    // a period of 0 never changes the volume
    let mut envelope = VolumeEnvelope::new();
    envelope.set_nr12(0x70);
    envelope.trigger();
    for _ in 0..64 {
        BusTick::tick(&mut envelope);
    }
    assert_eq!(envelope.get_volume(), 7);
    envelope.power_off();
    assert_eq!(envelope.get_volume(), 0);
    assert_eq!(envelope.get_nr12(), 0);
}

#[test]
fn envelopes_are_clocked_on_step_7() {
    let mut apu = powered();
    apu.write(0xff17, 0xf1);
    apu.write(0xff19, 0x80);
    ticks(&mut apu, 8192 * 7);
    assert_eq!(apu.channel2.volume_envelope.get_volume(), 15);
    ticks(&mut apu, 8192);
    assert_eq!(apu.channel2.volume_envelope.get_volume(), 14);
}

#[test]
fn sweep_overflow_switches_channel_1_off() {
    let mut apu = powered();
    apu.write(0xff10, 0x11);
    apu.write(0xff12, 0xf0);
    apu.write(0xff13, 0xff);
    apu.write(0xff14, 0x87);
    assert_eq!(apu.read(0xff26) & 0x01, 0);
    assert!(!apu.channel1.frequency_sweep.is_enabled());
}

#[test]
fn sweep_moves_the_frequency() {
    let mut sweep = FrequencySweep::new();
    sweep.set_nr10(0x12);
    sweep.set_nr13(0x00);
    sweep.set_nr14(0x04);
    assert_eq!(sweep.get_frequency(), 0x400);
    sweep.trigger();
    assert!(sweep.is_enabled());
    sweep.tick();
    assert_eq!(sweep.get_frequency(), 0x500);
    sweep.tick();
    assert_eq!(sweep.get_frequency(), 0x640);
    assert!(sweep.is_enabled());
    // the check that follows the next one passes 2047
    sweep.tick();
    assert_eq!(sweep.get_frequency(), 0x7d0);
    assert!(!sweep.is_enabled());
    assert_eq!(sweep.calculate(), 0x7d0 + 0x1f4);

    let mut down = FrequencySweep::new();
    down.set_nr10(0x19);
    down.set_nr13(0x00);
    down.set_nr14(0x04);
    down.trigger();
    down.tick();
    assert_eq!(down.get_frequency(), 0x200);
    assert!(down.is_enabled());
    assert_eq!(down.get_nr10(), 0x80 | 0x10 | 0x04 | 0x01);
    down.power_off();
    assert_eq!(down.get_frequency(), 0);
    assert_eq!(down.get_nr10(), 0x80);
}

#[test]
fn leaving_the_downward_sweep_after_use_switches_channel_1_off() {
    let mut apu = powered();
    apu.write(0xff10, 0x19);
    apu.write(0xff12, 0xf0);
    apu.write(0xff13, 0x00);
    apu.write(0xff14, 0x84);
    assert_eq!(apu.read(0xff26) & 0x01, 1);
    apu.write(0xff10, 0x11);
    assert_eq!(apu.read(0xff26) & 0x01, 0);
    // without a computation downwards the same write is harmless
    let mut apu = powered();
    apu.write(0xff10, 0x18);
    apu.write(0xff12, 0xf0);
    apu.write(0xff14, 0x84);
    apu.write(0xff10, 0x10);
    assert_eq!(apu.read(0xff26) & 0x01, 1);
}

#[test]
fn sweep_is_clocked_on_steps_2_and_6() {
    let mut channel = Channel1::new();
    channel.frequency_sweep.set_nr10(0x12);
    channel.frequency_sweep.set_nr14(0x04);
    channel.common.dac_enabled = true;
    channel.trigger();
    assert!(channel.common.ch_enabled);
    channel.tick_frequency_sweep();
    assert_eq!(channel.frequency_sweep.get_frequency(), 0x500);
    channel.tick_frequency_sweep();
    channel.tick_frequency_sweep();
    assert!(!channel.common.ch_enabled);

    let mut apu = powered();
    apu.write(0xff10, 0x12);
    apu.write(0xff12, 0xf0);
    apu.write(0xff14, 0x84);
    ticks(&mut apu, 8192 * 2);
    assert_eq!(apu.channel1.frequency_sweep.get_frequency(), 0x400);
    ticks(&mut apu, 8192);
    assert_eq!(apu.channel1.frequency_sweep.get_frequency(), 0x500);
    ticks(&mut apu, 8192 * 4);
    assert_eq!(apu.channel1.frequency_sweep.get_frequency(), 0x640);
}

#[test]
fn duty_patterns() {
    let pattern = |duty: u8| -> Vec<u8> { (0..8).map(|step| duty_table(duty, step)).collect() };
    assert_eq!(pattern(0), [0, 0, 0, 0, 0, 0, 0, 1]);
    assert_eq!(pattern(1), [1, 0, 0, 0, 0, 0, 0, 1]);
    assert_eq!(pattern(2), [1, 0, 0, 0, 0, 1, 1, 1]);
    assert_eq!(pattern(3), [0, 1, 1, 1, 1, 1, 1, 0]);
}

#[test]
fn square_channel_plays_its_duty() {
    let mut channel = Channel2::new();
    BusMem::write_byte(&mut channel, 0xff16, 0x80);
    BusMem::write_byte(&mut channel, 0xff17, 0xa0);
    BusMem::write_byte(&mut channel, 0xff18, 0xff);
    BusMem::write_byte(&mut channel, 0xff19, 0x87);
    assert_eq!(BusMem::read_byte(&channel, 0xff16), 0xbf);
    assert_eq!(BusMem::read_byte(&channel, 0xff17), 0xa0);
    assert_eq!(BusMem::read_byte(&channel, 0xff18), 0xff);
    assert_eq!(BusMem::read_byte(&channel, 0xff19), 0xbf);
    // frequency 2047: one step every 4 clocks
    assert_eq!(channel.timer, 4);
    let mut levels = Vec::new();
    for _ in 0..8 {
        for _ in 0..4 {
            BusTick::tick(&mut channel);
        }
        levels.push(channel.common.output);
    }
    assert_eq!(levels, [0, 0, 0, 0, 10, 10, 10, 10]);
    channel.power_off();
    assert_eq!(channel.common.output, 0);
    assert_eq!(BusMem::read_byte(&channel, 0xff16), 0x3f);
}

#[test]
fn wave_table_is_read_and_written_while_the_channel_is_off() {
    let mut channel = Channel3::new();
    for i in 0..16u16 {
        channel.write(0xff30 + i, 0x10 * i as u8 + 1);
    }
    for i in 0..16u16 {
        assert_eq!(channel.read(0xff30 + i), 0x10 * i as u8 + 1);
    }
    assert_eq!(channel.read(0xff1a), 0x7f);
    channel.write(0xff1a, 0x80);
    assert_eq!(channel.read(0xff1a), 0xff);
    channel.write(0xff1c, 0x40);
    assert_eq!(channel.read(0xff1c), 0xdf);
}

#[test]
fn wave_channel_plays_its_samples() {
    let mut channel = Channel3::new();
    channel.write(0xff30, 0x12);
    channel.write(0xff31, 0xef);
    channel.write(0xff1a, 0x80);
    channel.write(0xff1c, 0x20);
    channel.write(0xff1d, 0xff);
    channel.write(0xff1e, 0x87);
    assert_eq!(channel.timer, 6);
    let mut levels = Vec::new();
    for _ in 0..6 {
        channel.tick();
    }
    levels.push(channel.common.output);
    for _ in 0..3 {
        channel.tick();
        channel.tick();
        levels.push(channel.common.output);
    }
    assert_eq!(levels, [1, 2, 14, 15]);
    // while it plays, the table answers with the byte that is being played
    assert_eq!(channel.read(0xff3f), 0xef);
    channel.tick();
    assert_eq!(channel.read(0xff3f), 0xef);
    // half volume
    channel.write(0xff1c, 0x40);
    channel.write(0xff1e, 0x87);
    for _ in 0..6 {
        channel.tick();
    }
    assert_eq!(channel.common.output, 0);
    channel.tick();
    channel.tick();
    assert_eq!(channel.common.output, 1);
    for _ in 0..4 {
        channel.tick();
    }
    assert_eq!(channel.common.output, 7);
    channel.power_off();
    assert_eq!(channel.common.output, 0);
    assert_eq!(channel.read(0xff30), 0x12);
}

#[test]
fn wave_table_is_closed_between_fetches_while_the_channel_plays() {
    let mut channel = Channel3::new();
    channel.write(0xff30, 0x12);
    channel.write(0xff31, 0x34);
    channel.write(0xff1a, 0x80);
    channel.write(0xff1c, 0x20);
    // frequency 0x7FC: one sample every 8 clocks
    channel.write(0xff1d, 0xfc);
    channel.write(0xff1e, 0x87);
    for _ in 0..6 {
        channel.tick();
    }
    assert_eq!(channel.timer, 8);
    assert_eq!(channel.read(0xff31), 0x12);
    channel.write(0xff31, 0x56);
    assert_eq!(channel.read(0xff31), 0x56);
    channel.tick();
    channel.tick();
    assert_eq!(channel.read(0xff30), 0xff);
    channel.write(0xff30, 0x78);
    // switched off, the table shows the byte that was written through the
    // playing position and nothing of the write that came too late
    channel.write(0xff1a, 0x00);
    assert_eq!(channel.read(0xff30), 0x56);
    assert_eq!(channel.read(0xff31), 0x34);
}

#[test]
fn trigger_just_before_a_fetch_overwrites_the_start_of_the_table() {
    let mut channel = Channel3::new();
    for i in 0..16u16 {
        channel.write(0xff30 + i, 0xa0 + i as u8);
    }
    channel.write(0xff1a, 0x80);
    channel.write(0xff1e, 0x80);
    channel.position = 5;
    channel.timer = 2;
    channel.trigger();
    assert_eq!(channel.wave_table[0], 0xa2);
    assert_eq!(channel.wave_table[1], 0xa1);
    channel.position = 22;
    channel.timer = 2;
    channel.trigger();
    assert_eq!(&channel.wave_table[..5], &[0xa8, 0xa9, 0xaa, 0xab, 0xa4]);
    assert_eq!(channel.position, 0);
    assert_eq!(channel.timer, 6);
    // at any other moment the table stays
    channel.position = 30;
    channel.timer = 3;
    channel.trigger();
    assert_eq!(&channel.wave_table[..4], &[0xa8, 0xa9, 0xaa, 0xab]);
}

#[test]
fn noise_register_shifts_with_feedback() {
    let mut channel = Channel4::new();
    assert_eq!(channel.lfsr, 0x7fff);
    channel.write(0xff21, 0xf0);
    channel.write(0xff22, 0x00);
    channel.write(0xff23, 0x80);
    assert_eq!(channel.timer, 8);
    for _ in 0..8 {
        channel.tick();
    }
    assert_eq!(channel.lfsr, 0x3fff);
    assert_eq!(channel.common.output, 0);
    for _ in 0..8 * 13 {
        channel.tick();
    }
    assert_eq!(channel.lfsr, 0x0001);
    assert_eq!(channel.common.output, 0);
    for _ in 0..8 {
        channel.tick();
    }
    assert_eq!(channel.lfsr, 0x4000);
    assert_eq!(channel.common.output, 15);
    // narrow mode puts the feedback into bit 6 too
    let mut channel = Channel4::new();
    channel.write(0xff21, 0xf0);
    channel.write(0xff22, 0x08);
    channel.write(0xff23, 0x80);
    channel.lfsr = 0x0001;
    for _ in 0..8 {
        channel.tick();
    }
    assert_eq!(channel.lfsr, 0x4040);
    channel.lfsr = 0x0043;
    for _ in 0..8 {
        channel.tick();
    }
    assert_eq!(channel.lfsr, 0x0021);
    assert_eq!(channel.read(0xff22), 0x08);
}

#[test]
fn noise_period_follows_divisor_and_shift() {
    for (nr43, period) in [(0x00u8, 8u32), (0x01, 16), (0x07, 112), (0x10, 16), (0x37, 896), (0xf7, 112 << 15)] {
        let mut channel = Channel4::new();
        channel.write(0xff22, nr43);
        channel.trigger();
        assert_eq!(channel.timer, period);
        assert_eq!(channel.lfsr, 0x7fff);
    }
}

#[test]
fn mixer_sums_the_routed_channels() {
    let mut apu = powered();
    apu.channel1.common.output = 1;
    apu.channel2.common.output = 2;
    apu.channel3.common.output = 4;
    apu.channel4.common.output = 8;
    assert_eq!(apu.sample(), (0, 0));
    apu.write(0xff25, 0xff);
    assert_eq!(apu.sample(), (15, 15));
    apu.write(0xff25, ChannelEnabled::LEFT_1 | ChannelEnabled::RIGHT_4);
    assert_eq!(apu.sample(), (1, 8));
    apu.write(0xff25, ChannelEnabled::LEFT_2 | ChannelEnabled::LEFT_3 | ChannelEnabled::RIGHT_1);
    assert_eq!(apu.sample(), (6, 1));
    apu.write(0xff25, ChannelEnabled::LEFT_4 | ChannelEnabled::RIGHT_2 | ChannelEnabled::RIGHT_3);
    assert_eq!(apu.sample(), (8, 6));
    apu.channel1.common.output = 15;
    apu.channel2.common.output = 15;
    apu.channel3.common.output = 15;
    apu.channel4.common.output = 15;
    apu.write(0xff25, 0xf0);
    assert_eq!(apu.sample(), (60, 0));
    assert!(ChannelEnabled::from_bits_truncate(0x81).contains(ChannelEnabled::LEFT_1));
    assert_eq!(ChannelEnabled::empty().bits, 0);
}

#[test]
fn master_volume_register_reads_back() {
    let mut apu = powered();
    apu.write(0xff24, 0xa5);
    assert_eq!(apu.read(0xff24), 0xa5);
    assert!(apu.vin_left_enable);
    assert!(!apu.vin_right_enable);
    assert_eq!(apu.left_volume, 2);
    assert_eq!(apu.right_volume, 5);
    assert_eq!(apu.read(0xff27), 0xff);
    assert_eq!(apu.read(0xff2f), 0xff);
    assert_eq!(apu.read(0xff15), 0xff);
    assert_eq!(apu.read(0xff1f), 0xff);
}

#[test]
fn length_registers_can_be_written_without_power() {
    let mut apu = Apu::new();
    apu.write(0xff11, 0xff);
    apu.write(0xff11, 0xff);
    // the duty bits are dropped, the length is taken
    assert_eq!(apu.channel1.duty, 0);
    assert_eq!(apu.channel1.common.length_counter.length, 1);
    apu.write(0xff26, 0x80);
    apu.write(0xff11, 0xc0);
    assert_eq!(apu.channel1.duty, 3);
}

#[test]
fn sampler_emits_every_95_clocks() {
    let mut apu = powered();
    apu.write(0xff25, 0x11);
    apu.channel4.common.output = 12;
    let mut sampler = AudioSampler::new();
    let mut samples = Vec::new();
    for _ in 0..94 {
        sampler.tick(&apu, &mut samples);
    }
    assert!(samples.is_empty());
    sampler.tick(&apu, &mut samples);
    assert_eq!(samples, [(12, 12)]);
    apu.channel4.common.output = 3;
    for _ in 0..95 * 3 {
        sampler.tick(&apu, &mut samples);
    }
    assert_eq!(samples, [(12, 12), (3, 3), (3, 3), (3, 3)]);
}

#[test]
fn queue_hands_out_the_oldest_samples() {
    let mut queue: Vec<(u16, u16)> = (0..10).map(|i| (i, 100 + i)).collect();
    let out = drain_samples(&mut queue, 4);
    assert_eq!(out, [(0, 100), (1, 101), (2, 102), (3, 103)]);
    assert_eq!(queue.len(), 6);
    assert_eq!(queue[0], (4, 104));
    let out = drain_samples(&mut queue, 100);
    assert_eq!(out.len(), 6);
    assert_eq!(out[5], (9, 109));
    assert!(queue.is_empty());
    assert!(drain_samples(&mut queue, 3).is_empty());
}

#[test]
fn queue_is_cut_when_the_consumer_falls_behind() {
    let mut queue: Vec<(u16, u16)> = (0..3000).map(|i| (i, i)).collect();
    let out = drain_samples(&mut queue, 100);
    assert_eq!(out.len(), 100);
    assert_eq!(queue.len(), 512);
    assert_eq!(queue[0], (100, 100));
    assert_eq!(queue[511], (611, 611));
    // 2048 left over is still within the limit
    let mut queue: Vec<(u16, u16)> = (0..2148).map(|i| (i, i)).collect();
    drain_samples(&mut queue, 100);
    assert_eq!(queue.len(), 2048);
    assert_eq!(queue[2047], (2147, 2147));
    let mut queue: Vec<(u16, u16)> = (0..2149).map(|i| (i, i)).collect();
    drain_samples(&mut queue, 100);
    assert_eq!(queue.len(), 512);
}
