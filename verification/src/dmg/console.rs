//! The whole machine: processor, bus and sampler, stepped one instruction at
//! a time.
use crate::dmg::cpu::{Machine, ProcessingUnit};
use crate::dmg::gpu::{frames_crossed, SCREEN_PIXELS};
use crate::dmg::input::{Joypad, JoypadInput};
use crate::dmg::mbc::{CartridgeError, MbcView, RomBuffer};
use crate::dmg::mem::{BusView, MemoryBus};
use crate::dmg::sound::apu::Apu;
use crate::dmg::sound::sampler::{AudioSampler, StereoSample};
use crate::dmg::sound::traits::Tick;
use vstd::prelude::*;

verus! {

pub struct Core {
    pub bus: MemoryBus,
    pub cpu: ProcessingUnit,
    pub audio_sampler: AudioSampler,
}

/// What the machine holds, as plain values.
pub struct ConsoleView {
    pub bus: BusView,
    pub cpu: ProcessingUnit,
    pub audio_sampler: AudioSampler,
}

impl View for Core {
    type V = ConsoleView;

    open spec fn view(&self) -> ConsoleView {
        ConsoleView { bus: self.bus@, cpu: self.cpu, audio_sampler: self.audio_sampler }
    }
}

/// The sound unit, the sampler and the queue of samples after `clocks`
/// clocks: on each clock the sound unit ticks, then the sampler, which every
/// 95th clock queues the mix of that moment.
pub open spec fn sound_after(
    apu: Apu,
    sampler: AudioSampler,
    queue: Seq<StereoSample>,
    clocks: nat,
) -> (Apu, AudioSampler, Seq<StereoSample>)
    decreases clocks,
{
    if clocks == 0 {
        (apu, sampler, queue)
    } else {
        let before = sound_after(apu, sampler, queue, (clocks - 1) as nat);
        let ticked = before.0.tick_spec();
        (
            ticked,
            before.1.tick_spec(),
            if before.1.due() {
                before.2.push(ticked.sample_spec())
            } else {
                before.2
            },
        )
    }
}

/// The characters of the bytes from `from` up to the end of the title field
/// at 0x143, or up to the first zero byte.
pub open spec fn title_from(bus: BusView, from: int) -> Seq<char>
    decreases 0x143 - from,
{
    if from < 0x134 || from >= 0x143 || bus.read(from as u16) == 0 {
        Seq::empty()
    } else {
        seq![bus.read(from as u16) as char] + title_from(bus, from + 1)
    }
}

impl ConsoleView {
    /// The machine with the held buttons latched, before the processor
    /// runs.
    pub open spec fn latched(self, keys: JoypadInput) -> Machine {
        self.cpu.on(BusView { input: Joypad { input: keys, ..self.bus.input }, ..self.bus })
    }

    /// The clocks that the next step takes.
    pub open spec fn elapsed(self, keys: JoypadInput) -> u32 {
        self.latched(keys).step().1
    }

    /// The machine, the frame buffer, the queue of samples and the frame
    /// signal after one step: the buttons are latched, the processor runs one
    /// step, and the picture unit, the timer and the sound unit catch up by
    /// the clocks that the step took.
    pub open spec fn step(self, keys: JoypadInput, buffer: Seq<u32>, queue: Seq<StereoSample>) -> (
        ConsoleView,
        Seq<u32>,
        Seq<StereoSample>,
        bool,
    ) {
        let ran = self.latched(keys).step();
        let drawn = ran.0.bus.ppu.next_spec(ran.1, buffer);
        let sounded = sound_after(ran.0.bus.apu, self.audio_sampler, queue, ran.1 as nat);
        (
            ConsoleView {
                bus: BusView { ppu: drawn.0, apu: sounded.0, ..ran.0.bus },
                cpu: ran.0.cpu,
                audio_sampler: sounded.1,
            },
            drawn.1,
            sounded.2,
            drawn.2,
        )
    }

    /// The picture unit is in step with itself.
    pub open spec fn wf(self) -> bool {
        self.bus.wf()
    }
}

/// `String::push` of the standard library with the character of a byte: the
/// string grows by that one character at its end.
#[verifier::external_body]
fn push_byte(s: &mut String, b: u8)
    ensures
        final(s)@ == old(s)@.push(b as char),
{
    s.push(b as char);
}

impl Core {
    /// Builds the machine at power-on over a boot program and, if there is
    /// one, a cartridge image.
    pub fn load(boot_rom: [u8; 256], game_rom: Option<RomBuffer>) -> (r: Result<
        Core,
        CartridgeError,
    >)
        ensures
            match r {
                Ok(core) => {
                    &&& MbcView::load_or_empty(game_rom) == Ok::<MbcView, CartridgeError>(
                        core@.bus.mbc,
                    )
                    &&& core@.bus.initial(Some(boot_rom), core@.bus.mbc)
                    &&& core@.cpu == ProcessingUnit::initial()
                    &&& core@.audio_sampler.clock == 95
                    &&& core@.wf()
                },
                Err(e) => MbcView::load_or_empty(game_rom) == Err::<MbcView, CartridgeError>(e),
            },
    {
        match MemoryBus::new(Some(boot_rom), game_rom) {
            Ok(bus) => Ok(Self { cpu: ProcessingUnit::new(), bus, audio_sampler: AudioSampler::new() }),
            Err(e) => Err(e),
        }
    }

    /// Builds the machine as the boot program would leave it.
    pub fn load_without_boot_rom(game_rom: Option<RomBuffer>) -> (r: Result<Core, CartridgeError>)
        ensures
            match r {
                Ok(core) => {
                    &&& exists|fresh: BusView|
                        {
                            &&& MbcView::load_or_empty(game_rom) == Ok::<MbcView, CartridgeError>(
                                fresh.mbc,
                            )
                            &&& #[trigger] fresh.initial(None, fresh.mbc)
                            &&& core@.bus == fresh.write(0xff40, 0x91)
                        }
                    &&& core@.cpu == ProcessingUnit::initial().skip_boot_rom_spec()
                    &&& core@.audio_sampler.clock == 95
                    &&& core@.wf()
                },
                Err(e) => MbcView::load_or_empty(game_rom) == Err::<MbcView, CartridgeError>(e),
            },
    {
        let mut cpu: ProcessingUnit = ProcessingUnit::new();
        cpu.skip_boot_rom();
        match MemoryBus::new_without_boot_rom(game_rom) {
            Ok(bus) => Ok(Self { cpu, bus, audio_sampler: AudioSampler::new() }),
            Err(e) => Err(e),
        }
    }

    pub fn initialize_gameboy_doctor(&mut self)
        ensures
            final(self).cpu == (ProcessingUnit {
                enable_debugging: true,
                ..old(self).cpu.skip_boot_rom_spec()
            }),
            final(self).bus@ == (BusView {
                ppu: crate::dmg::gpu::GPU { enable_debug_override: true, ..old(self).bus.ppu },
                ..old(self).bus@
            }),
            final(self).audio_sampler == old(self).audio_sampler,
            old(self)@.wf() ==> final(self)@.wf(),
    {
        self.cpu.initialize_gameboy_doctor();
        self.bus.ppu.initialize_gameboy_doctor();
    }

    /// Latches the buttons, runs the processor for one step and lets the
    /// picture unit, the timer and the sound unit catch up. Lines that are
    /// completed are drawn into `buffer`, samples that fall due are pushed
    /// onto `samples`, and the result tells whether a frame was completed.
    pub fn step(
        &mut self,
        buffer: &mut [u32; SCREEN_PIXELS],
        samples: &mut Vec<StereoSample>,
        keys_pressed: JoypadInput,
    ) -> (frame_ready: bool)
        ensures
            (final(self)@, final(buffer)@, final(samples)@, frame_ready) == old(self)@.step(
                keys_pressed,
                old(buffer)@,
                old(samples)@,
            ),
            final(self).cpu.af() % 16 == 0,
            old(self)@.wf() ==> final(self)@.wf(),
            old(self)@.wf() && final(self).bus.ppu.lcdc.display_on() ==> {
                &&& final(self).bus.ppu.position() == (old(self).bus.ppu.position() + old(
                    self,
                )@.elapsed(keys_pressed)) % 70224
                &&& frame_ready == (frames_crossed(
                    old(self).bus.ppu.position(),
                    old(self)@.elapsed(keys_pressed) as int,
                ) > 0)
            },
            !final(self).bus.ppu.lcdc.display_on() ==> !frame_ready && final(self).bus.ppu.phase()
                == old(self).bus.ppu.phase(),
    {
        self.bus.input.update(keys_pressed);
        let elapsed: u32 = self.cpu.next(&mut self.bus);
        let should_render: bool = self.bus.ppu.next(elapsed, buffer);
        let ghost apu = self.bus.apu;
        let ghost sampler = self.audio_sampler;
        let mut i: u32 = 0;
        while i < elapsed
            invariant
                i <= elapsed,
                (self.bus.apu, self.audio_sampler, samples@) == sound_after(
                    apu,
                    sampler,
                    old(samples)@,
                    i as nat,
                ),
                self.bus.ppu == old(self)@.step(keys_pressed, old(buffer)@, old(samples)@).0.bus.ppu,
                self.cpu == old(self)@.step(keys_pressed, old(buffer)@, old(samples)@).0.cpu,
                (BusView { apu, ..self.bus@ }) == (BusView {
                    apu,
                    ..old(self)@.step(keys_pressed, old(buffer)@, old(samples)@).0.bus
                }),
            decreases elapsed - i,
        {
            self.bus.apu.tick();
            self.audio_sampler.tick(&self.bus.apu, samples);
            i = i + 1;
        }
        should_render
    }

    /// The title of the cartridge: the bytes from 0x134 up to 0x143, or up to
    /// the first zero byte, one character each.
    pub fn read_rom_name(&self) -> (title: String)
        ensures
            title@ == title_from(self@.bus, 0x134),
    {
        let mut title: String = String::new();
        let mut i: u16 = 0x134;
        let mut going: bool = true;
        while going && i < 0x143
            invariant
                0x134 <= i <= 0x143,
                title@ + (if going {
                    title_from(self@.bus, i as int)
                } else {
                    Seq::<char>::empty()
                }) == title_from(self@.bus, 0x134),
            decreases 0x143 - i + if going { 1int } else { 0 },
        {
            let i1: u8 = self.bus.read_byte(i);
            if i1 == 0 {
                going = false;
            } else {
                push_byte(&mut title, i1);
                i = i + 1;
            }
        }
        title
    }
}

} // verus!
