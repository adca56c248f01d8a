//! The memory bus: one 16-bit address space over the cartridge, the work
//! RAM, the picture unit, the sound unit, the joypad, the serial port and the
//! interrupt registers.
//!
//! 0000-7FFF cartridge ROM, 8000-9FFF video RAM, A000-BFFF cartridge RAM,
//! C000-DFFF work RAM, E000-FDFF its mirror, FE00-FE9F sprite attributes,
//! FF00-FF7F registers, FF80-FFFE high RAM, FFFF interrupt enable.
use crate::dmg::gpu::GPU;
use crate::dmg::input::Joypad;
use crate::dmg::intf::InterruptFlag;
use crate::dmg::mbc::{CartridgeError, MBCWrapper, MbcView, RomBuffer};
use crate::dmg::serial::Serial;
use crate::dmg::sound::apu::Apu;
use crate::dmg::sound::traits::Mem as SoundMem;
use crate::dmg::traits::Mem;
use vstd::array::spec_array_update;
use vstd::prelude::*;

verus! {

pub const WRAM_SIZE: usize = 0x2000;

pub const ZRAM_SIZE: usize = 0x7F;

pub struct MemoryBus {
    pub wram: [u8; WRAM_SIZE],
    pub zram: [u8; ZRAM_SIZE],
    /// Set once the boot program has handed over to the cartridge.
    pub boot_rom_disabled: bool,
    pub mbc: MBCWrapper,
    pub serial: Serial,
    pub boot_rom: [u8; 256],
    pub input: Joypad,
    pub ppu: GPU,
    pub apu: Apu,
    pub interrupt_enable: InterruptFlag,
}

/// What the bus holds, as plain values.
pub struct BusView {
    pub wram: [u8; WRAM_SIZE],
    pub zram: [u8; ZRAM_SIZE],
    pub boot_rom_disabled: bool,
    pub mbc: MbcView,
    pub serial: Serial,
    pub boot_rom: [u8; 256],
    pub input: Joypad,
    pub ppu: GPU,
    pub apu: Apu,
    pub interrupt_enable: InterruptFlag,
}

impl View for MemoryBus {
    type V = BusView;

    open spec fn view(&self) -> BusView {
        BusView {
            wram: self.wram,
            zram: self.zram,
            boot_rom_disabled: self.boot_rom_disabled,
            mbc: self.mbc@,
            serial: self.serial,
            boot_rom: self.boot_rom,
            input: self.input,
            ppu: self.ppu,
            apu: self.apu,
            interrupt_enable: self.interrupt_enable,
        }
    }
}

impl BusView {
    /// The bus at power-on over a boot program and a cartridge.
    pub open spec fn initial(self, boot_rom: Option<[u8; 256]>, mbc: MbcView) -> bool {
        &&& forall|i: int| 0 <= i < WRAM_SIZE ==> self.wram[i] == 0
        &&& forall|i: int| 0 <= i < ZRAM_SIZE ==> self.zram[i] == 0
        &&& self.boot_rom_disabled == (boot_rom is None)
        &&& self.mbc == mbc
        &&& self.serial == (Serial { value: None, debug_print: false, sent: None })
        &&& match boot_rom {
            Some(image) => self.boot_rom == image,
            None => forall|i: int| 0 <= i < 256 ==> self.boot_rom[i] == 0,
        }
        &&& self.input == Joypad::initial()
        &&& self.ppu.initial()
        &&& self.apu.initial()
        &&& self.interrupt_enable.bits == 0
    }

    /// The picture unit on the bus is in step with itself.
    pub open spec fn wf(self) -> bool {
        self.ppu.wf()
    }

    /// Whether the boot program answers reads at `addr`.
    pub open spec fn boot_mapped(self, addr: u16) -> bool {
        addr < 0x100 && !self.boot_rom_disabled
    }

    /// The byte that a read at `addr` returns. Addresses that nothing is
    /// mapped to read 0xFF.
    #[verifier::opaque]
    pub open spec fn read(self, addr: u16) -> u8 {
        if self.boot_mapped(addr) {
            self.boot_rom[addr as int]
        } else if addr <= 0x7fff {
            self.mbc.read_rom(addr as usize)
        } else if addr <= 0x9fff {
            self.ppu.read_spec(addr)
        } else if addr <= 0xbfff {
            self.mbc.read_ram(addr as usize)
        } else if addr <= 0xdfff {
            self.wram[addr - 0xc000]
        } else if addr <= 0xfdff {
            self.wram[addr - 0xe000]
        } else if addr <= 0xfe9f {
            self.ppu.read_spec(addr)
        } else if addr <= 0xfeff {
            0xff
        } else if addr == 0xff00 {
            self.input.read_spec()
        } else if addr == 0xff01 || addr == 0xff02 {
            self.serial.read_spec(addr)
        } else if 0xff04 <= addr <= 0xff07 || addr == 0xff0f {
            self.ppu.read_spec(addr)
        } else if 0xff10 <= addr <= 0xff3f {
            self.apu.read_spec(addr)
        } else if 0xff40 <= addr <= 0xff4b {
            self.ppu.read_spec(addr)
        } else if 0xff80 <= addr <= 0xfffe {
            self.zram[addr - 0xff80]
        } else if addr == 0xffff {
            self.interrupt_enable.bits
        } else {
            0xff
        }
    }

    /// The bus after the first `count` bytes of a transfer from page `page`
    /// into the sprite attributes.
    pub open spec fn dma_upto(self, page: u8, count: nat) -> BusView
        decreases count,
    {
        if count == 0 {
            self
        } else {
            let before = self.dma_upto(page, (count - 1) as nat);
            BusView {
                ppu: before.ppu.write_spec(
                    (0xfe00 + count - 1) as u16,
                    before.read((page * 256 + count - 1) as u16),
                ),
                ..before
            }
        }
    }

    /// The bus after a write without the transfer into the sprite
    /// attributes.
    pub open spec fn write_plain(self, addr: u16, value: u8) -> BusView {
        if addr <= 0x7fff {
            BusView { mbc: self.mbc.write_rom(addr as usize, value), ..self }
        } else if addr <= 0x9fff {
            BusView { ppu: self.ppu.write_spec(addr, value), ..self }
        } else if addr <= 0xbfff {
            BusView { mbc: self.mbc.write_ram(addr as usize, value), ..self }
        } else if addr <= 0xdfff {
            BusView { wram: spec_array_update(self.wram, addr - 0xc000, value), ..self }
        } else if addr <= 0xfdff {
            BusView { wram: spec_array_update(self.wram, addr - 0xe000, value), ..self }
        } else if addr <= 0xfe9f {
            BusView { ppu: self.ppu.write_spec(addr, value), ..self }
        } else if addr <= 0xfeff {
            self
        } else if addr == 0xff00 {
            BusView { input: self.input.write_spec(value), ..self }
        } else if addr == 0xff01 || addr == 0xff02 {
            BusView { serial: self.serial.write_spec(addr, value), ..self }
        } else if 0xff04 <= addr <= 0xff07 || addr == 0xff0f {
            BusView { ppu: self.ppu.write_spec(addr, value), ..self }
        } else if 0xff10 <= addr <= 0xff3f {
            BusView { apu: self.apu.write_spec(addr, value), ..self }
        } else if 0xff40 <= addr <= 0xff4b {
            BusView { ppu: self.ppu.write_spec(addr, value), ..self }
        } else if addr == 0xff50 {
            BusView { boot_rom_disabled: self.boot_rom_disabled || value == 1, ..self }
        } else if 0xff80 <= addr <= 0xfffe {
            BusView { zram: spec_array_update(self.zram, addr - 0xff80, value), ..self }
        } else if addr == 0xffff {
            BusView { interrupt_enable: InterruptFlag { bits: value & 0x1f }, ..self }
        } else {
            self
        }
    }

    /// The bus after a write of `value` at `addr`. A write to 0xFF46 copies
    /// 160 bytes from the page that `value` names into the sprite attributes;
    /// a write of 1 to 0xFF50 unmaps the boot program for good; writes to
    /// addresses that take none are dropped.
    #[verifier::opaque]
    pub open spec fn write(self, addr: u16, value: u8) -> BusView {
        if addr == 0xff46 {
            self.dma_upto(value, 160)
        } else {
            self.write_plain(addr, value)
        }
    }

    /// Whether an interrupt is both requested and enabled.
    pub open spec fn interrupt_pending(self) -> bool {
        self.interrupt_enable.bits & self.ppu.interrupt_flag.bits & 0x1f != 0
    }
}

impl MemoryBus {
    /// Builds the bus as the boot program leaves it: no boot program mapped,
    /// the display switched on.
    pub fn new_without_boot_rom(rom: Option<RomBuffer>) -> (r: Result<MemoryBus, CartridgeError>)
        ensures
            match r {
                Ok(bus) => exists|fresh: BusView|
                    {
                        &&& MbcView::load_or_empty(rom) == Ok::<MbcView, CartridgeError>(fresh.mbc)
                        &&& #[trigger] fresh.initial(None, fresh.mbc)
                        &&& bus@ == fresh.write(0xff40, 0x91)
                        &&& bus@.wf()
                    },
                Err(e) => MbcView::load_or_empty(rom) == Err::<MbcView, CartridgeError>(e),
            },
    {
        match Self::new(None, rom) {
            Ok(bus) => {
                let mut bus = bus;
                bus.write_byte(0xff40, 0x91);
                Ok(bus)
            },
            Err(e) => Err(e),
        }
    }

    /// Builds the bus at power-on. Without a boot program none is mapped;
    /// without a cartridge the slot is empty. A cartridge that is turned down
    /// is an error.
    pub fn new(bootloader: Option<[u8; 256]>, rom: Option<RomBuffer>) -> (r: Result<
        MemoryBus,
        CartridgeError,
    >)
        ensures
            match r {
                Ok(bus) => MbcView::load_or_empty(rom) == Ok::<MbcView, CartridgeError>(bus@.mbc)
                    && bus@.initial(bootloader, bus@.mbc) && bus@.wf(),
                Err(e) => MbcView::load_or_empty(rom) == Err::<MbcView, CartridgeError>(e),
            },
    {
        let boot_rom: [u8; 256] = match bootloader {
            Some(image) => image,
            None => [0x00u8;256],
        };
        let mbc: MBCWrapper = match rom {
            Some(image) => match MBCWrapper::new(image) {
                Ok(m) => m,
                Err(e) => {
                    return Err(e);
                },
            },
            None => MBCWrapper::empty(),
        };
        Ok(
            MemoryBus {
                wram: [0x00u8;WRAM_SIZE],
                zram: [0x00u8;ZRAM_SIZE],
                mbc,
                serial: Serial::new(),
                boot_rom,
                boot_rom_disabled: bootloader.is_none(),
                input: Joypad::new(),
                ppu: GPU::new(),
                apu: Apu::new(),
                interrupt_enable: InterruptFlag::empty(),
            },
        )
    }

    pub fn write_byte(&mut self, addr: u16, value: u8)
        ensures
            final(self)@ == old(self)@.write(addr, value),
            final(self)@.ppu.phase() == old(self)@.ppu.phase(),
    {
        reveal(BusView::write);
        match addr {
            0x0000..=0x7fff => self.mbc.write_rom(addr as usize, value),
            0x8000..=0x9fff => self.ppu.write_vram(addr, value),
            0xa000..=0xbfff => self.mbc.write_ram(addr as usize, value),
            0xc000..=0xdfff => {
                self.wram[(addr - 0xc000) as usize] = value;
            },
            0xe000..=0xfdff => {
                self.wram[(addr - 0xe000) as usize] = value;
            },
            0xfe00..=0xfe9f => self.ppu.write_vram(addr, value),
            0xfea0..=0xfeff => {},
            0xff00 => self.input.write_byte(addr, value),
            0xff01..=0xff02 => self.serial.write_byte(addr, value),
            0xff04..=0xff07 => self.ppu.write_vram(addr, value),
            0xff0f => self.ppu.write_vram(addr, value),
            0xff10..=0xff3f => self.apu.write(addr, value),
            0xff46 => self.dma_transfer(value),
            0xff40..=0xff4b => self.ppu.write_vram(addr, value),
            0xff50 => {
                if value == 1 {
                    self.boot_rom_disabled = true;
                }
            },
            0xff80..=0xfffe => {
                self.zram[(addr - 0xff80) as usize] = value;
            },
            0xffff => {
                self.interrupt_enable = InterruptFlag::from_bits_truncate(value);
            },
            _ => {},
        }
    }

    pub fn read_byte(&self, addr: u16) -> (r: u8)
        ensures
            r == self@.read(addr),
    {
        reveal(BusView::read);
        if addr < 0x100 && !self.boot_rom_disabled {
            return self.boot_rom[addr as usize];
        }
        match addr {
            0x0000..=0x7fff => self.mbc.read_rom(addr as usize),
            0x8000..=0x9fff => self.ppu.read_vram(addr),
            0xa000..=0xbfff => self.mbc.read_ram(addr as usize),
            0xc000..=0xdfff => self.wram[(addr - 0xc000) as usize],
            0xe000..=0xfdff => self.wram[(addr - 0xe000) as usize],
            0xfe00..=0xfe9f => self.ppu.read_vram(addr),
            0xfea0..=0xfeff => 0xff,
            0xff00 => self.input.read_byte(addr),
            0xff01..=0xff02 => self.serial.read_byte(addr),
            0xff04..=0xff07 => self.ppu.read_vram(addr),
            0xff0f => self.ppu.read_vram(addr),
            0xff10..=0xff3f => self.apu.read(addr),
            0xff40..=0xff4b => self.ppu.read_vram(addr),
            0xff80..=0xfffe => self.zram[(addr - 0xff80) as usize],
            0xffff => self.interrupt_enable.bits(),
            _ => 0xff,
        }
    }

    /// Copies 160 bytes from page `addr` into the sprite attributes.
    fn dma_transfer(&mut self, addr: u8)
        ensures
            final(self)@ == old(self)@.dma_upto(addr, 160),
            final(self)@.ppu.phase() == old(self)@.ppu.phase(),
    {
        let address_block: u16 = (addr as u16) * 256;
        let mut i: u16 = 0;
        while i < 160
            invariant
                i <= 160,
                address_block == addr * 256,
                self@ == old(self)@.dma_upto(addr, i as nat),
                self@.ppu.phase() == old(self)@.ppu.phase(),
            decreases 160 - i,
        {
            let value: u8 = self.read_byte(address_block + i);
            self.ppu.write_vram(0xfe00 + i, value);
            i = i + 1;
        }
    }

    pub fn check_interrupt(&self) -> (r: bool)
        ensures
            r == self@.interrupt_pending(),
    {
        self.interrupt_enable.bits & self.ppu.interrupt_flag.bits & 0x1f != 0
    }
}

impl Default for MemoryBus {
    /// The bus with an empty slot and a boot program of zero bytes mapped.
    fn default() -> (r: MemoryBus)
        ensures
            r@.initial(Some(r.boot_rom), MbcView::empty_slot()),
            r@.wf(),
            forall|i: int| 0 <= i < 256 ==> r.boot_rom[i] == 0,
    {
        MemoryBus {
            wram: [0x00u8;WRAM_SIZE],
            zram: [0x00u8;ZRAM_SIZE],
            serial: Serial::new(),
            mbc: MBCWrapper::empty(),
            ppu: GPU::new(),
            apu: Apu::new(),
            boot_rom: [0x00u8;256],
            input: Joypad::new(),
            boot_rom_disabled: false,
            interrupt_enable: InterruptFlag::empty(),
        }
    }
}


/// Whether `addr` is a byte of memory that holds what was written to it:
/// video RAM, work RAM or its mirror, sprite attributes, high RAM.
pub open spec fn plain(addr: u16) -> bool {
    0x8000 <= addr <= 0x9fff || 0xc000 <= addr <= 0xfdff || 0xfe00 <= addr <= 0xfe9f || 0xff80
        <= addr <= 0xfffe
}

/// Whether two addresses name the same byte: they are equal, or one is the
/// mirror of the other in work RAM.
pub open spec fn same_cell(a: u16, b: u16) -> bool {
    a == b || (0xc000 <= a <= 0xfdff && 0xc000 <= b <= 0xfdff && (a - b) % 0x2000 == 0)
}

/// A byte written to video RAM, work RAM, the sprite attributes or high RAM
/// is read back; the interrupt registers read back the five bits they hold.
pub proof fn lemma_write_then_read(bus: BusView, addr: u16, v: u8)
    ensures
        plain(addr) ==> bus.write(addr, v).read(addr) == v,
        addr == 0xffff || addr == 0xff0f ==> bus.write(addr, v).read(addr) == v & 0x1f,
{
    reveal(BusView::write);
    reveal(BusView::read);
}

/// A write to one byte of memory leaves every other byte of memory as it
/// was.
pub proof fn lemma_write_keeps_others(bus: BusView, addr: u16, other: u16, v: u8)
    requires
        plain(addr),
        plain(other),
        !same_cell(addr, other),
    ensures
        bus.write(addr, v).read(other) == bus.read(other),
{
    reveal(BusView::write);
    reveal(BusView::read);
}

/// A transfer into the sprite attributes changes nothing but the picture
/// unit, and there neither the requested interrupts nor the place in the
/// frame.
pub proof fn lemma_dma_keeps(bus: BusView, page: u8, count: nat)
    requires
        count <= 160,
    ensures
        bus.dma_upto(page, count).ppu.interrupt_flag == bus.ppu.interrupt_flag,
        bus.dma_upto(page, count).interrupt_enable == bus.interrupt_enable,
        bus.dma_upto(page, count).wram == bus.wram,
        bus.dma_upto(page, count).zram == bus.zram,
    decreases count,
{
    if count > 0 {
        lemma_dma_keeps(bus, page, (count - 1) as nat);
    }
}

/// Only a write to 0xFF0F changes the requested interrupts, and only one to
/// 0xFFFF the enabled ones.
pub proof fn lemma_write_keeps_interrupts(bus: BusView, addr: u16, v: u8)
    ensures
        addr != 0xff0f ==> bus.write(addr, v).ppu.interrupt_flag == bus.ppu.interrupt_flag,
        addr != 0xffff ==> bus.write(addr, v).interrupt_enable == bus.interrupt_enable,
{
    reveal(BusView::write);
    lemma_dma_keeps(bus, v, 160);
}


/// The line counter reads 0 to 153, and 0 while the display is off.
pub proof fn lemma_ly_read(bus: BusView)
    ensures
        bus.wf() ==> bus.read(0xff44) <= 153,
        !bus.ppu.lcdc.display_on() ==> bus.read(0xff44) == 0,
{
    reveal(BusView::read);
}


/// A transfer into the sprite attributes fills the first `count` of them
/// with the bytes that the bus held at the start of the page, and changes
/// nothing else.
pub proof fn lemma_dma_upto(bus: BusView, page: u8, count: nat)
    requires
        count <= 160,
    ensures
        forall|i: int|
            0 <= i < count ==> #[trigger] bus.dma_upto(page, count).ppu.oam[i] == bus.read(
                (page * 256 + i) as u16,
            ),
        forall|i: int|
            count <= i < 160 ==> #[trigger] bus.dma_upto(page, count).ppu.oam[i] == bus.ppu.oam[i],
        bus.dma_upto(page, count) == (BusView {
            ppu: crate::dmg::gpu::GPU { oam: bus.dma_upto(page, count).ppu.oam, ..bus.ppu },
            ..bus
        }),
    decreases count,
{
    reveal(BusView::read);
    if count > 0 {
        lemma_dma_upto(bus, page, (count - 1) as nat);
    }
}

/// A write of `page` to 0xFF46 copies the 160 bytes from `page * 256` on into
/// the sprite attributes.
pub proof fn lemma_dma(bus: BusView, page: u8)
    ensures
        forall|i: int|
            0 <= i < 160 ==> #[trigger] bus.write(0xff46, page).ppu.oam[i] == bus.read(
                (page * 256 + i) as u16,
            ),
        bus.write(0xff46, page) == (BusView {
            ppu: crate::dmg::gpu::GPU { oam: bus.write(0xff46, page).ppu.oam, ..bus.ppu },
            ..bus
        }),
{
    reveal(BusView::write);
    lemma_dma_upto(bus, page, 160);
}

} // verus!
