//! The cartridge: its header, its ROM and RAM, and the bank controller that
//! maps them into the address space.
use vstd::prelude::*;

verus! {

pub type RomBuffer = Vec<u8>;

/// The cartridge types that the header byte at 0x147 names.
#[derive(Debug, Copy, Clone, PartialEq, Eq, Structural)]
pub enum MBC {
    NoMbc,
    Mbc1,
    Mbc1ExternalRam,
    Mbc1BatteryExternalRam,
    Mbc2,
    Mbc2ExternalRam,
    RomExternatRam,
    RomBatteryExternatRam,
}

/// Why a cartridge image was turned down.
#[derive(Debug, Copy, Clone, PartialEq, Eq, Structural)]
pub enum CartridgeError {
    /// The type byte of the header, which is carried along, is not one of
    /// the supported types.
    UnsupportedType(u8),
}

impl MBC {
    pub open spec fn of_code(value: u8) -> Result<MBC, ()> {
        match value {
            0x00u8 => Ok(MBC::NoMbc),
            0x01u8 => Ok(MBC::Mbc1),
            0x02u8 => Ok(MBC::Mbc1ExternalRam),
            0x03u8 => Ok(MBC::Mbc1BatteryExternalRam),
            0x05u8 => Ok(MBC::Mbc2),
            0x06u8 => Ok(MBC::Mbc2ExternalRam),
            0x08u8 => Ok(MBC::RomExternatRam),
            0x09u8 => Ok(MBC::RomBatteryExternatRam),
            _ => Err(()),
        }
    }

    pub fn try_from(value: u8) -> (r: Result<MBC, ()>)
        ensures
            r == Self::of_code(value),
    {
        match value {
            0x00 => Ok(MBC::NoMbc),
            0x01 => Ok(MBC::Mbc1),
            0x02 => Ok(MBC::Mbc1ExternalRam),
            0x03 => Ok(MBC::Mbc1BatteryExternalRam),
            0x05 => Ok(MBC::Mbc2),
            0x06 => Ok(MBC::Mbc2ExternalRam),
            0x08 => Ok(MBC::RomExternatRam),
            0x09 => Ok(MBC::RomBatteryExternatRam),
            _ => Err(()),
        }
    }
}

/// The byte of `rom` at `idx`, or `missing` past its end.
pub open spec fn byte_or(rom: Seq<u8>, idx: int, missing: u8) -> u8 {
    if 0 <= idx < rom.len() {
        rom[idx]
    } else {
        missing
    }
}

/// The number of 8 KiB RAM banks that the header byte at 0x149 stands for.
pub open spec fn ram_banks_spec(v: u8) -> usize {
    if v == 1 || v == 2 {
        1
    } else if v == 3 {
        4
    } else if v == 4 {
        16
    } else if v == 5 {
        8
    } else {
        0
    }
}

/// The number of 16 KiB ROM banks that the header byte at 0x148 stands for:
/// 2, 4, ..., 512, and 0 for a byte above 8.
pub open spec fn rom_banks_spec(v: u8) -> usize {
    if v == 0 {
        2
    } else if v == 1 {
        4
    } else if v == 2 {
        8
    } else if v == 3 {
        16
    } else if v == 4 {
        32
    } else if v == 5 {
        64
    } else if v == 6 {
        128
    } else if v == 7 {
        256
    } else if v == 8 {
        512
    } else {
        0
    }
}

pub fn ram_banks(v: u8) -> (r: usize)
    ensures
        r == ram_banks_spec(v),
{
    match v {
        1 | 2 => 1,
        3 => 4,
        4 => 16,
        5 => 8,
        _ => 0,
    }
}

pub fn rom_banks(v: u8) -> (r: usize)
    ensures
        r == rom_banks_spec(v),
        v <= 8 ==> r >= 2,
{
    let mut r: usize = 0;
    if v <= 8 {
        r = 2;
        let mut i: u8 = 0;
        while i < v
            invariant
                i <= v <= 8,
                r == rom_banks_spec(i),
            decreases v - i,
        {
            r = r * 2;
            i = i + 1;
        }
    }
    r
}

/// A vector of `n` zero bytes.
fn zeroed(n: usize) -> (r: Vec<u8>)
    ensures
        r@ == Seq::new(n as nat, |i: int| 0u8),
{
    let mut r: Vec<u8> = Vec::new();
    let mut i: usize = 0;
    while i < n
        invariant
            i <= n,
            r@ == Seq::new(i as nat, |j: int| 0u8),
        decreases n - i,
    {
        r.push(0u8);
        i = i + 1;
    }
    r
}

/// A cartridge without a controller: the image is mapped as it is.
pub struct MBC0 {
    pub rom: RomBuffer,
}

impl MBC0 {
    pub fn new(rom: RomBuffer) -> (r: MBC0)
        ensures
            r.rom@ == rom@,
    {
        Self { rom }
    }
}

#[derive(Debug, Copy, Clone, PartialEq, Eq, Structural)]
pub enum MBC1Mode {
    RomMode,
    RamMode,
}

impl MBC1Mode {
    pub fn try_from(value: u8) -> (r: Result<MBC1Mode, ()>)
        ensures
            r == Ok::<MBC1Mode, ()>(
                if value % 2 == 0 {
                    MBC1Mode::RomMode
                } else {
                    MBC1Mode::RamMode
                },
            ),
    {
        if value % 2 == 0 {
            Ok(MBC1Mode::RomMode)
        } else {
            Ok(MBC1Mode::RamMode)
        }
    }
}

/// A cartridge with the first bank controller.
pub struct MBC1 {
    pub rom: RomBuffer,
    pub ram: Vec<u8>,
    /// The selected ROM bank: five low bits and two high bits.
    pub rom_bank: u8,
    /// The selected RAM bank.
    pub ram_bank: u8,
    /// The RAM enable latch.
    pub ram_on: bool,
    pub num_rom_banks: usize,
    pub num_ram_banks: usize,
    pub mode: MBC1Mode,
}

/// What a bank controller of the first kind holds, as plain values.
pub struct Mbc1View {
    pub rom: Seq<u8>,
    pub ram: Seq<u8>,
    pub rom_bank: u8,
    pub ram_bank: u8,
    pub ram_on: bool,
    pub num_rom_banks: usize,
    pub num_ram_banks: usize,
    pub mode: MBC1Mode,
}

impl View for MBC1 {
    type V = Mbc1View;

    open spec fn view(&self) -> Mbc1View {
        Mbc1View {
            rom: self.rom@,
            ram: self.ram@,
            rom_bank: self.rom_bank,
            ram_bank: self.ram_bank,
            ram_on: self.ram_on,
            num_rom_banks: self.num_rom_banks,
            num_ram_banks: self.num_ram_banks,
            mode: self.mode,
        }
    }
}

impl Mbc1View {
    /// The controller as it is built over an image: bank 1 selected, RAM
    /// zeroed and switched off.
    pub open spec fn initial(rom: Seq<u8>) -> Mbc1View {
        let banks = ram_banks_spec(byte_or(rom, 0x149, 0));
        Mbc1View {
            rom,
            ram: Seq::new((banks * 0x2000) as nat, |i: int| 0u8),
            rom_bank: 1,
            ram_bank: 0,
            ram_on: false,
            num_rom_banks: rom_banks_spec(byte_or(rom, 0x148, 0)),
            num_ram_banks: banks,
            mode: MBC1Mode::RomMode,
        }
    }

    /// The ROM bank that an address below 0x8000 falls into: the selected
    /// bank from 0x4000 on; below, bank 0, or in RAM mode the bank that the
    /// two high bits alone select.
    pub open spec fn rom_bank_at(self, addr: usize) -> int {
        if addr < 0x4000 {
            if self.mode == MBC1Mode::RamMode {
                (self.rom_bank / 32) * 32
            } else {
                0
            }
        } else {
            self.rom_bank as int
        }
    }

    pub open spec fn read_rom(self, addr: usize) -> u8 {
        byte_or(self.rom, self.rom_bank_at(addr) * 0x4000 + addr % 0x4000, 0xff)
    }

    /// The RAM bank in use: the selected one in RAM mode, else bank 0.
    pub open spec fn ram_bank_used(self) -> int {
        if self.mode == MBC1Mode::RamMode {
            self.ram_bank as int
        } else {
            0
        }
    }

    pub open spec fn ram_index(self, addr: usize) -> int {
        self.ram_bank_used() * 0x2000 + addr % 0x2000
    }

    pub open spec fn read_ram(self, addr: usize) -> u8 {
        if self.ram_on {
            byte_or(self.ram, self.ram_index(addr), 0xff)
        } else {
            0xff
        }
    }

    pub open spec fn write_ram(self, addr: usize, value: u8) -> Mbc1View {
        if self.ram_on && self.ram_index(addr) < self.ram.len() {
            Mbc1View { ram: self.ram.update(self.ram_index(addr), value), ..self }
        } else {
            self
        }
    }

    /// The five low bits that a write of `value` selects: 0 stands for 1.
    pub open spec fn low_bits(value: u8) -> int {
        if value % 32 == 0 {
            1
        } else {
            (value % 32) as int
        }
    }

    /// The controller after a write below 0x8000, which sets one of its four
    /// registers by the address range. The selected bank wraps at the number
    /// of banks; over a header that gives no number of banks it stays as it
    /// is.
    pub open spec fn write_rom(self, addr: usize, value: u8) -> Mbc1View {
        if addr < 0x2000 {
            Mbc1View { ram_on: value % 16 == 0x0a, ..self }
        } else if addr < 0x4000 {
            if self.num_rom_banks > 0 {
                Mbc1View {
                    rom_bank: ((((self.rom_bank / 32) % 4) * 32 + Self::low_bits(value))
                        % (self.num_rom_banks as int)) as u8,
                    ..self
                }
            } else {
                self
            }
        } else if addr < 0x6000 {
            if self.mode == MBC1Mode::RomMode {
                if self.num_rom_banks > 0x20 {
                    Mbc1View {
                        rom_bank: (self.rom_bank % 32 + (((value % 4) as int) % ((
                        self.num_rom_banks / 32) as int)) * 32) as u8,
                        ..self
                    }
                } else {
                    self
                }
            } else {
                if self.num_ram_banks > 1 {
                    Mbc1View { ram_bank: value % 4, ..self }
                } else {
                    self
                }
            }
        } else if addr < 0x8000 {
            Mbc1View {
                mode: if value % 2 == 0 {
                    MBC1Mode::RomMode
                } else {
                    MBC1Mode::RamMode
                },
                ..self
            }
        } else {
            self
        }
    }
}

impl MBC1 {
    pub fn new(rom: RomBuffer) -> (r: MBC1)
        ensures
            r@ == Mbc1View::initial(rom@),
    {
        let num_rom_banks: usize = rom_banks(
            if rom.len() > 0x148 {
                rom[0x148]
            } else {
                0u8
            },
        );
        let num_ram_banks: usize = ram_banks(
            if rom.len() > 0x149 {
                rom[0x149]
            } else {
                0u8
            },
        );
        let ram_size: usize = num_ram_banks * 0x2000;
        Self {
            rom,
            ram: zeroed(ram_size),
            mode: MBC1Mode::RomMode,
            ram_on: false,
            rom_bank: 1,
            ram_bank: 0,
            num_ram_banks,
            num_rom_banks,
        }
    }

    pub fn read_rom(&self, addr: usize) -> (r: u8)
        ensures
            r == self@.read_rom(addr),
    {
        let bank: usize = if addr < 0x4000 {
            if self.mode == MBC1Mode::RamMode {
                ((self.rom_bank / 32) * 32) as usize
            } else {
                0
            }
        } else {
            self.rom_bank as usize
        };
        let idx: usize = bank * 0x4000 + addr % 0x4000;
        if idx < self.rom.len() {
            self.rom[idx]
        } else {
            0xff
        }
    }

    pub fn read_ram(&self, addr: usize) -> (r: u8)
        ensures
            r == self@.read_ram(addr),
    {
        if !self.ram_on {
            return 0xff;
        }
        let bank: usize = if self.mode == MBC1Mode::RamMode {
            self.ram_bank as usize
        } else {
            0
        };
        let idx: usize = bank * 0x2000 + addr % 0x2000;
        if idx < self.ram.len() {
            self.ram[idx]
        } else {
            0xff
        }
    }

    pub fn write_ram(&mut self, addr: usize, value: u8)
        ensures
            final(self)@ == old(self)@.write_ram(addr, value),
    {
        if self.ram_on {
            let bank: usize = if self.mode == MBC1Mode::RamMode {
                self.ram_bank as usize
            } else {
                0
            };
            let idx: usize = bank * 0x2000 + addr % 0x2000;
            if idx < self.ram.len() {
                self.ram[idx] = value;
            }
        }
    }

    pub fn write_rom(&mut self, addr: usize, value: u8)
        ensures
            final(self)@ == old(self)@.write_rom(addr, value),
    {
        if addr < 0x2000 {
            self.ram_on = value % 16 == 0xa;
        } else if addr < 0x4000 {
            let lower_bits: usize = if value % 32 == 0 {
                1
            } else {
                (value % 32) as usize
            };
            if self.num_rom_banks > 0 {
                let high: usize = (((self.rom_bank / 32) % 4) * 32) as usize;
                self.rom_bank = ((high + lower_bits) % self.num_rom_banks) as u8;
            }
        } else if addr < 0x6000 {
            if self.mode == MBC1Mode::RomMode {
                if self.num_rom_banks > 0x20 {
                    let upper_bits: usize = ((value % 4) as usize) % (self.num_rom_banks / 32);
                    self.rom_bank = ((self.rom_bank % 32) as usize + upper_bits * 32) as u8;
                }
            } else if self.num_ram_banks > 1 {
                self.ram_bank = value % 4;
            }
        } else if addr < 0x8000 {
            self.mode = if value % 2 == 0 {
                MBC1Mode::RomMode
            } else {
                MBC1Mode::RamMode
            };
        }
    }
}

pub enum MBCType {
    Mbc0(MBC0),
    Mbc1(MBC1),
}

/// What a cartridge holds, as plain values.
pub enum MbcView {
    Mbc0(Seq<u8>),
    Mbc1(Mbc1View),
}

/// The cartridge in the slot.
pub struct MBCWrapper {
    pub variant: MBCType,
}

impl View for MBCWrapper {
    type V = MbcView;

    open spec fn view(&self) -> MbcView {
        match self.variant {
            MBCType::Mbc0(m) => MbcView::Mbc0(m.rom@),
            MBCType::Mbc1(m) => MbcView::Mbc1(m@),
        }
    }
}

impl MbcView {
    /// The header byte at 0x147, 0 for an image that ends before it.
    pub open spec fn type_code(rom: Seq<u8>) -> u8 {
        byte_or(rom, 0x147, 0)
    }

    /// Whether the header names a cartridge without a controller.
    pub open spec fn is_plain(rom: Seq<u8>) -> bool {
        Self::type_code(rom) == 0x00
    }

    /// Whether the header names the first controller: alone, with RAM, or
    /// with RAM and a battery.
    pub open spec fn is_mbc1(rom: Seq<u8>) -> bool {
        1 <= Self::type_code(rom) <= 3
    }

    /// The cartridge built over an image, or the reason it is turned down.
    /// Only a plain cartridge and the three kinds with the first controller
    /// are taken; every other type byte is turned down, whether it names a
    /// controller or nothing at all.
    pub open spec fn load(rom: Seq<u8>) -> Result<MbcView, CartridgeError> {
        if Self::is_plain(rom) {
            Ok(MbcView::Mbc0(rom))
        } else if Self::is_mbc1(rom) {
            Ok(MbcView::Mbc1(Mbc1View::initial(rom)))
        } else {
            Err(CartridgeError::UnsupportedType(Self::type_code(rom)))
        }
    }

    /// The cartridge for an image, or the empty slot where there is none.
    pub open spec fn load_or_empty(rom: Option<RomBuffer>) -> Result<MbcView, CartridgeError> {
        match rom {
            Some(image) => Self::load(image@),
            None => Ok(Self::empty_slot()),
        }
    }

    /// The slot without a cartridge: 8000 zero bytes, no controller.
    pub open spec fn empty_slot() -> MbcView {
        MbcView::Mbc0(Seq::new(8000, |i: int| 0u8))
    }

    pub open spec fn read_rom(self, addr: usize) -> u8 {
        match self {
            MbcView::Mbc0(rom) => byte_or(rom, addr as int, 0xff),
            MbcView::Mbc1(m) => m.read_rom(addr),
        }
    }

    pub open spec fn read_ram(self, addr: usize) -> u8 {
        match self {
            MbcView::Mbc0(_) => 0x00,
            MbcView::Mbc1(m) => m.read_ram(addr),
        }
    }

    pub open spec fn write_ram(self, addr: usize, value: u8) -> MbcView {
        match self {
            MbcView::Mbc0(_) => self,
            MbcView::Mbc1(m) => MbcView::Mbc1(m.write_ram(addr, value)),
        }
    }

    pub open spec fn write_rom(self, addr: usize, value: u8) -> MbcView {
        match self {
            MbcView::Mbc0(_) => self,
            MbcView::Mbc1(m) => MbcView::Mbc1(m.write_rom(addr, value)),
        }
    }
}

impl MBCWrapper {
    /// The slot without a cartridge.
    pub fn empty() -> (r: MBCWrapper)
        ensures
            r@ == MbcView::empty_slot(),
    {
        Self { variant: MBCType::Mbc0(MBC0::new(zeroed(8000))) }
    }

    /// Builds the cartridge over an image. The image is turned down when the
    /// type byte of its header is none of 0 to 3.
    pub fn new(rom: RomBuffer) -> (r: Result<MBCWrapper, CartridgeError>)
        ensures
            match r {
                Ok(m) => MbcView::load(rom@) == Ok::<MbcView, CartridgeError>(m@),
                Err(e) => MbcView::load(rom@) == Err::<MbcView, CartridgeError>(e),
            },
    {
        let code: u8 = if rom.len() > 0x147 {
            rom[0x147]
        } else {
            0u8
        };
        match MBC::try_from(code) {
            Ok(MBC::NoMbc) => Ok(Self { variant: MBCType::Mbc0(MBC0::new(rom)) }),
            Ok(MBC::Mbc1) | Ok(MBC::Mbc1BatteryExternalRam) | Ok(MBC::Mbc1ExternalRam) => {
                Ok(Self { variant: MBCType::Mbc1(MBC1::new(rom)) })
            },
            _ => Err(CartridgeError::UnsupportedType(code)),
        }
    }

    pub fn read_rom(&self, addr: usize) -> (r: u8)
        ensures
            r == self@.read_rom(addr),
    {
        match &self.variant {
            MBCType::Mbc0(m) => {
                if addr < m.rom.len() {
                    m.rom[addr]
                } else {
                    0xff
                }
            },
            MBCType::Mbc1(m) => m.read_rom(addr),
        }
    }

    pub fn read_ram(&self, addr: usize) -> (r: u8)
        ensures
            r == self@.read_ram(addr),
    {
        match &self.variant {
            MBCType::Mbc0(_) => 0x00,
            MBCType::Mbc1(m) => m.read_ram(addr),
        }
    }

    pub fn write_ram(&mut self, addr: usize, value: u8)
        ensures
            final(self)@ == old(self)@.write_ram(addr, value),
    {
        match &mut self.variant {
            MBCType::Mbc0(_) => {},
            MBCType::Mbc1(a) => a.write_ram(addr, value),
        }
    }

    pub fn write_rom(&mut self, addr: usize, value: u8)
        ensures
            final(self)@ == old(self)@.write_rom(addr, value),
    {
        match &mut self.variant {
            MBCType::Mbc0(_) => {},
            MBCType::Mbc1(a) => a.write_rom(addr, value),
        }
    }
}


impl Default for MBC {
    fn default() -> (r: MBC)
        ensures
            r == MBC::NoMbc,
    {
        MBC::NoMbc
    }
}

impl Default for MBCWrapper {
    /// The slot without a cartridge.
    fn default() -> (r: MBCWrapper)
        ensures
            r@ == MbcView::empty_slot(),
    {
        MBCWrapper::empty()
    }
}

} // verus!
