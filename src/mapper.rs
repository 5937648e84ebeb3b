//! Cartridge mappers: how the CPU's 0x4020..=0xFFFF and the PPU's
//! 0x0000..=0x1FFF reach the cartridge, and which nametable mirroring
//! applies.
use vstd::prelude::*;
use crate::cartridge::{Cartridge, chr_written, ram_written, cart_same};
use crate::ppu::MirroringMode;
use crate::mmc1::MMC1;
use crate::mmc3::MMC3;

verus! {

/// A mapper's effect on its cartridge for a write of `val` at `addr`, when
/// pattern memory is at `chr_index` and work RAM takes writes (`ram_on`).
pub open spec fn plain_write(c: Cartridge, n: Cartridge, addr: u16, val: u8, chr_index: int, ram_on: bool) -> bool {
    if addr <= 0x1FFF {
        chr_written(c, n, chr_index, val)
    } else if 0x6000 <= addr <= 0x7FFF && ram_on {
        ram_written(c, n, (addr - 0x6000) % c.prg_ram@.len() as int, val)
    } else {
        cart_same(c, n)
    }
}

/// Mapper 0: fixed PRG and CHR.
pub struct NROM {
    pub cartridge: Cartridge,
}

impl NROM {
    pub fn new(cartridge: Cartridge) -> (r: NROM)
        ensures
            r.cartridge == cartridge,
    {
        NROM { cartridge }
    }

    pub open spec fn wf(&self) -> bool {
        self.cartridge.wf()
    }

    pub open spec fn read(self, addr: u16) -> u8 {
        if addr <= 0x1FFF {
            self.cartridge.chr(addr as int)
        } else if 0x6000 <= addr <= 0x7FFF {
            self.cartridge.ram(addr - 0x6000)
        } else if addr >= 0x8000 {
            self.cartridge.prg(addr - 0x8000)
        } else {
            0
        }
    }

    pub fn read_byte(&self, addr: u16) -> (r: u8)
        requires
            self.wf(),
        ensures
            r == self.read(addr),
    {
        if addr <= 0x1FFF {
            self.cartridge.read_chr_rom(addr as usize)
        } else if 0x6000 <= addr && addr <= 0x7FFF {
            self.cartridge.read_prg_ram(addr as usize - 0x6000)
        } else if addr >= 0x8000 {
            self.cartridge.read_prg_rom(addr as usize - 0x8000)
        } else {
            0
        }
    }

    /// Whether `n` is this mapper after a write of `val` at `addr`.
    pub open spec fn written(self, n: Self, addr: u16, val: u8) -> bool {
        &&& plain_write(self.cartridge, n.cartridge, addr, val, addr as int, true)
    }

    pub fn write_byte(&mut self, addr: u16, val: u8)
        requires
            old(self).wf(),
        ensures
            final(self).wf(),
            old(self).written(*final(self), addr, val),
    {
        if addr <= 0x1FFF {
            self.cartridge.write_chr_rom(addr as usize, val);
        } else if 0x6000 <= addr && addr <= 0x7FFF {
            let a = (addr as usize - 0x6000) % self.cartridge.prg_ram_len();
            self.cartridge.write_prg_ram(a, val);
        }
    }

    pub fn mirroring_mode(&self) -> (r: MirroringMode)
        ensures
            r == self.cartridge.mirroring_mode,
    {
        self.cartridge.mirroring_mode
    }
}

/// The boards that share mapper 2's logic.
#[derive(PartialEq, Eq, Structural, Clone, Copy, Debug)]
pub enum Variant {
    /// Mapper 2: switchable low bank, last bank fixed high.
    UNROM,
    /// Mapper 94: as UNROM, with the bank number in bits 2..=4.
    UN1ROM,
    /// Mapper 180: first bank fixed low, switchable high bank.
    Mapper180,
}

/// Mappers 2, 94 and 180: one switchable 16 KiB PRG bank.
pub struct UxROM {
    pub cartridge: Cartridge,
    pub variant: Variant,
    pub prg_rom_bank: u8,
}

impl UxROM {
    pub fn new(cartridge: Cartridge, variant: Variant) -> (r: UxROM)
        ensures
            r.cartridge == cartridge,
            r.variant == variant,
            r.prg_rom_bank == 0,
    {
        UxROM { cartridge, variant, prg_rom_bank: 0 }
    }

    pub open spec fn wf(&self) -> bool {
        self.cartridge.wf()
    }

    pub open spec fn read(self, addr: u16) -> u8 {
        let last = self.cartridge.prg_rom@.len() / 0x4000 - 1;
        if addr <= 0x1FFF {
            self.cartridge.chr(addr as int)
        } else if 0x8000 <= addr <= 0xBFFF {
            let bank = if self.variant == Variant::Mapper180 { 0 } else { self.prg_rom_bank as int };
            self.cartridge.prg(bank * 0x4000 + addr - 0x8000)
        } else if addr >= 0xC000 {
            let bank = if self.variant == Variant::Mapper180 { self.prg_rom_bank as int } else { last };
            self.cartridge.prg(bank * 0x4000 + addr - 0xC000)
        } else {
            0
        }
    }

    pub fn read_byte(&self, addr: u16) -> (r: u8)
        requires
            self.wf(),
        ensures
            r == self.read(addr),
    {
        if addr <= 0x1FFF {
            self.cartridge.read_chr_rom(addr as usize)
        } else if 0x8000 <= addr && addr <= 0xBFFF {
            let bank: usize = match self.variant {
                Variant::Mapper180 => 0,
                _ => self.prg_rom_bank as usize,
            };
            self.cartridge.read_prg_rom(bank * 0x4000 + addr as usize - 0x8000)
        } else if addr >= 0xC000 {
            let bank: usize = match self.variant {
                Variant::Mapper180 => self.prg_rom_bank as usize,
                _ => self.cartridge.prg_rom_len() / 0x4000 - 1,
            };
            self.cartridge.read_prg_rom(bank * 0x4000 + addr as usize - 0xC000)
        } else {
            0
        }
    }

    /// Whether `n` is this mapper after a write of `val` at `addr`.
    pub open spec fn written(self, n: Self, addr: u16, val: u8) -> bool {
        &&& n.variant == self.variant
        &&& addr >= 0x8000 ==> n.prg_rom_bank == (if self.variant == Variant::UN1ROM {
                    (val >> 2u8) & 0x07
            } else {
                    val & 0x07
            })
        &&& addr < 0x8000 ==> n.prg_rom_bank == self.prg_rom_bank
        &&& plain_write(self.cartridge, n.cartridge, addr, val, addr as int, false)
    }

    pub fn write_byte(&mut self, addr: u16, val: u8)
        requires
            old(self).wf(),
        ensures
            final(self).wf(),
            old(self).written(*final(self), addr, val),
    {
        if addr <= 0x1FFF {
            self.cartridge.write_chr_rom(addr as usize, val);
        } else if addr >= 0x8000 {
            self.prg_rom_bank = match self.variant {
                Variant::UN1ROM => (val >> 2u8) & 0x07,
                _ => val & 0x07,
            };
        }
    }

    pub fn mirroring_mode(&self) -> (r: MirroringMode)
        ensures
            r == self.cartridge.mirroring_mode,
    {
        self.cartridge.mirroring_mode
    }
}

/// Mapper 3: switchable 8 KiB CHR bank.
pub struct CNROM {
    pub cartridge: Cartridge,
    pub chr_rom_bank: u8,
}

impl CNROM {
    pub fn new(cartridge: Cartridge) -> (r: CNROM)
        ensures
            r.cartridge == cartridge,
            r.chr_rom_bank == 0,
    {
        CNROM { cartridge, chr_rom_bank: 0 }
    }

    pub open spec fn wf(&self) -> bool {
        self.cartridge.wf()
    }

    pub open spec fn read(self, addr: u16) -> u8 {
        if addr <= 0x1FFF {
            self.cartridge.chr(self.chr_rom_bank as int * 0x2000 + addr)
        } else if addr >= 0x8000 && self.cartridge.prg_rom@.len() == 0x8000 {
            self.cartridge.prg(addr - 0x8000)
        } else if addr >= 0x8000 {
            self.cartridge.prg((addr - 0x8000) % 0x4000)
        } else {
            0
        }
    }

    pub fn read_byte(&self, addr: u16) -> (r: u8)
        requires
            self.wf(),
        ensures
            r == self.read(addr),
    {
        if addr <= 0x1FFF {
            self.cartridge.read_chr_rom(self.chr_rom_bank as usize * 0x2000 + addr as usize)
        } else if addr >= 0x8000 && self.cartridge.prg_rom_len() == 0x8000 {
            self.cartridge.read_prg_rom(addr as usize - 0x8000)
        } else if addr >= 0x8000 {
            self.cartridge.read_prg_rom((addr as usize - 0x8000) % 0x4000)
        } else {
            0
        }
    }

    /// Whether `n` is this mapper after a write of `val` at `addr`.
    pub open spec fn written(self, n: Self, addr: u16, val: u8) -> bool {
        &&& n.cartridge == self.cartridge
        &&& n.chr_rom_bank == (if addr >= 0x8000 {
                    val & 0x03
            } else {
                    self.chr_rom_bank
            })
    }

    /// Only the bank select at 0x8000..=0xFFFF takes writes.
    pub fn write_byte(&mut self, addr: u16, val: u8)
        ensures
            old(self).written(*final(self), addr, val),
    {
        if addr >= 0x8000 {
            self.chr_rom_bank = val & 0x03;
        }
    }

    pub fn mirroring_mode(&self) -> (r: MirroringMode)
        ensures
            r == self.cartridge.mirroring_mode,
    {
        self.cartridge.mirroring_mode
    }
}

/// Mapper 7: switchable 32 KiB PRG bank and single-screen mirroring.
pub struct AxROM {
    pub cartridge: Cartridge,
    pub mirroring_mode: MirroringMode,
    pub prg_rom_bank: u8,
}

impl AxROM {
    pub fn new(cartridge: Cartridge) -> (r: AxROM)
        ensures
            r.cartridge == cartridge,
            r.mirroring_mode == MirroringMode::Lower,
            r.prg_rom_bank == 0,
    {
        AxROM { cartridge, mirroring_mode: MirroringMode::Lower, prg_rom_bank: 0 }
    }

    pub open spec fn wf(&self) -> bool {
        self.cartridge.wf()
    }

    pub open spec fn read(self, addr: u16) -> u8 {
        if addr <= 0x1FFF {
            self.cartridge.chr(addr as int)
        } else if addr >= 0x8000 {
            self.cartridge.prg(self.prg_rom_bank as int * 0x8000 + addr - 0x8000)
        } else {
            0
        }
    }

    pub fn read_byte(&self, addr: u16) -> (r: u8)
        requires
            self.wf(),
        ensures
            r == self.read(addr),
    {
        if addr <= 0x1FFF {
            self.cartridge.read_chr_rom(addr as usize)
        } else if addr >= 0x8000 {
            self.cartridge.read_prg_rom(self.prg_rom_bank as usize * 0x8000 + addr as usize - 0x8000)
        } else {
            0
        }
    }

    /// Whether `n` is this mapper after a write of `val` at `addr`.
    pub open spec fn written(self, n: Self, addr: u16, val: u8) -> bool {
        &&& addr >= 0x8000 ==> n.prg_rom_bank == val & 0x07
                    && n.mirroring_mode == (if val & 0x10 == 0 {
                    MirroringMode::Lower
            } else {
                    MirroringMode::Upper
            })
        &&& addr < 0x8000 ==> n.prg_rom_bank == self.prg_rom_bank
                    && n.mirroring_mode == self.mirroring_mode
        &&& plain_write(self.cartridge, n.cartridge, addr, val, addr as int, false)
    }

    pub fn write_byte(&mut self, addr: u16, val: u8)
        requires
            old(self).wf(),
        ensures
            final(self).wf(),
            old(self).written(*final(self), addr, val),
    {
        if addr <= 0x1FFF {
            self.cartridge.write_chr_rom(addr as usize, val);
        } else if addr >= 0x8000 {
            self.mirroring_mode = if val & 0x10 == 0 {
                MirroringMode::Lower
            } else {
                MirroringMode::Upper
            };
            self.prg_rom_bank = val & 0x07;
        }
    }
}

/// Mapper 11: switchable 32 KiB PRG bank and 8 KiB CHR bank.
pub struct ColorDreams {
    pub cartridge: Cartridge,
    pub prg_rom_bank: u8,
    pub chr_rom_bank: u8,
}

impl ColorDreams {
    pub fn new(cartridge: Cartridge) -> (r: ColorDreams)
        ensures
            r.cartridge == cartridge,
            r.prg_rom_bank == 0,
            r.chr_rom_bank == 0,
    {
        ColorDreams { cartridge, prg_rom_bank: 0, chr_rom_bank: 0 }
    }

    pub open spec fn wf(&self) -> bool {
        self.cartridge.wf()
    }

    pub open spec fn read(self, addr: u16) -> u8 {
        if addr <= 0x1FFF {
            self.cartridge.chr(self.chr_rom_bank as int * 0x2000 + addr)
        } else if addr >= 0x8000 {
            self.cartridge.prg(self.prg_rom_bank as int * 0x8000 + addr - 0x8000)
        } else {
            0
        }
    }

    pub fn read_byte(&self, addr: u16) -> (r: u8)
        requires
            self.wf(),
        ensures
            r == self.read(addr),
    {
        if addr <= 0x1FFF {
            self.cartridge.read_chr_rom(self.chr_rom_bank as usize * 0x2000 + addr as usize)
        } else if addr >= 0x8000 {
            self.cartridge.read_prg_rom(self.prg_rom_bank as usize * 0x8000 + addr as usize - 0x8000)
        } else {
            0
        }
    }

    /// Whether `n` is this mapper after a write of `val` at `addr`.
    pub open spec fn written(self, n: Self, addr: u16, val: u8) -> bool {
        &&& addr >= 0x8000 ==> n.prg_rom_bank == val & 0x03
                    && n.chr_rom_bank == (val >> 4u8) & 0x0F
        &&& addr < 0x8000 ==> n.prg_rom_bank == self.prg_rom_bank
                    && n.chr_rom_bank == self.chr_rom_bank
        &&& plain_write(
                    self.cartridge,
                    n.cartridge,
                    addr,
                    val,
                    self.chr_rom_bank as int * 0x2000 + addr,
                    false
            )
    }

    pub fn write_byte(&mut self, addr: u16, val: u8)
        requires
            old(self).wf(),
        ensures
            final(self).wf(),
            old(self).written(*final(self), addr, val),
    {
        if addr <= 0x1FFF {
            self.cartridge.write_chr_rom(self.chr_rom_bank as usize * 0x2000 + addr as usize, val);
        } else if addr >= 0x8000 {
            self.prg_rom_bank = val & 0x03;
            self.chr_rom_bank = (val >> 4u8) & 0x0F;
        }
    }

    pub fn mirroring_mode(&self) -> (r: MirroringMode)
        ensures
            r == self.cartridge.mirroring_mode,
    {
        self.cartridge.mirroring_mode
    }
}

/// The mapper number that no board here implements.
#[derive(PartialEq, Eq, Structural, Clone, Copy, Debug)]
pub struct UnsupportedMapper {
    pub mapper: u8,
}

/// Whether a board for mapper number `m` is implemented.
pub open spec fn supported(m: u8) -> bool {
    m == 0 || m == 1 || m == 2 || m == 3 || m == 4 || m == 7 || m == 11 || m == 94 || m == 180
}

/// A cartridge board of any implemented kind.
pub enum Mapper {
    Nrom(NROM),
    Mmc1(MMC1),
    Uxrom(UxROM),
    Cnrom(CNROM),
    Mmc3(MMC3),
    Axrom(AxROM),
    ColorDreams(ColorDreams),
}

/// Installs the board that the cartridge's mapper number names.
pub fn from_cartridge(cartridge: Cartridge) -> (r: Result<Mapper, UnsupportedMapper>)
    ensures
        supported(cartridge.mapper) <==> r is Ok,
        !supported(cartridge.mapper) ==> r == Err::<Mapper, UnsupportedMapper>(
            UnsupportedMapper { mapper: cartridge.mapper },
        ),
        r is Ok ==> r->Ok_0.cartridge() == cartridge,
        cartridge.mapper == 0 ==> r matches Ok(Mapper::Nrom(_)),
        cartridge.mapper == 1 ==> r matches Ok(Mapper::Mmc1(_)),
        cartridge.mapper == 2 ==> (r matches Ok(Mapper::Uxrom(m)) && m.variant == Variant::UNROM),
        cartridge.mapper == 3 ==> r matches Ok(Mapper::Cnrom(_)),
        cartridge.mapper == 4 ==> r matches Ok(Mapper::Mmc3(_)),
        cartridge.mapper == 7 ==> r matches Ok(Mapper::Axrom(_)),
        cartridge.mapper == 11 ==> r matches Ok(Mapper::ColorDreams(_)),
        cartridge.mapper == 94 ==> (r matches Ok(Mapper::Uxrom(m)) && m.variant == Variant::UN1ROM),
        cartridge.mapper == 180 ==> (r matches Ok(Mapper::Uxrom(m)) && m.variant == Variant::Mapper180),
        r is Ok ==> r->Ok_0.fresh(),
{
    let m = cartridge.mapper;
    if m == 0 {
        Ok(Mapper::Nrom(NROM::new(cartridge)))
    } else if m == 1 {
        Ok(Mapper::Mmc1(MMC1::new(cartridge)))
    } else if m == 2 {
        Ok(Mapper::Uxrom(UxROM::new(cartridge, Variant::UNROM)))
    } else if m == 3 {
        Ok(Mapper::Cnrom(CNROM::new(cartridge)))
    } else if m == 4 {
        Ok(Mapper::Mmc3(MMC3::new(cartridge)))
    } else if m == 7 {
        Ok(Mapper::Axrom(AxROM::new(cartridge)))
    } else if m == 11 {
        Ok(Mapper::ColorDreams(ColorDreams::new(cartridge)))
    } else if m == 94 {
        Ok(Mapper::Uxrom(UxROM::new(cartridge, Variant::UN1ROM)))
    } else if m == 180 {
        Ok(Mapper::Uxrom(UxROM::new(cartridge, Variant::Mapper180)))
    } else {
        Err(UnsupportedMapper { mapper: m })
    }
}

impl Mapper {
    /// The cartridge that the board holds.
    pub open spec fn cartridge(self) -> Cartridge {
        match self {
            Mapper::Nrom(m) => m.cartridge,
            Mapper::Mmc1(m) => m.cartridge,
            Mapper::Uxrom(m) => m.cartridge,
            Mapper::Cnrom(m) => m.cartridge,
            Mapper::Mmc3(m) => m.cartridge,
            Mapper::Axrom(m) => m.cartridge,
            Mapper::ColorDreams(m) => m.cartridge,
        }
    }

    /// The board's registers hold their power-on values.
    pub open spec fn fresh(self) -> bool {
        match self {
            Mapper::Nrom(_) => true,
            Mapper::Mmc1(m) => m.r.sr == 0x10 && m.r.prg_rom_bank_mode
                == crate::mmc1::PrgRomBankMode::FixLastBank,
            Mapper::Uxrom(m) => m.prg_rom_bank == 0,
            Mapper::Cnrom(m) => m.chr_rom_bank == 0,
            Mapper::Mmc3(m) => m.r.wf() && m.r.bank_data@ == seq![0u8, 0, 0, 0, 0, 0, 0, 0]
                && m.r.irq_counter == 0 && m.r.irq_latch == 0 && !m.r.irq_enabled,
            Mapper::Axrom(m) => m.prg_rom_bank == 0 && m.mirroring_mode == MirroringMode::Lower,
            Mapper::ColorDreams(m) => m.prg_rom_bank == 0 && m.chr_rom_bank == 0,
        }
    }

    pub open spec fn wf(self) -> bool {
        match self {
            Mapper::Nrom(m) => m.wf(),
            Mapper::Mmc1(m) => m.wf(),
            Mapper::Uxrom(m) => m.wf(),
            Mapper::Cnrom(m) => m.wf(),
            Mapper::Mmc3(m) => m.wf(),
            Mapper::Axrom(m) => m.wf(),
            Mapper::ColorDreams(m) => m.wf(),
        }
    }

    pub open spec fn read(self, addr: u16) -> u8 {
        match self {
            Mapper::Nrom(m) => m.read(addr),
            Mapper::Mmc1(m) => m.read(addr),
            Mapper::Uxrom(m) => m.read(addr),
            Mapper::Cnrom(m) => m.read(addr),
            Mapper::Mmc3(m) => m.read(addr),
            Mapper::Axrom(m) => m.read(addr),
            Mapper::ColorDreams(m) => m.read(addr),
        }
    }

    /// Whether `n` is this board after a write of `val` at `addr`.
    pub open spec fn written(self, n: Mapper, addr: u16, val: u8) -> bool {
        match (self, n) {
            (Mapper::Nrom(a), Mapper::Nrom(b)) => a.written(b, addr, val),
            (Mapper::Mmc1(a), Mapper::Mmc1(b)) => a.written(b, addr, val),
            (Mapper::Uxrom(a), Mapper::Uxrom(b)) => a.written(b, addr, val),
            (Mapper::Cnrom(a), Mapper::Cnrom(b)) => a.written(b, addr, val),
            (Mapper::Mmc3(a), Mapper::Mmc3(b)) => a.written(b, addr, val),
            (Mapper::Axrom(a), Mapper::Axrom(b)) => a.written(b, addr, val),
            (Mapper::ColorDreams(a), Mapper::ColorDreams(b)) => a.written(b, addr, val),
            _ => false,
        }
    }

    pub open spec fn mirroring(self) -> MirroringMode {
        match self {
            Mapper::Mmc1(m) => m.r.mirroring_mode,
            Mapper::Mmc3(m) => if m.cartridge.mirroring_mode == MirroringMode::FourScreen {
                MirroringMode::FourScreen
            } else {
                m.r.mirroring_mode
            },
            Mapper::Axrom(m) => m.mirroring_mode,
            _ => self.cartridge().mirroring_mode,
        }
    }

    /// Reads the byte that the CPU (0x4020 and above) or the PPU (below
    /// 0x2000) sees at `addr`.
    pub fn read_byte(&self, addr: u16) -> (r: u8)
        requires
            self.wf(),
        ensures
            r == self.read(addr),
    {
        match self {
            Mapper::Nrom(m) => m.read_byte(addr),
            Mapper::Mmc1(m) => m.read_byte(addr),
            Mapper::Uxrom(m) => m.read_byte(addr),
            Mapper::Cnrom(m) => m.read_byte(addr),
            Mapper::Mmc3(m) => m.read_byte(addr),
            Mapper::Axrom(m) => m.read_byte(addr),
            Mapper::ColorDreams(m) => m.read_byte(addr),
        }
    }

    /// Writes at `addr`: bank registers, work RAM or pattern RAM.
    pub fn write_byte(&mut self, addr: u16, val: u8)
        requires
            old(self).wf(),
        ensures
            final(self).wf(),
            old(self).written(*final(self), addr, val),
    {
        match self {
            Mapper::Nrom(m) => m.write_byte(addr, val),
            Mapper::Mmc1(m) => m.write_byte(addr, val),
            Mapper::Uxrom(m) => m.write_byte(addr, val),
            Mapper::Cnrom(m) => m.write_byte(addr, val),
            Mapper::Mmc3(m) => m.write_byte(addr, val),
            Mapper::Axrom(m) => m.write_byte(addr, val),
            Mapper::ColorDreams(m) => m.write_byte(addr, val),
        }
    }

    pub fn mirroring_mode(&self) -> (r: MirroringMode)
        ensures
            r == self.mirroring(),
    {
        match self {
            Mapper::Nrom(m) => m.mirroring_mode(),
            Mapper::Mmc1(m) => m.mirroring_mode(),
            Mapper::Uxrom(m) => m.mirroring_mode(),
            Mapper::Cnrom(m) => m.mirroring_mode(),
            Mapper::Mmc3(m) => m.mirroring_mode(),
            Mapper::Axrom(m) => m.mirroring_mode,
            Mapper::ColorDreams(m) => m.mirroring_mode(),
        }
    }

    /// Whether `n` and `irq` are this board after one clock with the PPU
    /// at (`cycle`, `scanline`) and rendering on or off.
    pub open spec fn clocked(self, cycle: u16, scanline: i16, rendering_enabled: bool, n: Mapper, irq: bool) -> bool {
        &&& n.wf()
        &&& n.cartridge() == self.cartridge()
        &&& n.mirroring() == self.mirroring()
        &&& !(self is Mmc3) ==> n == self && !irq
        &&& self is Mmc3 ==> ({
                    let m = self->Mmc3_0;
                    let counts = cycle == 260 && scanline < 240 && rendering_enabled;
                    &&& n == Mapper::Mmc3(MMC3 {
                        r: if counts {
                            crate::mmc3::Registers {
                                irq_counter: if m.r.irq_counter == 0 {
                                    m.r.irq_latch
                                } else {
                                    (m.r.irq_counter - 1) as u8
                                },
                                ..m.r
                            }
                        } else {
                            m.r
                        },
                        ..m
                    })
                    &&& irq == (counts && m.r.irq_counter == 1 && m.r.irq_enabled)
            })
    }

    /// Clocks a board with its own counter (MMC3) once per CPU cycle, given
    /// where the PPU stands; returns whether it raised an interrupt.
    pub fn step(&mut self, cycle: u16, scanline: i16, rendering_enabled: bool) -> (irq: bool)
        requires
            old(self).wf(),
        ensures
            final(self).wf(),
            old(self).clocked(cycle, scanline, rendering_enabled, *final(self), irq),
    {
        match self {
            Mapper::Mmc3(m) => m.step(cycle, scanline, rendering_enabled),
            _ => false,
        }
    }
}

impl Mapper {
    /// The board's battery-backed memory, if it has a battery.
    pub fn save(&self) -> (r: Option<Vec<u8>>)
        ensures
            !self.cartridge().has_battery ==> r is None,
            self.cartridge().has_battery ==> r is Some && r->0@ == crate::cartridge::battery_blob(
                self.cartridge(),
            ),
    {
        match self {
            Mapper::Nrom(m) => m.cartridge.save(),
            Mapper::Mmc1(m) => m.cartridge.save(),
            Mapper::Uxrom(m) => m.cartridge.save(),
            Mapper::Cnrom(m) => m.cartridge.save(),
            Mapper::Mmc3(m) => m.cartridge.save(),
            Mapper::Axrom(m) => m.cartridge.save(),
            Mapper::ColorDreams(m) => m.cartridge.save(),
        }
    }

    /// Restores the board's battery-backed memory from `save`'s blob.
    pub fn load(&mut self, data: &[u8]) -> (r: Result<(), crate::cartridge::SaveError>)
        requires
            old(self).wf(),
        ensures
            final(self).wf(),
            data@.len() != crate::cartridge::battery_blob(old(self).cartridge()).len() ==> r
                == Err::<(), crate::cartridge::SaveError>(crate::cartridge::SaveError::WrongLength)
                && *final(self) == *old(self),
            data@.len() == crate::cartridge::battery_blob(old(self).cartridge()).len() ==> r is Ok
                && crate::cartridge::battery_blob(final(self).cartridge()) == data@,
    {
        match self {
            Mapper::Nrom(m) => m.cartridge.load(data),
            Mapper::Mmc1(m) => m.cartridge.load(data),
            Mapper::Uxrom(m) => m.cartridge.load(data),
            Mapper::Cnrom(m) => m.cartridge.load(data),
            Mapper::Mmc3(m) => m.cartridge.load(data),
            Mapper::Axrom(m) => m.cartridge.load(data),
            Mapper::ColorDreams(m) => m.cartridge.load(data),
        }
    }
}

} // verus!
