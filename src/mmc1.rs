//! Mapper 1 (MMC1): registers loaded one bit at a time through a 5-bit
//! shift register.
use vstd::prelude::*;
use crate::cartridge::{Cartridge, chr_written, ram_written, cart_same};
use crate::ppu::MirroringMode;

verus! {

/// How the two 16 KiB PRG windows are filled.
#[derive(PartialEq, Eq, Structural, Clone, Copy, Debug)]
pub enum PrgRomBankMode {
    /// One switchable 32 KiB bank.
    Switch32K,
    /// First bank fixed low, switchable bank high.
    FixFirstBank,
    /// Switchable bank low, last bank fixed high.
    FixLastBank,
}

/// How the two 4 KiB CHR windows are filled.
#[derive(PartialEq, Eq, Structural, Clone, Copy, Debug)]
pub enum ChrRomBankMode {
    /// One switchable 8 KiB bank.
    Switch8K,
    /// Two switchable 4 KiB banks.
    Switch4K,
}

/// The MMC1 register file.
pub struct Registers {
    /// Shift register; the 1 marker reaches bit 0 after four writes.
    pub sr: u8,
    pub mirroring_mode: MirroringMode,
    pub prg_rom_bank_mode: PrgRomBankMode,
    pub chr_rom_bank_mode: ChrRomBankMode,
    pub chr_rom_bank_0: u8,
    pub chr_rom_bank_1: u8,
    pub prg_rom_bank: u8,
    pub prg_ram_enabled: bool,
}

/// The mirroring selected by the low two bits of the control register.
pub open spec fn mirroring_of(v: u8) -> MirroringMode {
    if v == 0 {
        MirroringMode::Lower
    } else if v == 1 {
        MirroringMode::Upper
    } else if v == 2 {
        MirroringMode::Vertical
    } else {
        MirroringMode::Horizontal
    }
}

/// The PRG mode selected by bits 2..=3 of the control register.
pub open spec fn prg_mode_of(v: u8) -> PrgRomBankMode {
    if v <= 1 {
        PrgRomBankMode::Switch32K
    } else if v == 2 {
        PrgRomBankMode::FixFirstBank
    } else {
        PrgRomBankMode::FixLastBank
    }
}

impl Registers {
    /// Power-on state: empty shift register, PRG mode fixing the last bank.
    pub fn new() -> (r: Registers)
        ensures
            r.sr == 0x10,
            r.mirroring_mode == MirroringMode::Horizontal,
            r.prg_rom_bank_mode == PrgRomBankMode::FixLastBank,
            r.chr_rom_bank_mode == ChrRomBankMode::Switch8K,
            r.chr_rom_bank_0 == 0 && r.chr_rom_bank_1 == 0 && r.prg_rom_bank == 0,
            !r.prg_ram_enabled,
    {
        Registers {
            sr: 0x10,
            mirroring_mode: MirroringMode::Horizontal,
            prg_rom_bank_mode: PrgRomBankMode::FixLastBank,
            chr_rom_bank_mode: ChrRomBankMode::Switch8K,
            chr_rom_bank_0: 0,
            chr_rom_bank_1: 0,
            prg_rom_bank: 0,
            prg_ram_enabled: false,
        }
    }

    /// Shifts bit 0 of `val` in; a set bit 7 clears the shift register
    /// instead. On the fifth bit the completed 5-bit value comes out and the
    /// register starts over.
    pub fn push_val(&mut self, val: u8) -> (r: Option<u8>)
        ensures
            val & 0x80 != 0 ==> r is None && final(self).sr == 0x10,
            val & 0x80 == 0 && old(self).sr & 0x01 == 0 ==> r is None
                && final(self).sr == (old(self).sr >> 1u8) | ((val & 0x01) << 4u8),
            val & 0x80 == 0 && old(self).sr & 0x01 != 0 ==> r == Some(
                (old(self).sr >> 1u8) | ((val & 0x01) << 4u8),
            ) && final(self).sr == 0x10,
            final(self).mirroring_mode == old(self).mirroring_mode,
            final(self).prg_rom_bank_mode == old(self).prg_rom_bank_mode,
            final(self).chr_rom_bank_mode == old(self).chr_rom_bank_mode,
            final(self).chr_rom_bank_0 == old(self).chr_rom_bank_0,
            final(self).chr_rom_bank_1 == old(self).chr_rom_bank_1,
            final(self).prg_rom_bank == old(self).prg_rom_bank,
            final(self).prg_ram_enabled == old(self).prg_ram_enabled,
    {
        let is_full = self.sr & 0x01 != 0;
        if val & 0x80 != 0 {
            self.sr = 0x10;
            return None;
        }
        self.sr = (self.sr >> 1u8) | ((val & 0x01) << 4u8);
        if !is_full {
            return None;
        }
        let out = self.sr;
        self.sr = 0x10;
        Some(out)
    }

    pub fn write_mirroring_mode(&mut self, val: u8)
        requires
            val <= 3,
        ensures
            *final(self) == (Registers { mirroring_mode: mirroring_of(val), ..*old(self) }),
    {
        self.mirroring_mode = if val == 0 {
            MirroringMode::Lower
        } else if val == 1 {
            MirroringMode::Upper
        } else if val == 2 {
            MirroringMode::Vertical
        } else {
            MirroringMode::Horizontal
        };
    }

    pub fn write_prg_rom_bank_mode(&mut self, val: u8)
        requires
            val <= 3,
        ensures
            *final(self) == (Registers { prg_rom_bank_mode: prg_mode_of(val), ..*old(self) }),
    {
        self.prg_rom_bank_mode = if val <= 1 {
            PrgRomBankMode::Switch32K
        } else if val == 2 {
            PrgRomBankMode::FixFirstBank
        } else {
            PrgRomBankMode::FixLastBank
        };
    }

    pub fn write_chr_rom_bank_mode(&mut self, val: u8)
        requires
            val <= 1,
        ensures
            *final(self) == (Registers {
                chr_rom_bank_mode: if val == 0 {
                    ChrRomBankMode::Switch8K
                } else {
                    ChrRomBankMode::Switch4K
                },
                ..*old(self)
            }),
    {
        self.chr_rom_bank_mode = if val == 0 {
            ChrRomBankMode::Switch8K
        } else {
            ChrRomBankMode::Switch4K
        };
    }

    /// The control register: mirroring, PRG mode and CHR mode.
    pub fn write_control(&mut self, val: u8)
        ensures
            *final(self) == (Registers {
                mirroring_mode: mirroring_of(val % 4),
                prg_rom_bank_mode: prg_mode_of((val / 4) % 4),
                chr_rom_bank_mode: if (val / 16) % 2 == 0 {
                    ChrRomBankMode::Switch8K
                } else {
                    ChrRomBankMode::Switch4K
                },
                ..*old(self)
            }),
    {
        self.write_mirroring_mode(val % 4);
        self.write_prg_rom_bank_mode((val / 4) % 4);
        self.write_chr_rom_bank_mode((val / 16) % 2);
    }

    /// The PRG bank register: bank number and the work RAM switch.
    pub fn write_prg_bank(&mut self, val: u8)
        ensures
            *final(self) == (Registers {
                prg_rom_bank: val % 16,
                prg_ram_enabled: val & 0x10 == 0,
                ..*old(self)
            }),
    {
        self.prg_rom_bank = val % 16;
        self.prg_ram_enabled = val & 0x10 == 0;
    }
}

/// The MMC1 board.
pub struct MMC1 {
    pub cartridge: Cartridge,
    pub r: Registers,
}

impl MMC1 {
    pub fn new(cartridge: Cartridge) -> (r: MMC1)
        ensures
            r.cartridge == cartridge,
            r.r.sr == 0x10,
            r.r.prg_rom_bank_mode == PrgRomBankMode::FixLastBank,
    {
        MMC1 { cartridge, r: Registers::new() }
    }

    pub open spec fn wf(&self) -> bool {
        self.cartridge.wf()
    }

    /// Where in pattern memory the PPU address `addr` (below 0x2000) lands.
    pub open spec fn chr_index(self, addr: u16) -> int {
        if addr <= 0x0FFF {
            let bank = if self.r.chr_rom_bank_mode == ChrRomBankMode::Switch8K {
                (self.r.chr_rom_bank_0 & 0xFE) as int
            } else {
                self.r.chr_rom_bank_0 as int
            };
            bank * 0x1000 + addr
        } else {
            let bank = if self.r.chr_rom_bank_mode == ChrRomBankMode::Switch8K {
                (self.r.chr_rom_bank_0 | 0x01) as int
            } else {
                self.r.chr_rom_bank_1 as int
            };
            bank * 0x1000 + addr - 0x1000
        }
    }

    /// Where in PRG ROM the CPU address `addr` (0x8000 or above) lands.
    pub open spec fn prg_index(self, addr: u16) -> int {
        let last = self.cartridge.prg_rom@.len() / 0x4000 - 1;
        if addr <= 0xBFFF {
            let bank = if self.r.prg_rom_bank_mode == PrgRomBankMode::Switch32K {
                (self.r.prg_rom_bank & 0xFE) as int
            } else if self.r.prg_rom_bank_mode == PrgRomBankMode::FixFirstBank {
                0
            } else {
                self.r.prg_rom_bank as int
            };
            bank * 0x4000 + addr - 0x8000
        } else {
            let bank = if self.r.prg_rom_bank_mode == PrgRomBankMode::Switch32K {
                (self.r.prg_rom_bank | 0x01) as int
            } else if self.r.prg_rom_bank_mode == PrgRomBankMode::FixFirstBank {
                self.r.prg_rom_bank as int
            } else {
                last
            };
            bank * 0x4000 + addr - 0xC000
        }
    }

    pub open spec fn read(self, addr: u16) -> u8 {
        if addr <= 0x1FFF {
            self.cartridge.chr(self.chr_index(addr))
        } else if 0x6000 <= addr <= 0x7FFF && self.r.prg_ram_enabled {
            self.cartridge.ram(addr - 0x6000)
        } else if addr >= 0x8000 {
            self.cartridge.prg(self.prg_index(addr))
        } else {
            0
        }
    }

    fn chr_address(&self, addr: u16) -> (r: usize)
        requires
            addr <= 0x1FFF,
        ensures
            r == self.chr_index(addr),
    {
        if addr <= 0x0FFF {
            let bank: usize = match self.r.chr_rom_bank_mode {
                ChrRomBankMode::Switch8K => (self.r.chr_rom_bank_0 & 0xFE) as usize,
                ChrRomBankMode::Switch4K => self.r.chr_rom_bank_0 as usize,
            };
            bank * 0x1000 + addr as usize
        } else {
            let bank: usize = match self.r.chr_rom_bank_mode {
                ChrRomBankMode::Switch8K => (self.r.chr_rom_bank_0 | 0x01) as usize,
                ChrRomBankMode::Switch4K => self.r.chr_rom_bank_1 as usize,
            };
            bank * 0x1000 + addr as usize - 0x1000
        }
    }

    fn prg_address(&self, addr: u16) -> (r: usize)
        requires
            self.wf(),
            addr >= 0x8000,
        ensures
            r == self.prg_index(addr),
    {
        if addr <= 0xBFFF {
            let bank: usize = match self.r.prg_rom_bank_mode {
                PrgRomBankMode::Switch32K => (self.r.prg_rom_bank & 0xFE) as usize,
                PrgRomBankMode::FixFirstBank => 0,
                PrgRomBankMode::FixLastBank => self.r.prg_rom_bank as usize,
            };
            bank * 0x4000 + addr as usize - 0x8000
        } else {
            let bank: usize = match self.r.prg_rom_bank_mode {
                PrgRomBankMode::Switch32K => (self.r.prg_rom_bank | 0x01) as usize,
                PrgRomBankMode::FixFirstBank => self.r.prg_rom_bank as usize,
                PrgRomBankMode::FixLastBank => self.cartridge.prg_rom_len() / 0x4000 - 1,
            };
            bank * 0x4000 + addr as usize - 0xC000
        }
    }

    pub fn read_byte(&self, addr: u16) -> (r: u8)
        requires
            self.wf(),
        ensures
            r == self.read(addr),
    {
        if addr <= 0x1FFF {
            self.cartridge.read_chr_rom(self.chr_address(addr))
        } else if 0x6000 <= addr && addr <= 0x7FFF && self.r.prg_ram_enabled {
            self.cartridge.read_prg_ram(addr as usize - 0x6000)
        } else if addr >= 0x8000 {
            self.cartridge.read_prg_rom(self.prg_address(addr))
        } else {
            0
        }
    }

    /// Whether `n` is this mapper after a write of `val` at `addr`.
    pub open spec fn written(self, n: Self, addr: u16, val: u8) -> bool {
        &&& plain_write_mmc1(self, n.cartridge, addr, val)
        &&& addr < 0x8000 ==> n.r == self.r
        &&& addr >= 0x8000 ==> n.r == registers_written(self.r, addr, val)
    }

    /// Pattern and work RAM writes go to the cartridge; writes at 0x8000 and
    /// above feed the shift register, and the fifth loads the register that
    /// the address selects.
    pub fn write_byte(&mut self, addr: u16, val: u8)
        requires
            old(self).wf(),
        ensures
            final(self).wf(),
            old(self).written(*final(self), addr, val),
    {
        if addr <= 0x1FFF {
            let a = self.chr_address(addr);
            self.cartridge.write_chr_rom(a, val);
        } else if 0x6000 <= addr && addr <= 0x7FFF && self.r.prg_ram_enabled {
            let a = (addr as usize - 0x6000) % self.cartridge.prg_ram_len();
            self.cartridge.write_prg_ram(a, val);
        } else if addr >= 0x8000 {
            let v = match self.r.push_val(val) {
                Some(v) => v,
                None => {
                    return ;
                },
            };
            if addr <= 0x9FFF {
                self.r.write_control(v);
            } else if addr <= 0xBFFF {
                self.r.chr_rom_bank_0 = v;
            } else if addr <= 0xDFFF {
                self.r.chr_rom_bank_1 = v;
            } else {
                self.r.write_prg_bank(v);
            }
        }
    }

    pub fn mirroring_mode(&self) -> (r: MirroringMode)
        ensures
            r == self.r.mirroring_mode,
    {
        self.r.mirroring_mode
    }
}

/// The cartridge after an MMC1 write below 0x8000.
pub open spec fn plain_write_mmc1(m: MMC1, n: Cartridge, addr: u16, val: u8) -> bool {
    if addr <= 0x1FFF {
        chr_written(m.cartridge, n, m.chr_index(addr), val)
    } else if 0x6000 <= addr <= 0x7FFF && m.r.prg_ram_enabled {
        ram_written(m.cartridge, n, (addr - 0x6000) % m.cartridge.prg_ram@.len() as int, val)
    } else {
        cart_same(m.cartridge, n)
    }
}

/// The registers after a write of `val` at `addr` (0x8000 or above).
pub open spec fn registers_written(r: Registers, addr: u16, val: u8) -> Registers {
    let v = (r.sr >> 1u8) | ((val & 0x01) << 4u8);
    if val & 0x80 != 0 {
        Registers { sr: 0x10, ..r }
    } else if r.sr & 0x01 == 0 {
        Registers { sr: v, ..r }
    } else {
        let s = Registers { sr: 0x10, ..r };
        if addr <= 0x9FFF {
            Registers {
                mirroring_mode: mirroring_of(v % 4),
                prg_rom_bank_mode: prg_mode_of((v / 4) % 4),
                chr_rom_bank_mode: if (v / 16) % 2 == 0 {
                    ChrRomBankMode::Switch8K
                } else {
                    ChrRomBankMode::Switch4K
                },
                ..s
            }
        } else if addr <= 0xBFFF {
            Registers { chr_rom_bank_0: v, ..s }
        } else if addr <= 0xDFFF {
            Registers { chr_rom_bank_1: v, ..s }
        } else {
            Registers { prg_rom_bank: v % 16, prg_ram_enabled: v & 0x10 == 0, ..s }
        }
    }
}

} // verus!
