//! Mapper 4 (MMC3): eight bank registers selected indirectly, and a
//! scanline counter that raises an interrupt.
use vstd::prelude::*;
use crate::cartridge::{Cartridge, chr_written, ram_written, cart_same};
use crate::ppu::MirroringMode;

verus! {

/// How the four 8 KiB PRG windows are filled.
#[derive(PartialEq, Eq, Structural, Clone, Copy, Debug)]
pub enum PrgRomBankMode {
    /// Banks R6 and R7 low, the second-last and last banks high.
    TwoSwitchTwoFix,
    /// The second-last bank, R7, R6, then the last bank.
    FixTwoSwitchFix,
}

/// How the eight 1 KiB CHR windows are filled.
#[derive(PartialEq, Eq, Structural, Clone, Copy, Debug)]
pub enum ChrRomBankMode {
    /// Two 2 KiB banks (R0, R1) low, four 1 KiB banks (R2..=R5) high.
    Two2KFour1K,
    /// Four 1 KiB banks low, two 2 KiB banks high.
    Four1KTwo2K,
}

/// The MMC3 register file.
pub struct Registers {
    pub mirroring_mode: MirroringMode,
    pub prg_rom_bank_mode: PrgRomBankMode,
    pub chr_rom_bank_mode: ChrRomBankMode,
    pub prg_ram_writes_enabled: bool,
    pub prg_ram_enabled: bool,
    pub irq_latch: u8,
    pub irq_counter: u8,
    pub irq_enabled: bool,
    /// Bank registers R0..=R7.
    pub bank_data: [u8; 8],
    /// The bank register that the next data write loads, 0..=7.
    pub current_bank: u8,
}

/// Offset into pattern memory of PPU address `addr` (below 0x2000).
pub open spec fn chr_offset(r: Registers, addr: int) -> int {
    let d = r.bank_data@;
    if r.chr_rom_bank_mode == ChrRomBankMode::Two2KFour1K {
        if addr < 0x0800 {
            (d[0] & 0xFE) as int * 0x400 + addr
        } else if addr < 0x1000 {
            (d[1] & 0xFE) as int * 0x400 + addr - 0x0800
        } else if addr < 0x1400 {
            d[2] as int * 0x400 + addr - 0x1000
        } else if addr < 0x1800 {
            d[3] as int * 0x400 + addr - 0x1400
        } else if addr < 0x1C00 {
            d[4] as int * 0x400 + addr - 0x1800
        } else {
            d[5] as int * 0x400 + addr - 0x1C00
        }
    } else {
        if addr < 0x0400 {
            d[2] as int * 0x400 + addr
        } else if addr < 0x0800 {
            d[3] as int * 0x400 + addr - 0x0400
        } else if addr < 0x0C00 {
            d[4] as int * 0x400 + addr - 0x0800
        } else if addr < 0x1000 {
            d[5] as int * 0x400 + addr - 0x0C00
        } else if addr < 0x1800 {
            (d[0] & 0xFE) as int * 0x400 + addr - 0x1000
        } else {
            (d[1] & 0xFE) as int * 0x400 + addr - 0x1800
        }
    }
}

/// Offset into PRG ROM of CPU address `addr` (0x8000 or above), with
/// `banks` 8 KiB banks in all.
pub open spec fn prg_offset(r: Registers, addr: int, banks: int) -> int {
    let d = r.bank_data@;
    if r.prg_rom_bank_mode == PrgRomBankMode::TwoSwitchTwoFix {
        if addr < 0xA000 {
            d[6] as int * 0x2000 + addr - 0x8000
        } else if addr < 0xC000 {
            d[7] as int * 0x2000 + addr - 0xA000
        } else if addr < 0xE000 {
            (banks - 2) * 0x2000 + addr - 0xC000
        } else {
            (banks - 1) * 0x2000 + addr - 0xE000
        }
    } else {
        if addr < 0xA000 {
            (banks - 2) * 0x2000 + addr - 0x8000
        } else if addr < 0xC000 {
            d[7] as int * 0x2000 + addr - 0xA000
        } else if addr < 0xE000 {
            d[6] as int * 0x2000 + addr - 0xC000
        } else {
            (banks - 1) * 0x2000 + addr - 0xE000
        }
    }
}

impl Registers {
    pub fn new() -> (r: Registers)
        ensures
            r.wf(),
            r.mirroring_mode == MirroringMode::Vertical,
            r.prg_rom_bank_mode == PrgRomBankMode::TwoSwitchTwoFix,
            r.chr_rom_bank_mode == ChrRomBankMode::Two2KFour1K,
            r.bank_data@ == seq![0u8, 0, 0, 0, 0, 0, 0, 0],
            r.irq_latch == 0 && r.irq_counter == 0 && !r.irq_enabled,
    {
        let r = Registers {
            mirroring_mode: MirroringMode::Vertical,
            prg_rom_bank_mode: PrgRomBankMode::TwoSwitchTwoFix,
            chr_rom_bank_mode: ChrRomBankMode::Two2KFour1K,
            prg_ram_writes_enabled: true,
            prg_ram_enabled: true,
            irq_latch: 0,
            irq_counter: 0,
            irq_enabled: false,
            bank_data: [0; 8],
            current_bank: 0,
        };
        proof {
            assert(r.bank_data@ =~= seq![0u8, 0, 0, 0, 0, 0, 0, 0]);
        }
        r
    }

    pub open spec fn wf(&self) -> bool {
        self.current_bank < 8
    }

    /// Bank select: PRG and CHR modes, and which register data writes load.
    pub fn write_bank_select(&mut self, val: u8)
        ensures
            *final(self) == (Registers {
                prg_rom_bank_mode: if val & 0x40 == 0 {
                    PrgRomBankMode::TwoSwitchTwoFix
                } else {
                    PrgRomBankMode::FixTwoSwitchFix
                },
                chr_rom_bank_mode: if val < 0x80 {
                    ChrRomBankMode::Two2KFour1K
                } else {
                    ChrRomBankMode::Four1KTwo2K
                },
                current_bank: val % 8,
                ..*old(self)
            }),
            final(self).wf(),
    {
        self.prg_rom_bank_mode = if val & 0x40 == 0 {
            PrgRomBankMode::TwoSwitchTwoFix
        } else {
            PrgRomBankMode::FixTwoSwitchFix
        };
        self.chr_rom_bank_mode = if val < 0x80 {
            ChrRomBankMode::Two2KFour1K
        } else {
            ChrRomBankMode::Four1KTwo2K
        };
        self.current_bank = val % 8;
    }

    /// Bank data: loads the selected bank register.
    pub fn write_bank_data(&mut self, val: u8)
        requires
            old(self).wf(),
        ensures
            final(self).wf(),
            final(self).bank_data@ == old(self).bank_data@.update(old(self).current_bank as int, val),
            final(self).current_bank == old(self).current_bank,
            final(self).mirroring_mode == old(self).mirroring_mode,
            final(self).prg_rom_bank_mode == old(self).prg_rom_bank_mode,
            final(self).chr_rom_bank_mode == old(self).chr_rom_bank_mode,
            final(self).prg_ram_writes_enabled == old(self).prg_ram_writes_enabled,
            final(self).prg_ram_enabled == old(self).prg_ram_enabled,
            final(self).irq_latch == old(self).irq_latch,
            final(self).irq_counter == old(self).irq_counter,
            final(self).irq_enabled == old(self).irq_enabled,
    {
        self.bank_data[self.current_bank as usize] = val;
    }

    pub fn write_mirroring_mode(&mut self, val: u8)
        ensures
            *final(self) == (Registers {
                mirroring_mode: if val & 0x01 == 0 {
                    MirroringMode::Vertical
                } else {
                    MirroringMode::Horizontal
                },
                ..*old(self)
            }),
    {
        self.mirroring_mode = if val & 0x01 == 0 {
            MirroringMode::Vertical
        } else {
            MirroringMode::Horizontal
        };
    }

    pub fn write_prg_ram_protect(&mut self, val: u8)
        ensures
            *final(self) == (Registers {
                prg_ram_writes_enabled: val & 0x40 == 0,
                prg_ram_enabled: val >= 0x80,
                ..*old(self)
            }),
    {
        self.prg_ram_writes_enabled = val & 0x40 == 0;
        self.prg_ram_enabled = val >= 0x80;
    }

    /// Where in pattern memory the PPU address `addr` lands.
    pub fn get_chr_rom_address(&self, addr: usize) -> (r: usize)
        requires
            addr <= 0x1FFF,
        ensures
            r == chr_offset(*self, addr as int),
    {
        let d = &self.bank_data;
        match self.chr_rom_bank_mode {
            ChrRomBankMode::Two2KFour1K => {
                if addr < 0x0800 {
                    (d[0] & 0xFE) as usize * 0x400 + addr
                } else if addr < 0x1000 {
                    (d[1] & 0xFE) as usize * 0x400 + addr - 0x0800
                } else if addr < 0x1400 {
                    d[2] as usize * 0x400 + addr - 0x1000
                } else if addr < 0x1800 {
                    d[3] as usize * 0x400 + addr - 0x1400
                } else if addr < 0x1C00 {
                    d[4] as usize * 0x400 + addr - 0x1800
                } else {
                    d[5] as usize * 0x400 + addr - 0x1C00
                }
            },
            ChrRomBankMode::Four1KTwo2K => {
                if addr < 0x0400 {
                    d[2] as usize * 0x400 + addr
                } else if addr < 0x0800 {
                    d[3] as usize * 0x400 + addr - 0x0400
                } else if addr < 0x0C00 {
                    d[4] as usize * 0x400 + addr - 0x0800
                } else if addr < 0x1000 {
                    d[5] as usize * 0x400 + addr - 0x0C00
                } else if addr < 0x1800 {
                    (d[0] & 0xFE) as usize * 0x400 + addr - 0x1000
                } else {
                    (d[1] & 0xFE) as usize * 0x400 + addr - 0x1800
                }
            },
        }
    }

    /// Where in PRG ROM the CPU address `addr` lands, with `prg_rom_banks`
    /// 8 KiB banks in all.
    pub fn get_prg_rom_address(&self, addr: usize, prg_rom_banks: usize) -> (r: usize)
        requires
            0x8000 <= addr <= 0xFFFF,
            2 <= prg_rom_banks <= 0x1000,
        ensures
            r == prg_offset(*self, addr as int, prg_rom_banks as int),
    {
        let d = &self.bank_data;
        match self.prg_rom_bank_mode {
            PrgRomBankMode::TwoSwitchTwoFix => {
                if addr < 0xA000 {
                    d[6] as usize * 0x2000 + addr - 0x8000
                } else if addr < 0xC000 {
                    d[7] as usize * 0x2000 + addr - 0xA000
                } else if addr < 0xE000 {
                    (prg_rom_banks - 2) * 0x2000 + addr - 0xC000
                } else {
                    (prg_rom_banks - 1) * 0x2000 + addr - 0xE000
                }
            },
            PrgRomBankMode::FixTwoSwitchFix => {
                if addr < 0xA000 {
                    (prg_rom_banks - 2) * 0x2000 + addr - 0x8000
                } else if addr < 0xC000 {
                    d[7] as usize * 0x2000 + addr - 0xA000
                } else if addr < 0xE000 {
                    d[6] as usize * 0x2000 + addr - 0xC000
                } else {
                    (prg_rom_banks - 1) * 0x2000 + addr - 0xE000
                }
            },
        }
    }
}

/// The MMC3 board.
pub struct MMC3 {
    pub cartridge: Cartridge,
    pub r: Registers,
}

impl MMC3 {
    pub fn new(cartridge: Cartridge) -> (r: MMC3)
        ensures
            r.cartridge == cartridge,
            r.r.wf(),
            r.r.bank_data@ == seq![0u8, 0, 0, 0, 0, 0, 0, 0],
            r.r.prg_rom_bank_mode == PrgRomBankMode::TwoSwitchTwoFix,
            r.r.chr_rom_bank_mode == ChrRomBankMode::Two2KFour1K,
            r.r.irq_latch == 0 && r.r.irq_counter == 0 && !r.r.irq_enabled,
    {
        MMC3 { cartridge, r: Registers::new() }
    }

    pub open spec fn wf(&self) -> bool {
        self.cartridge.wf() && self.r.wf()
    }

    pub open spec fn read(self, addr: u16) -> u8 {
        if addr <= 0x1FFF {
            self.cartridge.chr(chr_offset(self.r, addr as int))
        } else if 0x6000 <= addr <= 0x7FFF {
            self.cartridge.ram(addr - 0x6000)
        } else if addr >= 0x8000 {
            self.cartridge.prg(
                prg_offset(self.r, addr as int, (self.cartridge.prg_rom@.len() / 0x2000) as int),
            )
        } else {
            0
        }
    }

    pub fn read_byte(&self, addr: u16) -> (r: u8)
        requires
            self.wf(),
        ensures
            r == self.read(addr),
    {
        if addr <= 0x1FFF {
            let a = self.r.get_chr_rom_address(addr as usize);
            self.cartridge.read_chr_rom(a)
        } else if 0x6000 <= addr && addr <= 0x7FFF {
            self.cartridge.read_prg_ram(addr as usize - 0x6000)
        } else if addr >= 0x8000 {
            let banks = self.cartridge.prg_rom_len() / 0x2000;
            let a = self.r.get_prg_rom_address(addr as usize, banks);
            self.cartridge.read_prg_rom(a)
        } else {
            0
        }
    }

    /// Whether `n` is this mapper after a write of `val` at `addr`.
    pub open spec fn written(self, n: Self, addr: u16, val: u8) -> bool {
        &&& addr <= 0x1FFF ==> chr_written(
                    self.cartridge,
                    n.cartridge,
                    chr_offset(self.r, addr as int),
                    val
            ) && n.r == self.r
        &&& 0x6000 <= addr <= 0x7FFF ==> ram_written(
                    self.cartridge,
                    n.cartridge,
                    (addr - 0x6000) % self.cartridge.prg_ram@.len() as int,
                    val
            ) && n.r == self.r
        &&& 0x2000 <= addr < 0x6000 ==> cart_same(self.cartridge, n.cartridge)
                    && n.r == self.r
        &&& addr >= 0x8000 ==> cart_same(self.cartridge, n.cartridge)
        &&& 0x8000 <= addr <= 0x9FFF && addr % 2 == 1 ==> n.r.bank_data@
                    == self.r.bank_data@.update(self.r.current_bank as int, val)
        &&& 0xC000 <= addr <= 0xDFFF && addr % 2 == 0 ==> n.r == (Registers {
                    irq_latch: val,
                    ..self.r
            })
        &&& 0xC000 <= addr <= 0xDFFF && addr % 2 == 1 ==> n.r == (Registers {
                    irq_counter: self.r.irq_latch,
                    ..self.r
            })
        &&& 0xE000 <= addr && addr % 2 == 0 ==> n.r == (Registers {
                    irq_enabled: false,
                    ..self.r
            })
        &&& 0xE000 <= addr && addr % 2 == 1 ==> n.r == (Registers {
                    irq_enabled: true,
                    ..self.r
            })
    }

    /// Pattern and work RAM writes go to the cartridge; at 0x8000 and above
    /// the address range and its lowest bit pick the register.
    pub fn write_byte(&mut self, addr: u16, val: u8)
        requires
            old(self).wf(),
        ensures
            final(self).wf(),
            old(self).written(*final(self), addr, val),
    {
        if addr <= 0x1FFF {
            let a = self.r.get_chr_rom_address(addr as usize);
            self.cartridge.write_chr_rom(a, val);
        } else if 0x6000 <= addr && addr <= 0x7FFF {
            let a = (addr as usize - 0x6000) % self.cartridge.prg_ram_len();
            self.cartridge.write_prg_ram(a, val);
        } else if 0x8000 <= addr && addr <= 0x9FFF {
            if addr % 2 == 0 {
                self.r.write_bank_select(val);
            } else {
                self.r.write_bank_data(val);
            }
        } else if 0xA000 <= addr && addr <= 0xBFFF {
            if addr % 2 == 0 {
                self.r.write_mirroring_mode(val);
            } else {
                self.r.write_prg_ram_protect(val);
            }
        } else if 0xC000 <= addr && addr <= 0xDFFF {
            if addr % 2 == 0 {
                self.r.irq_latch = val;
            } else {
                self.r.irq_counter = self.r.irq_latch;
            }
        } else if addr >= 0xE000 {
            if addr % 2 == 0 {
                self.r.irq_enabled = false;
            } else {
                self.r.irq_enabled = true;
            }
        }
    }

    /// A cartridge wired for four screens keeps that; otherwise the
    /// mirroring register decides.
    pub fn mirroring_mode(&self) -> (r: MirroringMode)
        ensures
            r == (if self.cartridge.mirroring_mode == MirroringMode::FourScreen {
                MirroringMode::FourScreen
            } else {
                self.r.mirroring_mode
            }),
    {
        if self.cartridge.mirroring_mode == MirroringMode::FourScreen {
            MirroringMode::FourScreen
        } else {
            self.r.mirroring_mode
        }
    }

    /// Clocks the scanline counter, given where the PPU stands: it counts
    /// once per rendered visible scanline, at dot 260. Returns whether the
    /// counter raised the interrupt.
    pub fn step(&mut self, cycle: u16, scanline: i16, rendering_enabled: bool) -> (irq: bool)
        ensures
            final(self).cartridge == old(self).cartridge,
            (cycle != 260 || scanline >= 240 || !rendering_enabled) ==> final(self).r == old(self).r
                && !irq,
            (cycle == 260 && scanline < 240 && rendering_enabled) ==> final(self).r == (Registers {
                irq_counter: if old(self).r.irq_counter == 0 {
                    old(self).r.irq_latch
                } else {
                    (old(self).r.irq_counter - 1) as u8
                },
                ..old(self).r
            }) && irq == (old(self).r.irq_counter == 1 && old(self).r.irq_enabled),
    {
        if cycle != 260 || scanline >= 240 || !rendering_enabled {
            return false;
        }
        if self.r.irq_counter == 0 {
            self.r.irq_counter = self.r.irq_latch;
            false
        } else {
            self.r.irq_counter = self.r.irq_counter - 1;
            self.r.irq_counter == 0 && self.r.irq_enabled
        }
    }
}

} // verus!
