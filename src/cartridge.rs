//! Cartridges in the iNES format: a 16-byte header, an optional 512-byte
//! trainer, PRG ROM, then CHR ROM.
use vstd::prelude::*;
use crate::ppu::MirroringMode;

verus! {

/// Why a buffer could not be read as a cartridge.
#[derive(PartialEq, Eq, Structural, Clone, Copy, Debug)]
pub enum CartridgeError {
    /// The buffer does not start with "NES" and 0x1A.
    BadMagic,
    /// The buffer ends before the sections that its header announces.
    Truncated,
    /// The header announces no PRG ROM.
    NoProgramRom,
}

/// Whether `b` starts with the 4-byte magic "NES\x1A".
pub open spec fn has_magic(b: Seq<u8>) -> bool {
    b.len() >= 16 && b[0] == 0x4E && b[1] == 0x45 && b[2] == 0x53 && b[3] == 0x1A
}

/// PRG ROM length announced by the header: 16 KiB per bank.
pub open spec fn prg_rom_size(b: Seq<u8>) -> int {
    b[4] as int * 0x4000
}

/// CHR ROM length announced by the header: 8 KiB per bank.
pub open spec fn chr_rom_size(b: Seq<u8>) -> int {
    b[5] as int * 0x2000
}

/// PRG RAM length: 8 KiB per bank, 16 KiB when the header says 0.
pub open spec fn prg_ram_size(b: Seq<u8>) -> int {
    if b[8] == 0 {
        0x4000
    } else {
        b[8] as int * 0x2000
    }
}

/// Where PRG ROM starts: after the header and the trainer, if any.
pub open spec fn prg_rom_start(b: Seq<u8>) -> int {
    if b[6] & 0x04 != 0 {
        528int
    } else {
        16int
    }
}

/// Flags 7 count only when header bytes 11..=15 are all zero.
pub open spec fn flags_7(b: Seq<u8>) -> u8 {
    if b[11] == 0 && b[12] == 0 && b[13] == 0 && b[14] == 0 && b[15] == 0 {
        b[7]
    } else {
        0
    }
}

/// The mapper number: high nibble from flags 7, low nibble from flags 6.
pub open spec fn mapper_number(b: Seq<u8>) -> u8 {
    (flags_7(b) & 0xF0) | (b[6] >> 4u8)
}

/// The nametable mirroring that the header selects.
pub open spec fn header_mirroring(b: Seq<u8>) -> MirroringMode {
    if b[6] & 0x08 != 0 {
        MirroringMode::FourScreen
    } else if b[6] & 0x01 != 0 {
        MirroringMode::Vertical
    } else {
        MirroringMode::Horizontal
    }
}

/// The error that reading `b` gives, if any.
pub open spec fn load_error(b: Seq<u8>) -> Option<CartridgeError> {
    if !has_magic(b) {
        Some(CartridgeError::BadMagic)
    } else if b[4] == 0 {
        Some(CartridgeError::NoProgramRom)
    } else if prg_rom_start(b) + prg_rom_size(b) + chr_rom_size(b) > b.len() {
        Some(CartridgeError::Truncated)
    } else {
        None
    }
}

/// A cartridge: program ROM, pattern memory (ROM, or RAM when the header
/// announces none) and work RAM.
pub struct Cartridge {
    pub prg_rom: Vec<u8>,
    pub chr_rom: Vec<u8>,
    pub prg_ram: Vec<u8>,
    /// The pattern memory is RAM, so it takes writes.
    pub is_chr_ram: bool,
    pub has_battery: bool,
    pub mapper: u8,
    pub mirroring_mode: MirroringMode,
}

/// Whether `c` holds what the buffer `b` describes.
pub open spec fn loaded_from(c: Cartridge, b: Seq<u8>) -> bool {
    let s = prg_rom_start(b);
    let p = prg_rom_size(b);
    let k = chr_rom_size(b);
    &&& c.prg_rom@ == b.subrange(s, s + p)
    &&& c.is_chr_ram == (b[5] == 0)
    &&& c.chr_rom@ == (if b[5] == 0 {
        Seq::new(0x2000, |i: int| 0u8)
    } else {
        b.subrange(s + p, s + p + k)
    })
    &&& c.prg_ram@ == Seq::new(prg_ram_size(b) as nat, |i: int| 0u8)
    &&& c.has_battery == (b[6] & 0x02 != 0)
    &&& c.mapper == mapper_number(b)
    &&& c.mirroring_mode == header_mirroring(b)
}

fn copy_range(b: &[u8], start: usize, len: usize) -> (r: Vec<u8>)
    requires
        start + len <= b@.len(),
    ensures
        r@ == b@.subrange(start as int, start + len),
{
    let mut r: Vec<u8> = Vec::new();
    let n: usize = b.len();
    proof {
        assert(start + len <= n);
    }
    let end = start + len;
    let mut i: usize = start;
    while i < end
        invariant
            end == start + len,
            end <= b@.len(),
            start <= i <= end,
            r@ == b@.subrange(start as int, i as int),
        decreases end - i,
    {
        r.push(b[i]);
        i = i + 1;
        proof {
            assert(r@ =~= b@.subrange(start as int, i as int));
        }
    }
    r
}

/// A vector of `n` zero bytes.
pub fn zeros(n: usize) -> (r: Vec<u8>)
    ensures
        r@ == Seq::new(n as nat, |i: int| 0u8),
{
    let mut r: Vec<u8> = Vec::new();
    let mut i: usize = 0;
    while i < n
        invariant
            i <= n,
            r@ == Seq::new(i as nat, |j: int| 0u8),
        decreases n - i,
    {
        r.push(0);
        i = i + 1;
        proof {
            assert(r@ =~= Seq::new(i as nat, |j: int| 0u8));
        }
    }
    r
}

/// `n` is `c` with every field but the pattern memory kept.
pub open spec fn same_but_chr(c: Cartridge, n: Cartridge) -> bool {
    &&& n.prg_rom@ == c.prg_rom@
    &&& n.prg_ram@ == c.prg_ram@
    &&& n.is_chr_ram == c.is_chr_ram
    &&& n.has_battery == c.has_battery
    &&& n.mapper == c.mapper
    &&& n.mirroring_mode == c.mirroring_mode
}

/// `n` is `c` after a write of `val` to pattern memory at `addr` (wrapped
/// by its length), which only RAM takes.
pub open spec fn chr_written(c: Cartridge, n: Cartridge, addr: int, val: u8) -> bool {
    &&& same_but_chr(c, n)
    &&& n.chr_rom@ == (if c.is_chr_ram {
        c.chr_rom@.update(addr % c.chr_rom@.len() as int, val)
    } else {
        c.chr_rom@
    })
}

/// `n` is `c` after a write of `val` to work RAM at `addr`.
pub open spec fn ram_written(c: Cartridge, n: Cartridge, addr: int, val: u8) -> bool {
    &&& n.prg_ram@ == c.prg_ram@.update(addr, val)
    &&& n.prg_rom@ == c.prg_rom@
    &&& n.chr_rom@ == c.chr_rom@
    &&& n.is_chr_ram == c.is_chr_ram
    &&& n.has_battery == c.has_battery
    &&& n.mapper == c.mapper
    &&& n.mirroring_mode == c.mirroring_mode
}

/// `n` holds the same memory and settings as `c`.
pub open spec fn cart_same(c: Cartridge, n: Cartridge) -> bool {
    same_but_chr(c, n) && n.chr_rom@ == c.chr_rom@
}

impl Cartridge {
    /// PRG ROM at `i`, wrapped by its length.
    pub open spec fn prg(self, i: int) -> u8 {
        self.prg_rom@[i % self.prg_rom@.len() as int]
    }

    /// Pattern memory at `i`, wrapped by its length.
    pub open spec fn chr(self, i: int) -> u8 {
        self.chr_rom@[i % self.chr_rom@.len() as int]
    }

    /// Work RAM at `i`, wrapped by its length.
    pub open spec fn ram(self, i: int) -> u8 {
        self.prg_ram@[i % self.prg_ram@.len() as int]
    }

    /// A cartridge with no memory at all; a placeholder until a real one is
    /// loaded.
    pub fn empty_cartridge() -> (r: Cartridge)
        ensures
            r.prg_rom@.len() == 0,
            r.chr_rom@.len() == 0,
            r.prg_ram@.len() == 0,
            !r.is_chr_ram,
            !r.has_battery,
            r.mapper == 0,
            r.mirroring_mode == MirroringMode::Horizontal,
    {
        Cartridge {
            prg_rom: Vec::new(),
            chr_rom: Vec::new(),
            prg_ram: Vec::new(),
            is_chr_ram: false,
            has_battery: false,
            mapper: 0,
            mirroring_mode: MirroringMode::Horizontal,
        }
    }

    /// Every section is non-empty, so reads that wrap by length are defined,
    /// and each holds no more banks than a header can announce; PRG ROM
    /// holds at least one 16 KiB bank.
    pub open spec fn wf(&self) -> bool {
        &&& 0x4000 <= self.prg_rom@.len() <= 255 * 0x4000
        &&& 0 < self.chr_rom@.len() <= 255 * 0x2000
        &&& 0 < self.prg_ram@.len() <= 255 * 0x2000
    }

    /// Reads an iNES image.
    pub fn from_buffer(buffer: &[u8]) -> (r: Result<Cartridge, CartridgeError>)
        ensures
            match r {
                Ok(c) => load_error(buffer@) is None && loaded_from(c, buffer@) && c.wf(),
                Err(e) => load_error(buffer@) == Some(e),
            },
    {
        if buffer.len() < 16 || buffer[0] != 0x4E || buffer[1] != 0x45 || buffer[2] != 0x53
            || buffer[3] != 0x1A {
            return Err(CartridgeError::BadMagic);
        }
        if buffer[4] == 0 {
            return Err(CartridgeError::NoProgramRom);
        }
        let is_zero = buffer[11] == 0 && buffer[12] == 0 && buffer[13] == 0 && buffer[14] == 0
            && buffer[15] == 0;
        let prg_rom_len: usize = buffer[4] as usize * 0x4000;
        let chr_rom_len: usize = buffer[5] as usize * 0x2000;
        let prg_ram_len: usize = if buffer[8] == 0 {
            0x4000
        } else {
            buffer[8] as usize * 0x2000
        };
        let flags_6 = buffer[6];
        let flags_7 = if is_zero {
            buffer[7]
        } else {
            0
        };
        let start: usize = if flags_6 & 0x04 != 0 {
            16 + 512
        } else {
            16
        };
        if buffer.len() < start || buffer.len() - start < prg_rom_len || buffer.len() - start - prg_rom_len < chr_rom_len {
            return Err(CartridgeError::Truncated);
        }
        let prg_rom = copy_range(buffer, start, prg_rom_len);
        let is_chr_ram = chr_rom_len == 0;
        let chr_rom = if is_chr_ram {
            zeros(0x2000)
        } else {
            copy_range(buffer, start + prg_rom_len, chr_rom_len)
        };
        let mirroring_mode = if flags_6 & 0x08 != 0 {
            MirroringMode::FourScreen
        } else if flags_6 & 0x01 != 0 {
            MirroringMode::Vertical
        } else {
            MirroringMode::Horizontal
        };
        Ok(
            Cartridge {
                prg_rom,
                chr_rom,
                prg_ram: zeros(prg_ram_len),
                is_chr_ram,
                has_battery: flags_6 & 0x02 != 0,
                mapper: (flags_7 & 0xF0) | (flags_6 >> 4u8),
                mirroring_mode,
            },
        )
    }

    pub fn prg_rom_len(&self) -> (r: usize)
        ensures
            r == self.prg_rom@.len(),
    {
        self.prg_rom.len()
    }

    /// Reads PRG ROM; the address wraps by the ROM's length.
    pub fn read_prg_rom(&self, addr: usize) -> (r: u8)
        requires
            self.wf(),
        ensures
            r == self.prg(addr as int),
    {
        let len = self.prg_rom.len();
        self.prg_rom[addr % len]
    }

    pub fn chr_rom_len(&self) -> (r: usize)
        ensures
            r == self.chr_rom@.len(),
    {
        self.chr_rom.len()
    }

    /// Reads pattern memory; the address wraps by its length.
    pub fn read_chr_rom(&self, addr: usize) -> (r: u8)
        requires
            self.wf(),
        ensures
            r == self.chr(addr as int),
    {
        let len = self.chr_rom.len();
        self.chr_rom[addr % len]
    }

    /// Writes pattern memory if it is RAM; writes to ROM are ignored.
    pub fn write_chr_rom(&mut self, addr: usize, val: u8)
        requires
            old(self).wf(),
        ensures
            final(self).wf(),
            chr_written(*old(self), *final(self), addr as int, val),
    {
        if self.is_chr_ram {
            let len = self.chr_rom.len();
            self.chr_rom.set(addr % len, val);
        }
    }

    pub fn prg_ram_len(&self) -> (r: usize)
        ensures
            r == self.prg_ram@.len(),
    {
        self.prg_ram.len()
    }

    /// Reads work RAM; the address wraps by its length.
    pub fn read_prg_ram(&self, addr: usize) -> (r: u8)
        requires
            self.prg_ram@.len() > 0,
        ensures
            r == self.ram(addr as int),
    {
        let len = self.prg_ram.len();
        self.prg_ram[addr % len]
    }

    pub fn write_prg_ram(&mut self, addr: usize, val: u8)
        requires
            old(self).wf(),
            addr < old(self).prg_ram@.len(),
        ensures
            final(self).wf(),
            ram_written(*old(self), *final(self), addr as int, val),
    {
        self.prg_ram.set(addr, val);
    }
}

/// Why battery data could not be loaded.
#[derive(PartialEq, Eq, Structural, Clone, Copy, Debug)]
pub enum SaveError {
    /// The data is not as long as this cartridge's battery-backed memory.
    WrongLength,
}

/// The battery-backed memory of `c` as one blob: work RAM, then pattern
/// RAM if the cartridge has it.
pub open spec fn battery_blob(c: Cartridge) -> Seq<u8> {
    if c.is_chr_ram {
        c.prg_ram@ + c.chr_rom@
    } else {
        c.prg_ram@
    }
}

impl Cartridge {
    /// The battery-backed memory, or nothing if the cartridge has no
    /// battery.
    pub fn save(&self) -> (r: Option<Vec<u8>>)
        ensures
            !self.has_battery ==> r is None,
            self.has_battery ==> r is Some && r->0@ == battery_blob(*self),
    {
        if !self.has_battery {
            return None;
        }
        let mut out: Vec<u8> = Vec::new();
        let mut i: usize = 0;
        while i < self.prg_ram.len()
            invariant
                i <= self.prg_ram@.len(),
                out@ == self.prg_ram@.subrange(0, i as int),
            decreases self.prg_ram@.len() - i,
        {
            out.push(self.prg_ram[i]);
            i = i + 1;
            proof {
                assert(out@ =~= self.prg_ram@.subrange(0, i as int));
            }
        }
        if self.is_chr_ram {
            let mut j: usize = 0;
            while j < self.chr_rom.len()
                invariant
                    j <= self.chr_rom@.len(),
                    out@ == self.prg_ram@ + self.chr_rom@.subrange(0, j as int),
                decreases self.chr_rom@.len() - j,
            {
                out.push(self.chr_rom[j]);
                j = j + 1;
                proof {
                    assert(out@ =~= self.prg_ram@ + self.chr_rom@.subrange(0, j as int));
                }
            }
            proof {
                assert(self.chr_rom@.subrange(0, self.chr_rom@.len() as int) =~= self.chr_rom@);
            }
        } else {
            proof {
                assert(self.prg_ram@.subrange(0, self.prg_ram@.len() as int) =~= self.prg_ram@);
            }
        }
        Some(out)
    }

    /// Restores battery-backed memory from a blob that `save` made; a blob
    /// of another length is refused and nothing changes.
    pub fn load(&mut self, data: &[u8]) -> (r: Result<(), SaveError>)
        requires
            old(self).wf(),
        ensures
            final(self).wf(),
            data@.len() != battery_blob(*old(self)).len() ==> r == Err::<(), SaveError>(
                SaveError::WrongLength,
            ) && *final(self) == *old(self),
            data@.len() == battery_blob(*old(self)).len() ==> r is Ok && battery_blob(*final(self))
                == data@ && final(self).prg_rom == old(self).prg_rom && final(self).is_chr_ram
                == old(self).is_chr_ram && final(self).has_battery == old(self).has_battery
                && final(self).mapper == old(self).mapper && final(self).mirroring_mode
                == old(self).mirroring_mode && (!old(self).is_chr_ram ==> final(self).chr_rom
                == old(self).chr_rom),
    {
        let ram_len = self.prg_ram.len();
        let chr_len = if self.is_chr_ram {
            self.chr_rom.len()
        } else {
            0
        };
        if data.len() != ram_len + chr_len {
            return Err(SaveError::WrongLength);
        }
        let mut i: usize = 0;
        while i < ram_len
            invariant
                ram_len == old(self).prg_ram@.len(),
                data@.len() == ram_len + chr_len,
                i <= ram_len,
                self.prg_ram@.len() == ram_len,
                forall|k: int| 0 <= k < i ==> #[trigger] self.prg_ram@[k] == data@[k],
                self.prg_rom == old(self).prg_rom,
                self.chr_rom == old(self).chr_rom,
                self.is_chr_ram == old(self).is_chr_ram,
                self.has_battery == old(self).has_battery,
                self.mapper == old(self).mapper,
                self.mirroring_mode == old(self).mirroring_mode,
            decreases ram_len - i,
        {
            self.prg_ram.set(i, data[i]);
            i = i + 1;
        }
        let mut j: usize = 0;
        while j < chr_len
            invariant
                chr_len == (if old(self).is_chr_ram { old(self).chr_rom@.len() } else { 0 }),
                ram_len == old(self).prg_ram@.len(),
                old(self).wf(),
                data@.len() == ram_len + chr_len,
                j <= chr_len,
                self.prg_ram@.len() == ram_len,
                self.chr_rom@.len() == old(self).chr_rom@.len(),
                forall|k: int| 0 <= k < ram_len ==> #[trigger] self.prg_ram@[k] == data@[k],
                forall|k: int| 0 <= k < j ==> #[trigger] self.chr_rom@[k] == data@[ram_len + k],
                !old(self).is_chr_ram ==> self.chr_rom == old(self).chr_rom,
                self.prg_rom == old(self).prg_rom,
                self.is_chr_ram == old(self).is_chr_ram,
                self.has_battery == old(self).has_battery,
                self.mapper == old(self).mapper,
                self.mirroring_mode == old(self).mirroring_mode,
            decreases chr_len - j,
        {
            self.chr_rom.set(j, data[ram_len + j]);
            j = j + 1;
        }
        proof {
            if self.is_chr_ram {
                assert(self.prg_ram@ + self.chr_rom@ =~= data@);
            } else {
                assert(self.prg_ram@ =~= data@);
            }
        }
        Ok(())
    }
}

} // verus!
