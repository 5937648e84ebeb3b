//! The picture processing unit's address space and register file.
use vstd::prelude::*;
use crate::mapper::Mapper;

verus! {

/// How the four logical nametables map onto physical 1 KiB banks.
#[derive(PartialEq, Eq, Structural, Clone, Copy, Debug)]
pub enum MirroringMode {
    Horizontal,
    Vertical,
    /// Single screen, lower bank.
    Lower,
    /// Single screen, upper bank.
    Upper,
    FourScreen,
}

/// The PPU register file and rendering latches.
#[derive(Clone, Copy)]
pub struct Registers {
    pub high_tile_byte: u8,
    pub low_tile_byte: u8,
    pub nametable_byte: u8,
    pub palette: u8,
    /// Sixteen 4-bit pixels in flight, the oldest in the high bits.
    pub tile: u64,
    /// Current VRAM address, 15 bits: fine y, nametable, coarse y, coarse x.
    pub v: u16,
    /// Temporary VRAM address, laid out as `v`.
    pub t: u16,
    /// Fine x scroll, 3 bits.
    pub x: u8,
    /// Write toggle shared by 0x2005 and 0x2006, 0 or 1.
    pub w: u8,
    pub nametable_address: u16,
    pub vram_address_increment: u16,
    pub sprite_pattern_table_address: u16,
    pub background_pattern_table_address: u16,
    /// Sprite width and height.
    pub sprite_size: (u8, u8),
    pub is_master: bool,
    pub nmi_enabled: bool,
    pub greyscale_enabled: bool,
    pub show_left_background: bool,
    pub show_left_sprites: bool,
    pub show_background: bool,
    pub show_sprites: bool,
    pub emphasize_red: bool,
    pub emphasize_green: bool,
    pub emphasize_blue: bool,
    pub rendering_enabled: bool,
    pub sprite_overflow: bool,
    pub sprite_0_hit: bool,
    pub v_blank_started: bool,
    pub oam_addr: u8,
    pub scroll_x: u8,
    pub scroll_y: u8,
    /// The 14-bit address that 0x2007 reads and writes.
    pub bus_address: u16,
    /// The read buffer of 0x2007.
    pub buffer: u8,
    /// The data bus byte that write-only registers read back.
    pub last_written_byte: u8,
}

proof fn lemma_increment_x_bits(v: u16)
    by (bit_vector)
    requires
        v < 0x8000,
    ensures
        (v & 0x001F) != 31 ==> v + 1 < 0x8000,
        (v & !0x001Fu16) ^ 0x0400 < 0x8000,
{
}

proof fn lemma_increment_y_bits(v: u16, y: u16)
    by (bit_vector)
    requires
        v < 0x8000,
        y <= 31,
    ensures
        (v & 0x7000) != 0x7000 ==> v + 0x1000 < 0x8000,
        ((v & !0x7000u16) & 0x03E0) >> 5 <= 31,
        ((v & !0x7000u16) & !0x03E0u16) | (y << 5) < 0x8000,
        (((v & !0x7000u16) ^ 0x0800) & !0x03E0u16) | (y << 5) < 0x8000,
{
}

proof fn lemma_copy_bits(v: u16, t: u16)
    by (bit_vector)
    requires
        v < 0x8000,
    ensures
        (v & 0xFBE0) | (t & 0x041F) < 0x8000,
        (v & 0x841F) | (t & 0x7BE0) < 0x8000,
{
}

proof fn lemma_t_bits(t: u16, val: u16)
    by (bit_vector)
    requires
        t < 0x8000,
        val < 0x100,
    ensures
        (t & !0x0C00u16) | ((val & 0x03) << 10) < 0x8000,
        (t & !0x001Fu16) | (val >> 3) < 0x8000,
        (t & !0x73E0u16) | ((val & 0x07) << 12) | ((val & 0xF8) << 2) < 0x8000,
        (t & !0x7F00u16) | ((val & 0x3F) << 8) < 0x8000,
        (t & !0x00FFu16) | val < 0x8000,
        ((t & !0x00FFu16) | val) & 0x3FFF < 0x4000,
{
}

proof fn lemma_low_bits(val: u8)
    by (bit_vector)
    ensures
        val & 0x07 < 8,
{
}

/// The coarse y field of `v` after a fine-y overflow.
pub open spec fn next_coarse_y(y: u16) -> u16 {
    if y == 29 || y == 31 {
        0
    } else {
        (y + 1) as u16
    }
}

impl Registers {
    pub fn new() -> (r: Registers)
        ensures
            r.wf(),
            r == Registers::new_spec(),
            r.v == 0 && r.t == 0 && r.x == 0 && r.w == 0,
            r.sprite_size == (8u8, 8u8),
            !r.nmi_enabled && !r.v_blank_started && !r.rendering_enabled,
            r.oam_addr == 0 && r.bus_address == 0 && r.buffer == 0,
    {
        Registers {
            high_tile_byte: 0,
            low_tile_byte: 0,
            nametable_byte: 0,
            palette: 0,
            tile: 0,
            v: 0,
            t: 0,
            x: 0,
            w: 0,
            nametable_address: 0,
            vram_address_increment: 0,
            sprite_pattern_table_address: 0,
            background_pattern_table_address: 0,
            sprite_size: (8, 8),
            is_master: false,
            nmi_enabled: false,
            greyscale_enabled: false,
            show_left_background: false,
            show_left_sprites: false,
            show_background: false,
            show_sprites: false,
            emphasize_red: false,
            emphasize_green: false,
            emphasize_blue: false,
            rendering_enabled: false,
            sprite_overflow: false,
            sprite_0_hit: false,
            v_blank_started: false,
            oam_addr: 0,
            scroll_x: 0,
            scroll_y: 0,
            bus_address: 0,
            buffer: 0,
            last_written_byte: 0,
        }
    }

    pub open spec fn wf(&self) -> bool {
        &&& self.v < 0x8000
        &&& self.t < 0x8000
        &&& self.x < 8
        &&& self.w <= 1
        &&& self.bus_address < 0x4000
        &&& self.vram_address_increment <= 32
        &&& self.sprite_pattern_table_address <= 0x1000
        &&& self.background_pattern_table_address <= 0x1000
        &&& self.sprite_size.0 == 8
        &&& (self.sprite_size.1 == 8 || self.sprite_size.1 == 16)
    }

    /// Coarse x plus one; from 31 it wraps to 0 and switches the
    /// horizontal nametable.
    pub fn increment_scroll_x(&mut self)
        requires
            old(self).wf(),
        ensures
            final(self).wf(),
            *final(self) == (Registers {
                v: if old(self).v & 0x001F == 31 {
                    (old(self).v & !0x001Fu16) ^ 0x0400
                } else {
                    (old(self).v + 1) as u16
                },
                ..*old(self)
            }),
    {
        proof {
            lemma_increment_x_bits(self.v);
        }
        if (self.v & 0x001F) == 31 {
            self.v = (self.v & !0x001Fu16) ^ 0x0400;
        } else {
            self.v = self.v + 1;
        }
    }

    /// Fine y plus one; on overflow coarse y moves on, from 29 to 0 with a
    /// switch of the vertical nametable and from 31 to 0 without.
    pub fn increment_scroll_y(&mut self)
        requires
            old(self).wf(),
        ensures
            final(self).wf(),
            *final(self) == (Registers {
                v: if old(self).v & 0x7000 != 0x7000 {
                    (old(self).v + 0x1000) as u16
                } else {
                    let v0 = old(self).v & !0x7000u16;
                    let y = (v0 & 0x03E0) >> 5;
                    let v1 = if y == 29 { v0 ^ 0x0800 } else { v0 };
                    (v1 & !0x03E0u16) | (next_coarse_y(y) << 5)
                },
                ..*old(self)
            }),
    {
        let v = self.v;
        if (v & 0x7000) != 0x7000 {
            proof {
                lemma_increment_y_bits(v, 0);
            }
            self.v = v + 0x1000;
        } else {
            let v0 = v & !0x7000u16;
            let y: u16 = (v0 & 0x03E0) >> 5;
            proof {
                lemma_increment_y_bits(v, 0);
            }
            let v1 = if y == 29 {
                v0 ^ 0x0800
            } else {
                v0
            };
            let ny: u16 = if y == 29 || y == 31 {
                0
            } else {
                y + 1
            };
            proof {
                lemma_increment_y_bits(v, ny);
            }
            self.v = (v1 & !0x03E0u16) | (ny << 5);
        }
    }

    /// Copies the horizontal bits (coarse x, nametable x) from t to v.
    pub fn copy_scroll_x(&mut self)
        requires
            old(self).wf(),
        ensures
            final(self).wf(),
            *final(self) == (Registers {
                v: (old(self).v & 0xFBE0) | (old(self).t & 0x041F),
                ..*old(self)
            }),
    {
        proof {
            lemma_copy_bits(self.v, self.t);
        }
        self.v = (self.v & 0xFBE0) | (self.t & 0x041F);
    }

    /// Copies the vertical bits (fine y, coarse y, nametable y) from t to v.
    pub fn copy_scroll_y(&mut self)
        requires
            old(self).wf(),
        ensures
            final(self).wf(),
            *final(self) == (Registers {
                v: (old(self).v & 0x841F) | (old(self).t & 0x7BE0),
                ..*old(self)
            }),
    {
        proof {
            lemma_copy_bits(self.v, self.t);
        }
        self.v = (self.v & 0x841F) | (self.t & 0x7BE0);
    }

    /// PPUSTATUS: overflow, sprite-0 hit and VBlank in the top three bits
    /// over the data bus; clears VBlank and the write toggle.
    pub fn read_ppu_status(&mut self) -> (r: u8)
        requires
            old(self).wf(),
        ensures
            final(self).wf(),
            r == status_of(*old(self)),
            *final(self) == (Registers { v_blank_started: false, w: 0, ..*old(self) }),
    {
        let ret = (self.last_written_byte & 0x1F) | (if self.sprite_overflow {
            0x20u8
        } else {
            0u8
        }) | (if self.sprite_0_hit {
            0x40u8
        } else {
            0u8
        }) | (if self.v_blank_started {
            0x80u8
        } else {
            0u8
        });
        self.v_blank_started = false;
        self.w = 0;
        ret
    }

    /// PPUCTRL: nametable base (also into t), increment, pattern tables,
    /// sprite size, master/slave and NMI enable.
    pub fn write_ppu_ctrl(&mut self, val: u8)
        requires
            old(self).wf(),
        ensures
            final(self).wf(),
            *final(self) == ctrl_written(*old(self), val),
    {
        reveal(ctrl_written);
        proof {
            lemma_t_bits(self.t, val as u16);
            lemma_low_bits(val);
        }
        let base = val % 4;
        self.nametable_address = 0x2000 + base as u16 * 0x400;
        self.vram_address_increment = if val & 0x04 != 0 {
            32
        } else {
            1
        };
        self.sprite_pattern_table_address = if val & 0x08 != 0 {
            0x1000
        } else {
            0x0000
        };
        self.background_pattern_table_address = if val & 0x10 != 0 {
            0x1000
        } else {
            0x0000
        };
        self.sprite_size = if val & 0x20 != 0 {
            (8, 16)
        } else {
            (8, 8)
        };
        self.is_master = val & 0x40 != 0;
        self.nmi_enabled = val & 0x80 != 0;
        self.t = (self.t & !0x0C00u16) | (((val as u16) & 0x03) << 10);
    }

    /// PPUMASK: greyscale, left-column clipping, layer enables, emphasis.
    pub fn write_ppu_mask(&mut self, val: u8)
        requires
            old(self).wf(),
        ensures
            final(self).wf(),
            *final(self) == mask_written(*old(self), val),
    {
        reveal(mask_written);
        self.greyscale_enabled = val & 0x01 != 0;
        self.show_left_background = val & 0x02 != 0;
        self.show_left_sprites = val & 0x04 != 0;
        self.show_background = val & 0x08 != 0;
        self.show_sprites = val & 0x10 != 0;
        self.emphasize_red = val & 0x20 != 0;
        self.emphasize_green = val & 0x40 != 0;
        self.emphasize_blue = val & 0x80 != 0;
        self.rendering_enabled = self.show_background || self.show_sprites;
    }

    /// PPUSCROLL: the first write sets coarse and fine x, the second coarse
    /// and fine y; each flips the toggle.
    pub fn write_ppu_scroll(&mut self, val: u8)
        requires
            old(self).wf(),
        ensures
            final(self).wf(),
            *final(self) == scroll_written(*old(self), val),
    {
        reveal(scroll_written);
        let first = self.w == 0;
        let nt = scroll_t(self.t, val, first);
        let nx = if first {
            fine_x(val)
        } else {
            self.x
        };
        self.t = nt;
        self.x = nx;
        self.w = if first {
            1
        } else {
            0
        };
    }

    /// PPUADDR: the first write sets the high six bits of t (clearing bit
    /// 14), the second the low byte, and copies t into v.
    pub fn write_ppu_addr(&mut self, val: u8)
        requires
            old(self).wf(),
        ensures
            final(self).wf(),
            *final(self) == addr_written(*old(self), val),
    {
        reveal(addr_written);
        let first = self.w == 0;
        let nt = addr_t(self.t, val, first);
        if !first {
            self.v = nt;
            self.bus_address = vram_address(nt);
        }
        self.t = nt;
        self.w = if first {
            1
        } else {
            0
        };
    }
}

fn fine_x(val: u8) -> (r: u8)
    ensures
        r == val & 0x07,
        r < 8,
{
    proof {
        lemma_low_bits(val);
    }
    val & 0x07
}

fn vram_address(t: u16) -> (r: u16)
    ensures
        r == t & 0x3FFF,
        r < 0x4000,
{
    proof {
        assert(t & 0x3FFF < 0x4000) by (bit_vector);
    }
    t & 0x3FFF
}

fn scroll_t(t: u16, val: u8, first: bool) -> (r: u16)
    requires
        t < 0x8000,
    ensures
        r == (if first {
            (t & !0x001Fu16) | ((val as u16) >> 3)
        } else {
            (t & !0x73E0u16) | (((val as u16) & 0x07) << 12) | (((val as u16) & 0xF8) << 2)
        }),
        r < 0x8000,
{
    proof {
        lemma_t_bits(t, val as u16);
    }
    let v16 = val as u16;
    if first {
        (t & !0x001Fu16) | (v16 >> 3)
    } else {
        (t & !0x73E0u16) | ((v16 & 0x07) << 12) | ((v16 & 0xF8) << 2)
    }
}

fn addr_t(t: u16, val: u8, first: bool) -> (r: u16)
    requires
        t < 0x8000,
    ensures
        r == (if first {
            (t & !0x7F00u16) | (((val as u16) & 0x3F) << 8)
        } else {
            (t & !0x00FFu16) | (val as u16)
        }),
        r < 0x8000,
{
    proof {
        lemma_t_bits(t, val as u16);
    }
    let v16 = val as u16;
    if first {
        (t & !0x7F00u16) | ((v16 & 0x3F) << 8)
    } else {
        (t & !0x00FFu16) | v16
    }
}

/// The byte that a read of PPUSTATUS returns.
pub open spec fn status_of(r: Registers) -> u8 {
    (r.last_written_byte & 0x1F) | (if r.sprite_overflow { 0x20u8 } else { 0u8 }) | (if r.sprite_0_hit {
        0x40u8
    } else {
        0u8
    }) | (if r.v_blank_started { 0x80u8 } else { 0u8 })
}

#[verifier::opaque]
pub open spec fn ctrl_written(r: Registers, val: u8) -> Registers {
    Registers {
        nametable_address: (0x2000 + (val % 4) as int * 0x400) as u16,
        vram_address_increment: if val & 0x04 != 0 { 32 } else { 1 },
        sprite_pattern_table_address: if val & 0x08 != 0 { 0x1000 } else { 0 },
        background_pattern_table_address: if val & 0x10 != 0 { 0x1000 } else { 0 },
        sprite_size: if val & 0x20 != 0 { (8u8, 16u8) } else { (8u8, 8u8) },
        is_master: val & 0x40 != 0,
        nmi_enabled: val & 0x80 != 0,
        t: (r.t & !0x0C00u16) | (((val as u16) & 0x03) << 10),
        ..r
    }
}

#[verifier::opaque]
pub open spec fn mask_written(r: Registers, val: u8) -> Registers {
    Registers {
        greyscale_enabled: val & 0x01 != 0,
        show_left_background: val & 0x02 != 0,
        show_left_sprites: val & 0x04 != 0,
        show_background: val & 0x08 != 0,
        show_sprites: val & 0x10 != 0,
        emphasize_red: val & 0x20 != 0,
        emphasize_green: val & 0x40 != 0,
        emphasize_blue: val & 0x80 != 0,
        rendering_enabled: val & 0x08 != 0 || val & 0x10 != 0,
        ..r
    }
}

#[verifier::opaque]
pub open spec fn scroll_written(r: Registers, val: u8) -> Registers {
    Registers {
        t: if r.w == 0 {
            (r.t & !0x001Fu16) | ((val as u16) >> 3)
        } else {
            (r.t & !0x73E0u16) | (((val as u16) & 0x07) << 12) | (((val as u16) & 0xF8) << 2)
        },
        x: if r.w == 0 { val & 0x07 } else { r.x },
        w: if r.w == 0 { 1 } else { 0 },
        ..r
    }
}

#[verifier::opaque]
pub open spec fn addr_written(r: Registers, val: u8) -> Registers {
    let t2 = (r.t & !0x00FFu16) | (val as u16);
    Registers {
        t: if r.w == 0 { (r.t & !0x7F00u16) | (((val as u16) & 0x3F) << 8) } else { t2 },
        v: if r.w == 0 { r.v } else { t2 },
        bus_address: if r.w == 0 { r.bus_address } else { t2 & 0x3FFF },
        w: if r.w == 0 { 1 } else { 0 },
        ..r
    }
}

/// The physical 1 KiB bank that logical nametable `i` (0..=3) uses.
pub open spec fn mirror_bank(mode: MirroringMode, i: int) -> int {
    match mode {
        MirroringMode::Horizontal => i / 2,
        MirroringMode::Vertical => i % 2,
        MirroringMode::Lower => 0,
        MirroringMode::Upper => 1,
        MirroringMode::FourScreen => i,
    }
}

/// Where in VRAM the nametable address `addr` (0x2000..=0x3EFF) lands.
pub open spec fn nametable_index(mode: MirroringMode, addr: u16) -> int {
    let a = (addr - 0x2000) % 0x1000;
    mirror_bank(mode, a / 0x400) * 0x400 + a % 0x400
}

/// Where in palette RAM the address `addr` (0x3F00..=0x3FFF) lands:
/// entry 0 of each sprite palette is entry 0 of the matching background
/// palette.
pub open spec fn palette_index(addr: u16) -> int {
    let a = (addr - 0x3F00) % 0x20;
    if a >= 0x10 && a % 4 == 0 {
        a - 0x10
    } else {
        a
    }
}

/// Size of the image buffer: 256 x 240 pixels of four bytes.
pub const IMAGE_LEN: usize = 245760;

/// The picture processing unit.
pub struct Ppu {
    pub r: Registers,
    pub image_index: usize,
    /// 256 x 240 pixels, four bytes each (A, B, G, R), row by row.
    pub image: Vec<u8>,
    pub primary_oam: [u8; 256],
    pub secondary_oam: [u8; 32],
    pub is_sprite_0: [bool; 8],
    /// Four 1 KiB nametable banks (two unless the board has four screens).
    pub vram: [u8; 4096],
    pub palette_ram: [u8; 32],
    /// Dot within the scanline, 0..=340.
    pub cycle: u16,
    /// Scanline, -1..=260.
    pub scanline: i16,
    pub frame: u64,
}

/// The byte that the PPU sees at `addr` (0x0000..=0x3FFF).
#[verifier::opaque]
pub open spec fn ppu_read(p: Ppu, m: Mapper, addr: u16) -> u8 {
    if addr <= 0x1FFF {
        m.read(addr)
    } else if addr <= 0x3EFF {
        p.vram@[nametable_index(m.mirroring(), addr)]
    } else {
        p.palette_ram@[palette_index(addr)]
    }
}

/// `n` is `p` with its memories and `m2` is `m` after a PPU write of `val`
/// at `addr`.
#[verifier::opaque]
pub open spec fn ppu_written(p: Ppu, n: Ppu, m: Mapper, m2: Mapper, addr: u16, val: u8) -> bool {
    &&& n.r == p.r
    &&& n.primary_oam == p.primary_oam
    &&& n.cycle == p.cycle && n.scanline == p.scanline && n.frame == p.frame
    &&& n.image == p.image && n.image_index == p.image_index
    &&& n.secondary_oam == p.secondary_oam && n.is_sprite_0 == p.is_sprite_0
    &&& if addr <= 0x1FFF {
        m.written(m2, addr, val) && n.vram == p.vram && n.palette_ram == p.palette_ram
    } else if addr <= 0x3EFF {
        &&& m2 == m
        &&& n.vram@ == p.vram@.update(nametable_index(m.mirroring(), addr), val)
        &&& n.palette_ram == p.palette_ram
    } else {
        &&& m2 == m
        &&& n.vram == p.vram
        &&& n.palette_ram@ == p.palette_ram@.update(palette_index(addr), val)
    }
}

/// The VRAM address after a 0x2007 access: it moves by the increment and
/// wraps within 14 bits.
pub open spec fn advanced(r: Registers) -> u16 {
    ((r.bus_address + r.vram_address_increment) % 0x4000) as u16
}

fn nametable_offset(mode: MirroringMode, addr: u16) -> (r: usize)
    requires
        0x2000 <= addr <= 0x3EFF,
    ensures
        r == nametable_index(mode, addr),
        r < 4096,
{
    let a = ((addr - 0x2000) % 0x1000) as usize;
    let i = a / 0x400;
    let bank: usize = match mode {
        MirroringMode::Horizontal => i / 2,
        MirroringMode::Vertical => i % 2,
        MirroringMode::Lower => 0,
        MirroringMode::Upper => 1,
        MirroringMode::FourScreen => i,
    };
    bank * 0x400 + a % 0x400
}

fn palette_offset(addr: u16) -> (r: usize)
    requires
        0x3F00 <= addr,
    ensures
        r == palette_index(addr),
        r < 32,
{
    let a = ((addr - 0x3F00) % 0x20) as usize;
    if a >= 0x10 && a % 4 == 0 {
        a - 0x10
    } else {
        a
    }
}

impl Ppu {
    pub open spec fn wf(&self) -> bool {
        &&& self.r.wf()
        &&& self.image@.len() == IMAGE_LEN
        &&& self.image_index <= IMAGE_LEN
        &&& self.image_index % 4 == 0
        &&& self.cycle <= 340
        &&& -1 <= self.scanline <= 260
    }

    /// Reads PPU memory: pattern tables through the mapper, nametables
    /// through mirroring, then palette RAM.
    pub fn read_byte(&self, mapper: &Mapper, addr: u16) -> (r: u8)
        requires
            mapper.wf(),
            addr <= 0x3FFF,
        ensures
            r == ppu_read(*self, *mapper, addr),
    {
        reveal(ppu_read);
        if addr <= 0x1FFF {
            mapper.read_byte(addr)
        } else if addr <= 0x3EFF {
            self.vram[nametable_offset(mapper.mirroring_mode(), addr)]
        } else {
            self.palette_ram[palette_offset(addr)]
        }
    }

    /// Writes PPU memory: pattern tables through the mapper, nametables
    /// through mirroring, then palette RAM.
    pub fn write_byte(&mut self, mapper: &mut Mapper, addr: u16, val: u8)
        requires
            old(mapper).wf(),
            addr <= 0x3FFF,
        ensures
            final(mapper).wf(),
            ppu_written(*old(self), *final(self), *old(mapper), *final(mapper), addr, val),
    {
        reveal(ppu_written);
        if addr <= 0x1FFF {
            mapper.write_byte(addr, val);
        } else if addr <= 0x3EFF {
            let i = nametable_offset(mapper.mirroring_mode(), addr);
            self.vram[i] = val;
        } else {
            let i = palette_offset(addr);
            self.palette_ram[i] = val;
        }
    }
}

/// A palette alias reads what its background entry holds.
pub proof fn lemma_palette_aliases(p: Ppu, m: Mapper)
    ensures
        ppu_read(p, m, 0x3F10) == ppu_read(p, m, 0x3F00),
        ppu_read(p, m, 0x3F14) == ppu_read(p, m, 0x3F04),
        ppu_read(p, m, 0x3F18) == ppu_read(p, m, 0x3F08),
        ppu_read(p, m, 0x3F1C) == ppu_read(p, m, 0x3F0C),
{
    reveal(ppu_read);
}

/// Two nametable addresses that mirroring maps to one VRAM byte read the
/// same byte, also after a write to any nametable address.
pub proof fn lemma_mirrored_reads_agree(p: Ppu, n: Ppu, m: Mapper, m2: Mapper, a1: u16, a2: u16, w: u16, val: u8)
    requires
        0x2000 <= a1 <= 0x3EFF,
        0x2000 <= a2 <= 0x3EFF,
        0x2000 <= w <= 0x3EFF,
        nametable_index(m.mirroring(), a1) == nametable_index(m.mirroring(), a2),
        ppu_written(p, n, m, m2, w, val),
    ensures
        ppu_read(p, m, a1) == ppu_read(p, m, a2),
        ppu_read(n, m2, a1) == ppu_read(n, m2, a2),
{
    reveal(ppu_read);
    reveal(ppu_written);
}

/// The addresses of one nametable byte under mirroring: the logical
/// tables that share a physical bank, and the 0x3000..=0x3EFF mirror.
#[verifier::rlimit(80)]
pub proof fn lemma_mirror_classes(mode: MirroringMode, a: u16)
    requires
        0x2000 <= a <= 0x2EFF,
    ensures
        nametable_index(mode, (a + 0x1000) as u16) == nametable_index(mode, a),
        mode == MirroringMode::Horizontal && a < 0x2400 ==> nametable_index(mode, (a + 0x400) as u16)
            == nametable_index(mode, a),
        mode == MirroringMode::Vertical && a < 0x2800 ==> nametable_index(mode, (a + 0x800) as u16)
            == nametable_index(mode, a),
        (mode == MirroringMode::Lower || mode == MirroringMode::Upper) && a < 0x2400 ==> {
            &&& nametable_index(mode, (a + 0x400) as u16) == nametable_index(mode, a)
            &&& nametable_index(mode, (a + 0x800) as u16) == nametable_index(mode, a)
            &&& nametable_index(mode, (a + 0xC00) as u16) == nametable_index(mode, a)
        },
{
}

/// The fixed 64-entry RGB palette of the console's colours.
pub open spec fn colors() -> Seq<u32> {
    seq![
        0x007C7C7Cu32, 0x000000FC, 0x000000BC, 0x004428BC, 0x00940084, 0x00A80020, 0x00A81000, 0x00881400,
        0x00503000, 0x00007800, 0x00006800, 0x00005800, 0x00004058, 0x00000000, 0x00000000, 0x00000000,
        0x00BCBCBC, 0x000078F8, 0x000058F8, 0x006844FC, 0x00D800CC, 0x00E40058, 0x00F83800, 0x00E45C10,
        0x00AC7C00, 0x0000B800, 0x0000A800, 0x0000A844, 0x00008888, 0x00000000, 0x00000000, 0x00000000,
        0x00F8F8F8, 0x003CBCFC, 0x006888FC, 0x009878F8, 0x00F878F8, 0x00F85898, 0x00F87858, 0x00FCA044,
        0x00F8B800, 0x00B8F818, 0x0058D854, 0x0058F898, 0x0000E8D8, 0x00787878, 0x00000000, 0x00000000,
        0x00FCFCFC, 0x00A4E4FC, 0x00B8B8F8, 0x00D8B8F8, 0x00F8B8F8, 0x00F8A4C0, 0x00F0D0B0, 0x00FCE0A8,
        0x00F8D878, 0x00D8F878, 0x00B8F8B8, 0x00B8F8D8, 0x0000FCFC, 0x00F8D8F8, 0x00000000, 0x00000000,
    ]
}

/// The RGB value of colour `index` (0..=63).
pub fn color(index: u8) -> (r: u32)
    requires
        index < 64,
    ensures
        r == colors()[index as int],
{
    let t: [u32; 64] = [
        0x007C7C7C, 0x000000FC, 0x000000BC, 0x004428BC, 0x00940084, 0x00A80020, 0x00A81000, 0x00881400,
        0x00503000, 0x00007800, 0x00006800, 0x00005800, 0x00004058, 0x00000000, 0x00000000, 0x00000000,
        0x00BCBCBC, 0x000078F8, 0x000058F8, 0x006844FC, 0x00D800CC, 0x00E40058, 0x00F83800, 0x00E45C10,
        0x00AC7C00, 0x0000B800, 0x0000A800, 0x0000A844, 0x00008888, 0x00000000, 0x00000000, 0x00000000,
        0x00F8F8F8, 0x003CBCFC, 0x006888FC, 0x009878F8, 0x00F878F8, 0x00F85898, 0x00F87858, 0x00FCA044,
        0x00F8B800, 0x00B8F818, 0x0058D854, 0x0058F898, 0x0000E8D8, 0x00787878, 0x00000000, 0x00000000,
        0x00FCFCFC, 0x00A4E4FC, 0x00B8B8F8, 0x00D8B8F8, 0x00F8B8F8, 0x00F8A4C0, 0x00F0D0B0, 0x00FCE0A8,
        0x00F8D878, 0x00D8F878, 0x00B8F8B8, 0x00B8F8D8, 0x0000FCFC, 0x00F8D8F8, 0x00000000, 0x00000000,
    ];
    proof {
        assert(t@ =~= colors());
    }
    t[index as usize]
}

/// The palette RAM contents at power-on.
pub open spec fn initial_palette() -> Seq<u8> {
    seq![
        0x09u8, 0x01, 0x00, 0x01, 0x00, 0x02, 0x02, 0x0D, 0x08, 0x10, 0x08, 0x24, 0x00, 0x00, 0x04, 0x2C,
        0x09, 0x01, 0x34, 0x03, 0x00, 0x04, 0x00, 0x14, 0x08, 0x3A, 0x00, 0x02, 0x00, 0x20, 0x2C, 0x08,
    ]
}

/// The address that the register access at `addr` (0x2000..=0x3FFF) names:
/// the eight registers repeat every 8 bytes.
pub open spec fn register_of(addr: u16) -> u16 {
    (0x2000 + (addr - 0x2000) % 8) as u16
}

impl Ppu {
    /// A PPU at power-on: blank image, cleared memories, the power-on
    /// palette, dot 0 of scanline 0.
    pub fn new() -> (r: Ppu)
        ensures
            r.wf(),
            r.palette_ram@ == initial_palette(),
            r.cycle == 0 && r.scanline == 0 && r.frame == 0,
            r.primary_oam@ == Seq::new(256, |i: int| 0u8),
            r.vram@ == Seq::new(4096, |i: int| 0u8),
            r.r == Registers::new_spec(),
    {
        let palette_ram: [u8; 32] = [
            0x09, 0x01, 0x00, 0x01, 0x00, 0x02, 0x02, 0x0D, 0x08, 0x10, 0x08, 0x24, 0x00, 0x00, 0x04, 0x2C,
            0x09, 0x01, 0x34, 0x03, 0x00, 0x04, 0x00, 0x14, 0x08, 0x3A, 0x00, 0x02, 0x00, 0x20, 0x2C, 0x08,
        ];
        let p = Ppu {
            r: Registers::new(),
            image_index: 0,
            image: crate::cartridge::zeros(IMAGE_LEN),
            primary_oam: [0; 256],
            secondary_oam: [0; 32],
            is_sprite_0: [false; 8],
            vram: [0; 4096],
            palette_ram,
            cycle: 0,
            scanline: 0,
            frame: 0,
        };
        proof {
            assert(p.palette_ram@ =~= initial_palette());
            assert(p.primary_oam@ =~= Seq::new(256, |i: int| 0u8));
            assert(p.vram@ =~= Seq::new(4096, |i: int| 0u8));
        }
        p
    }

    /// Soft reset: PPUCTRL and PPUMASK cleared, OAM address 0, and the dot
    /// counter back at the pre-render scanline of frame 0.
    pub fn reset(&mut self)
        requires
            old(self).wf(),
        ensures
            final(self).wf(),
            *final(self) == ppu_after_reset(*old(self)),
    {
        let mut r = self.r;
        r.write_ppu_ctrl(0);
        r.write_ppu_mask(0);
        self.r = Registers { oam_addr: 0, ..r };
        self.cycle = 0;
        self.scanline = -1;
        self.frame = 0;
        self.image_index = 0;
    }

    /// Reads a PPU register (0x2000..=0x2007): the status register, OAM
    /// data, buffered VRAM data; the write-only ones give the data bus.
    pub fn read_register(&mut self, mapper: &Mapper, addr: u16) -> (r: u8)
        requires
            old(self).wf(),
            mapper.wf(),
            0x2000 <= addr <= 0x2007,
        ensures
            final(self).wf(),
            final(self).primary_oam == old(self).primary_oam,
            final(self).vram == old(self).vram,
            final(self).palette_ram == old(self).palette_ram,
            final(self).cycle == old(self).cycle && final(self).scanline == old(self).scanline,
            final(self).frame == old(self).frame,
            addr == 0x2002 ==> r == status_of(old(self).r) && final(self).r == (Registers {
                v_blank_started: false,
                w: 0,
                ..old(self).r
            }),
            addr == 0x2004 ==> r == old(self).primary_oam@[old(self).r.oam_addr as int]
                && final(self).r == old(self).r,
            addr == 0x2007 ==> {
                let a = old(self).r.bus_address;
                &&& r == (if a < 0x3F00 { old(self).r.buffer } else { ppu_read(*old(self), *mapper, a) })
                &&& final(self).r == (Registers {
                    buffer: if a < 0x3F00 {
                        ppu_read(*old(self), *mapper, a)
                    } else {
                        ppu_read(*old(self), *mapper, (a - 0x1000) as u16)
                    },
                    bus_address: advanced(old(self).r),
                    ..old(self).r
                })
            },
            addr != 0x2002 && addr != 0x2004 && addr != 0x2007 ==> r == old(self).r.last_written_byte
                && final(self).r == old(self).r,
    {
        if addr == 0x2002 {
            self.r.read_ppu_status()
        } else if addr == 0x2004 {
            self.primary_oam[self.r.oam_addr as usize]
        } else if addr == 0x2007 {
            self.read_data(mapper)
        } else {
            self.r.last_written_byte
        }
    }

    /// Writes a PPU register (0x2000..=0x2007); every write also sets the
    /// data bus byte.
    pub fn write_register(&mut self, mapper: &mut Mapper, addr: u16, val: u8)
        requires
            old(self).wf(),
            old(mapper).wf(),
            0x2000 <= addr <= 0x2007,
        ensures
            final(self).wf(),
            final(mapper).wf(),
            final(self).cycle == old(self).cycle && final(self).scanline == old(self).scanline,
            final(self).frame == old(self).frame,
            addr != 0x2007 ==> *final(mapper) == *old(mapper),
            addr != 0x2007 && addr != 0x2004 ==> final(self).primary_oam == old(self).primary_oam,
            addr != 0x2007 ==> final(self).vram == old(self).vram && final(self).palette_ram
                == old(self).palette_ram,
            ({
                let r0 = Registers { last_written_byte: val, ..old(self).r };
                &&& addr != 0x2004 && addr != 0x2007 ==> final(self).r == register_written(old(self).r, addr, val)
                &&& addr == 0x2004 ==> final(self).r == (Registers {
                    oam_addr: if r0.oam_addr == 255 { 0 } else { (r0.oam_addr + 1) as u8 },
                    ..r0
                }) && final(self).primary_oam@ == old(self).primary_oam@.update(
                    r0.oam_addr as int,
                    val,
                )
                &&& addr == 0x2007 ==> final(self).r == (Registers { bus_address: advanced(r0), ..r0 })
                    && ppu_written(
                    Ppu { r: r0, ..*old(self) },
                    Ppu { r: r0, ..*final(self) },
                    *old(mapper),
                    *final(mapper),
                    r0.bus_address,
                    val,
                )
            }),
    {
        if addr == 0x2004 {
            let a = self.r.oam_addr;
            self.primary_oam[a as usize] = val;
            let na: u8 = if a == 255 {
                0
            } else {
                a + 1
            };
            self.r = Registers { last_written_byte: val, oam_addr: na, ..self.r };
        } else if addr == 0x2007 {
            self.r = Registers { last_written_byte: val, ..self.r };
            self.write_data(mapper, val);
        } else {
            let mut r = self.r;
            r.write(addr, val);
            self.r = r;
        }
    }

    fn read_data(&mut self, mapper: &Mapper) -> (r: u8)
        requires
            old(self).wf(),
            mapper.wf(),
        ensures
            final(self).wf(),
            final(self).primary_oam == old(self).primary_oam,
            final(self).vram == old(self).vram,
            final(self).palette_ram == old(self).palette_ram,
            final(self).cycle == old(self).cycle && final(self).scanline == old(self).scanline,
            final(self).frame == old(self).frame,
            ({
                let a = old(self).r.bus_address;
                &&& r == (if a < 0x3F00 { old(self).r.buffer } else { ppu_read(*old(self), *mapper, a) })
                &&& final(self).r == (Registers {
                    buffer: if a < 0x3F00 {
                        ppu_read(*old(self), *mapper, a)
                    } else {
                        ppu_read(*old(self), *mapper, (a - 0x1000) as u16)
                    },
                    bus_address: advanced(old(self).r),
                    ..old(self).r
                })
            }),
    {
        let a = self.r.bus_address;
        let cur = self.read_byte(mapper, a);
        let ret = if a < 0x3F00 {
            self.r.buffer
        } else {
            cur
        };
        let nb = if a < 0x3F00 {
            cur
        } else {
            self.read_byte(mapper, a - 0x1000)
        };
        let na = (a + self.r.vram_address_increment) % 0x4000;
        self.r = Registers { buffer: nb, bus_address: na, ..self.r };
        ret
    }

    fn write_data(&mut self, mapper: &mut Mapper, val: u8)
        requires
            old(self).wf(),
            old(mapper).wf(),
        ensures
            final(self).wf(),
            final(mapper).wf(),
            final(self).r == (Registers { bus_address: advanced(old(self).r), ..old(self).r }),
            final(self).cycle == old(self).cycle && final(self).scanline == old(self).scanline,
            final(self).frame == old(self).frame,
            ppu_written(
                *old(self),
                Ppu { r: old(self).r, ..*final(self) },
                *old(mapper),
                *final(mapper),
                old(self).r.bus_address,
                val,
            ),
    {
        reveal(ppu_written);
        let a = self.r.bus_address;
        self.write_byte(mapper, a, val);
        let na = (a + self.r.vram_address_increment) % 0x4000;
        self.r = Registers { bus_address: na, ..self.r };
    }

    /// OAM DMA: the 256 bytes of `page` go to primary OAM from the current
    /// OAM address on, which wraps and ends where it started.
    pub fn oam_dma(&mut self, page: &[u8; 256])
        requires
            old(self).wf(),
        ensures
            final(self).wf(),
            final(self).r == old(self).r,
            forall|k: int|
                0 <= k < 256 ==> #[trigger] final(self).primary_oam@[(old(self).r.oam_addr + k) % 256]
                    == page@[k],
            final(self).vram == old(self).vram && final(self).palette_ram == old(self).palette_ram,
            final(self).cycle == old(self).cycle && final(self).scanline == old(self).scanline,
            final(self).frame == old(self).frame,
    {
        let start = self.r.oam_addr;
        let mut k: usize = 0;
        while k < 256
            invariant
                self.wf(),
                self.r == old(self).r,
                start == self.r.oam_addr,
                k <= 256,
                forall|j: int| 0 <= j < k ==> #[trigger] self.primary_oam@[(start + j) % 256] == page@[j],
                self.vram == old(self).vram && self.palette_ram == old(self).palette_ram,
                self.cycle == old(self).cycle && self.scanline == old(self).scanline,
                self.frame == old(self).frame,
            decreases 256 - k,
        {
            let i = (start as usize + k) % 256;
            self.primary_oam[i] = page[k];
            proof {
                assert forall|j: int| 0 <= j < k + 1 implies #[trigger] self.primary_oam@[(start + j) % 256]
                    == page@[j] by {
                    if j < k {
                        assert((start + j) % 256 != (start + k) % 256);
                    }
                }
            }
            k = k + 1;
        }
    }
}

impl Registers {
    /// The power-on register values, as `new` returns them.
    pub open spec fn new_spec() -> Registers {
        Registers {
            high_tile_byte: 0,
            low_tile_byte: 0,
            nametable_byte: 0,
            palette: 0,
            tile: 0,
            v: 0,
            t: 0,
            x: 0,
            w: 0,
            nametable_address: 0,
            vram_address_increment: 0,
            sprite_pattern_table_address: 0,
            background_pattern_table_address: 0,
            sprite_size: (8, 8),
            is_master: false,
            nmi_enabled: false,
            greyscale_enabled: false,
            show_left_background: false,
            show_left_sprites: false,
            show_background: false,
            show_sprites: false,
            emphasize_red: false,
            emphasize_green: false,
            emphasize_blue: false,
            rendering_enabled: false,
            sprite_overflow: false,
            sprite_0_hit: false,
            v_blank_started: false,
            oam_addr: 0,
            scroll_x: 0,
            scroll_y: 0,
            bus_address: 0,
            buffer: 0,
            last_written_byte: 0,
        }
    }
}

proof fn lemma_status_bit7(lw: u8, o: u8, h: u8, vb: u8)
    by (bit_vector)
    requires
        o == 0 || o == 0x20,
        h == 0 || h == 0x40,
        vb == 0 || vb == 0x80,
    ensures
        ((lw & 0x1F) | o | h | vb) & 0x80 == vb,
{
}

/// Reading PPUSTATUS reports the VBlank flag in bit 7, then clears the
/// flag and the write toggle.
pub proof fn lemma_status_read(r: Registers)
    ensures
        (status_of(r) & 0x80 != 0) == r.v_blank_started,
        !(Registers { v_blank_started: false, w: 0, ..r }).v_blank_started,
        (Registers { v_blank_started: false, w: 0, ..r }).w == 0,
{
    lemma_status_bit7(
        r.last_written_byte,
        if r.sprite_overflow { 0x20u8 } else { 0u8 },
        if r.sprite_0_hit { 0x40u8 } else { 0u8 },
        if r.v_blank_started { 0x80u8 } else { 0u8 },
    );
}

/// After OAM DMA from a page, with the OAM address at 0 when it starts,
/// OAM entry `i` holds byte `i` of the page.
pub proof fn lemma_dma_from_zero(start: u8, page: Seq<u8>, oam: Seq<u8>)
    requires
        start == 0,
        page.len() == 256,
        forall|k: int| 0 <= k < 256 ==> #[trigger] oam[(start + k) % 256] == page[k],
    ensures
        forall|i: int| 0 <= i < 256 ==> #[trigger] oam[i] == page[(start + i) % 256],
{
    assert forall|i: int| 0 <= i < 256 implies #[trigger] oam[i] == page[(start + i) % 256] by {
        assert(oam[(start + i) % 256] == page[i]);
    }
}

/// The register file after a write of `val` to PPUCTRL, PPUMASK, PPUSTATUS,
/// OAMADDR, PPUSCROLL or PPUADDR; every write also sets the data bus byte.
pub open spec fn register_written(r: Registers, addr: u16, val: u8) -> Registers {
    let r0 = Registers { last_written_byte: val, ..r };
    if addr == 0x2000 {
        ctrl_written(r0, val)
    } else if addr == 0x2001 {
        mask_written(r0, val)
    } else if addr == 0x2003 {
        Registers { oam_addr: val, ..r0 }
    } else if addr == 0x2005 {
        scroll_written(r0, val)
    } else if addr == 0x2006 {
        addr_written(r0, val)
    } else {
        r0
    }
}

impl Registers {
    /// Writes one of the registers that only the register file holds.
    pub fn write(&mut self, addr: u16, val: u8)
        requires
            old(self).wf(),
        ensures
            final(self).wf(),
            *final(self) == register_written(*old(self), addr, val),
    {
        let mut r = Registers { last_written_byte: val, ..*self };
        if addr == 0x2000 {
            r.write_ppu_ctrl(val);
        } else if addr == 0x2001 {
            r.write_ppu_mask(val);
        } else if addr == 0x2003 {
            r = Registers { oam_addr: val, ..r };
        } else if addr == 0x2005 {
            r.write_ppu_scroll(val);
        } else if addr == 0x2006 {
            r.write_ppu_addr(val);
        }
        *self = r;
    }
}

/// The dot counters after one dot: 341 dots per scanline, scanlines -1
/// to 260, and a new frame after scanline 260.
pub open spec fn next_dot(cycle: u16, scanline: i16, frame: u64) -> (u16, i16, u64) {
    if cycle + 1 < 341 {
        ((cycle + 1) as u16, scanline, frame)
    } else if scanline + 1 < 261 {
        (0, (scanline + 1) as i16, frame)
    } else {
        (0, -1i16, if frame == u64::MAX { 0 } else { (frame + 1) as u64 })
    }
}

/// The palette address of the pixel that wins: a transparent background
/// and sprite show the backdrop; an opaque sprite shows unless it sits
/// behind an opaque background.
pub open spec fn pixel_address(bg: u16, sp: u16, behind: bool) -> u16 {
    let bg_on = bg % 4 != 0;
    let sp_on = sp % 4 != 0;
    if !bg_on && !sp_on {
        0x3F00
    } else if !bg_on {
        (0x3F10 + sp) as u16
    } else if !sp_on {
        (0x3F00 + bg) as u16
    } else if !behind {
        (0x3F10 + sp) as u16
    } else {
        (0x3F00 + bg) as u16
    }
}

impl Ppu {
    /// Fetches the nametable byte of the tile at v.
    fn fetch_nametable_byte(&mut self, mapper: &Mapper)
        requires
            old(self).wf(),
            mapper.wf(),
        ensures
            final(self).wf(),
            *final(self) == (Ppu {
                r: Registers {
                    nametable_byte: ppu_read(*old(self), *mapper, (0x2000 + old(self).r.v % 0x1000) as u16),
                    ..old(self).r
                },
                ..*old(self)
            }),
    {
        let b = self.read_byte(mapper, 0x2000 + self.r.v % 0x1000);
        self.r = Registers { nametable_byte: b, ..self.r };
    }

    /// Fetches the attribute byte of the tile at v and keeps its 2-bit
    /// palette for the tile's quadrant.
    fn fetch_attribute_table_byte(&mut self, mapper: &Mapper)
        requires
            old(self).wf(),
            mapper.wf(),
        ensures
            final(self).wf(),
            ({
                let v = old(self).r.v;
                let addr = (0x23C0 + (v / 0x400 % 4) * 0x400 + ((v / 128) % 8) * 8 + (v / 4) % 8) as u16;
                let shift = (v / 2 % 2) * 2 + (v / 64 % 2) * 4;
                *final(self) == (Ppu {
                    r: Registers {
                        palette: (ppu_read(*old(self), *mapper, addr) >> (shift as u8)) % 4,
                        ..old(self).r
                    },
                    ..*old(self)
                })
            }),
    {
        let v = self.r.v;
        let addr = 0x23C0 + (v / 0x400 % 4) * 0x400 + ((v / 128) % 8) * 8 + (v / 4) % 8;
        let shift = ((v / 2 % 2) * 2 + (v / 64 % 2) * 4) as u8;
        let b = self.read_byte(mapper, addr);
        self.r = Registers { palette: (b >> shift) % 4, ..self.r };
    }

    /// Fetches the low or high pattern byte of the tile row at v.
    fn fetch_tile_byte(&mut self, mapper: &Mapper, high: bool)
        requires
            old(self).wf(),
            mapper.wf(),
        ensures
            final(self).wf(),
            ({
                let addr = (old(self).r.background_pattern_table_address + old(self).r.nametable_byte
                    as int * 16 + (old(self).r.v / 4096) % 8) as u16;
                &&& high ==> *final(self) == (Ppu {
                    r: Registers {
                        high_tile_byte: ppu_read(*old(self), *mapper, (addr + 8) as u16),
                        ..old(self).r
                    },
                    ..*old(self)
                })
                &&& !high ==> *final(self) == (Ppu {
                    r: Registers { low_tile_byte: ppu_read(*old(self), *mapper, addr), ..old(self).r },
                    ..*old(self)
                })
            }),
    {
        let fine_y = (self.r.v / 4096) % 8;
        let addr = self.r.background_pattern_table_address + self.r.nametable_byte as u16 * 16 + fine_y;
        if high {
            let b = self.read_byte(mapper, addr + 8);
            self.r = Registers { high_tile_byte: b, ..self.r };
        } else {
            let b = self.read_byte(mapper, addr);
            self.r = Registers { low_tile_byte: b, ..self.r };
        }
    }

    /// Moves the fetched row into the low half of the pipeline: eight
    /// nibbles of palette and colour, leftmost pixel highest.
    fn load_tile(&mut self)
        requires
            old(self).wf(),
        ensures
            final(self).r == (Registers { tile: final(self).r.tile, ..old(self).r }),
            final(self).wf(),
            final(self).r.tile == old(self).r.tile | tile_row(
                old(self).r.high_tile_byte,
                old(self).r.low_tile_byte,
                old(self).r.palette,
                8,
            ),
            final(self).r.v == old(self).r.v,
            final(self).cycle == old(self).cycle && final(self).scanline == old(self).scanline,
            final(self).frame == old(self).frame,
            final(self).primary_oam == old(self).primary_oam,
            final(self).r.nmi_enabled == old(self).r.nmi_enabled,
    {
        let hi = self.r.high_tile_byte;
        let lo = self.r.low_tile_byte;
        let pal = self.r.palette as u64;
        let mut curr: u64 = 0;
        let mut i: u8 = 0;
        while i < 8
            invariant
                i <= 8,
                curr == tile_row(hi, lo, self.r.palette, i as nat),
                pal == self.r.palette as u64,
            decreases 8 - i,
        {
            let color = (((hi >> (7 - i)) % 2) * 2 + ((lo >> (7 - i)) % 2)) as u64;
            curr = (curr << 4u64) | ((pal << 2u64) | color);
            i = i + 1;
        }
        self.r = Registers { tile: self.r.tile | curr, ..self.r };
    }

    /// The background nibble under the current dot, 0 where the background
    /// is hidden.
    fn compute_background_pixel(&self) -> (r: u16)
        requires
            self.wf(),
            1 <= self.cycle <= 256,
        ensures
            r == background_nibble(*self),
            r < 16,
    {
        let x = self.cycle - 1;
        if (x < 8 && !self.r.show_left_background) || !self.r.show_background {
            return 0;
        }
        (((self.r.tile >> 32u64) >> ((7 - self.r.x) * 4) as u64) % 16) as u16
    }

    /// The first opaque sprite pixel under the current dot among the eight
    /// slots: its palette nibble, whether it sits behind the background and
    /// whether it is sprite 0.
    fn compute_sprite_pixel(&self, mapper: &Mapper) -> (r: (u16, bool, bool))
        requires
            self.wf(),
            mapper.wf(),
            1 <= self.cycle <= 256,
            0 <= self.scanline <= 239,
        ensures
            (self.cycle - 1 < 8 && !self.r.show_left_sprites) || !self.r.show_sprites ==> r == (
                0u16,
                false,
                false,
            ),
            !((self.cycle - 1 < 8 && !self.r.show_left_sprites) || !self.r.show_sprites) ==> r
                == sprite_search(*self, *mapper, 0),
            r.0 < 16,
    {
        let y = self.scanline as u8;
        let x = (self.cycle - 1) as u8;
        if (x < 8 && !self.r.show_left_sprites) || !self.r.show_sprites {
            return (0, false, false);
        }
        let mut i: usize = 0;
        while i < 8
            invariant
                i <= 8,
                self.wf(),
                mapper.wf(),
                x == self.cycle - 1,
                y == self.scanline,
                !((self.cycle - 1 < 8 && !self.r.show_left_sprites) || !self.r.show_sprites),
                sprite_search(*self, *mapper, 0) == sprite_search(*self, *mapper, i as int),
            decreases 8 - i,
        {
            let sprite_y = self.secondary_oam[i * 4].wrapping_add(1);
            let sprite_x = self.secondary_oam[i * 4 + 3];
            let tile_index = self.secondary_oam[i * 4 + 1];
            let attributes = self.secondary_oam[i * 4 + 2];
            if sprite_y & tile_index & attributes & sprite_x == 0xFF {
                return (0, false, false);
            }
            if sprite_x <= x && (x as u16) < sprite_x as u16 + 8 && 1 <= sprite_y && sprite_y <= 239
                && y >= sprite_y {
                let height = self.r.sprite_size.1;
                let px0 = 7 - (x - sprite_x);
                let px = if attributes & 0x40 != 0 {
                    7 - px0
                } else {
                    px0
                };
                let py0 = y - sprite_y;
                let py1 = if attributes & 0x80 != 0 {
                    ((height as u16 - 1 + 256 - py0 as u16) % 256) as u8
                } else {
                    py0
                };
                let table: u16 = if height == 16 {
                    (tile_index % 2) as u16 * 0x1000
                } else {
                    self.r.sprite_pattern_table_address
                };
                let tile1 = if height == 16 {
                    tile_index - tile_index % 2
                } else {
                    tile_index
                };
                let tile2 = if height == 16 && py1 >= 8 {
                    ((tile1 as u16 + 1) % 256) as u8
                } else {
                    tile1
                };
                let py = if height == 16 && py1 >= 8 {
                    py1 - 8
                } else {
                    py1
                };
                let addr = table + tile2 as u16 * 16 + py as u16;
                let low = (self.read_byte(mapper, addr) >> px) % 2;
                let high = (self.read_byte(mapper, addr + 8) >> px) % 2;
                let color = low + high * 2;
                if color != 0 {
                    let palette = attributes % 4;
                    return ((palette * 4 + color) as u16, attributes & 0x20 != 0, self.is_sprite_0[i]);
                }
            }
            i = i + 1;
        }
        (0, false, false)
    }

    /// Composes the pixel at the current dot and stores it as four bytes
    /// (R, G, B, 255) at its place in the image; an opaque sprite 0 over an
    /// opaque background sets the sprite-0 hit, except at dot 256.
    fn draw_pixel(&mut self, mapper: &Mapper)
        requires
            old(self).wf(),
            mapper.wf(),
            1 <= old(self).cycle <= 256,
            0 <= old(self).scanline <= 239,
        ensures
            final(self).wf(),
            final(self).cycle == old(self).cycle && final(self).scanline == old(self).scanline,
            final(self).frame == old(self).frame,
            final(self).r.v == old(self).r.v && final(self).r.t == old(self).r.t,
            final(self).r.nmi_enabled == old(self).r.nmi_enabled,
            final(self).primary_oam == old(self).primary_oam,
            ({
                let bg = background_nibble(*old(self));
                let (sp, behind, zero) = sprite_pixel(*old(self), *mapper);
                let c = colors()[(ppu_read(*old(self), *mapper, pixel_address(bg, sp, behind)) % 64) as int];
                let idx = (old(self).scanline * 256 + old(self).cycle - 1) * 4;
                &&& final(self).image@ == old(self).image@.update(idx, ((c / 65536) % 256) as u8).update(
                    idx + 1,
                    ((c / 256) % 256) as u8,
                ).update(idx + 2, (c % 256) as u8).update(idx + 3, 255u8)
                &&& final(self).r == (Registers {
                    sprite_0_hit: old(self).r.sprite_0_hit || (bg % 4 != 0 && sp % 4 != 0
                        && old(self).cycle != 256 && zero),
                    ..old(self).r
                })
            }),
    {
        let (c, hit) = self.pixel_color(mapper);
        if hit {
            self.r = Registers { sprite_0_hit: true, ..self.r };
        }
        self.put_pixel(c);
    }

    /// The colour of the pixel at the current dot, and whether it is an
    /// opaque sprite 0 over an opaque background away from dot 256.
    fn pixel_color(&self, mapper: &Mapper) -> (r: (u32, bool))
        requires
            self.wf(),
            mapper.wf(),
            1 <= self.cycle <= 256,
            0 <= self.scanline <= 239,
        ensures
            ({
                let bg = background_nibble(*self);
                let (sp, behind, zero) = sprite_pixel(*self, *mapper);
                &&& r.0 == colors()[(ppu_read(*self, *mapper, pixel_address(bg, sp, behind)) % 64) as int]
                &&& r.1 == (bg % 4 != 0 && sp % 4 != 0 && self.cycle != 256 && zero)
            }),
    {
        let bg = self.compute_background_pixel();
        let (sp, behind, is_sprite_0) = self.compute_sprite_pixel(mapper);
        let bg_on = bg % 4 != 0;
        let sp_on = sp % 4 != 0;
        let addr: u16 = if !bg_on && !sp_on {
            0x3F00
        } else if !bg_on {
            0x3F10 + sp
        } else if !sp_on {
            0x3F00 + bg
        } else if !behind {
            0x3F10 + sp
        } else {
            0x3F00 + bg
        };
        let c = color(self.read_byte(mapper, addr) % 64);
        (c, bg_on && sp_on && self.cycle != 256 && is_sprite_0)
    }

    /// Stores colour `c` as (R, G, B, 255) at the current dot's place.
    fn put_pixel(&mut self, c: u32)
        requires
            old(self).wf(),
            1 <= old(self).cycle <= 256,
            0 <= old(self).scanline <= 239,
        ensures
            final(self).wf(),
            ({
                let idx = (old(self).scanline * 256 + old(self).cycle - 1) * 4;
                *final(self) == (Ppu {
                    image: final(self).image,
                    ..*old(self)
                }) && final(self).image@ == old(self).image@.update(idx, ((c / 65536) % 256) as u8).update(
                    idx + 1,
                    ((c / 256) % 256) as u8,
                ).update(idx + 2, (c % 256) as u8).update(idx + 3, 255u8)
            }),
    {
        let idx = (self.scanline as usize * 256 + (self.cycle as usize - 1)) * 4;
        self.image.set(idx, ((c / 65536) % 256) as u8);
        self.image.set(idx + 1, ((c / 256) % 256) as u8);
        self.image.set(idx + 2, (c % 256) as u8);
        self.image.set(idx + 3, 255);
    }

    /// At dot 257: clears secondary OAM and copies into it the first eight
    /// sprites whose rows cover the next scanline, in OAM order; a ninth
    /// sets the overflow flag.
    pub fn evaluate_sprites(&mut self)
        requires
            old(self).wf(),
        ensures
            final(self).wf(),
            sprites_evaluated(*old(self), *final(self)),
            final(self).cycle == old(self).cycle && final(self).scanline == old(self).scanline,
            final(self).frame == old(self).frame,
            final(self).primary_oam == old(self).primary_oam,
            final(self).r.v_blank_started == old(self).r.v_blank_started,
            final(self).r.nmi_enabled == old(self).r.nmi_enabled,
    {
        reveal(sprites_evaluated);
        let mut k: usize = 0;
        while k < 32
            invariant
                k <= 32,
                self.wf(),
                *self == (Ppu { secondary_oam: self.secondary_oam, ..*old(self) }),
                forall|j: int| 0 <= j < k ==> #[trigger] self.secondary_oam@[j] == 0xFF,
            decreases 32 - k,
        {
            self.secondary_oam[k] = 0xFF;
            k = k + 1;
        }
        let height = self.r.sprite_size.1 as i16;
        let next = self.scanline as i16 + 1;
        let mut overflow = self.r.sprite_overflow;
        let mut count: usize = 0;
        let mut i: usize = 0;
        while i < 64
            invariant
                i <= 64,
                self.wf(),
                *self == (Ppu {
                    secondary_oam: self.secondary_oam,
                    is_sprite_0: self.is_sprite_0,
                    ..*old(self)
                }),
                height == old(self).r.sprite_size.1,
                next == old(self).scanline + 1,
                count == (if covering_before(*old(self), i as int) < 8 {
                    covering_before(*old(self), i as int)
                } else {
                    8
                }),
                overflow == (old(self).r.sprite_overflow || covering_before(*old(self), i as int) > 8),
                forall|m: int|
                    0 <= m < i && #[trigger] covers(*old(self), m) && covering_before(*old(self), m) < 8
                        ==> slot_holds(*self, covering_before(*old(self), m), m),
                forall|j: int| count * 4 <= j < 32 ==> #[trigger] self.secondary_oam@[j] == 0xFF,
            decreases 64 - i,
        {
            let y = self.primary_oam[i * 4] as i16 + 1;
            proof {
                lemma_covering_step(*old(self), i as int);
            }
            if y <= next && next <= y + height - 1 {
                if count < 8 {
                    let base = i * 4;
                    let b0 = self.primary_oam[base];
                    let b1 = self.primary_oam[base + 1];
                    let b2 = self.primary_oam[base + 2];
                    let b3 = self.primary_oam[base + 3];
                    self.secondary_oam[count * 4] = b0;
                    self.secondary_oam[count * 4 + 1] = b1;
                    self.secondary_oam[count * 4 + 2] = b2;
                    self.secondary_oam[count * 4 + 3] = b3;
                    self.is_sprite_0[count] = i == 0;
                    proof {
                        assert forall|m: int|
                            0 <= m < i + 1 && #[trigger] covers(*old(self), m) && covering_before(
                                *old(self),
                                m,
                            ) < 8 implies slot_holds(*self, covering_before(*old(self), m), m) by {
                            if m < i {
                                lemma_covering_mono(*old(self), m + 1, i as int);
                                lemma_covering_step(*old(self), m);
                            }
                        }
                    }
                    count = count + 1;
                } else {
                    overflow = true;
                }
            }
            i = i + 1;
        }
        self.r = Registers { sprite_overflow: overflow, ..self.r };
    }
}

/// The background nibble under the current dot, 0 where the background is
/// hidden.
pub open spec fn background_nibble(p: Ppu) -> u16 {
    if (p.cycle - 1 < 8 && !p.r.show_left_background) || !p.r.show_background {
        0
    } else {
        (((p.r.tile >> 32u64) >> ((7 - p.r.x) * 4) as u64) % 16) as u16
    }
}

/// The sprite pixel under the current dot: none where sprites are hidden.
pub open spec fn sprite_pixel(p: Ppu, m: Mapper) -> (u16, bool, bool) {
    if (p.cycle - 1 < 8 && !p.r.show_left_sprites) || !p.r.show_sprites {
        (0, false, false)
    } else {
        sprite_search(p, m, 0)
    }
}

/// Sprite slot `i` (0..=7) of secondary OAM holds the end marker.
pub open spec fn slot_is_end(p: Ppu, i: int) -> bool {
    let o = p.secondary_oam@;
    ((o[i * 4] + 1) % 256) as u8 & o[i * 4 + 1] & o[i * 4 + 2] & o[i * 4 + 3] == 0xFF
}

/// The opaque pixel that sprite slot `i` puts at the current dot, if any:
/// its palette nibble, whether it sits behind the background, and whether
/// it is sprite 0.
pub open spec fn slot_pixel(p: Ppu, m: Mapper, i: int) -> Option<(u16, bool, bool)> {
    let o = p.secondary_oam@;
    let y = p.scanline as int;
    let x = p.cycle - 1;
    let sprite_y = (o[i * 4] + 1) % 256;
    let sprite_x = o[i * 4 + 3] as int;
    let tile = o[i * 4 + 1] as int;
    let attributes = o[i * 4 + 2];
    let height = p.r.sprite_size.1 as int;
    if !(sprite_x <= x < sprite_x + 8 && 1 <= sprite_y <= 239 && y >= sprite_y) {
        None
    } else {
        let px0 = 7 - (x - sprite_x);
        let px = if attributes & 0x40 != 0 { 7 - px0 } else { px0 };
        let py0 = y - sprite_y;
        let py1 = if attributes & 0x80 != 0 { (height - 1 - py0 + 256) % 256 } else { py0 };
        let table = if height == 16 { (tile % 2) * 0x1000 } else { p.r.sprite_pattern_table_address as int };
        let tile1 = if height == 16 { tile - tile % 2 } else { tile };
        let tile2 = if height == 16 && py1 >= 8 { (tile1 + 1) % 256 } else { tile1 };
        let py = if height == 16 && py1 >= 8 { py1 - 8 } else { py1 };
        let addr = (table + tile2 * 16 + py) as u16;
        let low = (ppu_read(p, m, addr) >> (px as u8)) % 2;
        let high = (ppu_read(p, m, (addr + 8) as u16) >> (px as u8)) % 2;
        let color = low + high * 2;
        if color == 0 {
            None
        } else {
            Some((((attributes % 4) * 4 + color) as u16, attributes & 0x20 != 0, p.is_sprite_0@[i]))
        }
    }
}

/// The first opaque sprite pixel at the current dot among slots `i..8`,
/// stopping at an end marker.
pub open spec fn sprite_search(p: Ppu, m: Mapper, i: int) -> (u16, bool, bool)
    decreases 8 - i,
{
    if i >= 8 || i < 0 {
        (0, false, false)
    } else if slot_is_end(p, i) {
        (0, false, false)
    } else {
        match slot_pixel(p, m, i) {
            Some(r) => r,
            None => sprite_search(p, m, i + 1),
        }
    }
}

/// The pipeline nibbles of the first `n` pixels of a pattern row, first
/// pixel highest: palette in the top two bits, colour in the low two.
pub open spec fn tile_row(hi: u8, lo: u8, pal: u8, n: nat) -> u64
    decreases n,
{
    if n == 0 {
        0
    } else {
        let i = (n - 1) as u8;
        let color = (((hi >> (7 - i) as u8) % 2) * 2 + ((lo >> (7 - i) as u8) % 2)) as u64;
        (tile_row(hi, lo, pal, (n - 1) as nat) << 4u64) | (((pal as u64) << 2u64) | color)
    }
}

impl Ppu {
    /// Advances one dot: draws visible pixels, runs the background fetches
    /// and scroll updates, evaluates sprites at dot 257, and raises or
    /// clears VBlank. Returns whether this dot posts an NMI (VBlank starts
    /// with NMI enabled).
    #[verifier::rlimit(100)]
    pub fn step(&mut self, mapper: &Mapper) -> (nmi: bool)
        requires
            old(self).wf(),
            mapper.wf(),
        ensures
            final(self).wf(),
            ppu_stepped(*old(self), *final(self), nmi),
    {
        self.advance_dot();
        let nmi_enabled = self.r.nmi_enabled;
        if self.cycle == 257 && ((0 <= self.scanline && self.scanline <= 239) || self.scanline == -1) {
            assert(*self == (Ppu { cycle: 257, ..*old(self) }));
            self.sprite_dot();
        } else if self.cycle != 257 {
            self.render_dot(mapper);
        }
        let ghost mid = *self;
        let nmi = self.vblank_events(nmi_enabled);
        assert(self.cycle == mid.cycle && self.scanline == mid.scanline && self.frame == mid.frame);
        nmi
    }
}

impl Ppu {
    /// Dot 257 of a rendered scanline: the horizontal scroll bits come
    /// from t, then sprites are evaluated for the next scanline.
    fn sprite_dot(&mut self)
        requires
            old(self).wf(),
        ensures
            final(self).wf(),
            final(self).cycle == old(self).cycle && final(self).scanline == old(self).scanline,
            final(self).frame == old(self).frame,
            final(self).primary_oam == old(self).primary_oam,
            final(self).r.v_blank_started == old(self).r.v_blank_started,
            final(self).r.nmi_enabled == old(self).r.nmi_enabled,
            sprites_evaluated(
                Ppu {
                    r: Registers { v: (old(self).r.v & 0xFBE0) | (old(self).r.t & 0x041F), ..old(self).r },
                    ..*old(self)
                },
                *final(self),
            ),
    {
        let mut r = self.r;
        r.copy_scroll_x();
        self.r = r;
        self.evaluate_sprites();
    }

    /// One step of the background fetch cycle, by the dot's place in it.
    fn fetch_phase(&mut self, mapper: &Mapper)
        requires
            old(self).wf(),
            mapper.wf(),
        ensures
            final(self).wf(),
            final(self).cycle == old(self).cycle && final(self).scanline == old(self).scanline,
            final(self).frame == old(self).frame,
            final(self).primary_oam == old(self).primary_oam,
            final(self).r.v_blank_started == old(self).r.v_blank_started,
            final(self).r.nmi_enabled == old(self).r.nmi_enabled,
    {
        let phase = self.cycle % 8;
        if phase == 1 {
            self.fetch_nametable_byte(mapper);
        } else if phase == 3 {
            self.fetch_attribute_table_byte(mapper);
        } else if phase == 5 {
            self.fetch_tile_byte(mapper, false);
        } else if phase == 7 {
            self.fetch_tile_byte(mapper, true);
        } else if phase == 0 {
            self.load_tile();
            if self.cycle == 256 {
                self.r.increment_scroll_y();
            } else {
                self.r.increment_scroll_x();
            }
        }
    }
}

/// The PPU after a soft reset: PPUCTRL and PPUMASK cleared, OAM address
/// 0, and the dot counter at the pre-render scanline of frame 0; memory is
/// kept.
pub open spec fn ppu_after_reset(p: Ppu) -> Ppu {
    Ppu {
        r: Registers { oam_addr: 0, ..mask_written(ctrl_written(p.r, 0), 0) },
        cycle: 0,
        scanline: -1i16,
        frame: 0,
        image_index: 0,
        ..p
    }
}

/// Sprite `i` of primary OAM has a row on the scanline after the current.
pub open spec fn covers(p: Ppu, i: int) -> bool {
    let y = p.primary_oam@[i * 4] as int + 1;
    let next = p.scanline as int + 1;
    y <= next <= y + p.r.sprite_size.1 as int - 1
}

/// How many of sprites `0..n` cover the next scanline.
pub open spec fn covering_before(p: Ppu, n: int) -> int
    decreases n,
{
    if n <= 0 {
        0
    } else {
        covering_before(p, n - 1) + if covers(p, n - 1) { 1int } else { 0int }
    }
}

/// Secondary OAM slot `k` of `p` holds sprite `i` of primary OAM.
pub open spec fn slot_holds(p: Ppu, k: int, i: int) -> bool {
    &&& p.secondary_oam@[k * 4] == p.primary_oam@[i * 4]
    &&& p.secondary_oam@[k * 4 + 1] == p.primary_oam@[i * 4 + 1]
    &&& p.secondary_oam@[k * 4 + 2] == p.primary_oam@[i * 4 + 2]
    &&& p.secondary_oam@[k * 4 + 3] == p.primary_oam@[i * 4 + 3]
    &&& p.is_sprite_0@[k] == (i == 0)
}

/// `n` is `p` after sprite evaluation: the covering sprites fill the slots
/// in OAM order, up to eight; the other slots hold 0xFF; more than eight
/// set the overflow flag; nothing else changes.
#[verifier::opaque]
pub open spec fn sprites_evaluated(p: Ppu, n: Ppu) -> bool {
    let total = covering_before(p, 64);
    &&& n == (Ppu {
        secondary_oam: n.secondary_oam,
        is_sprite_0: n.is_sprite_0,
        r: Registers { sprite_overflow: p.r.sprite_overflow || total > 8, ..p.r },
        ..p
    })
    &&& forall|i: int|
        0 <= i < 64 && #[trigger] covers(p, i) && covering_before(p, i) < 8 ==> slot_holds(
            n,
            covering_before(p, i),
            i,
        )
    &&& forall|j: int| (if total < 8 { total } else { 8 }) * 4 <= j < 32 ==> #[trigger] n.secondary_oam@[j] == 0xFF
}

proof fn lemma_covering_mono(p: Ppu, a: int, b: int)
    requires
        0 <= a <= b,
    ensures
        covering_before(p, a) <= covering_before(p, b),
    decreases b - a,
{
    if a < b {
        lemma_covering_mono(p, a, b - 1);
        lemma_covering_step(p, b - 1);
    }
}

proof fn lemma_covering_step(p: Ppu, i: int)
    requires
        0 <= i,
    ensures
        covering_before(p, i + 1) == covering_before(p, i) + if covers(p, i) { 1int } else { 0int },
        covering_before(p, i) >= 0,
    decreases i,
{
    if i > 0 {
        lemma_covering_step(p, i - 1);
    }
}

impl Ppu {
    /// The rendering work of a dot other than 257: pixels, background
    /// fetches and scroll updates on rendered scanlines.
    fn render_dot(&mut self, mapper: &Mapper)
        requires
            old(self).wf(),
            mapper.wf(),
            old(self).cycle != 257,
        ensures
            final(self).wf(),
            final(self).cycle == old(self).cycle && final(self).scanline == old(self).scanline,
            final(self).frame == old(self).frame,
            final(self).primary_oam == old(self).primary_oam,
            final(self).r.v_blank_started == old(self).r.v_blank_started,
            final(self).r.nmi_enabled == old(self).r.nmi_enabled,
    {
        let visible_scanline = 0 <= self.scanline && self.scanline <= 239;
        if !(visible_scanline || self.scanline == -1) {
            return ;
        }
        let visible_cycle = 1 <= self.cycle && self.cycle <= 256;
        let prefetch_cycle = 321 <= self.cycle && self.cycle <= 336;
        if visible_scanline && visible_cycle {
            self.draw_pixel(mapper);
        }
        if self.scanline == -1 && 280 <= self.cycle && self.cycle <= 304 {
            self.r.copy_scroll_y();
        }
        if visible_cycle || prefetch_cycle {
            self.r = Registers { tile: self.r.tile << 4u64, ..self.r };
            self.fetch_phase(mapper);
        }
    }
}

impl Ppu {
    /// Moves the dot counter on by one.
    fn advance_dot(&mut self)
        requires
            old(self).wf(),
        ensures
            final(self).wf(),
            (final(self).cycle, final(self).scanline, final(self).frame) == next_dot(
                old(self).cycle,
                old(self).scanline,
                old(self).frame,
            ),
            *final(self) == (Ppu {
                cycle: final(self).cycle,
                scanline: final(self).scanline,
                frame: final(self).frame,
                image_index: final(self).image_index,
                ..*old(self)
            }),
            final(self).scanline == old(self).scanline ==> final(self).image_index == old(self).image_index,
    {
        if self.cycle + 1 < 341 {
            self.cycle = self.cycle + 1;
        } else if self.scanline + 1 < 261 {
            self.cycle = 0;
            self.scanline = self.scanline + 1;
        } else {
            self.cycle = 0;
            self.scanline = -1;
            self.frame = self.frame.wrapping_add(1);
            self.image_index = 0;
        }
    }

    /// VBlank starts at (241, 1), posting an NMI if `nmi_enabled`; at
    /// (-1, 1) VBlank, sprite-0 hit and overflow clear; other dots change
    /// nothing.
    fn vblank_events(&mut self, nmi_enabled: bool) -> (nmi: bool)
        requires
            old(self).wf(),
        ensures
            final(self).wf(),
            old(self).scanline == 241 && old(self).cycle == 1 ==> *final(self) == (Ppu {
                r: Registers { v_blank_started: true, ..old(self).r },
                ..*old(self)
            }) && nmi == nmi_enabled,
            old(self).scanline == -1 && old(self).cycle == 1 ==> *final(self) == (Ppu {
                r: Registers {
                    v_blank_started: false,
                    sprite_0_hit: false,
                    sprite_overflow: false,
                    ..old(self).r
                },
                ..*old(self)
            }) && !nmi,
            !(old(self).scanline == 241 && old(self).cycle == 1) && !(old(self).scanline == -1
                && old(self).cycle == 1) ==> *final(self) == *old(self) && !nmi,
    {
        if self.scanline == 241 && self.cycle == 1 {
            self.r = Registers { v_blank_started: true, ..self.r };
            return nmi_enabled;
        }
        if self.scanline == -1 && self.cycle == 1 {
            self.r = Registers {
                v_blank_started: false,
                sprite_0_hit: false,
                sprite_overflow: false,
                ..self.r
            };
        }
        false
    }
}

/// `q` is `p` after one dot, and `nmi` tells whether that dot posts an
/// NMI (see `Ppu::step`).
pub open spec fn ppu_stepped(p: Ppu, q: Ppu, nmi: bool) -> bool {
    &&& (q.cycle, q.scanline, q.frame) == next_dot(p.cycle, p.scanline, p.frame)
    &&& q.scanline == 241 && q.cycle == 1 ==> q.r.v_blank_started
    &&& q.scanline == -1 && q.cycle == 1 ==> !q.r.v_blank_started && !q.r.sprite_0_hit
        && !q.r.sprite_overflow
    &&& nmi == (q.scanline == 241 && q.cycle == 1 && p.r.nmi_enabled)
    &&& q.primary_oam == p.primary_oam
    &&& !(q.scanline == 241 && q.cycle == 1) && !(q.scanline == -1 && q.cycle == 1)
        ==> q.r.v_blank_started == p.r.v_blank_started
    &&& q.cycle == 257 && (0 <= q.scanline <= 239 || q.scanline == -1) ==> sprites_evaluated(
        Ppu { r: Registers { v: (p.r.v & 0xFBE0) | (p.r.t & 0x041F), ..p.r }, cycle: 257, ..p },
        q,
    )
}

} // verus!
