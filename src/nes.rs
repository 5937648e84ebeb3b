//! The console: CPU, PPU, APU and the cartridge board on one bus.
use vstd::prelude::*;
use crate::apu::Apu;
use crate::cartridge::{Cartridge, CartridgeError};
use crate::cpu::{Cpu, Interrupt, Registers, INTERRUPT_DISABLE_MASK};
use crate::mapper::{Mapper, UnsupportedMapper, from_cartridge};
use crate::ppu::Ppu;

verus! {

/// Where the stack byte at stack pointer `sp` lives.
pub open spec fn stack_address(sp: u8) -> u16 {
    (0x100 + sp as int) as u16
}

/// The vector that an interrupt of kind `i` jumps through.
pub open spec fn vector_of(i: Interrupt) -> u16 {
    match i {
        Interrupt::NMI => 0xFFFA,
        Interrupt::IRQ => 0xFFFE,
    }
}

/// The little-endian word at `addr` in cartridge space.
pub open spec fn mapper_word(m: Mapper, addr: u16) -> u16 {
    (m.read(addr) as int + 256 * m.read((addr + 1) as u16) as int) as u16
}

/// The PPU's dot counters are the same in `a` and `b`.
pub open spec fn dots_kept(a: Nes, b: Nes) -> bool {
    &&& b.ppu.cycle == a.ppu.cycle
    &&& b.ppu.scanline == a.ppu.scanline
    &&& b.ppu.frame == a.ppu.frame
}

/// `b` is `a` after entering an interrupt through `vector`: PC high, PC
/// low and P with B set pushed on page 1, S three lower, I set, PC from
/// the vector.
pub open spec fn interrupt_entered(a: Nes, b: Nes, vector: u16) -> bool {
    let sp = a.cpu.r.sp;
    &&& b.cpu.r.pc == mapper_word(a.board(), vector)
    &&& b.cpu.r.sp == sp.wrapping_sub(1).wrapping_sub(1).wrapping_sub(1)
    &&& b.cpu.r.p == a.cpu.r.p | INTERRUPT_DISABLE_MASK
    &&& b.cpu.r.a == a.cpu.r.a && b.cpu.r.x == a.cpu.r.x && b.cpu.r.y == a.cpu.r.y
    &&& b.cpu.ram@ == a.cpu.ram@.update(stack_address(sp) as int, (a.cpu.r.pc / 256) as u8).update(
        stack_address(sp.wrapping_sub(1)) as int,
        (a.cpu.r.pc % 256) as u8,
    ).update(stack_address(sp.wrapping_sub(1).wrapping_sub(1)) as int, a.cpu.r.p | 0x10)
    &&& b.mapper == a.mapper
}

/// `b` is `a` after one CPU step (see `Nes::step_cpu`).
pub open spec fn cpu_stepped(a: Nes, b: Nes) -> bool {
    &&& dots_kept(a, b)
    &&& a.cpu.stall_cycle > 0 ==> b == (Nes {
                    cpu: Cpu { stall_cycle: (a.cpu.stall_cycle - 1) as u64, ..a.cpu },
                    ..a
        })
    &&& a.cpu.stall_cycle == 0 && a.cpu.nmi_pending ==> b.cpu.r.pc
                    == mapper_word(a.board(), 0xFFFA) && !b.cpu.nmi_pending
                    && interrupt_entered(a, b, 0xFFFA)
    &&& a.cpu.stall_cycle == 0 && !a.cpu.nmi_pending && a.cpu.irq_pending
                    ==> interrupt_entered(a, b, 0xFFFE)
    &&& a.cpu.stall_cycle == 0 && !a.cpu.nmi_pending && a.cpu.irq_pending
                    ==> b.cpu.r.pc == mapper_word(a.board(), 0xFFFE)
                    && !b.cpu.irq_pending
    &&& a.cpu.stall_cycle == 0 && !a.cpu.nmi_pending && !a.cpu.irq_pending ==> instruction_done(a, b)
}

/// `b` is `a` after the instruction at PC ran: for PC in cartridge space,
/// stack operations, transfers, flag operations and immediate loads and
/// arithmetic come out as their specifications say.
pub open spec fn instruction_done(a: Nes, b: Nes) -> bool {
    let pc = a.cpu.r.pc;
    let opcode = a.board().read(pc);
    let ins = instr_table()[opcode as int];
    let r1 = Registers { pc: pc.wrapping_add(1), ..a.cpu.r };
    0x4020 <= pc < 0xFFFF ==> {
        &&& is_stack_op(ins) ==> stack_effect(Nes { cpu: Cpu { r: r1, ..a.cpu }, ..a }, b, ins)
        &&& is_register_op(ins) ==> b.cpu.r == register_op_spec(ins, r1)
        &&& is_flag_op(ins) ==> b.cpu.r == flag_op_spec(ins, r1)
        &&& is_read_op(ins) && mode_named(mode_table()[opcode as int]) == Mode::Immediate ==> b.cpu.r
            == read_op_spec(
            ins,
            Registers { pc: pc.wrapping_add(1).wrapping_add(1), ..a.cpu.r },
            a.board().read(pc.wrapping_add(1)),
        )
    }
}

/// `b` is `a` after one PPU dot and one clock of the board: the PPU as
/// `Ppu::step` gives it, the board as `Mapper::step` gives it, and the NMI
/// and board IRQ posted to the CPU.
pub open spec fn ppu_dot(a: Nes, b: Nes) -> bool {
    exists|nmi: bool, irq: bool|
        #![trigger crate::ppu::ppu_stepped(a.ppu, b.ppu, nmi), a.board().clocked(
            b.ppu.cycle,
            b.ppu.scanline,
            rendering(b.ppu),
            b.board(),
            irq,
        )]
        {
            &&& crate::ppu::ppu_stepped(a.ppu, b.ppu, nmi)
            &&& a.board().clocked(
                b.ppu.cycle,
                b.ppu.scanline,
                rendering(b.ppu),
                b.board(),
                irq,
            )
            &&& b.mapper is Some
            &&& b.cpu == (Cpu {
                nmi_pending: a.cpu.nmi_pending || nmi,
                irq_pending: a.cpu.irq_pending || (irq && a.cpu.r.p & INTERRUPT_DISABLE_MASK == 0),
                ..a.cpu
            })
            &&& b.apu == a.apu
            &&& b.samples == a.samples
        }
}

/// Whether the PPU draws the background or sprites.
pub open spec fn rendering(p: Ppu) -> bool {
    p.r.show_sprites || p.r.show_background
}

/// The channel levels of `a` at one moment.
pub open spec fn levels_of(a: crate::apu::Apu) -> crate::apu::ChannelLevels {
    crate::apu::ChannelLevels {
        pulse1: a.pulse1.level(),
        pulse2: a.pulse2.level(),
        triangle: a.triangle.level(),
        noise: a.noise.level(),
        dmc: a.dmc.volume,
    }
}

/// `b` is `a` after one APU cycle: the APU advanced, the frame IRQ posted,
/// a due DMC byte fetched from memory (4 stall cycles; the end of a
/// sample may post the DMC IRQ) and a due sample's levels recorded.
pub open spec fn apu_cycle(a: Nes, b: Nes) -> bool {
    let s = crate::apu::apu_stepped(a.apu);
    let frame_irq = a.apu.frame_counter_val == 0 && a.apu.frame_counter_mode
        == crate::apu::FrameCounterMode::FourStep && a.apu.frame_counter_phase == 3
        && a.apu.irq_enabled;
    let masked = a.cpu.r.p & INTERRUPT_DISABLE_MASK != 0;
    let irq1 = a.cpu.irq_pending || (frame_irq && !masked);
    let addr = s.dmc.curr_addr;
    let plain = addr < 0x2000 || addr >= 0x4020;
    let v: u8 = if addr < 0x2000 { a.cpu.ram@[addr as int % 0x800] } else { a.board().read(addr) };
    let due = crate::apu::samples_by(s.cycle + 1) != crate::apu::samples_by(s.cycle as int);
    &&& b.samples@ == (if due { a.samples@.push(levels_of(b.apu)) } else { a.samples@ })
    &&& !crate::apu::dmc_fetch_due(s) ==> {
        &&& b.apu == s
        &&& b.cpu == (Cpu { irq_pending: irq1, ..a.cpu })
        &&& b.ppu == a.ppu && b.mapper == a.mapper
    }
    &&& crate::apu::dmc_fetch_due(s) && plain ==> {
        let dmc_irq = s.dmc.curr_len == 1 && !s.dmc.looped && s.dmc.irq_enabled;
        &&& b.apu == (crate::apu::Apu { dmc: crate::apu::dmc_fetched(s.dmc, v), ..s })
        &&& b.cpu == (Cpu {
            irq_pending: irq1 || (dmc_irq && !masked),
            stall_cycle: a.cpu.stall_cycle.wrapping_add(4),
            ..a.cpu
        })
        &&& b.ppu == a.ppu && b.mapper == a.mapper
    }
}

/// `b` is `a` after one console step: a CPU step, three PPU dots with the
/// board's clock, and one APU cycle, in that order.
pub open spec fn console_stepped(a: Nes, b: Nes) -> bool {
    exists|s1: Nes, s2: Nes, s3: Nes, s4: Nes|
        #![trigger cpu_stepped(a, s1), ppu_dot(s1, s2), ppu_dot(s2, s3), ppu_dot(s3, s4)]
        {
            &&& cpu_stepped(a, s1)
            &&& ppu_dot(s1, s2)
            &&& ppu_dot(s2, s3)
            &&& ppu_dot(s3, s4)
            &&& apu_cycle(s4, b)
        }
}

/// `t` runs from `a` (with its samples cleared) to `b` by console steps,
/// every state but the last in `a`'s frame, and `b` in the next.
pub open spec fn is_frame_trace(t: Seq<Nes>, a: Nes, b: Nes) -> bool {
    &&& t.len() >= 2
    &&& t[0] == (Nes { samples: t[0].samples, ..a })
    &&& t[0].samples@.len() == 0
    &&& t.last() == b
    &&& forall|k: int| 0 <= k < t.len() - 1 ==> #[trigger] console_stepped(t[k], t[k + 1])
    &&& forall|k: int| 0 <= k < t.len() - 1 ==> #[trigger] t[k].ppu.frame == a.ppu.frame
    &&& b.ppu.frame != a.ppu.frame
}

/// `b` is where `a` stands after its frame is run: the samples are
/// cleared, then console steps repeat until the frame counter changes.
pub open spec fn frame_run(a: Nes, b: Nes) -> bool {
    exists|t: Seq<Nes>| is_frame_trace(t, a, b)
}

/// Why a ROM could not be loaded.
#[derive(PartialEq, Eq, Structural, Clone, Copy, Debug)]
pub enum LoadError {
    Cartridge(CartridgeError),
    Mapper(UnsupportedMapper),
}

/// A NES: the CPU with its RAM and controllers, the PPU, the APU, and the
/// cartridge board once a ROM is loaded.
pub struct Nes {
    pub cpu: Cpu,
    pub ppu: Ppu,
    pub apu: Apu,
    pub mapper: Option<Mapper>,
    /// The channel levels of each output sample of the last frame.
    pub samples: Vec<crate::apu::ChannelLevels>,
}

impl Nes {
    /// An idle console with no ROM.
    pub fn new() -> (r: Nes)
        ensures
            r.mapper is None,
            r.cpu.wf() && r.ppu.wf() && r.apu.wf(),
            r.cpu.r == Registers::new_spec(),
            r.cpu.cycle == 0 && r.cpu.stall_cycle == 0,
            !r.cpu.nmi_pending && !r.cpu.irq_pending,
            r.samples@.len() == 0,
            r.ppu.cycle == 0 && r.ppu.scanline == 0 && r.ppu.frame == 0,
            r.ppu.palette_ram@ == crate::ppu::initial_palette(),
            !r.apu.irq_pending && r.apu.cycle == 0,
    {
        Nes { cpu: Cpu::new(), ppu: Ppu::new(), apu: Apu::new(), mapper: None, samples: Vec::new() }
    }

    /// Every component is well formed and a ROM is loaded.
    pub open spec fn wf(&self) -> bool {
        &&& self.cpu.wf()
        &&& self.ppu.wf()
        &&& self.apu.wf()
        &&& self.mapper is Some
        &&& self.mapper->0.wf()
    }

    pub open spec fn board(&self) -> Mapper {
        self.mapper->0
    }

    /// The CPU's read port. RAM repeats every 0x800 bytes below 0x2000; the
    /// PPU registers repeat every 8 bytes up to 0x3FFF; 0x4016 and 0x4017
    /// shift the controllers; 0x4015 is the APU status; the cartridge
    /// answers from 0x4020 on; the rest reads as 0.
    pub fn read_byte(&mut self, addr: u16) -> (r: u8)
        requires
            old(self).wf(),
        ensures
            final(self).wf(),
            final(self).mapper == old(self).mapper,
            final(self).cpu.r == old(self).cpu.r,
            final(self).cpu.ram == old(self).cpu.ram,
            final(self).cpu.cycle == old(self).cpu.cycle,
            final(self).cpu.stall_cycle == old(self).cpu.stall_cycle,
            final(self).cpu.nmi_pending == old(self).cpu.nmi_pending,
            final(self).cpu.irq_pending == old(self).cpu.irq_pending,
            dots_kept(*old(self), *final(self)),
            final(self).ppu.r.oam_addr == old(self).ppu.r.oam_addr,
            final(self).samples == old(self).samples,
            addr < 0x2000 ==> r == old(self).cpu.ram@[addr as int % 0x800] && *final(self) == *old(self),
            addr >= 0x4020 ==> r == old(self).board().read(addr) && *final(self) == *old(self),
            addr == 0x4016 ==> r == crate::controller::shifted_bit(
                old(self).cpu.controller1.value,
                old(self).cpu.controller1.index,
            ),
            addr == 0x4017 ==> r == crate::controller::shifted_bit(
                old(self).cpu.controller2.value,
                old(self).cpu.controller2.index,
            ),
            (0x4000 <= addr <= 0x4014 || 0x4018 <= addr < 0x4020) ==> r == 0 && *final(self)
                == *old(self),
            ({
                let reg = crate::ppu::register_of(addr);
                &&& 0x2000 <= addr < 0x4000 && reg == 0x2002 ==> r == crate::ppu::status_of(
                    old(self).ppu.r,
                ) && final(self).ppu.r == (crate::ppu::Registers {
                    v_blank_started: false,
                    w: 0,
                    ..old(self).ppu.r
                })
                &&& 0x2000 <= addr < 0x4000 && reg == 0x2004 ==> r == old(self).ppu.primary_oam@[old(
                    self,
                ).ppu.r.oam_addr as int] && final(self).ppu.r == old(self).ppu.r
                &&& 0x2000 <= addr < 0x4000 && reg != 0x2002 && reg != 0x2004 && reg != 0x2007 ==> r
                    == old(self).ppu.r.last_written_byte && final(self).ppu.r == old(self).ppu.r
            }),
            addr == 0x4015 ==> r == crate::apu::status_byte(old(self).apu) && final(self).apu == (Apu {
                irq_pending: false,
                ..old(self).apu
            }),
    {
        if addr < 0x2000 {
            self.cpu.ram[(addr % 0x800) as usize]
        } else if addr < 0x4000 {
            let reg = 0x2000 + (addr - 0x2000) % 8;
            match &self.mapper {
                Some(m) => self.ppu.read_register(m, reg),
                None => 0,
            }
        } else if addr == 0x4016 {
            self.cpu.controller1.read_value()
        } else if addr == 0x4017 {
            self.cpu.controller2.read_value()
        } else if addr <= 0x4015 {
            self.apu.read_register(addr)
        } else if addr < 0x4020 {
            0
        } else {
            match &self.mapper {
                Some(m) => m.read_byte(addr),
                None => 0,
            }
        }
    }

    /// The CPU's write port. RAM, PPU registers (turning NMI on during
    /// VBlank posts an NMI), OAM DMA at 0x4014, the controller strobe at
    /// 0x4016, the APU registers, and the cartridge from 0x4020 on.
    pub fn write_byte(&mut self, addr: u16, val: u8)
        requires
            old(self).wf(),
        ensures
            final(self).wf(),
            final(self).cpu.r == old(self).cpu.r,
            dots_kept(*old(self), *final(self)),
            addr < 0x2000 ==> final(self).cpu.ram@ == old(self).cpu.ram@.update(addr as int % 0x800, val)
                && final(self).cpu.nmi_pending == old(self).cpu.nmi_pending
                && final(self).cpu.irq_pending == old(self).cpu.irq_pending
                && final(self).cpu.cycle == old(self).cpu.cycle
                && final(self).cpu.stall_cycle == old(self).cpu.stall_cycle
                && final(self).mapper == old(self).mapper && final(self).ppu == old(self).ppu
                && final(self).apu == old(self).apu,
            addr >= 0x4020 ==> old(self).board().written(final(self).board(), addr, val)
                && final(self).cpu.ram == old(self).cpu.ram,
            addr == 0x4016 ==> final(self).cpu.controller1.strobe == (val & 0x01 != 0)
                && final(self).cpu.controller2.strobe == (val & 0x01 != 0),
            (0x4000 <= addr <= 0x4013 || addr == 0x4015 || addr == 0x4017) ==> final(self).apu
                == crate::apu::apu_written(old(self).apu, addr, val),
            ({
                let reg = crate::ppu::register_of(addr);
                0x2000 <= addr < 0x4000 && reg != 0x2004 && reg != 0x2007 ==> final(self).ppu.r
                    == crate::ppu::register_written(old(self).ppu.r, reg, val)
                    && final(self).cpu.nmi_pending == (old(self).cpu.nmi_pending || (
                    !old(self).ppu.r.nmi_enabled && final(self).ppu.r.nmi_enabled
                        && final(self).ppu.r.v_blank_started))
            }),
            addr == 0x4014 ==> final(self).ppu.r.oam_addr == old(self).ppu.r.oam_addr,
            addr == 0x4014 && val >= 0x41 ==> forall|k: int|
                0 <= k < 256 ==> #[trigger] final(self).ppu.primary_oam@[(old(self).ppu.r.oam_addr + k)
                    % 256] == old(self).board().read((val as int * 256 + k) as u16),
            addr == 0x4014 && val < 0x20 ==> forall|k: int|
                0 <= k < 256 ==> #[trigger] final(self).ppu.primary_oam@[(old(self).ppu.r.oam_addr + k)
                    % 256] == old(self).cpu.ram@[(val as int * 256 + k) % 0x800],
    {
        if addr < 0x2000 {
            self.cpu.ram[(addr % 0x800) as usize] = val;
        } else if addr < 0x4000 {
            let reg = 0x2000 + (addr - 0x2000) % 8;
            let old_nmi = self.ppu.r.nmi_enabled;
            match &mut self.mapper {
                Some(m) => self.ppu.write_register(m, reg, val),
                None => {},
            }
            if !old_nmi && self.ppu.r.nmi_enabled && self.ppu.r.v_blank_started {
                self.cpu.trigger_interrupt(Interrupt::NMI);
            }
        } else if addr == 0x4014 {
            self.oam_dma(val);
        } else if addr == 0x4016 {
            self.cpu.controller1.write_strobe(val & 0x01 != 0);
            self.cpu.controller2.write_strobe(val & 0x01 != 0);
        } else if addr <= 0x4017 {
            self.apu.write_register(addr, val);
        } else if addr >= 0x4020 {
            match &mut self.mapper {
                Some(m) => m.write_byte(addr, val),
                None => {},
            }
        }
    }

    /// OAM DMA from CPU page `page`: 256 bytes read through the CPU port go
    /// to OAM from the current OAM address on; the CPU stalls 513 cycles,
    /// one more on an odd cycle.
    pub fn oam_dma(&mut self, page: u8)
        requires
            old(self).wf(),
        ensures
            final(self).wf(),
            final(self).cpu.r == old(self).cpu.r,
            dots_kept(*old(self), *final(self)),
            final(self).cpu.stall_cycle as int == (old(self).cpu.stall_cycle + (if old(self).cpu.cycle % 2
                == 1 {
                514int
            } else {
                513int
            })) % 0x1_0000_0000_0000_0000,
            page < 0x20 ==> forall|k: int|
                0 <= k < 256 ==> #[trigger] final(self).ppu.primary_oam@[(old(self).ppu.r.oam_addr + k)
                    % 256] == old(self).cpu.ram@[(page as int * 256 + k) % 0x800],
            final(self).ppu.r.oam_addr == old(self).ppu.r.oam_addr,
            page >= 0x41 ==> forall|k: int|
                0 <= k < 256 ==> #[trigger] final(self).ppu.primary_oam@[(old(self).ppu.r.oam_addr + k)
                    % 256] == old(self).board().read((page as int * 256 + k) as u16),
    {
        let mut buf: [u8; 256] = [0; 256];
        let mut k: usize = 0;
        let base: u16 = page as u16 * 256;
        let ghost start = *self;
        while k < 256
            invariant
                self.wf(),
                k <= 256,
                base == page as u16 * 256,
                self.cpu.r == start.cpu.r,
                self.cpu.ram == start.cpu.ram,
                self.cpu.cycle == start.cpu.cycle,
                self.cpu.stall_cycle == start.cpu.stall_cycle,
                self.ppu.cycle == start.ppu.cycle,
                self.ppu.scanline == start.ppu.scanline,
                self.ppu.frame == start.ppu.frame,
                page < 0x20 ==> self.ppu == start.ppu,
                page >= 0x41 ==> *self == start,
                self.ppu.r.oam_addr == start.ppu.r.oam_addr,
                page >= 0x41 ==> forall|j: int| 0 <= j < k ==> #[trigger] buf@[j] == start.board().read((page as int * 256 + j) as u16),
                page < 0x20 ==> forall|j: int| 0 <= j < k ==> #[trigger] buf@[j] == start.cpu.ram@[(page as int * 256 + j) % 0x800],
            decreases 256 - k,
        {
            let v = self.read_byte(base + k as u16);
            buf[k] = v;
            k = k + 1;
        }
        self.ppu.oam_dma(&buf);
        let extra: u64 = if self.cpu.cycle % 2 == 1 {
            514
        } else {
            513
        };
        self.cpu.stall_cycle = self.cpu.stall_cycle.wrapping_add(extra);
    }
}


/// The instructions, official and unofficial.
#[derive(PartialEq, Eq, Structural, Clone, Copy, Debug)]
pub enum Instr {
    Aax,
    Adc,
    Anc,
    And,
    Arr,
    Asl,
    Asr,
    Axa,
    Axs,
    Bcc,
    Bcs,
    Beq,
    Bit,
    Bmi,
    Bne,
    Bpl,
    Brk,
    Bvc,
    Bvs,
    Clc,
    Cld,
    Cli,
    Clv,
    Cmp,
    Cpx,
    Cpy,
    Dcp,
    Dec,
    Dex,
    Dey,
    Dop,
    Eor,
    Inc,
    Inv,
    Inx,
    Iny,
    Isc,
    Jmp,
    Jsr,
    Las,
    Lax,
    Lda,
    Ldx,
    Ldy,
    Lsr,
    Nop,
    Ora,
    Pha,
    Php,
    Pla,
    Plp,
    Rla,
    Rol,
    Ror,
    Rra,
    Rti,
    Rts,
    Sbc,
    Sec,
    Sed,
    Sei,
    Shx,
    Shy,
    Slo,
    Sre,
    Sta,
    Stx,
    Sty,
    Tas,
    Tax,
    Tay,
    Top,
    Tsx,
    Txa,
    Txs,
    Tya,
    Xaa,
}

/// The addressing modes.
#[derive(PartialEq, Eq, Structural, Clone, Copy, Debug)]
pub enum Mode {
    Absolute,
    AbsoluteX,
    AbsoluteY,
    Accumulator,
    Immediate,
    Implied,
    Indirect,
    IndirectX,
    IndirectY,
    Relative,
    ZeroPage,
    ZeroPageX,
    ZeroPageY,
}

/// The instruction of each opcode.
pub open spec fn instr_table() -> Seq<Instr> {
    seq![
        Instr::Brk, Instr::Ora, Instr::Inv, Instr::Slo, Instr::Dop, Instr::Ora, Instr::Asl, Instr::Slo,
        Instr::Php, Instr::Ora, Instr::Asl, Instr::Anc, Instr::Top, Instr::Ora, Instr::Asl, Instr::Slo,
        Instr::Bpl, Instr::Ora, Instr::Inv, Instr::Slo, Instr::Dop, Instr::Ora, Instr::Asl, Instr::Slo,
        Instr::Clc, Instr::Ora, Instr::Nop, Instr::Slo, Instr::Top, Instr::Ora, Instr::Asl, Instr::Slo,
        Instr::Jsr, Instr::And, Instr::Inv, Instr::Rla, Instr::Bit, Instr::And, Instr::Rol, Instr::Rla,
        Instr::Plp, Instr::And, Instr::Rol, Instr::Anc, Instr::Bit, Instr::And, Instr::Rol, Instr::Rla,
        Instr::Bmi, Instr::And, Instr::Inv, Instr::Rla, Instr::Dop, Instr::And, Instr::Rol, Instr::Rla,
        Instr::Sec, Instr::And, Instr::Nop, Instr::Rla, Instr::Top, Instr::And, Instr::Rol, Instr::Rla,
        Instr::Rti, Instr::Eor, Instr::Inv, Instr::Sre, Instr::Dop, Instr::Eor, Instr::Lsr, Instr::Sre,
        Instr::Pha, Instr::Eor, Instr::Lsr, Instr::Asr, Instr::Jmp, Instr::Eor, Instr::Lsr, Instr::Sre,
        Instr::Bvc, Instr::Eor, Instr::Inv, Instr::Sre, Instr::Dop, Instr::Eor, Instr::Lsr, Instr::Sre,
        Instr::Cli, Instr::Eor, Instr::Nop, Instr::Sre, Instr::Top, Instr::Eor, Instr::Lsr, Instr::Sre,
        Instr::Rts, Instr::Adc, Instr::Inv, Instr::Rra, Instr::Dop, Instr::Adc, Instr::Ror, Instr::Rra,
        Instr::Pla, Instr::Adc, Instr::Ror, Instr::Arr, Instr::Jmp, Instr::Adc, Instr::Ror, Instr::Rra,
        Instr::Bvs, Instr::Adc, Instr::Inv, Instr::Rra, Instr::Dop, Instr::Adc, Instr::Ror, Instr::Rra,
        Instr::Sei, Instr::Adc, Instr::Nop, Instr::Rra, Instr::Top, Instr::Adc, Instr::Ror, Instr::Rra,
        Instr::Dop, Instr::Sta, Instr::Dop, Instr::Aax, Instr::Sty, Instr::Sta, Instr::Stx, Instr::Aax,
        Instr::Dey, Instr::Dop, Instr::Txa, Instr::Xaa, Instr::Sty, Instr::Sta, Instr::Stx, Instr::Aax,
        Instr::Bcc, Instr::Sta, Instr::Inv, Instr::Axa, Instr::Sty, Instr::Sta, Instr::Stx, Instr::Aax,
        Instr::Tya, Instr::Sta, Instr::Txs, Instr::Tas, Instr::Shy, Instr::Sta, Instr::Shx, Instr::Axa,
        Instr::Ldy, Instr::Lda, Instr::Ldx, Instr::Lax, Instr::Ldy, Instr::Lda, Instr::Ldx, Instr::Lax,
        Instr::Tay, Instr::Lda, Instr::Tax, Instr::Lax, Instr::Ldy, Instr::Lda, Instr::Ldx, Instr::Lax,
        Instr::Bcs, Instr::Lda, Instr::Inv, Instr::Lax, Instr::Ldy, Instr::Lda, Instr::Ldx, Instr::Lax,
        Instr::Clv, Instr::Lda, Instr::Tsx, Instr::Las, Instr::Ldy, Instr::Lda, Instr::Ldx, Instr::Lax,
        Instr::Cpy, Instr::Cmp, Instr::Dop, Instr::Dcp, Instr::Cpy, Instr::Cmp, Instr::Dec, Instr::Dcp,
        Instr::Iny, Instr::Cmp, Instr::Dex, Instr::Axs, Instr::Cpy, Instr::Cmp, Instr::Dec, Instr::Dcp,
        Instr::Bne, Instr::Cmp, Instr::Inv, Instr::Dcp, Instr::Dop, Instr::Cmp, Instr::Dec, Instr::Dcp,
        Instr::Cld, Instr::Cmp, Instr::Nop, Instr::Dcp, Instr::Top, Instr::Cmp, Instr::Dec, Instr::Dcp,
        Instr::Cpx, Instr::Sbc, Instr::Dop, Instr::Isc, Instr::Cpx, Instr::Sbc, Instr::Inc, Instr::Isc,
        Instr::Inx, Instr::Sbc, Instr::Nop, Instr::Sbc, Instr::Cpx, Instr::Sbc, Instr::Inc, Instr::Isc,
        Instr::Beq, Instr::Sbc, Instr::Inv, Instr::Isc, Instr::Dop, Instr::Sbc, Instr::Inc, Instr::Isc,
        Instr::Sed, Instr::Sbc, Instr::Nop, Instr::Isc, Instr::Top, Instr::Sbc, Instr::Inc, Instr::Isc,
    ]
}

/// The addressing mode number of each opcode: 1 absolute, 2 absolute X,
/// 3 absolute Y, 4 accumulator, 5 immediate, 6 implied, 7 indirect,
/// 8 indirect X, 9 indirect Y, 10 relative, 11 zero page, 12 zero page X,
/// 13 zero page Y.
pub open spec fn mode_table() -> Seq<u8> {
    seq![
        6u8, 8, 0, 8, 11, 11, 11, 11, 6, 5, 4, 5, 1, 1, 1, 1,
        10, 9, 0, 9, 12, 12, 12, 12, 6, 3, 6, 3, 2, 2, 2, 2,
        1, 8, 0, 8, 11, 11, 11, 11, 6, 5, 4, 5, 1, 1, 1, 1,
        10, 9, 0, 9, 12, 12, 12, 12, 6, 3, 6, 3, 2, 2, 2, 2,
        6, 8, 0, 8, 11, 11, 11, 11, 6, 5, 4, 5, 1, 1, 1, 1,
        10, 9, 0, 9, 12, 12, 12, 12, 6, 3, 6, 3, 2, 2, 2, 2,
        6, 8, 0, 8, 11, 11, 11, 11, 6, 5, 4, 5, 7, 1, 1, 1,
        10, 9, 0, 9, 12, 12, 12, 12, 6, 3, 6, 3, 2, 2, 2, 2,
        5, 8, 5, 8, 11, 11, 11, 11, 6, 5, 6, 5, 1, 1, 1, 1,
        10, 9, 0, 9, 12, 12, 13, 13, 6, 3, 6, 3, 2, 2, 3, 3,
        5, 8, 5, 8, 11, 11, 11, 11, 6, 5, 6, 5, 1, 1, 1, 1,
        10, 9, 0, 9, 12, 12, 13, 13, 6, 3, 6, 3, 2, 2, 3, 3,
        5, 8, 5, 8, 11, 11, 11, 11, 6, 5, 6, 5, 1, 1, 1, 1,
        10, 9, 0, 9, 12, 12, 12, 12, 6, 3, 6, 3, 2, 2, 2, 2,
        5, 8, 5, 8, 11, 11, 11, 11, 6, 5, 6, 5, 1, 1, 1, 1,
        10, 9, 0, 9, 12, 12, 12, 12, 6, 3, 6, 3, 2, 2, 2, 2,
    ]
}

/// The base cycle count of each opcode.
pub open spec fn cycle_table() -> Seq<u8> {
    seq![
        7u8, 6, 2, 8, 3, 3, 5, 5, 3, 2, 2, 2, 4, 4, 6, 6,
        2, 5, 2, 8, 4, 4, 6, 6, 2, 4, 2, 7, 4, 4, 7, 7,
        6, 6, 2, 8, 3, 3, 5, 5, 4, 2, 2, 2, 4, 4, 6, 6,
        2, 5, 2, 8, 4, 4, 6, 6, 2, 4, 2, 7, 4, 4, 7, 7,
        6, 6, 2, 8, 3, 3, 5, 5, 3, 2, 2, 2, 3, 4, 6, 6,
        2, 5, 2, 8, 4, 4, 6, 6, 2, 4, 2, 7, 4, 4, 7, 7,
        6, 6, 2, 8, 3, 3, 5, 5, 4, 2, 2, 2, 5, 4, 6, 6,
        2, 5, 2, 8, 4, 4, 6, 6, 2, 4, 2, 7, 4, 4, 7, 7,
        2, 6, 2, 6, 3, 3, 3, 3, 2, 2, 2, 2, 4, 4, 4, 4,
        2, 6, 2, 6, 4, 4, 4, 4, 2, 5, 2, 5, 5, 5, 5, 5,
        2, 6, 2, 6, 3, 3, 3, 3, 2, 2, 2, 2, 4, 4, 4, 4,
        2, 5, 2, 5, 4, 4, 4, 4, 2, 4, 2, 4, 4, 4, 4, 4,
        2, 6, 2, 8, 3, 3, 5, 5, 2, 2, 2, 2, 4, 4, 6, 6,
        2, 5, 2, 8, 4, 4, 6, 6, 2, 4, 2, 7, 4, 4, 7, 7,
        2, 6, 2, 8, 3, 3, 5, 5, 2, 2, 2, 2, 4, 4, 6, 6,
        2, 5, 2, 8, 4, 4, 6, 6, 2, 4, 2, 7, 4, 4, 7, 7,
    ]
}

/// The mode that a mode number names.
pub open spec fn mode_named(n: u8) -> Mode {
    if n == 1 {
        Mode::Absolute
    } else if n == 2 {
        Mode::AbsoluteX
    } else if n == 3 {
        Mode::AbsoluteY
    } else if n == 4 {
        Mode::Accumulator
    } else if n == 5 {
        Mode::Immediate
    } else if n == 7 {
        Mode::Indirect
    } else if n == 8 {
        Mode::IndirectX
    } else if n == 9 {
        Mode::IndirectY
    } else if n == 10 {
        Mode::Relative
    } else if n == 11 {
        Mode::ZeroPage
    } else if n == 12 {
        Mode::ZeroPageX
    } else if n == 13 {
        Mode::ZeroPageY
    } else {
        Mode::Implied
    }
}

/// The instruction of an opcode.
pub fn instr_of(opcode: u8) -> (r: Instr)
    ensures
        r == instr_table()[opcode as int],
{
    let t: [Instr; 256] = [
        Instr::Brk, Instr::Ora, Instr::Inv, Instr::Slo, Instr::Dop, Instr::Ora, Instr::Asl, Instr::Slo,
        Instr::Php, Instr::Ora, Instr::Asl, Instr::Anc, Instr::Top, Instr::Ora, Instr::Asl, Instr::Slo,
        Instr::Bpl, Instr::Ora, Instr::Inv, Instr::Slo, Instr::Dop, Instr::Ora, Instr::Asl, Instr::Slo,
        Instr::Clc, Instr::Ora, Instr::Nop, Instr::Slo, Instr::Top, Instr::Ora, Instr::Asl, Instr::Slo,
        Instr::Jsr, Instr::And, Instr::Inv, Instr::Rla, Instr::Bit, Instr::And, Instr::Rol, Instr::Rla,
        Instr::Plp, Instr::And, Instr::Rol, Instr::Anc, Instr::Bit, Instr::And, Instr::Rol, Instr::Rla,
        Instr::Bmi, Instr::And, Instr::Inv, Instr::Rla, Instr::Dop, Instr::And, Instr::Rol, Instr::Rla,
        Instr::Sec, Instr::And, Instr::Nop, Instr::Rla, Instr::Top, Instr::And, Instr::Rol, Instr::Rla,
        Instr::Rti, Instr::Eor, Instr::Inv, Instr::Sre, Instr::Dop, Instr::Eor, Instr::Lsr, Instr::Sre,
        Instr::Pha, Instr::Eor, Instr::Lsr, Instr::Asr, Instr::Jmp, Instr::Eor, Instr::Lsr, Instr::Sre,
        Instr::Bvc, Instr::Eor, Instr::Inv, Instr::Sre, Instr::Dop, Instr::Eor, Instr::Lsr, Instr::Sre,
        Instr::Cli, Instr::Eor, Instr::Nop, Instr::Sre, Instr::Top, Instr::Eor, Instr::Lsr, Instr::Sre,
        Instr::Rts, Instr::Adc, Instr::Inv, Instr::Rra, Instr::Dop, Instr::Adc, Instr::Ror, Instr::Rra,
        Instr::Pla, Instr::Adc, Instr::Ror, Instr::Arr, Instr::Jmp, Instr::Adc, Instr::Ror, Instr::Rra,
        Instr::Bvs, Instr::Adc, Instr::Inv, Instr::Rra, Instr::Dop, Instr::Adc, Instr::Ror, Instr::Rra,
        Instr::Sei, Instr::Adc, Instr::Nop, Instr::Rra, Instr::Top, Instr::Adc, Instr::Ror, Instr::Rra,
        Instr::Dop, Instr::Sta, Instr::Dop, Instr::Aax, Instr::Sty, Instr::Sta, Instr::Stx, Instr::Aax,
        Instr::Dey, Instr::Dop, Instr::Txa, Instr::Xaa, Instr::Sty, Instr::Sta, Instr::Stx, Instr::Aax,
        Instr::Bcc, Instr::Sta, Instr::Inv, Instr::Axa, Instr::Sty, Instr::Sta, Instr::Stx, Instr::Aax,
        Instr::Tya, Instr::Sta, Instr::Txs, Instr::Tas, Instr::Shy, Instr::Sta, Instr::Shx, Instr::Axa,
        Instr::Ldy, Instr::Lda, Instr::Ldx, Instr::Lax, Instr::Ldy, Instr::Lda, Instr::Ldx, Instr::Lax,
        Instr::Tay, Instr::Lda, Instr::Tax, Instr::Lax, Instr::Ldy, Instr::Lda, Instr::Ldx, Instr::Lax,
        Instr::Bcs, Instr::Lda, Instr::Inv, Instr::Lax, Instr::Ldy, Instr::Lda, Instr::Ldx, Instr::Lax,
        Instr::Clv, Instr::Lda, Instr::Tsx, Instr::Las, Instr::Ldy, Instr::Lda, Instr::Ldx, Instr::Lax,
        Instr::Cpy, Instr::Cmp, Instr::Dop, Instr::Dcp, Instr::Cpy, Instr::Cmp, Instr::Dec, Instr::Dcp,
        Instr::Iny, Instr::Cmp, Instr::Dex, Instr::Axs, Instr::Cpy, Instr::Cmp, Instr::Dec, Instr::Dcp,
        Instr::Bne, Instr::Cmp, Instr::Inv, Instr::Dcp, Instr::Dop, Instr::Cmp, Instr::Dec, Instr::Dcp,
        Instr::Cld, Instr::Cmp, Instr::Nop, Instr::Dcp, Instr::Top, Instr::Cmp, Instr::Dec, Instr::Dcp,
        Instr::Cpx, Instr::Sbc, Instr::Dop, Instr::Isc, Instr::Cpx, Instr::Sbc, Instr::Inc, Instr::Isc,
        Instr::Inx, Instr::Sbc, Instr::Nop, Instr::Sbc, Instr::Cpx, Instr::Sbc, Instr::Inc, Instr::Isc,
        Instr::Beq, Instr::Sbc, Instr::Inv, Instr::Isc, Instr::Dop, Instr::Sbc, Instr::Inc, Instr::Isc,
        Instr::Sed, Instr::Sbc, Instr::Nop, Instr::Isc, Instr::Top, Instr::Sbc, Instr::Inc, Instr::Isc,
    ];
    proof {
        assert(t@ =~= instr_table());
    }
    t[opcode as usize]
}

/// The addressing mode of an opcode.
pub fn mode_of(opcode: u8) -> (r: Mode)
    ensures
        r == mode_named(mode_table()[opcode as int]),
{
    let t: [u8; 256] = [
        6, 8, 0, 8, 11, 11, 11, 11, 6, 5, 4, 5, 1, 1, 1, 1,
        10, 9, 0, 9, 12, 12, 12, 12, 6, 3, 6, 3, 2, 2, 2, 2,
        1, 8, 0, 8, 11, 11, 11, 11, 6, 5, 4, 5, 1, 1, 1, 1,
        10, 9, 0, 9, 12, 12, 12, 12, 6, 3, 6, 3, 2, 2, 2, 2,
        6, 8, 0, 8, 11, 11, 11, 11, 6, 5, 4, 5, 1, 1, 1, 1,
        10, 9, 0, 9, 12, 12, 12, 12, 6, 3, 6, 3, 2, 2, 2, 2,
        6, 8, 0, 8, 11, 11, 11, 11, 6, 5, 4, 5, 7, 1, 1, 1,
        10, 9, 0, 9, 12, 12, 12, 12, 6, 3, 6, 3, 2, 2, 2, 2,
        5, 8, 5, 8, 11, 11, 11, 11, 6, 5, 6, 5, 1, 1, 1, 1,
        10, 9, 0, 9, 12, 12, 13, 13, 6, 3, 6, 3, 2, 2, 3, 3,
        5, 8, 5, 8, 11, 11, 11, 11, 6, 5, 6, 5, 1, 1, 1, 1,
        10, 9, 0, 9, 12, 12, 13, 13, 6, 3, 6, 3, 2, 2, 3, 3,
        5, 8, 5, 8, 11, 11, 11, 11, 6, 5, 6, 5, 1, 1, 1, 1,
        10, 9, 0, 9, 12, 12, 12, 12, 6, 3, 6, 3, 2, 2, 2, 2,
        5, 8, 5, 8, 11, 11, 11, 11, 6, 5, 6, 5, 1, 1, 1, 1,
        10, 9, 0, 9, 12, 12, 12, 12, 6, 3, 6, 3, 2, 2, 2, 2,
    ];
    proof {
        assert(t@ =~= mode_table());
    }
    let n = t[opcode as usize];
    if n == 1 {
        Mode::Absolute
    } else if n == 2 {
        Mode::AbsoluteX
    } else if n == 3 {
        Mode::AbsoluteY
    } else if n == 4 {
        Mode::Accumulator
    } else if n == 5 {
        Mode::Immediate
    } else if n == 7 {
        Mode::Indirect
    } else if n == 8 {
        Mode::IndirectX
    } else if n == 9 {
        Mode::IndirectY
    } else if n == 10 {
        Mode::Relative
    } else if n == 11 {
        Mode::ZeroPage
    } else if n == 12 {
        Mode::ZeroPageX
    } else if n == 13 {
        Mode::ZeroPageY
    } else {
        Mode::Implied
    }
}

/// The base cycle count of an opcode.
pub fn cycles_of(opcode: u8) -> (r: u8)
    ensures
        r == cycle_table()[opcode as int],
        1 <= r <= 8,
{
    let t: [u8; 256] = [
        7, 6, 2, 8, 3, 3, 5, 5, 3, 2, 2, 2, 4, 4, 6, 6,
        2, 5, 2, 8, 4, 4, 6, 6, 2, 4, 2, 7, 4, 4, 7, 7,
        6, 6, 2, 8, 3, 3, 5, 5, 4, 2, 2, 2, 4, 4, 6, 6,
        2, 5, 2, 8, 4, 4, 6, 6, 2, 4, 2, 7, 4, 4, 7, 7,
        6, 6, 2, 8, 3, 3, 5, 5, 3, 2, 2, 2, 3, 4, 6, 6,
        2, 5, 2, 8, 4, 4, 6, 6, 2, 4, 2, 7, 4, 4, 7, 7,
        6, 6, 2, 8, 3, 3, 5, 5, 4, 2, 2, 2, 5, 4, 6, 6,
        2, 5, 2, 8, 4, 4, 6, 6, 2, 4, 2, 7, 4, 4, 7, 7,
        2, 6, 2, 6, 3, 3, 3, 3, 2, 2, 2, 2, 4, 4, 4, 4,
        2, 6, 2, 6, 4, 4, 4, 4, 2, 5, 2, 5, 5, 5, 5, 5,
        2, 6, 2, 6, 3, 3, 3, 3, 2, 2, 2, 2, 4, 4, 4, 4,
        2, 5, 2, 5, 4, 4, 4, 4, 2, 4, 2, 4, 4, 4, 4, 4,
        2, 6, 2, 8, 3, 3, 5, 5, 2, 2, 2, 2, 4, 4, 6, 6,
        2, 5, 2, 8, 4, 4, 6, 6, 2, 4, 2, 7, 4, 4, 7, 7,
        2, 6, 2, 8, 3, 3, 5, 5, 2, 2, 2, 2, 4, 4, 6, 6,
        2, 5, 2, 8, 4, 4, 6, 6, 2, 4, 2, 7, 4, 4, 7, 7,
    ];
    proof {
        assert(t@ =~= cycle_table());
        assert(forall|i: int| 0 <= i < 256 ==> 1 <= #[trigger] cycle_table()[i] <= 8);
    }
    t[opcode as usize]
}

/// An instruction's operand: the accumulator, or a byte read from memory
/// with its address and whether indexing crossed a page.
pub struct Operand {
    pub val: u8,
    pub addr: Option<u16>,
    pub page_crossing: bool,
}

/// Whether two addresses lie in different 256-byte pages.
pub open spec fn crosses(a: u16, b: u16) -> bool {
    a / 256 != b / 256
}

impl Nes {
    /// Pushes `val` at 0x0100 + S; S then moves down, wrapping within the page.
    pub fn push_byte(&mut self, val: u8)
        requires
            old(self).wf(),
        ensures
            dots_kept(*old(self), *final(self)),
            final(self).cpu.nmi_pending == old(self).cpu.nmi_pending,
            final(self).cpu.irq_pending == old(self).cpu.irq_pending,
            final(self).cpu.cycle == old(self).cpu.cycle,
            final(self).cpu.stall_cycle == old(self).cpu.stall_cycle,
            final(self).wf(),
            final(self).cpu.ram@ == old(self).cpu.ram@.update(stack_address(old(self).cpu.r.sp) as int, val),
            final(self).cpu.r == (Registers { sp: old(self).cpu.r.sp.wrapping_sub(1), ..old(self).cpu.r }),
            final(self).mapper == old(self).mapper,
            final(self).ppu == old(self).ppu,
            final(self).apu == old(self).apu,
    {
        let addr = 0x100 + self.cpu.r.sp as u16;
        self.write_byte(addr, val);
        self.cpu.r.sp = self.cpu.r.sp.wrapping_sub(1);
    }

    /// Moves S up, wrapping within the page, and pops the byte at 0x0100 + S.
    pub fn pop_byte(&mut self) -> (r: u8)
        requires
            old(self).wf(),
        ensures
            dots_kept(*old(self), *final(self)),
            final(self).cpu.nmi_pending == old(self).cpu.nmi_pending,
            final(self).cpu.irq_pending == old(self).cpu.irq_pending,
            final(self).cpu.cycle == old(self).cpu.cycle,
            final(self).cpu.stall_cycle == old(self).cpu.stall_cycle,
            final(self).wf(),
            r == old(self).cpu.ram@[stack_address(old(self).cpu.r.sp.wrapping_add(1)) as int],
            final(self).cpu.r == (Registers { sp: old(self).cpu.r.sp.wrapping_add(1), ..old(self).cpu.r }),
            final(self).cpu.ram == old(self).cpu.ram,
            final(self).mapper == old(self).mapper,
            final(self).ppu == old(self).ppu,
            final(self).apu == old(self).apu,
    {
        self.cpu.r.sp = self.cpu.r.sp.wrapping_add(1);
        let addr = 0x100 + self.cpu.r.sp as u16;
        self.read_byte(addr)
    }

    /// Pushes the high byte of `word`, then the low byte.
    pub fn push_word(&mut self, word: u16)
        requires
            old(self).wf(),
        ensures
            dots_kept(*old(self), *final(self)),
            final(self).cpu.nmi_pending == old(self).cpu.nmi_pending,
            final(self).cpu.irq_pending == old(self).cpu.irq_pending,
            final(self).cpu.cycle == old(self).cpu.cycle,
            final(self).cpu.stall_cycle == old(self).cpu.stall_cycle,
            final(self).wf(),
            final(self).cpu.ram@ == old(self).cpu.ram@.update(
                stack_address(old(self).cpu.r.sp) as int,
                (word / 256) as u8,
            ).update(stack_address(old(self).cpu.r.sp.wrapping_sub(1)) as int, (word % 256) as u8),
            final(self).cpu.r == (Registers {
                sp: old(self).cpu.r.sp.wrapping_sub(1).wrapping_sub(1),
                ..old(self).cpu.r
            }),
            final(self).mapper == old(self).mapper,
            final(self).ppu == old(self).ppu,
            final(self).apu == old(self).apu,
    {
        self.push_byte((word / 256) as u8);
        self.push_byte((word % 256) as u8);
    }

    /// Pops the low byte, then the high byte.
    pub fn pop_word(&mut self) -> (r: u16)
        requires
            old(self).wf(),
        ensures
            dots_kept(*old(self), *final(self)),
            final(self).cpu.nmi_pending == old(self).cpu.nmi_pending,
            final(self).cpu.irq_pending == old(self).cpu.irq_pending,
            final(self).cpu.cycle == old(self).cpu.cycle,
            final(self).cpu.stall_cycle == old(self).cpu.stall_cycle,
            final(self).wf(),
            final(self).cpu.ram == old(self).cpu.ram,
            final(self).cpu.r == (Registers {
                sp: old(self).cpu.r.sp.wrapping_add(1).wrapping_add(1),
                ..old(self).cpu.r
            }),
            r == old(self).cpu.ram@[stack_address(old(self).cpu.r.sp.wrapping_add(1)) as int] as int
                + 256 * old(self).cpu.ram@[stack_address(
                old(self).cpu.r.sp.wrapping_add(1).wrapping_add(1),
            ) as int] as int,
            final(self).mapper == old(self).mapper,
    {
        let lo = self.pop_byte();
        let hi = self.pop_byte();
        lo as u16 + 256 * hi as u16
    }

    /// Reads the little-endian word at `addr` through the CPU port.
    pub fn read_word(&mut self, addr: u16) -> (r: u16)
        requires
            old(self).wf(),
        ensures
            final(self).cpu.nmi_pending == old(self).cpu.nmi_pending,
            final(self).cpu.irq_pending == old(self).cpu.irq_pending,
            final(self).cpu.cycle == old(self).cpu.cycle,
            final(self).cpu.stall_cycle == old(self).cpu.stall_cycle,
            final(self).wf(),
            final(self).cpu.r == old(self).cpu.r,
            final(self).mapper == old(self).mapper,
            dots_kept(*old(self), *final(self)),
            addr >= 0x4020 && addr < 0xFFFF ==> r == mapper_word(old(self).board(), addr)
                && *final(self) == *old(self),
    {
        let lo = self.read_byte(addr);
        let hi = self.read_byte(addr.wrapping_add(1));
        lo as u16 + 256 * hi as u16
    }

    /// Serves an interrupt: pushes PC and P (with B set), sets I, jumps
    /// through the interrupt's vector and clears the pending flag.
    pub fn handle_interrupt(&mut self, interrupt: Interrupt)
        requires
            old(self).wf(),
        ensures
            dots_kept(*old(self), *final(self)),
            final(self).wf(),
            final(self).cpu.r.pc == mapper_word(old(self).board(), vector_of(interrupt)),
            final(self).cpu.r.sp == old(self).cpu.r.sp.wrapping_sub(1).wrapping_sub(1).wrapping_sub(1),
            final(self).cpu.r.p == old(self).cpu.r.p | INTERRUPT_DISABLE_MASK,
            final(self).cpu.ram@ == old(self).cpu.ram@.update(
                stack_address(old(self).cpu.r.sp) as int,
                (old(self).cpu.r.pc / 256) as u8,
            ).update(
                stack_address(old(self).cpu.r.sp.wrapping_sub(1)) as int,
                (old(self).cpu.r.pc % 256) as u8,
            ).update(
                stack_address(old(self).cpu.r.sp.wrapping_sub(1).wrapping_sub(1)) as int,
                old(self).cpu.r.p | 0x10,
            ),
            interrupt_entered(*old(self), *final(self), vector_of(interrupt)),
            interrupt == Interrupt::NMI ==> !final(self).cpu.nmi_pending && final(self).cpu.irq_pending
                == old(self).cpu.irq_pending,
            interrupt == Interrupt::IRQ ==> !final(self).cpu.irq_pending && final(self).cpu.nmi_pending
                == old(self).cpu.nmi_pending,
            final(self).mapper == old(self).mapper,
    {
        let pc = self.cpu.r.pc;
        self.push_word(pc);
        let p = self.cpu.r.p | 0x10;
        self.push_byte(p);
        self.cpu.r.set_status_flag(INTERRUPT_DISABLE_MASK, true);
        let vector: u16 = match interrupt {
            Interrupt::NMI => 0xFFFA,
            Interrupt::IRQ => 0xFFFE,
        };
        self.cpu.r.pc = self.read_word(vector);
        match interrupt {
            Interrupt::NMI => {
                self.cpu.nmi_pending = false;
            },
            Interrupt::IRQ => {
                self.cpu.irq_pending = false;
            },
        }
    }

    /// Reads the byte at PC and moves PC on.
    fn decode_byte(&mut self) -> (r: u8)
        requires
            old(self).wf(),
        ensures
            final(self).cpu.nmi_pending == old(self).cpu.nmi_pending,
            final(self).cpu.irq_pending == old(self).cpu.irq_pending,
            final(self).cpu.cycle == old(self).cpu.cycle,
            final(self).cpu.stall_cycle == old(self).cpu.stall_cycle,
            final(self).wf(),
            final(self).cpu.r == (Registers { pc: old(self).cpu.r.pc.wrapping_add(1), ..old(self).cpu.r }),
            final(self).mapper == old(self).mapper,
            dots_kept(*old(self), *final(self)),
            old(self).cpu.r.pc >= 0x4020 ==> r == old(self).board().read(old(self).cpu.r.pc)
                && *final(self) == (Nes {
                cpu: Cpu {
                    r: Registers { pc: old(self).cpu.r.pc.wrapping_add(1), ..old(self).cpu.r },
                    ..old(self).cpu
                },
                ..*old(self)
            }),
    {
        let pc = self.cpu.r.pc;
        let r = self.read_byte(pc);
        self.cpu.r.pc = pc.wrapping_add(1);
        r
    }

    /// Reads the word at PC and moves PC on by two.
    fn decode_word(&mut self) -> (r: u16)
        requires
            old(self).wf(),
        ensures
            final(self).cpu.nmi_pending == old(self).cpu.nmi_pending,
            final(self).cpu.irq_pending == old(self).cpu.irq_pending,
            final(self).cpu.cycle == old(self).cpu.cycle,
            final(self).cpu.stall_cycle == old(self).cpu.stall_cycle,
            final(self).wf(),
            final(self).cpu.r == (Registers {
                pc: old(self).cpu.r.pc.wrapping_add(1).wrapping_add(1),
                ..old(self).cpu.r
            }),
            final(self).mapper == old(self).mapper,
            dots_kept(*old(self), *final(self)),
    {
        let lo = self.decode_byte();
        let hi = self.decode_byte();
        lo as u16 + 256 * hi as u16
    }
}

impl Nes {
    /// Resolves the address of an operand, and whether indexing crossed a
    /// page; implied and accumulator operands have none (0 is returned).
    fn address(&mut self, mode: Mode) -> (r: (u16, bool))
        requires
            old(self).wf(),
        ensures
            mode == Mode::Immediate ==> r.0 == old(self).cpu.r.pc && !r.1 && *final(self) == (Nes {
                cpu: Cpu {
                    r: Registers { pc: old(self).cpu.r.pc.wrapping_add(1), ..old(self).cpu.r },
                    ..old(self).cpu
                },
                ..*old(self)
            }),
            final(self).wf(),
            final(self).mapper == old(self).mapper,
            final(self).cpu.stall_cycle == old(self).cpu.stall_cycle,
            dots_kept(*old(self), *final(self)),
            final(self).cpu.r.a == old(self).cpu.r.a && final(self).cpu.r.x == old(self).cpu.r.x
                && final(self).cpu.r.y == old(self).cpu.r.y && final(self).cpu.r.p == old(self).cpu.r.p
                && final(self).cpu.r.sp == old(self).cpu.r.sp,
    {
        match mode {
            Mode::Absolute => (self.decode_word(), false),
            Mode::AbsoluteX => {
                let a = self.decode_word();
                let r = a.wrapping_add(self.cpu.r.x as u16);
                (r, a / 256 != r / 256)
            },
            Mode::AbsoluteY => {
                let a = self.decode_word();
                let r = a.wrapping_add(self.cpu.r.y as u16);
                (r, a / 256 != r / 256)
            },
            Mode::Immediate => {
                let pc = self.cpu.r.pc;
                self.cpu.r.pc = pc.wrapping_add(1);
                (pc, false)
            },
            Mode::Indirect => {
                // the high byte comes from the same page as the low byte
                let a = self.decode_word();
                let hi_addr = (a / 256) * 256 + (a % 256).wrapping_add(1) % 256;
                let lo = self.read_byte(a);
                let hi = self.read_byte(hi_addr);
                (lo as u16 + 256 * hi as u16, false)
            },
            Mode::IndirectX => {
                let z = self.decode_byte().wrapping_add(self.cpu.r.x);
                let lo = self.read_byte(z as u16);
                let hi = self.read_byte(z.wrapping_add(1) as u16);
                (lo as u16 + 256 * hi as u16, false)
            },
            Mode::IndirectY => {
                let z = self.decode_byte();
                let lo = self.read_byte(z as u16);
                let hi = self.read_byte(z.wrapping_add(1) as u16);
                let a = lo as u16 + 256 * hi as u16;
                let r = a.wrapping_add(self.cpu.r.y as u16);
                (r, a / 256 != r / 256)
            },
            Mode::Relative => {
                let off = self.decode_byte();
                let pc = self.cpu.r.pc;
                let target = if off < 128 {
                    pc.wrapping_add(off as u16)
                } else {
                    pc.wrapping_sub(256 - off as u16)
                };
                (target, false)
            },
            Mode::ZeroPage => (self.decode_byte() as u16, false),
            Mode::ZeroPageX => (self.decode_byte().wrapping_add(self.cpu.r.x) as u16, false),
            Mode::ZeroPageY => (self.decode_byte().wrapping_add(self.cpu.r.y) as u16, false),
            _ => (0, false),
        }
    }

    /// Fetches an operand: the accumulator, or the byte at its address.
    fn operand(&mut self, mode: Mode) -> (r: Operand)
        requires
            old(self).wf(),
        ensures
            final(self).wf(),
            final(self).mapper == old(self).mapper,
            final(self).cpu.stall_cycle == old(self).cpu.stall_cycle,
            dots_kept(*old(self), *final(self)),
            mode == Mode::Accumulator ==> r.val == old(self).cpu.r.a && r.addr is None,
            mode == Mode::Immediate && old(self).cpu.r.pc >= 0x4020 ==> r.val == old(self).board().read(
                old(self).cpu.r.pc,
            ) && !r.page_crossing && final(self).cpu.r == (Registers {
                pc: old(self).cpu.r.pc.wrapping_add(1),
                ..old(self).cpu.r
            }),
            final(self).cpu.r.a == old(self).cpu.r.a && final(self).cpu.r.x == old(self).cpu.r.x
                && final(self).cpu.r.y == old(self).cpu.r.y && final(self).cpu.r.p == old(self).cpu.r.p
                && final(self).cpu.r.sp == old(self).cpu.r.sp,
    {
        if mode == Mode::Accumulator {
            Operand { val: self.cpu.r.a, addr: None, page_crossing: false }
        } else {
            let (addr, page_crossing) = self.address(mode);
            let val = self.read_byte(addr);
            Operand { val, addr: Some(addr), page_crossing }
        }
    }

    /// Stores a result where its operand came from.
    fn write_operand(&mut self, addr: Option<u16>, val: u8)
        requires
            old(self).wf(),
        ensures
            final(self).wf(),
            dots_kept(*old(self), *final(self)),
            addr is None ==> final(self).cpu.r == (Registers { a: val, ..old(self).cpu.r }),
    {
        match addr {
            Some(a) => self.write_byte(a, val),
            None => {
                self.cpu.r.a = val;
            },
        }
    }

    fn add_cycles(&mut self, n: u64)
        ensures
            final(self).cpu.cycle == old(self).cpu.cycle.wrapping_add(n),
            final(self).cpu.r == old(self).cpu.r,
            final(self).cpu.stall_cycle == old(self).cpu.stall_cycle,
            final(self).cpu.controller1 == old(self).cpu.controller1,
            final(self).cpu.controller2 == old(self).cpu.controller2,
            final(self).cpu.ram == old(self).cpu.ram,
            final(self).cpu.nmi_pending == old(self).cpu.nmi_pending,
            final(self).cpu.irq_pending == old(self).cpu.irq_pending,
            final(self).ppu == old(self).ppu,
            final(self).apu == old(self).apu,
            final(self).mapper == old(self).mapper,
    {
        self.cpu.cycle = self.cpu.cycle.wrapping_add(n);
    }

    /// A branch: taken, it costs one cycle more, two if it lands on
    /// another page.
    fn branch(&mut self, cond: bool, mode: Mode)
        requires
            old(self).wf(),
        ensures
            final(self).wf(),
            dots_kept(*old(self), *final(self)),
    {
        let (addr, _) = self.address(mode);
        if cond {
            self.add_cycles(1);
            if self.cpu.r.pc / 256 != addr / 256 {
                self.add_cycles(1);
            }
            self.cpu.r.pc = addr;
        }
    }

    /// Runs the instruction `opcode`, whose byte has been fetched.
    #[verifier::rlimit(100)]
    fn execute(&mut self, opcode: u8)
        requires
            old(self).wf(),
        ensures
            final(self).wf(),
            dots_kept(*old(self), *final(self)),
            is_stack_op(instr_table()[opcode as int]) ==> stack_effect(
                *old(self),
                *final(self),
                instr_table()[opcode as int],
            ),
            is_register_op(instr_table()[opcode as int]) ==> final(self).cpu.r == register_op_spec(
                instr_table()[opcode as int],
                old(self).cpu.r,
            ),
            is_flag_op(instr_table()[opcode as int]) ==> final(self).cpu.r == flag_op_spec(
                instr_table()[opcode as int],
                old(self).cpu.r,
            ),
            is_read_op(instr_table()[opcode as int]) && mode_named(mode_table()[opcode as int])
                == Mode::Immediate && old(self).cpu.r.pc >= 0x4020 ==> final(self).cpu.r == read_op_spec(
                instr_table()[opcode as int],
                Registers { pc: old(self).cpu.r.pc.wrapping_add(1), ..old(self).cpu.r },
                old(self).board().read(old(self).cpu.r.pc),
            ),
    {
        let mode = mode_of(opcode);
        let ins = instr_of(opcode);
        match ins {
            Instr::Adc | Instr::And | Instr::Cmp | Instr::Eor | Instr::Lda | Instr::Ldx | Instr::Ldy
            | Instr::Ora | Instr::Sbc | Instr::Lax | Instr::Las | Instr::Top => {
                self.execute_read(ins, mode);
            },
            Instr::Cpx | Instr::Cpy | Instr::Bit | Instr::Dop | Instr::Anc | Instr::Axs | Instr::Xaa
            | Instr::Asr | Instr::Arr => {
                self.execute_compare_misc(ins, mode);
            },
            Instr::Asl | Instr::Lsr | Instr::Rol | Instr::Ror | Instr::Slo | Instr::Sre | Instr::Rla
            | Instr::Rra => {
                self.execute_shift(ins, mode);
            },
            Instr::Inc | Instr::Dec | Instr::Isc | Instr::Dcp => {
                self.execute_step(ins, mode);
            },
            Instr::Sta | Instr::Stx | Instr::Sty | Instr::Aax | Instr::Axa | Instr::Shx | Instr::Shy
            | Instr::Tas => {
                self.execute_store(ins, mode);
            },
            Instr::Bcc | Instr::Bcs | Instr::Beq | Instr::Bmi | Instr::Bne | Instr::Bpl | Instr::Bvc
            | Instr::Bvs => {
                let p = self.cpu.r.p;
                let c = p & crate::cpu::CARRY_MASK != 0;
                let z = p & crate::cpu::ZERO_MASK != 0;
                let n = p & crate::cpu::NEGATIVE_MASK != 0;
                let v = p & crate::cpu::OVERFLOW_MASK != 0;
                let cond = match ins {
                    Instr::Bcc => !c,
                    Instr::Bcs => c,
                    Instr::Beq => z,
                    Instr::Bne => !z,
                    Instr::Bmi => n,
                    Instr::Bpl => !n,
                    Instr::Bvc => !v,
                    _ => v,
                };
                self.branch(cond, mode);
            },
            Instr::Jmp => {
                let (addr, _) = self.address(mode);
                self.cpu.r.pc = addr;
            },
            Instr::Jsr | Instr::Rts | Instr::Rti | Instr::Brk | Instr::Pha | Instr::Php | Instr::Pla
            | Instr::Plp => {
                self.execute_stack(ins, mode);
            },
            Instr::Inx | Instr::Iny | Instr::Dex | Instr::Dey | Instr::Tax | Instr::Tay | Instr::Tsx
            | Instr::Txa | Instr::Tya | Instr::Txs => {
                self.cpu.r = register_op(ins, self.cpu.r);
            },
            Instr::Clc | Instr::Cld | Instr::Cli | Instr::Clv | Instr::Sec | Instr::Sed | Instr::Sei => {
                self.cpu.r = flag_op(ins, self.cpu.r);
            },
            Instr::Inv => {
                // the processor jams: the opcode runs again and again
                self.cpu.r.pc = self.cpu.r.pc.wrapping_sub(1);
            },
            Instr::Nop => {},
        }
    }
}

/// The registers with `v` loaded into A and N, Z set from it.
pub fn with_nz_a(r: Registers, v: u8) -> (o: Registers)
    ensures
        o == (Registers { a: v, p: crate::cpu::with_nz(r.p, v), ..r }),
{
    let mut o = Registers { a: v, ..r };
    o.update_nz_flags(v);
    o
}

/// The registers with `v` loaded into X and N, Z set from it.
pub fn with_nz_x(r: Registers, v: u8) -> (o: Registers)
    ensures
        o == (Registers { x: v, p: crate::cpu::with_nz(r.p, v), ..r }),
{
    let mut o = Registers { x: v, ..r };
    o.update_nz_flags(v);
    o
}

/// The registers with `v` loaded into Y and N, Z set from it.
pub fn with_nz_y(r: Registers, v: u8) -> (o: Registers)
    ensures
        o == (Registers { y: v, p: crate::cpu::with_nz(r.p, v), ..r }),
{
    let mut o = Registers { y: v, ..r };
    o.update_nz_flags(v);
    o
}

/// How many dots remain in the current frame after the PPU's position.
pub open spec fn dots_left(p: Ppu) -> int {
    (260 - p.scanline) * 341 + (340 - p.cycle)
}

impl Nes {
    /// One CPU step: a stalled cycle, an interrupt entry, or one
    /// instruction (whose remaining cycles become stall cycles).
    pub fn step_cpu(&mut self)
        requires
            old(self).wf(),
        ensures
            final(self).wf(),
            cpu_stepped(*old(self), *final(self)),
    {
        if self.cpu.stall_cycle > 0 {
            self.cpu.stall_cycle = self.cpu.stall_cycle - 1;
            return ;
        }
        if self.cpu.nmi_pending {
            self.handle_interrupt(Interrupt::NMI);
            return ;
        }
        if self.cpu.irq_pending {
            self.handle_interrupt(Interrupt::IRQ);
            return ;
        }
        self.run_instruction();
    }

    /// Fetches and runs the instruction at PC; the cycles it takes beyond
    /// this one become stall cycles.
    fn run_instruction(&mut self)
        requires
            old(self).wf(),
        ensures
            final(self).wf(),
            dots_kept(*old(self), *final(self)),
            instruction_done(*old(self), *final(self)),
    {
        let start = self.cpu.cycle;
        let ghost a = *self;
        let opcode = self.decode_byte();
        let ghost after_fetch = *self;
        self.execute(opcode);
        let ghost after_run = *self;
        let n = cycles_of(opcode) as u64;
        self.add_cycles(n);
        let spent = self.cpu.cycle.wrapping_sub(start);
        self.cpu.stall_cycle = self.cpu.stall_cycle.wrapping_add(spent.wrapping_sub(1));
        proof {
            if 0x4020 <= a.cpu.r.pc < 0xFFFF {
                assert(after_fetch == (Nes { cpu: Cpu { r: Registers { pc: a.cpu.r.pc.wrapping_add(1), ..a.cpu.r }, ..a.cpu }, ..a }));
                assert(self.cpu.r == after_run.cpu.r && self.cpu.ram == after_run.cpu.ram);
            }
        }
    }

    /// One PPU dot with the board's clock after it; posts the NMI and the
    /// board's IRQ to the CPU.
    fn step_ppu(&mut self)
        requires
            old(self).wf(),
        ensures
            final(self).wf(),
            ppu_dot(*old(self), *final(self)),
    {
        let ghost a = *self;
        let nmi = match &self.mapper {
            Some(m) => self.ppu.step(m),
            None => false,
        };
        if nmi {
            self.cpu.trigger_interrupt(Interrupt::NMI);
        }
        let cycle = self.ppu.cycle;
        let scanline = self.ppu.scanline;
        let drawing = self.ppu.r.show_sprites || self.ppu.r.show_background;
        let irq = match &mut self.mapper {
            Some(m) => m.step(cycle, scanline, drawing),
            None => false,
        };
        if irq {
            self.cpu.trigger_interrupt(Interrupt::IRQ);
        }
        assert(crate::ppu::ppu_stepped(a.ppu, self.ppu, nmi));
        assert(a.board().clocked(
            self.ppu.cycle,
            self.ppu.scanline,
            rendering(self.ppu),
            self.board(),
            irq,
        ));
        assert(self.cpu == (Cpu {
            nmi_pending: a.cpu.nmi_pending || nmi,
            irq_pending: a.cpu.irq_pending || (irq && a.cpu.r.p & INTERRUPT_DISABLE_MASK == 0),
            ..a.cpu
        }));
    }

    /// One APU cycle: the frame interrupt, a DMC fetch (4 stall cycles) and
    /// an output sample if one is due.
    #[verifier::rlimit(100)]
    fn step_apu(&mut self)
        requires
            old(self).wf(),
        ensures
            final(self).wf(),
            dots_kept(*old(self), *final(self)),
            apu_cycle(*old(self), *final(self)),
    {
        let ghost a = *self;
        let ev = self.apu.step();
        if ev.frame_irq {
            self.cpu.trigger_interrupt(Interrupt::IRQ);
        }
        match self.apu.dmc_read_address() {
            Some(addr) => {
                self.cpu.stall_cycle = self.cpu.stall_cycle.wrapping_add(4);
                let ghost before_read = *self;
                let v = self.read_byte(addr);
                proof {
                    if addr < 0x2000 || addr >= 0x4020 {
                        assert(*self == before_read);
                    }
                }
                match self.apu.dmc_read_address() {
                    Some(_) => {
                        if self.apu.step_dmc_read(v) {
                            self.cpu.trigger_interrupt(Interrupt::IRQ);
                        }
                    },
                    None => {},
                }
            },
            None => {},
        }
        let ghost before_sample = *self;
        if ev.sample_due {
            let l = self.apu.levels();
            self.samples.push(l);
        }
        proof {
            let s = crate::apu::apu_stepped(a.apu);
            assert(before_sample.samples == a.samples);
            assert(self.apu == before_sample.apu);
            if !crate::apu::dmc_fetch_due(s) {
                assert(self.apu == s);
                assert(self.ppu == a.ppu);
                assert(self.mapper == a.mapper);
            }
        }
    }

    /// One CPU step, three PPU dots with the board's clock, one APU cycle.
    pub fn step(&mut self)
        requires
            old(self).wf(),
        ensures
            final(self).wf(),
            console_stepped(*old(self), *final(self)),
            final(self).ppu.frame == old(self).ppu.frame ==> dots_left(final(self).ppu) == dots_left(
                old(self).ppu,
            ) - 3,
            final(self).ppu.frame != old(self).ppu.frame ==> final(self).ppu.frame == (if old(
                self,
            ).ppu.frame == u64::MAX {
                0
            } else {
                old(self).ppu.frame + 1
            }),
    {
        let ghost s0 = *self;
        self.step_cpu();
        let ghost s1 = *self;
        self.step_ppu();
        let ghost s2 = *self;
        self.step_ppu();
        let ghost s3 = *self;
        self.step_ppu();
        let ghost s4 = *self;
        self.step_apu();
        assert(cpu_stepped(s0, s1) && ppu_dot(s1, s2) && ppu_dot(s2, s3) && ppu_dot(s3, s4) && apu_cycle(
            s4,
            *self,
        ));
    }

    /// Runs until the PPU finishes the current frame. The samples due in
    /// that time are collected afresh.
    pub fn step_frame(&mut self)
        requires
            old(self).wf(),
        ensures
            final(self).wf(),
            final(self).ppu.frame == (if old(self).ppu.frame == u64::MAX {
                0
            } else {
                old(self).ppu.frame + 1
            }),
            frame_run(*old(self), *final(self)),
    {
        self.samples = Vec::new();
        let frame = self.ppu.frame;
        let ghost trace: Seq<Nes> = seq![*self];
        while self.ppu.frame == frame
            invariant
                self.wf(),
                self.ppu.frame == frame || self.ppu.frame == (if frame == u64::MAX {
                    0
                } else {
                    frame + 1
                }),
                frame == old(self).ppu.frame,
                trace.len() >= 1,
                trace[0] == (Nes { samples: trace[0].samples, ..*old(self) }),
                trace[0].samples@.len() == 0,
                trace.last() == *self,
                forall|k: int| 0 <= k < trace.len() - 1 ==> #[trigger] console_stepped(trace[k], trace[k + 1]),
                forall|k: int| 0 <= k < trace.len() - 1 ==> #[trigger] trace[k].ppu.frame == frame,
            decreases (if self.ppu.frame == frame {
                dots_left(self.ppu) + 3
            } else {
                0
            }),
        {
            let ghost before = *self;
            self.step();
            proof {
                let t2 = trace.push(*self);
                assert forall|k: int| 0 <= k < t2.len() - 1 implies #[trigger] console_stepped(t2[k], t2[k + 1]) by {
                    if k < trace.len() - 1 {
                        assert(t2[k] == trace[k] && t2[k + 1] == trace[k + 1]);
                    } else {
                        assert(t2[k] == before && t2[k + 1] == *self);
                    }
                }
                assert forall|k: int| 0 <= k < t2.len() - 1 implies #[trigger] t2[k].ppu.frame == frame by {
                    if k < trace.len() - 1 {
                        assert(t2[k] == trace[k]);
                    }
                }
                trace = t2;
            }
        }
        assert(is_frame_trace(trace, *old(self), *self));
    }
}

impl Nes {
    /// Power-on of the CPU: PC from the reset vector, S = 0xFD, P = 0x24.
    pub fn initialize_cpu(&mut self)
        requires
            old(self).wf(),
        ensures
            final(self).wf(),
            final(self).cpu.r.pc == mapper_word(old(self).board(), 0xFFFC),
            final(self).cpu.r.sp == 0xFD,
            final(self).cpu.r.p == 0x24,
            final(self).cpu.r.a == old(self).cpu.r.a && final(self).cpu.r.x == old(self).cpu.r.x
                && final(self).cpu.r.y == old(self).cpu.r.y,
            final(self).cpu.ram == old(self).cpu.ram,
            final(self).mapper == old(self).mapper,
            final(self).apu == old(self).apu,
            final(self).ppu == old(self).ppu,
    {
        self.cpu.r.pc = self.read_word(0xFFFC);
        self.cpu.r.sp = 0xFD;
        self.cpu.r.p = 0x24;
    }

    /// Loads an iNES image: reads the cartridge, installs its board and
    /// powers on the CPU, PPU and APU. On an error nothing changes.
    pub fn load_rom(&mut self, buffer: &[u8]) -> (r: Result<(), LoadError>)
        requires
            old(self).cpu.wf() && old(self).ppu.wf() && old(self).apu.wf(),
        ensures
            crate::cartridge::load_error(buffer@) is Some ==> r == Err::<(), LoadError>(
                LoadError::Cartridge(crate::cartridge::load_error(buffer@)->0),
            ),
            r is Err ==> *final(self) == *old(self),
            crate::cartridge::load_error(buffer@) is None && crate::mapper::supported(
                crate::cartridge::mapper_number(buffer@),
            ) ==> r is Ok,
            r is Ok ==> final(self).wf() && crate::cartridge::load_error(buffer@) is None
                && crate::mapper::supported(crate::cartridge::mapper_number(buffer@))
                && crate::cartridge::loaded_from(final(self).board().cartridge(), buffer@)
                && final(self).board().fresh()
                && final(self).cpu.r.pc == mapper_word(final(self).board(), 0xFFFC)
                && final(self).cpu.r.sp == 0xFD && final(self).cpu.r.p == 0x24
                && final(self).apu == crate::apu::apu_steps(
                crate::apu::channels_cleared(
                    crate::apu::apu_written(crate::apu::apu_written(old(self).apu, 0x4015, 0), 0x4017, 0),
                    16,
                ),
                12,
            ) && final(self).ppu == crate::ppu::ppu_after_reset(old(self).ppu),
            crate::cartridge::load_error(buffer@) is None && !crate::mapper::supported(
                crate::cartridge::mapper_number(buffer@),
            ) ==> r == Err::<(), LoadError>(
                LoadError::Mapper(UnsupportedMapper { mapper: crate::cartridge::mapper_number(buffer@) }),
            ),
    {
        let cartridge = match Cartridge::from_buffer(buffer) {
            Ok(c) => c,
            Err(e) => {
                return Err(LoadError::Cartridge(e));
            },
        };
        let mapper = match from_cartridge(cartridge) {
            Ok(m) => m,
            Err(e) => {
                return Err(LoadError::Mapper(e));
            },
        };
        self.mapper = Some(mapper);
        self.apu.initialize();
        self.initialize_cpu();
        self.ppu.reset();
        Ok(())
    }

    /// Soft reset: the APU is silenced, the CPU re-reads the reset vector
    /// with S moved down by 3 and I set, and the PPU starts a frame over.
    pub fn reset(&mut self)
        requires
            old(self).wf(),
        ensures
            final(self).wf(),
            final(self).cpu.r.pc == mapper_word(old(self).board(), 0xFFFC),
            final(self).cpu.r.sp == old(self).cpu.r.sp.wrapping_sub(3),
            final(self).cpu.r.p == old(self).cpu.r.p | INTERRUPT_DISABLE_MASK,
            final(self).cpu.cycle == 0 && final(self).cpu.stall_cycle == 0,
            final(self).ppu.frame == 0 && final(self).ppu.scanline == -1,
            final(self).samples@.len() == 0,
            final(self).cpu.r.a == old(self).cpu.r.a,
            final(self).cpu.r.x == old(self).cpu.r.x,
            final(self).cpu.r.y == old(self).cpu.r.y,
            final(self).cpu.ram == old(self).cpu.ram,
            final(self).mapper == old(self).mapper,
    {
        self.samples = Vec::new();
        self.apu.reset();
        self.cpu.r.pc = self.read_word(0xFFFC);
        self.cpu.r.sp = self.cpu.r.sp.wrapping_sub(3);
        self.cpu.r.set_status_flag(INTERRUPT_DISABLE_MASK, true);
        self.cpu.cycle = 0;
        self.cpu.stall_cycle = 0;
        self.ppu.reset();
    }

    /// Presses button `button_index` (A = 0 ... Right = 7) on port
    /// `controller_index` (0 or 1).
    pub fn press_button(&mut self, controller_index: usize, button_index: u8)
        requires
            old(self).cpu.wf(),
            controller_index < 2,
            button_index < 8,
        ensures
            final(self).cpu.wf(),
            controller_index == 0 ==> final(self).cpu.controller1.value == old(self).cpu.controller1.value
                | (1u8 << button_index) && final(self).cpu.controller2 == old(self).cpu.controller2,
            controller_index == 1 ==> final(self).cpu.controller2.value == old(self).cpu.controller2.value
                | (1u8 << button_index) && final(self).cpu.controller1 == old(self).cpu.controller1,
    {
        if controller_index == 0 {
            self.cpu.controller1.press_button(button_index);
        } else {
            self.cpu.controller2.press_button(button_index);
        }
    }

    /// Releases button `button_index` on port `controller_index`.
    pub fn release_button(&mut self, controller_index: usize, button_index: u8)
        requires
            old(self).cpu.wf(),
            controller_index < 2,
            button_index < 8,
        ensures
            final(self).cpu.wf(),
            controller_index == 0 ==> final(self).cpu.controller1.value == old(self).cpu.controller1.value
                & !(1u8 << button_index) && final(self).cpu.controller2 == old(self).cpu.controller2,
            controller_index == 1 ==> final(self).cpu.controller2.value == old(self).cpu.controller2.value
                & !(1u8 << button_index) && final(self).cpu.controller1 == old(self).cpu.controller1,
    {
        if controller_index == 0 {
            self.cpu.controller1.release_button(button_index);
        } else {
            self.cpu.controller2.release_button(button_index);
        }
    }

    /// The image: 256 x 240 pixels of four bytes, row by row.
    pub fn image_buffer(&self) -> (r: &Vec<u8>)
        ensures
            r == &self.ppu.image,
    {
        &self.ppu.image
    }

    /// The channel levels of the samples of the last frame.
    pub fn audio_buffer(&self) -> (r: &Vec<crate::apu::ChannelLevels>)
        ensures
            r == &self.samples,
    {
        &self.samples
    }

    /// How many samples the last frame produced.
    pub fn audio_buffer_len(&self) -> (r: usize)
        ensures
            r == self.samples@.len(),
    {
        self.samples.len()
    }

    /// Palette RAM: 32 indices into the colour table.
    pub fn palettes(&self) -> (r: &[u8; 32])
        ensures
            r == &self.ppu.palette_ram,
    {
        &self.ppu.palette_ram
    }

    /// Primary OAM: 64 entries of (y, tile, attributes, x).
    pub fn object_attribute_memory(&self) -> (r: &[u8; 256])
        ensures
            r == &self.ppu.primary_oam,
    {
        &self.ppu.primary_oam
    }

    /// Whether sprites are 8 x 16.
    pub fn tall_sprites_enabled(&self) -> (r: bool)
        ensures
            r == (self.ppu.r.sprite_size.1 == 16),
    {
        self.ppu.r.sprite_size.1 == 16
    }

    /// The first of the four 1 KiB CHR banks that the background uses.
    pub fn background_chr_bank(&self) -> (r: usize)
        ensures
            r == (if self.ppu.r.background_pattern_table_address == 0x1000 { 4usize } else { 0usize }),
    {
        if self.ppu.r.background_pattern_table_address == 0x1000 {
            4
        } else {
            0
        }
    }

    /// A copy of nametable bank `index` (0..=3), 1 KiB.
    pub fn nametable_bank(&self, index: usize) -> (r: Vec<u8>)
        requires
            index < 4,
        ensures
            r@ == self.ppu.vram@.subrange(index * 0x400, index * 0x400 + 0x400),
    {
        let mut r: Vec<u8> = Vec::new();
        let mut i: usize = 0;
        while i < 0x400
            invariant
                index < 4,
                i <= 0x400,
                r@ == self.ppu.vram@.subrange(index * 0x400, index * 0x400 + i),
            decreases 0x400 - i,
        {
            r.push(self.ppu.vram[index * 0x400 + i]);
            i = i + 1;
            proof {
                assert(r@ =~= self.ppu.vram@.subrange(index * 0x400, index * 0x400 + i));
            }
        }
        r
    }

    /// A copy of what the PPU sees in CHR bank `index` (0..=7), 1 KiB.
    pub fn chr_bank(&self, index: usize) -> (r: Vec<u8>)
        requires
            self.wf(),
            index < 8,
        ensures
            r@.len() == 0x400,
            forall|i: int| 0 <= i < 0x400 ==> #[trigger] r@[i] == self.board().read((index * 0x400 + i) as u16),
    {
        let mut r: Vec<u8> = Vec::new();
        let mut i: usize = 0;
        while i < 0x400
            invariant
                self.wf(),
                index < 8,
                i <= 0x400,
                r@.len() == i,
                forall|j: int| 0 <= j < i ==> #[trigger] r@[j] == self.board().read((index * 0x400 + j) as u16),
            decreases 0x400 - i,
        {
            let b = match &self.mapper {
                Some(m) => m.read_byte((index * 0x400 + i) as u16),
                None => 0,
            };
            r.push(b);
            i = i + 1;
        }
        r
    }
}

/// Whatever S holds, a stack access lands in page 1 (0x0100..=0x01FF),
/// which is work RAM, and S stays a byte as pushes and pops wrap it.
pub proof fn lemma_stack_in_page_one(sp: u8)
    ensures
        0x100 <= stack_address(sp) <= 0x1FF,
        stack_address(sp) as int % 0x800 == stack_address(sp) as int,
        0 <= sp.wrapping_sub(1) <= 255,
        stack_address(sp.wrapping_add(1)) == (if sp == 255 { 0x100u16 } else { (stack_address(sp) + 1) as u16 }),
{
}

impl Nes {
    /// The battery-backed memory of the loaded cartridge, if it has a
    /// battery.
    pub fn save(&self) -> (r: Option<Vec<u8>>)
        requires
            self.wf(),
        ensures
            !self.board().cartridge().has_battery ==> r is None,
            self.board().cartridge().has_battery ==> r is Some && r->0@
                == crate::cartridge::battery_blob(self.board().cartridge()),
    {
        match &self.mapper {
            Some(m) => m.save(),
            None => None,
        }
    }

    /// Restores battery-backed memory from a blob that `save` made.
    pub fn load(&mut self, data: &[u8]) -> (r: Result<(), crate::cartridge::SaveError>)
        requires
            old(self).wf(),
        ensures
            final(self).wf(),
            data@.len() != crate::cartridge::battery_blob(old(self).board().cartridge()).len() ==> r
                == Err::<(), crate::cartridge::SaveError>(crate::cartridge::SaveError::WrongLength)
                && *final(self) == *old(self),
            data@.len() == crate::cartridge::battery_blob(old(self).board().cartridge()).len() ==> r
                is Ok && crate::cartridge::battery_blob(final(self).board().cartridge()) == data@,
    {
        match &mut self.mapper {
            Some(m) => m.load(data),
            None => Ok(()),
        }
    }
}

/// The instructions that push or pull.
pub open spec fn is_stack_op(ins: Instr) -> bool {
    ins == Instr::Jsr || ins == Instr::Rts || ins == Instr::Rti || ins == Instr::Brk || ins
        == Instr::Pha || ins == Instr::Php || ins == Instr::Pla || ins == Instr::Plp
}

/// What a push or pull instruction does to S and the stack: pushes write
/// at 0x0100 + S and move S down, pulls move S up and read at 0x0100 + S,
/// all wrapping within page 1.
pub open spec fn stack_effect(a: Nes, b: Nes, ins: Instr) -> bool {
    let r = a.cpu.r;
    let sp = r.sp;
    let up = sp.wrapping_add(1);
    match ins {
        Instr::Pha => b.cpu.r == (Registers { sp: sp.wrapping_sub(1), ..r }) && b.cpu.ram@
            == a.cpu.ram@.update(stack_address(sp) as int, r.a),
        Instr::Php => b.cpu.r == (Registers { sp: sp.wrapping_sub(1), ..r }) && b.cpu.ram@
            == a.cpu.ram@.update(stack_address(sp) as int, r.p | 0x10),
        Instr::Pla => {
            let v = a.cpu.ram@[stack_address(up) as int];
            b.cpu.r == (Registers { sp: up, a: v, p: crate::cpu::with_nz(r.p, v), ..r }) && b.cpu.ram
                == a.cpu.ram
        },
        Instr::Plp => {
            let v = a.cpu.ram@[stack_address(up) as int];
            b.cpu.r == (Registers { sp: up, p: (v & !0x30u8) | (r.p & 0x30), ..r }) && b.cpu.ram
                == a.cpu.ram
        },
        Instr::Jsr => b.cpu.r.sp == sp.wrapping_sub(1).wrapping_sub(1),
        Instr::Rts => b.cpu.r.sp == up.wrapping_add(1) && b.cpu.ram == a.cpu.ram,
        Instr::Rti => b.cpu.r.sp == up.wrapping_add(1).wrapping_add(1) && b.cpu.ram == a.cpu.ram,
        Instr::Brk => interrupt_entered(
            Nes { cpu: Cpu { r: Registers { pc: r.pc.wrapping_add(1), ..r }, ..a.cpu }, ..a },
            b,
            0xFFFE,
        ),
        _ => true,
    }
}

/// Loads and arithmetic on a read operand.
pub open spec fn is_read_op(ins: Instr) -> bool {
    ins == Instr::Adc || ins == Instr::And || ins == Instr::Cmp || ins == Instr::Eor || ins
        == Instr::Lda || ins == Instr::Ldx || ins == Instr::Ldy || ins == Instr::Ora || ins
        == Instr::Sbc || ins == Instr::Lax || ins == Instr::Las
}

/// Transfers and increments or decrements of X and Y.
pub open spec fn is_register_op(ins: Instr) -> bool {
    ins == Instr::Inx || ins == Instr::Iny || ins == Instr::Dex || ins == Instr::Dey || ins
        == Instr::Tax || ins == Instr::Tay || ins == Instr::Tsx || ins == Instr::Txa || ins
        == Instr::Tya || ins == Instr::Txs
}

/// The instructions that set or clear one flag.
pub open spec fn is_flag_op(ins: Instr) -> bool {
    ins == Instr::Clc || ins == Instr::Cld || ins == Instr::Cli || ins == Instr::Clv || ins
        == Instr::Sec || ins == Instr::Sed || ins == Instr::Sei
}

/// The registers after an instruction of the read group (loads and
/// arithmetic) with operand `v`.
pub open spec fn read_op_spec(ins: Instr, r: Registers, v: u8) -> Registers {
    match ins {
        Instr::Adc => crate::cpu::adc_spec(r, v),
        Instr::Sbc => crate::cpu::sbc_spec(r, v),
        Instr::Cmp => crate::cpu::compare_spec(r, r.a, v),
        Instr::And => Registers { a: r.a & v, p: crate::cpu::with_nz(r.p, r.a & v), ..r },
        Instr::Eor => Registers { a: r.a ^ v, p: crate::cpu::with_nz(r.p, r.a ^ v), ..r },
        Instr::Ora => Registers { a: r.a | v, p: crate::cpu::with_nz(r.p, r.a | v), ..r },
        Instr::Lda => Registers { a: v, p: crate::cpu::with_nz(r.p, v), ..r },
        Instr::Ldx => Registers { x: v, p: crate::cpu::with_nz(r.p, v), ..r },
        Instr::Ldy => Registers { y: v, p: crate::cpu::with_nz(r.p, v), ..r },
        Instr::Lax => Registers { a: v, x: v, p: crate::cpu::with_nz(crate::cpu::with_nz(r.p, v), v), ..r },
        Instr::Las => Registers {
            a: v & r.sp,
            x: v & r.sp,
            sp: v & r.sp,
            p: crate::cpu::with_nz(crate::cpu::with_nz(r.p, v & r.sp), v & r.sp),
            ..r
        },
        _ => r,
    }
}

/// The registers after a transfer or register increment or decrement.
pub open spec fn register_op_spec(ins: Instr, r: Registers) -> Registers {
    match ins {
        Instr::Inx => Registers { x: r.x.wrapping_add(1), p: crate::cpu::with_nz(r.p, r.x.wrapping_add(1)), ..r },
        Instr::Iny => Registers { y: r.y.wrapping_add(1), p: crate::cpu::with_nz(r.p, r.y.wrapping_add(1)), ..r },
        Instr::Dex => Registers { x: r.x.wrapping_sub(1), p: crate::cpu::with_nz(r.p, r.x.wrapping_sub(1)), ..r },
        Instr::Dey => Registers { y: r.y.wrapping_sub(1), p: crate::cpu::with_nz(r.p, r.y.wrapping_sub(1)), ..r },
        Instr::Tax => Registers { x: r.a, p: crate::cpu::with_nz(r.p, r.a), ..r },
        Instr::Tay => Registers { y: r.a, p: crate::cpu::with_nz(r.p, r.a), ..r },
        Instr::Tsx => Registers { x: r.sp, p: crate::cpu::with_nz(r.p, r.sp), ..r },
        Instr::Txa => Registers { a: r.x, p: crate::cpu::with_nz(r.p, r.x), ..r },
        Instr::Tya => Registers { a: r.y, p: crate::cpu::with_nz(r.p, r.y), ..r },
        Instr::Txs => Registers { sp: r.x, ..r },
        _ => r,
    }
}

/// The registers after a flag instruction (CLC ... SEI).
pub open spec fn flag_op_spec(ins: Instr, r: Registers) -> Registers {
    match ins {
        Instr::Clc => Registers { p: crate::cpu::with_flag(r.p, crate::cpu::CARRY_MASK, false), ..r },
        Instr::Cld => Registers { p: crate::cpu::with_flag(r.p, crate::cpu::DECIMAL_MODE_MASK, false), ..r },
        Instr::Cli => Registers { p: crate::cpu::with_flag(r.p, INTERRUPT_DISABLE_MASK, false), ..r },
        Instr::Clv => Registers { p: crate::cpu::with_flag(r.p, crate::cpu::OVERFLOW_MASK, false), ..r },
        Instr::Sec => Registers { p: crate::cpu::with_flag(r.p, crate::cpu::CARRY_MASK, true), ..r },
        Instr::Sed => Registers { p: crate::cpu::with_flag(r.p, crate::cpu::DECIMAL_MODE_MASK, true), ..r },
        Instr::Sei => Registers { p: crate::cpu::with_flag(r.p, INTERRUPT_DISABLE_MASK, true), ..r },
        _ => r,
    }
}

/// A transfer, or an increment or decrement of X or Y.
pub fn register_op(ins: Instr, r: Registers) -> (o: Registers)
    ensures
        o == register_op_spec(ins, r),
{
    match ins {
        Instr::Inx => with_nz_x(r, r.x.wrapping_add(1)),
        Instr::Iny => with_nz_y(r, r.y.wrapping_add(1)),
        Instr::Dex => with_nz_x(r, r.x.wrapping_sub(1)),
        Instr::Dey => with_nz_y(r, r.y.wrapping_sub(1)),
        Instr::Tax => with_nz_x(r, r.a),
        Instr::Tay => with_nz_y(r, r.a),
        Instr::Tsx => with_nz_x(r, r.sp),
        Instr::Txa => with_nz_a(r, r.x),
        Instr::Tya => with_nz_a(r, r.y),
        Instr::Txs => Registers { sp: r.x, ..r },
        _ => r,
    }
}

/// A flag instruction.
pub fn flag_op(ins: Instr, r: Registers) -> (o: Registers)
    ensures
        o == flag_op_spec(ins, r),
{
    let mut o = r;
    match ins {
        Instr::Clc => o.set_status_flag(crate::cpu::CARRY_MASK, false),
        Instr::Cld => o.set_status_flag(crate::cpu::DECIMAL_MODE_MASK, false),
        Instr::Cli => o.set_status_flag(INTERRUPT_DISABLE_MASK, false),
        Instr::Clv => o.set_status_flag(crate::cpu::OVERFLOW_MASK, false),
        Instr::Sec => o.set_status_flag(crate::cpu::CARRY_MASK, true),
        Instr::Sed => o.set_status_flag(crate::cpu::DECIMAL_MODE_MASK, true),
        Instr::Sei => o.set_status_flag(INTERRUPT_DISABLE_MASK, true),
        _ => {},
    }
    o
}

impl Nes {
    /// The read group: loads and arithmetic on an operand; an indexed read
    /// that crosses a page costs a cycle more. With an immediate operand
    /// from cartridge space the registers come out as `read_op_spec` says.
    fn execute_read(&mut self, ins: Instr, mode: Mode)
        requires
            old(self).wf(),
        ensures
            final(self).wf(),
            dots_kept(*old(self), *final(self)),
            mode == Mode::Immediate && old(self).cpu.r.pc >= 0x4020 ==> final(self).cpu.r == read_op_spec(
                ins,
                Registers { pc: old(self).cpu.r.pc.wrapping_add(1), ..old(self).cpu.r },
                old(self).board().read(old(self).cpu.r.pc),
            ),
    {
        let op = self.operand(mode);
        if op.page_crossing {
            self.add_cycles(1);
        }
        let r = self.cpu.r;
        let v = op.val;
        self.cpu.r = match ins {
            Instr::Adc => crate::cpu::adc(r, v),
            Instr::Sbc => crate::cpu::sbc(r, v),
            Instr::Cmp => crate::cpu::compare(r, r.a, v),
            Instr::And => with_nz_a(r, r.a & v),
            Instr::Eor => with_nz_a(r, r.a ^ v),
            Instr::Ora => with_nz_a(r, r.a | v),
            Instr::Lda => with_nz_a(r, v),
            Instr::Ldx => with_nz_x(r, v),
            Instr::Ldy => with_nz_y(r, v),
            Instr::Lax => with_nz_x(with_nz_a(r, v), v),
            Instr::Las => {
                let res = v & r.sp;
                Registers { sp: res, ..with_nz_x(with_nz_a(r, res), res) }
            },
            _ => r,
        };
    }
}

impl Nes {
    /// Comparisons, BIT, and the unofficial immediate operations.
    fn execute_compare_misc(&mut self, ins: Instr, mode: Mode)
        requires
            old(self).wf(),
        ensures
            final(self).wf(),
            dots_kept(*old(self), *final(self)),
    {
        let op = self.operand(mode);
        let r = self.cpu.r;
        let v = op.val;
        if ins == Instr::Arr {
            // AND, then ROR of A with C and V from bits 6 and 5
            let a = r.a & v;
            let c: u8 = if r.p & crate::cpu::CARRY_MASK != 0 {
                0x80
            } else {
                0
            };
            let res = a / 2 + c;
            let mut o = with_nz_a(r, res);
            let c6 = res & 0x40 != 0;
            o.set_status_flag(crate::cpu::CARRY_MASK, c6);
            o.set_status_flag(crate::cpu::OVERFLOW_MASK, c6 != (res & 0x20 != 0));
            self.cpu.r = o;
        } else {
            self.cpu.r = match ins {
                Instr::Cpx => crate::cpu::compare(r, r.x, v),
                Instr::Cpy => crate::cpu::compare(r, r.y, v),
                Instr::Bit => crate::cpu::bit_test(r, v),
                Instr::Anc => {
                    let mut o = with_nz_a(r, r.a & v);
                    o.set_status_flag(crate::cpu::CARRY_MASK, (r.a & v) >= 0x80);
                    o
                },
                Instr::Axs => {
                    let ax = r.a & r.x;
                    let res = ax.wrapping_sub(v);
                    let mut o = Registers { x: res, ..r };
                    o.set_status_flag(crate::cpu::CARRY_MASK, ax >= v);
                    o.update_nz_flags(res);
                    o
                },
                Instr::Xaa => Registers { a: r.x & v, ..r },
                Instr::Asr => {
                    let (o, res) = crate::cpu::shift(with_nz_a(r, r.a & v), r.a & v, false, false);
                    Registers { a: res, ..o }
                },
                _ => r,
            };
        }
    }

    /// Shifts and rotates, alone or combined with ORA, EOR, AND or ADC.
    fn execute_shift(&mut self, ins: Instr, mode: Mode)
        requires
            old(self).wf(),
        ensures
            final(self).wf(),
            dots_kept(*old(self), *final(self)),
    {
        let op = self.operand(mode);
        let left = ins == Instr::Asl || ins == Instr::Rol || ins == Instr::Slo || ins
            == Instr::Rla;
        let rotate = ins == Instr::Rol || ins == Instr::Ror || ins == Instr::Rla || ins
            == Instr::Rra;
        let (o, res) = crate::cpu::shift(self.cpu.r, op.val, left, rotate);
        self.cpu.r = o;
        self.write_operand(op.addr, res);
        let r = self.cpu.r;
        self.cpu.r = match ins {
            Instr::Slo => with_nz_a(r, r.a | res),
            Instr::Sre => with_nz_a(r, r.a ^ res),
            Instr::Rla => with_nz_a(r, r.a & res),
            Instr::Rra => crate::cpu::adc(r, res),
            _ => r,
        };
    }

    /// Memory increments and decrements, alone or with SBC or CMP.
    fn execute_step(&mut self, ins: Instr, mode: Mode)
        requires
            old(self).wf(),
        ensures
            final(self).wf(),
            dots_kept(*old(self), *final(self)),
    {
        let op = self.operand(mode);
        let res = if ins == Instr::Inc || ins == Instr::Isc {
            op.val.wrapping_add(1)
        } else {
            op.val.wrapping_sub(1)
        };
        self.cpu.r.update_nz_flags(res);
        self.write_operand(op.addr, res);
        let r = self.cpu.r;
        self.cpu.r = match ins {
            Instr::Isc => crate::cpu::sbc(r, res),
            Instr::Dcp => crate::cpu::compare(r, r.a, res),
            _ => r,
        };
    }

    /// Stores, including the unofficial ones that AND with the high byte.
    fn execute_store(&mut self, ins: Instr, mode: Mode)
        requires
            old(self).wf(),
        ensures
            final(self).wf(),
            dots_kept(*old(self), *final(self)),
    {
        let (addr, page_crossing) = self.address(mode);
        let r = self.cpu.r;
        let high = ((addr / 256) as u8).wrapping_add(1);
        if ins == Instr::Tas {
            self.cpu.r.sp = r.a & r.x;
        }
        let val = match ins {
            Instr::Sta => r.a,
            Instr::Stx => r.x,
            Instr::Sty => r.y,
            Instr::Aax => r.a & r.x,
            Instr::Axa => r.a & r.x & high,
            Instr::Shx => r.x & high,
            Instr::Shy => r.y & high,
            _ => r.a & r.x & high,
        };
        if !((ins == Instr::Shx || ins == Instr::Shy) && page_crossing) {
            self.write_byte(addr, val);
        }
    }
}

impl Nes {
    /// Pushes, pulls, subroutine calls and returns, and BRK.
    fn execute_stack(&mut self, ins: Instr, mode: Mode)
        requires
            old(self).wf(),
            is_stack_op(ins),
        ensures
            final(self).wf(),
            dots_kept(*old(self), *final(self)),
            stack_effect(*old(self), *final(self), ins),
    {
        match ins {
            Instr::Jsr => {
                let (addr, _) = self.address(mode);
                let ret = self.cpu.r.pc.wrapping_sub(1);
                self.cpu.r.pc = addr;
                self.push_word(ret);
            },
            Instr::Rts => {
                let a = self.pop_word();
                self.cpu.r.pc = a.wrapping_add(1);
            },
            Instr::Rti => {
                let v = self.pop_byte();
                self.cpu.r.p = (v & !0x30u8) | (self.cpu.r.p & 0x30);
                let a = self.pop_word();
                self.cpu.r.pc = a;
            },
            Instr::Brk => {
                self.cpu.r.pc = self.cpu.r.pc.wrapping_add(1);
                self.handle_interrupt(Interrupt::IRQ);
            },
            Instr::Pha => {
                let a = self.cpu.r.a;
                self.push_byte(a);
            },
            Instr::Php => {
                let p = self.cpu.r.p | 0x10;
                self.push_byte(p);
            },
            Instr::Pla => {
                let v = self.pop_byte();
                let r = self.cpu.r;
                self.cpu.r = with_nz_a(r, v);
            },
            _ => {
                let v = self.pop_byte();
                self.cpu.r.p = (v & !0x30u8) | (self.cpu.r.p & 0x30);
            },
        }
    }
}

} // verus!
