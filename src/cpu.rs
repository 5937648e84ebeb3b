//! The 6502 register file and its status flags.
use vstd::prelude::*;

verus! {

pub const CARRY_MASK: u8 = 0x01;
pub const ZERO_MASK: u8 = 0x02;
pub const INTERRUPT_DISABLE_MASK: u8 = 0x04;
pub const DECIMAL_MODE_MASK: u8 = 0x08;
pub const BREAK_COMMAND_MASK: u8 = 0x10;
pub const OVERFLOW_MASK: u8 = 0x40;
pub const NEGATIVE_MASK: u8 = 0x80;

/// The status byte `p` with the bits of `mask` set (`on`) or cleared.
pub open spec fn with_flag(p: u8, mask: u8, on: bool) -> u8 {
    if on {
        p | mask
    } else {
        p & !mask
    }
}

/// The status byte after N and Z are set from the result `val`.
pub open spec fn with_nz(p: u8, val: u8) -> u8 {
    with_flag(with_flag(p, NEGATIVE_MASK, val & 0x80 != 0), ZERO_MASK, val == 0)
}

/// The CPU registers.
#[derive(Clone, Copy)]
pub struct Registers {
    pub pc: u16,
    pub sp: u8,
    pub a: u8,
    pub x: u8,
    pub y: u8,
    /// Status: C, Z, I, D, B, unused, V, N from bit 0 up.
    pub p: u8,
}

impl Registers {
    /// Power-on values: S = 0xFD and P = 0x24 (I set).
    pub fn new() -> (r: Registers)
        ensures
            r == Registers::new_spec(),
    {
        Registers { pc: 0, sp: 0xFD, a: 0, x: 0, y: 0, p: 0x24 }
    }

    pub fn set_status_flag(&mut self, mask: u8, set: bool)
        ensures
            *final(self) == (Registers { p: with_flag(old(self).p, mask, set), ..*old(self) }),
    {
        if set {
            self.p = self.p | mask;
        } else {
            self.p = self.p & !mask;
        }
    }

    pub fn get_status_flag(&self, mask: u8) -> (r: bool)
        ensures
            r == (self.p & mask != 0),
    {
        self.p & mask != 0
    }

    /// N takes bit 7 of `val`.
    pub fn update_negative_flag(&mut self, val: u8)
        ensures
            *final(self) == (Registers {
                p: with_flag(old(self).p, NEGATIVE_MASK, val & 0x80 != 0),
                ..*old(self)
            }),
    {
        self.set_status_flag(NEGATIVE_MASK, val & 0x80 != 0);
    }

    /// Z is set exactly when `val` is 0.
    pub fn update_zero_flag(&mut self, val: u8)
        ensures
            *final(self) == (Registers { p: with_flag(old(self).p, ZERO_MASK, val == 0), ..*old(self) }),
    {
        self.set_status_flag(ZERO_MASK, val == 0);
    }

    pub fn update_nz_flags(&mut self, val: u8)
        ensures
            *final(self) == (Registers { p: with_nz(old(self).p, val), ..*old(self) }),
    {
        self.update_negative_flag(val);
        self.update_zero_flag(val);
    }
}

/// The carry flag as a number.
pub open spec fn carry(p: u8) -> int {
    if p & CARRY_MASK != 0 {
        1
    } else {
        0
    }
}

/// ADC: A + M + C, with C the carry out and V set when both inputs have
/// one sign and the result the other.
pub open spec fn adc_spec(r: Registers, m: u8) -> Registers {
    let sum = r.a + m + carry(r.p);
    let res = (sum % 256) as u8;
    Registers {
        a: res,
        p: with_flag(
            with_flag(with_nz(r.p, res), CARRY_MASK, sum > 255),
            OVERFLOW_MASK,
            (!(m ^ r.a) & (res ^ r.a) & 0x80) != 0,
        ),
        ..r
    }
}

/// SBC: A - M - (1 - C), with C set when no borrow occurs and V set when
/// the inputs differ in sign and the result's sign differs from A's.
pub open spec fn sbc_spec(r: Registers, m: u8) -> Registers {
    let diff = r.a - m - (1 - carry(r.p));
    let res = ((diff + 256) % 256) as u8;
    Registers {
        a: res,
        p: with_flag(
            with_flag(with_nz(r.p, res), CARRY_MASK, diff >= 0),
            OVERFLOW_MASK,
            ((m ^ r.a) & (res ^ r.a) & 0x80) != 0,
        ),
        ..r
    }
}

/// CMP / CPX / CPY of `reg` with M: C is set when no borrow occurs.
pub open spec fn compare_spec(r: Registers, reg: u8, m: u8) -> Registers {
    let diff = (((reg - m) + 256) % 256) as u8;
    Registers { p: with_nz(with_flag(r.p, CARRY_MASK, reg >= m), diff), ..r }
}

/// The result of a shift or rotate and the carry flag it leaves.
pub open spec fn shifted(m: u8, left: bool, carry_in: int) -> (u8, bool) {
    if left {
        (((m * 2) % 256 + carry_in) as u8, m >= 128)
    } else {
        ((m / 2 + 128 * carry_in) as u8, m % 2 == 1)
    }
}

/// ADC.
pub fn adc(r: Registers, m: u8) -> (out: Registers)
    ensures
        out == adc_spec(r, m),
{
    let c: u16 = if r.p & CARRY_MASK != 0 {
        1
    } else {
        0
    };
    let sum: u16 = r.a as u16 + m as u16 + c;
    let res = (sum % 256) as u8;
    let overflow = (!(m ^ r.a) & (res ^ r.a) & 0x80) != 0;
    let mut o = r;
    o.update_nz_flags(res);
    o.set_status_flag(CARRY_MASK, sum > 255);
    o.set_status_flag(OVERFLOW_MASK, overflow);
    Registers { a: res, ..o }
}

/// SBC.
pub fn sbc(r: Registers, m: u8) -> (out: Registers)
    ensures
        out == sbc_spec(r, m),
{
    let borrow: i16 = if r.p & CARRY_MASK != 0 {
        0
    } else {
        1
    };
    let diff: i16 = r.a as i16 - m as i16 - borrow;
    let res = ((diff + 256) % 256) as u8;
    let overflow = ((m ^ r.a) & (res ^ r.a) & 0x80) != 0;
    let mut o = r;
    o.update_nz_flags(res);
    o.set_status_flag(CARRY_MASK, diff >= 0);
    o.set_status_flag(OVERFLOW_MASK, overflow);
    Registers { a: res, ..o }
}

/// CMP, CPX and CPY: compares `reg` with M.
pub fn compare(r: Registers, reg: u8, m: u8) -> (out: Registers)
    ensures
        out == compare_spec(r, reg, m),
{
    let diff = ((reg as i16 - m as i16 + 256) % 256) as u8;
    let mut o = r;
    o.set_status_flag(CARRY_MASK, reg >= m);
    o.update_nz_flags(diff);
    o
}

/// ASL, LSR, ROL and ROR on M: returns the result with the registers,
/// whose C takes the bit shifted out and whose N and Z follow the result.
pub fn shift(r: Registers, m: u8, left: bool, rotate: bool) -> (out: (Registers, u8))
    ensures
        ({
            let cin = if rotate { carry(r.p) } else { 0 };
            let (res, c) = shifted(m, left, cin);
            out.1 == res && out.0 == (Registers {
                p: with_flag(with_nz(r.p, res), CARRY_MASK, c),
                ..r
            })
        }),
{
    let cin: u8 = if rotate && r.p & CARRY_MASK != 0 {
        1
    } else {
        0
    };
    let (res, c) = if left {
        ((((m as u16) * 2) % 256) as u8 + cin, m >= 128)
    } else {
        (m / 2 + 128 * cin, m % 2 == 1)
    };
    let mut o = r;
    o.update_nz_flags(res);
    o.set_status_flag(CARRY_MASK, c);
    (o, res)
}

/// BIT: N and V from bits 7 and 6 of M, Z from A AND M.
pub fn bit_test(r: Registers, m: u8) -> (out: Registers)
    ensures
        out == (Registers {
            p: with_flag(
                with_flag(with_flag(r.p, NEGATIVE_MASK, m & 0x80 != 0), OVERFLOW_MASK, m & 0x40 != 0),
                ZERO_MASK,
                m & r.a == 0,
            ),
            ..r
        }),
{
    let mut o = r;
    o.set_status_flag(NEGATIVE_MASK, m & 0x80 != 0);
    o.set_status_flag(OVERFLOW_MASK, m & 0x40 != 0);
    o.update_zero_flag(m & r.a);
    o
}

/// The two interrupt lines.
#[derive(PartialEq, Eq, Structural, Clone, Copy, Debug)]
pub enum Interrupt {
    NMI,
    IRQ,
}

/// The CPU: registers, 2 KiB of work RAM, pending interrupts, cycle
/// counters and the two controller ports.
pub struct Cpu {
    pub cycle: u64,
    /// Cycles still to wait before the next instruction (DMA, DMC fetches
    /// and the length of the last instruction).
    pub stall_cycle: u64,
    pub controller1: crate::controller::Controller,
    pub controller2: crate::controller::Controller,
    pub ram: [u8; 2048],
    pub nmi_pending: bool,
    pub irq_pending: bool,
    pub r: Registers,
}

impl Cpu {
    pub fn new() -> (c: Cpu)
        ensures
            c.wf(),
            c.r == Registers::new_spec(),
            c.cycle == 0 && c.stall_cycle == 0,
            !c.nmi_pending && !c.irq_pending,
            c.ram@ == Seq::new(2048, |i: int| 0u8),
    {
        let c = Cpu {
            cycle: 0,
            stall_cycle: 0,
            controller1: crate::controller::Controller::new(),
            controller2: crate::controller::Controller::new(),
            ram: [0; 2048],
            nmi_pending: false,
            irq_pending: false,
            r: Registers::new(),
        };
        proof {
            assert(c.ram@ =~= Seq::new(2048, |i: int| 0u8));
        }
        c
    }

    pub open spec fn wf(&self) -> bool {
        self.controller1.wf() && self.controller2.wf()
    }

    /// Posts an interrupt: an IRQ only while I is clear, an NMI always.
    pub fn trigger_interrupt(&mut self, interrupt: Interrupt)
        ensures
            final(self).r == old(self).r,
            final(self).ram == old(self).ram,
            final(self).cycle == old(self).cycle,
            final(self).stall_cycle == old(self).stall_cycle,
            final(self).controller1 == old(self).controller1,
            final(self).controller2 == old(self).controller2,
            final(self).nmi_pending == (old(self).nmi_pending || interrupt == Interrupt::NMI),
            final(self).irq_pending == (old(self).irq_pending || (interrupt == Interrupt::IRQ
                && old(self).r.p & INTERRUPT_DISABLE_MASK == 0)),
    {
        match interrupt {
            Interrupt::NMI => {
                self.nmi_pending = true;
            },
            Interrupt::IRQ => {
                if self.r.p & INTERRUPT_DISABLE_MASK == 0 {
                    self.irq_pending = true;
                }
            },
        }
    }
}

impl Registers {
    /// The power-on register values, as `new` returns them.
    pub open spec fn new_spec() -> Registers {
        Registers { pc: 0, sp: 0xFD, a: 0, x: 0, y: 0, p: 0x24 }
    }
}

} // verus!
