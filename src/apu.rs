//! The audio processing unit: two pulse channels, a triangle, a noise
//! generator and a delta modulation channel, clocked by a frame sequencer.
//!
//! Everything here is integer state. The levels that the channels put out
//! are handed to the host, which mixes and filters them into samples.
use vstd::prelude::*;

verus! {

/// CPU clock rate in Hz.
pub const CLOCK_FREQ: u64 = 1789773;

/// Output sample rate in Hz.
pub const SAMPLE_FREQ: u64 = 44100;

/// The canonical length-counter load values, indexed by the 5-bit index
/// written to a channel's high register.
pub open spec fn length_table() -> Seq<u8> {
    seq![
        10u8, 254, 20, 2, 40, 4, 80, 6, 160, 8, 60, 10, 14, 12, 26, 14,
        12, 16, 24, 18, 48, 20, 96, 22, 192, 24, 72, 26, 16, 28, 32, 30,
    ]
}

/// The four pulse waveforms, eight steps each.
pub open spec fn duty_table() -> Seq<u8> {
    seq![
        0u8, 1, 0, 0, 0, 0, 0, 0,
        0, 1, 1, 0, 0, 0, 0, 0,
        0, 1, 1, 1, 1, 0, 0, 0,
        1, 0, 0, 1, 1, 1, 1, 1,
    ]
}

/// Noise timer periods, indexed by the low nibble of 0x400E.
pub open spec fn noise_period_table() -> Seq<u16> {
    seq![4u16, 8, 16, 32, 64, 96, 128, 160, 202, 254, 380, 508, 762, 1016, 2034, 4068]
}

/// DMC timer periods, indexed by the low nibble of 0x4010.
pub open spec fn dmc_period_table() -> Seq<u16> {
    seq![428u16, 380, 340, 320, 286, 254, 226, 214, 190, 160, 142, 128, 106, 84, 72, 54]
}

/// Cycles between the steps of the 4-step sequence, by phase.
pub open spec fn four_step_cycles() -> Seq<u16> {
    seq![7456u16, 7458, 7458, 7458]
}

/// Cycles between the steps of the 5-step sequence, by phase.
pub open spec fn five_step_cycles() -> Seq<u16> {
    seq![7458u16, 7456, 7458, 7458, 7452]
}

/// The triangle's 32-step waveform: down from 15 to 0, then up again.
pub open spec fn triangle_level(step: u8) -> u8 {
    if step < 16 {
        (15 - step) as u8
    } else {
        (step - 16) as u8
    }
}

fn length_load(index: u8) -> (r: u8)
    requires
        index < 32,
    ensures
        r == length_table()[index as int],
{
    let t: [u8; 32] = [
        10, 254, 20, 2, 40, 4, 80, 6, 160, 8, 60, 10, 14, 12, 26, 14,
        12, 16, 24, 18, 48, 20, 96, 22, 192, 24, 72, 26, 16, 28, 32, 30,
    ];
    proof {
        assert(t@ =~= length_table());
    }
    t[index as usize]
}

fn duty_level(duty_cycle: u8, step: u8) -> (r: u8)
    requires
        duty_cycle < 4,
        step < 8,
    ensures
        r == duty_table()[duty_cycle * 8 + step],
{
    let t: [u8; 32] = [
        0, 1, 0, 0, 0, 0, 0, 0,
        0, 1, 1, 0, 0, 0, 0, 0,
        0, 1, 1, 1, 1, 0, 0, 0,
        1, 0, 0, 1, 1, 1, 1, 1,
    ];
    proof {
        assert(t@ =~= duty_table());
    }
    t[(duty_cycle * 8 + step) as usize]
}

fn noise_period(index: u8) -> (r: u16)
    requires
        index < 16,
    ensures
        r == noise_period_table()[index as int],
{
    let t: [u16; 16] = [4, 8, 16, 32, 64, 96, 128, 160, 202, 254, 380, 508, 762, 1016, 2034, 4068];
    proof {
        assert(t@ =~= noise_period_table());
    }
    t[index as usize]
}

fn dmc_period(index: u8) -> (r: u16)
    requires
        index < 16,
    ensures
        r == dmc_period_table()[index as int],
{
    let t: [u16; 16] = [428, 380, 340, 320, 286, 254, 226, 214, 190, 160, 142, 128, 106, 84, 72, 54];
    proof {
        assert(t@ =~= dmc_period_table());
    }
    t[index as usize]
}

/// The frame sequencer's two modes.
#[derive(PartialEq, Eq, Structural, Clone, Copy, Debug)]
pub enum FrameCounterMode {
    FourStep,
    FiveStep,
}

/// A channel's length counter: the channel is silent once it reaches 0.
#[derive(Clone, Copy)]
pub struct LengthCounter {
    /// Cleared by a channel's halt flag.
    pub enabled: bool,
    pub val: u8,
}

impl LengthCounter {
    pub fn new() -> (r: LengthCounter)
        ensures
            r == (LengthCounter { enabled: false, val: 0 }),
    {
        LengthCounter { enabled: false, val: 0 }
    }

    /// The counter after one length tick.
    #[verifier::opaque]
    pub open spec fn stepped(self) -> LengthCounter {
        if self.enabled && self.val > 0 {
            LengthCounter { val: (self.val - 1) as u8, ..self }
        } else {
            self
        }
    }

    /// Counts down by one if enabled and not yet 0.
    pub fn step(&mut self)
        ensures
            *final(self) == old(self).stepped(),
    {
        reveal(LengthCounter::stepped);
        if self.enabled && self.val > 0 {
            self.val = self.val - 1;
        }
    }

    /// Loads the counter from the length table.
    pub fn reload(&mut self, index: u8)
        requires
            index < 32,
        ensures
            *final(self) == (LengthCounter { val: length_table()[index as int], ..*old(self) }),
    {
        self.val = length_load(index);
    }
}

/// The volume envelope of a pulse or noise channel.
#[derive(Clone, Copy)]
pub struct Envelope {
    /// Set when the envelope decays; clear for constant volume.
    pub enabled: bool,
    pub looped: bool,
    /// A restart is requested.
    pub reset: bool,
    /// Divider period, also the constant volume; 0..=15.
    pub period: u8,
    /// Divider value.
    pub val: u8,
    /// Decay level; 0..=15.
    pub volume: u8,
}

impl Envelope {
    pub fn new() -> (r: Envelope)
        ensures
            r == (Envelope { enabled: false, looped: false, reset: false, period: 0, val: 0, volume: 0 }),
    {
        Envelope { enabled: false, looped: false, reset: false, period: 0, val: 0, volume: 0 }
    }

    pub open spec fn wf(self) -> bool {
        self.period <= 15 && self.volume <= 15
    }

    /// The envelope after one quarter-frame tick.
    #[verifier::opaque]
    pub open spec fn stepped(self) -> Envelope {
        if self.reset {
            Envelope { reset: false, volume: 15, val: self.period, ..self }
        } else if self.val > 0 {
            Envelope { val: (self.val - 1) as u8, ..self }
        } else {
            Envelope {
                val: self.period,
                volume: if self.volume > 0 {
                    (self.volume - 1) as u8
                } else if self.looped {
                    15
                } else {
                    0
                },
                ..self
            }
        }
    }

    /// The level that the envelope puts out.
    pub open spec fn level(self) -> u8 {
        if self.enabled {
            self.volume
        } else {
            self.period
        }
    }

    /// Clocks the divider; on a restart the decay level returns to 15.
    pub fn step(&mut self)
        requires
            old(self).wf(),
        ensures
            *final(self) == old(self).stepped(),
            final(self).wf(),
    {
        reveal(Envelope::stepped);
        if self.reset {
            self.reset = false;
            self.volume = 15;
            self.val = self.period;
            return ;
        }
        if self.val > 0 {
            self.val = self.val - 1;
            return ;
        }
        self.val = self.period;
        if self.volume > 0 {
            self.volume = self.volume - 1;
        } else if self.looped {
            self.volume = 15;
        }
    }

    /// The decay level, or the constant volume when decay is off.
    pub fn volume(&self) -> (r: u8)
        ensures
            r == self.level(),
    {
        if self.enabled {
            self.volume
        } else {
            self.period
        }
    }
}

/// A pulse (square wave) channel.
#[derive(Clone, Copy)]
pub struct Pulse {
    pub enabled: bool,
    /// Waveform selector, 0..=3.
    pub duty_cycle: u8,
    /// Position in the waveform, 0..=7.
    pub duty_val: u8,
    pub length_counter: LengthCounter,
    /// 11-bit timer period.
    pub timer_period: u16,
    pub timer_val: u16,
    pub envelope: Envelope,
    pub sweep_enabled: bool,
    pub sweep_period: u8,
    pub sweep_val: u8,
    pub sweep_negated: bool,
    /// Sweep shift count, 0..=7.
    pub sweep_shift: u8,
    pub sweep_reset: bool,
}

/// How far a sweep moves a timer period: the period shifted right.
pub open spec fn sweep_change(period: u16, shift: u8) -> int {
    (period >> (shift as u16)) as int
}

proof fn lemma_shift_right_le(x: u16, s: u16)
    requires
        s < 16,
    ensures
        x >> s <= x,
{
    assert(x >> s <= x) by (bit_vector)
        requires
            s < 16,
    ;
}

impl Pulse {
    pub fn new() -> (r: Pulse)
        ensures
            r.wf(),
            !r.enabled,
            r.length_counter.val == 0,
            r.timer_period == 0,
            r.duty_cycle == 0,
            r.duty_val == 0,
    {
        Pulse {
            enabled: false,
            duty_cycle: 0,
            duty_val: 0,
            length_counter: LengthCounter::new(),
            timer_period: 0,
            timer_val: 0,
            envelope: Envelope::new(),
            sweep_enabled: false,
            sweep_period: 0,
            sweep_val: 0,
            sweep_negated: false,
            sweep_shift: 0,
            sweep_reset: false,
        }
    }

    pub open spec fn wf(self) -> bool {
        &&& self.duty_cycle <= 3
        &&& self.duty_val <= 7
        &&& self.timer_period <= 0x7FF
        &&& self.sweep_shift <= 7
        &&& self.envelope.wf()
    }

    /// The channel after one timer clock.
    #[verifier::opaque]
    pub open spec fn stepped(self) -> Pulse {
        if self.timer_val > 0 {
            Pulse { timer_val: (self.timer_val - 1) as u16, ..self }
        } else {
            Pulse { timer_val: self.timer_period, duty_val: ((self.duty_val + 1) % 8) as u8, ..self }
        }
    }

    /// Whether the timer period is outside what the channel can play.
    pub open spec fn muted(self) -> bool {
        self.timer_period < 0x0008 || self.timer_period >= 0x07FF
    }

    /// The level that the channel puts out.
    pub open spec fn level(self) -> u8 {
        if !self.enabled || duty_table()[self.duty_cycle * 8 + self.duty_val] == 0
            || self.length_counter.val == 0 || self.muted() {
            0
        } else {
            self.envelope.level()
        }
    }

    /// The period a sweep aims at; the second pulse channel (`second`)
    /// negates with two's complement, the first with one's complement.
    pub open spec fn sweep_target(self, second: bool) -> int {
        if self.sweep_negated {
            self.timer_period - sweep_change(self.timer_period, self.sweep_shift) + (if second {
                0int
            } else {
                -1int
            })
        } else {
            self.timer_period + sweep_change(self.timer_period, self.sweep_shift)
        }
    }

    /// The channel after one sweep tick.
    #[verifier::opaque]
    pub open spec fn swept(self, second: bool) -> Pulse {
        if self.sweep_reset {
            Pulse { sweep_reset: false, sweep_val: self.sweep_period, ..self }
        } else if self.sweep_val > 0 {
            Pulse { sweep_val: (self.sweep_val - 1) as u8, ..self }
        } else {
            let target = self.sweep_target(second);
            Pulse {
                sweep_val: self.sweep_period,
                timer_period: if self.sweep_enabled && 0x08 <= target < 0x07FF {
                    target as u16
                } else {
                    self.timer_period
                },
                ..self
            }
        }
    }

    /// Clocks the timer; on underflow the waveform advances one step.
    pub fn step(&mut self)
        requires
            old(self).wf(),
        ensures
            *final(self) == old(self).stepped(),
            final(self).wf(),
    {
        reveal(Pulse::stepped);
        if self.timer_val > 0 {
            self.timer_val = self.timer_val - 1;
            return ;
        }
        self.timer_val = self.timer_period;
        self.duty_val = (self.duty_val + 1) % 8;
    }

    /// The current output level, 0..=15.
    pub fn output(&self) -> (r: u8)
        requires
            self.wf(),
        ensures
            r == self.level(),
    {
        let val = duty_level(self.duty_cycle, self.duty_val);
        let is_muted = self.timer_period < 0x0008 || self.timer_period >= 0x07FF;
        if !self.enabled || val == 0 || self.length_counter.val == 0 || is_muted {
            return 0;
        }
        self.envelope.volume()
    }

    /// Clocks the sweep unit, which may retune the timer period.
    pub fn step_sweep(&mut self, second: bool)
        requires
            old(self).wf(),
        ensures
            final(self).envelope == old(self).envelope,
            *final(self) == old(self).swept(second),
            final(self).wf(),
    {
        reveal(Pulse::swept);
        if self.sweep_reset {
            self.sweep_reset = false;
            self.sweep_val = self.sweep_period;
        } else if self.sweep_val > 0 {
            self.sweep_val = self.sweep_val - 1;
        } else {
            self.sweep_val = self.sweep_period;
            if self.sweep_enabled {
                let change_amount = self.timer_period >> (self.sweep_shift as u16);
                proof {
                    lemma_shift_right_le(self.timer_period, self.sweep_shift as u16);
                }
                let target: u16 = if self.sweep_negated {
                    if second {
                        self.timer_period - change_amount
                    } else if self.timer_period - change_amount >= 1 {
                        self.timer_period - change_amount - 1
                    } else {
                        // below the playable range: the period is kept
                        0
                    }
                } else {
                    self.timer_period + change_amount
                };
                if 0x08 <= target && target < 0x07FF {
                    self.timer_period = target;
                }
            }
        }
    }
}

/// The triangle channel.
#[derive(Clone, Copy)]
pub struct Triangle {
    pub enabled: bool,
    /// Position in the 32-step waveform.
    pub duty_val: u8,
    pub length_counter: LengthCounter,
    pub timer_period: u16,
    pub timer_val: u16,
    /// Cleared by the control flag, which also halts the length counter.
    pub linear_counter_enabled: bool,
    pub linear_counter: u8,
    pub linear_counter_period: u8,
    pub linear_counter_reset: bool,
}

impl Triangle {
    pub fn new() -> (r: Triangle)
        ensures
            r.wf(),
            !r.enabled,
            r.length_counter.val == 0,
            r.linear_counter == 0,
    {
        Triangle {
            enabled: false,
            duty_val: 0,
            length_counter: LengthCounter::new(),
            timer_period: 0,
            timer_val: 0,
            linear_counter_enabled: false,
            linear_counter: 0,
            linear_counter_period: 0,
            linear_counter_reset: false,
        }
    }

    pub open spec fn wf(self) -> bool {
        self.duty_val < 32 && self.timer_period <= 0x7FF
    }

    #[verifier::opaque]
    pub open spec fn stepped(self) -> Triangle {
        if self.timer_val > 0 {
            Triangle { timer_val: (self.timer_val - 1) as u16, ..self }
        } else {
            Triangle { timer_val: self.timer_period, duty_val: ((self.duty_val + 1) % 32) as u8, ..self }
        }
    }

    /// The channel after one quarter-frame tick of its linear counter.
    #[verifier::opaque]
    pub open spec fn linear_stepped(self) -> Triangle {
        Triangle {
            linear_counter: if self.linear_counter_reset {
                self.linear_counter_period
            } else if self.linear_counter > 0 {
                (self.linear_counter - 1) as u8
            } else {
                0
            },
            linear_counter_reset: self.linear_counter_reset && !self.linear_counter_enabled,
            ..self
        }
    }

    pub open spec fn level(self) -> u8 {
        if !self.enabled || self.linear_counter == 0 || self.length_counter.val == 0 {
            0
        } else {
            triangle_level(self.duty_val)
        }
    }

    /// Clocks the timer; on underflow the waveform advances one step.
    pub fn step(&mut self)
        requires
            old(self).wf(),
        ensures
            *final(self) == old(self).stepped(),
            final(self).wf(),
    {
        reveal(Triangle::stepped);
        if self.timer_val > 0 {
            self.timer_val = self.timer_val - 1;
            return ;
        }
        self.timer_val = self.timer_period;
        self.duty_val = (self.duty_val + 1) % 32;
    }

    /// Reloads the linear counter if requested, else counts it toward 0.
    pub fn step_linear_counter(&mut self)
        requires
            old(self).wf(),
        ensures
            *final(self) == old(self).linear_stepped(),
            final(self).wf(),
    {
        reveal(Triangle::linear_stepped);
        if self.linear_counter_reset {
            self.linear_counter = self.linear_counter_period;
        } else if self.linear_counter > 0 {
            self.linear_counter = self.linear_counter - 1;
        }
        if self.linear_counter_enabled {
            self.linear_counter_reset = false;
        }
    }

    /// The current output level, 0..=15.
    pub fn output(&self) -> (r: u8)
        requires
            self.wf(),
        ensures
            r == self.level(),
    {
        if !self.enabled || self.linear_counter == 0 || self.length_counter.val == 0 {
            return 0;
        }
        if self.duty_val < 16 {
            15 - self.duty_val
        } else {
            self.duty_val - 16
        }
    }
}

/// The noise channel: a 15-bit linear feedback shift register.
#[derive(Clone, Copy)]
pub struct Noise {
    pub enabled: bool,
    /// Short mode: feedback from bit 6 instead of bit 1.
    pub mode: bool,
    pub timer_period: u16,
    pub timer_val: u16,
    pub shift_register: u16,
    pub length_counter: LengthCounter,
    pub envelope: Envelope,
}

/// The shift register after one clock.
pub open spec fn lfsr_next(sr: u16, mode: bool) -> u16 {
    let feedback = ((sr >> (if mode { 6u16 } else { 1u16 })) & 1) ^ (sr & 1);
    (sr >> 1u16) | (feedback << 14u16)
}

impl Noise {
    /// A silent channel whose shift register holds 1.
    pub fn new() -> (r: Noise)
        ensures
            r.wf(),
            r.shift_register == 1,
            !r.enabled,
            !r.mode,
            r.timer_period == 0,
            r.timer_val == 0,
            r.length_counter.val == 0,
    {
        Noise {
            enabled: false,
            mode: false,
            timer_period: 0,
            timer_val: 0,
            shift_register: 1,
            length_counter: LengthCounter::new(),
            envelope: Envelope::new(),
        }
    }

    pub open spec fn wf(self) -> bool {
        self.envelope.wf()
    }

    #[verifier::opaque]
    pub open spec fn stepped(self) -> Noise {
        if self.timer_val > 0 {
            Noise { timer_val: (self.timer_val - 1) as u16, ..self }
        } else {
            Noise {
                timer_val: self.timer_period,
                shift_register: lfsr_next(self.shift_register, self.mode),
                ..self
            }
        }
    }

    pub open spec fn level(self) -> u8 {
        if !self.enabled || self.shift_register & 1 != 0 || self.length_counter.val == 0 {
            0
        } else {
            self.envelope.level()
        }
    }

    /// Clocks the timer; on underflow the shift register advances.
    pub fn step(&mut self)
        requires
            old(self).wf(),
        ensures
            *final(self) == old(self).stepped(),
            final(self).wf(),
    {
        reveal(Noise::stepped);
        if self.timer_val > 0 {
            self.timer_val = self.timer_val - 1;
            return ;
        }
        self.timer_val = self.timer_period;
        let tap: u16 = if self.mode { 6 } else { 1 };
        let feedback = ((self.shift_register >> tap) & 1) ^ (self.shift_register & 1);
        self.shift_register = (self.shift_register >> 1u16) | (feedback << 14u16);
    }

    /// The current output level, 0..=15.
    pub fn output(&self) -> (r: u8)
        ensures
            r == self.level(),
    {
        if !self.enabled || self.shift_register & 1 != 0 || self.length_counter.val == 0 {
            return 0;
        }
        self.envelope.volume()
    }
}

/// The delta modulation channel.
#[derive(Clone, Copy)]
pub struct Dmc {
    pub enabled: bool,
    pub silenced: bool,
    pub looped: bool,
    pub irq_enabled: bool,
    pub irq_pending: bool,
    pub timer_period: u16,
    pub timer_val: u16,
    pub shift_register: u8,
    pub bits_remaining: u8,
    /// Output level, 0..=127.
    pub volume: u8,
    pub curr_addr: u16,
    pub sample_addr: u16,
    pub curr_len: u16,
    pub sample_len: u16,
}

impl Dmc {
    pub fn new() -> (r: Dmc)
        ensures
            r.wf(),
            !r.enabled,
            r.curr_len == 0,
            !r.irq_pending,
    {
        Dmc {
            enabled: false,
            silenced: false,
            looped: false,
            irq_enabled: false,
            irq_pending: false,
            timer_period: 0,
            timer_val: 0,
            shift_register: 0,
            bits_remaining: 0,
            volume: 0,
            curr_addr: 0,
            sample_addr: 0,
            curr_len: 0,
            sample_len: 0,
        }
    }

    pub open spec fn wf(self) -> bool {
        self.volume <= 127 && self.bits_remaining <= 8
    }

    #[verifier::opaque]
    pub open spec fn stepped(self) -> Dmc {
        if self.timer_val > 0 {
            Dmc { timer_val: (self.timer_val - 1) as u16, ..self }
        } else if self.bits_remaining == 0 {
            Dmc { timer_val: self.timer_period, ..self }
        } else if self.silenced {
            Dmc {
                timer_val: self.timer_period,
                bits_remaining: (self.bits_remaining - 1) as u8,
                ..self
            }
        } else {
            Dmc {
                timer_val: self.timer_period,
                volume: if self.shift_register & 1 == 0 {
                    if self.volume >= 2 {
                        (self.volume - 2) as u8
                    } else {
                        self.volume
                    }
                } else if self.volume <= 125 {
                    (self.volume + 2) as u8
                } else {
                    self.volume
                },
                shift_register: self.shift_register >> 1u8,
                bits_remaining: (self.bits_remaining - 1) as u8,
                ..self
            }
        }
    }

    /// Starts the sample over from its first byte.
    pub fn restart_sample(&mut self)
        ensures
            *final(self) == (Dmc { curr_addr: old(self).sample_addr, curr_len: old(self).sample_len, ..*old(self) }),
    {
        self.curr_addr = self.sample_addr;
        self.curr_len = self.sample_len;
    }

    /// Clocks the timer; on underflow one bit moves the level by 2.
    pub fn step(&mut self)
        requires
            old(self).wf(),
        ensures
            *final(self) == old(self).stepped(),
            final(self).wf(),
            final(self).enabled == old(self).enabled,
    {
        reveal(Dmc::stepped);
        if self.timer_val > 0 {
            self.timer_val = self.timer_val - 1;
            return ;
        }
        self.timer_val = self.timer_period;
        if self.bits_remaining == 0 {
            return ;
        }
        if !self.silenced {
            if self.shift_register & 1 == 0 {
                if self.volume >= 2 {
                    self.volume = self.volume - 2;
                }
            } else if self.volume <= 125 {
                self.volume = self.volume + 2;
            }
            self.shift_register = self.shift_register >> 1u8;
        }
        self.bits_remaining = self.bits_remaining - 1;
    }

    /// The current output level, 0..=127.
    pub fn output(&self) -> (r: u8)
        ensures
            r == self.volume,
    {
        self.volume
    }
}

/// What one APU cycle asks of the rest of the machine.
#[derive(PartialEq, Eq, Structural, Clone, Copy, Debug)]
pub struct ApuEvents {
    /// The frame sequencer raised its interrupt.
    pub frame_irq: bool,
    /// An output sample falls due at this cycle.
    pub sample_due: bool,
}

/// The levels of the five channels at one moment, which the host mixes
/// into one sample.
#[derive(PartialEq, Eq, Structural, Clone, Copy, Debug)]
pub struct ChannelLevels {
    pub pulse1: u8,
    pub pulse2: u8,
    pub triangle: u8,
    pub noise: u8,
    pub dmc: u8,
}

/// The audio processing unit.
pub struct Apu {
    pub pulse1: Pulse,
    pub pulse2: Pulse,
    pub triangle: Triangle,
    pub noise: Noise,
    pub dmc: Dmc,
    pub frame_counter_mode: FrameCounterMode,
    pub frame_counter_val: u16,
    /// Step of the sequence, 0..=3.
    pub frame_counter_phase: u8,
    pub irq_enabled: bool,
    pub irq_pending: bool,
    /// The last value written to 0x4017.
    pub last_written_byte: u8,
    pub cycle: u64,
}

/// The number of output samples due by CPU cycle `cycle`.
pub open spec fn samples_by(cycle: int) -> int {
    cycle * SAMPLE_FREQ / CLOCK_FREQ as int
}

/// The value of the status register 0x4015.
pub open spec fn status_byte(a: Apu) -> u8 {
    (if a.pulse1.length_counter.val > 0 { 0x01u8 } else { 0u8 })
        | (if a.pulse2.length_counter.val > 0 { 0x02u8 } else { 0u8 })
        | (if a.triangle.length_counter.val > 0 { 0x04u8 } else { 0u8 })
        | (if a.noise.length_counter.val > 0 { 0x08u8 } else { 0u8 })
        | (if a.dmc.curr_len > 0 { 0x10u8 } else { 0u8 })
        | (if a.irq_pending { 0x40u8 } else { 0u8 })
        | (if a.dmc.irq_pending { 0x80u8 } else { 0u8 })
}

/// A pulse channel after a write to its control register (0x4000, 0x4004).
pub open spec fn pulse_control_written(p: Pulse, val: u8) -> Pulse {
    Pulse {
        duty_cycle: val / 64,
        length_counter: LengthCounter { enabled: val & 0x20 == 0, ..p.length_counter },
        envelope: Envelope {
            looped: val & 0x20 != 0,
            enabled: val & 0x10 == 0,
            period: val % 16,
            ..p.envelope
        },
        ..p
    }
}

/// A pulse channel after a write to its sweep register (0x4001, 0x4005).
pub open spec fn pulse_sweep_written(p: Pulse, val: u8) -> Pulse {
    Pulse {
        sweep_period: ((val / 16) % 8 + 1) as u8,
        sweep_negated: val & 0x08 != 0,
        sweep_shift: val % 8,
        sweep_reset: true,
        sweep_enabled: val & 0x80 != 0 && val % 8 != 0,
        ..p
    }
}

/// A pulse channel after a write to its timer-low register.
pub open spec fn pulse_timer_low_written(p: Pulse, val: u8) -> Pulse {
    Pulse { timer_period: ((p.timer_period / 256) * 256 + val) as u16, ..p }
}

/// A pulse channel after a write to its timer-high register: the length
/// counter reloads if the channel is on, the waveform restarts and the
/// envelope restarts.
pub open spec fn pulse_timer_high_written(p: Pulse, val: u8) -> Pulse {
    Pulse {
        timer_period: ((val % 8) as int * 256 + p.timer_period % 256) as u16,
        length_counter: if p.enabled {
            LengthCounter { val: length_table()[(val / 8) as int], ..p.length_counter }
        } else {
            p.length_counter
        },
        duty_val: 0,
        envelope: Envelope { reset: true, ..p.envelope },
        ..p
    }
}

/// A length counter after the status register switched its channel.
pub open spec fn length_enabled(l: LengthCounter, on: bool) -> LengthCounter {
    if on {
        l
    } else {
        LengthCounter { val: 0, ..l }
    }
}

/// The APU after a write of `val` to the register at `addr`.
pub open spec fn apu_written(a: Apu, addr: u16, val: u8) -> Apu {
    if 0x4000 <= addr <= 0x4007 {
        pulse_register_written(a, addr, val)
    } else if 0x4008 <= addr <= 0x400F {
        triangle_noise_written(a, addr, val)
    } else if 0x4010 <= addr <= 0x4013 {
        dmc_register_written(a, addr, val)
    } else if addr == 0x4015 {
        status_written(a, val)
    } else if addr == 0x4017 {
        frame_counter_written(a, val)
    } else {
        a
    }
}

/// The APU after a write to a pulse register, 0x4000..=0x4007.
pub open spec fn pulse_register_written(a: Apu, addr: u16, val: u8) -> Apu {
    if addr == 0x4000 {
        Apu { pulse1: pulse_control_written(a.pulse1, val), ..a }
    } else if addr == 0x4004 {
        Apu { pulse2: pulse_control_written(a.pulse2, val), ..a }
    } else if addr == 0x4001 {
        Apu { pulse1: pulse_sweep_written(a.pulse1, val), ..a }
    } else if addr == 0x4005 {
        Apu { pulse2: pulse_sweep_written(a.pulse2, val), ..a }
    } else if addr == 0x4002 {
        Apu { pulse1: pulse_timer_low_written(a.pulse1, val), ..a }
    } else if addr == 0x4006 {
        Apu { pulse2: pulse_timer_low_written(a.pulse2, val), ..a }
    } else if addr == 0x4003 {
        Apu { pulse1: pulse_timer_high_written(a.pulse1, val), ..a }
    } else if addr == 0x4007 {
        Apu { pulse2: pulse_timer_high_written(a.pulse2, val), ..a }
    } else {
        a
    }
}

/// The APU after a write to a triangle or noise register, 0x4008..=0x400F.
pub open spec fn triangle_noise_written(a: Apu, addr: u16, val: u8) -> Apu {
    if addr == 0x4008 {
        Apu {
            triangle: Triangle {
                length_counter: LengthCounter { enabled: val < 0x80, ..a.triangle.length_counter },
                linear_counter_enabled: val < 0x80,
                linear_counter_period: val % 128,
                ..a.triangle
            },
            ..a
        }
    } else if addr == 0x400A {
        Apu {
            triangle: Triangle {
                timer_period: ((a.triangle.timer_period / 256) * 256 + val) as u16,
                ..a.triangle
            },
            ..a
        }
    } else if addr == 0x400B {
        Apu {
            triangle: Triangle {
                timer_period: ((val % 8) as int * 256 + a.triangle.timer_period % 256) as u16,
                length_counter: if a.triangle.enabled {
                    LengthCounter { val: length_table()[(val / 8) as int], ..a.triangle.length_counter }
                } else {
                    a.triangle.length_counter
                },
                linear_counter_reset: true,
                ..a.triangle
            },
            ..a
        }
    } else if addr == 0x400C {
        Apu {
            noise: Noise {
                length_counter: LengthCounter { enabled: val & 0x20 == 0, ..a.noise.length_counter },
                envelope: Envelope {
                    looped: val & 0x20 != 0,
                    enabled: val & 0x10 == 0,
                    period: val % 16,
                    ..a.noise.envelope
                },
                ..a.noise
            },
            ..a
        }
    } else if addr == 0x400E {
        Apu {
            noise: Noise {
                mode: val >= 0x80,
                timer_period: noise_period_table()[(val % 16) as int],
                ..a.noise
            },
            ..a
        }
    } else if addr == 0x400F {
        Apu {
            noise: Noise {
                length_counter: if a.noise.enabled {
                    LengthCounter { val: length_table()[(val / 8) as int], ..a.noise.length_counter }
                } else {
                    a.noise.length_counter
                },
                envelope: Envelope { reset: true, ..a.noise.envelope },
                ..a.noise
            },
            ..a
        }
    } else {
        a
    }
}

/// The APU after a write to a DMC register, 0x4010..=0x4013.
pub open spec fn dmc_register_written(a: Apu, addr: u16, val: u8) -> Apu {
    if addr == 0x4010 {
        Apu {
            dmc: Dmc {
                irq_enabled: val >= 0x80,
                irq_pending: a.dmc.irq_pending && val >= 0x80,
                looped: val & 0x40 != 0,
                timer_period: dmc_period_table()[(val % 16) as int],
                ..a.dmc
            },
            ..a
        }
    } else if addr == 0x4011 {
        Apu { dmc: Dmc { volume: val % 128, ..a.dmc }, ..a }
    } else if addr == 0x4012 {
        Apu { dmc: Dmc { sample_addr: (0xC000 + val as int * 64) as u16, ..a.dmc }, ..a }
    } else if addr == 0x4013 {
        Apu { dmc: Dmc { sample_len: (1 + val as int * 16) as u16, ..a.dmc }, ..a }
    } else {
        a
    }
}

/// The APU after a write to the channel enables, 0x4015.
pub open spec fn status_written(a: Apu, val: u8) -> Apu {
    {
        Apu {
            pulse1: Pulse {
                enabled: val & 0x01 != 0,
                length_counter: length_enabled(a.pulse1.length_counter, val & 0x01 != 0),
                ..a.pulse1
            },
            pulse2: Pulse {
                enabled: val & 0x02 != 0,
                length_counter: length_enabled(a.pulse2.length_counter, val & 0x02 != 0),
                ..a.pulse2
            },
            triangle: Triangle {
                enabled: val & 0x04 != 0,
                length_counter: length_enabled(a.triangle.length_counter, val & 0x04 != 0),
                ..a.triangle
            },
            noise: Noise {
                enabled: val & 0x08 != 0,
                length_counter: length_enabled(a.noise.length_counter, val & 0x08 != 0),
                ..a.noise
            },
            dmc: dmc_enabled(a.dmc, val & 0x10 != 0),
            ..a
        }
    }
}

/// The APU after a write to the frame counter, 0x4017.
pub open spec fn frame_counter_written(a: Apu, val: u8) -> Apu {
    let b = Apu {
        last_written_byte: val,
        frame_counter_mode: if val < 0x80 {
            FrameCounterMode::FourStep
        } else {
            FrameCounterMode::FiveStep
        },
        frame_counter_val: if val < 0x80 { 7458 } else { 7457 },
        irq_enabled: val & 0x40 == 0,
        irq_pending: a.irq_pending && val & 0x40 == 0,
        frame_counter_phase: 0,
        ..a
    };
    if val < 0x80 {
        b
    } else {
        half_frame(quarter_frame(b))
    }
}

/// The APU after a quarter-frame tick: envelopes and the linear counter.
#[verifier::opaque]
pub open spec fn quarter_frame(a: Apu) -> Apu {
    Apu {
        pulse1: Pulse { envelope: a.pulse1.envelope.stepped(), ..a.pulse1 },
        pulse2: Pulse { envelope: a.pulse2.envelope.stepped(), ..a.pulse2 },
        noise: Noise { envelope: a.noise.envelope.stepped(), ..a.noise },
        triangle: a.triangle.linear_stepped(),
        ..a
    }
}

/// The APU after a half-frame tick: length counters, then sweeps.
#[verifier::opaque]
pub open spec fn half_frame(a: Apu) -> Apu {
    Apu {
        pulse1: Pulse {
            length_counter: a.pulse1.length_counter.stepped(),
            ..a.pulse1
        }.swept(false),
        pulse2: Pulse {
            length_counter: a.pulse2.length_counter.stepped(),
            ..a.pulse2
        }.swept(true),
        triangle: Triangle { length_counter: a.triangle.length_counter.stepped(), ..a.triangle },
        noise: Noise { length_counter: a.noise.length_counter.stepped(), ..a.noise },
        ..a
    }
}

/// The APU after the frame sequencer's part of one cycle.
pub open spec fn sequenced(a: Apu) -> Apu {
    if a.frame_counter_val > 0 {
        Apu { frame_counter_val: (a.frame_counter_val - 1) as u16, ..a }
    } else if a.frame_counter_mode == FrameCounterMode::FourStep {
        let b = Apu {
            frame_counter_val: (four_step_cycles()[a.frame_counter_phase as int] - 1) as u16,
            ..a
        };
        if a.frame_counter_phase == 0 || a.frame_counter_phase == 2 {
            Apu { frame_counter_phase: (a.frame_counter_phase + 1) as u8, ..quarter_frame(b) }
        } else if a.frame_counter_phase == 1 {
            Apu { frame_counter_phase: 2, ..half_frame(quarter_frame(b)) }
        } else {
            Apu {
                frame_counter_phase: 0,
                irq_pending: a.irq_pending || a.irq_enabled,
                ..half_frame(quarter_frame(b))
            }
        }
    } else {
        let b = Apu {
            frame_counter_val: (five_step_cycles()[a.frame_counter_phase as int] - 1) as u16,
            ..a
        };
        if a.frame_counter_phase == 0 || a.frame_counter_phase == 2 {
            Apu { frame_counter_phase: (a.frame_counter_phase + 1) as u8, ..half_frame(quarter_frame(b)) }
        } else if a.frame_counter_phase == 1 {
            Apu { frame_counter_phase: 2, ..quarter_frame(b) }
        } else {
            Apu { frame_counter_phase: 0, ..quarter_frame(b) }
        }
    }
}

/// The APU after the channel timers' part of one cycle, at cycle count
/// `cycle` (already advanced).
pub open spec fn timers_clocked(a: Apu) -> Apu {
    let t = Apu {
        triangle: a.triangle.stepped(),
        dmc: if a.dmc.enabled { a.dmc.stepped() } else { a.dmc },
        ..a
    };
    if a.cycle % 2 == 0 {
        Apu {
            pulse1: t.pulse1.stepped(),
            pulse2: t.pulse2.stepped(),
            noise: t.noise.stepped(),
            ..t
        }
    } else {
        t
    }
}

/// The APU after one CPU cycle (not counting a DMC fetch).
pub open spec fn apu_stepped(a: Apu) -> Apu {
    sequenced(timers_clocked(Apu { cycle: next_cycle(a.cycle), ..a }))
}

/// The cycle counter after one increment, wrapping at the top.
pub open spec fn next_cycle(c: u64) -> u64 {
    if c == u64::MAX {
        0
    } else {
        (c + 1) as u64
    }
}

impl Pulse {
    /// Register 0x4000 / 0x4004: duty, halt, constant volume, period.
    pub fn write_control(&mut self, val: u8)
        requires
            old(self).wf(),
        ensures
            *final(self) == pulse_control_written(*old(self), val),
            final(self).wf(),
    {
        self.duty_cycle = val / 64;
        self.length_counter.enabled = val & 0x20 == 0;
        self.envelope.looped = val & 0x20 != 0;
        self.envelope.enabled = val & 0x10 == 0;
        self.envelope.period = val % 16;
    }

    /// Register 0x4001 / 0x4005: sweep unit.
    pub fn write_sweep(&mut self, val: u8)
        requires
            old(self).wf(),
        ensures
            *final(self) == pulse_sweep_written(*old(self), val),
            final(self).wf(),
    {
        self.sweep_period = (val / 16) % 8 + 1;
        self.sweep_negated = val & 0x08 != 0;
        self.sweep_shift = val % 8;
        self.sweep_reset = true;
        self.sweep_enabled = val & 0x80 != 0 && self.sweep_shift != 0;
    }

    /// Register 0x4002 / 0x4006: low byte of the timer period.
    pub fn write_timer_low(&mut self, val: u8)
        requires
            old(self).wf(),
        ensures
            *final(self) == pulse_timer_low_written(*old(self), val),
            final(self).wf(),
    {
        self.timer_period = (self.timer_period / 256) * 256 + val as u16;
    }

    /// Register 0x4003 / 0x4007: high bits of the timer period and the
    /// length index.
    pub fn write_timer_high(&mut self, val: u8)
        requires
            old(self).wf(),
        ensures
            *final(self) == pulse_timer_high_written(*old(self), val),
            final(self).wf(),
    {
        self.timer_period = (val % 8) as u16 * 256 + self.timer_period % 256;
        if self.enabled {
            self.length_counter.reload(val / 8);
        }
        self.duty_val = 0;
        self.envelope.reset = true;
    }
}

impl Pulse {
    /// Switches the channel; a disabled channel's length counter is cleared.
    pub fn set_enabled(&mut self, on: bool)
        ensures
            *final(self) == (Pulse {
                enabled: on,
                length_counter: length_enabled(old(self).length_counter, on),
                ..*old(self)
            }),
    {
        self.enabled = on;
        if !on {
            self.length_counter.val = 0;
        }
    }
}

impl Triangle {
    /// Switches the channel; a disabled channel's length counter is cleared.
    pub fn set_enabled(&mut self, on: bool)
        ensures
            *final(self) == (Triangle {
                enabled: on,
                length_counter: length_enabled(old(self).length_counter, on),
                ..*old(self)
            }),
    {
        self.enabled = on;
        if !on {
            self.length_counter.val = 0;
        }
    }
}

impl Noise {
    /// Switches the channel; a disabled channel's length counter is cleared.
    pub fn set_enabled(&mut self, on: bool)
        ensures
            *final(self) == (Noise {
                enabled: on,
                length_counter: length_enabled(old(self).length_counter, on),
                ..*old(self)
            }),
    {
        self.enabled = on;
        if !on {
            self.length_counter.val = 0;
        }
    }
}

impl Dmc {
    /// Switches the channel and acknowledges its interrupt. Switching it on
    /// with no bytes left restarts the sample; switching it off drops the
    /// bytes left.
    pub fn set_enabled(&mut self, on: bool)
        ensures
            *final(self) == dmc_enabled(*old(self), on),
    {
        self.enabled = on;
        self.irq_pending = false;
        if !on {
            self.curr_len = 0;
        } else if self.curr_len == 0 {
            self.restart_sample();
        }
    }
}

/// The DMC after the status register switched it.
pub open spec fn dmc_enabled(d: Dmc, on: bool) -> Dmc {
    Dmc {
        enabled: on,
        irq_pending: false,
        curr_len: if !on {
            0
        } else if d.curr_len == 0 {
            d.sample_len
        } else {
            d.curr_len
        },
        curr_addr: if on && d.curr_len == 0 {
            d.sample_addr
        } else {
            d.curr_addr
        },
        ..d
    }
}

impl Apu {
    /// A powered-down APU in 4-step mode.
    pub fn new() -> (r: Apu)
        ensures
            r.wf(),
            !r.irq_pending,
            r.cycle == 0,
            r.frame_counter_mode == FrameCounterMode::FourStep,
    {
        Apu {
            pulse1: Pulse::new(),
            pulse2: Pulse::new(),
            triangle: Triangle::new(),
            noise: Noise::new(),
            dmc: Dmc::new(),
            frame_counter_mode: FrameCounterMode::FourStep,
            frame_counter_val: 7456,
            frame_counter_phase: 0,
            irq_enabled: false,
            irq_pending: false,
            last_written_byte: 0,
            cycle: 0,
        }
    }

    pub open spec fn wf(self) -> bool {
        &&& self.pulse1.wf()
        &&& self.pulse2.wf()
        &&& self.triangle.wf()
        &&& self.noise.wf()
        &&& self.dmc.wf()
        &&& self.frame_counter_phase <= 3
    }

    /// Reads the status register 0x4015, which also acknowledges the frame
    /// interrupt; every other address reads as 0.
    pub fn read_register(&mut self, addr: u16) -> (r: u8)
        ensures
            addr == 0x4015 ==> r == status_byte(*old(self)),
            addr == 0x4015 ==> *final(self) == (Apu { irq_pending: false, ..*old(self) }),
            addr != 0x4015 ==> r == 0 && *final(self) == *old(self),
    {
        if addr != 0x4015 {
            return 0;
        }
        let ret: u8 = (if self.pulse1.length_counter.val > 0 { 0x01u8 } else { 0u8 })
            | (if self.pulse2.length_counter.val > 0 { 0x02u8 } else { 0u8 })
            | (if self.triangle.length_counter.val > 0 { 0x04u8 } else { 0u8 })
            | (if self.noise.length_counter.val > 0 { 0x08u8 } else { 0u8 })
            | (if self.dmc.curr_len > 0 { 0x10u8 } else { 0u8 })
            | (if self.irq_pending { 0x40u8 } else { 0u8 })
            | (if self.dmc.irq_pending { 0x80u8 } else { 0u8 });
        self.irq_pending = false;
        ret
    }

    fn write_pulse_register(&mut self, addr: u16, val: u8)
        requires
            old(self).wf(),
            0x4000 <= addr <= 0x4007,
        ensures
            *final(self) == pulse_register_written(*old(self), addr, val),
            final(self).wf(),
    {
        if addr == 0x4000 {
            self.pulse1.write_control(val);
        } else if addr == 0x4004 {
            self.pulse2.write_control(val);
        } else if addr == 0x4001 {
            self.pulse1.write_sweep(val);
        } else if addr == 0x4005 {
            self.pulse2.write_sweep(val);
        } else if addr == 0x4002 {
            self.pulse1.write_timer_low(val);
        } else if addr == 0x4006 {
            self.pulse2.write_timer_low(val);
        } else if addr == 0x4003 {
            self.pulse1.write_timer_high(val);
        } else {
            self.pulse2.write_timer_high(val);
        }
    }

    fn write_triangle_noise_register(&mut self, addr: u16, val: u8)
        requires
            old(self).wf(),
            0x4008 <= addr <= 0x400F,
        ensures
            *final(self) == triangle_noise_written(*old(self), addr, val),
            final(self).wf(),
    {
        if addr == 0x4008 {
            self.triangle.length_counter.enabled = val < 0x80;
            self.triangle.linear_counter_enabled = val < 0x80;
            self.triangle.linear_counter_period = val % 128;
        } else if addr == 0x400A {
            self.triangle.timer_period = (self.triangle.timer_period / 256) * 256 + val as u16;
        } else if addr == 0x400B {
            self.triangle.timer_period = (val % 8) as u16 * 256 + self.triangle.timer_period % 256;
            if self.triangle.enabled {
                self.triangle.length_counter.reload(val / 8);
            }
            self.triangle.linear_counter_reset = true;
        } else if addr == 0x400C {
            self.noise.length_counter.enabled = val & 0x20 == 0;
            self.noise.envelope.looped = val & 0x20 != 0;
            self.noise.envelope.enabled = val & 0x10 == 0;
            self.noise.envelope.period = val % 16;
        } else if addr == 0x400E {
            self.noise.mode = val >= 0x80;
            self.noise.timer_period = noise_period(val % 16);
        } else if addr == 0x400F {
            if self.noise.enabled {
                self.noise.length_counter.reload(val / 8);
            }
            self.noise.envelope.reset = true;
        }
    }

    #[verifier::rlimit(60)]
    fn write_dmc_register(&mut self, addr: u16, val: u8)
        requires
            old(self).wf(),
            0x4010 <= addr <= 0x4013,
        ensures
            *final(self) == dmc_register_written(*old(self), addr, val),
            final(self).wf(),
    {
        if addr == 0x4010 {
            self.dmc.irq_enabled = val >= 0x80;
            if !self.dmc.irq_enabled {
                self.dmc.irq_pending = false;
            }
            self.dmc.looped = val & 0x40 != 0;
            self.dmc.timer_period = dmc_period(val % 16);
        } else if addr == 0x4011 {
            self.dmc.volume = val % 128;
        } else if addr == 0x4012 {
            self.dmc.sample_addr = 0xC000 + (val as u16) * 64;
        } else {
            self.dmc.sample_len = 1 + (val as u16) * 16;
        }
    }

    fn write_status(&mut self, val: u8)
        requires
            old(self).wf(),
        ensures
            *final(self) == status_written(*old(self), val),
            final(self).wf(),
    {
        self.pulse1.set_enabled(val & 0x01 != 0);
        self.pulse2.set_enabled(val & 0x02 != 0);
        self.triangle.set_enabled(val & 0x04 != 0);
        self.noise.set_enabled(val & 0x08 != 0);
        self.dmc.set_enabled(val & 0x10 != 0);
    }

    fn write_frame_counter(&mut self, val: u8)
        requires
            old(self).wf(),
        ensures
            *final(self) == frame_counter_written(*old(self), val),
            final(self).wf(),
            final(self).dmc == old(self).dmc,
    {
        self.last_written_byte = val;
        if val < 0x80 {
            self.frame_counter_val = 7458;
            self.frame_counter_mode = FrameCounterMode::FourStep;
        } else {
            self.frame_counter_val = 7457;
            self.frame_counter_mode = FrameCounterMode::FiveStep;
        }
        self.irq_enabled = val & 0x40 == 0;
        if !self.irq_enabled {
            self.irq_pending = false;
        }
        self.frame_counter_phase = 0;
        if val >= 0x80 {
            // with bit 7 set the write clocks envelopes, lengths and sweeps at once
            self.step_quarter_frame();
            self.step_half_frame();
        }
    }

    /// Writes a channel register (0x4000..=0x4013), the channel enables
    /// (0x4015) or the frame counter (0x4017); other addresses are ignored.
    pub fn write_register(&mut self, addr: u16, val: u8)
        requires
            old(self).wf(),
        ensures
            *final(self) == apu_written(*old(self), addr, val),
            final(self).wf(),
            addr == 0x4017 ==> final(self).dmc == old(self).dmc,
    {
        if 0x4000 <= addr && addr <= 0x4007 {
            self.write_pulse_register(addr, val);
        } else if 0x4008 <= addr && addr <= 0x400F {
            self.write_triangle_noise_register(addr, val);
        } else if 0x4010 <= addr && addr <= 0x4013 {
            self.write_dmc_register(addr, val);
        } else if addr == 0x4015 {
            self.write_status(val);
        } else if addr == 0x4017 {
            self.write_frame_counter(val);
        }
    }
}

/// Whether the DMC needs its next sample byte from memory.
pub open spec fn dmc_fetch_due(a: Apu) -> bool {
    a.dmc.enabled && a.dmc.bits_remaining == 0 && a.dmc.curr_len != 0
}

/// The DMC after it took in the sample byte `val`: the address moves on
/// (wrapping from 0xFFFF to 0x8000) and at the end of the sample it either
/// restarts (looped) or leaves its interrupt pending (if enabled).
pub open spec fn dmc_fetched(d: Dmc, val: u8) -> Dmc {
    let len = (d.curr_len - 1) as u16;
    let addr: u16 = if d.curr_addr == 0xFFFF { 0x8000 } else { (d.curr_addr + 1) as u16 };
    let e = Dmc { bits_remaining: 8, shift_register: val, curr_addr: addr, curr_len: len, ..d };
    if len == 0 && d.looped {
        Dmc { curr_addr: d.sample_addr, curr_len: d.sample_len, ..e }
    } else if len == 0 && d.irq_enabled {
        Dmc { irq_pending: true, ..e }
    } else {
        e
    }
}

/// The APU after zeros were written to the first `n` channel registers
/// from 0x4000 on.
pub open spec fn channels_cleared(a: Apu, n: nat) -> Apu
    decreases n,
{
    if n == 0 {
        a
    } else {
        apu_written(channels_cleared(a, (n - 1) as nat), (0x4000 + n - 1) as u16, 0)
    }
}

/// The APU after `n` cycles in which no DMC fetch falls due.
pub open spec fn apu_steps(a: Apu, n: nat) -> Apu
    decreases n,
{
    if n == 0 {
        a
    } else {
        apu_steps(apu_stepped(a), (n - 1) as nat)
    }
}

impl Apu {
    /// Envelopes and the triangle's linear counter.
    fn step_quarter_frame(&mut self)
        requires
            old(self).wf(),
        ensures
            *final(self) == quarter_frame(*old(self)),
            final(self).wf(),
            final(self).dmc == old(self).dmc,
            final(self).irq_enabled == old(self).irq_enabled,
            final(self).irq_pending == old(self).irq_pending,
            final(self).frame_counter_phase == old(self).frame_counter_phase,
            final(self).frame_counter_mode == old(self).frame_counter_mode,
            final(self).cycle == old(self).cycle,
    {
        reveal(quarter_frame);
        let mut e1 = self.pulse1.envelope;
        e1.step();
        let mut e2 = self.pulse2.envelope;
        e2.step();
        let mut en = self.noise.envelope;
        en.step();
        let mut t = self.triangle;
        t.step_linear_counter();
        self.pulse1.envelope = e1;
        self.pulse2.envelope = e2;
        self.noise.envelope = en;
        self.triangle = t;
    }

    /// Length counters, then the pulse sweeps.
    fn step_half_frame(&mut self)
        requires
            old(self).wf(),
        ensures
            *final(self) == half_frame(*old(self)),
            final(self).wf(),
            final(self).dmc == old(self).dmc,
            final(self).irq_enabled == old(self).irq_enabled,
            final(self).irq_pending == old(self).irq_pending,
            final(self).frame_counter_phase == old(self).frame_counter_phase,
            final(self).frame_counter_mode == old(self).frame_counter_mode,
            final(self).cycle == old(self).cycle,
    {
        reveal(half_frame);
        let mut sq1 = self.pulse1;
        let mut l1 = sq1.length_counter;
        l1.step();
        sq1.length_counter = l1;
        sq1.step_sweep(false);
        let mut sq2 = self.pulse2;
        let mut l2 = sq2.length_counter;
        l2.step();
        sq2.length_counter = l2;
        sq2.step_sweep(true);
        let mut lt = self.triangle.length_counter;
        lt.step();
        let mut ln = self.noise.length_counter;
        ln.step();
        self.pulse1 = sq1;
        self.pulse2 = sq2;
        self.triangle.length_counter = lt;
        self.noise.length_counter = ln;
    }

    /// The frame sequencer's part of a cycle; returns whether it raised the
    /// frame interrupt.
    fn step_frame_counter(&mut self) -> (irq: bool)
        requires
            old(self).wf(),
        ensures
            *final(self) == sequenced(*old(self)),
            final(self).wf(),
            final(self).dmc == old(self).dmc,
            irq == (old(self).frame_counter_val == 0 && old(self).frame_counter_mode
                == FrameCounterMode::FourStep && old(self).frame_counter_phase == 3
                && old(self).irq_enabled),
    {
        if self.frame_counter_val > 0 {
            self.frame_counter_val = self.frame_counter_val - 1;
            return false;
        }
        let phase = self.frame_counter_phase;
        match self.frame_counter_mode {
            FrameCounterMode::FourStep => {
                let t: [u16; 4] = [7456, 7458, 7458, 7458];
                proof {
                    assert(t@ =~= four_step_cycles());
                }
                self.frame_counter_val = t[phase as usize] - 1;
                if phase == 0 || phase == 2 {
                    self.step_quarter_frame();
                    self.frame_counter_phase = phase + 1;
                    false
                } else if phase == 1 {
                    self.step_quarter_frame();
                    self.step_half_frame();
                    self.frame_counter_phase = 2;
                    false
                } else {
                    self.step_quarter_frame();
                    self.step_half_frame();
                    if self.irq_enabled {
                        self.irq_pending = true;
                    }
                    self.frame_counter_phase = 0;
                    self.irq_enabled
                }
            },
            FrameCounterMode::FiveStep => {
                let t: [u16; 5] = [7458, 7456, 7458, 7458, 7452];
                proof {
                    assert(t@ =~= five_step_cycles());
                }
                self.frame_counter_val = t[phase as usize] - 1;
                if phase == 0 || phase == 2 {
                    self.step_quarter_frame();
                    self.step_half_frame();
                    self.frame_counter_phase = phase + 1;
                } else if phase == 1 {
                    self.step_quarter_frame();
                    self.frame_counter_phase = 2;
                } else {
                    self.step_quarter_frame();
                    self.frame_counter_phase = 0;
                }
                false
            },
        }
    }

    /// The channel timers' part of a cycle: the triangle and the DMC every
    /// cycle, the pulses and the noise every other cycle.
    fn step_timers(&mut self)
        requires
            old(self).wf(),
        ensures
            *final(self) == timers_clocked(*old(self)),
            final(self).wf(),
            final(self).dmc.enabled == old(self).dmc.enabled,
    {
        self.triangle.step();
        if self.dmc.enabled {
            self.dmc.step();
        }
        if self.cycle % 2 == 0 {
            self.pulse1.step();
            self.pulse2.step();
            self.noise.step();
        }
    }

    /// Advances one CPU cycle. The caller then serves a DMC fetch if one
    /// is due (see `dmc_read_address`), raises the frame interrupt if one
    /// was reported, and takes a sample of `levels` if one is due.
    pub fn step(&mut self) -> (r: ApuEvents)
        requires
            old(self).wf(),
        ensures
            *final(self) == apu_stepped(*old(self)),
            final(self).wf(),
            final(self).dmc.enabled == old(self).dmc.enabled,
            r.frame_irq == (old(self).frame_counter_val == 0 && old(self).frame_counter_mode
                == FrameCounterMode::FourStep && old(self).frame_counter_phase == 3
                && old(self).irq_enabled),
            r.sample_due == (samples_by(final(self).cycle + 1) != samples_by(
                final(self).cycle as int,
            )),
    {
        self.cycle = self.cycle.wrapping_add(1);
        self.step_timers();
        let frame_irq = self.step_frame_counter();
        let c = self.cycle as u128;
        let curr_sample = c * 44100 / 1789773;
        let next_sample = (c + 1) * 44100 / 1789773;
        ApuEvents { frame_irq, sample_due: curr_sample != next_sample }
    }

    /// The address of the sample byte that the DMC needs now, if any.
    pub fn dmc_read_address(&self) -> (r: Option<u16>)
        ensures
            r == (if dmc_fetch_due(*self) { Some(self.dmc.curr_addr) } else { None }),
    {
        if self.dmc.enabled && self.dmc.bits_remaining == 0 && self.dmc.curr_len != 0 {
            Some(self.dmc.curr_addr)
        } else {
            None
        }
    }

    /// Hands the DMC the sample byte read from `dmc_read_address`; returns
    /// whether the end of the sample raised the DMC interrupt.
    pub fn step_dmc_read(&mut self, val: u8) -> (irq: bool)
        requires
            old(self).wf(),
            dmc_fetch_due(*old(self)),
        ensures
            *final(self) == (Apu { dmc: dmc_fetched(old(self).dmc, val), ..*old(self) }),
            final(self).wf(),
            irq == (old(self).dmc.curr_len == 1 && !old(self).dmc.looped
                && old(self).dmc.irq_enabled),
    {
        self.dmc.bits_remaining = 8;
        self.dmc.shift_register = val;
        self.dmc.curr_addr = if self.dmc.curr_addr == 0xFFFF {
            0x8000
        } else {
            self.dmc.curr_addr + 1
        };
        self.dmc.curr_len = self.dmc.curr_len - 1;
        if self.dmc.curr_len == 0 {
            if self.dmc.looped {
                self.dmc.restart_sample();
            } else if self.dmc.irq_enabled {
                self.dmc.irq_pending = true;
                return true;
            }
        }
        false
    }

    /// The five channels' current output levels.
    pub fn levels(&self) -> (r: ChannelLevels)
        requires
            self.wf(),
        ensures
            r == (ChannelLevels {
                pulse1: self.pulse1.level(),
                pulse2: self.pulse2.level(),
                triangle: self.triangle.level(),
                noise: self.noise.level(),
                dmc: self.dmc.volume,
            }),
    {
        ChannelLevels {
            pulse1: self.pulse1.output(),
            pulse2: self.pulse2.output(),
            triangle: self.triangle.output(),
            noise: self.noise.output(),
            dmc: self.dmc.output(),
        }
    }

    fn step_quietly(&mut self, n: u8)
        requires
            old(self).wf(),
            !old(self).dmc.enabled,
        ensures
            *final(self) == apu_steps(*old(self), n as nat),
            final(self).wf(),
        decreases n,
    {
        if n > 0 {
            self.step();
            self.step_quietly(n - 1);
        }
    }

    /// Power-on: silences every channel, sets 4-step mode with the frame
    /// interrupt on, clears the channel registers and lets 12 cycles pass.
    pub fn initialize(&mut self)
        requires
            old(self).wf(),
        ensures
            final(self).wf(),
            *final(self) == apu_steps(
                channels_cleared(apu_written(apu_written(*old(self), 0x4015, 0), 0x4017, 0), 16),
                12,
            ),
    {
        proof {
            assert(0u8 & 0x10 == 0) by (bit_vector);
        }
        self.write_register(0x4015, 0);
        self.write_register(0x4017, 0);
        let mut addr: u16 = 0x4000;
        let ghost start = *self;
        while addr <= 0x400F
            invariant
                self.wf(),
                !self.dmc.enabled,
                0x4000 <= addr <= 0x4010,
                *self == channels_cleared(start, (addr - 0x4000) as nat),
            decreases 0x4010 - addr,
        {
            self.write_register(addr, 0);
            addr = addr + 1;
        }
        self.step_quietly(12);
    }
}

proof fn lemma_status_bit6(sq1: u8, sq2: u8, t: u8, n: u8, d: u8, f: u8, i: u8)
    by (bit_vector)
    requires
        sq1 == 0 || sq1 == 0x01,
        sq2 == 0 || sq2 == 0x02,
        t == 0 || t == 0x04,
        n == 0 || n == 0x08,
        d == 0 || d == 0x10,
        f == 0 || f == 0x40,
        i == 0 || i == 0x80,
    ensures
        (sq1 | sq2 | t | n | d | f | i) & 0x40 == f,
{
}

/// Bit 6 of the status register reports the frame interrupt, and a read
/// acknowledges it: read twice with no new interrupt in between, the
/// second read shows bit 6 clear.
pub proof fn lemma_status_read_clears_frame_irq(a: Apu)
    ensures
        (status_byte(a) & 0x40 != 0) == a.irq_pending,
        status_byte(Apu { irq_pending: false, ..a }) & 0x40 == 0,
{
    let sq1: u8 = if a.pulse1.length_counter.val > 0 { 0x01u8 } else { 0u8 };
    let sq2: u8 = if a.pulse2.length_counter.val > 0 { 0x02u8 } else { 0u8 };
    let t: u8 = if a.triangle.length_counter.val > 0 { 0x04u8 } else { 0u8 };
    let n: u8 = if a.noise.length_counter.val > 0 { 0x08u8 } else { 0u8 };
    let d: u8 = if a.dmc.curr_len > 0 { 0x10u8 } else { 0u8 };
    let f: u8 = if a.irq_pending { 0x40u8 } else { 0u8 };
    let i: u8 = if a.dmc.irq_pending { 0x80u8 } else { 0u8 };
    lemma_status_bit6(sq1, sq2, t, n, d, f, i);
    lemma_status_bit6(sq1, sq2, t, n, d, 0, i);
}

impl Apu {
    /// Soft reset: channels silenced, frame interrupt acknowledged, the
    /// frame counter rewritten with its last value, then 12 cycles.
    pub fn reset(&mut self)
        requires
            old(self).wf(),
        ensures
            final(self).wf(),
            *final(self) == apu_steps(
                apu_written(
                    Apu { irq_pending: false, ..apu_written(*old(self), 0x4015, 0) },
                    0x4017,
                    old(self).last_written_byte,
                ),
                12,
            ),
    {
        proof {
            assert(0u8 & 0x10 == 0) by (bit_vector);
        }
        self.write_register(0x4015, 0);
        self.irq_pending = false;
        let last = self.last_written_byte;
        self.write_register(0x4017, last);
        self.step_quietly(12);
    }
}

} // verus!
