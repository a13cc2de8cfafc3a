//! The speaker's register state: note duration, PWM period and duty cycle.
use vstd::prelude::*;

verus! {

/// The speaker settings the host writes through the speaker registers.
#[derive(Debug, Copy, Clone, PartialEq, Eq, Structural)]
pub struct RegisterState {
    /// The duration of the current note (0 = off)
    pub duration: u16,
    /// The PWM period (in 48kHz ticks)
    pub period: u16,
    /// The duty cycle (0 - 255)
    pub duty_cycle: u8,
    /// Whether the speaker config is dirty (needs to be sent to the PWM device)
    pub needs_update: bool,
}

impl RegisterState {
    /// Silence: no note, zero period and duty cycle, nothing to send.
    pub fn new() -> (r: RegisterState)
        ensures
            r == (RegisterState { duration: 0, period: 0, duty_cycle: 0, needs_update: false }),
    {
        RegisterState { duration: 0, period: 0, duty_cycle: 0, needs_update: false }
    }

    pub fn duty_cycle(&self) -> (r: u8)
        ensures
            r == self.duty_cycle,
    {
        self.duty_cycle
    }

    pub fn set_duty_cycle(&mut self, duty_cycle: u8)
        ensures
            *final(self) == (RegisterState { duty_cycle, ..*old(self) }),
    {
        self.duty_cycle = duty_cycle;
    }

    pub fn period(&self) -> (r: u16)
        ensures
            r == self.period,
    {
        self.period
    }

    pub fn set_period(&mut self, period: u16)
        ensures
            *final(self) == (RegisterState { period, ..*old(self) }),
    {
        self.period = period;
    }

    /// The high byte of the period.
    pub fn period_high(&self) -> (r: u8)
        ensures
            r == self.period / 256,
    {
        let r = (self.period >> 8) as u8;
        proof {
            let p = self.period;
            assert((p >> 8u16) as u8 == p / 256) by (bit_vector);
        }
        r
    }

    /// Replaces the high byte of the period with `period_high`.
    pub fn set_period_high(&mut self, period_high: u8)
        ensures
            *final(self) == (RegisterState {
                period: (period_high * 256 + old(self).period % 256) as u16,
                ..*old(self)
            }),
    {
        let p = self.period;
        self.period = (self.period & 0x00ff) | ((period_high as u16) << 8);
        proof {
            assert((p & 0x00ffu16) | ((period_high as u16) << 8u16) == period_high * 256 + p % 256)
                by (bit_vector);
        }
    }

    /// The low byte of the period.
    pub fn period_low(&self) -> (r: u8)
        ensures
            r == self.period % 256,
    {
        let r = (self.period & 0xff) as u8;
        proof {
            let p = self.period;
            assert((p & 0xffu16) as u8 == p % 256) by (bit_vector);
        }
        r
    }

    /// Replaces the low byte of the period with `period_low`.
    pub fn set_period_low(&mut self, period_low: u8)
        ensures
            *final(self) == (RegisterState {
                period: (old(self).period / 256 * 256 + period_low) as u16,
                ..*old(self)
            }),
    {
        let p = self.period;
        self.period = (self.period & 0xff00) | period_low as u16;
        proof {
            assert((p & 0xff00u16) | (period_low as u16) == p / 256 * 256 + period_low) by (bit_vector);
        }
    }

    pub fn duration(&self) -> (r: u16)
        ensures
            r == self.duration,
    {
        self.duration
    }

    /// Set the note duration; the new settings need sending to the PWM device.
    pub fn set_duration(&mut self, duration: u16)
        ensures
            *final(self) == (RegisterState { duration, needs_update: true, ..*old(self) }),
    {
        self.duration = duration;
        self.needs_update = true;
    }

    pub fn needs_update(&self) -> (r: bool)
        ensures
            r == self.needs_update,
    {
        self.needs_update
    }

    pub fn set_needs_update(&mut self, needs_update: bool)
        ensures
            *final(self) == (RegisterState { needs_update, ..*old(self) }),
    {
        self.needs_update = needs_update;
    }

    /// Whether a note is to be played.
    pub fn is_playing(&self) -> (r: bool)
        ensures
            r == (self.duration > 0),
    {
        self.duration > 0
    }

    /// The PWM compare value for the duty cycle: the share `duty_cycle / 255`
    /// of the period, rounded down.
    pub fn compare_ticks(&self) -> (r: u16)
        ensures
            r == self.period * self.duty_cycle / 255,
    {
        proof {
            assert(self.period * self.duty_cycle <= 0xFFFF * 0xFF) by (nonlinear_arith)
                requires self.period <= 0xFFFF, self.duty_cycle <= 0xFF;
        }
        let product = self.period as u32 * self.duty_cycle as u32;
        let r = product / 255;
        proof {
            assert(self.period * self.duty_cycle / 255 <= self.period) by (nonlinear_arith)
                requires self.duty_cycle <= 255, self.period >= 0;
        }
        r as u16
    }
}

impl Default for RegisterState {
    /// Silence: no note, zero period and duty cycle, nothing to send.
    fn default() -> (r: RegisterState)
        ensures
            r == (RegisterState { duration: 0, period: 0, duty_cycle: 0, needs_update: false }),
    {
        RegisterState::new()
    }
}

} // verus!
