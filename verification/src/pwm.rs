use crate::utils::Error;
use vstd::prelude::*;

verus! {

/// The register block of one PWM channel: `counter` holds the top value
/// that defines the cycle length, `width` the compare value that defines
/// how long the output stays high.
pub struct PwmRegisters {
    pub counter: u32,
    pub width: u32,
}

impl PwmRegisters {
    pub fn new() -> (r: PwmRegisters)
        ensures
            r.counter == 0,
            r.width == 0,
    {
        PwmRegisters { counter: 0, width: 0 }
    }
}

/// Driver of one PWM channel. Owns the channel's register block and caches
/// the last period written, since the design reads the period back from
/// the cache rather than from the register.
pub struct Pwm {
    pub device: PwmRegisters,
    pub period: u32,
}

impl Pwm {
    /// Wraps a channel and programs the default period of 255 ticks.
    pub fn new(device: PwmRegisters) -> (r: Pwm)
        ensures
            r.period == 255,
            r.device.counter == 255,
            r.device.width == device.width,
    {
        let mut pwm = Pwm { device, period: 0 };
        pwm.set_period(255);
        pwm
    }

    /// Writes the counter top value that defines the PWM cycle length and
    /// caches it as the duty reference.
    pub fn set_period(&mut self, period: u32)
        ensures
            final(self).period == period,
            final(self).device.counter == period,
            final(self).device.width == old(self).device.width,
    {
        self.period = period;
        self.device.counter = period;
    }

    /// The last period written, read from the cache, not the register.
    pub fn get_period(&self) -> (r: u32)
        ensures
            r == self.period,
    {
        self.period
    }

    /// The documented maximum duty, equal to the last-set period.
    pub fn max_duty_cycle(&self) -> (r: u16)
        ensures
            r == self.period as u16,
    {
        self.period as u16
    }

    /// Writes the compare/width register directly. Duty is absolute ticks;
    /// a value above the period is hardware-defined behaviour and is not
    /// rejected here.
    pub fn set_duty_cycle(&mut self, duty: u16) -> (r: Result<(), Error>)
        ensures
            final(self).device.width == duty as u32,
            final(self).device.counter == old(self).device.counter,
            final(self).period == old(self).period,
            r is Ok,
    {
        self.device.width = duty as u32;
        Ok(())
    }

    /// Reads the width register back.
    pub fn get_duty(&self) -> (r: u32)
        ensures
            r == self.device.width,
    {
        self.device.width
    }
}

} // verus!
