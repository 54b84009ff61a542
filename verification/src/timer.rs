use crate::utils::Error;
use vstd::prelude::*;

verus! {

/// The timer's register block: a free-running 64-bit counter and a 64-bit
/// compare value, each physically split across two 32-bit halves.
pub struct TimerRegisters {
    pub mtimel: u32,
    pub mtimeh: u32,
    pub mtimecmpl: u32,
    pub mtimecmph: u32,
}

/// The 64-bit value a (high, low) register pair stands for.
pub open spec fn combined(high: u32, low: u32) -> u64 {
    (((high as u64) << 32) | (low as u64)) as u64
}

impl TimerRegisters {
    /// The 64-bit counter the two counter halves stand for.
    pub open spec fn counter(self) -> u64 {
        combined(self.mtimeh, self.mtimel)
    }

    /// The 64-bit compare value the two compare halves stand for.
    pub open spec fn cmp_value(self) -> u64 {
        combined(self.mtimecmph, self.mtimecmpl)
    }

    pub fn new() -> (r: TimerRegisters)
        ensures
            r.counter() == 0,
            r.cmp_value() == 0,
    {
        let r = TimerRegisters { mtimel: 0, mtimeh: 0, mtimecmpl: 0, mtimecmph: 0 };
        proof {
            assert(combined(0u32, 0u32) == 0u64) by (bit_vector);
        }
        r
    }
}

/// The double-read protocol's decision step for a counter wider than the
/// bus: a read observed as `high1`, then `low`, then `high2` is consistent
/// only if the two high reads match; otherwise the low half may have
/// rolled over in between and the pair must be discarded.
pub fn combine_halves(high1: u32, low: u32, high2: u32) -> (r: Option<u64>)
    ensures
        r is Some <==> high1 == high2,
        high1 == high2 ==> r == Some(combined(high1, low)),
{
    if high1 == high2 {
        Some(((high1 as u64) << 32) | (low as u64))
    } else {
        None
    }
}

/// Splitting a 64-bit value into halves and recombining them is lossless.
pub proof fn lemma_combined_split(value: u64)
    ensures
        combined((value >> 32) as u32, value as u32) == value,
{
    assert(((((value >> 32) as u32) as u64) << 32) | ((value as u32) as u64) == value)
        by (bit_vector);
}

/// Driver of the timer block: owns the registers and caches the clock
/// frequency the counter ticks at.
pub struct Timer {
    pub device: TimerRegisters,
    pub clock_rate: u64,
}

/// A clock rate the tick arithmetic is defined for: at least 1 Hz, and no
/// more than one tick per nanosecond.
pub open spec fn valid_clock_rate(clock_rate: u64) -> bool {
    1 <= clock_rate <= 1_000_000_000
}

/// The length of one counter tick in nanoseconds, from the clock rate.
pub open spec fn tick_period_ns(clock_rate: u64) -> u64
    recommends
        valid_clock_rate(clock_rate),
{
    1_000_000_000u64 / clock_rate
}

/// The deadline `start` computes: the requested duration in ticks
/// (truncating division), added to the current counter with wraparound.
pub open spec fn countdown_deadline(count_ns: u64, clock_rate: u64, counter: u64) -> u64
    recommends
        valid_clock_rate(clock_rate),
{
    vstd::wrapping::u64_specs::wrapping_add(count_ns / tick_period_ns(clock_rate), counter)
}

impl Timer {
    /// Wraps the timer block, remembering the clock rate, and brings the
    /// hardware to a known state: counter zeroed, compare parked at the
    /// largest value so no match fires.
    pub fn new(device: TimerRegisters, clock_rate: u64) -> (r: Timer)
        requires
            valid_clock_rate(clock_rate),
        ensures
            r.clock_rate == clock_rate,
            r.device.counter() == 0,
            r.device.cmp_value() == u64::MAX,
    {
        let mut timer = Timer { device, clock_rate };
        timer.set_counter(0);
        timer.set_cmp(u64::MAX);
        timer
    }

    /// A countdown handle against this timer, initially not started.
    pub fn new_count_down(&self) -> (r: CountDown)
        ensures
            r.timeout is None,
    {
        CountDown { timeout: None }
    }

    /// Reads the 64-bit counter with the torn-read avoidance protocol:
    /// high, low, high again, accepted only when the two high reads match.
    /// On hardware an inconsistent pair is read again; a register value
    /// cannot tear mid-sequence here, so one attempt always suffices.
    pub fn get_counter(&self) -> (r: u64)
        ensures
            r == self.device.counter(),
    {
        let timeh: u32 = self.device.mtimeh;
        let timel: u32 = self.device.mtimel;
        let again: u32 = self.device.mtimeh;
        match combine_halves(timeh, timel, again) {
            Some(value) => value,
            None => 0,
        }
    }

    /// Reads the 64-bit compare value with the same double-read protocol.
    pub fn get_cmp(&self) -> (r: u64)
        ensures
            r == self.device.cmp_value(),
    {
        let comph: u32 = self.device.mtimecmph;
        let compl: u32 = self.device.mtimecmpl;
        let again: u32 = self.device.mtimecmph;
        match combine_halves(comph, compl, again) {
            Some(value) => value,
            None => 0,
        }
    }

    /// Writes the 64-bit compare value. The low half is parked at all-ones
    /// first, so the compare never momentarily holds a half-updated value
    /// that a match could fire against; then the high half, then the final
    /// low half.
    pub fn set_cmp(&mut self, value: u64)
        ensures
            final(self).device.cmp_value() == value,
            final(self).device.mtimel == old(self).device.mtimel,
            final(self).device.mtimeh == old(self).device.mtimeh,
            final(self).clock_rate == old(self).clock_rate,
    {
        self.device.mtimecmpl = u32::MAX;
        self.device.mtimecmph = (value >> 32) as u32;
        self.device.mtimecmpl = value as u32;
        proof {
            lemma_combined_split(value);
        }
    }

    /// Writes the 64-bit counter, ordering the half-writes as `set_cmp`
    /// does so the counter never momentarily passes through a value that
    /// could trigger a false compare match.
    pub fn set_counter(&mut self, value: u64)
        ensures
            final(self).device.counter() == value,
            final(self).device.mtimecmpl == old(self).device.mtimecmpl,
            final(self).device.mtimecmph == old(self).device.mtimecmph,
            final(self).clock_rate == old(self).clock_rate,
    {
        self.device.mtimel = u32::MAX;
        self.device.mtimeh = (value >> 32) as u32;
        self.device.mtimel = value as u32;
        proof {
            lemma_combined_split(value);
        }
    }
}

/// Reported by a countdown poll whose deadline has not been reached yet.
#[derive(Clone, Copy, Debug, PartialEq, Eq, Structural)]
pub struct WouldBlock;

/// A cooperative countdown against a timer. It holds only the computed
/// absolute deadline; the timer is handed to each call, so several
/// countdowns can poll one timer round-robin.
pub struct CountDown {
    pub timeout: Option<u64>,
}

impl CountDown {
    /// Arms the countdown: the deadline is the current counter plus the
    /// duration in ticks. Sub-tick durations round down to zero ticks;
    /// the addition wraps to tolerate 64-bit counter rollover.
    pub fn start(&mut self, timer: &Timer, count_ns: u64)
        requires
            valid_clock_rate(timer.clock_rate),
        ensures
            final(self).timeout == Some(
                countdown_deadline(count_ns, timer.clock_rate, timer.device.counter()),
            ),
    {
        let period: u64 = 1_000_000_000u64 / timer.clock_rate;
        proof {
            assert(1_000_000_000u64 / timer.clock_rate >= 1) by (nonlinear_arith)
                requires
                    1 <= timer.clock_rate <= 1_000_000_000u64,
            ;
        }
        let ticks: u64 = count_ns / period;
        self.timeout = Some(ticks.wrapping_add(timer.get_counter()));
    }

    /// Polls the countdown: would-block while the counter is below the
    /// deadline, ready from then on. The deadline stays armed, so the poll
    /// keeps answering ready until `start` or `cancel` is called.
    pub fn wait(&mut self, timer: &Timer) -> (r: Result<(), WouldBlock>)
        requires
            old(self).timeout is Some,
        ensures
            *final(self) == *old(self),
            r == (if timer.device.counter() >= old(self).timeout->Some_0 {
                Ok::<(), WouldBlock>(())
            } else {
                Err::<(), WouldBlock>(WouldBlock)
            }),
    {
        let timeout: u64 = match self.timeout {
            Some(t) => t,
            None => {
                return Err(WouldBlock);
            },
        };
        if timer.get_counter() < timeout {
            return Err(WouldBlock);
        }
        Ok(())
    }
}

/// A countdown that can be disarmed between polls.
pub trait Cancel {
    type Error;

    /// Whether the countdown is disarmed.
    spec fn is_cancelled(&self) -> bool;

    /// Disarms the countdown unconditionally.
    fn cancel(&mut self) -> (r: Result<(), Self::Error>)
        ensures
            final(self).is_cancelled(),
            r is Ok,
    ;
}

impl Cancel for CountDown {
    type Error = Error;

    open spec fn is_cancelled(&self) -> bool {
        self.timeout is None
    }

    fn cancel(&mut self) -> (r: Result<(), Error>) {
        self.timeout = None;
        Ok(())
    }
}

} // verus!
