//! Timing profile of a LIN bus: bus speed and the duration policies that the
//! transceiver applies around each transaction, all in nanoseconds.
use vstd::prelude::*;

verus! {

/// Number of nanoseconds in one second.
pub const NANOS_PER_SECOND: u32 = 1_000_000_000;

/// Bit periods that a break holds at the least.
pub const BREAK_MIN_BITS: u32 = 13;

/// Shortest wakeup pulse, in nanoseconds.
pub const WAKEUP_MIN_NS: u32 = 250_000;

/// Longest wakeup pulse that the LIN wakeup rule allows, in nanoseconds.
pub const WAKEUP_MAX_NS: u32 = 5_000_000;

/// LIN break duration. The LIN specification asks for at least 13 bits of break;
/// some devices need a bit or two more to be stable.
#[derive(Clone, Copy, Debug, PartialEq, Eq)]
pub enum LinBreakDuration {
    Minimum13Bits,
    Minimum13BitsPlus(u8),
}

impl LinBreakDuration {
    /// Number of bit periods the break is held.
    pub open spec fn bits(self) -> nat {
        match self {
            LinBreakDuration::Minimum13Bits => 13,
            LinBreakDuration::Minimum13BitsPlus(extra) => 13 + extra as nat,
        }
    }

    /// Break length for a given bit period.
    pub open spec fn duration(self, bit_period_ns: nat) -> nat {
        bit_period_ns * self.bits()
    }

    /// Get the duration in nanoseconds for the LIN break duration.
    pub fn get_duration_ns(&self, bit_period_ns: u32) -> (r: u32)
        requires
            self.duration(bit_period_ns as nat) <= u32::MAX,
        ensures
            r == self.duration(bit_period_ns as nat),
    {
        match self {
            LinBreakDuration::Minimum13Bits => bit_period_ns * BREAK_MIN_BITS,
            LinBreakDuration::Minimum13BitsPlus(extra) => bit_period_ns * (BREAK_MIN_BITS + *extra as u32),
        }
    }
}

/// LIN wakeup pulse duration. The LIN specification asks for at least 250 µs.
#[derive(Clone, Copy, Debug, PartialEq, Eq)]
pub enum LinWakeupDuration {
    Minimum250Microseconds,
    Minimum250MicrosecondsPlus(u32),
    Maximum5Milliseconds,
}

impl LinWakeupDuration {
    pub open spec fn duration(self) -> nat {
        match self {
            LinWakeupDuration::Minimum250Microseconds => 250_000,
            LinWakeupDuration::Minimum250MicrosecondsPlus(extra) => 250_000 + extra as nat,
            LinWakeupDuration::Maximum5Milliseconds => 5_000_000,
        }
    }

    /// Whether the pulse respects the LIN wakeup cap of 5 ms.
    pub fn is_within_wakeup_limit(&self) -> (r: bool)
        ensures
            r == (self.duration() <= WAKEUP_MAX_NS),
    {
        match self {
            LinWakeupDuration::Minimum250Microseconds => true,
            LinWakeupDuration::Minimum250MicrosecondsPlus(extra) => *extra <= WAKEUP_MAX_NS
                - WAKEUP_MIN_NS,
            LinWakeupDuration::Maximum5Milliseconds => true,
        }
    }

    /// Get the duration in nanoseconds for the LIN wakeup duration.
    pub fn get_duration_ns(&self) -> (r: u32)
        requires
            self.duration() <= u32::MAX,
        ensures
            r == self.duration(),
    {
        match self {
            LinWakeupDuration::Minimum250Microseconds => WAKEUP_MIN_NS,
            LinWakeupDuration::Minimum250MicrosecondsPlus(extra) => WAKEUP_MIN_NS + *extra,
            LinWakeupDuration::Maximum5Milliseconds => WAKEUP_MAX_NS,
        }
    }
}

/// How long to wait after sending a read header before reading the response,
/// so that the slave has time to answer. Typically 1 to 10 ms.
#[derive(Clone, Copy, Debug, PartialEq, Eq)]
pub enum LinReadDeviceResponseTimeout {
    NoDelay,
    DelayMicroseconds(u32),
    DelayMilliseconds(u32),
}

impl LinReadDeviceResponseTimeout {
    pub open spec fn duration(self) -> nat {
        match self {
            LinReadDeviceResponseTimeout::NoDelay => 0,
            LinReadDeviceResponseTimeout::DelayMicroseconds(us) => us as nat * 1_000,
            LinReadDeviceResponseTimeout::DelayMilliseconds(ms) => ms as nat * 1_000_000,
        }
    }

    /// Get the duration in nanoseconds for the LIN read device response timeout.
    pub fn get_duration_ns(&self) -> (r: u32)
        requires
            self.duration() <= u32::MAX,
        ensures
            r == self.duration(),
    {
        match self {
            LinReadDeviceResponseTimeout::NoDelay => 0,
            LinReadDeviceResponseTimeout::DelayMicroseconds(us) => *us * 1_000,
            LinReadDeviceResponseTimeout::DelayMilliseconds(ms) => *ms * 1_000_000,
        }
    }
}

/// How long to wait after a transaction (send or read) before the next one.
/// Typically 1 to 2 ms.
#[derive(Clone, Copy, Debug, PartialEq, Eq)]
pub enum LinInterFrameSpace {
    NoDelay,
    DelayMicroseconds(u32),
    DelayMilliseconds(u32),
}

impl LinInterFrameSpace {
    pub open spec fn duration(self) -> nat {
        match self {
            LinInterFrameSpace::NoDelay => 0,
            LinInterFrameSpace::DelayMicroseconds(us) => us as nat * 1_000,
            LinInterFrameSpace::DelayMilliseconds(ms) => ms as nat * 1_000_000,
        }
    }

    /// Get the duration in nanoseconds for the LIN inter-frame space.
    pub fn get_duration_ns(&self) -> (r: u32)
        requires
            self.duration() <= u32::MAX,
        ensures
            r == self.duration(),
    {
        match self {
            LinInterFrameSpace::NoDelay => 0,
            LinInterFrameSpace::DelayMicroseconds(us) => *us * 1_000,
            LinInterFrameSpace::DelayMilliseconds(ms) => *ms * 1_000_000,
        }
    }
}

/// LIN bus speeds that the transceiver supports, in bits per second.
#[derive(Clone, Copy, Debug, PartialEq, Eq)]
pub enum LinBusSpeed {
    Baud9600,
    Baud10400,
    Baud19200,
    Baud20000,
}

impl LinBusSpeed {
    pub open spec fn baud_rate(self) -> nat {
        match self {
            LinBusSpeed::Baud9600 => 9600,
            LinBusSpeed::Baud10400 => 10400,
            LinBusSpeed::Baud19200 => 19200,
            LinBusSpeed::Baud20000 => 20000,
        }
    }

    /// Time of one bit, truncated to whole nanoseconds.
    pub open spec fn bit_period(self) -> nat {
        1_000_000_000nat / self.baud_rate()
    }

    /// Get the baud rate in bits per second.
    pub fn get_baud_rate(&self) -> (r: u32)
        ensures
            r == self.baud_rate(),
    {
        match self {
            LinBusSpeed::Baud9600 => 9600,
            LinBusSpeed::Baud10400 => 10400,
            LinBusSpeed::Baud19200 => 19200,
            LinBusSpeed::Baud20000 => 20000,
        }
    }

    /// Get the bit period in nanoseconds: the time it takes to send one bit.
    pub fn get_bit_period_ns(&self) -> (r: u32)
        ensures
            r == self.bit_period(),
            r * self.baud_rate() <= NANOS_PER_SECOND < (r + 1) * self.baud_rate(),
    {
        let r = NANOS_PER_SECOND / self.get_baud_rate();
        proof {
            lemma_bit_period_rounding(*self);
        }
        r
    }
}

/// The bit period is the baud rate's share of one second, rounded down: it
/// times the baud rate stays within one baud of a second, never over it.
pub proof fn lemma_bit_period_rounding(speed: LinBusSpeed)
    ensures
        speed.bit_period() * speed.baud_rate() <= 1_000_000_000 < (speed.bit_period() + 1)
            * speed.baud_rate(),
{
    match speed {
        LinBusSpeed::Baud9600 => assert(104_166 * 9600 <= 1_000_000_000 < 104_167 * 9600),
        LinBusSpeed::Baud10400 => assert(96_153 * 10400 <= 1_000_000_000 < 96_154 * 10400),
        LinBusSpeed::Baud19200 => assert(52_083 * 19200 <= 1_000_000_000 < 52_084 * 19200),
        LinBusSpeed::Baud20000 => assert(50_000 * 20000 <= 1_000_000_000 < 50_001 * 20000),
    }
}

/// Configuration of the LIN bus.
#[derive(Clone, Copy, Debug, PartialEq, Eq)]
pub struct LinBusConfig {
    /// LIN bus speed, in bits per second.
    pub speed: LinBusSpeed,
    /// Duration of the break signal at the beginning of a frame.
    pub break_duration: LinBreakDuration,
    /// Duration of the wakeup signal at the beginning of communication.
    pub wakeup_duration: LinWakeupDuration,
    /// How long to wait after sending a read header before reading the response.
    pub read_device_response_timeout: LinReadDeviceResponseTimeout,
    /// How long to wait after a frame before the next one.
    pub inter_frame_space: LinInterFrameSpace,
}

impl LinBusConfig {
    /// The broadly compatible LIN 2.x settings used when none are given.
    pub open spec fn spec_default() -> LinBusConfig {
        LinBusConfig {
            speed: LinBusSpeed::Baud19200,
            break_duration: LinBreakDuration::Minimum13Bits,
            wakeup_duration: LinWakeupDuration::Minimum250Microseconds,
            read_device_response_timeout: LinReadDeviceResponseTimeout::DelayMilliseconds(2),
            inter_frame_space: LinInterFrameSpace::DelayMilliseconds(1),
        }
    }

    /// Break length under this configuration.
    pub open spec fn break_ns(self) -> nat {
        self.break_duration.duration(self.speed.bit_period())
    }

    /// Every duration of the profile can be counted in a `u32` of nanoseconds.
    pub open spec fn durations_fit(self) -> bool {
        &&& self.break_ns() <= u32::MAX
        &&& self.wakeup_duration.duration() <= u32::MAX
        &&& self.read_device_response_timeout.duration() <= u32::MAX
        &&& self.inter_frame_space.duration() <= u32::MAX
    }

    /// Whether every duration of the profile fits in a `u32` of nanoseconds.
    pub fn durations_fit_u32(&self) -> (r: bool)
        ensures
            r == self.durations_fit(),
    {
        let bit_period = self.speed.get_bit_period_ns() as u64;
        let bits: u64 = match self.break_duration {
            LinBreakDuration::Minimum13Bits => 13,
            LinBreakDuration::Minimum13BitsPlus(extra) => 13 + extra as u64,
        };
        let wakeup: u64 = match self.wakeup_duration {
            LinWakeupDuration::Minimum250Microseconds => 250_000,
            LinWakeupDuration::Minimum250MicrosecondsPlus(extra) => 250_000 + extra as u64,
            LinWakeupDuration::Maximum5Milliseconds => 5_000_000,
        };
        let timeout: u64 = match self.read_device_response_timeout {
            LinReadDeviceResponseTimeout::NoDelay => 0,
            LinReadDeviceResponseTimeout::DelayMicroseconds(us) => us as u64 * 1_000,
            LinReadDeviceResponseTimeout::DelayMilliseconds(ms) => ms as u64 * 1_000_000,
        };
        let space: u64 = match self.inter_frame_space {
            LinInterFrameSpace::NoDelay => 0,
            LinInterFrameSpace::DelayMicroseconds(us) => us as u64 * 1_000,
            LinInterFrameSpace::DelayMilliseconds(ms) => ms as u64 * 1_000_000,
        };
        assert(bit_period * bits <= 104_166 * 268) by (nonlinear_arith)
            requires
                bit_period <= 104_166,
                bits <= 268,
        ;
        let max = u32::MAX as u64;
        bit_period * bits <= max && wakeup <= max && timeout <= max && space <= max
    }
}

impl Default for LinBusConfig {
    fn default() -> (r: Self)
        ensures
            r == LinBusConfig::spec_default(),
    {
        LinBusConfig {
            speed: LinBusSpeed::Baud19200,
            break_duration: LinBreakDuration::Minimum13Bits,
            wakeup_duration: LinWakeupDuration::Minimum250Microseconds,
            read_device_response_timeout: LinReadDeviceResponseTimeout::DelayMilliseconds(2),
            inter_frame_space: LinInterFrameSpace::DelayMilliseconds(1),
        }
    }
}

} // verus!
