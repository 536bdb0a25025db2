//! The transceiver driver: it owns the UART, the break pin, the delay source
//! and the timing profile, and lays out each operation as the exact sequence of
//! pin changes, delays and UART writes that the bus needs.
use vstd::prelude::*;

use crate::config::{LinBusConfig, WAKEUP_MAX_NS};
use crate::frame::{frame_bytes, valid_data_len};
use crate::parser::LIN_SYNC_BYTE;

verus! {

/// One thing asked of the hardware, in the order of a sequence.
#[derive(Clone, Copy, Debug, PartialEq, Eq)]
pub enum LinStep {
    /// Drive the break pin high: the bus is held dominant.
    BreakPinHigh,
    /// Drive the break pin low: the bus is released.
    BreakPinLow,
    /// Wait this many nanoseconds.
    DelayNs(u32),
    /// Write one byte to the UART.
    Write(u8),
    /// Wait until the UART has sent every byte written so far.
    Flush,
    /// Drain the UART through a response parser until it has nothing more or
    /// the reply is complete.
    ReadResponse,
}

/// Break: hold the pin for the break duration, release it, then hold the
/// released state for one bit period as the break delimiter.
pub open spec fn break_steps(config: LinBusConfig) -> Seq<LinStep> {
    seq![
        LinStep::BreakPinHigh,
        LinStep::DelayNs(config.break_ns() as u32),
        LinStep::BreakPinLow,
        LinStep::DelayNs(config.speed.bit_period() as u32),
    ]
}

/// Wakeup: assert the pin for the wakeup duration, then stay released as long.
pub open spec fn wakeup_steps(config: LinBusConfig) -> Seq<LinStep> {
    let d = config.wakeup_duration.duration() as u32;
    seq![LinStep::BreakPinHigh, LinStep::DelayNs(d), LinStep::BreakPinLow, LinStep::DelayNs(d)]
}

/// One UART write for each byte, in order.
pub open spec fn write_steps(bytes: Seq<u8>) -> Seq<LinStep> {
    bytes.map_values(|b: u8| LinStep::Write(b))
}

/// Sending a frame: break, the frame's bytes, a flush, the inter-frame space.
pub open spec fn send_frame_steps(config: LinBusConfig, frame: Seq<u8>) -> Seq<LinStep> {
    break_steps(config) + write_steps(frame) + seq![
        LinStep::Flush,
        LinStep::DelayNs(config.inter_frame_space.duration() as u32),
    ]
}

/// Reading a frame: the inter-frame space, break, the header, the response
/// timeout, the response, and the inter-frame space again.
pub open spec fn read_frame_steps(config: LinBusConfig, id: u8) -> Seq<LinStep> {
    let space = LinStep::DelayNs(config.inter_frame_space.duration() as u32);
    seq![space] + break_steps(config) + seq![
        LinStep::Write(LIN_SYNC_BYTE),
        LinStep::Write(id),
        LinStep::DelayNs(config.read_device_response_timeout.duration() as u32),
        LinStep::ReadResponse,
        space,
    ]
}

/// MCP2003A LIN transceiver.
pub struct Mcp2003a<UART, GPIO, DELAY> {
    uart: UART,
    break_pin: GPIO,
    delay: DELAY,
    config: LinBusConfig,
}

impl<UART, GPIO, DELAY> Mcp2003a<UART, GPIO, DELAY> {
    pub closed spec fn spec_uart(&self) -> UART {
        self.uart
    }

    pub closed spec fn spec_break_pin(&self) -> GPIO {
        self.break_pin
    }

    pub closed spec fn spec_delay(&self) -> DELAY {
        self.delay
    }

    /// The timing profile in force.
    pub closed spec fn spec_config(&self) -> LinBusConfig {
        self.config
    }

    /// Create a new MCP2003A transceiver instance with the default timing profile.
    ///
    /// * `uart` - UART interface for data to and from the transceiver.
    /// * `break_pin` - GPIO pin for the break signal.
    /// * `delay` - Delay source for signal timing.
    pub fn new(uart: UART, break_pin: GPIO, delay: DELAY) -> (r: Self)
        ensures
            r.spec_uart() == uart,
            r.spec_break_pin() == break_pin,
            r.spec_delay() == delay,
            r.spec_config() == LinBusConfig::spec_default(),
    {
        Mcp2003a { uart, break_pin, delay, config: LinBusConfig::default() }
    }

    /// Replace the timing profile, for instance after finding a slower slave.
    pub fn init(&mut self, config: LinBusConfig)
        ensures
            final(self).spec_config() == config,
            final(self).spec_uart() == old(self).spec_uart(),
            final(self).spec_break_pin() == old(self).spec_break_pin(),
            final(self).spec_delay() == old(self).spec_delay(),
    {
        self.config = config;
    }

    /// The timing profile in force.
    pub fn config(&self) -> (r: LinBusConfig)
        ensures
            r == self.spec_config(),
    {
        self.config
    }

    /// The UART, the break pin and the delay source, to carry out a sequence.
    pub fn parts_mut(&mut self) -> (r: (&mut UART, &mut GPIO, &mut DELAY))
        ensures
            *r.0 == old(self).spec_uart(),
            *r.1 == old(self).spec_break_pin(),
            *r.2 == old(self).spec_delay(),
            final(self).spec_uart() == *final(r.0),
            final(self).spec_break_pin() == *final(r.1),
            final(self).spec_delay() == *final(r.2),
            final(self).spec_config() == old(self).spec_config(),
    {
        (&mut self.uart, &mut self.break_pin, &mut self.delay)
    }

    /// Appends the break to `steps`.
    fn push_break_steps(&self, steps: &mut Vec<LinStep>)
        requires
            self.spec_config().durations_fit(),
        ensures
            final(steps)@ == old(steps)@ + break_steps(self.spec_config()),
    {
        let bit_period_ns = self.config.speed.get_bit_period_ns();
        let break_ns = self.config.break_duration.get_duration_ns(bit_period_ns);
        steps.push(LinStep::BreakPinHigh);
        steps.push(LinStep::DelayNs(break_ns));
        steps.push(LinStep::BreakPinLow);
        steps.push(LinStep::DelayNs(bit_period_ns));
        assert(steps@ =~= old(steps)@ + break_steps(self.spec_config()));
    }

    /// The break signal that starts every frame header: the pin held for the
    /// break duration, then released for one bit period.
    pub fn break_sequence(&self) -> (r: Vec<LinStep>)
        requires
            self.spec_config().durations_fit(),
        ensures
            r@ == break_steps(self.spec_config()),
    {
        let mut steps = Vec::new();
        self.push_break_steps(&mut steps);
        assert(steps@ =~= break_steps(self.spec_config()));
        steps
    }

    /// The wakeup signal: the pin asserted for the wakeup duration, then
    /// released for as long. The LIN wakeup rule caps the duration at 5 ms.
    pub fn wakeup_sequence(&self) -> (r: Vec<LinStep>)
        requires
            self.spec_config().wakeup_duration.duration() <= WAKEUP_MAX_NS,
        ensures
            r@ == wakeup_steps(self.spec_config()),
    {
        let wakeup_ns = self.config.wakeup_duration.get_duration_ns();
        let mut steps = Vec::new();
        steps.push(LinStep::BreakPinHigh);
        steps.push(LinStep::DelayNs(wakeup_ns));
        steps.push(LinStep::BreakPinLow);
        steps.push(LinStep::DelayNs(wakeup_ns));
        assert(steps@ =~= wakeup_steps(self.spec_config()));
        steps
    }

    /// Sending the frame with identifier `id`, `data` and `checksum`: break,
    /// the frame's bytes one by one, a flush and the inter-frame space.
    pub fn send_frame_sequence(&self, id: u8, data: &[u8], checksum: u8) -> (r: Vec<LinStep>)
        requires
            self.spec_config().durations_fit(),
            valid_data_len(data@.len()),
        ensures
            r@ == send_frame_steps(self.spec_config(), frame_bytes(id, data@, checksum)),
    {
        let mut steps = Vec::new();
        self.push_break_steps(&mut steps);
        steps.push(LinStep::Write(LIN_SYNC_BYTE));
        steps.push(LinStep::Write(id));
        assert(steps@.take(4) =~= break_steps(self.spec_config()));
        let n = data.len();
        let mut i: usize = 0;
        while i < n
            invariant
                n == data@.len(),
                i <= n,
                steps@.len() == 6 + i,
                steps@.take(4) == break_steps(self.spec_config()),
                steps@[4] == LinStep::Write(LIN_SYNC_BYTE),
                steps@[5] == LinStep::Write(id),
                forall|k: int| 0 <= k < i ==> steps@[6 + k] == LinStep::Write(data@[k]),
            decreases n - i,
        {
            let ghost before = steps@;
            steps.push(LinStep::Write(data[i]));
            i = i + 1;
            assert(steps@.take(4) =~= before.take(4));
        }
        steps.push(LinStep::Write(checksum));
        steps.push(LinStep::Flush);
        steps.push(LinStep::DelayNs(self.config.inter_frame_space.get_duration_ns()));
        let ghost frame = frame_bytes(id, data@, checksum);
        assert(steps@ =~= send_frame_steps(self.spec_config(), frame));
        steps
    }

    /// Reading a frame with identifier `id`: the inter-frame space, break, the
    /// header `[0x55, id]`, the response timeout, the response, and the
    /// inter-frame space again.
    pub fn read_frame_sequence(&self, id: u8) -> (r: Vec<LinStep>)
        requires
            self.spec_config().durations_fit(),
        ensures
            r@ == read_frame_steps(self.spec_config(), id),
    {
        let space_ns = self.config.inter_frame_space.get_duration_ns();
        let mut steps = Vec::new();
        steps.push(LinStep::DelayNs(space_ns));
        self.push_break_steps(&mut steps);
        steps.push(LinStep::Write(LIN_SYNC_BYTE));
        steps.push(LinStep::Write(id));
        steps.push(LinStep::DelayNs(self.config.read_device_response_timeout.get_duration_ns()));
        steps.push(LinStep::ReadResponse);
        steps.push(LinStep::DelayNs(space_ns));
        assert(steps@ =~= read_frame_steps(self.spec_config(), id));
        steps
    }
}

} // verus!
