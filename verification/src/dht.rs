//! DHT11 single-wire protocol state machine.
//!
//! # Protocol
//!
//! The protocol for requesting data from the DHT11 is as follows:
//!
//! ```txt
//!                                             DATA
//!                                ┌─────────────────────────────┐
//!     SYN    ACK       READY       SOT   0 BIT   SOT   1 BIT
//!    ┌────┐ ┌────┐ ┌───────────┐ ┌────┐ ┌────┐ ┌────┐ ┌────┐
//! ──┐      ┌──────┐      ┌──────┐      ┌──────┐      ┌──────┐
//!   │      │      │      │      │      │      │      │      │
//!   └──────┘      └──────┘      └──────┘      └──────┘      └──
//!     18ms   40μs   80μs   80μs   50μs   30μs   50μs   70μs
//! ```
//!
//! - SYN: request to synchronize by pulling the data line low for ~18 ms,
//!   then releasing it high for ~40 μs
//! - ACK: the sensor acknowledges by pulling the line high for ~80 μs
//! - READY: the sensor signals readiness by pulling the line low
//! - SOT: each bit starts with the line low for ~50 μs; the following high
//!   pulse lasts ~30 μs for a 0 bit and ~70 μs for a 1 bit
//!
//! The machine below makes every protocol decision but touches no
//! hardware: each step yields a [`Command`] (drive the line, or wait for a
//! level with a timeout), and the caller reports back an [`Event`] (the
//! hold elapsed, the level was seen after a measured time, or the wait
//! timed out). Every wait carries an explicit timeout with tolerance, so a
//! read can never block for longer than the sum of the budgets. After 40
//! bits the payload goes to [`crate::decode::dht::decode`]; any failure
//! returns the machine to [`State::Idle`], carrying no state into the next
//! attempt.

use vstd::arithmetic::power2::lemma2_to64;
use vstd::arithmetic::power2::lemma2_to64_rest;
use vstd::arithmetic::power2::lemma_pow2_strictly_increases;
use vstd::arithmetic::power2::lemma_pow2_unfold;
use vstd::arithmetic::power2::pow2;
use vstd::prelude::*;

use crate::decode::dht::spec_decode;
use crate::decode::dht::Data;

verus! {

/// Microseconds the line is driven low to wake the sensor.
pub const WAKE_LOW_US: u64 = 18_000;

/// Microseconds the line is released high after the wake pulse.
pub const WAKE_HIGH_US: u64 = 40;

/// Timeout for each handshake transition: nominal 80 μs plus tolerance.
pub const HANDSHAKE_TIMEOUT_US: u64 = 90;

/// Timeout for the low start-of-transmission marker before each bit:
/// nominal 50 μs plus tolerance.
pub const BIT_START_TIMEOUT_US: u64 = 55;

/// Timeout for measuring a bit's high pulse: nominal 70 μs plus tolerance.
pub const BIT_PULSE_TIMEOUT_US: u64 = 80;

/// Longest high pulse still read as a 0 bit (nominal 30 μs).
pub const ZERO_BIT_MAX_US: u64 = 40;

/// Longest high pulse still read as a 1 bit (nominal 70 μs).
pub const ONE_BIT_MAX_US: u64 = 80;

/// Number of payload bits in one transmission.
pub const PAYLOAD_BITS: u8 = 40;

/// A sensor read error.
#[derive(Clone, Copy, Debug, PartialEq, Eq, Structural)]
pub enum Error {
    /// The sensor did not answer the handshake in time.
    NotPresent,
    /// A wait during bit acquisition exceeded its timing budget.
    Timeout,
    /// A bit's high pulse fell outside both classification bands.
    SuspectBit,
    /// The completed payload failed to decode.
    DecodeError(crate::decode::dht::Error),
}

/// A logic level on the data line.
#[derive(Clone, Copy, Debug, PartialEq, Eq, Structural)]
pub enum Level {
    Low,
    High,
}

/// What the machine asks its caller to do next.
#[derive(Clone, Copy, Debug, PartialEq, Eq, Structural)]
pub enum Command {
    /// Drive the line low and hold it for the given time.
    DriveLow { hold_us: u64 },
    /// Release or drive the line high and hold it for the given time.
    DriveHigh { hold_us: u64 },
    /// Switch the line to input and wait for the level, giving up after
    /// the timeout; report how long the wait took.
    WaitFor { level: Level, timeout_us: u64 },
}

/// What the caller reports back after performing a [`Command`].
#[derive(Clone, Copy, Debug, PartialEq, Eq, Structural)]
pub enum Event {
    /// The commanded hold time has elapsed.
    HoldElapsed,
    /// The awaited level appeared after the given time.
    LineReached { elapsed_us: u64 },
    /// The awaited level did not appear within the timeout.
    WaitTimedOut,
}

/// The protocol state. Bits already acquired ride along most significant
/// bit first in `bits`, `count` of them.
#[derive(Clone, Copy, Debug, PartialEq, Eq, Structural)]
pub enum State {
    /// No read in progress.
    Idle,
    /// The wake pulse is being held low.
    WakeLow,
    /// The line has been released high after the wake pulse.
    WakeHigh,
    /// Waiting for the sensor to pull the line high (acknowledge).
    AwaitAck,
    /// Waiting for the sensor to pull the line low (ready).
    AwaitReady,
    /// Waiting for the high flank that starts the next bit.
    AwaitBitStart { count: u8, bits: u64 },
    /// Measuring how long the current bit's high pulse lasts.
    MeasureBit { count: u8, bits: u64 },
}

/// What a measured high pulse means: a 0 bit up to 40 μs, a 1 bit up to
/// 80 μs, and a suspect bit beyond both bands.
pub open spec fn spec_classify_pulse(duration_us: u64) -> Result<bool, Error> {
    if duration_us <= ZERO_BIT_MAX_US {
        Ok(false)
    } else if duration_us <= ONE_BIT_MAX_US {
        Ok(true)
    } else {
        Err(Error::SuspectBit)
    }
}

/// The five payload bytes of a completed 40-bit read, most significant
/// byte first.
pub open spec fn spec_payload_bytes(bits: u64) -> Seq<u8> {
    seq![
        ((bits >> 32) & 0xff) as u8,
        ((bits >> 24) & 0xff) as u8,
        ((bits >> 16) & 0xff) as u8,
        ((bits >> 8) & 0xff) as u8,
        (bits & 0xff) as u8,
    ]
}

/// Which events a state can answer: holds end in the wake states, waits
/// end (or time out) everywhere else, and an idle machine expects nothing.
pub open spec fn spec_expects(s: State, e: Event) -> bool {
    match s {
        State::Idle => false,
        State::WakeLow | State::WakeHigh => e is HoldElapsed,
        State::AwaitAck | State::AwaitReady | State::AwaitBitStart { .. } | State::MeasureBit {
            ..
        } => !(e is HoldElapsed),
    }
}

/// Well-formedness of a state: never more than 39 bits pending, and the
/// accumulator holds no more than `count` bits.
pub open spec fn spec_state_wf(s: State) -> bool {
    match s {
        State::AwaitBitStart { count, bits } => count < PAYLOAD_BITS && (bits as nat) < pow2(
            count as nat,
        ),
        State::MeasureBit { count, bits } => count < PAYLOAD_BITS && (bits as nat) < pow2(
            count as nat,
        ),
        _ => true,
    }
}

/// The transition relation: the state after an event, and what the machine
/// reports or asks for next.
pub open spec fn spec_step(s: State, e: Event) -> (State, Outcome)
    recommends
        spec_expects(s, e),
        spec_state_wf(s),
{
    match (s, e) {
        (State::WakeLow, _) => (
            State::WakeHigh,
            Outcome::Next(Command::DriveHigh { hold_us: WAKE_HIGH_US }),
        ),
        (State::WakeHigh, _) => (
            State::AwaitAck,
            Outcome::Next(Command::WaitFor { level: Level::High, timeout_us: HANDSHAKE_TIMEOUT_US }),
        ),
        (State::AwaitAck, Event::WaitTimedOut) => (State::Idle, Outcome::Failed(Error::NotPresent)),
        (State::AwaitAck, _) => (
            State::AwaitReady,
            Outcome::Next(Command::WaitFor { level: Level::Low, timeout_us: HANDSHAKE_TIMEOUT_US }),
        ),
        (State::AwaitReady, Event::WaitTimedOut) => (
            State::Idle,
            Outcome::Failed(Error::NotPresent),
        ),
        (State::AwaitReady, _) => (
            State::AwaitBitStart { count: 0, bits: 0 },
            Outcome::Next(
                Command::WaitFor { level: Level::High, timeout_us: BIT_START_TIMEOUT_US },
            ),
        ),
        (State::AwaitBitStart { .. }, Event::WaitTimedOut) => (
            State::Idle,
            Outcome::Failed(Error::Timeout),
        ),
        (State::AwaitBitStart { count, bits }, _) => (
            State::MeasureBit { count, bits },
            Outcome::Next(Command::WaitFor { level: Level::Low, timeout_us: BIT_PULSE_TIMEOUT_US }),
        ),
        (State::MeasureBit { .. }, Event::WaitTimedOut) => (
            State::Idle,
            Outcome::Failed(Error::Timeout),
        ),
        (State::MeasureBit { count, bits }, Event::LineReached { elapsed_us }) => match
        spec_classify_pulse(elapsed_us) {
            Err(_) => (State::Idle, Outcome::Failed(Error::SuspectBit)),
            Ok(bit) => {
                let new_bits = (bits * 2 + (if bit {
                    1int
                } else {
                    0int
                })) as u64;
                if count + 1 == PAYLOAD_BITS {
                    match spec_decode(spec_payload_bytes(new_bits)) {
                        Ok(data) => (State::Idle, Outcome::Complete(data)),
                        Err(de) => (State::Idle, Outcome::Failed(Error::DecodeError(de))),
                    }
                } else {
                    (
                        State::AwaitBitStart { count: (count + 1) as u8, bits: new_bits },
                        Outcome::Next(
                            Command::WaitFor {
                                level: Level::High,
                                timeout_us: BIT_START_TIMEOUT_US,
                            },
                        ),
                    )
                }
            },
        },
        _ => (State::Idle, Outcome::Failed(Error::Timeout)),
    }
}

/// What one step of the machine produced.
#[derive(Clone, Copy, Debug, PartialEq, Eq, Structural)]
pub enum Outcome {
    /// The read continues; perform this command and report its event.
    Next(Command),
    /// The read finished with a decoded measurement.
    Complete(Data),
    /// The read failed; the machine is idle again.
    Failed(Error),
}

/// The DHT11 protocol driver, as a pure state machine.
pub struct Dht11 {
    pub state: State,
}

/// Classifies a bit's measured high pulse.
pub fn classify_pulse(duration_us: u64) -> (r: Result<bool, Error>)
    ensures
        r == spec_classify_pulse(duration_us),
{
    if duration_us <= ZERO_BIT_MAX_US {
        Ok(false)
    } else if duration_us <= ONE_BIT_MAX_US {
        Ok(true)
    } else {
        Err(Error::SuspectBit)
    }
}

/// Splits a completed 40-bit accumulator into the five payload bytes.
fn payload_bytes(bits: u64) -> (r: [u8; 5])
    ensures
        r@ == spec_payload_bytes(bits),
{
    proof {
        assert((bits >> 32) & 0xff <= 0xff) by (bit_vector);
        assert((bits >> 24) & 0xff <= 0xff) by (bit_vector);
        assert((bits >> 16) & 0xff <= 0xff) by (bit_vector);
        assert((bits >> 8) & 0xff <= 0xff) by (bit_vector);
        assert(bits & 0xff <= 0xff) by (bit_vector);
    }
    let r: [u8; 5] = [
        ((bits >> 32) & 0xff) as u8,
        ((bits >> 24) & 0xff) as u8,
        ((bits >> 16) & 0xff) as u8,
        ((bits >> 8) & 0xff) as u8,
        (bits & 0xff) as u8,
    ];
    proof {
        assert(r@ =~= spec_payload_bytes(bits));
    }
    r
}

impl Dht11 {
    /// A fresh, idle driver.
    pub fn new() -> (r: Dht11)
        ensures
            r.state == State::Idle,
    {
        Dht11 { state: State::Idle }
    }

    /// Starts a read from any state: the machine resets and asks for the
    /// wake pulse.
    pub fn begin(&mut self) -> (r: Command)
        ensures
            final(self).state == State::WakeLow,
            r == (Command::DriveLow { hold_us: WAKE_LOW_US }),
    {
        self.state = State::WakeLow;
        Command::DriveLow { hold_us: WAKE_LOW_US }
    }

    /// Advances the machine by one event. The caller performs the returned
    /// command and reports what happened; any failure leaves the machine
    /// idle for a fresh attempt.
    pub fn step(&mut self, event: Event) -> (r: Outcome)
        requires
            spec_expects(old(self).state, event),
            spec_state_wf(old(self).state),
        ensures
            spec_state_wf(final(self).state),
            (final(self).state, r) == spec_step(old(self).state, event),
    {
        let s = self.state;
        match (s, event) {
            (State::WakeLow, _) => {
                self.state = State::WakeHigh;
                Outcome::Next(Command::DriveHigh { hold_us: WAKE_HIGH_US })
            },
            (State::WakeHigh, _) => {
                self.state = State::AwaitAck;
                Outcome::Next(
                    Command::WaitFor { level: Level::High, timeout_us: HANDSHAKE_TIMEOUT_US },
                )
            },
            (State::AwaitAck, Event::WaitTimedOut) => {
                self.state = State::Idle;
                Outcome::Failed(Error::NotPresent)
            },
            (State::AwaitAck, _) => {
                self.state = State::AwaitReady;
                Outcome::Next(
                    Command::WaitFor { level: Level::Low, timeout_us: HANDSHAKE_TIMEOUT_US },
                )
            },
            (State::AwaitReady, Event::WaitTimedOut) => {
                self.state = State::Idle;
                Outcome::Failed(Error::NotPresent)
            },
            (State::AwaitReady, _) => {
                self.state = State::AwaitBitStart { count: 0, bits: 0 };
                proof {
                    lemma2_to64();
                }
                Outcome::Next(
                    Command::WaitFor { level: Level::High, timeout_us: BIT_START_TIMEOUT_US },
                )
            },
            (State::AwaitBitStart { .. }, Event::WaitTimedOut) => {
                self.state = State::Idle;
                Outcome::Failed(Error::Timeout)
            },
            (State::AwaitBitStart { count, bits }, _) => {
                self.state = State::MeasureBit { count, bits };
                Outcome::Next(
                    Command::WaitFor { level: Level::Low, timeout_us: BIT_PULSE_TIMEOUT_US },
                )
            },
            (State::MeasureBit { .. }, Event::WaitTimedOut) => {
                self.state = State::Idle;
                Outcome::Failed(Error::Timeout)
            },
            (State::MeasureBit { count, bits }, Event::LineReached { elapsed_us }) => {
                let bit = match classify_pulse(elapsed_us) {
                    Ok(b) => b,
                    Err(e) => {
                        self.state = State::Idle;
                        return Outcome::Failed(e);
                    },
                };
                proof {
                    lemma_pow2_unfold((count + 1) as nat);
                    lemma2_to64();
                    lemma2_to64_rest();
                    if count + 1 < 40 {
                        lemma_pow2_strictly_increases((count + 1) as nat, 40);
                    }
                }
                let new_bits: u64 = bits * 2 + (if bit {
                    1
                } else {
                    0
                });
                let new_count: u8 = count + 1;
                if new_count == PAYLOAD_BITS {
                    self.state = State::Idle;
                    let payload = payload_bytes(new_bits);
                    match crate::decode::dht::decode(&payload) {
                        Ok(data) => Outcome::Complete(data),
                        Err(de) => Outcome::Failed(Error::DecodeError(de)),
                    }
                } else {
                    self.state = State::AwaitBitStart { count: new_count, bits: new_bits };
                    Outcome::Next(
                        Command::WaitFor { level: Level::High, timeout_us: BIT_START_TIMEOUT_US },
                    )
                }
            },
            _ => {
                proof {
                    assert(false);
                }
                Outcome::Failed(Error::Timeout)
            },
        }
    }
}

} // verus!
