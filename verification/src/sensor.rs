use vstd::prelude::*;
use vstd::arithmetic::power2::{lemma2_to64, pow2};

use crate::sensiron_sensor_reading::{all_triplets_ok, decode_frame, DisplayMessage, ErrorMeta, Sen55Frame};

verus! {

/// I2C address of the SEN55.
pub const SEN55_ADDRESS: u8 = 0x69;

/// Attempts per measurement cycle are numbered `0..=LAST_ATTEMPT`.
pub const LAST_ATTEMPT: u8 = 5;

/// Data-ready polls per attempt are numbered `0..=LAST_POLL`.
pub const LAST_POLL: u8 = 9;

/// Wait after power-up before the first greeting, in milliseconds.
pub const BOOT_SETTLE_MS: u64 = 15_000;

/// Time the fan and the NOx/VOC sensors need to give steady readings, in
/// milliseconds.
pub const WARM_UP_MS: u64 = 120_000;

/// Gap between a command and reading its reply, in milliseconds.
pub const COMMAND_GAP_MS: u64 = 20;

/// Rest after a data-ready poll that did not see the flag, in milliseconds.
pub const POLL_REST_MS: u64 = 500;

/// Rest after each attempt, in milliseconds.
pub const ATTEMPT_REST_MS: u64 = 5_000;

/// Where the measurement loop stands: what it last asked for and is now
/// waiting on.
#[derive(Clone, Copy, Debug, PartialEq, Eq, Structural)]
pub enum SensorPhase {
    /// Letting the power rails settle.
    Booting,
    /// Sending the greeting to the display.
    Greeting,
    /// Sending "Start Measurement".
    Starting,
    /// Waiting for the fan and gas sensors to settle.
    WarmingUp,
    /// Waiting before a data-ready poll.
    PollWait { attempt: u8, poll: u8 },
    /// Sending "Read Data-Ready Flag".
    PollCommand { attempt: u8, poll: u8 },
    /// Giving the sensor time to answer the poll.
    PollGap { attempt: u8, poll: u8 },
    /// Reading the data-ready flag.
    PollRead { attempt: u8, poll: u8 },
    /// Resting after a poll that did not see the flag.
    PollRest { attempt: u8, poll: u8 },
    /// Sending "Read Measured Values".
    MeasureCommand { attempt: u8 },
    /// Giving the sensor time to move the values to its I2C buffer.
    MeasureGap { attempt: u8 },
    /// Reading the measured values.
    MeasureRead { attempt: u8 },
    /// Handing the attempt's outcome to the display and uplink.
    Reporting { attempt: u8 },
    /// Resting after an attempt.
    AttemptRest { attempt: u8 },
    /// Sending "Stop Measurement".
    Stopping,
    /// Waiting for the next cycle's tick.
    Waiting,
}

/// What the measurement loop asks the hardware to do next.
#[derive(Clone, Copy, Debug, PartialEq, Eq)]
pub enum SensorAction {
    /// Sleep for the given number of milliseconds.
    Sleep(u64),
    /// Write a two-byte command to the sensor.
    Write([u8; 2]),
    /// Read the three bytes of the data-ready flag.
    ReadReady,
    /// Read the 24 bytes of the measured values.
    ReadMeasurement,
    /// Publish a message, waiting for room on the bus.
    Publish(DisplayMessage),
    /// Publish a message if the bus has room, else drop it.
    TryPublish(DisplayMessage),
    /// Wait for the next tick of the cycle's ticker.
    WaitTick,
}

/// What the hardware answered to the last action.
#[derive(Clone, Copy, Debug, PartialEq, Eq)]
pub enum SensorEvent {
    /// A sleep, a publish or a tick has completed.
    Done,
    /// A write completed, successfully or not.
    Wrote(bool),
    /// A read of the data-ready flag completed, with the bytes when it worked.
    ReadReady(Option<[u8; 3]>),
    /// A read of the measured values completed, with the bytes when it worked.
    ReadMeasurement(Option<[u8; 24]>),
}

/// "Start Measurement".
pub open spec fn start_measurement() -> Seq<u8> { seq![0x00u8, 0x21u8] }

/// "Read Data-Ready Flag".
pub open spec fn read_data_ready() -> Seq<u8> { seq![0x02u8, 0x02u8] }

/// "Read Measured Values".
pub open spec fn read_measured_values() -> Seq<u8> { seq![0x03u8, 0xC4u8] }

/// "Stop Measurement".
pub open spec fn stop_measurement() -> Seq<u8> { seq![0x01u8, 0x04u8] }

/// The greeting shown once after power-up.
pub open spec fn greeting() -> DisplayMessage {
    DisplayMessage::SystemError(ErrorMeta { code: "HI", long_message: "Hello from the machine" })
}

/// Reported when the measured values fail their CRC check.
pub open spec fn crc_failure() -> DisplayMessage {
    DisplayMessage::SystemError(ErrorMeta { code: "CRC", long_message: "CRC Failed from SEN55" })
}

/// Reported when reading the measured values fails.
pub open spec fn communication_failure() -> DisplayMessage {
    DisplayMessage::SystemError(
        ErrorMeta { code: "COM", long_message: "Communication with SEN55 failed" },
    )
}

/// Reported when the sensor never raised its data-ready flag in an attempt.
pub open spec fn not_ready() -> DisplayMessage {
    DisplayMessage::SystemError(ErrorMeta { code: "NRD", long_message: "SEN55 not ready" })
}

/// Wait before each data-ready poll of an attempt: 100 ms, doubled with
/// every attempt.
pub open spec fn poll_delay_ms(attempt: u8) -> u64 {
    (100 * (1u64 << attempt)) as u64
}

/// The counters of a phase stay within their ranges.
pub open spec fn phase_wf(phase: SensorPhase) -> bool {
    match phase {
        SensorPhase::PollWait { attempt, poll } => attempt <= LAST_ATTEMPT && poll <= LAST_POLL,
        SensorPhase::PollCommand { attempt, poll } => attempt <= LAST_ATTEMPT && poll <= LAST_POLL,
        SensorPhase::PollGap { attempt, poll } => attempt <= LAST_ATTEMPT && poll <= LAST_POLL,
        SensorPhase::PollRead { attempt, poll } => attempt <= LAST_ATTEMPT && poll <= LAST_POLL,
        SensorPhase::PollRest { attempt, poll } => attempt <= LAST_ATTEMPT && poll <= LAST_POLL,
        SensorPhase::MeasureCommand { attempt } => attempt <= LAST_ATTEMPT,
        SensorPhase::MeasureGap { attempt } => attempt <= LAST_ATTEMPT,
        SensorPhase::MeasureRead { attempt } => attempt <= LAST_ATTEMPT,
        SensorPhase::Reporting { attempt } => attempt <= LAST_ATTEMPT,
        SensorPhase::AttemptRest { attempt } => attempt <= LAST_ATTEMPT,
        _ => true,
    }
}

/// The data-ready flag is the lowest bit of the reply's LSB.
pub open spec fn ready_flag_set(reply: Seq<u8>) -> bool {
    reply[1] & 1u8 != 0
}

/// The action that sends a command.
pub open spec fn write_action(action: SensorAction, command: Seq<u8>) -> bool {
    action matches SensorAction::Write(bytes) && bytes@ == command
}

/// One step of the measurement loop: given where it stands and what the
/// hardware answered, where it goes next and what it asks for.
///
/// An answer of another kind than the pending action produces counts as a
/// failed read or write where the loop looks at the answer, and is ignored
/// where it does not.
pub open spec fn sensor_step(phase: SensorPhase, event: SensorEvent) -> (SensorPhase, SensorAction) {
    match phase {
        SensorPhase::Booting => (SensorPhase::Greeting, SensorAction::Publish(greeting())),
        SensorPhase::Greeting => (SensorPhase::Starting, SensorAction::Write([0x00, 0x21])),
        SensorPhase::Starting => (SensorPhase::WarmingUp, SensorAction::Sleep(WARM_UP_MS)),
        SensorPhase::WarmingUp => (
            SensorPhase::PollWait { attempt: 0, poll: 0 },
            SensorAction::Sleep(poll_delay_ms(0)),
        ),
        SensorPhase::PollWait { attempt, poll } => (
            SensorPhase::PollCommand { attempt, poll },
            SensorAction::Write([0x02, 0x02]),
        ),
        SensorPhase::PollCommand { attempt, poll } => (
            SensorPhase::PollGap { attempt, poll },
            SensorAction::Sleep(COMMAND_GAP_MS),
        ),
        SensorPhase::PollGap { attempt, poll } => (
            SensorPhase::PollRead { attempt, poll },
            SensorAction::ReadReady,
        ),
        SensorPhase::PollRead { attempt, poll } => {
            if event matches SensorEvent::ReadReady(Some(reply)) && ready_flag_set(reply@) {
                (SensorPhase::MeasureCommand { attempt }, SensorAction::Write([0x03, 0xC4]))
            } else {
                (SensorPhase::PollRest { attempt, poll }, SensorAction::Sleep(POLL_REST_MS))
            }
        },
        SensorPhase::PollRest { attempt, poll } => {
            if poll < LAST_POLL {
                (
                    SensorPhase::PollWait { attempt, poll: (poll + 1) as u8 },
                    SensorAction::Sleep(poll_delay_ms(attempt)),
                )
            } else {
                (SensorPhase::Reporting { attempt }, SensorAction::Publish(not_ready()))
            }
        },
        SensorPhase::MeasureCommand { attempt } => {
            if event matches SensorEvent::Wrote(true) {
                (SensorPhase::MeasureGap { attempt }, SensorAction::Sleep(COMMAND_GAP_MS))
            } else {
                (SensorPhase::AttemptRest { attempt }, SensorAction::Sleep(ATTEMPT_REST_MS))
            }
        },
        SensorPhase::MeasureGap { attempt } => (
            SensorPhase::MeasureRead { attempt },
            SensorAction::ReadMeasurement,
        ),
        SensorPhase::MeasureRead { attempt } => {
            if let SensorEvent::ReadMeasurement(Some(reply)) = event {
                if all_triplets_ok(reply@) {
                    (
                        SensorPhase::Reporting { attempt },
                        SensorAction::TryPublish(DisplayMessage::ActiveData(decode_frame(reply@))),
                    )
                } else {
                    (SensorPhase::Reporting { attempt }, SensorAction::Publish(crc_failure()))
                }
            } else {
                (SensorPhase::Reporting { attempt }, SensorAction::Publish(communication_failure()))
            }
        },
        SensorPhase::Reporting { attempt } => (
            SensorPhase::AttemptRest { attempt },
            SensorAction::Sleep(ATTEMPT_REST_MS),
        ),
        SensorPhase::AttemptRest { attempt } => {
            if attempt < LAST_ATTEMPT {
                (
                    SensorPhase::PollWait { attempt: (attempt + 1) as u8, poll: 0 },
                    SensorAction::Sleep(poll_delay_ms((attempt + 1) as u8)),
                )
            } else {
                (SensorPhase::Stopping, SensorAction::Write([0x01, 0x04]))
            }
        },
        SensorPhase::Stopping => (SensorPhase::Waiting, SensorAction::WaitTick),
        SensorPhase::Waiting => (SensorPhase::Starting, SensorAction::Write([0x00, 0x21])),
    }
}

/// How far a phase is from the wait for the next cycle, counted in steps at
/// most.
pub open spec fn steps_to_wait(phase: SensorPhase) -> nat {
    match phase {
        SensorPhase::Booting => 703,
        SensorPhase::Greeting => 702,
        SensorPhase::Starting => 701,
        SensorPhase::WarmingUp => 700,
        SensorPhase::PollWait { attempt, poll } => attempt_base(attempt) + 11 + 5 * polls_left(poll),
        SensorPhase::PollCommand { attempt, poll } => attempt_base(attempt) + 10 + 5 * polls_left(poll),
        SensorPhase::PollGap { attempt, poll } => attempt_base(attempt) + 9 + 5 * polls_left(poll),
        SensorPhase::PollRead { attempt, poll } => attempt_base(attempt) + 8 + 5 * polls_left(poll),
        SensorPhase::PollRest { attempt, poll } => attempt_base(attempt) + 7 + 5 * polls_left(poll),
        SensorPhase::MeasureCommand { attempt } => attempt_base(attempt) + 6,
        SensorPhase::MeasureGap { attempt } => attempt_base(attempt) + 5,
        SensorPhase::MeasureRead { attempt } => attempt_base(attempt) + 4,
        SensorPhase::Reporting { attempt } => attempt_base(attempt) + 3,
        SensorPhase::AttemptRest { attempt } => attempt_base(attempt) + 2,
        SensorPhase::Stopping => 1,
        SensorPhase::Waiting => 0,
    }
}

/// Steps reserved for the attempts after `attempt`.
pub open spec fn attempt_base(attempt: u8) -> nat {
    (100 * (LAST_ATTEMPT - attempt)) as nat
}

/// Polls left in an attempt after `poll`.
pub open spec fn polls_left(poll: u8) -> nat {
    (LAST_POLL - poll) as nat
}

/// Whatever the sensor answers, every step short of the wait for the next
/// tick brings the loop closer to that wait: each measurement cycle ends,
/// after at most six attempts of at most ten polls each, by stopping the
/// sensor and waiting for the ticker.
pub proof fn every_cycle_reaches_the_tick(phase: SensorPhase, event: SensorEvent)
    requires
        phase_wf(phase),
        phase != SensorPhase::Waiting,
    ensures
        steps_to_wait(sensor_step(phase, event).0) < steps_to_wait(phase),
        phase_wf(sensor_step(phase, event).0),
{
}

/// A measurement reaches the bus only as read from a reply whose every
/// triplet passed its CRC check, and errors are the only thing published
/// with waiting.
pub proof fn only_checked_measurements_are_published(phase: SensorPhase, event: SensorEvent)
    requires
        phase_wf(phase),
    ensures
        sensor_step(phase, event).1 matches SensorAction::TryPublish(m) ==> {
            &&& event matches SensorEvent::ReadMeasurement(Some(reply))
            &&& all_triplets_ok(reply@)
            &&& m == DisplayMessage::ActiveData(decode_frame(reply@))
        },
        sensor_step(phase, event).1 matches SensorAction::Publish(m) ==> m is SystemError,
{
}

/// The wait before a data-ready poll starts at 100 ms and doubles with every
/// attempt.
pub proof fn poll_delay_doubles(attempt: u8)
    requires
        attempt < LAST_ATTEMPT,
    ensures
        poll_delay_ms(0) == 100,
        poll_delay_ms((attempt + 1) as u8) == 2 * poll_delay_ms(attempt),
{
    assert((1u64 << 0u8) == 1) by (bit_vector);
    assert((1u64 << ((attempt + 1) as u8)) == 2 * (1u64 << attempt)) by (bit_vector)
        requires
            attempt < 5,
    ;
    assert((1u64 << attempt) <= 16) by (bit_vector)
        requires
            attempt < 5,
    ;
}

/// A data-ready reply with the flag set leads straight to reading the
/// measured values; any other answer to a poll leads to a rest and, after
/// the tenth poll, to reporting that the sensor was not ready.
pub proof fn ready_flag_decides_the_poll(attempt: u8, poll: u8, event: SensorEvent)
    requires
        attempt <= LAST_ATTEMPT,
        poll <= LAST_POLL,
    ensures
        ({
            let next = sensor_step(SensorPhase::PollRead { attempt, poll }, event);
            if event matches SensorEvent::ReadReady(Some(reply)) && ready_flag_set(reply@) {
                next.0 == SensorPhase::MeasureCommand { attempt }
                    && write_action(next.1, read_measured_values())
            } else {
                next.0 == SensorPhase::PollRest { attempt, poll }
            }
        }),
        poll == LAST_POLL ==> sensor_step(SensorPhase::PollRest { attempt, poll }, event)
            == (SensorPhase::Reporting { attempt }, SensorAction::Publish(not_ready())),
{
    let b: [u8; 2] = [0x03, 0xC4];
    assert(b@ =~= read_measured_values());
}

/// The loop talks to the sensor only in the datasheet's commands: it enters
/// each phase that writes by sending that phase's command.
pub proof fn writes_are_the_phase_commands(phase: SensorPhase, event: SensorEvent)
    requires
        phase_wf(phase),
    ensures
        ({
            let (next, action) = sensor_step(phase, event);
            &&& next == SensorPhase::Starting ==> write_action(action, start_measurement())
            &&& next is PollCommand ==> write_action(action, read_data_ready())
            &&& next is MeasureCommand ==> write_action(action, read_measured_values())
            &&& next == SensorPhase::Stopping ==> write_action(action, stop_measurement())
            &&& action is Write ==> (next == SensorPhase::Starting || next is PollCommand
                || next is MeasureCommand || next == SensorPhase::Stopping)
        }),
{
    let start: [u8; 2] = [0x00, 0x21];
    let ready: [u8; 2] = [0x02, 0x02];
    let measure: [u8; 2] = [0x03, 0xC4];
    let stop: [u8; 2] = [0x01, 0x04];
    assert(start@ =~= start_measurement());
    assert(ready@ =~= read_data_ready());
    assert(measure@ =~= read_measured_values());
    assert(stop@ =~= stop_measurement());
}

/// Every wait before a data-ready poll of attempt `a` (the first poll after
/// the warm-up or the previous attempt, and every later poll after a miss)
/// lasts 100 * 2^a ms: the back-off doubles from attempt to attempt and holds
/// for all ten polls of an attempt.
pub proof fn every_poll_of_an_attempt_waits_its_backoff(phase: SensorPhase, event: SensorEvent)
    requires
        phase_wf(phase),
    ensures
        ({
            let (next, action) = sensor_step(phase, event);
            forall|a: u8, p: u8|
                next == (SensorPhase::PollWait { attempt: a, poll: p }) ==> action
                    == SensorAction::Sleep((100 * pow2(a as nat)) as u64)
        }),
        forall|a: u8, p: u8|
            a <= LAST_ATTEMPT && p < LAST_POLL ==> #[trigger] sensor_step(
                SensorPhase::PollRest { attempt: a, poll: p },
                event,
            ) == (SensorPhase::PollWait { attempt: a, poll: (p + 1) as u8 }, SensorAction::Sleep(
                (100 * pow2(a as nat)) as u64,
            )),
{
    lemma2_to64();
    assert forall|a: u8| a <= 5 implies (1u64 << a) as nat == pow2(a as nat) by {
        assert(a <= 5 ==> ((a == 0 ==> 1u64 << a == 1) && (a == 1 ==> 1u64 << a == 2) && (a == 2
            ==> 1u64 << a == 4) && (a == 3 ==> 1u64 << a == 8) && (a == 4 ==> 1u64 << a == 16) && (a
            == 5 ==> 1u64 << a == 32))) by (bit_vector);
    }
}

impl SensorPhase {
    /// Where the loop starts after power-up: letting the rails settle.
    pub fn boot() -> (res: (SensorPhase, SensorAction))
        ensures
            res == (SensorPhase::Booting, SensorAction::Sleep(BOOT_SETTLE_MS)),
    {
        (SensorPhase::Booting, SensorAction::Sleep(BOOT_SETTLE_MS))
    }

    /// Whether the phase's counters are within their ranges (see `phase_wf`).
    pub fn in_range(&self) -> (ok: bool)
        ensures
            ok == phase_wf(*self),
    {
        match *self {
            SensorPhase::PollWait { attempt, poll }
            | SensorPhase::PollCommand { attempt, poll }
            | SensorPhase::PollGap { attempt, poll }
            | SensorPhase::PollRead { attempt, poll }
            | SensorPhase::PollRest { attempt, poll } => attempt <= LAST_ATTEMPT && poll <= LAST_POLL,
            SensorPhase::MeasureCommand { attempt }
            | SensorPhase::MeasureGap { attempt }
            | SensorPhase::MeasureRead { attempt }
            | SensorPhase::Reporting { attempt }
            | SensorPhase::AttemptRest { attempt } => attempt <= LAST_ATTEMPT,
            _ => true,
        }
    }

    /// One step of the measurement loop (see `sensor_step`).
    pub fn step(self, event: &SensorEvent) -> (res: (SensorPhase, SensorAction))
        requires
            phase_wf(self),
        ensures
            res == sensor_step(self, *event),
            phase_wf(res.0),
    {
        match self {
            SensorPhase::Booting => (
                SensorPhase::Greeting,
                SensorAction::Publish(
                    DisplayMessage::SystemError(
                        ErrorMeta { code: "HI", long_message: "Hello from the machine" },
                    ),
                ),
            ),
            SensorPhase::Greeting => (SensorPhase::Starting, SensorAction::Write([0x00, 0x21])),
            SensorPhase::Starting => (SensorPhase::WarmingUp, SensorAction::Sleep(WARM_UP_MS)),
            SensorPhase::WarmingUp => (
                SensorPhase::PollWait { attempt: 0, poll: 0 },
                SensorAction::Sleep(poll_delay(0)),
            ),
            SensorPhase::PollWait { attempt, poll } => (
                SensorPhase::PollCommand { attempt, poll },
                SensorAction::Write([0x02, 0x02]),
            ),
            SensorPhase::PollCommand { attempt, poll } => (
                SensorPhase::PollGap { attempt, poll },
                SensorAction::Sleep(COMMAND_GAP_MS),
            ),
            SensorPhase::PollGap { attempt, poll } => (
                SensorPhase::PollRead { attempt, poll },
                SensorAction::ReadReady,
            ),
            SensorPhase::PollRead { attempt, poll } => {
                // Logically: [MSB, LSB, CRC] -> we want bit 0 of the LSB
                let ready = match event {
                    SensorEvent::ReadReady(Some(reply)) => (reply[1] & 0x01) != 0,
                    _ => false,
                };
                if ready {
                    (SensorPhase::MeasureCommand { attempt }, SensorAction::Write([0x03, 0xC4]))
                } else {
                    (SensorPhase::PollRest { attempt, poll }, SensorAction::Sleep(POLL_REST_MS))
                }
            },
            SensorPhase::PollRest { attempt, poll } => {
                if poll < LAST_POLL {
                    (
                        SensorPhase::PollWait { attempt, poll: poll + 1 },
                        SensorAction::Sleep(poll_delay(attempt)),
                    )
                } else {
                    (
                        SensorPhase::Reporting { attempt },
                        SensorAction::Publish(
                            DisplayMessage::SystemError(
                                ErrorMeta { code: "NRD", long_message: "SEN55 not ready" },
                            ),
                        ),
                    )
                }
            },
            SensorPhase::MeasureCommand { attempt } => {
                let written = match event {
                    SensorEvent::Wrote(ok) => *ok,
                    _ => false,
                };
                if written {
                    (SensorPhase::MeasureGap { attempt }, SensorAction::Sleep(COMMAND_GAP_MS))
                } else {
                    (SensorPhase::AttemptRest { attempt }, SensorAction::Sleep(ATTEMPT_REST_MS))
                }
            },
            SensorPhase::MeasureGap { attempt } => (
                SensorPhase::MeasureRead { attempt },
                SensorAction::ReadMeasurement,
            ),
            SensorPhase::MeasureRead { attempt } => {
                let message = match event {
                    SensorEvent::ReadMeasurement(Some(reply)) => {
                        match Sen55Frame::parse(reply) {
                            Some(frame) => {
                                return (
                                    SensorPhase::Reporting { attempt },
                                    SensorAction::TryPublish(DisplayMessage::ActiveData(frame)),
                                );
                            },
                            None => DisplayMessage::SystemError(
                                ErrorMeta { code: "CRC", long_message: "CRC Failed from SEN55" },
                            ),
                        }
                    },
                    _ => DisplayMessage::SystemError(
                        ErrorMeta {
                            code: "COM",
                            long_message: "Communication with SEN55 failed",
                        },
                    ),
                };
                (SensorPhase::Reporting { attempt }, SensorAction::Publish(message))
            },
            SensorPhase::Reporting { attempt } => (
                SensorPhase::AttemptRest { attempt },
                SensorAction::Sleep(ATTEMPT_REST_MS),
            ),
            SensorPhase::AttemptRest { attempt } => {
                if attempt < LAST_ATTEMPT {
                    (
                        SensorPhase::PollWait { attempt: attempt + 1, poll: 0 },
                        SensorAction::Sleep(poll_delay(attempt + 1)),
                    )
                } else {
                    (SensorPhase::Stopping, SensorAction::Write([0x01, 0x04]))
                }
            },
            SensorPhase::Stopping => (SensorPhase::Waiting, SensorAction::WaitTick),
            SensorPhase::Waiting => (SensorPhase::Starting, SensorAction::Write([0x00, 0x21])),
        }
    }
}

/// Wait before each data-ready poll of an attempt (see `poll_delay_ms`).
pub fn poll_delay(attempt: u8) -> (ms: u64)
    requires
        attempt <= LAST_ATTEMPT,
    ensures
        ms == poll_delay_ms(attempt),
{
    assert((1u64 << attempt) <= 32) by (bit_vector)
        requires
            attempt <= 5,
    ;
    100 * (1u64 << attempt)
}

} // verus!
