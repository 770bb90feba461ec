use airqual::sensiron_sensor_reading::Sen55Frame;
use airqual::sensiron_sensor_reading::{DisplayMessage, ErrorMeta};
use airqual::sensor::{poll_delay, SensorAction, SensorEvent, SensorPhase};

fn reply() -> [u8; 24] {
    [
        0x00, 0x64, 0xFE, 0x00, 0x96, 0x1E, 0x00, 0xC8, 0x7F, 0x01, 0x2C, 0x8E, 0x11, 0x94, 0xE6,
        0x13, 0x88, 0x01, 0xFF, 0xF6, 0x24, 0x00, 0x0A, 0x5A,
    ]
}

fn error(code: &'static str, long_message: &'static str) -> DisplayMessage {
    DisplayMessage::SystemError(ErrorMeta { code, long_message })
}

/// Runs from the boot up to the first data-ready read of attempt 0.
fn to_first_poll_read() -> SensorPhase {
    let (p, a) = SensorPhase::boot();
    assert_eq!(a, SensorAction::Sleep(15_000));
    let (p, a) = p.step(&SensorEvent::Done);
    assert_eq!(a, SensorAction::Publish(error("HI", "Hello from the machine")));
    let (p, a) = p.step(&SensorEvent::Done);
    assert_eq!(a, SensorAction::Write([0x00, 0x21]));
    let (p, a) = p.step(&SensorEvent::Wrote(true));
    assert_eq!(a, SensorAction::Sleep(120_000));
    let (p, a) = p.step(&SensorEvent::Done);
    assert_eq!(a, SensorAction::Sleep(100));
    let (p, a) = p.step(&SensorEvent::Done);
    assert_eq!(a, SensorAction::Write([0x02, 0x02]));
    let (p, a) = p.step(&SensorEvent::Wrote(true));
    assert_eq!(a, SensorAction::Sleep(20));
    let (p, a) = p.step(&SensorEvent::Done);
    assert_eq!(a, SensorAction::ReadReady);
    assert_eq!(p, SensorPhase::PollRead { attempt: 0, poll: 0 });
    p
}

#[test]
fn poll_delays_double_per_attempt() {
    assert_eq!(poll_delay(0), 100);
    assert_eq!(poll_delay(1), 200);
    assert_eq!(poll_delay(2), 400);
    assert_eq!(poll_delay(3), 800);
    assert_eq!(poll_delay(4), 1600);
    assert_eq!(poll_delay(5), 3200);
}

#[test]
fn ready_sensor_is_read_and_the_frame_published() {
    let p = to_first_poll_read();
    let (p, a) = p.step(&SensorEvent::ReadReady(Some([0x00, 0x01, 0xB0])));
    assert_eq!(a, SensorAction::Write([0x03, 0xC4]));
    let (p, a) = p.step(&SensorEvent::Wrote(true));
    assert_eq!(a, SensorAction::Sleep(20));
    let (p, a) = p.step(&SensorEvent::Done);
    assert_eq!(a, SensorAction::ReadMeasurement);
    let (p, a) = p.step(&SensorEvent::ReadMeasurement(Some(reply())));
    let frame = Sen55Frame::parse(&reply()).unwrap();
    assert_eq!(a, SensorAction::TryPublish(DisplayMessage::ActiveData(frame)));
    let (p, a) = p.step(&SensorEvent::Done);
    assert_eq!(a, SensorAction::Sleep(5_000));
    let (p, a) = p.step(&SensorEvent::Done);
    assert_eq!(a, SensorAction::Sleep(200));
    assert_eq!(p, SensorPhase::PollWait { attempt: 1, poll: 0 });
}

#[test]
fn bad_crc_is_reported() {
    let p = to_first_poll_read();
    let (p, _) = p.step(&SensorEvent::ReadReady(Some([0x00, 0x01, 0xB0])));
    let (p, _) = p.step(&SensorEvent::Wrote(true));
    let (p, _) = p.step(&SensorEvent::Done);
    let mut bad = reply();
    bad[5] ^= 0xFF;
    let (_, a) = p.step(&SensorEvent::ReadMeasurement(Some(bad)));
    assert_eq!(a, SensorAction::Publish(error("CRC", "CRC Failed from SEN55")));
}

#[test]
fn failed_read_is_reported() {
    let p = to_first_poll_read();
    let (p, _) = p.step(&SensorEvent::ReadReady(Some([0x00, 0x01, 0xB0])));
    let (p, _) = p.step(&SensorEvent::Wrote(true));
    let (p, _) = p.step(&SensorEvent::Done);
    let (p, a) = p.step(&SensorEvent::ReadMeasurement(None));
    assert_eq!(a, SensorAction::Publish(error("COM", "Communication with SEN55 failed")));
    assert_eq!(p, SensorPhase::Reporting { attempt: 0 });
}

#[test]
fn failed_measure_command_skips_to_the_rest() {
    let p = to_first_poll_read();
    let (p, _) = p.step(&SensorEvent::ReadReady(Some([0x00, 0x01, 0xB0])));
    let (p, a) = p.step(&SensorEvent::Wrote(false));
    assert_eq!(a, SensorAction::Sleep(5_000));
    assert_eq!(p, SensorPhase::AttemptRest { attempt: 0 });
}

#[test]
fn flag_clear_or_failed_poll_rests_and_polls_again() {
    let p = to_first_poll_read();
    let (p, a) = p.step(&SensorEvent::ReadReady(Some([0x00, 0x00, 0x81])));
    assert_eq!(a, SensorAction::Sleep(500));
    let (p, a) = p.step(&SensorEvent::Done);
    assert_eq!(a, SensorAction::Sleep(100));
    assert_eq!(p, SensorPhase::PollWait { attempt: 0, poll: 1 });
    let (p, _) = p.step(&SensorEvent::Done);
    let (p, _) = p.step(&SensorEvent::Wrote(true));
    let (p, _) = p.step(&SensorEvent::Done);
    let (_, a) = p.step(&SensorEvent::ReadReady(None));
    assert_eq!(a, SensorAction::Sleep(500));
}

#[test]
fn ten_unanswered_polls_report_not_ready() {
    let mut p = to_first_poll_read();
    for poll in 0..10u8 {
        assert_eq!(p, SensorPhase::PollRead { attempt: 0, poll });
        let (q, _) = p.step(&SensorEvent::ReadReady(Some([0, 0, 0x81])));
        let (q, a) = q.step(&SensorEvent::Done);
        if poll < 9 {
            assert_eq!(a, SensorAction::Sleep(100));
            let (q, _) = q.step(&SensorEvent::Done);
            let (q, _) = q.step(&SensorEvent::Wrote(true));
            let (q, _) = q.step(&SensorEvent::Done);
            p = q;
        } else {
            assert_eq!(a, SensorAction::Publish(error("NRD", "SEN55 not ready")));
            p = q;
        }
    }
    assert_eq!(p, SensorPhase::Reporting { attempt: 0 });
}

#[test]
fn sixth_attempt_stops_the_sensor_and_waits() {
    let p = SensorPhase::AttemptRest { attempt: 4 };
    let (p, a) = p.step(&SensorEvent::Done);
    assert_eq!(a, SensorAction::Sleep(3_200));
    assert_eq!(p, SensorPhase::PollWait { attempt: 5, poll: 0 });
    let (p, a) = SensorPhase::AttemptRest { attempt: 5 }.step(&SensorEvent::Done);
    assert_eq!(a, SensorAction::Write([0x01, 0x04]));
    let (p2, a) = p.step(&SensorEvent::Wrote(false));
    assert_eq!(a, SensorAction::WaitTick);
    let (p3, a) = p2.step(&SensorEvent::Done);
    assert_eq!(a, SensorAction::Write([0x00, 0x21]));
    assert_eq!(p3, SensorPhase::Starting);
}

#[test]
fn counters_out_of_range_are_detected() {
    assert!(SensorPhase::Booting.in_range());
    assert!(SensorPhase::PollRead { attempt: 5, poll: 9 }.in_range());
    assert!(!SensorPhase::PollRead { attempt: 6, poll: 0 }.in_range());
    assert!(!SensorPhase::PollRest { attempt: 0, poll: 10 }.in_range());
    assert!(!SensorPhase::AttemptRest { attempt: 6 }.in_range());
    assert!(SensorPhase::Reporting { attempt: 5 }.in_range());
}

#[test]
fn silent_sensor_cycle_ends_in_the_tick_wait() {
    // Every write fails and every read fails: the cycle still ends.
    let mut phase = SensorPhase::Starting;
    let mut steps = 0;
    let mut not_ready_reports = 0;
    let mut polls = 0;
    loop {
        let event = match phase {
            SensorPhase::PollRead { .. } => {
                polls += 1;
                SensorEvent::ReadReady(None)
            }
            SensorPhase::MeasureRead { .. } => SensorEvent::ReadMeasurement(None),
            SensorPhase::PollCommand { .. } | SensorPhase::MeasureCommand { .. } => {
                SensorEvent::Wrote(false)
            }
            _ => SensorEvent::Done,
        };
        let (next, action) = phase.step(&event);
        steps += 1;
        if action == SensorAction::Publish(error("NRD", "SEN55 not ready")) {
            not_ready_reports += 1;
        }
        phase = next;
        if action == SensorAction::WaitTick {
            break;
        }
        assert!(steps <= 701);
    }
    assert_eq!(phase, SensorPhase::Waiting);
    assert_eq!(not_ready_reports, 6);
    assert_eq!(polls, 60);
}
