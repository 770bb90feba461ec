use airqual::sensiron_sensor_reading::{Sen55Frame, Sen55Packed};
use airqual::sensiron_sensor_reading::{DisplayMessage, ErrorMeta};
use airqual::net::{payload, Payload, UplinkAction, UplinkEvent, UplinkPhase};

fn frame() -> Sen55Frame {
    let reply: [u8; 24] = [
        0x00, 0x64, 0xFE, 0x00, 0x96, 0x1E, 0x00, 0xC8, 0x7F, 0x01, 0x2C, 0x8E, 0x11, 0x94, 0xE6,
        0x13, 0x88, 0x01, 0xFF, 0xF6, 0x24, 0x00, 0x0A, 0x5A,
    ];
    Sen55Frame::parse(&reply).unwrap()
}

fn notice(message: &'static str) -> String {
    let msg = DisplayMessage::SystemError(ErrorMeta { code: "X", long_message: message });
    match payload(&msg, 1) {
        Payload::Notice(text) => String::from(text.as_str()),
        Payload::Measurement(_) => panic!("an error gives a notice"),
    }
}

#[test]
fn measurement_payload_is_the_packed_record() {
    let f = frame();
    match payload(&DisplayMessage::ActiveData(f), 0x01020304) {
        Payload::Measurement(bytes) => {
            assert_eq!(bytes, Sen55Packed::new(&f, 0x01020304).to_bytes());
            assert_eq!(&bytes[24..], &[0x04, 0x03, 0x02, 0x01]);
            assert_eq!(bytes[0], 0x00);
            assert_eq!(bytes[1], 0x64);
        },
        Payload::Notice(_) => panic!("live data gives a measurement"),
    }
}

#[test]
fn short_error_gets_a_line_break() {
    assert_eq!(notice("Hello from the machine"), "Hello from the machine\n");
    assert_eq!(notice("SEN55 not ready"), "SEN55 not ready\n");
}

#[test]
fn error_of_27_bytes_still_gets_a_line_break() {
    let m = "abcdefghijklmnopqrstuvwxyz0";
    assert_eq!(m.len(), 27);
    assert_eq!(notice(m), format!("{}\n", m));
}

#[test]
fn error_of_28_bytes_loses_the_line_break() {
    let m = "abcdefghijklmnopqrstuvwxyz01";
    assert_eq!(notice(m), m);
}

#[test]
fn error_longer_than_the_buffer_sends_nothing() {
    assert_eq!(notice("Communication with SEN55 failed"), "");
}

#[test]
fn message_is_sent_on_a_working_connection() {
    let msg = DisplayMessage::ActiveData(frame());
    let (p, a) = UplinkPhase::Receiving.step(UplinkEvent::Message(msg), 9);
    assert!(matches!(a, UplinkAction::CheckStack));
    let (p, a) = p.step(UplinkEvent::StackUp(true), 9);
    assert!(matches!(a, UplinkAction::Connect));
    let (p, a) = p.step(UplinkEvent::Connected(true), 9);
    match a {
        UplinkAction::Send(Payload::Measurement(bytes)) => {
            assert_eq!(bytes, Sen55Packed::new(&frame(), 9).to_bytes())
        },
        _ => panic!("expected the measurement to be sent"),
    }
    let (p, a) = p.step(UplinkEvent::Done, 9);
    assert!(matches!(a, UplinkAction::Flush));
    let (p, a) = p.step(UplinkEvent::Done, 9);
    assert!(matches!(a, UplinkAction::Close));
    let (p, a) = p.step(UplinkEvent::Done, 9);
    assert!(matches!(a, UplinkAction::Sleep(50)));
    let (_, a) = p.step(UplinkEvent::Done, 9);
    assert!(matches!(a, UplinkAction::Receive));
}

#[test]
fn refused_connection_is_aborted_and_flushed() {
    let msg = DisplayMessage::SystemError(ErrorMeta { code: "CRC", long_message: "CRC Failed from SEN55" });
    let (p, _) = UplinkPhase::Receiving.step(UplinkEvent::Message(msg), 0);
    let (p, _) = p.step(UplinkEvent::StackUp(true), 0);
    let (p, a) = p.step(UplinkEvent::Connected(false), 0);
    assert!(matches!(a, UplinkAction::Abort));
    let (p, a) = p.step(UplinkEvent::Done, 0);
    assert!(matches!(a, UplinkAction::Flush));
    let (p, a) = p.step(UplinkEvent::Done, 0);
    assert!(matches!(a, UplinkAction::Sleep(50)));
    assert!(matches!(p, UplinkPhase::Resting));
}

#[test]
fn message_is_dropped_while_the_stack_is_down() {
    let msg = DisplayMessage::ActiveData(frame());
    let (p, _) = UplinkPhase::Receiving.step(UplinkEvent::Message(msg), 0);
    let (p, a) = p.step(UplinkEvent::StackUp(false), 0);
    assert!(matches!(a, UplinkAction::Sleep(50)));
    let (_, a) = p.step(UplinkEvent::Done, 0);
    assert!(matches!(a, UplinkAction::Receive));
}

#[test]
fn error_notice_is_sent() {
    let msg = DisplayMessage::SystemError(ErrorMeta { code: "NRD", long_message: "SEN55 not ready" });
    let (p, _) = UplinkPhase::Receiving.step(UplinkEvent::Message(msg), 0);
    let (p, _) = p.step(UplinkEvent::StackUp(true), 0);
    let (_, a) = p.step(UplinkEvent::Connected(true), 0);
    match a {
        UplinkAction::Send(Payload::Notice(text)) => assert_eq!(text.as_str(), "SEN55 not ready\n"),
        _ => panic!("expected the notice to be sent"),
    }
}
