use airqual::display::Screen;
use airqual::sensiron_sensor_reading::Sen55Frame;
use airqual::sensiron_sensor_reading::{DisplayMessage, ErrorMeta};

fn live_data() -> DisplayMessage {
    let reply: [u8; 24] = [
        0x00, 0x64, 0xFE, 0x00, 0x96, 0x1E, 0x00, 0xC8, 0x7F, 0x01, 0x2C, 0x8E, 0x11, 0x94, 0xE6,
        0x13, 0x88, 0x01, 0xFF, 0xF6, 0x24, 0x00, 0x0A, 0x5A,
    ];
    DisplayMessage::ActiveData(Sen55Frame::parse(&reply).unwrap())
}

fn error(code: &'static str) -> DisplayMessage {
    DisplayMessage::SystemError(ErrorMeta { code, long_message: "long text" })
}

#[test]
fn new_screen_is_blank() {
    let screen = Screen::new();
    assert_eq!(screen.label().as_str(), "");
}

#[test]
fn live_data_shows_ok() {
    let mut screen = Screen::new();
    assert!(screen.show(&live_data()));
    assert_eq!(screen.label().as_str(), "OK");
}

#[test]
fn same_label_is_not_repainted() {
    let mut screen = Screen::new();
    assert!(screen.show(&live_data()));
    assert!(!screen.show(&live_data()));
    assert_eq!(screen.label().as_str(), "OK");
    assert!(screen.show(&error("CRC")));
    assert!(!screen.show(&error("CRC")));
    assert_eq!(screen.label().as_str(), "CRC");
}

#[test]
fn errors_show_their_code() {
    let mut screen = Screen::new();
    assert!(screen.show(&error("HI")));
    assert_eq!(screen.label().as_str(), "HI");
    assert!(screen.show(&error("NRD")));
    assert_eq!(screen.label().as_str(), "NRD");
    assert!(screen.show(&live_data()));
    assert_eq!(screen.label().as_str(), "OK");
}

#[test]
fn code_that_fills_the_buffer_is_shown() {
    let mut screen = Screen::new();
    let code = "ABCDEFGHIJKLMNOPQRSTUVWXYZ012345";
    assert_eq!(code.len(), 32);
    assert!(screen.show(&error(code)));
    assert_eq!(screen.label().as_str(), code);
}

#[test]
fn code_longer_than_the_buffer_is_dropped() {
    let mut screen = Screen::new();
    assert!(screen.show(&error("COM")));
    assert!(!screen.show(&error("ABCDEFGHIJKLMNOPQRSTUVWXYZ0123456")));
    assert_eq!(screen.label().as_str(), "COM");
}

#[test]
fn empty_code_on_a_blank_screen_is_not_repainted() {
    let mut screen = Screen::new();
    assert!(!screen.show(&error("")));
    assert_eq!(screen.label().as_str(), "");
}

#[test]
fn buffer_counts_bytes_not_characters() {
    let mut screen = Screen::new();
    // 17 two-byte characters: 34 bytes.
    assert!(!screen.show(&error("ééééééééééééééééé")));
    // 16 two-byte characters: 32 bytes.
    assert!(screen.show(&error("éééééééééééééééé")));
    assert_eq!(screen.label().as_str(), "éééééééééééééééé");
}
