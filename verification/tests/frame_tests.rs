use airqual::sensiron_sensor_reading::validate_crc;
use airqual::sensiron_sensor_reading::{Sen55Frame, Sen55Packed};

fn sample_reply() -> [u8; 24] {
    [
        0x00, 0x64, 0xFE, // pm1.0 = 100
        0x00, 0x96, 0x1E, // pm2.5 = 150
        0x00, 0xC8, 0x7F, // pm4.0 = 200
        0x01, 0x2C, 0x8E, // pm10 = 300
        0x11, 0x94, 0xE6, // humidity = 4500
        0x13, 0x88, 0x01, // temperature = 5000
        0xFF, 0xF6, 0x24, // voc = -10
        0x00, 0x0A, 0x5A, // nox = 10
    ]
}

#[test]
fn valid_reply_is_parsed_big_endian() {
    let frame = Sen55Frame::parse(&sample_reply()).expect("all CRCs are valid");
    assert_eq!(frame.pm1_0, 100);
    assert_eq!(frame.pm1_0_crc, 0xFE);
    assert_eq!(frame.pm2_5, 150);
    assert_eq!(frame.pm4_0, 200);
    assert_eq!(frame.pm10_0, 300);
    assert_eq!(frame.humidity, 4500);
    assert_eq!(frame.temperature, 5000);
    assert_eq!(frame.voc_index, -10);
    assert_eq!(frame.voc_crc, 0x24);
    assert_eq!(frame.nox_index, 10);
    assert_eq!(frame.nox_crc, 0x5A);
}

#[test]
fn any_bad_crc_byte_refuses_the_reply() {
    for k in 0..8 {
        let mut reply = sample_reply();
        reply[3 * k + 2] ^= 0x01;
        assert!(Sen55Frame::parse(&reply).is_none(), "triplet {}", k);
    }
}

#[test]
fn corrupted_data_byte_refuses_the_reply() {
    let mut reply = sample_reply();
    reply[13] ^= 0x80;
    assert!(Sen55Frame::parse(&reply).is_none());
}

#[test]
fn all_zero_reply_is_refused() {
    assert!(Sen55Frame::parse(&[0u8; 24]).is_none());
}

#[test]
fn negative_words_are_twos_complement() {
    let mut reply = sample_reply();
    // humidity word 0x8000 is the most negative i16
    reply[12] = 0x80;
    reply[13] = 0x00;
    let crc = (0u8..=255).find(|c| validate_crc(&[0x80, 0x00], *c)).unwrap();
    reply[14] = crc;
    let frame = Sen55Frame::parse(&reply).unwrap();
    assert_eq!(frame.humidity, i16::MIN);
    assert_eq!(frame.humidity_crc, crc);
}

#[test]
fn packing_a_parsed_frame_restores_the_reply() {
    let reply = sample_reply();
    let frame = Sen55Frame::parse(&reply).unwrap();
    let packed = Sen55Packed::new(&frame, 7);
    assert_eq!(packed.data, reply);
    assert_eq!(packed.sen_id, 7);
}

#[test]
fn parsing_a_packed_frame_restores_it() {
    let frame = Sen55Frame::parse(&sample_reply()).unwrap();
    let packed = Sen55Packed::new(&frame, 0);
    assert_eq!(Sen55Frame::parse(&packed.data), Some(frame));
}

#[test]
fn packing_lays_words_out_big_endian() {
    let frame = Sen55Frame {
        pm1_0: 0x1234,
        pm1_0_crc: 1,
        pm2_5: 0xABCD,
        pm2_5_crc: 2,
        pm4_0: 0,
        pm4_0_crc: 3,
        pm10_0: 0xFFFF,
        pm10_0_crc: 4,
        humidity: -1,
        humidity_crc: 5,
        temperature: 0x0102,
        temperature_crc: 6,
        voc_index: -256,
        voc_crc: 7,
        nox_index: i16::MAX,
        nox_crc: 8,
    };
    let packed = Sen55Packed::new(&frame, 0);
    assert_eq!(
        packed.data,
        [
            0x12, 0x34, 1, 0xAB, 0xCD, 2, 0x00, 0x00, 3, 0xFF, 0xFF, 4, 0xFF, 0xFF, 5, 0x01, 0x02,
            6, 0xFF, 0x00, 7, 0x7F, 0xFF, 8,
        ]
    );
    // Its checksums are not those of its words, so it does not parse back.
    assert!(Sen55Frame::parse(&packed.data).is_none());
}

#[test]
fn packed_record_ends_with_the_id_little_endian() {
    let frame = Sen55Frame::parse(&sample_reply()).unwrap();
    let packed = Sen55Packed::new(&frame, 0x0A0B_0C0D);
    let bytes = packed.to_bytes();
    assert_eq!(bytes.len(), 28);
    assert_eq!(&bytes[..24], &sample_reply()[..]);
    assert_eq!(&bytes[24..], &[0x0D, 0x0C, 0x0B, 0x0A]);
}

#[test]
fn every_single_bit_corruption_of_a_reply_is_refused() {
    for pos in 0..24 {
        for bit in 0..8 {
            let mut reply = sample_reply();
            reply[pos] ^= 1 << bit;
            assert!(Sen55Frame::parse(&reply).is_none(), "byte {} bit {}", pos, bit);
        }
    }
}
