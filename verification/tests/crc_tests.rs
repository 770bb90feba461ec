use airqual::sensiron_sensor_reading::validate_crc;

#[test]
fn datasheet_example_checksum_is_accepted() {
    // Sensirion's published example: CRC(0xBEEF) = 0x92.
    assert!(validate_crc(&[0xBE, 0xEF], 0x92));
}

#[test]
fn wrong_checksum_is_refused() {
    assert!(!validate_crc(&[0xBE, 0xEF], 0x93));
    assert!(!validate_crc(&[0xBE, 0xEF], 0x00));
}

#[test]
fn zero_word_checksum() {
    assert!(validate_crc(&[0x00, 0x00], 0x81));
    assert!(!validate_crc(&[0x00, 0x00], 0xFF));
}

#[test]
fn empty_data_checksum_is_the_initial_value() {
    assert!(validate_crc(&[], 0xFF));
    assert!(!validate_crc(&[], 0x00));
}

#[test]
fn checksums_of_other_words() {
    assert!(validate_crc(&[0x00, 0x64], 0xFE));
    assert!(validate_crc(&[0x13, 0x88], 0x01));
    assert!(validate_crc(&[0xFF, 0xF6], 0x24));
}

#[test]
fn every_single_bit_error_is_caught() {
    for pos in 0..2 {
        for bit in 0..8 {
            let mut word = [0xBE, 0xEF];
            word[pos] ^= 1 << bit;
            assert!(!validate_crc(&word, 0x92), "byte {} bit {}", pos, bit);
        }
    }
}
