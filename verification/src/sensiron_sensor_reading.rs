use vstd::prelude::*;

use crate::byte_order::{
    be_i16, be_u16, i16_bits, i16_from_be_bytes, i16_to_be_bytes, u16_from_be_bytes,
    u16_to_be_bytes,
};

verus! {

/// A short code for the screen and a longer text for the collecting host.
#[derive(Clone, Copy, Debug, PartialEq, Eq)]
pub struct ErrorMeta {
    pub code: &'static str,
    pub long_message: &'static str,
}

/// What the sensor loop hands to the display and to the uplink.
#[derive(Clone, Copy, Debug, PartialEq, Eq)]
pub enum DisplayMessage {
    ActiveData(Sen55Frame),
    SystemError(ErrorMeta),
}

/// Generator polynomial of the Sensirion CRC-8 (x^8 + x^5 + x^4 + 1).
pub const CRC8_POLYNOMIAL: u8 = 0x31;

/// Initial register value of the Sensirion CRC-8.
pub const CRC8_INIT: u8 = 0xFF;

/// One step of the bitwise CRC register: shift left by one, folding the
/// polynomial in when the top bit falls out.
pub open spec fn crc_shift(crc: u8) -> u8 {
    if crc & 0x80 != 0 {
        ((crc << 1u8) ^ CRC8_POLYNOMIAL) as u8
    } else {
        (crc << 1u8) as u8
    }
}

/// The register after `n` shifts.
pub open spec fn crc_shifts(crc: u8, n: nat) -> u8
    decreases n,
{
    if n == 0 {
        crc
    } else {
        crc_shift(crc_shifts(crc, (n - 1) as nat))
    }
}

/// The register after one data byte has been folded in.
pub open spec fn crc_absorb(crc: u8, byte: u8) -> u8 {
    crc_shifts(crc ^ byte, 8)
}

/// The register after folding in every byte of `data`, starting from `crc`.
pub open spec fn crc_over(crc: u8, data: Seq<u8>) -> u8
    decreases data.len(),
{
    if data.len() == 0 {
        crc
    } else {
        crc_absorb(crc_over(crc, data.drop_last()), data.last())
    }
}

/// The Sensirion CRC-8 checksum of `data`.
pub open spec fn crc8(data: Seq<u8>) -> u8 {
    crc_over(CRC8_INIT, data)
}

/// Checks `expected` against the Sensirion CRC-8 of `data`.
pub fn validate_crc(data: &[u8], expected: u8) -> (ok: bool)
    ensures
        ok == (crc8(data@) == expected),
{
    let mut crc: u8 = CRC8_INIT;
    let mut i: usize = 0;
    while i < data.len()
        invariant
            i <= data@.len(),
            crc == crc_over(CRC8_INIT, data@.take(i as int)),
        decreases data@.len() - i,
    {
        let byte = data[i];
        crc = crc ^ byte;
        let ghost start = crc;
        let mut bit: u8 = 0;
        while bit < 8
            invariant
                bit <= 8,
                crc == crc_shifts(start, bit as nat),
            decreases 8 - bit,
        {
            if (crc & 0x80) != 0 {
                crc = (crc << 1) ^ CRC8_POLYNOMIAL;
            } else {
                crc = crc << 1;
            }
            bit = bit + 1;
        }
        assert(data@.take(i + 1).drop_last() =~= data@.take(i as int));
        i = i + 1;
    }
    assert(data@.take(data@.len() as int) =~= data@);
    crc == expected
}

/// Bytewise exclusive or of two byte strings of the same length.
pub open spec fn xor_bytes(a: Seq<u8>, b: Seq<u8>) -> Seq<u8> {
    Seq::new(a.len(), |i: int| a[i] ^ b[i])
}

/// `n` zero bytes.
pub open spec fn zero_bytes(n: nat) -> Seq<u8> {
    Seq::new(n, |i: int| 0u8)
}

/// `data` with bit `bit` of byte `pos` inverted.
pub open spec fn flip_bit(data: Seq<u8>, pos: int, bit: u8) -> Seq<u8> {
    data.update(pos, data[pos] ^ (1u8 << bit))
}

proof fn crc_shift_linear(x: u8, y: u8)
    ensures
        crc_shift(x ^ y) == crc_shift(x) ^ crc_shift(y),
{
    assert((if (x ^ y) & 0x80 != 0 { (((x ^ y) << 1u8) ^ 0x31u8) as u8 } else { ((x ^ y) << 1u8) as u8 })
        == (if x & 0x80 != 0 { ((x << 1u8) ^ 0x31u8) as u8 } else { (x << 1u8) as u8 }) ^ (if y & 0x80
        != 0 { ((y << 1u8) ^ 0x31u8) as u8 } else { (y << 1u8) as u8 })) by (bit_vector);
}

proof fn crc_shift_keeps_nonzero(x: u8)
    requires
        x != 0,
    ensures
        crc_shift(x) != 0,
{
    assert(x != 0 ==> (if x & 0x80 != 0 { ((x << 1u8) ^ 0x31u8) as u8 } else { (x << 1u8) as u8 }) != 0)
        by (bit_vector);
}

proof fn crc_shifts_linear(x: u8, y: u8, n: nat)
    ensures
        crc_shifts(x ^ y, n) == crc_shifts(x, n) ^ crc_shifts(y, n),
    decreases n,
{
    if n > 0 {
        crc_shifts_linear(x, y, (n - 1) as nat);
        crc_shift_linear(crc_shifts(x, (n - 1) as nat), crc_shifts(y, (n - 1) as nat));
    }
}

proof fn crc_shifts_keep_nonzero(x: u8, n: nat)
    requires
        x != 0,
    ensures
        crc_shifts(x, n) != 0,
    decreases n,
{
    if n > 0 {
        crc_shifts_keep_nonzero(x, (n - 1) as nat);
        crc_shift_keeps_nonzero(crc_shifts(x, (n - 1) as nat));
    }
}

/// The CRC register is linear in the starting value and the data together.
proof fn crc_over_linear(c1: u8, c2: u8, d1: Seq<u8>, d2: Seq<u8>)
    requires
        d1.len() == d2.len(),
    ensures
        crc_over(c1 ^ c2, xor_bytes(d1, d2)) == crc_over(c1, d1) ^ crc_over(c2, d2),
    decreases d1.len(),
{
    if d1.len() > 0 {
        let x = xor_bytes(d1, d2);
        assert(x.drop_last() =~= xor_bytes(d1.drop_last(), d2.drop_last()));
        crc_over_linear(c1, c2, d1.drop_last(), d2.drop_last());
        let a1 = crc_over(c1, d1.drop_last());
        let a2 = crc_over(c2, d2.drop_last());
        let l1 = d1.last();
        let l2 = d2.last();
        assert((a1 ^ a2) ^ (l1 ^ l2) == (a1 ^ l1) ^ (a2 ^ l2)) by (bit_vector);
        crc_shifts_linear(a1 ^ l1, a2 ^ l2, 8);
    }
}

/// The CRC-8 is affine over GF(2): the checksum of the exclusive or of two
/// strings of the same length is the exclusive or of their checksums and
/// the checksum of as many zero bytes.
pub proof fn crc8_is_affine(a: Seq<u8>, b: Seq<u8>)
    requires
        a.len() == b.len(),
    ensures
        crc8(xor_bytes(a, b)) == crc8(a) ^ crc8(b) ^ crc8(zero_bytes(a.len())),
{
    crc_over_linear(CRC8_INIT, 0, a, b);
    assert(CRC8_INIT ^ 0u8 == CRC8_INIT) by (bit_vector);
    crc_over_linear(CRC8_INIT, CRC8_INIT, b, zero_bytes(a.len()));
    assert(xor_bytes(b, zero_bytes(a.len())) =~= b) by {
        assert forall|i: int| 0 <= i < b.len() implies b[i] ^ 0u8 == b[i] by {
            let v = b[i];
            assert(v ^ 0u8 == v) by (bit_vector);
        }
    }
    assert(CRC8_INIT ^ CRC8_INIT == 0u8) by (bit_vector);
    let x = crc8(a);
    let y = crc8(b);
    let z = crc8(zero_bytes(a.len()));
    let w = crc_over(0, b);
    assert(w == y ^ z ==> x ^ w == x ^ y ^ z) by (bit_vector);
}

/// The register of a string that is zero but for one nonzero byte stays
/// nonzero from that byte on.
proof fn crc_of_one_nonzero_byte(e: Seq<u8>, pos: int, k: int)
    requires
        0 <= pos < k <= e.len(),
        e[pos] != 0,
        forall|i: int| 0 <= i < e.len() && i != pos ==> e[i] == 0,
    ensures
        crc_over(0, e.take(k)) != 0,
    decreases k,
{
    let prefix = e.take(k);
    assert(prefix.drop_last() =~= e.take(k - 1));
    let before = crc_over(0, e.take(k - 1));
    if k - 1 == pos {
        crc_of_zero_bytes(e, pos);
        let b = e[pos];
        assert(0u8 ^ b == b) by (bit_vector);
        crc_shifts_keep_nonzero(0u8 ^ b, 8);
    } else {
        crc_of_one_nonzero_byte(e, pos, k - 1);
        assert(before ^ 0u8 == before) by (bit_vector);
        crc_shifts_keep_nonzero(before ^ 0u8, 8);
    }
}

/// The register started at zero stays zero over zero bytes.
proof fn crc_of_zero_bytes(e: Seq<u8>, k: int)
    requires
        0 <= k <= e.len(),
        forall|i: int| 0 <= i < k ==> e[i] == 0,
    ensures
        crc_over(0, e.take(k)) == 0,
    decreases k,
{
    if k > 0 {
        assert(e.take(k).drop_last() =~= e.take(k - 1));
        crc_of_zero_bytes(e, k - 1);
        assert(e.take(k).last() == 0);
        assert(0u8 ^ 0u8 == 0u8) by (bit_vector);
        crc_shifts_linear(0, 0, 8);
        let z = crc_shifts(0, 8);
        assert(z == z ^ z ==> z == 0) by (bit_vector);
    }
}

/// A single inverted bit anywhere in the data always changes the CRC-8, so
/// `validate_crc` catches every single-bit error in the data.
pub proof fn single_bit_errors_change_the_crc(data: Seq<u8>, pos: int, bit: u8)
    requires
        0 <= pos < data.len(),
        bit < 8,
    ensures
        crc8(flip_bit(data, pos, bit)) != crc8(data),
{
    let e = zero_bytes(data.len()).update(pos, 1u8 << bit);
    assert((1u8 << bit) != 0) by (bit_vector)
        requires
            bit < 8,
    ;
    assert(flip_bit(data, pos, bit) =~= xor_bytes(data, e)) by {
        assert forall|i: int| 0 <= i < data.len() && i != pos implies data[i] ^ e[i] == data[i] by {
            let v = data[i];
            assert(v ^ 0u8 == v) by (bit_vector);
        }
    }
    crc_over_linear(CRC8_INIT, 0, data, e);
    assert(CRC8_INIT ^ 0u8 == CRC8_INIT) by (bit_vector);
    crc_of_one_nonzero_byte(e, pos, e.len() as int);
    assert(e.take(e.len() as int) =~= e);
    let x = crc8(data);
    let w = crc_over(0, e);
    assert(w != 0 ==> x ^ w != x) by (bit_vector);
}

/// A reply that passed the CRC check is refused once any single bit of it
/// is inverted, whether in a data byte or in a CRC byte.
pub proof fn parse_refuses_any_single_bit_corruption(buffer: Seq<u8>, pos: int, bit: u8)
    requires
        buffer.len() == 24,
        all_triplets_ok(buffer),
        0 <= pos < 24,
        bit < 8,
    ensures
        !all_triplets_ok(flip_bit(buffer, pos, bit)),
{
    let k = pos / 3;
    let flipped = flip_bit(buffer, pos, bit);
    assert(triplet_ok(buffer, k));
    assert((1u8 << bit) != 0) by (bit_vector)
        requires
            bit < 8,
    ;
    let v = buffer[pos];
    assert(v ^ (1u8 << bit) != v) by (bit_vector)
        requires
            bit < 8,
    ;
    if pos % 3 == 2 {
        assert(flipped.subrange(3 * k, 3 * k + 2) =~= buffer.subrange(3 * k, 3 * k + 2));
        assert(!triplet_ok(flipped, k));
    } else {
        let word = buffer.subrange(3 * k, 3 * k + 2);
        assert(flipped.subrange(3 * k, 3 * k + 2) =~= flip_bit(word, pos - 3 * k, bit));
        single_bit_errors_change_the_crc(word, pos - 3 * k, bit);
        assert(!triplet_ok(flipped, k));
    }
}

/// One measurement reply of the SEN55, as sent on the wire: eight words,
/// each followed by its CRC byte.
///
/// PM values are in 0.1 µg/m³, humidity in 0.01 %RH, temperature in
/// 0.005 °C, the VOC and NOx indices in 0.1 units.
#[derive(Clone, Copy, Debug, PartialEq, Eq, Structural)]
pub struct Sen55Frame {
    pub pm1_0: u16,
    pub pm1_0_crc: u8,
    pub pm2_5: u16,
    pub pm2_5_crc: u8,
    pub pm4_0: u16,
    pub pm4_0_crc: u8,
    pub pm10_0: u16,
    pub pm10_0_crc: u8,
    pub humidity: i16,
    pub humidity_crc: u8,
    pub temperature: i16,
    pub temperature_crc: u8,
    pub voc_index: i16,
    pub voc_crc: u8,
    pub nox_index: i16,
    pub nox_crc: u8,
}

/// The `k`-th triplet `[MSB, LSB, CRC]` of `bytes` carries a correct CRC.
pub open spec fn triplet_ok(bytes: Seq<u8>, k: int) -> bool {
    crc8(bytes.subrange(3 * k, 3 * k + 2)) == bytes[3 * k + 2]
}

/// Every one of the eight triplets of a reply carries a correct CRC.
pub open spec fn all_triplets_ok(bytes: Seq<u8>) -> bool {
    forall|k: int| 0 <= k < 8 ==> #[trigger] triplet_ok(bytes, k)
}

/// The frame that a 24-byte reply lays out, words big-endian.
pub open spec fn decode_frame(b: Seq<u8>) -> Sen55Frame {
    Sen55Frame {
        pm1_0: be_u16(b[0], b[1]),
        pm1_0_crc: b[2],
        pm2_5: be_u16(b[3], b[4]),
        pm2_5_crc: b[5],
        pm4_0: be_u16(b[6], b[7]),
        pm4_0_crc: b[8],
        pm10_0: be_u16(b[9], b[10]),
        pm10_0_crc: b[11],
        humidity: be_i16(b[12], b[13]),
        humidity_crc: b[14],
        temperature: be_i16(b[15], b[16]),
        temperature_crc: b[17],
        voc_index: be_i16(b[18], b[19]),
        voc_crc: b[20],
        nox_index: be_i16(b[21], b[22]),
        nox_crc: b[23],
    }
}

/// Most significant byte of an unsigned word.
pub open spec fn u16_hi(v: u16) -> u8 {
    (v as int / 256) as u8
}

/// Least significant byte of an unsigned word.
pub open spec fn u16_lo(v: u16) -> u8 {
    (v as int % 256) as u8
}

/// Most significant byte of a signed word's bit pattern.
pub open spec fn i16_hi(v: i16) -> u8 {
    (i16_bits(v) / 256) as u8
}

/// Least significant byte of a signed word's bit pattern.
pub open spec fn i16_lo(v: i16) -> u8 {
    (i16_bits(v) % 256) as u8
}

/// The 24-byte memory layout of a frame: each word big-endian, followed by
/// its CRC byte.
pub open spec fn encode_frame(f: Sen55Frame) -> Seq<u8> {
    seq![
        u16_hi(f.pm1_0), u16_lo(f.pm1_0), f.pm1_0_crc,
        u16_hi(f.pm2_5), u16_lo(f.pm2_5), f.pm2_5_crc,
        u16_hi(f.pm4_0), u16_lo(f.pm4_0), f.pm4_0_crc,
        u16_hi(f.pm10_0), u16_lo(f.pm10_0), f.pm10_0_crc,
        i16_hi(f.humidity), i16_lo(f.humidity), f.humidity_crc,
        i16_hi(f.temperature), i16_lo(f.temperature), f.temperature_crc,
        i16_hi(f.voc_index), i16_lo(f.voc_index), f.voc_crc,
        i16_hi(f.nox_index), i16_lo(f.nox_index), f.nox_crc,
    ]
}

/// Every word of the frame carries the CRC of its two big-endian bytes.
pub open spec fn frame_checksums_ok(f: Sen55Frame) -> bool {
    &&& crc8(seq![u16_hi(f.pm1_0), u16_lo(f.pm1_0)]) == f.pm1_0_crc
    &&& crc8(seq![u16_hi(f.pm2_5), u16_lo(f.pm2_5)]) == f.pm2_5_crc
    &&& crc8(seq![u16_hi(f.pm4_0), u16_lo(f.pm4_0)]) == f.pm4_0_crc
    &&& crc8(seq![u16_hi(f.pm10_0), u16_lo(f.pm10_0)]) == f.pm10_0_crc
    &&& crc8(seq![i16_hi(f.humidity), i16_lo(f.humidity)]) == f.humidity_crc
    &&& crc8(seq![i16_hi(f.temperature), i16_lo(f.temperature)]) == f.temperature_crc
    &&& crc8(seq![i16_hi(f.voc_index), i16_lo(f.voc_index)]) == f.voc_crc
    &&& crc8(seq![i16_hi(f.nox_index), i16_lo(f.nox_index)]) == f.nox_crc
}

/// Packing the frame read from a reply lays out exactly the bytes of that
/// reply: `Sen55Packed::new` after `Sen55Frame::parse` gives back the buffer.
pub proof fn packing_a_parsed_frame_restores_the_reply(buffer: [u8; 24])
    ensures
        encode_frame(decode_frame(buffer@)) == buffer@,
{
    assert(encode_frame(decode_frame(buffer@)) =~= buffer@);
}

/// Reading the layout of any frame gives that frame back.
pub proof fn reading_a_packed_frame_restores_it(f: Sen55Frame)
    ensures
        decode_frame(encode_frame(f)) == f,
{
    let b = encode_frame(f);
    assert(decode_frame(b) == f);
}

/// The layout of a frame passes the CRC check of `Sen55Frame::parse` exactly
/// when every word of the frame carries the CRC of its bytes; so parsing the
/// packed layout gives the frame back exactly for such frames.
pub proof fn packed_frame_passes_crc_check_iff_checksums_hold(f: Sen55Frame)
    ensures
        all_triplets_ok(encode_frame(f)) <==> frame_checksums_ok(f),
        all_triplets_ok(encode_frame(f)) ==> decode_frame(encode_frame(f)) == f,
{
    let b = encode_frame(f);
    reading_a_packed_frame_restores_it(f);
    assert(b.subrange(0, 2) =~= seq![u16_hi(f.pm1_0), u16_lo(f.pm1_0)]);
    assert(b.subrange(3, 5) =~= seq![u16_hi(f.pm2_5), u16_lo(f.pm2_5)]);
    assert(b.subrange(6, 8) =~= seq![u16_hi(f.pm4_0), u16_lo(f.pm4_0)]);
    assert(b.subrange(9, 11) =~= seq![u16_hi(f.pm10_0), u16_lo(f.pm10_0)]);
    assert(b.subrange(12, 14) =~= seq![i16_hi(f.humidity), i16_lo(f.humidity)]);
    assert(b.subrange(15, 17) =~= seq![i16_hi(f.temperature), i16_lo(f.temperature)]);
    assert(b.subrange(18, 20) =~= seq![i16_hi(f.voc_index), i16_lo(f.voc_index)]);
    assert(b.subrange(21, 23) =~= seq![i16_hi(f.nox_index), i16_lo(f.nox_index)]);
    if frame_checksums_ok(f) {
        assert forall|k: int| 0 <= k < 8 implies #[trigger] triplet_ok(b, k) by {
            if k == 0 {} else if k == 1 {} else if k == 2 {} else if k == 3 {}
            else if k == 4 {} else if k == 5 {} else if k == 6 {} else {}
        }
    }
    if all_triplets_ok(b) {
        assert(triplet_ok(b, 0));
        assert(triplet_ok(b, 1));
        assert(triplet_ok(b, 2));
        assert(triplet_ok(b, 3));
        assert(triplet_ok(b, 4));
        assert(triplet_ok(b, 5));
        assert(triplet_ok(b, 6));
        assert(triplet_ok(b, 7));
    }
}

impl Sen55Frame {
    /// Validates all 8 CRC bytes in the frame: the reply is accepted exactly
    /// when every `[MSB, LSB, CRC]` triplet checks out, and then read as
    /// big-endian words.
    pub fn parse(buffer: &[u8; 24]) -> (res: Option<Self>)
        ensures
            res == (if all_triplets_ok(buffer@) {
                Some(decode_frame(buffer@))
            } else {
                None
            }),
    {
        let frame = Sen55Frame {
            pm1_0: u16_from_be_bytes([buffer[0], buffer[1]]),
            pm1_0_crc: buffer[2],
            pm2_5: u16_from_be_bytes([buffer[3], buffer[4]]),
            pm2_5_crc: buffer[5],
            pm4_0: u16_from_be_bytes([buffer[6], buffer[7]]),
            pm4_0_crc: buffer[8],
            pm10_0: u16_from_be_bytes([buffer[9], buffer[10]]),
            pm10_0_crc: buffer[11],
            humidity: i16_from_be_bytes([buffer[12], buffer[13]]),
            humidity_crc: buffer[14],
            temperature: i16_from_be_bytes([buffer[15], buffer[16]]),
            temperature_crc: buffer[17],
            voc_index: i16_from_be_bytes([buffer[18], buffer[19]]),
            voc_crc: buffer[20],
            nox_index: i16_from_be_bytes([buffer[21], buffer[22]]),
            nox_crc: buffer[23],
        };
        assert(frame == decode_frame(buffer@));

        // Sensirion transmits in segments: [MSB, LSB, CRC]
        // validate each triplet.
        let mut k: usize = 0;
        while k < 8
            invariant
                k <= 8,
                buffer@.len() == 24,
                forall|j: int| 0 <= j < k ==> #[trigger] triplet_ok(buffer@, j),
            decreases 8 - k,
        {
            let start = 3 * k;
            let word = [buffer[start], buffer[start + 1]];
            assert(word@ =~= buffer@.subrange(3 * k as int, 3 * k as int + 2));
            if !validate_crc(word.as_slice(), buffer[start + 2]) {
                assert(!triplet_ok(buffer@, k as int));
                return None;
            }
            k = k + 1;
        }
        Some(frame)
    }
}

/// A frame together with the id of the sensor that took it, as sent to the
/// collecting host.
pub struct Sen55Packed {
    pub data: [u8; 24],
    pub sen_id: u32,
}

/// The bytes of a `u32` in the device's native (little-endian) order.
pub open spec fn u32_le(v: u32) -> Seq<u8> {
    seq![
        (v as int % 256) as u8,
        (v as int / 256 % 256) as u8,
        (v as int / 65536 % 256) as u8,
        (v as int / 16777216) as u8,
    ]
}

/// The four id bytes read back least significant first give the id.
pub proof fn u32_le_reads_back(v: u32)
    ensures
        u32_le(v).len() == 4,
        u32_le(v)[0] as int + 256 * u32_le(v)[1] as int + 65536 * u32_le(v)[2] as int + 16777216
            * u32_le(v)[3] as int == v as int,
{
    let x = v as int;
    let q1 = x / 256;
    let q2 = q1 / 256;
    let q3 = q2 / 256;
    assert(x == x % 256 + 256 * q1);
    assert(q1 == q1 % 256 + 256 * q2);
    assert(q2 == q2 % 256 + 256 * q3);
    assert(x / 65536 == q2) by (nonlinear_arith)
        requires
            q1 == x / 256,
            q2 == q1 / 256,
            x >= 0,
    ;
    assert(x / 16777216 == q3) by (nonlinear_arith)
        requires
            q1 == x / 256,
            q2 == q1 / 256,
            q3 == q2 / 256,
            x >= 0,
    ;
    assert(q3 < 256);
}

impl Sen55Packed {
    /// Copies the memory layout of the frame (24 contiguous bytes, words
    /// big-endian, each followed by its CRC) and tags it with the sensor id.
    pub fn new(frame: &Sen55Frame, sen_id: u32) -> (res: Self)
        ensures
            res.data@ == encode_frame(*frame),
            res.sen_id == sen_id,
    {
        let a = u16_to_be_bytes(frame.pm1_0);
        let b = u16_to_be_bytes(frame.pm2_5);
        let c = u16_to_be_bytes(frame.pm4_0);
        let d = u16_to_be_bytes(frame.pm10_0);
        let e = i16_to_be_bytes(frame.humidity);
        let f = i16_to_be_bytes(frame.temperature);
        let g = i16_to_be_bytes(frame.voc_index);
        let h = i16_to_be_bytes(frame.nox_index);
        let data = [
            a[0], a[1], frame.pm1_0_crc,
            b[0], b[1], frame.pm2_5_crc,
            c[0], c[1], frame.pm4_0_crc,
            d[0], d[1], frame.pm10_0_crc,
            e[0], e[1], frame.humidity_crc,
            f[0], f[1], frame.temperature_crc,
            g[0], g[1], frame.voc_crc,
            h[0], h[1], frame.nox_crc,
        ];
        assert(data@ =~= encode_frame(*frame));
        Sen55Packed { data, sen_id }
    }

    /// The 28 bytes of the packed record as they lie in memory: the frame's
    /// layout followed by the sensor id in native byte order.
    pub fn to_bytes(&self) -> (bytes: [u8; 28])
        ensures
            bytes@ == self.data@ + u32_le(self.sen_id),
    {
        let id = self.sen_id;
        let d = &self.data;
        let bytes = [
            d[0], d[1], d[2], d[3], d[4], d[5], d[6], d[7],
            d[8], d[9], d[10], d[11], d[12], d[13], d[14], d[15],
            d[16], d[17], d[18], d[19], d[20], d[21], d[22], d[23],
            (id % 256) as u8,
            (id / 256 % 256) as u8,
            (id / 65536 % 256) as u8,
            (id / 16777216) as u8,
        ];
        assert(bytes@ =~= self.data@ + u32_le(self.sen_id));
        bytes
    }
}

} // verus!
