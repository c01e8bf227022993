//! Single-wire sensor protocol decoder.
//!
//! The hardware layer drives the wake handshake on the GPIO pin, samples the
//! line once per bit slot and reports what it saw as plain values: how long
//! the line stayed high before the device answered, whether the line was
//! still low after the response probe, and the 40 sampled bit levels. The
//! functions here turn those observations into a validated `Reading` or a
//! typed failure, and that decision is what is verified.

use vstd::prelude::*;

verus! {

/// Milliseconds the decoder is willing to wait for the device to pull the
/// line low during the wake handshake.
pub const TIMEOUT_MILLIS: u64 = 1000;

/// Byte value the raw bit reader reserves as its timeout marker; any frame
/// byte equal to it aborts the whole frame.
pub const TIMEOUT_SENTINEL: u8 = 253;

/// How a single-attempt sensor read can fail.
#[derive(Debug, Clone, Copy, PartialEq, Eq, Structural)]
pub enum SensorError {
    /// The fifth frame byte does not match the sum of the first four.
    ChecksumMismatch,
    /// A bounded wait on the line ran out, or a frame byte hit the reserved
    /// timeout marker.
    Timeout,
    /// Reserved for electrical-mode faults; the decode path never produces it.
    PinError,
}

/// One validated sensor reading: integer percent humidity and signed integer
/// degrees. The sensor's fractional bytes carry no real fraction and are
/// discarded by design.
#[derive(Debug, Clone, Copy, PartialEq, Eq, Structural)]
pub struct Reading {
    pub humidity: u8,
    pub temperature: i8,
}

/// The five raw bytes of one sensor frame, in wire order.
#[derive(Debug, Clone, Copy, PartialEq, Eq, Structural)]
pub struct ProtocolFrame {
    pub humidity_int: u8,
    pub humidity_frac: u8,
    pub temp_int: u8,
    pub temp_frac: u8,
    pub checksum: u8,
}

impl ProtocolFrame {
    /// The frame as the byte sequence it came from.
    pub open spec fn bytes(self) -> Seq<u8> {
        seq![
            self.humidity_int,
            self.humidity_frac,
            self.temp_int,
            self.temp_frac,
            self.checksum,
        ]
    }
}

/// What the hardware layer observed while running the wake handshake.
#[derive(Debug, Clone, Copy, PartialEq, Eq, Structural)]
pub struct HandshakeObservation {
    /// Milliseconds the line stayed high before the device pulled it low; if
    /// the device never answered, the time the bounded wait ran before giving
    /// up.
    pub high_wait_millis: u64,
    /// Whether the line was still low after the response probe delay, i.e.
    /// the device never raised the line for its ready pulse.
    pub low_after_probe: bool,
}

/// The handshake fails when the initial high-wait exceeded the timeout
/// budget, or when the line was still stuck low after the response probe.
pub open spec fn handshake_timed_out(h: HandshakeObservation) -> bool {
    h.high_wait_millis > TIMEOUT_MILLIS || h.low_after_probe
}

/// Value of a bit string read most-significant-bit first.
pub open spec fn bits_value(s: Seq<bool>) -> nat
    decreases s.len(),
{
    if s.len() == 0 {
        0
    } else {
        2 * bits_value(s.drop_last()) + (if s.last() {
            1nat
        } else {
            0nat
        })
    }
}

/// The five frame bytes packed from 40 sampled bit levels.
pub open spec fn frame_bytes(samples: Seq<bool>) -> Seq<u8> {
    Seq::new(5, |i: int| bits_value(samples.subrange(8 * i, 8 * i + 8)) as u8)
}

/// Whether some frame byte equals the reserved timeout marker.
pub open spec fn has_sentinel(bytes: Seq<u8>) -> bool {
    exists|i: int| 0 <= i < bytes.len() && bytes[i] == TIMEOUT_SENTINEL
}

/// The checksum relation: the fifth byte equals the wrapping 8-bit sum of the
/// first four.
pub open spec fn checksum_matches(bytes: Seq<u8>) -> bool
    recommends
        bytes.len() == 5,
{
    bytes[4] == (bytes[0] + bytes[1] + bytes[2] + bytes[3]) % 256
}

/// Signed temperature encoded in the integer temperature byte: the top bit is
/// the sign, the low seven bits the magnitude.
pub open spec fn temperature_value(temp_byte: u8) -> int {
    if temp_byte >= 128 {
        -((temp_byte - 128) as int)
    } else {
        temp_byte as int
    }
}

/// Frame validation: the timeout marker is checked first, then the checksum.
pub open spec fn frame_check(bytes: Seq<u8>) -> Result<ProtocolFrame, SensorError>
    recommends
        bytes.len() == 5,
{
    if has_sentinel(bytes) {
        Err(SensorError::Timeout)
    } else if !checksum_matches(bytes) {
        Err(SensorError::ChecksumMismatch)
    } else {
        Ok(
            ProtocolFrame {
                humidity_int: bytes[0],
                humidity_frac: bytes[1],
                temp_int: bytes[2],
                temp_frac: bytes[3],
                checksum: bytes[4],
            },
        )
    }
}

/// A validated frame projected onto a reading: humidity is the integer byte
/// as-is, temperature is sign/magnitude decoded; the fractional bytes are
/// dropped.
pub open spec fn frame_reading(frame: ProtocolFrame) -> Reading {
    Reading { humidity: frame.humidity_int, temperature: temperature_value(frame.temp_int) as i8 }
}

/// Decoding five raw bytes to a reading.
pub open spec fn reading_decode(bytes: Seq<u8>) -> Result<Reading, SensorError>
    recommends
        bytes.len() == 5,
{
    match frame_check(bytes) {
        Ok(frame) => Ok(frame_reading(frame)),
        Err(e) => Err(e),
    }
}

/// The whole single-attempt transaction: a failed handshake times out before
/// any bit is read; otherwise the 40 sampled levels are packed and decoded.
pub open spec fn transaction_decode(h: HandshakeObservation, samples: Seq<bool>) -> Result<
    Reading,
    SensorError,
> {
    if handshake_timed_out(h) {
        Err(SensorError::Timeout)
    } else {
        reading_decode(frame_bytes(samples))
    }
}

/// Splits the integer temperature byte into its sign bit and its seven-bit
/// magnitude.
pub fn convert_signed(signed: u8) -> (r: (bool, u8))
    ensures
        r.0 == (signed & 0x80 != 0),
        r.1 == signed & 0x7F,
        r.0 == (signed >= 128),
        r.1 == if signed >= 128 {
            signed - 128
        } else {
            signed as int
        },
{
    let sign = signed & 0x80 != 0;
    let magnitude = signed & 0x7F;
    proof {
        assert((signed & 0x80 != 0) == (signed >= 128)) by (bit_vector);
        assert(signed >= 128 ==> signed & 0x7F == signed - 128) by (bit_vector);
        assert(signed < 128 ==> signed & 0x7F == signed) by (bit_vector);
    }
    (sign, magnitude)
}

/// Upper bound of a packed bit string: strictly below two to its length.
proof fn lemma_bits_value_bound(s: Seq<bool>)
    ensures
        s.len() <= 8 ==> bits_value(s) < 256,
        s.len() <= 7 ==> bits_value(s) < 128,
        s.len() <= 6 ==> bits_value(s) < 64,
        s.len() <= 5 ==> bits_value(s) < 32,
        s.len() <= 4 ==> bits_value(s) < 16,
        s.len() <= 3 ==> bits_value(s) < 8,
        s.len() <= 2 ==> bits_value(s) < 4,
        s.len() <= 1 ==> bits_value(s) < 2,
    decreases s.len(),
{
    if s.len() > 0 {
        lemma_bits_value_bound(s.drop_last());
    }
}

/// Packs eight sampled line levels, most significant bit first, into one
/// byte, starting at `start` within the sample slice.
pub fn pack_bits(samples: &[bool], start: usize) -> (b: u8)
    requires
        start + 8 <= samples@.len(),
    ensures
        b == bits_value(samples@.subrange(start as int, start as int + 8)),
{
    let ghost sub = samples@.subrange(start as int, start as int + 8);
    let n = samples.len();
    let mut acc: u8 = 0;
    let mut i: usize = 0;
    while i < 8
        invariant
            i <= 8,
            n == samples@.len(),
            start + 8 <= samples@.len(),
            sub == samples@.subrange(start as int, start as int + 8),
            acc == bits_value(sub.take(i as int)),
        decreases 8 - i,
    {
        proof {
            lemma_bits_value_bound(sub.take(i as int));
            assert(sub.take(i as int + 1).drop_last() =~= sub.take(i as int));
            assert(sub.take(i as int + 1).last() == samples@[start as int + i as int]);
        }
        acc = 2 * acc + (if samples[start + i] {
            1
        } else {
            0
        });
        i = i + 1;
    }
    proof {
        assert(sub.take(8) =~= sub);
    }
    acc
}

/// Packs the 40 sampled bit levels of one frame into its five bytes.
pub fn read_frame_bytes(samples: &[bool]) -> (bytes: Vec<u8>)
    requires
        samples@.len() == 40,
    ensures
        bytes@ == frame_bytes(samples@),
{
    let mut bytes: Vec<u8> = Vec::new();
    let mut i: usize = 0;
    while i < 5
        invariant
            i <= 5,
            samples@.len() == 40,
            bytes@.len() == i,
            forall|j: int| 0 <= j < i ==> bytes@[j] == frame_bytes(samples@)[j],
        decreases 5 - i,
    {
        let b = pack_bits(samples, 8 * i);
        proof {
            lemma_bits_value_bound(samples@.subrange(8 * i as int, 8 * i as int + 8));
        }
        bytes.push(b);
        i = i + 1;
    }
    proof {
        assert(bytes@ =~= frame_bytes(samples@));
    }
    bytes
}

/// Validates five raw frame bytes: a byte equal to the timeout marker aborts
/// first, then the checksum is compared, then the frame is accepted.
pub fn decode_frame(bytes: &[u8]) -> (r: Result<ProtocolFrame, SensorError>)
    requires
        bytes@.len() == 5,
    ensures
        r == frame_check(bytes@),
{
    let mut i: usize = 0;
    while i < 5
        invariant
            i <= 5,
            bytes@.len() == 5,
            forall|j: int| 0 <= j < i ==> bytes@[j] != TIMEOUT_SENTINEL,
        decreases 5 - i,
    {
        if bytes[i] == TIMEOUT_SENTINEL {
            return Err(SensorError::Timeout);
        }
        i = i + 1;
    }
    let sum = ((bytes[0] as u32 + bytes[1] as u32 + bytes[2] as u32 + bytes[3] as u32) % 256)
        as u8;
    if bytes[4] != sum {
        return Err(SensorError::ChecksumMismatch);
    }
    Ok(
        ProtocolFrame {
            humidity_int: bytes[0],
            humidity_frac: bytes[1],
            temp_int: bytes[2],
            temp_frac: bytes[3],
            checksum: bytes[4],
        },
    )
}

/// Projects a validated frame onto a reading, decoding the temperature's sign
/// bit and magnitude.
pub fn project_reading(frame: &ProtocolFrame) -> (r: Reading)
    ensures
        r == frame_reading(*frame),
        r.humidity == frame.humidity_int,
        r.temperature == temperature_value(frame.temp_int),
{
    let (sign, magnitude) = convert_signed(frame.temp_int);
    let temperature: i8 = if sign {
        -(magnitude as i8)
    } else {
        magnitude as i8
    };
    Reading { humidity: frame.humidity_int, temperature }
}

/// One full decode attempt from what the hardware observed: handshake first,
/// then bit packing, then frame validation, then projection.
pub fn decode_transaction(handshake: &HandshakeObservation, samples: &[bool]) -> (r: Result<
    Reading,
    SensorError,
>)
    requires
        samples@.len() == 40,
    ensures
        r == transaction_decode(*handshake, samples@),
{
    if handshake.high_wait_millis > TIMEOUT_MILLIS {
        return Err(SensorError::Timeout);
    }
    if handshake.low_after_probe {
        return Err(SensorError::Timeout);
    }
    let bytes = read_frame_bytes(samples);
    match decode_frame(bytes.as_slice()) {
        Ok(frame) => Ok(project_reading(&frame)),
        Err(e) => Err(e),
    }
}

/// Every frame that carries no timeout marker and satisfies the checksum
/// relation decodes successfully, humidity is the first byte as-is, and the
/// temperature comes from the third byte by its top bit and low seven bits.
pub proof fn lemma_valid_frame_decodes(bytes: Seq<u8>)
    requires
        bytes.len() == 5,
        !has_sentinel(bytes),
        checksum_matches(bytes),
    ensures
        reading_decode(bytes) == Ok::<Reading, SensorError>(
            Reading {
                humidity: bytes[0],
                temperature: temperature_value(bytes[2]) as i8,
            },
        ),
        bytes[2] & 0x80 == 0 ==> temperature_value(bytes[2]) == bytes[2] & 0x7F,
        bytes[2] & 0x80 != 0 ==> temperature_value(bytes[2]) == -((bytes[2] & 0x7F) as int),
{
    let b2 = bytes[2];
    assert((b2 & 0x80 != 0) == (b2 >= 128)) by (bit_vector);
    assert(b2 >= 128 ==> b2 & 0x7F == b2 - 128) by (bit_vector);
    assert(b2 < 128 ==> b2 & 0x7F == b2) by (bit_vector);
}

/// A frame that passes validation carries exactly the five wire bytes it was
/// decoded from, in order.
pub proof fn lemma_accepted_frame_keeps_its_bytes(bytes: Seq<u8>)
    requires
        bytes.len() == 5,
    ensures
        frame_check(bytes) matches Ok(frame) ==> frame.bytes() == bytes,
{
    if let Ok(frame) = frame_check(bytes) {
        assert(frame.bytes() =~= bytes);
    }
}

/// Every frame that fails the checksum relation is rejected: it never yields
/// a reading, and when no byte hits the timeout marker the error is exactly
/// the checksum mismatch.
pub proof fn lemma_checksum_mismatch_rejected(bytes: Seq<u8>)
    requires
        bytes.len() == 5,
        !checksum_matches(bytes),
    ensures
        reading_decode(bytes) is Err,
        !has_sentinel(bytes) ==> reading_decode(bytes) == Err::<Reading, SensorError>(
            SensorError::ChecksumMismatch,
        ),
{
}

/// Whenever the wake handshake's high-wait exceeds the timeout budget, the
/// whole transaction fails with a timeout, whatever the sampled levels hold.
pub proof fn lemma_handshake_timeout_fails(h: HandshakeObservation, samples: Seq<bool>)
    requires
        h.high_wait_millis > TIMEOUT_MILLIS,
    ensures
        transaction_decode(h, samples) == Err::<Reading, SensorError>(SensorError::Timeout),
{
}

} // verus!
