use telemetry_node::sensor::HandshakeObservation;
use telemetry_node::sensor::ProtocolFrame;
use telemetry_node::sensor::Reading;
use telemetry_node::sensor::SensorError;
use telemetry_node::sensor::convert_signed;
use telemetry_node::sensor::decode_frame;
use telemetry_node::sensor::decode_transaction;
use telemetry_node::sensor::pack_bits;
use telemetry_node::sensor::project_reading;
use telemetry_node::sensor::read_frame_bytes;

fn good_handshake() -> HandshakeObservation {
    HandshakeObservation { high_wait_millis: 0, low_after_probe: false }
}

/// The 40 line levels that encode the given five frame bytes, most
/// significant bit of each byte first.
fn samples_for(bytes: [u8; 5]) -> Vec<bool> {
    let mut samples = Vec::new();
    for byte in bytes {
        for bit in (0..8).rev() {
            samples.push(byte & (1 << bit) != 0);
        }
    }
    samples
}

#[test]
fn decodes_valid_frame() {
    let r = decode_transaction(&good_handshake(), &samples_for([60, 0, 25, 0, 85]));
    assert_eq!(r, Ok(Reading { humidity: 60, temperature: 25 }));
}

#[test]
fn rejects_checksum_mismatch() {
    let r = decode_transaction(&good_handshake(), &samples_for([60, 0, 25, 0, 86]));
    assert_eq!(r, Err(SensorError::ChecksumMismatch));
}

#[test]
fn decodes_negative_temperature() {
    // 0x99 = 0b1001_1001: sign bit set, magnitude 0x19 = 25.
    let r = decode_transaction(&good_handshake(), &samples_for([60, 0, 0x99, 0, 0xD5]));
    assert_eq!(r, Ok(Reading { humidity: 60, temperature: -25 }));
}

#[test]
fn handshake_high_wait_over_budget_times_out() {
    let handshake = HandshakeObservation { high_wait_millis: 1001, low_after_probe: false };
    let r = decode_transaction(&handshake, &samples_for([60, 0, 25, 0, 85]));
    assert_eq!(r, Err(SensorError::Timeout));
}

#[test]
fn handshake_at_budget_still_passes() {
    let handshake = HandshakeObservation { high_wait_millis: 1000, low_after_probe: false };
    let r = decode_transaction(&handshake, &samples_for([60, 0, 25, 0, 85]));
    assert_eq!(r, Ok(Reading { humidity: 60, temperature: 25 }));
}

#[test]
fn line_stuck_low_after_probe_times_out() {
    let handshake = HandshakeObservation { high_wait_millis: 0, low_after_probe: true };
    let r = decode_transaction(&handshake, &samples_for([60, 0, 25, 0, 85]));
    assert_eq!(r, Err(SensorError::Timeout));
}

#[test]
fn sentinel_byte_aborts_even_with_valid_checksum() {
    // 253 + 0 + 0 + 0 = 253: the checksum relation holds, yet the reserved
    // timeout marker in the first byte must win.
    let r = decode_transaction(&good_handshake(), &samples_for([253, 0, 0, 0, 253]));
    assert_eq!(r, Err(SensorError::Timeout));
}

#[test]
fn decode_frame_reports_sentinel_before_checksum() {
    let r = decode_frame(&[60, 0, 253, 0, 99]);
    assert_eq!(r, Err(SensorError::Timeout));
}

#[test]
fn decode_frame_accepts_and_keeps_all_bytes() {
    let r = decode_frame(&[100, 2, 31, 4, 137]);
    assert_eq!(
        r,
        Ok(ProtocolFrame {
            humidity_int: 100,
            humidity_frac: 2,
            temp_int: 31,
            temp_frac: 4,
            checksum: 137,
        })
    );
}

#[test]
fn checksum_wraps_at_256() {
    // 200 + 200 + 100 + 56 = 556, and 556 mod 256 = 44.
    let r = decode_frame(&[200, 200, 100, 56, 44]);
    assert!(r.is_ok());
}

#[test]
fn projection_drops_fractional_bytes() {
    let frame = ProtocolFrame {
        humidity_int: 42,
        humidity_frac: 9,
        temp_int: 21,
        temp_frac: 7,
        checksum: 79,
    };
    assert_eq!(project_reading(&frame), Reading { humidity: 42, temperature: 21 });
}

#[test]
fn convert_signed_splits_sign_and_magnitude() {
    assert_eq!(convert_signed(0x99), (true, 0x19));
    assert_eq!(convert_signed(25), (false, 25));
    assert_eq!(convert_signed(0x80), (true, 0));
    assert_eq!(convert_signed(0x7F), (false, 0x7F));
    assert_eq!(convert_signed(0), (false, 0));
    assert_eq!(convert_signed(0xFF), (true, 0x7F));
}

#[test]
fn pack_bits_reads_most_significant_first() {
    let samples = samples_for([0b1010_0101, 0, 0, 0, 0]);
    assert_eq!(pack_bits(&samples, 0), 0b1010_0101);
    assert_eq!(pack_bits(&samples, 8), 0);
}

#[test]
fn read_frame_bytes_recovers_all_five() {
    let bytes = read_frame_bytes(&samples_for([60, 0, 25, 0, 85]));
    assert_eq!(bytes, vec![60, 0, 25, 0, 85]);
}
