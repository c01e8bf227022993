use telemetry_node::http::ArrayWriter;
use telemetry_node::http::GET_CAPACITY;
use telemetry_node::http::HttpClient;
use telemetry_node::http::HttpError;
use telemetry_node::http::POST_CAPACITY;
use telemetry_node::http::_get_request_bytes;
use telemetry_node::http::format_temperature;
use telemetry_node::http::format_usize;
use telemetry_node::http::json_payload;
use telemetry_node::http::post_request_bytes;
use telemetry_node::http::write_json;

#[test]
fn json_payload_is_exact() {
    assert_eq!(json_payload(25, 60), b"{\"temp\":25,\"hum\":60}".to_vec());
}

#[test]
fn json_payload_negative_temperature() {
    assert_eq!(json_payload(-25, 60), b"{\"temp\":-25,\"hum\":60}".to_vec());
}

#[test]
fn json_payload_extremes() {
    assert_eq!(json_payload(-128, 100), b"{\"temp\":-128,\"hum\":100}".to_vec());
    assert_eq!(json_payload(127, 0), b"{\"temp\":127,\"hum\":0}".to_vec());
}

#[test]
fn format_usize_is_plain_decimal() {
    assert_eq!(format_usize(0), b"0".to_vec());
    assert_eq!(format_usize(10), b"10".to_vec());
    assert_eq!(format_usize(4096), b"4096".to_vec());
}

#[test]
fn format_temperature_handles_sign() {
    assert_eq!(format_temperature(0), b"0".to_vec());
    assert_eq!(format_temperature(-1), b"-1".to_vec());
    assert_eq!(format_temperature(127), b"127".to_vec());
    assert_eq!(format_temperature(-128), b"-128".to_vec());
}

#[test]
fn post_request_matches_the_wire_format() {
    let data = json_payload(25, 60);
    let v = post_request_bytes(b"/data", b"weather-station.local", &data).unwrap();
    let expected_head = b"POST /data HTTP/1.0\r\n\
Host: weather-station.local\r\n\
Content-Type: application/json\r\n\
Content-Length: 20\r\n\
\r\n\
{\"temp\":25,\"hum\":60}";
    assert_eq!(v.len(), POST_CAPACITY);
    assert_eq!(&v[..expected_head.len()], &expected_head[..]);
    assert!(v[expected_head.len()..].iter().all(|b| *b == 0));
}

#[test]
fn post_request_overflow_is_reported() {
    let data = vec![65u8; 300];
    assert_eq!(
        post_request_bytes(b"/data", b"weather-station.local", &data),
        Err(HttpError::BufferOverflow)
    );
}

#[test]
fn get_request_matches_the_wire_format() {
    let v = _get_request_bytes(b"/", b"www.mobile-j.de").unwrap();
    let expected_head = b"GET / HTTP/1.0\r\nHost: www.mobile-j.de\r\n\r\n";
    assert_eq!(v.len(), GET_CAPACITY);
    assert_eq!(&v[..expected_head.len()], &expected_head[..]);
    assert!(v[expected_head.len()..].iter().all(|b| *b == 0));
}

#[test]
fn get_request_overflow_is_reported() {
    let v = _get_request_bytes(b"/a/very/long/path/that/cannot/fit", b"an-overlong-host.example.org");
    assert_eq!(v, Err(HttpError::BufferOverflow));
}

#[test]
fn array_writer_appends_until_full() {
    let mut w = ArrayWriter::new(8);
    assert_eq!(w.len(), 0);
    assert_eq!(w.write_bytes(b"abcd"), Ok(()));
    assert_eq!(w.len(), 4);
    assert_eq!(w.write_str("ef"), Ok(()));
    assert_eq!(w.len(), 6);
    // A write that does not fit is refused whole.
    assert_eq!(w.write_bytes(b"ghi"), Err(HttpError::BufferOverflow));
    assert_eq!(w.len(), 6);
    assert_eq!(w.into_bytes(), b"abcdef".to_vec());
}

#[test]
fn write_json_reports_the_new_length() {
    let mut w = ArrayWriter::new(64);
    assert_eq!(write_json(&mut w, 25, 60), Ok(20));
    assert_eq!(w.into_bytes(), b"{\"temp\":25,\"hum\":60}".to_vec());
}

#[test]
fn write_json_overflow_leaves_the_writer_untouched() {
    let mut w = ArrayWriter::new(4);
    assert_eq!(write_json(&mut w, 25, 60), Err(HttpError::BufferOverflow));
    assert_eq!(w.len(), 0);
}

#[test]
fn http_client_preallocates_its_buffers() {
    let _client = HttpClient::new();
}
