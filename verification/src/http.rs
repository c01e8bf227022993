//! Telemetry request assembly.
//!
//! The node posts one JSON reading per wake cycle. The request is assembled
//! into a fixed-capacity buffer; unlike the unchecked byte copies such
//! firmware often starts from, every write here is capacity-checked and an
//! oversized request is reported as an error rather than a panic. The wire
//! bytes are pinned down exactly: header fragments, the decimal
//! content-length and the JSON body with its integer fields.

use vstd::prelude::*;
use vstd::string::StringSliceAdditionalSpecFns;
use vstd::string::is_ascii;

verus! {

broadcast use vstd::string::is_ascii_spec_bytes;

/// Capacity of the fixed buffer a POST request is assembled into.
pub const POST_CAPACITY: usize = 256;

/// Capacity of the fixed buffer a GET request is assembled into.
pub const GET_CAPACITY: usize = 64;

/// How request assembly can fail.
#[derive(Debug, Clone, Copy, PartialEq, Eq, Structural)]
pub enum HttpError {
    /// The assembled request does not fit its fixed buffer.
    BufferOverflow,
}

/// The bytes of an ASCII character sequence, one byte per character.
pub open spec fn ascii_bytes(s: Seq<char>) -> Seq<u8> {
    Seq::new(s.len(), |i: int| s[i] as u8)
}

/// Decimal digits of `n`, most significant first, no leading zeros.
pub open spec fn dec_digits(n: nat) -> Seq<u8>
    decreases n,
{
    if n < 10 {
        seq![(n + 48) as u8]
    } else {
        dec_digits(n / 10).push((n % 10 + 48) as u8)
    }
}

/// Decimal digits of a signed value, with a leading minus when negative.
pub open spec fn int_digits(v: int) -> Seq<u8> {
    if v < 0 {
        seq![45u8] + dec_digits((-v) as nat)
    } else {
        dec_digits(v as nat)
    }
}

/// The JSON telemetry body: both fields are integers, as the sensor's
/// resolution gives nothing finer.
pub open spec fn json_bytes(temperature: i8, humidity: u8) -> Seq<u8> {
    ascii_bytes("{\"temp\":"@) + int_digits(temperature as int) + ascii_bytes(",\"hum\":"@)
        + dec_digits(humidity as nat) + ascii_bytes("}"@)
}

/// The POST request for one telemetry payload, headers then body.
pub open spec fn post_request(path: Seq<u8>, host: Seq<u8>, data: Seq<u8>) -> Seq<u8> {
    ascii_bytes("POST "@) + path + ascii_bytes(" HTTP/1.0\r\n"@) + ascii_bytes("Host: "@) + host
        + ascii_bytes("\r\n"@) + ascii_bytes("Content-Type: application/json\r\n"@) + ascii_bytes(
        "Content-Length: "@,
    ) + dec_digits(data.len()) + ascii_bytes("\r\n\r\n"@) + data
}

/// The GET request for a fixed path.
pub open spec fn get_request(path: Seq<u8>, host: Seq<u8>) -> Seq<u8> {
    ascii_bytes("GET "@) + path + ascii_bytes(" HTTP/1.0\r\n"@) + ascii_bytes("Host: "@) + host
        + ascii_bytes("\r\n\r\n"@)
}

/// A run of zero bytes.
pub open spec fn zeros(n: nat) -> Seq<u8> {
    Seq::new(n, |i: int| 0u8)
}

/// Appends a byte slice to a vector.
fn append_bytes(v: &mut Vec<u8>, s: &[u8])
    ensures
        final(v)@ == old(v)@ + s@,
{
    let mut i: usize = 0;
    while i < s.len()
        invariant
            i <= s@.len(),
            v@ == old(v)@ + s@.take(i as int),
        decreases s@.len() - i,
    {
        v.push(s[i]);
        proof {
            assert(s@.take(i + 1) =~= s@.take(i as int).push(s@[i as int]));
        }
        i = i + 1;
    }
    proof {
        assert(s@.take(s@.len() as int) =~= s@);
    }
}

/// Appends the bytes of an ASCII string to a vector.
fn append_ascii(v: &mut Vec<u8>, s: &str)
    requires
        is_ascii(s),
    ensures
        final(v)@ == old(v)@ + ascii_bytes(s@),
{
    append_bytes(v, s.as_bytes());
    proof {
        assert(s.spec_bytes() =~= ascii_bytes(s@));
    }
}

/// Decimal formatting of an unsigned machine integer.
pub fn format_usize(n: usize) -> (v: Vec<u8>)
    ensures
        v@ == dec_digits(n as nat),
    decreases n,
{
    if n < 10 {
        let mut v: Vec<u8> = Vec::new();
        v.push(48 + n as u8);
        proof {
            assert(v@ =~= dec_digits(n as nat));
        }
        v
    } else {
        let mut v = format_usize(n / 10);
        v.push(48 + (n % 10) as u8);
        v
    }
}

/// Decimal formatting of a signed temperature, minus sign included.
pub fn format_temperature(t: i8) -> (v: Vec<u8>)
    ensures
        v@ == int_digits(t as int),
{
    if t < 0 {
        let mut v: Vec<u8> = Vec::new();
        v.push(45);
        let magnitude: i32 = -(t as i32);
        let digits = format_usize(magnitude as usize);
        append_bytes(&mut v, digits.as_slice());
        proof {
            assert(v@ =~= int_digits(t as int));
        }
        v
    } else {
        format_usize(t as usize)
    }
}

/// The JSON telemetry body as bytes.
pub fn json_payload(temperature: i8, humidity: u8) -> (v: Vec<u8>)
    ensures
        v@ == json_bytes(temperature, humidity),
{
    proof {
        reveal_strlit("{\"temp\":");
        reveal_strlit(",\"hum\":");
        reveal_strlit("}");
    }
    let mut v: Vec<u8> = Vec::new();
    append_ascii(&mut v, "{\"temp\":");
    let temp = format_temperature(temperature);
    append_bytes(&mut v, temp.as_slice());
    append_ascii(&mut v, ",\"hum\":");
    let hum = format_usize(humidity as usize);
    append_bytes(&mut v, hum.as_slice());
    append_ascii(&mut v, "}");
    v
}

/// A byte writer over a fixed capacity: every write is checked and an
/// overfull write is refused whole, leaving the contents untouched.
pub struct ArrayWriter {
    buffer: Vec<u8>,
    capacity: usize,
}

impl View for ArrayWriter {
    type V = Seq<u8>;

    closed spec fn view(&self) -> Seq<u8> {
        self.buffer@
    }
}

impl ArrayWriter {
    /// The fixed capacity the writer was created with.
    pub closed spec fn spec_capacity(&self) -> usize {
        self.capacity
    }

    /// The writer never holds more than its capacity.
    pub closed spec fn inv(&self) -> bool {
        self.buffer@.len() <= self.capacity
    }

    /// An empty writer over `capacity` bytes.
    pub fn new(capacity: usize) -> (w: Self)
        ensures
            w@ == Seq::<u8>::empty(),
            w.spec_capacity() == capacity,
            w.inv(),
    {
        ArrayWriter { buffer: Vec::new(), capacity }
    }

    /// How many bytes have been written.
    pub fn len(&self) -> (n: usize)
        ensures
            n == self@.len(),
    {
        self.buffer.len()
    }

    /// Appends raw bytes if they fit, refuses them whole otherwise.
    pub fn write_bytes(&mut self, s: &[u8]) -> (r: Result<(), HttpError>)
        requires
            old(self).inv(),
        ensures
            final(self).inv(),
            final(self).spec_capacity() == old(self).spec_capacity(),
            r is Ok <==> old(self)@.len() + s@.len() <= old(self).spec_capacity(),
            r is Ok ==> final(self)@ == old(self)@ + s@,
            r is Err ==> final(self)@ == old(self)@ && r == Err::<(), HttpError>(
                HttpError::BufferOverflow,
            ),
    {
        if s.len() <= self.capacity - self.buffer.len() {
            append_bytes(&mut self.buffer, s);
            Ok(())
        } else {
            Err(HttpError::BufferOverflow)
        }
    }

    /// Appends the UTF-8 bytes of a string if they fit, refuses them whole
    /// otherwise; for ASCII text that is one byte per character.
    pub fn write_str(&mut self, s: &str) -> (r: Result<(), HttpError>)
        requires
            old(self).inv(),
        ensures
            final(self).inv(),
            final(self).spec_capacity() == old(self).spec_capacity(),
            r is Ok <==> old(self)@.len() + s.spec_bytes().len() <= old(self).spec_capacity(),
            r is Ok ==> final(self)@ == old(self)@ + s.spec_bytes(),
            r is Ok && is_ascii(s) ==> final(self)@ == old(self)@ + ascii_bytes(s@),
            r is Err ==> final(self)@ == old(self)@ && r == Err::<(), HttpError>(
                HttpError::BufferOverflow,
            ),
    {
        let r = self.write_bytes(s.as_bytes());
        proof {
            if is_ascii(s) {
                assert(s.spec_bytes() =~= ascii_bytes(s@));
            }
        }
        r
    }

    /// Hands the written bytes out.
    pub fn into_bytes(self) -> (v: Vec<u8>)
        ensures
            v@ == self@,
    {
        self.buffer
    }
}

/// Writes the JSON telemetry body into the writer and returns the writer's
/// new length; an overfull body is refused whole.
pub fn write_json(writer: &mut ArrayWriter, temperature: i8, humidity: u8) -> (r: Result<
    usize,
    HttpError,
>)
    requires
        old(writer).inv(),
    ensures
        final(writer).inv(),
        final(writer).spec_capacity() == old(writer).spec_capacity(),
        r is Ok <==> old(writer)@.len() + json_bytes(temperature, humidity).len() <= old(
            writer,
        ).spec_capacity(),
        r matches Ok(n) ==> final(writer)@ == old(writer)@ + json_bytes(temperature, humidity)
            && n == final(writer)@.len(),
        r is Err ==> final(writer)@ == old(writer)@ && r == Err::<usize, HttpError>(
            HttpError::BufferOverflow,
        ),
{
    let body = json_payload(temperature, humidity);
    match writer.write_bytes(body.as_slice()) {
        Ok(()) => Ok(writer.len()),
        Err(e) => Err(e),
    }
}

/// Assembles the POST request for one telemetry payload into its
/// fixed-capacity buffer, zero-padded to the full capacity as it goes out on
/// the wire; a request that does not fit is reported, not truncated.
pub fn post_request_bytes(path: &[u8], host: &[u8], data: &[u8]) -> (r: Result<
    Vec<u8>,
    HttpError,
>)
    ensures
        r is Ok <==> post_request(path@, host@, data@).len() <= POST_CAPACITY,
        r matches Ok(v) ==> v@ == post_request(path@, host@, data@) + zeros(
            (POST_CAPACITY - post_request(path@, host@, data@).len()) as nat,
        ),
        r is Err ==> r == Err::<Vec<u8>, HttpError>(HttpError::BufferOverflow),
{
    proof {
        reveal_strlit("POST ");
        reveal_strlit(" HTTP/1.0\r\n");
        reveal_strlit("Host: ");
        reveal_strlit("\r\n");
        reveal_strlit("Content-Type: application/json\r\n");
        reveal_strlit("Content-Length: ");
        reveal_strlit("\r\n\r\n");
    }
    let mut v: Vec<u8> = Vec::new();
    append_ascii(&mut v, "POST ");
    append_bytes(&mut v, path);
    append_ascii(&mut v, " HTTP/1.0\r\n");
    append_ascii(&mut v, "Host: ");
    append_bytes(&mut v, host);
    append_ascii(&mut v, "\r\n");
    append_ascii(&mut v, "Content-Type: application/json\r\n");
    append_ascii(&mut v, "Content-Length: ");
    let length_digits = format_usize(data.len());
    append_bytes(&mut v, length_digits.as_slice());
    append_ascii(&mut v, "\r\n\r\n");
    append_bytes(&mut v, data);
    if v.len() > POST_CAPACITY {
        return Err(HttpError::BufferOverflow);
    }
    pad_to(&mut v, POST_CAPACITY);
    Ok(v)
}

/// Assembles the GET request for a fixed path into its fixed-capacity
/// buffer, zero-padded to the full capacity; a request that does not fit is
/// reported, not truncated.
pub fn _get_request_bytes(path: &[u8], host: &[u8]) -> (r: Result<Vec<u8>, HttpError>)
    ensures
        r is Ok <==> get_request(path@, host@).len() <= GET_CAPACITY,
        r matches Ok(v) ==> v@ == get_request(path@, host@) + zeros(
            (GET_CAPACITY - get_request(path@, host@).len()) as nat,
        ),
        r is Err ==> r == Err::<Vec<u8>, HttpError>(HttpError::BufferOverflow),
{
    proof {
        reveal_strlit("GET ");
        reveal_strlit(" HTTP/1.0\r\n");
        reveal_strlit("Host: ");
        reveal_strlit("\r\n\r\n");
    }
    let mut v: Vec<u8> = Vec::new();
    append_ascii(&mut v, "GET ");
    append_bytes(&mut v, path);
    append_ascii(&mut v, " HTTP/1.0\r\n");
    append_ascii(&mut v, "Host: ");
    append_bytes(&mut v, host);
    append_ascii(&mut v, "\r\n\r\n");
    if v.len() > GET_CAPACITY {
        return Err(HttpError::BufferOverflow);
    }
    pad_to(&mut v, GET_CAPACITY);
    Ok(v)
}

/// Pads a vector with zero bytes up to the buffer capacity.
fn pad_to(v: &mut Vec<u8>, capacity: usize)
    requires
        old(v)@.len() <= capacity,
    ensures
        final(v)@ == old(v)@ + zeros((capacity - old(v)@.len()) as nat),
{
    let start = v.len();
    let mut i: usize = start;
    while i < capacity
        invariant
            start <= i <= capacity,
            v@ == old(v)@ + zeros((i - start) as nat),
            old(v)@.len() == start,
        decreases capacity - i,
    {
        v.push(0);
        proof {
            assert(zeros((i + 1 - start) as nat) =~= zeros((i - start) as nat).push(0u8));
        }
        i = i + 1;
    }
}

/// Socket buffers for one telemetry connection, preallocated at fixed sizes.
pub struct HttpClient {
    rx_buffer: Vec<u8>,
    tx_buffer: Vec<u8>,
    read_buffer: Vec<u8>,
}

impl HttpClient {
    /// Receive-buffer size.
    pub closed spec fn rx_len(&self) -> nat {
        self.rx_buffer@.len()
    }

    /// Transmit-buffer size.
    pub closed spec fn tx_len(&self) -> nat {
        self.tx_buffer@.len()
    }

    /// Response read-buffer size.
    pub closed spec fn read_len(&self) -> nat {
        self.read_buffer@.len()
    }

    /// All three buffers hold nothing but zero bytes.
    pub closed spec fn zeroed(&self) -> bool {
        self.rx_buffer@ == zeros(self.rx_buffer@.len()) && self.tx_buffer@ == zeros(
            self.tx_buffer@.len(),
        ) && self.read_buffer@ == zeros(self.read_buffer@.len())
    }

    /// A fresh client with its three buffers preallocated and zeroed.
    pub fn new() -> (c: Self)
        ensures
            c.rx_len() == 4096,
            c.tx_len() == 4096,
            c.read_len() == 1024,
            c.zeroed(),
    {
        let mut rx_buffer: Vec<u8> = Vec::new();
        pad_to(&mut rx_buffer, 4096);
        let mut tx_buffer: Vec<u8> = Vec::new();
        pad_to(&mut tx_buffer, 4096);
        let mut read_buffer: Vec<u8> = Vec::new();
        pad_to(&mut read_buffer, 1024);
        proof {
            assert(rx_buffer@ =~= zeros(4096));
            assert(tx_buffer@ =~= zeros(4096));
            assert(read_buffer@ =~= zeros(1024));
        }
        HttpClient { rx_buffer, tx_buffer, read_buffer }
    }
}

} // verus!
