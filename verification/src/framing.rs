//! Length-prefixed messages: each message on the daemon's socket is a
//! four-byte big-endian length followed by that many bytes.

use vstd::prelude::*;
use vstd::string::StringExecFns;

use crate::text::{decimal, u64_to_string};

verus! {

/// The largest message body a reader accepts: 64 MiB.
pub const MAX_MESSAGE_LEN: u64 = 64 * 1024 * 1024;

/// The four big-endian bytes of `x`.
pub open spec fn be_bytes(x: u32) -> Seq<u8> {
    seq![
        (x / 0x100_0000) as u8,
        ((x / 0x1_0000) % 0x100) as u8,
        ((x / 0x100) % 0x100) as u8,
        (x % 0x100) as u8,
    ]
}

/// The number that four big-endian bytes denote.
pub open spec fn be_value(b: Seq<u8>) -> nat {
    (b[0] * 0x100_0000 + b[1] * 0x1_0000 + b[2] * 0x100 + b[3]) as nat
}

/// The length field that a writer puts before a body of `len` bytes: the
/// length cut to 32 bits.
pub open spec fn header_for(len: nat) -> Seq<u8> {
    be_bytes((len % 0x1_0000_0000) as u32)
}

/// Why a reader refuses a message.
#[derive(Debug, Clone, Copy, PartialEq, Eq, Structural)]
pub enum FrameError {
    /// The announced body is longer than `MAX_MESSAGE_LEN`; holds its length.
    MessageTooLarge(u64),
}

/// What a reader makes of a length field: the body length, or a refusal.
pub open spec fn decode_header_spec(h: Seq<u8>) -> Result<nat, FrameError> {
    let len = be_value(h);
    if len > MAX_MESSAGE_LEN {
        Err(FrameError::MessageTooLarge(len as u64))
    } else {
        Ok(len)
    }
}

/// The length field for a body of `len` bytes.
pub fn frame_header(len: usize) -> (h: [u8; 4])
    ensures
        h@ == header_for(len as nat),
{
    let x: u32 = (len as u64 % 0x1_0000_0000) as u32;
    let h: [u8; 4] = [
        (x / 0x100_0000) as u8,
        ((x / 0x1_0000) % 0x100) as u8,
        ((x / 0x100) % 0x100) as u8,
        (x % 0x100) as u8,
    ];
    assert(h@ =~= be_bytes(x));
    h
}

/// A whole message: the length field followed by the body (what `write_msg` sends).
pub fn encode_frame(data: &[u8]) -> (f: Vec<u8>)
    ensures
        f@ == header_for(data@.len()) + data@,
{
    let h = frame_header(data.len());
    let mut f: Vec<u8> = Vec::new();
    f.push(h[0]);
    f.push(h[1]);
    f.push(h[2]);
    f.push(h[3]);
    assert(f@ =~= h@);
    let mut i: usize = 0;
    while i < data.len()
        invariant
            i <= data@.len(),
            f@ == h@ + data@.subrange(0, i as int),
        decreases data@.len() - i,
    {
        f.push(data[i]);
        i = i + 1;
        assert(f@ =~= h@ + data@.subrange(0, i as int));
    }
    assert(data@.subrange(0, data@.len() as int) =~= data@);
    f
}

/// The body length that a length field announces, refused above `MAX_MESSAGE_LEN`
/// (what `read_msg` checks before it reads the body).
pub fn decode_frame_header(h: [u8; 4]) -> (r: Result<usize, FrameError>)
    ensures
        match r {
            Ok(n) => decode_header_spec(h@) == Ok::<nat, FrameError>(n as nat),
            Err(e) => decode_header_spec(h@) == Err::<nat, FrameError>(e),
        },
{
    let len: u64 = (h[0] as u64) * 0x100_0000 + (h[1] as u64) * 0x1_0000 + (h[2] as u64) * 0x100
        + (h[3] as u64);
    if len > MAX_MESSAGE_LEN {
        Err(FrameError::MessageTooLarge(len))
    } else {
        Ok(len as usize)
    }
}

impl FrameError {
    /// The text of the error, as the reader reports it.
    pub fn message(&self) -> (m: String)
        ensures
            m@ == match *self {
                FrameError::MessageTooLarge(n) => "Message too large: "@ + decimal(n as nat)
                    + " bytes"@,
            },
    {
        match *self {
            FrameError::MessageTooLarge(n) => {
                let mut m = String::from_str("Message too large: ");
                let digits = u64_to_string(n);
                m.append(digits.as_str());
                m.append(" bytes");
                m
            },
        }
    }
}

/// A reader takes back exactly the length that a writer announced, for every
/// body that the reader accepts.
pub proof fn lemma_frame_header_roundtrip(len: nat)
    requires
        len <= MAX_MESSAGE_LEN,
    ensures
        decode_header_spec(header_for(len)) == Ok::<nat, FrameError>(len),
{
    let x = (len % 0x1_0000_0000) as u32;
    assert(x == len);
    let b = be_bytes(x);
    assert(be_value(b) == x) by (nonlinear_arith)
        requires
            b[0] == (x / 0x100_0000) as u8,
            b[1] == ((x / 0x1_0000) % 0x100) as u8,
            b[2] == ((x / 0x100) % 0x100) as u8,
            b[3] == (x % 0x100) as u8,
            be_value(b) == (b[0] * 0x100_0000 + b[1] * 0x1_0000 + b[2] * 0x100 + b[3]) as nat,
    ;
}

/// A reader of a whole message takes from its first four bytes the body's
/// length and from the bytes after them the body that was written, for every
/// body that the reader accepts.
pub proof fn lemma_frame_roundtrip(data: Seq<u8>)
    requires
        data.len() <= MAX_MESSAGE_LEN,
    ensures
        ({
            let f = header_for(data.len()) + data;
            &&& decode_header_spec(f.subrange(0, 4)) == Ok::<nat, FrameError>(data.len())
            &&& f.subrange(4, 4 + data.len() as int) == data
        }),
{
    let f = header_for(data.len()) + data;
    assert(f.subrange(0, 4) =~= header_for(data.len()));
    assert(f.subrange(4, 4 + data.len() as int) =~= data);
    lemma_frame_header_roundtrip(data.len());
}


/// The length field holds the body's length (cut to 32 bits) in four bytes,
/// the most significant first; a reader takes such a field for the number it
/// denotes, refusing it exactly when that number is above `MAX_MESSAGE_LEN`.
pub proof fn lemma_length_field_is_big_endian(len: nat, h: Seq<u8>)
    requires
        h.len() == 4,
    ensures
        header_for(len).len() == 4,
        header_for(len)[0] * 0x100_0000 + header_for(len)[1] * 0x1_0000 + header_for(len)[2] * 0x100
            + header_for(len)[3] == len % 0x1_0000_0000,
        h[0] * 0x100_0000 + h[1] * 0x1_0000 + h[2] * 0x100 + h[3] <= MAX_MESSAGE_LEN ==> decode_header_spec(h)
            == Ok::<nat, FrameError>((h[0] * 0x100_0000 + h[1] * 0x1_0000 + h[2] * 0x100 + h[3]) as nat),
        h[0] * 0x100_0000 + h[1] * 0x1_0000 + h[2] * 0x100 + h[3] > MAX_MESSAGE_LEN ==> decode_header_spec(h)
            == Err::<nat, FrameError>(
            FrameError::MessageTooLarge((h[0] * 0x100_0000 + h[1] * 0x1_0000 + h[2] * 0x100 + h[3]) as u64),
        ),
{
    let x = (len % 0x1_0000_0000) as u32;
    let b = be_bytes(x);
    assert(b[0] * 0x100_0000 + b[1] * 0x1_0000 + b[2] * 0x100 + b[3] == x) by (nonlinear_arith)
        requires
            b[0] == (x / 0x100_0000) as u8,
            b[1] == ((x / 0x1_0000) % 0x100) as u8,
            b[2] == ((x / 0x100) % 0x100) as u8,
            b[3] == (x % 0x100) as u8,
    ;
}

} // verus!
