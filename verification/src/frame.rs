//! The frame format that carries one message over a stream: eight bytes that
//! hold the message's length, most significant byte first, then the message
//! encrypted with the low byte of that length as the key.
//!
//! Writing a frame is `frame_header` followed by `frame_body`. Reading one is
//! a read of eight bytes checked by `header_length`, then a read of as many
//! bytes as the header announced, checked and decrypted by `open_body`.

use vstd::prelude::*;
use crate::cipher::{
    decrypt, decrypt_spec, encrypt, encrypt_spec, lemma_decrypt_arith, lemma_decrypt_encrypt,
    lemma_encrypt_arith,
};

verus! {

/// Why reading a frame failed.
#[derive(Debug, Clone, Copy, PartialEq, Eq, Structural)]
pub enum FrameError {
    /// The read of the header did not deliver all eight bytes.
    HeaderClosed,
    /// The read of the body delivered no byte.
    BodyClosed,
    /// The read of the body delivered another number of bytes than the header announced.
    LengthMismatch,
}

impl FrameError {
    /// The text that the error is reported with.
    pub fn message(&self) -> (m: &'static str)
        ensures
            *self == FrameError::HeaderClosed ==> m@ == "closed 1"@,
            *self == FrameError::BodyClosed ==> m@ == "closed 2"@,
            *self == FrameError::LengthMismatch ==> m@ == "read data len error"@,
    {
        match self {
            FrameError::HeaderClosed => "closed 1",
            FrameError::BodyClosed => "closed 2",
            FrameError::LengthMismatch => "read data len error",
        }
    }
}

/// The eight bytes of `n`, most significant first.
pub open spec fn be_bytes(n: u64) -> Seq<u8> {
    seq![
        (n >> 56u64) as u8,
        (n >> 48u64) as u8,
        (n >> 40u64) as u8,
        (n >> 32u64) as u8,
        (n >> 24u64) as u8,
        (n >> 16u64) as u8,
        (n >> 8u64) as u8,
        n as u8,
    ]
}

/// The number whose bytes, most significant first, are the first eight of `b`.
pub open spec fn be_value(b: Seq<u8>) -> u64
    recommends
        b.len() == 8,
{
    ((b[0] as u64) << 56u64) | ((b[1] as u64) << 48u64) | ((b[2] as u64) << 40u64) | ((
    b[3] as u64) << 32u64) | ((b[4] as u64) << 24u64) | ((b[5] as u64) << 16u64) | ((
    b[6] as u64) << 8u64) | (b[7] as u64)
}

/// The key that the body of a frame of `len` bytes is encrypted with.
pub open spec fn frame_key(len: u64) -> u8 {
    len as u8
}

/// The body of the frame that carries `data`.
pub open spec fn frame_body_spec(data: Seq<u8>) -> Seq<u8> {
    encrypt_spec(data, frame_key(data.len() as u64))
}

/// What checking a header gives: its length where the read delivered all
/// eight bytes.
pub open spec fn header_length_spec(header: Seq<u8>, n: usize) -> Result<u64, FrameError> {
    if n != 8 {
        Err(FrameError::HeaderClosed)
    } else {
        Ok(be_value(header))
    }
}

/// What opening a body gives: the decrypted body where the read delivered
/// exactly the announced number of bytes, which is not zero.
pub open spec fn open_body_spec(len: u64, body: Seq<u8>, n: usize) -> Result<Seq<u8>, FrameError> {
    if n == 0 {
        Err(FrameError::BodyClosed)
    } else if n as u64 != len {
        Err(FrameError::LengthMismatch)
    } else {
        Ok(decrypt_spec(body, frame_key(len)))
    }
}

/// The header of a frame that carries `len` bytes: `len`, most significant byte first.
pub fn frame_header(len: usize) -> (header: [u8; 8])
    ensures
        header@ == be_bytes(len as u64),
        header@[0] as int == (len as int / 0x100_0000_0000_0000) % 256,
        header@[1] as int == (len as int / 0x1_0000_0000_0000) % 256,
        header@[2] as int == (len as int / 0x100_0000_0000) % 256,
        header@[3] as int == (len as int / 0x1_0000_0000) % 256,
        header@[4] as int == (len as int / 0x100_0000) % 256,
        header@[5] as int == (len as int / 0x1_0000) % 256,
        header@[6] as int == (len as int / 0x100) % 256,
        header@[7] as int == len as int % 256,
{
    let n: u64 = len as u64;
    let header: [u8; 8] = [
        (n >> 56u64) as u8,
        (n >> 48u64) as u8,
        (n >> 40u64) as u8,
        (n >> 32u64) as u8,
        (n >> 24u64) as u8,
        (n >> 16u64) as u8,
        (n >> 8u64) as u8,
        n as u8,
    ];
    assert(header@ =~= be_bytes(n));
    proof {
        lemma_be_bytes_arith(n);
    }
    header
}

/// The body of the frame that carries `data`: `data` encrypted with the low
/// byte of its length as the key.
pub fn frame_body(data: &[u8]) -> (body: Vec<u8>)
    ensures
        body@ == frame_body_spec(data@),
        body@.len() == data@.len(),
        forall|i: int|
            0 <= i < data@.len() ==> #[trigger] body@[i] as int == (data@[i] as int + (if data@.len()
                % 256 == 0 {
                128int
            } else {
                (data@.len() % 256) as int
            })) % 256,
{
    let len: u64 = data.len() as u64;
    proof {
        lemma_frame_body_arith(data@);
    }
    encrypt(data, len as u8)
}

/// Checks the header that a read of `n` bytes filled: the length it announces,
/// or `HeaderClosed` where the read fell short of eight bytes.
pub fn header_length(header: &[u8; 8], n: usize) -> (res: Result<u64, FrameError>)
    ensures
        res == header_length_spec(header@, n),
        (n != 8) <==> res == Err::<u64, FrameError>(FrameError::HeaderClosed),
        res matches Ok(v) ==> v as int == header@[0] as int * 0x100_0000_0000_0000 + header@[1] as int
            * 0x1_0000_0000_0000 + header@[2] as int * 0x100_0000_0000 + header@[3] as int
            * 0x1_0000_0000 + header@[4] as int * 0x100_0000 + header@[5] as int * 0x1_0000
            + header@[6] as int * 0x100 + header@[7] as int,
{
    proof {
        lemma_be_value_arith(header@);
    }
    if n != 8 {
        return Err(FrameError::HeaderClosed);
    }
    let value: u64 = ((header[0] as u64) << 56u64) | ((header[1] as u64) << 48u64) | ((
    header[2] as u64) << 40u64) | ((header[3] as u64) << 32u64) | ((header[4] as u64)
        << 24u64) | ((header[5] as u64) << 16u64) | ((header[6] as u64) << 8u64) | (
    header[7] as u64);
    Ok(value)
}

/// Checks the body of a frame whose header announced `len` bytes, where the
/// read delivered `n` bytes into `body`, and decrypts it: `BodyClosed` where
/// nothing was delivered, `LengthMismatch` where another number of bytes than
/// `len` was, and the decrypted body otherwise.
pub fn open_body(len: u64, body: &[u8], n: usize) -> (res: Result<Vec<u8>, FrameError>)
    ensures
        res matches Ok(v) ==> open_body_spec(len, body@, n) == Ok::<Seq<u8>, FrameError>(v@),
        res matches Err(e) ==> open_body_spec(len, body@, n) == Err::<Seq<u8>, FrameError>(e),
        (n == 0) <==> res == Err::<Vec<u8>, FrameError>(FrameError::BodyClosed),
        (n != 0 && n as int != len as int) <==> res == Err::<Vec<u8>, FrameError>(
            FrameError::LengthMismatch,
        ),
        res matches Ok(v) ==> {
            &&& v@.len() == body@.len()
            &&& forall|i: int|
                0 <= i < body@.len() ==> #[trigger] v@[i] as int == (body@[i] as int + 256 - (if len
                    % 256 == 0 {
                    128int
                } else {
                    (len % 256) as int
                })) % 256
        },
{
    proof {
        lemma_open_body_arith(len, body@, n);
    }
    if n == 0 {
        return Err(FrameError::BodyClosed);
    }
    if n as u64 != len {
        return Err(FrameError::LengthMismatch);
    }
    Ok(decrypt(body, len as u8))
}

/// Reading back the eight bytes of a number gives the number.
pub proof fn lemma_be_value_of_be_bytes(n: u64)
    ensures
        be_value(be_bytes(n)) == n,
{
    assert((((n >> 56u64) as u8 as u64) << 56u64) | (((n >> 48u64) as u8 as u64) << 48u64) | (((
    n >> 40u64) as u8 as u64) << 40u64) | (((n >> 32u64) as u8 as u64) << 32u64) | (((n
        >> 24u64) as u8 as u64) << 24u64) | (((n >> 16u64) as u8 as u64) << 16u64) | (((n
        >> 8u64) as u8 as u64) << 8u64) | (n as u8 as u64) == n) by (bit_vector);
}

/// Eight bytes are the bytes of the number they hold.
pub proof fn lemma_be_bytes_of_be_value(b: Seq<u8>)
    requires
        b.len() == 8,
    ensures
        be_bytes(be_value(b)) == b,
{
    let (b0, b1, b2, b3, b4, b5, b6, b7) = (b[0], b[1], b[2], b[3], b[4], b[5], b[6], b[7]);
    let v: u64 = ((b0 as u64) << 56u64) | ((b1 as u64) << 48u64) | ((b2 as u64) << 40u64) | ((
    b3 as u64) << 32u64) | ((b4 as u64) << 24u64) | ((b5 as u64) << 16u64) | ((b6 as u64)
        << 8u64) | (b7 as u64);
    assert(v == be_value(b));
    assert((v >> 56u64) as u8 == b0 && (v >> 48u64) as u8 == b1 && (v >> 40u64) as u8 == b2
        && (v >> 32u64) as u8 == b3 && (v >> 24u64) as u8 == b4 && (v >> 16u64) as u8 == b5
        && (v >> 8u64) as u8 == b6 && v as u8 == b7) by (bit_vector)
        requires
            v == ((b0 as u64) << 56u64) | ((b1 as u64) << 48u64) | ((b2 as u64) << 40u64) | ((
            b3 as u64) << 32u64) | ((b4 as u64) << 24u64) | ((b5 as u64) << 16u64) | ((
            b6 as u64) << 8u64) | (b7 as u64),
    ;
    assert(be_bytes(be_value(b)) =~= b);
}

/// Byte `j` of a header is digit `j` of the number in base 256, most
/// significant first.
pub proof fn lemma_be_bytes_arith(n: u64)
    ensures
        be_bytes(n)[0] as int == (n as int / 0x100_0000_0000_0000) % 256,
        be_bytes(n)[1] as int == (n as int / 0x1_0000_0000_0000) % 256,
        be_bytes(n)[2] as int == (n as int / 0x100_0000_0000) % 256,
        be_bytes(n)[3] as int == (n as int / 0x1_0000_0000) % 256,
        be_bytes(n)[4] as int == (n as int / 0x100_0000) % 256,
        be_bytes(n)[5] as int == (n as int / 0x1_0000) % 256,
        be_bytes(n)[6] as int == (n as int / 0x100) % 256,
        be_bytes(n)[7] as int == n as int % 256,
{
    assert((n >> 56u64) as u8 == ((n / 0x100_0000_0000_0000) % 256) as u8
        && (n >> 48u64) as u8 == ((n / 0x1_0000_0000_0000) % 256) as u8
        && (n >> 40u64) as u8 == ((n / 0x100_0000_0000) % 256) as u8
        && (n >> 32u64) as u8 == ((n / 0x1_0000_0000) % 256) as u8
        && (n >> 24u64) as u8 == ((n / 0x100_0000) % 256) as u8
        && (n >> 16u64) as u8 == ((n / 0x1_0000) % 256) as u8
        && (n >> 8u64) as u8 == ((n / 0x100) % 256) as u8
        && n as u8 == (n % 256) as u8) by (bit_vector);
}

/// The number that eight header bytes hold is the base-256 number with those
/// digits, most significant first.
pub proof fn lemma_be_value_arith(b: Seq<u8>)
    requires
        b.len() == 8,
    ensures
        be_value(b) as int == b[0] as int * 0x100_0000_0000_0000 + b[1] as int * 0x1_0000_0000_0000
            + b[2] as int * 0x100_0000_0000 + b[3] as int * 0x1_0000_0000 + b[4] as int
            * 0x100_0000 + b[5] as int * 0x1_0000 + b[6] as int * 0x100 + b[7] as int,
{
    let (b0, b1, b2, b3, b4, b5, b6, b7) = (b[0], b[1], b[2], b[3], b[4], b[5], b[6], b[7]);
    assert(((b0 as u64) << 56u64) | ((b1 as u64) << 48u64) | ((b2 as u64) << 40u64) | ((
    b3 as u64) << 32u64) | ((b4 as u64) << 24u64) | ((b5 as u64) << 16u64) | ((b6 as u64)
        << 8u64) | (b7 as u64) == b0 as u64 * 0x100_0000_0000_0000u64 + b1 as u64
        * 0x1_0000_0000_0000u64 + b2 as u64 * 0x100_0000_0000u64 + b3 as u64 * 0x1_0000_0000u64
        + b4 as u64 * 0x100_0000u64 + b5 as u64 * 0x1_0000u64 + b6 as u64 * 0x100u64
        + b7 as u64) by (bit_vector);
}

/// The body of a frame adds to every byte, modulo 256, the length of the
/// message modulo 256, or 128 where that is zero.
pub proof fn lemma_frame_body_arith(data: Seq<u8>)
    requires
        data.len() <= u64::MAX,
    ensures
        frame_body_spec(data).len() == data.len(),
        forall|i: int|
            0 <= i < data.len() ==> #[trigger] frame_body_spec(data)[i] as int == (data[i] as int
                + (if data.len() % 256 == 0 {
                128int
            } else {
                (data.len() % 256) as int
            })) % 256,
{
    let l: u64 = data.len() as u64;
    assert(l as u8 == (l % 256) as u8) by (bit_vector);
    lemma_encrypt_arith(data, frame_key(l));
}

/// An opened body subtracts from every byte, modulo 256, the announced length
/// modulo 256, or 128 where that is zero.
pub proof fn lemma_open_body_arith(len: u64, body: Seq<u8>, n: usize)
    ensures
        open_body_spec(len, body, n) matches Ok(v) ==> {
            &&& v.len() == body.len()
            &&& forall|i: int|
                0 <= i < body.len() ==> #[trigger] v[i] as int == (body[i] as int + 256 - (if len
                    % 256 == 0 {
                    128int
                } else {
                    (len % 256) as int
                })) % 256
        },
{
    assert(len as u8 == (len % 256) as u8) by (bit_vector);
    lemma_decrypt_arith(body, frame_key(len));
}

/// A header read in full gives back the length it was written with.
pub proof fn lemma_header_roundtrip(len: u64)
    ensures
        header_length_spec(be_bytes(len), 8) == Ok::<u64, FrameError>(len),
{
    lemma_be_value_of_be_bytes(len);
}

/// Reading back a frame that carries a non-empty message, each read
/// delivering in full, gives the message.
pub proof fn lemma_frame_roundtrip(data: Seq<u8>)
    requires
        0 < data.len() <= usize::MAX,
    ensures
        header_length_spec(be_bytes(data.len() as u64), 8) == Ok::<u64, FrameError>(
            data.len() as u64,
        ),
        open_body_spec(data.len() as u64, frame_body_spec(data), data.len() as usize) == Ok::<
            Seq<u8>,
            FrameError,
        >(data),
{
    lemma_header_roundtrip(data.len() as u64);
    lemma_decrypt_encrypt(data, frame_key(data.len() as u64));
}

/// A frame that carries no bytes is never read back: its body read delivers nothing.
pub proof fn lemma_empty_frame_unreadable()
    ensures
        open_body_spec(0, frame_body_spec(Seq::empty()), 0) == Err::<Seq<u8>, FrameError>(
            FrameError::BodyClosed,
        ),
{
}

} // verus!
