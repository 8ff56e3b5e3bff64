//! The two wire dialects.
//!
//! The standard dialect is a plain byte stream, read in chunks of at most
//! 1024 bytes; a read of no bytes is the end of the stream. The custom
//! dialect sends each chunk as a frame: a 2-byte big-endian length, then
//! that many bytes of body. A frame of length 0 has no body and says that
//! nothing more will come.

use super::crypto::{
    nonce_bytes, opened_message, process_data, processed, result_bytes, CryptoError, CryptoOp,
    MAX_PLAINTEXT,
};
use super::ProxyError;
use vstd::prelude::*;
use vstd::slice::{slice_subrange, slice_to_vec};

verus! {

/// Most bytes that one read of the standard dialect asks for.
pub const READ_CAP: usize = 1024;

/// Size of a frame's length header.
pub const HEADER_SIZE: usize = 2;

/// Longest body that a frame can carry.
pub const MAX_FRAME: usize = 65535;

/// Why bytes could not be read as a frame, or a chunk not be written as one.
#[derive(Debug, Clone, Copy, PartialEq, Eq, Structural)]
pub enum FramingError {
    /// The input ends before the 2-byte header is complete.
    TruncatedHeader,
    /// The input ends before the body that the header announces is complete.
    TruncatedBody,
    /// The chunk is longer than a header can say.
    Oversized,
}

/// What to do with the write half of a stream.
#[derive(Debug, PartialEq, Eq)]
pub enum WriteAction {
    /// Write these bytes.
    Send(Vec<u8>),
    /// Write nothing and shut the write half down.
    Shutdown,
}

/// The 2-byte big-endian header for a body of the given length.
pub open spec fn header_of(len: int) -> Seq<u8> {
    seq![(len / 256) as u8, (len % 256) as u8]
}

/// The body length that a header announces.
pub open spec fn body_length(header: Seq<u8>) -> int {
    header[0] as int * 256 + header[1] as int
}

/// A body on the wire: its header, then the body itself.
pub open spec fn frame_of(body: Seq<u8>) -> Seq<u8> {
    header_of(body.len() as int) + body
}

/// The wire form of a chunk, where it fits into one frame.
pub open spec fn framed(content: Seq<u8>) -> Result<Seq<u8>, FramingError> {
    if content.len() > 65535 {
        Err(FramingError::Oversized)
    } else {
        Ok(frame_of(content))
    }
}

/// The body of the frame that leads the input.
pub open spec fn parsed_frame(input: Seq<u8>) -> Result<Seq<u8>, FramingError> {
    if input.len() < 2 {
        Err(FramingError::TruncatedHeader)
    } else if input.len() < 2 + body_length(input) {
        Err(FramingError::TruncatedBody)
    } else {
        Ok(input.subrange(2, 2 + body_length(input)))
    }
}

/// A cipher result as the result of a read.
pub open spec fn lifted(r: Result<Seq<u8>, CryptoError>) -> Result<Seq<u8>, ProxyError> {
    match r {
        Ok(c) => Ok(c),
        Err(e) => Err(ProxyError::Crypto(e)),
    }
}

/// What a standard read hands on: nothing at the end of the stream, else the
/// processed chunk.
pub open spec fn standard_read(
    op: CryptoOp,
    key: Seq<u8>,
    nonce: Option<Seq<u8>>,
    received: Seq<u8>,
) -> Result<Seq<u8>, ProxyError> {
    if received.len() == 0 {
        Ok(Seq::empty())
    } else {
        lifted(processed(op, key, nonce, received))
    }
}

/// What a custom read hands on: nothing for the empty frame, else the
/// processed body of the leading frame.
pub open spec fn custom_read(op: CryptoOp, key: Seq<u8>, nonce: Option<Seq<u8>>, input: Seq<u8>) -> Result<
    Seq<u8>,
    ProxyError,
> {
    match parsed_frame(input) {
        Err(e) => Err(ProxyError::Framing(e)),
        Ok(body) => if body.len() == 0 {
            Ok(Seq::empty())
        } else {
            lifted(processed(op, key, nonce, body))
        },
    }
}

/// The bytes of the input that the leading frame takes up, where there is
/// a whole frame.
pub open spec fn frame_size(input: Seq<u8>) -> int {
    2 + body_length(input)
}

/// What `write` of the standard dialect does with a chunk.
pub open spec fn standard_written(content: Vec<u8>) -> WriteAction {
    if content@.len() == 0 {
        WriteAction::Shutdown
    } else {
        WriteAction::Send(content)
    }
}

/// Writing a body as a frame and reading the frame back gives the same body
/// and the same length, for every body of at most 65535 bytes, whatever
/// follows the frame on the wire.
pub proof fn frame_round_trip(body: Seq<u8>, rest: Seq<u8>)
    requires
        body.len() <= 65535,
    ensures
        framed(body) == Ok::<Seq<u8>, FramingError>(frame_of(body)),
        body_length(frame_of(body) + rest) == body.len(),
        frame_size(frame_of(body) + rest) == frame_of(body).len(),
        parsed_frame(frame_of(body)) == Ok::<Seq<u8>, FramingError>(body),
        parsed_frame(frame_of(body) + rest) == Ok::<Seq<u8>, FramingError>(body),
{
    let len = body.len() as int;
    let wire = frame_of(body);
    assert(wire[0] == (len / 256) as u8);
    assert(wire[1] == (len % 256) as u8);
    assert(body_length(wire) == len);
    assert(wire.subrange(2, 2 + len) =~= body);
    let longer = wire + rest;
    assert(longer[0] == wire[0] && longer[1] == wire[1]);
    assert(longer.subrange(2, 2 + len) =~= body);
}

/// A header of two zero bytes is the empty frame: the read hands on nothing,
/// under every cipher operation, and takes no byte after the header.
pub proof fn zero_header_is_empty_frame(
    op: CryptoOp,
    key: Seq<u8>,
    nonce: Option<Seq<u8>>,
    input: Seq<u8>,
)
    requires
        input.len() >= 2,
        input[0] == 0,
        input[1] == 0,
    ensures
        body_length(input) == 0,
        frame_size(input) == 2,
        parsed_frame(input) == Ok::<Seq<u8>, FramingError>(Seq::empty()),
        custom_read(op, key, nonce, input) == Ok::<Seq<u8>, ProxyError>(Seq::empty()),
{
    assert(input.subrange(2, 2) =~= Seq::<u8>::empty());
}

/// The body length that a frame header announces, as a big-endian number.
pub fn frame_body_length(header: &[u8; 2]) -> (n: usize)
    ensures
        n == body_length(header@),
        n <= MAX_FRAME,
{
    let high: usize = header[0] as usize;
    let low: usize = header[1] as usize;
    high * 256 + low
}

/// Reads the frame that leads the input and returns its body.
///
/// Fails with `TruncatedHeader` exactly on inputs of fewer than 2 bytes, and
/// with `TruncatedBody` exactly where fewer bytes follow the header than it
/// announces. Bytes after the frame are not looked at.
pub fn read_frame(input: &[u8]) -> (r: Result<Vec<u8>, FramingError>)
    ensures
        result_bytes(r) == parsed_frame(input@),
{
    if input.len() < HEADER_SIZE {
        return Err(FramingError::TruncatedHeader);
    }
    let high: usize = input[0] as usize;
    let low: usize = input[1] as usize;
    let n: usize = high * 256 + low;
    if input.len() - HEADER_SIZE < n {
        return Err(FramingError::TruncatedBody);
    }
    Ok(slice_to_vec(slice_subrange(input, HEADER_SIZE, HEADER_SIZE + n)))
}

/// Takes what one read of at most `READ_CAP` bytes returned. No bytes mean
/// the end of the stream and are handed on as an empty chunk, untouched by
/// the cipher; anything else goes through the cipher operation.
pub fn standard_read_protocol(
    received: Vec<u8>,
    op: CryptoOp,
    key: &[u8; 32],
    nonce: Option<[u8; 12]>,
) -> (r: Result<Vec<u8>, ProxyError>)
    ensures
        result_bytes(r) == standard_read(op, key@, nonce_bytes(nonce), received@),
        op == CryptoOp::Identity ==> r is Ok,
        op == CryptoOp::Encrypt && nonce is Some && received@.len() <= MAX_PLAINTEXT
            ==> r is Ok,
        op == CryptoOp::Encrypt && received@.len() > 0 ==> (r matches Ok(c) ==> c@.len()
            == received@.len() + 28 && opened_message(key@, c@) == Ok::<
            Seq<u8>,
            CryptoError,
        >(received@)),
{
    if received.len() == 0 {
        assert(received@ =~= Seq::<u8>::empty());
        return Ok(received);
    }
    match process_data(op, key, nonce, received) {
        Ok(content) => Ok(content),
        Err(e) => Err(ProxyError::Crypto(e)),
    }
}

/// Takes the bytes of a stream from a frame's header on. The empty frame is
/// handed on as an empty chunk, untouched by the cipher; any other body goes
/// through the cipher operation. An incomplete header or body is a framing
/// error.
pub fn custom_read_protocol(
    input: &[u8],
    op: CryptoOp,
    key: &[u8; 32],
    nonce: Option<[u8; 12]>,
) -> (r: Result<Vec<u8>, ProxyError>)
    ensures
        result_bytes(r) == custom_read(op, key@, nonce_bytes(nonce), input@),
{
    match read_frame(input) {
        Err(e) => Err(ProxyError::Framing(e)),
        Ok(body) => {
            if body.len() == 0 {
                assert(body@ =~= Seq::<u8>::empty());
                return Ok(body);
            }
            match process_data(op, key, nonce, body) {
                Ok(content) => Ok(content),
                Err(e) => Err(ProxyError::Crypto(e)),
            }
        },
    }
}

/// Says how a chunk goes out in the standard dialect: as it is, or, for an
/// empty chunk, as a shutdown of the write half with no bytes sent.
pub fn standard_write_protocol(content: Vec<u8>) -> (action: WriteAction)
    ensures
        action == standard_written(content),
{
    if content.len() == 0 {
        WriteAction::Shutdown
    } else {
        WriteAction::Send(content)
    }
}

/// Puts a chunk into a frame: the 2-byte big-endian length, then the chunk.
///
/// Fails with `Oversized` exactly on chunks of more than 65535 bytes, which
/// the caller has to split.
pub fn custom_write_protocol(content: Vec<u8>) -> (r: Result<Vec<u8>, FramingError>)
    ensures
        result_bytes(r) == framed(content@),
{
    let len: usize = content.len();
    if len > MAX_FRAME {
        return Err(FramingError::Oversized);
    }
    let mut body = content;
    let mut wire: Vec<u8> = Vec::with_capacity(len + HEADER_SIZE);
    wire.push((len / 256) as u8);
    wire.push((len % 256) as u8);
    wire.append(&mut body);
    assert(wire@ =~= frame_of(content@));
    Ok(wire)
}

} // verus!
