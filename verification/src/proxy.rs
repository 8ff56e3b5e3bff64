//! The relay's forwarding rules: which dialect a flow direction reads and
//! writes under each mode, which cipher operation it applies in between,
//! and what one turn of a direction's loop puts on the wire.

pub mod crypto;
pub mod protocol;
pub mod relay;

use self::crypto::{
    fresh_nonce, is_drawn_nonce, nonce_bytes, CryptoError, CryptoOp, NONCE_SIZE, TAG_SIZE,
};
use self::protocol::{
    custom_read, custom_read_protocol, custom_write_protocol, frame_body_length, frame_of,
    frame_size, standard_read, standard_read_protocol, standard_write_protocol, FramingError,
    WriteAction, HEADER_SIZE, MAX_FRAME, READ_CAP,
};
use vstd::slice::slice_to_vec;
use vstd::prelude::*;

verus! {

/// The role of a relay process, fixed when it starts.
#[derive(Debug, Clone, Copy, PartialEq, Eq, Structural)]
pub enum ProxyMode {
    /// The encrypting front end, next to the application that connects.
    Client,
    /// The decrypting back end, next to the application that is connected to.
    Server,
    /// The pass-through relay, which changes nothing.
    Proxy,
}

/// One of the two flow directions of a relayed connection.
#[derive(Debug, Clone, Copy, PartialEq, Eq, Structural)]
pub enum ChannelType {
    /// From the accepted socket toward the next hop.
    Receiving,
    /// From the next hop back to the accepted socket.
    Sending,
}

/// A wire dialect.
#[derive(Debug, Clone, Copy, PartialEq, Eq, Structural)]
pub enum Dialect {
    /// The plain byte stream.
    Standard,
    /// The length-prefixed frames.
    Custom,
}

/// What a flow direction does: how it reads, what it applies, how it writes.
#[derive(Debug, Clone, Copy, PartialEq, Eq, Structural)]
pub struct Policy {
    pub read: Dialect,
    pub op: CryptoOp,
    pub write: Dialect,
}

/// Why a connection's relay has to be given up.
#[derive(Debug, Clone, Copy, PartialEq, Eq, Structural)]
pub enum ProxyError {
    Crypto(CryptoError),
    Framing(FramingError),
}

/// What one turn of a direction's loop decides.
#[derive(Debug, PartialEq, Eq)]
pub struct Transfer {
    /// The bytes to write to the direction's write half.
    pub wire: Vec<u8>,
    /// How many bytes of the input the turn took.
    pub consumed: usize,
    /// Whether the direction ends here: after `wire` is written the write
    /// half is shut down and nothing more is read.
    pub finished: bool,
}

/// A turn's decision over plain values.
pub struct Forwarded {
    pub wire: Seq<u8>,
    pub consumed: int,
    pub finished: bool,
}

impl View for Transfer {
    type V = Forwarded;

    open spec fn view(&self) -> Forwarded {
        Forwarded { wire: self.wire@, consumed: self.consumed as int, finished: self.finished }
    }
}

/// The decision inside the result of a turn.
pub open spec fn result_forwarded(r: Result<Transfer, ProxyError>) -> Result<Forwarded, ProxyError> {
    match r {
        Ok(t) => Ok(t@),
        Err(e) => Err(e),
    }
}

/// The table of policies. The side that faces an application speaks the
/// standard dialect, the side that faces the other relay the custom one.
pub open spec fn policy_of(mode: ProxyMode, channel: ChannelType) -> Policy {
    match (mode, channel) {
        (ProxyMode::Proxy, _) => Policy {
            read: Dialect::Standard,
            op: CryptoOp::Identity,
            write: Dialect::Standard,
        },
        (ProxyMode::Client, ChannelType::Receiving) | (ProxyMode::Server, ChannelType::Sending) => Policy {
            read: Dialect::Standard,
            op: CryptoOp::Encrypt,
            write: Dialect::Custom,
        },
        (ProxyMode::Client, ChannelType::Sending) | (ProxyMode::Server, ChannelType::Receiving) => Policy {
            read: Dialect::Custom,
            op: CryptoOp::Decrypt,
            write: Dialect::Standard,
        },
    }
}

/// What a direction hands on from its input, and how much of the input that
/// took.
pub open spec fn read_of(policy: Policy, key: Seq<u8>, nonce: Option<Seq<u8>>, input: Seq<u8>) -> Result<
    (Seq<u8>, int),
    ProxyError,
> {
    match policy.read {
        Dialect::Standard => match standard_read(policy.op, key, nonce, input) {
            Ok(content) => Ok((content, input.len() as int)),
            Err(e) => Err(e),
        },
        Dialect::Custom => match custom_read(policy.op, key, nonce, input) {
            Ok(content) => Ok((content, frame_size(input))),
            Err(e) => Err(e),
        },
    }
}

/// One turn of a direction's loop.
///
/// The input is read in the direction's read dialect and processed. Empty
/// content ends the direction: where it came from the end of a standard
/// stream and the write side is framed, the empty frame goes out first, so
/// that the other relay learns of the end. Other content goes out in the
/// write dialect.
pub open spec fn transferred(
    mode: ProxyMode,
    channel: ChannelType,
    key: Seq<u8>,
    nonce: Option<Seq<u8>>,
    input: Seq<u8>,
) -> Result<Forwarded, ProxyError> {
    let policy = policy_of(mode, channel);
    match read_of(policy, key, nonce, input) {
        Err(e) => Err(e),
        Ok((content, consumed)) => if content.len() == 0 {
            Ok(
                Forwarded {
                    wire: if policy.read == Dialect::Standard && policy.write == Dialect::Custom {
                        frame_of(Seq::empty())
                    } else {
                        Seq::empty()
                    },
                    consumed,
                    finished: true,
                },
            )
        } else {
            match policy.write {
                Dialect::Standard => Ok(Forwarded { wire: content, consumed, finished: false }),
                Dialect::Custom => if content.len() > 65535 {
                    Err(ProxyError::Framing(FramingError::Oversized))
                } else {
                    Ok(Forwarded { wire: frame_of(content), consumed, finished: false })
                },
            }
        },
    }
}

/// The mode that the startup flags choose: the one flag that is set, and
/// none where no flag or more than one is set.
pub open spec fn mode_of(client: bool, server: bool, proxy: bool) -> Option<ProxyMode> {
    if client && !server && !proxy {
        Some(ProxyMode::Client)
    } else if !client && server && !proxy {
        Some(ProxyMode::Server)
    } else if !client && !server && proxy {
        Some(ProxyMode::Proxy)
    } else {
        None
    }
}

/// Picks the mode from the three startup flags, of which exactly one has to
/// be set.
pub fn select_mode(client: bool, server: bool, proxy: bool) -> (mode: Option<ProxyMode>)
    ensures
        mode == mode_of(client, server, proxy),
{
    match (client, server, proxy) {
        (true, false, false) => Some(ProxyMode::Client),
        (false, true, false) => Some(ProxyMode::Server),
        (false, false, true) => Some(ProxyMode::Proxy),
        _ => None,
    }
}

/// Whether a mode needs the symmetric key: every mode but pass-through.
pub fn needs_key(mode: ProxyMode) -> (needed: bool)
    ensures
        needed == (mode != ProxyMode::Proxy),
        needed == (exists|channel: ChannelType| #[trigger]
            policy_of(mode, channel).op != CryptoOp::Identity),
{
    proof {
        if mode != ProxyMode::Proxy {
            assert(policy_of(mode, ChannelType::Receiving).op != CryptoOp::Identity);
        }
    }
    match mode {
        ProxyMode::Proxy => false,
        _ => true,
    }
}

/// Looks up what a flow direction does under a mode.
pub fn direction_policy(mode: ProxyMode, channel: ChannelType) -> (policy: Policy)
    ensures
        policy == policy_of(mode, channel),
{
    match mode {
        ProxyMode::Proxy => Policy {
            read: Dialect::Standard,
            op: CryptoOp::Identity,
            write: Dialect::Standard,
        },
        ProxyMode::Client => match channel {
            ChannelType::Receiving => Policy {
                read: Dialect::Standard,
                op: CryptoOp::Encrypt,
                write: Dialect::Custom,
            },
            ChannelType::Sending => Policy {
                read: Dialect::Custom,
                op: CryptoOp::Decrypt,
                write: Dialect::Standard,
            },
        },
        ProxyMode::Server => match channel {
            ChannelType::Receiving => Policy {
                read: Dialect::Custom,
                op: CryptoOp::Decrypt,
                write: Dialect::Standard,
            },
            ChannelType::Sending => Policy {
                read: Dialect::Standard,
                op: CryptoOp::Encrypt,
                write: Dialect::Custom,
            },
        },
    }
}

/// Decides one turn of a direction's loop with the nonce given.
///
/// For a direction that reads the standard dialect, `input` is what one
/// read returned; for one that reads the custom dialect, it is the stream
/// from a frame's header on. A pass-through turn always succeeds. An
/// encrypting turn succeeds whenever a nonce is there and the chunk leaves
/// room for nonce and tag in one frame, and what it writes for a chunk the
/// decrypting relay on the other end turns back into that chunk.
pub fn transfer_data_with_nonce(
    mode: ProxyMode,
    channel: ChannelType,
    key: &[u8; 32],
    nonce: Option<[u8; 12]>,
    input: &[u8],
) -> (r: Result<Transfer, ProxyError>)
    ensures
        result_forwarded(r) == transferred(mode, channel, key@, nonce_bytes(nonce), input@),
        mode == ProxyMode::Proxy ==> r is Ok,
        policy_of(mode, channel).op == CryptoOp::Encrypt && nonce is Some && input@.len() <= 65507
            ==> r is Ok,
        policy_of(mode, channel).op == CryptoOp::Encrypt && input@.len() > 0 ==> (r matches Ok(t)
            ==> is_opened_by_peer(channel, key@, input@, t.wire@)),
{
    let policy = direction_policy(mode, channel);
    let content: Vec<u8>;
    let consumed: usize;
    match policy.read {
        Dialect::Standard => {
            consumed = input.len();
            match standard_read_protocol(slice_to_vec(input), policy.op, key, nonce) {
                Ok(c) => {
                    content = c;
                },
                Err(e) => {
                    return Err(e);
                },
            }
        },
        Dialect::Custom => {
            match custom_read_protocol(input, policy.op, key, nonce) {
                Ok(c) => {
                    content = c;
                },
                Err(e) => {
                    return Err(e);
                },
            }
            let header: [u8; 2] = [input[0], input[1]];
            consumed = HEADER_SIZE + frame_body_length(&header);
        },
    }
    if content.len() == 0 {
        assert(content@ =~= Seq::<u8>::empty());
        let wire: Vec<u8> = match (policy.read, policy.write) {
            (Dialect::Standard, Dialect::Custom) => match custom_write_protocol(content) {
                Ok(w) => w,
                Err(e) => {
                    return Err(ProxyError::Framing(e));
                },
            },
            _ => content,
        };
        return Ok(Transfer { wire, consumed, finished: true });
    }
    let ghost sealed = content@;
    match policy.write {
        Dialect::Standard => match standard_write_protocol(content) {
            WriteAction::Send(wire) => Ok(Transfer { wire, consumed, finished: false }),
            WriteAction::Shutdown => Ok(Transfer { wire: Vec::new(), consumed, finished: true }),
        },
        Dialect::Custom => match custom_write_protocol(content) {
            Ok(wire) => {
                proof {
                    if input@.len() > 0 {
                        sealed_turn_is_opened_by_peer(channel, key@, input@, sealed);
                    }
                }
                Ok(Transfer { wire, consumed, finished: false })
            },
            Err(e) => Err(ProxyError::Framing(e)),
        },
    }
}

/// Decides one turn of a direction's loop, drawing a fresh nonce where the
/// direction encrypts.
///
/// Whatever nonce was drawn, the result is the turn for that nonce. A
/// direction that does not encrypt draws none, and its turn is fixed by
/// the input. An encrypting turn on a chunk that leaves room for nonce and
/// tag in one frame, as every chunk of one standard read does, fails only
/// where the random source does.
pub fn transfer_data(mode: ProxyMode, channel: ChannelType, key: &[u8; 32], input: &[u8]) -> (r:
    Result<Transfer, ProxyError>)
    ensures
        exists|nonce: Option<Seq<u8>>|
            is_drawn_nonce(nonce) && result_forwarded(r) == #[trigger] transferred(
                mode,
                channel,
                key@,
                nonce,
                input@,
            ),
        policy_of(mode, channel).op != CryptoOp::Encrypt ==> result_forwarded(r) == transferred(
            mode,
            channel,
            key@,
            None,
            input@,
        ),
        mode == ProxyMode::Proxy ==> r is Ok,
        policy_of(mode, channel).op == CryptoOp::Encrypt && input@.len() <= 65507 ==> r is Ok || r
            == Err::<Transfer, ProxyError>(ProxyError::Crypto(CryptoError::RandomSource)),
        policy_of(mode, channel).op == CryptoOp::Encrypt && input@.len() > 0 ==> (r matches Ok(t)
            ==> is_opened_by_peer(channel, key@, input@, t.wire@)),
{
    let policy = direction_policy(mode, channel);
    let nonce: Option<[u8; 12]> = match policy.op {
        CryptoOp::Encrypt => fresh_nonce(),
        _ => None,
    };
    let r = transfer_data_with_nonce(mode, channel, key, nonce, input);
    proof {
        assert(is_drawn_nonce(nonce_bytes(nonce)));
    }
    r
}

/// The mode whose relay encrypts a direction: it reads the application's
/// plain stream and writes frames.
pub open spec fn sealing_mode(channel: ChannelType) -> ProxyMode {
    match channel {
        ChannelType::Receiving => ProxyMode::Client,
        ChannelType::Sending => ProxyMode::Server,
    }
}

/// The mode whose relay decrypts a direction: it reads the frames that the
/// other relay wrote.
pub open spec fn opening_mode(channel: ChannelType) -> ProxyMode {
    match channel {
        ChannelType::Receiving => ProxyMode::Server,
        ChannelType::Sending => ProxyMode::Client,
    }
}

/// The guard on the two limits: a chunk of one standard read, sealed with
/// nonce and tag, still fits into one frame, so that no chunk ever has to
/// be split.
pub proof fn standard_chunk_fits_frame()
    ensures
        READ_CAP + NONCE_SIZE + TAG_SIZE <= MAX_FRAME,
        MAX_FRAME - NONCE_SIZE - TAG_SIZE == 65507,
{
}

/// What the relay on the other end of the tunnel makes of the bytes that
/// an encrypting turn wrote for a chunk: under the same key its decrypting
/// turn takes all of them and writes the chunk, unchanged, to its
/// application.
pub open spec fn is_opened_by_peer(
    channel: ChannelType,
    key: Seq<u8>,
    chunk: Seq<u8>,
    wire: Seq<u8>,
) -> bool {
    transferred(opening_mode(channel), channel, key, None, wire) == Ok::<Forwarded, ProxyError>(
        Forwarded { wire: chunk, consumed: wire.len() as int, finished: false },
    )
}

/// The tunnel is transparent to a chunk: where a sealed message of at most
/// 65535 bytes opens to a chunk that is not empty, the frame that carries
/// it makes the decrypting relay write that chunk, whatever nonce that
/// relay may hold.
pub proof fn sealed_turn_is_opened_by_peer(
    channel: ChannelType,
    key: Seq<u8>,
    chunk: Seq<u8>,
    sealed: Seq<u8>,
)
    requires
        chunk.len() > 0,
        sealed.len() <= 65535,
        self::crypto::opened_message(key, sealed) == Ok::<Seq<u8>, CryptoError>(chunk),
    ensures
        is_opened_by_peer(channel, key, chunk, frame_of(sealed)),
        forall|nonce: Option<Seq<u8>>|
            transferred(opening_mode(channel), channel, key, None, frame_of(sealed))
                == #[trigger] transferred(
                opening_mode(channel),
                channel,
                key,
                nonce,
                frame_of(sealed),
            ),
{
    self::protocol::frame_round_trip(sealed, Seq::empty());
    assert(frame_of(sealed) + Seq::<u8>::empty() =~= frame_of(sealed));
    assert(sealed.len() >= 12);
}

/// A pass-through relay is transparent: in either direction a turn writes
/// the chunk it read, unchanged, and finishes exactly at the end of the
/// stream.
pub proof fn passthrough_is_transparent(
    channel: ChannelType,
    key: Seq<u8>,
    nonce: Option<Seq<u8>>,
    input: Seq<u8>,
)
    ensures
        transferred(ProxyMode::Proxy, channel, key, nonce, input) == Ok::<Forwarded, ProxyError>(
            Forwarded { wire: input, consumed: input.len() as int, finished: input.len() == 0 },
        ),
{
    if input.len() == 0 {
        assert(input =~= Seq::<u8>::empty());
    }
}

/// A close on the application side crosses the tunnel in one turn on each
/// relay. The encrypting relay answers the end of its plain stream with
/// the empty frame, two zero bytes, and finishes; the decrypting relay,
/// given that frame, finishes too and writes nothing. A pass-through relay
/// finishes at the end of its stream and writes nothing. None of this
/// depends on a key or a nonce.
pub proof fn half_close_propagates(
    channel: ChannelType,
    near_key: Seq<u8>,
    far_key: Seq<u8>,
    near_nonce: Option<Seq<u8>>,
    far_nonce: Option<Seq<u8>>,
)
    ensures
        frame_of(Seq::empty()) == seq![0u8, 0u8],
        transferred(sealing_mode(channel), channel, near_key, near_nonce, Seq::empty()) == Ok::<
            Forwarded,
            ProxyError,
        >(Forwarded { wire: frame_of(Seq::empty()), consumed: 0, finished: true }),
        transferred(opening_mode(channel), channel, far_key, far_nonce, frame_of(Seq::empty()))
            == Ok::<Forwarded, ProxyError>(
            Forwarded { wire: Seq::empty(), consumed: 2, finished: true },
        ),
        transferred(ProxyMode::Proxy, channel, near_key, near_nonce, Seq::empty()) == Ok::<
            Forwarded,
            ProxyError,
        >(Forwarded { wire: Seq::empty(), consumed: 0, finished: true }),
{
    let sentinel = frame_of(Seq::<u8>::empty());
    assert(sentinel =~= seq![0u8, 0u8]);
    self::protocol::zero_header_is_empty_frame(
        policy_of(opening_mode(channel), channel).op,
        far_key,
        far_nonce,
        sentinel,
    );
}

} // verus!
