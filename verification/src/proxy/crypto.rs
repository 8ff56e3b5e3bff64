//! Authenticated encryption of byte chunks with AES-256-GCM.
//!
//! A sealed message is `nonce || ciphertext || tag`: 12 bytes of nonce, then
//! what the cipher returns for the plaintext, which ends in a 16-byte tag.

use aes_gcm::aead::rand_core::RngCore;
use aes_gcm::aead::{Aead, KeyInit, OsRng};
use aes_gcm::{Aes256Gcm, Key, Nonce};
use vstd::prelude::*;
use vstd::slice::{slice_subrange, slice_to_vec};
use vstd::string::StringSliceAdditionalSpecFns;

verus! {

/// Size of the symmetric key in bytes.
pub const KEY_SIZE: usize = 32;

/// Size of the nonce that leads every sealed message.
pub const NONCE_SIZE: usize = 12;

/// Size of the authentication tag that ends every sealed message.
pub const TAG_SIZE: usize = 16;

/// Longest plaintext, in bytes, that the cipher accepts.
pub const MAX_PLAINTEXT: u64 = 0x10_0000_0000;

/// Why a cipher operation gave no result.
#[derive(Debug, Clone, Copy, PartialEq, Eq, Structural)]
pub enum CryptoError {
    /// The system's random source gave no nonce.
    RandomSource,
    /// The cipher refused the plaintext.
    Encryption,
    /// The input is shorter than a nonce.
    TooShort,
    /// The input does not authenticate under this key.
    Authentication,
}

/// The cipher operation that a flow direction applies to each chunk.
#[derive(Debug, Clone, Copy, PartialEq, Eq, Structural)]
pub enum CryptoOp {
    Identity,
    Encrypt,
    Decrypt,
}

/// What AES-256-GCM returns for a plaintext under a key and a nonce, with no
/// associated data: ciphertext followed by tag, or nothing where it refuses.
pub uninterp spec fn aes256_gcm_seal(key: Seq<u8>, nonce: Seq<u8>, plaintext: Seq<u8>) -> Option<Seq<u8>>;

/// What AES-256-GCM returns for ciphertext and tag under a key and a nonce,
/// with no associated data: the plaintext, or nothing where the tag does not
/// match.
pub uninterp spec fn aes256_gcm_open(key: Seq<u8>, nonce: Seq<u8>, sealed: Seq<u8>) -> Option<Seq<u8>>;

/// The byte sequence inside an optional buffer.
pub open spec fn option_bytes(r: Option<Vec<u8>>) -> Option<Seq<u8>> {
    match r {
        Some(v) => Some(v@),
        None => None,
    }
}

/// The byte sequence inside a result that holds a buffer.
pub open spec fn result_bytes<E>(r: Result<Vec<u8>, E>) -> Result<Seq<u8>, E> {
    match r {
        Ok(v) => Ok(v@),
        Err(e) => Err(e),
    }
}

/// The byte sequence of an optional nonce.
pub open spec fn nonce_bytes(nonce: Option<[u8; 12]>) -> Option<Seq<u8>> {
    match nonce {
        Some(n) => Some(n@),
        None => None,
    }
}

/// The key that a configuration string stands for: its first 32 bytes,
/// followed by zeros where it has fewer.
pub open spec fn key_of(secret: Seq<u8>) -> Seq<u8> {
    Seq::new(
        32,
        |i: int|
            if i < secret.len() {
                secret[i]
            } else {
                0u8
            },
    )
}

/// The sealed message for a plaintext: the nonce, then ciphertext and tag.
/// A plaintext of more than 2^36 bytes has none.
pub open spec fn sealed_message(key: Seq<u8>, nonce: Seq<u8>, plaintext: Seq<u8>) -> Result<
    Seq<u8>,
    CryptoError,
> {
    if plaintext.len() > MAX_PLAINTEXT {
        Err(CryptoError::Encryption)
    } else {
        match aes256_gcm_seal(key, nonce, plaintext) {
            Some(c) => Ok(nonce + c),
            None => Err(CryptoError::Encryption),
        }
    }
}

/// The plaintext of a sealed message, or the reason why it has none.
pub open spec fn opened_message(key: Seq<u8>, data: Seq<u8>) -> Result<Seq<u8>, CryptoError> {
    if data.len() < 12 {
        Err(CryptoError::TooShort)
    } else {
        match aes256_gcm_open(key, data.subrange(0, 12), data.subrange(12, data.len() as int)) {
            Some(p) => Ok(p),
            None => Err(CryptoError::Authentication),
        }
    }
}

/// What a cipher operation makes of a chunk. Encryption uses the nonce it is
/// given and fails where there is none; the other two ignore it.
pub open spec fn processed(op: CryptoOp, key: Seq<u8>, nonce: Option<Seq<u8>>, data: Seq<u8>) -> Result<
    Seq<u8>,
    CryptoError,
> {
    match op {
        CryptoOp::Identity => Ok(data),
        CryptoOp::Decrypt => opened_message(key, data),
        CryptoOp::Encrypt => match nonce {
            Some(n) => sealed_message(key, n, data),
            None => Err(CryptoError::RandomSource),
        },
    }
}

/// A nonce as the random source hands it out: absent, or 12 bytes.
pub open spec fn is_drawn_nonce(nonce: Option<Seq<u8>>) -> bool {
    nonce matches Some(n) ==> n.len() == 12
}

/// Calls `Aes256Gcm::new` and `Aead::encrypt` of `aes_gcm`, on a plaintext
/// of at most 2^36 bytes, which is what the cipher accepts.
///
/// Trusted: the result is the cipher's output for these arguments; there
/// is one for every such plaintext, since the cipher refuses nothing but
/// length; it is the plaintext's length plus a 16-byte tag; and opening it
/// under the same key and nonce gives the plaintext back, as decryption
/// recomputes the same tag and removes the same key stream.
#[verifier::external_body]
fn seal(key: &[u8; 32], nonce: &[u8], plaintext: &[u8]) -> (r: Option<Vec<u8>>)
    requires
        nonce@.len() == 12,
        plaintext@.len() <= MAX_PLAINTEXT,
    ensures
        option_bytes(r) == aes256_gcm_seal(key@, nonce@, plaintext@),
        r is Some,
        r matches Some(c) ==> c@.len() == plaintext@.len() + 16 && aes256_gcm_open(
            key@,
            nonce@,
            c@,
        ) == Some(plaintext@),
{
    let cipher = Aes256Gcm::new(Key::<Aes256Gcm>::from_slice(key));
    cipher.encrypt(Nonce::from_slice(nonce), plaintext).ok()
}

/// Calls `Aes256Gcm::new` and `Aead::decrypt` of `aes_gcm`.
///
/// Trusted: the result is the cipher's answer for these arguments; an input
/// shorter than the 16-byte tag is refused; and a plaintext that comes back
/// is 16 bytes shorter than the input.
#[verifier::external_body]
fn open(key: &[u8; 32], nonce: &[u8], sealed: &[u8]) -> (r: Option<Vec<u8>>)
    requires
        nonce@.len() == 12,
    ensures
        option_bytes(r) == aes256_gcm_open(key@, nonce@, sealed@),
        sealed@.len() < 16 ==> r is None,
        r matches Some(p) ==> p@.len() + 16 == sealed@.len(),
{
    let cipher = Aes256Gcm::new(Key::<Aes256Gcm>::from_slice(key));
    cipher.decrypt(Nonce::from_slice(nonce), sealed).ok()
}

/// Calls `RngCore::try_fill_bytes` on the `OsRng` that `aes_gcm` hands on,
/// the call that does not panic where the random source fails.
///
/// Trusted: nothing beyond the type. The bytes come from the operating
/// system, and `None` stands for a random source that failed.
#[verifier::external_body]
pub(crate) fn fresh_nonce() -> (r: Option<[u8; 12]>) {
    let mut nonce = [0u8; 12];
    match OsRng.try_fill_bytes(&mut nonce) {
        Ok(()) => Some(nonce),
        Err(_) => None,
    }
}

/// Returns the buffer as it is.
pub fn identity(data: Vec<u8>) -> (r: Result<Vec<u8>, CryptoError>)
    ensures
        r == Ok::<Vec<u8>, CryptoError>(data),
{
    Ok(data)
}

/// Derives the 32-byte key from a configuration string: its bytes in order,
/// cut after 32 and padded with zeros up to 32.
pub fn get_key(secret: &str) -> (key: [u8; 32])
    ensures
        key@ == key_of(secret.spec_bytes()),
{
    let bytes = secret.as_bytes();
    let mut key = [0u8; 32];
    let mut i: usize = 0;
    while i < 32 && i < bytes.len()
        invariant
            i <= 32,
            i <= bytes@.len(),
            key@.len() == 32,
            forall|j: int| 0 <= j < i ==> key@[j] == bytes@[j],
            forall|j: int| i <= j < 32 ==> key@[j] == 0u8,
        decreases 32 - i,
    {
        key[i] = bytes[i];
        i += 1;
    }
    assert(key@ =~= key_of(bytes@));
    key
}

/// Seals a plaintext under a key with the nonce given.
///
/// The result is the nonce followed by the cipher's output. It is owed for
/// every plaintext of at most 2^36 bytes, is 28 bytes longer than the
/// plaintext, and opens to the plaintext again under the same key. A longer
/// plaintext fails with `Encryption`.
pub fn encrypt_with_nonce(key: &[u8; 32], nonce: &[u8; 12], data: Vec<u8>) -> (r: Result<
    Vec<u8>,
    CryptoError,
>)
    ensures
        result_bytes(r) == sealed_message(key@, nonce@, data@),
        r is Ok <==> data@.len() <= MAX_PLAINTEXT,
        r matches Ok(c) ==> c@.len() == data@.len() + 28 && opened_message(key@, c@) == Ok::<
            Seq<u8>,
            CryptoError,
        >(data@),
{
    if data.len() as u64 > MAX_PLAINTEXT {
        return Err(CryptoError::Encryption);
    }
    match seal(key, nonce.as_slice(), data.as_slice()) {
        Some(mut sealed) => {
            let ghost tail = sealed@;
            let mut out = slice_to_vec(nonce.as_slice());
            out.append(&mut sealed);
            proof {
                assert(out@ =~= nonce@ + tail);
                assert(out@.subrange(0, 12) =~= nonce@);
                assert(out@.subrange(12, out@.len() as int) =~= tail);
            }
            Ok(out)
        },
        None => Err(CryptoError::Encryption),
    }
}

/// Seals a plaintext under a key with a nonce drawn afresh from the system's
/// random source.
///
/// Whatever nonce was drawn, a result is the sealed message for that nonce
/// and opens to the plaintext again under the same key. The call fails only
/// where no nonce could be drawn or the cipher refuses the plaintext's
/// length.
pub fn encrypt(key: &[u8; 32], data: Vec<u8>) -> (r: Result<Vec<u8>, CryptoError>)
    ensures
        exists|nonce: Option<Seq<u8>>|
            is_drawn_nonce(nonce) && result_bytes(r) == #[trigger] processed(
                CryptoOp::Encrypt,
                key@,
                nonce,
                data@,
            ),
        r matches Ok(c) ==> c@.len() == data@.len() + 28 && opened_message(key@, c@) == Ok::<
            Seq<u8>,
            CryptoError,
        >(data@),
        r matches Err(e) ==> e == CryptoError::RandomSource || (e == CryptoError::Encryption
            && data@.len() > MAX_PLAINTEXT),
        data@.len() > MAX_PLAINTEXT ==> r is Err,
{
    let nonce = fresh_nonce();
    let r = process_data(CryptoOp::Encrypt, key, nonce, data);
    proof {
        assert(is_drawn_nonce(nonce_bytes(nonce)));
    }
    r
}

/// Opens a sealed message: splits off the leading nonce and has the cipher
/// check and decrypt the rest.
///
/// Fails with `TooShort` exactly on inputs of fewer than 12 bytes, and with
/// `Authentication` exactly where the cipher rejects the rest.
pub fn decrypt(key: &[u8; 32], data: Vec<u8>) -> (r: Result<Vec<u8>, CryptoError>)
    ensures
        result_bytes(r) == opened_message(key@, data@),
        data@.len() < 28 ==> r is Err,
        r matches Ok(p) ==> p@.len() + 28 == data@.len(),
{
    if data.len() < NONCE_SIZE {
        return Err(CryptoError::TooShort);
    }
    let bytes = data.as_slice();
    let nonce = slice_subrange(bytes, 0, NONCE_SIZE);
    let sealed = slice_subrange(bytes, NONCE_SIZE, bytes.len());
    match open(key, nonce, sealed) {
        Some(plain) => Ok(plain),
        None => Err(CryptoError::Authentication),
    }
}

/// Applies a cipher operation to a chunk. Encryption takes the nonce given
/// and fails with `RandomSource` where there is none; identity and
/// decryption do not look at it.
pub fn process_data(op: CryptoOp, key: &[u8; 32], nonce: Option<[u8; 12]>, data: Vec<u8>) -> (r:
    Result<Vec<u8>, CryptoError>)
    ensures
        result_bytes(r) == processed(op, key@, nonce_bytes(nonce), data@),
        op == CryptoOp::Identity ==> r == Ok::<Vec<u8>, CryptoError>(data),
        op == CryptoOp::Encrypt ==> {
            &&& (r is Ok <==> nonce is Some && data@.len() <= MAX_PLAINTEXT)
            &&& (r matches Ok(c) ==> c@.len() == data@.len() + 28 && opened_message(key@, c@)
                == Ok::<Seq<u8>, CryptoError>(data@))
        },
        op == CryptoOp::Decrypt ==> (r matches Ok(p) ==> p@.len() + 28 == data@.len()),
{
    match op {
        CryptoOp::Identity => identity(data),
        CryptoOp::Decrypt => decrypt(key, data),
        CryptoOp::Encrypt => match nonce {
            Some(n) => encrypt_with_nonce(key, &n, data),
            None => Err(CryptoError::RandomSource),
        },
    }
}

} // verus!
