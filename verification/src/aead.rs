//! Sealing and opening through an AEAD engine, one nonce per operation.

use vstd::prelude::*;

use crate::nonce::NONCE_LEN;
use crate::nonce::SingleUseNonceSource;

verus! {

/// Length in bytes of the authentication tag the engine appends.
pub const TAG_LEN: usize = 16;

/// Plaintexts of at most this many bytes are always accepted by the engine:
/// up to this bound sealing refuses nothing but a mismatched key length.
/// It is the GCM ciphers' per-invocation input limit, 2^36 - 32 bytes;
/// ChaCha20-Poly1305's own limit lies above it.
pub const SEAL_LIMIT: u64 = 0xFFFFFFFE0;

/// The AEAD algorithms the sealing and opening operations support.
#[derive(Clone, Copy, Debug, PartialEq, Eq, Structural)]
pub enum AeadAlgorithm {
    Aes128Gcm,
    Aes256Gcm,
    ChaCha20Poly1305,
}

impl AeadAlgorithm {
    /// Length in bytes of a key for this algorithm.
    pub open spec fn spec_key_len(self) -> nat {
        match self {
            AeadAlgorithm::Aes128Gcm => 16,
            AeadAlgorithm::Aes256Gcm => 32,
            AeadAlgorithm::ChaCha20Poly1305 => 32,
        }
    }

    /// Length in bytes of a key for this algorithm.
    pub fn key_len(&self) -> (len: usize)
        ensures
            len == self.spec_key_len(),
    {
        match self {
            AeadAlgorithm::Aes128Gcm => 16,
            AeadAlgorithm::Aes256Gcm => 32,
            AeadAlgorithm::ChaCha20Poly1305 => 32,
        }
    }
}

/// Errors from sealing and opening.
#[derive(Clone, Copy, Debug, PartialEq, Eq, Structural)]
pub enum AeadError {
    /// The nonce source had already yielded its nonce. A logic error:
    /// each operation must be handed a fresh source.
    NonceExhausted,
    /// The key's length does not match the algorithm's key length.
    WrongKeyLength,
    /// The engine refused the operation. On opening this is how an
    /// authentication failure surfaces; it is deliberately not told apart
    /// from any other engine failure.
    Rejected,
}

/// The ciphertext-with-tag that sealing produces from an algorithm, a key of
/// the right length, a nonce, associated data and a plaintext. The engine
/// computes it from these values alone, and no statement short of the cipher
/// itself pins it down, so sealing's contract speaks of it by this name.
pub uninterp spec fn sealed_bytes(
    alg: AeadAlgorithm,
    key: Seq<u8>,
    nonce: Seq<u8>,
    aad: Seq<u8>,
    plaintext: Seq<u8>,
) -> Seq<u8>;

/// What opening recovers from an algorithm, a key of the right length, a
/// nonce, associated data and a ciphertext-with-tag: the plaintext if the
/// tag verifies, nothing otherwise. The engine computes the outcome from
/// these values alone; opening's contract speaks of it by this name.
pub uninterp spec fn opened_bytes(
    alg: AeadAlgorithm,
    key: Seq<u8>,
    nonce: Seq<u8>,
    aad: Seq<u8>,
    ciphertext: Seq<u8>,
) -> Option<Seq<u8>>;

/// Relies on aws_lc_rs::aead::LessSafeKey::seal_in_place_append_tag, with
/// UnboundKey::new, Nonce::assume_unique_for_key and Aad::from converting
/// the arguments: on success the buffer holds the ciphertext (same length as
/// the plaintext) followed by the 16-byte tag, computed from the algorithm,
/// key, nonce, associated data and plaintext alone, and
/// LessSafeKey::open_in_place recovers exactly the plaintext from it under
/// the same key, nonce and associated data; a key whose length does not
/// match the algorithm is refused by UnboundKey::new, and that is the only
/// refusal for plaintexts within every cipher's per-invocation input limit,
/// the smallest of which is GCM's 2^36 - 32 bytes.
#[verifier::external_body]
fn engine_seal(
    alg: &AeadAlgorithm,
    key: &Vec<u8>,
    nonce: &[u8; NONCE_LEN],
    aad: &Vec<u8>,
    data: Vec<u8>,
) -> (r: Result<Vec<u8>, ()>)
    ensures
        r matches Ok(c) ==> key@.len() == alg.spec_key_len()
            && c@ == sealed_bytes(*alg, key@, nonce@, aad@, data@)
            && c@.len() == data@.len() + TAG_LEN
            && opened_bytes(*alg, key@, nonce@, aad@, c@) == Some(data@),
        key@.len() != alg.spec_key_len() ==> r is Err,
        key@.len() == alg.spec_key_len() && data@.len() <= SEAL_LIMIT ==> r is Ok,
{
    let algorithm = match alg {
        AeadAlgorithm::Aes128Gcm => &aws_lc_rs::aead::AES_128_GCM,
        AeadAlgorithm::Aes256Gcm => &aws_lc_rs::aead::AES_256_GCM,
        AeadAlgorithm::ChaCha20Poly1305 => &aws_lc_rs::aead::CHACHA20_POLY1305,
    };
    let unbound = aws_lc_rs::aead::UnboundKey::new(algorithm, key.as_slice()).map_err(|_| ())?;
    let sealing = aws_lc_rs::aead::LessSafeKey::new(unbound);
    let n = aws_lc_rs::aead::Nonce::assume_unique_for_key(*nonce);
    let mut buf = data;
    let aad_part = aws_lc_rs::aead::Aad::from(aad.as_slice());
    sealing.seal_in_place_append_tag(n, aad_part, &mut buf).map_err(|_| ())?;
    Ok(buf)
}

/// Relies on aws_lc_rs::aead::LessSafeKey::open_in_place, with
/// UnboundKey::new, Nonce::assume_unique_for_key and Aad::from converting
/// the arguments: for a key of the right length the outcome is computed from
/// the algorithm, key, nonce, associated data and ciphertext alone; on
/// success the recovered plaintext is the buffer minus the 16-byte tag, and
/// an unverifiable tag is refused; a key whose length does not match the
/// algorithm is refused by UnboundKey::new.
#[verifier::external_body]
fn engine_open(
    alg: &AeadAlgorithm,
    key: &Vec<u8>,
    nonce: &[u8; NONCE_LEN],
    aad: &Vec<u8>,
    data: Vec<u8>,
) -> (r: Result<Vec<u8>, ()>)
    ensures
        key@.len() == alg.spec_key_len() ==> (match opened_bytes(
            *alg,
            key@,
            nonce@,
            aad@,
            data@,
        ) {
            Some(p) => r matches Ok(q) && q@ == p && p.len() + TAG_LEN == data@.len(),
            None => r is Err,
        }),
        key@.len() != alg.spec_key_len() ==> r is Err,
{
    let algorithm = match alg {
        AeadAlgorithm::Aes128Gcm => &aws_lc_rs::aead::AES_128_GCM,
        AeadAlgorithm::Aes256Gcm => &aws_lc_rs::aead::AES_256_GCM,
        AeadAlgorithm::ChaCha20Poly1305 => &aws_lc_rs::aead::CHACHA20_POLY1305,
    };
    let unbound = aws_lc_rs::aead::UnboundKey::new(algorithm, key.as_slice()).map_err(|_| ())?;
    let opening = aws_lc_rs::aead::LessSafeKey::new(unbound);
    let n = aws_lc_rs::aead::Nonce::assume_unique_for_key(*nonce);
    let mut buf = data;
    let aad_part = aws_lc_rs::aead::Aad::from(aad.as_slice());
    let plain = opening.open_in_place(n, aad_part, &mut buf).map_err(|_| ())?;
    Ok(plain.to_vec())
}

/// Seals `plaintext` under `key` with the one nonce that `nonces` holds,
/// returning the ciphertext with the 16-byte tag appended; opening that
/// ciphertext under the same key, nonce and associated data recovers the
/// plaintext. The source is consumed by the call, so no later operation can
/// draw the same nonce from it. Fails with `WrongKeyLength` if the key does
/// not fit the algorithm, with `NonceExhausted` if the source was already
/// empty, and with `Rejected` if the engine refuses the operation, which it
/// does not for plaintexts of at most [`SEAL_LIMIT`] bytes.
pub fn seal(
    alg: AeadAlgorithm,
    key: &Vec<u8>,
    nonces: SingleUseNonceSource,
    aad: &Vec<u8>,
    plaintext: Vec<u8>,
) -> (result: Result<Vec<u8>, AeadError>)
    ensures
        key@.len() != alg.spec_key_len() ==> result == Err::<Vec<u8>, AeadError>(
            AeadError::WrongKeyLength,
        ),
        key@.len() == alg.spec_key_len() && nonces@ is None ==> result == Err::<Vec<u8>, AeadError>(
            AeadError::NonceExhausted,
        ),
        nonces@ matches Some(n) ==> (key@.len() == alg.spec_key_len() ==> (match result {
            Ok(c) => c@ == sealed_bytes(alg, key@, n, aad@, plaintext@) && c@.len()
                == plaintext@.len() + TAG_LEN && opened_bytes(alg, key@, n, aad@, c@) == Some(
                plaintext@,
            ),
            Err(e) => e == AeadError::Rejected,
        })),
        key@.len() == alg.spec_key_len() && nonces@ is Some && plaintext@.len() <= SEAL_LIMIT
            ==> result is Ok,
{
    if key.len() != alg.key_len() {
        return Err(AeadError::WrongKeyLength);
    }
    let mut source = nonces;
    let nonce = match source.take() {
        Ok(n) => n,
        Err(_) => {
            return Err(AeadError::NonceExhausted);
        },
    };
    match engine_seal(&alg, key, &nonce, aad, plaintext) {
        Ok(c) => Ok(c),
        Err(_) => Err(AeadError::Rejected),
    }
}

/// Opens a ciphertext-with-tag under `key` with the one nonce that `nonces`
/// holds, returning the recovered plaintext exactly when the engine verifies
/// the tag. The source is consumed by the call. Fails with `WrongKeyLength`
/// if the key does not fit the algorithm, with `NonceExhausted` if the
/// source was already empty, and with `Rejected` if the tag does not verify;
/// no partial plaintext is returned on failure.
pub fn open(
    alg: AeadAlgorithm,
    key: &Vec<u8>,
    nonces: SingleUseNonceSource,
    aad: &Vec<u8>,
    ciphertext: Vec<u8>,
) -> (result: Result<Vec<u8>, AeadError>)
    ensures
        key@.len() != alg.spec_key_len() ==> result == Err::<Vec<u8>, AeadError>(
            AeadError::WrongKeyLength,
        ),
        key@.len() == alg.spec_key_len() && nonces@ is None ==> result == Err::<Vec<u8>, AeadError>(
            AeadError::NonceExhausted,
        ),
        nonces@ matches Some(n) ==> (key@.len() == alg.spec_key_len() ==> (match opened_bytes(
            alg,
            key@,
            n,
            aad@,
            ciphertext@,
        ) {
            Some(p) => result matches Ok(q) && q@ == p && p.len() + TAG_LEN == ciphertext@.len(),
            None => result == Err::<Vec<u8>, AeadError>(AeadError::Rejected),
        })),
{
    if key.len() != alg.key_len() {
        return Err(AeadError::WrongKeyLength);
    }
    let mut source = nonces;
    let nonce = match source.take() {
        Ok(n) => n,
        Err(_) => {
            return Err(AeadError::NonceExhausted);
        },
    };
    match engine_open(&alg, key, &nonce, aad, ciphertext) {
        Ok(p) => Ok(p),
        Err(_) => Err(AeadError::Rejected),
    }
}

} // verus!
