//! A one-shot nonce adapter for driving an AEAD engine safely.
//!
//! AEAD security depends on never reusing a (key, nonce) pair. The
//! [`nonce::SingleUseNonceSource`] type supplies exactly one caller-chosen
//! nonce to a sealing or opening operation and then permanently refuses
//! further requests, so a single operation can never draw the same nonce
//! twice. The [`aead`] module drives the engine from such a source: it seals
//! a plaintext into ciphertext-with-tag and opens ciphertext-with-tag back
//! into plaintext, consuming one nonce per operation.

pub mod aead;
pub mod nonce;
