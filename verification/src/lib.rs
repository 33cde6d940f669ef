//! A password-authenticated key exchange service built on the OPAQUE
//! protocol, with a session ledger on the server side, a handle ledger on
//! the client side, and an AES-256-GCM payload codec keyed by an HKDF
//! expansion of the OPAQUE export key.

pub mod aead;
pub mod boundary;
mod bytes;
pub mod client;
mod clock;
pub mod common;
pub mod handles;
pub mod hexcode;
mod osrand;
pub mod protocol;
pub mod scalar;
pub mod server;
pub mod session;
pub mod suite;
pub mod utf8check;

pub use aead::{decrypt_payload, derive_aes_key, encrypt_payload};
pub use boundary::{
    SafexOpaqueBuffer, SafexOpaqueClientStart, SafexOpaqueLoginFinish, SafexOpaqueLoginStart,
    SafexOpaqueRegistrationFinish,
};
pub use client::{
    ClientLedger, LoginFinishResult, LoginStartResult, RegistrationFinishResult,
    RegistrationStartResult,
};
pub use common::{CommonError, CommonResult, ErrorKind, AES_KEY_LEN, NONCE_LEN};
pub use scalar::{canonicalize_private_key, random_fake_private_key};
pub use server::SafexOpaqueManager;
pub use suite::SafexCipherSuite;
