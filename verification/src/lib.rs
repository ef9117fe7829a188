//! Decoding of private keys stored in the "openssh-key-v1" container
//! format, with optional password-based decryption, producing typed key
//! material for Ed25519, RSA, or NIST P-256.

pub mod bytes;
pub mod error;
pub mod key;
pub mod cursor;
pub mod backend;
pub mod decrypt;
pub mod decode;

pub use error::Error;
pub use decode::decode_openssh;
pub use key::{KeyPair, SignatureHash, Ed25519SecretKey, RsaPrivate, P256SecretKey};
