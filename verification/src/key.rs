//! The typed key material a successful decode produces.

use vstd::prelude::*;
use crate::bytes::be_nat;

verus! {

/// The hash to use when signing with an RSA key.
#[derive(Debug, Clone, Copy, PartialEq, Eq)]
#[allow(non_camel_case_types)]
pub enum SignatureHash {
    SHA2_256,
    SHA2_512,
}

/// An Ed25519 secret key: the 32-byte seed followed by the 32-byte public
/// half, in the container's own order.
#[derive(Debug, Clone, PartialEq, Eq)]
pub struct Ed25519SecretKey {
    pub key: Vec<u8>,
}

impl Ed25519SecretKey {
    /// A well-formed secret holds exactly 64 bytes.
    pub open spec fn wf(&self) -> bool {
        self.key@.len() == 64
    }
}

/// An RSA private key as plain big-endian magnitudes.
#[derive(Debug, Clone, PartialEq, Eq)]
pub struct RsaPrivate {
    pub n: Vec<u8>,
    pub e: Vec<u8>,
    pub d: Vec<u8>,
    pub p: Vec<u8>,
    pub q: Vec<u8>,
    pub dmp1: Vec<u8>,
    pub dmq1: Vec<u8>,
    pub iqmp: Vec<u8>,
}

impl RsaPrivate {
    /// The arithmetic the CRT parameters must satisfy: `dmp1` is
    /// `d mod (p - 1)` and `dmq1` is `d mod (q - 1)`.
    pub open spec fn crt_consistent(&self) -> bool {
        &&& be_nat(self.p@) >= 2
        &&& be_nat(self.q@) >= 2
        &&& be_nat(self.dmp1@) == (be_nat(self.d@) as int) % (be_nat(self.p@) - 1)
        &&& be_nat(self.dmq1@) == (be_nat(self.d@) as int) % (be_nat(self.q@) - 1)
    }
}

/// A NIST P-256 private scalar, exactly 32 bytes, big-endian.
#[derive(Debug, Clone, PartialEq, Eq)]
pub struct P256SecretKey {
    pub key: Vec<u8>,
}

impl P256SecretKey {
    /// A well-formed scalar holds exactly 32 bytes.
    pub open spec fn wf(&self) -> bool {
        self.key@.len() == 32
    }
}

/// The decoded key: exactly one algorithm's material, never partial.
#[derive(Debug, Clone, PartialEq, Eq)]
pub enum KeyPair {
    Ed25519(Ed25519SecretKey),
    RSA { key: RsaPrivate, hash: SignatureHash },
    P256(P256SecretKey),
}

impl KeyPair {
    /// Every key a decode returns satisfies its variant's shape.
    pub open spec fn wf(&self) -> bool {
        match self {
            KeyPair::Ed25519(sk) => sk.wf(),
            KeyPair::RSA { key, hash } => key.crt_consistent(),
            KeyPair::P256(sk) => sk.wf(),
        }
    }
}

} // verus!
