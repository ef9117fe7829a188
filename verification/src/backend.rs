//! The cryptographic primitives the decoder consumes as black boxes:
//! password-based key derivation, the AES cipher modes, multi-precision
//! remainders for the RSA CRT parameters, RSA key validation, and P-256
//! public-key derivation. Each is a trusted wrapper around an outside
//! crate; everything around them is verified.

use vstd::prelude::*;
use crate::bytes::be_nat;
use openssl::bn::BigNum;
use block_modes::BlockMode;
use aes::cipher::{NewCipher, StreamCipher};

verus! {

/// The key material bcrypt_pbkdf derives from a password, salt, round
/// count, and requested length. A fixed function of its arguments.
pub uninterp spec fn bcrypt_of(pass: Seq<char>, salt: Seq<u8>, rounds: u32, len: nat) -> Seq<u8>;

/// The AES-128-CTR keystream XORed over `data` under `key` and `iv`.
pub uninterp spec fn ctr128_of(key: Seq<u8>, iv: Seq<u8>, data: Seq<u8>) -> Seq<u8>;

/// The AES-256-CTR keystream XORed over `data` under `key` and `iv`.
pub uninterp spec fn ctr256_of(key: Seq<u8>, iv: Seq<u8>, data: Seq<u8>) -> Seq<u8>;

/// The AES-128-CBC decryption of `data` under `key` and `iv`, with no
/// padding removed.
pub uninterp spec fn cbc128_of(key: Seq<u8>, iv: Seq<u8>, data: Seq<u8>) -> Seq<u8>;

/// The AES-256-CBC decryption of `data` under `key` and `iv`, with no
/// padding removed.
pub uninterp spec fn cbc256_of(key: Seq<u8>, iv: Seq<u8>, data: Seq<u8>) -> Seq<u8>;

/// The SEC1 encoding of the P-256 public point derived from a 32-byte
/// secret scalar.
pub uninterp spec fn p256_public_of(scalar: Seq<u8>) -> Seq<u8>;

/// The order of the P-256 base point: a scalar is a valid secret key
/// exactly when it is nonzero and below this.
pub open spec fn p256_order() -> nat {
    (0xffffffff00000000ffffffffffffffffu128 as nat) * 0x10000000000000000 * 0x10000000000000000
        + (0xbce6faada7179e84f3b9cac2fc632551u128 as nat)
}

/// Relies on bcrypt_pbkdf::bcrypt_pbkdf: fills a buffer of `len` bytes
/// from (passphrase, salt, rounds); per its documentation it fails exactly
/// when the passphrase or salt is empty, the round count is zero, or the
/// output length is zero or above 1024.
#[verifier::external_body]
pub(crate) fn bcrypt_derive(pass: &str, salt: &[u8], rounds: u32, len: usize) -> (r: Option<Vec<u8>>)
    requires
        1 <= len <= 1024,
    ensures
        r is Some <==> (pass@.len() > 0 && salt@.len() > 0 && rounds > 0),
        r matches Some(v) ==> v@ == bcrypt_of(pass@, salt@, rounds, len as nat)
            && v@.len() == len,
{
    let mut out = vec![0u8; len];
    match bcrypt_pbkdf::bcrypt_pbkdf(pass, salt, rounds, &mut out) {
        Ok(()) => Some(out),
        Err(_) => None,
    }
}

/// Relies on aes::Aes128Ctr (ctr::Ctr64BE over AES-128): XORs the
/// keystream over a copy of `data`; length is preserved. On a fresh
/// cipher the keystream cannot run out for any slice length.
#[verifier::external_body]
pub(crate) fn aes128_ctr_apply(key: &[u8], iv: &[u8], data: &[u8]) -> (r: Vec<u8>)
    requires
        key@.len() == 16,
        iv@.len() == 16,
    ensures
        r@ == ctr128_of(key@, iv@, data@),
        r@.len() == data@.len(),
{
    let mut buf = data.to_vec();
    if let Ok(mut cipher) = aes::Aes128Ctr::new_from_slices(key, iv) {
        let _ = cipher.try_apply_keystream(&mut buf);
    }
    buf
}

/// Relies on aes::Aes256Ctr (ctr::Ctr64BE over AES-256): XORs the
/// keystream over a copy of `data`; length is preserved. On a fresh
/// cipher the keystream cannot run out for any slice length.
#[verifier::external_body]
pub(crate) fn aes256_ctr_apply(key: &[u8], iv: &[u8], data: &[u8]) -> (r: Vec<u8>)
    requires
        key@.len() == 32,
        iv@.len() == 16,
    ensures
        r@ == ctr256_of(key@, iv@, data@),
        r@.len() == data@.len(),
{
    let mut buf = data.to_vec();
    if let Ok(mut cipher) = aes::Aes256Ctr::new_from_slices(key, iv) {
        let _ = cipher.try_apply_keystream(&mut buf);
    }
    buf
}

/// Relies on block_modes::Cbc<Aes128, NoPadding>::decrypt_vec: decrypts
/// in sixteen-byte blocks, removes no padding, and fails exactly when the
/// input is not a whole number of blocks.
#[verifier::external_body]
pub(crate) fn aes128_cbc_decrypt(key: &[u8], iv: &[u8], data: &[u8]) -> (r: Option<Vec<u8>>)
    requires
        key@.len() == 16,
        iv@.len() == 16,
    ensures
        r is Some <==> data@.len() % 16 == 0,
        r matches Some(v) ==> v@ == cbc128_of(key@, iv@, data@) && v@.len() == data@.len(),
{
    match block_modes::Cbc::<aes::Aes128, block_modes::block_padding::NoPadding>::new_from_slices(
        key, iv,
    ) {
        Ok(cipher) => cipher.decrypt_vec(data).ok(),
        Err(_) => None,
    }
}

/// Relies on block_modes::Cbc<Aes256, NoPadding>::decrypt_vec: decrypts
/// in sixteen-byte blocks, removes no padding, and fails exactly when the
/// input is not a whole number of blocks.
#[verifier::external_body]
pub(crate) fn aes256_cbc_decrypt(key: &[u8], iv: &[u8], data: &[u8]) -> (r: Option<Vec<u8>>)
    requires
        key@.len() == 32,
        iv@.len() == 16,
    ensures
        r is Some <==> data@.len() % 16 == 0,
        r matches Some(v) ==> v@ == cbc256_of(key@, iv@, data@) && v@.len() == data@.len(),
{
    match block_modes::Cbc::<aes::Aes256, block_modes::block_padding::NoPadding>::new_from_slices(
        key, iv,
    ) {
        Ok(cipher) => cipher.decrypt_vec(data).ok(),
        Err(_) => None,
    }
}

/// Relies on openssl's BigNum::from_slice (unsigned big-endian),
/// BigNumRef::checked_sub (BN_sub) and BigNum::to_vec (minimal big-endian
/// of the absolute value): for a >= b >= 0 the difference is a - b.
#[verifier::external_body]
pub(crate) fn bn_sub(a: &[u8], b: &[u8]) -> (r: Option<Vec<u8>>)
    requires
        be_nat(b@) <= be_nat(a@),
        a@.len() < 0x8000_0000,
        b@.len() < 0x8000_0000,
    ensures
        r matches Some(v) ==> be_nat(v@) == be_nat(a@) - be_nat(b@)
            && v@.len() <= a@.len(),
{
    let (Ok(x), Ok(y), Ok(mut z)) = (BigNum::from_slice(a), BigNum::from_slice(b), BigNum::new())
    else {
        return None;
    };
    if z.checked_sub(&x, &y).is_err() {
        return None;
    }
    Some(z.to_vec())
}

/// Relies on openssl's BigNum::from_slice, BigNumRef::checked_rem
/// (BN_div's remainder, which for a nonnegative dividend and positive
/// divisor is the Euclidean remainder) and BigNum::to_vec.
#[verifier::external_body]
pub(crate) fn bn_mod(a: &[u8], m: &[u8]) -> (r: Option<Vec<u8>>)
    requires
        be_nat(m@) >= 1,
        a@.len() < 0x8000_0000,
        m@.len() < 0x8000_0000,
    ensures
        r matches Some(v) ==> be_nat(v@) == (be_nat(a@) as int) % (be_nat(m@) as int)
            && v@.len() <= m@.len(),
{
    let (Ok(x), Ok(y), Ok(mut z), Ok(mut ctx)) = (
        BigNum::from_slice(a),
        BigNum::from_slice(m),
        BigNum::new(),
        openssl::bn::BigNumContext::new(),
    ) else {
        return None;
    };
    if z.checked_rem(&x, &y, &mut ctx).is_err() {
        return None;
    }
    Some(z.to_vec())
}

/// Relies on openssl's RsaPrivateKeyBuilder (new, set_factors,
/// set_crt_params, build) and Rsa::check_key (RSA_check_key): builds a
/// private key from big-endian components and reports whether the
/// library accepts it as valid. Nothing is promised of the answer.
#[verifier::external_body]
pub(crate) fn rsa_check(
    n: &[u8], e: &[u8], d: &[u8], p: &[u8], q: &[u8],
    dmp1: &[u8], dmq1: &[u8], iqmp: &[u8],
) -> (r: bool)
    requires
        n@.len() < 0x8000_0000,
        e@.len() < 0x8000_0000,
        d@.len() < 0x8000_0000,
        p@.len() < 0x8000_0000,
        q@.len() < 0x8000_0000,
        dmp1@.len() < 0x8000_0000,
        dmq1@.len() < 0x8000_0000,
        iqmp@.len() < 0x8000_0000,
{
    let check = || -> Result<bool, openssl::error::ErrorStack> {
        openssl::rsa::RsaPrivateKeyBuilder::new(
            BigNum::from_slice(n)?, BigNum::from_slice(e)?, BigNum::from_slice(d)?)?
            .set_factors(BigNum::from_slice(p)?, BigNum::from_slice(q)?)?
            .set_crt_params(
                BigNum::from_slice(dmp1)?, BigNum::from_slice(dmq1)?, BigNum::from_slice(iqmp)?)?
            .build()
            .check_key()
    };
    check().unwrap_or(false)
}

/// Relies on p256::SecretKey::from_bytes, which accepts exactly the
/// nonzero scalars below the group order, and on
/// PublicKey::to_sec1_bytes via SecretKey::public_key, whose result is a
/// fixed function of the scalar.
#[verifier::external_body]
pub(crate) fn p256_derive_public(scalar: &[u8]) -> (r: Option<Vec<u8>>)
    requires
        scalar@.len() == 32,
    ensures
        r is Some <==> 0 < be_nat(scalar@) < p256_order(),
        r matches Some(v) ==> v@ == p256_public_of(scalar@),
{
    match p256::SecretKey::from_bytes(p256::FieldBytes::from_slice(scalar)) {
        Ok(sk) => Some(sk.public_key().to_sec1_bytes().to_vec()),
        Err(_) => None,
    }
}

} // verus!
