//! The key-derivation and cipher backend: given the container's cipher
//! name, KDF name, KDF options and the caller's optional password, turn
//! the private section into plaintext.

use vstd::prelude::*;
use crate::bytes::{
    spec_u32, spec_string, bytes_eq, sub_bytes, name_none, name_bcrypt, name_aes128_cbc,
    name_aes128_ctr, name_aes256_cbc, name_aes256_ctr, name_none_bytes, name_bcrypt_bytes,
    name_aes128_cbc_bytes, name_aes128_ctr_bytes, name_aes256_cbc_bytes, name_aes256_ctr_bytes,
};
use crate::backend::{
    bcrypt_of, ctr128_of, ctr256_of, cbc128_of, cbc256_of, bcrypt_derive, aes128_ctr_apply,
    aes256_ctr_apply, aes128_cbc_decrypt, aes256_cbc_decrypt,
};
use crate::cursor::Cursor;
use crate::error::{Error, ErrView};

verus! {

/// The password as the backend sees it.
pub open spec fn spec_password(p: Option<&str>) -> Option<Seq<char>> {
    match p {
        Some(s) => Some(s@),
        None => None,
    }
}

/// How much key material a cipher needs: its key, followed by a 16-byte
/// IV. Unknown cipher names need none.
pub open spec fn key_material_len(cipher: Seq<u8>) -> Option<nat> {
    if cipher == name_aes128_cbc() || cipher == name_aes128_ctr() {
        Some(32nat)
    } else if cipher == name_aes256_cbc() || cipher == name_aes256_ctr() {
        Some(48nat)
    } else {
        None
    }
}

/// The bcrypt KDF options: a length-prefixed salt followed by a 32-bit
/// round count. Trailing bytes are ignored.
pub open spec fn spec_bcrypt_opts(opts: Seq<u8>) -> Option<(Seq<u8>, u32)> {
    match spec_string(opts, 0) {
        None => None,
        Some((salt, j)) => match spec_u32(opts, j) {
            None => None,
            Some((rounds, _k)) => Some((salt, rounds)),
        },
    }
}

/// Cipher dispatch over the derived key and IV. CBC needs a whole number
/// of 16-byte blocks; CTR is a keystream and takes any length.
pub open spec fn spec_cipher_apply(cipher: Seq<u8>, key: Seq<u8>, iv: Seq<u8>, ct: Seq<u8>)
    -> Result<Seq<u8>, ErrView>
{
    if cipher == name_aes128_cbc() {
        if ct.len() % 16 == 0 {
            Ok(cbc128_of(key, iv, ct))
        } else {
            Err(ErrView::CouldNotRead)
        }
    } else if cipher == name_aes256_cbc() {
        if ct.len() % 16 == 0 {
            Ok(cbc256_of(key, iv, ct))
        } else {
            Err(ErrView::CouldNotRead)
        }
    } else if cipher == name_aes128_ctr() {
        Ok(ctr128_of(key, iv, ct))
    } else if cipher == name_aes256_ctr() {
        Ok(ctr256_of(key, iv, ct))
    } else {
        Err(ErrView::CouldNotRead)
    }
}

/// What decryption returns. A KDF of "none" means the section is already
/// plain: it is returned unchanged, and a password supplied against it is
/// an error. A real KDF without a password asks for one. Otherwise the
/// password, salt and rounds feed the KDF; the first bytes of the derived
/// material are the cipher key, the final 16 its IV.
pub open spec fn spec_decrypt(
    cipher: Seq<u8>,
    kdf: Seq<u8>,
    opts: Seq<u8>,
    pw: Option<Seq<char>>,
    ct: Seq<u8>,
) -> Result<Seq<u8>, ErrView> {
    if kdf == name_none() {
        if pw is None {
            Ok(ct)
        } else {
            Err(ErrView::CouldNotRead)
        }
    } else {
        match pw {
            None => Err(ErrView::Encrypted),
            Some(pass) => match key_material_len(cipher) {
                None => Err(ErrView::CouldNotRead),
                Some(n) => if kdf == name_bcrypt() {
                    match spec_bcrypt_opts(opts) {
                        None => Err(ErrView::CouldNotRead),
                        Some((salt, rounds)) => if pass.len() > 0 && salt.len() > 0
                            && rounds > 0 {
                            let material = bcrypt_of(pass, salt, rounds, n);
                            spec_cipher_apply(
                                cipher,
                                material.subrange(0, n as int - 16),
                                material.subrange(n as int - 16, n as int),
                                ct,
                            )
                        } else {
                            Err(ErrView::CouldNotRead)
                        },
                    }
                } else {
                    Err(ErrView::CouldNotRead)
                },
            },
        }
    }
}

/// Decryption is deterministic: the same ciphertext under the same cipher
/// name, KDF name, options and password yields the same plaintext. In
/// particular CTR-mode decryption under one derived key and IV is a fixed
/// function of the ciphertext.
pub proof fn lemma_decrypt_deterministic(
    cipher: Seq<u8>,
    kdf: Seq<u8>,
    opts: Seq<u8>,
    pw: Option<Seq<char>>,
    ct: Seq<u8>,
    r1: Result<Seq<u8>, ErrView>,
    r2: Result<Seq<u8>, ErrView>,
)
    requires
        r1 == spec_decrypt(cipher, kdf, opts, pw, ct),
        r2 == spec_decrypt(cipher, kdf, opts, pw, ct),
    ensures
        r1 == r2,
{
}

/// Supplying a password against a container whose KDF is "none" fails:
/// there is nothing to decrypt with it.
pub proof fn lemma_password_against_plain_container(
    cipher: Seq<u8>,
    opts: Seq<u8>,
    pw: Seq<char>,
    ct: Seq<u8>,
)
    ensures
        spec_decrypt(cipher, name_none(), opts, Some(pw), ct)
            == Err::<Seq<u8>, ErrView>(ErrView::CouldNotRead),
{
}

/// Omitting the password against a container with a real KDF fails with
/// the password-required error, distinct from structural errors.
pub proof fn lemma_encrypted_container_needs_password(
    cipher: Seq<u8>,
    kdf: Seq<u8>,
    opts: Seq<u8>,
    ct: Seq<u8>,
)
    requires
        kdf != name_none(),
    ensures
        spec_decrypt(cipher, kdf, opts, None, ct)
            == Err::<Seq<u8>, ErrView>(ErrView::Encrypted),
{
}

/// Turns the private section into plaintext, as `spec_decrypt` says.
pub fn decrypt_secret_key(
    ciphername: &[u8],
    kdfname: &[u8],
    kdfoptions: &[u8],
    password: Option<&str>,
    secret_key: &[u8],
) -> (r: Result<Vec<u8>, Error>)
    ensures
        match spec_decrypt(ciphername@, kdfname@, kdfoptions@, spec_password(password),
            secret_key@) {
            Ok(pt) => r matches Ok(v) && v@ == pt,
            Err(ev) => r matches Err(e) && e@ == ev,
        },
{
    let kdf_none = name_none_bytes();
    if bytes_eq(kdfname, kdf_none.as_slice()) {
        if password.is_none() {
            let v = sub_bytes(secret_key, 0, secret_key.len());
            proof {
                assert(v@ =~= secret_key@);
            }
            Ok(v)
        } else {
            Err(Error::CouldNotReadKey)
        }
    } else {
        let pass = match password {
            Some(p) => p,
            None => {
                return Err(Error::KeyIsEncrypted);
            },
        };
        let c128cbc = name_aes128_cbc_bytes();
        let c128ctr = name_aes128_ctr_bytes();
        let c256cbc = name_aes256_cbc_bytes();
        let c256ctr = name_aes256_ctr_bytes();
        let is128cbc = bytes_eq(ciphername, c128cbc.as_slice());
        let is128ctr = bytes_eq(ciphername, c128ctr.as_slice());
        let is256cbc = bytes_eq(ciphername, c256cbc.as_slice());
        let is256ctr = bytes_eq(ciphername, c256ctr.as_slice());
        let n: usize = if is128cbc || is128ctr {
            32
        } else if is256cbc || is256ctr {
            48
        } else {
            return Err(Error::CouldNotReadKey);
        };
        let kdf_bcrypt = name_bcrypt_bytes();
        if !bytes_eq(kdfname, kdf_bcrypt.as_slice()) {
            return Err(Error::CouldNotReadKey);
        }
        let mut opts = Cursor::new(kdfoptions, 0);
        let salt = match opts.read_string() {
            Ok(v) => v,
            Err(_) => {
                return Err(Error::CouldNotReadKey);
            },
        };
        let rounds = match opts.read_u32() {
            Ok(v) => v,
            Err(_) => {
                return Err(Error::CouldNotReadKey);
            },
        };
        let material = match bcrypt_derive(pass, salt.as_slice(), rounds, n) {
            Some(v) => v,
            None => {
                return Err(Error::CouldNotReadKey);
            },
        };
        let key = sub_bytes(material.as_slice(), 0, n - 16);
        let iv = sub_bytes(material.as_slice(), n - 16, n);
        if is128cbc {
            match aes128_cbc_decrypt(key.as_slice(), iv.as_slice(), secret_key) {
                Some(v) => Ok(v),
                None => Err(Error::CouldNotReadKey),
            }
        } else if is256cbc {
            match aes256_cbc_decrypt(key.as_slice(), iv.as_slice(), secret_key) {
                Some(v) => Ok(v),
                None => Err(Error::CouldNotReadKey),
            }
        } else if is128ctr {
            Ok(aes128_ctr_apply(key.as_slice(), iv.as_slice(), secret_key))
        } else {
            Ok(aes256_ctr_apply(key.as_slice(), iv.as_slice(), secret_key))
        }
    }
}

} // verus!
