use thrussh_keys::{decode_openssh, Error, KeyPair, SignatureHash};
use thrussh_keys::decrypt::decrypt_secret_key;

use aes::cipher::{NewCipher, StreamCipher};
use block_modes::BlockMode;

fn put_u32(v: &mut Vec<u8>, x: u32) {
    v.extend_from_slice(&x.to_be_bytes());
}

fn put_str(v: &mut Vec<u8>, s: &[u8]) {
    put_u32(v, s.len() as u32);
    v.extend_from_slice(s);
}

fn container(cipher: &[u8], kdf: &[u8], kdfopts: &[u8], pubkeys: &[&[u8]], privsec: &[u8]) -> Vec<u8> {
    let mut v = Vec::new();
    v.extend_from_slice(b"openssh-key-v1\0");
    put_str(&mut v, cipher);
    put_str(&mut v, kdf);
    put_str(&mut v, kdfopts);
    put_u32(&mut v, pubkeys.len() as u32);
    for pk in pubkeys {
        put_str(&mut v, pk);
    }
    put_str(&mut v, privsec);
    v
}

fn ed25519_section(seed: &[u8; 32], public: &[u8; 32], comment: &[u8]) -> Vec<u8> {
    let mut sec = Vec::new();
    put_u32(&mut sec, 0x2A2A2A2A);
    put_u32(&mut sec, 0x2A2A2A2A);
    put_str(&mut sec, b"ssh-ed25519");
    put_str(&mut sec, public);
    let mut full = Vec::new();
    full.extend_from_slice(seed);
    full.extend_from_slice(public);
    put_str(&mut sec, &full);
    put_str(&mut sec, comment);
    sec
}

fn sample_public() -> [u8; 32] {
    let mut x = [0u8; 32];
    for i in 0..32 {
        x[i] = (i + 1) as u8;
    }
    x
}

fn bcrypt_opts(salt: &[u8], rounds: u32) -> Vec<u8> {
    let mut v = Vec::new();
    put_str(&mut v, salt);
    put_u32(&mut v, rounds);
    v
}

fn derive(pass: &str, salt: &[u8], rounds: u32, n: usize) -> (Vec<u8>, Vec<u8>) {
    let mut material = vec![0u8; n];
    bcrypt_pbkdf::bcrypt_pbkdf(pass, salt, rounds, &mut material).unwrap();
    let iv = material.split_off(n - 16);
    (material, iv)
}

#[test]
fn short_buffers_fail_with_malformed_error() {
    for n in 0..15 {
        let buf = vec![7u8; n];
        assert_eq!(decode_openssh(&buf, None), Err(Error::CouldNotReadKey));
    }
}

#[test]
fn bad_magic_fails() {
    let mut buf = container(b"none", b"none", b"", &[b""], &[]);
    buf[0] = b'x';
    assert_eq!(decode_openssh(&buf, None), Err(Error::CouldNotReadKey));
}

#[test]
fn plain_ed25519_container_decodes() {
    let x = sample_public();
    let seed = [0u8; 32];
    let sec = ed25519_section(&seed, &x, b"");
    let buf = container(b"none", b"none", b"", &[b""], &sec);
    let kp = decode_openssh(&buf, None).unwrap();
    match kp {
        KeyPair::Ed25519(k) => {
            assert_eq!(k.key.len(), 64);
            assert_eq!(&k.key[..32], &seed);
            assert_eq!(&k.key[32..], &x);
        }
        other => panic!("unexpected key {:?}", other),
    }
}

#[test]
fn ed25519_secret_public_mismatch_fails() {
    let x = sample_public();
    let seed = [0u8; 32];
    let mut sec = Vec::new();
    put_u32(&mut sec, 0);
    put_u32(&mut sec, 0);
    put_str(&mut sec, b"ssh-ed25519");
    let mut wrong = x;
    wrong[0] ^= 1;
    put_str(&mut sec, &wrong);
    let mut full = Vec::new();
    full.extend_from_slice(&seed);
    full.extend_from_slice(&x);
    put_str(&mut sec, &full);
    put_str(&mut sec, b"");
    let buf = container(b"none", b"none", b"", &[b""], &sec);
    assert_eq!(decode_openssh(&buf, None), Err(Error::CouldNotReadKey));
}

#[test]
fn password_against_plain_container_fails() {
    let x = sample_public();
    let sec = ed25519_section(&[0u8; 32], &x, b"");
    let buf = container(b"none", b"none", b"", &[b""], &sec);
    assert_eq!(decode_openssh(&buf, Some("hunter2")), Err(Error::CouldNotReadKey));
}

#[test]
fn missing_password_against_encrypted_container_fails() {
    let buf = container(b"aes256-ctr", b"bcrypt", &bcrypt_opts(b"salty", 4), &[b""], b"whatever");
    assert_eq!(decode_openssh(&buf, None), Err(Error::KeyIsEncrypted));
}

#[test]
fn unknown_key_type_reports_exact_tag() {
    let mut sec = Vec::new();
    put_u32(&mut sec, 0);
    put_u32(&mut sec, 0);
    put_str(&mut sec, b"ssh-dss");
    let buf = container(b"none", b"none", b"", &[b""], &sec);
    assert_eq!(
        decode_openssh(&buf, None),
        Err(Error::UnsupportedKeyType(b"ssh-dss".to_vec()))
    );
}

#[test]
fn zero_declared_keys_fails() {
    let mut sec = Vec::new();
    put_u32(&mut sec, 0);
    put_u32(&mut sec, 0);
    let buf = container(b"none", b"none", b"", &[], &sec);
    assert_eq!(decode_openssh(&buf, None), Err(Error::CouldNotReadKey));
}

#[test]
fn encrypted_aes256_ctr_container_decodes_with_correct_password() {
    let x = sample_public();
    let seed = [9u8; 32];
    let plain = ed25519_section(&seed, &x, b"home");
    let salt = b"0123456789abcdef";
    let rounds = 4;
    let (key, iv) = derive("correct horse", salt, rounds, 48);
    let mut ct = plain.clone();
    let mut cipher = aes::Aes256Ctr::new_from_slices(&key, &iv).unwrap();
    cipher.apply_keystream(&mut ct);
    let buf = container(b"aes256-ctr", b"bcrypt", &bcrypt_opts(salt, rounds), &[b""], &ct);

    let kp = decode_openssh(&buf, Some("correct horse")).unwrap();
    match kp {
        KeyPair::Ed25519(k) => {
            assert_eq!(&k.key[..32], &seed);
            assert_eq!(&k.key[32..], &x);
        }
        other => panic!("unexpected key {:?}", other),
    }

    assert_eq!(
        decode_openssh(&buf, Some("wrong horse")),
        Err(Error::CouldNotReadKey)
    );
}

#[test]
fn encrypted_aes128_ctr_container_decodes() {
    let x = sample_public();
    let seed = [3u8; 32];
    let plain = ed25519_section(&seed, &x, b"");
    let salt = b"pepper";
    let rounds = 2;
    let (key, iv) = derive("pw128", salt, rounds, 32);
    let mut ct = plain.clone();
    let mut cipher = aes::Aes128Ctr::new_from_slices(&key, &iv).unwrap();
    cipher.apply_keystream(&mut ct);
    let buf = container(b"aes128-ctr", b"bcrypt", &bcrypt_opts(salt, rounds), &[b""], &ct);
    let kp = decode_openssh(&buf, Some("pw128")).unwrap();
    match kp {
        KeyPair::Ed25519(k) => assert_eq!(&k.key[32..], &x),
        other => panic!("unexpected key {:?}", other),
    }
}

#[test]
fn encrypted_aes256_cbc_container_decodes() {
    let x = sample_public();
    let seed = [5u8; 32];
    // A comment of 13 bytes makes the section a whole number of blocks.
    let plain = ed25519_section(&seed, &x, b"thirteen-byte");
    assert_eq!(plain.len() % 16, 0);
    let salt = b"cbc-salt";
    let rounds = 3;
    let (key, iv) = derive("pw-cbc", salt, rounds, 48);
    let cipher = block_modes::Cbc::<aes::Aes256, block_modes::block_padding::NoPadding>::
        new_from_slices(&key, &iv).unwrap();
    let ct = cipher.encrypt_vec(&plain);
    assert_eq!(ct.len(), plain.len());
    let buf = container(b"aes256-cbc", b"bcrypt", &bcrypt_opts(salt, rounds), &[b""], &ct);
    let kp = decode_openssh(&buf, Some("pw-cbc")).unwrap();
    match kp {
        KeyPair::Ed25519(k) => assert_eq!(&k.key[32..], &x),
        other => panic!("unexpected key {:?}", other),
    }
}

#[test]
fn encrypted_aes128_cbc_container_decodes() {
    let x = sample_public();
    let seed = [6u8; 32];
    let plain = ed25519_section(&seed, &x, b"thirteen-byte");
    assert_eq!(plain.len() % 16, 0);
    let salt = b"cbc-salt-128";
    let rounds = 3;
    let (key, iv) = derive("pw-cbc-128", salt, rounds, 32);
    let cipher = block_modes::Cbc::<aes::Aes128, block_modes::block_padding::NoPadding>::
        new_from_slices(&key, &iv).unwrap();
    let ct = cipher.encrypt_vec(&plain);
    let buf = container(b"aes128-cbc", b"bcrypt", &bcrypt_opts(salt, rounds), &[b""], &ct);
    let kp = decode_openssh(&buf, Some("pw-cbc-128")).unwrap();
    match kp {
        KeyPair::Ed25519(k) => assert_eq!(&k.key[32..], &x),
        other => panic!("unexpected key {:?}", other),
    }
}

#[test]
fn cbc_ciphertext_with_partial_block_fails() {
    let x = sample_public();
    let plain = ed25519_section(&[0u8; 32], &x, b"");
    let salt = b"salt";
    let rounds = 2;
    // Ciphertext length not a whole number of blocks: the primitive
    // rejects it and the failure surfaces as a read error.
    let mut ct = plain.clone();
    ct.push(0);
    let buf = container(b"aes256-cbc", b"bcrypt", &bcrypt_opts(salt, rounds), &[b""], &ct);
    assert_eq!(decode_openssh(&buf, Some("pw")), Err(Error::CouldNotReadKey));
}

#[test]
fn unknown_cipher_name_fails() {
    let buf = container(b"des", b"bcrypt", &bcrypt_opts(b"salt", 2), &[b""], b"x");
    assert_eq!(decode_openssh(&buf, Some("pw")), Err(Error::CouldNotReadKey));
}

#[test]
fn unknown_kdf_name_fails() {
    let buf = container(b"aes256-ctr", b"scrypt", &bcrypt_opts(b"salt", 2), &[b""], b"x");
    assert_eq!(decode_openssh(&buf, Some("pw")), Err(Error::CouldNotReadKey));
}

#[test]
fn ctr_decryption_is_deterministic() {
    let salt = b"det-salt";
    let opts = bcrypt_opts(salt, 4);
    let ct = b"some ciphertext of odd length!!";
    let r1 = decrypt_secret_key(b"aes256-ctr", b"bcrypt", &opts, Some("pw"), ct);
    let r2 = decrypt_secret_key(b"aes256-ctr", b"bcrypt", &opts, Some("pw"), ct);
    assert!(r1.is_ok());
    assert_eq!(r1, r2);
    let p1 = decrypt_secret_key(b"aes128-ctr", b"bcrypt", &opts, Some("pw"), ct);
    let p2 = decrypt_secret_key(b"aes128-ctr", b"bcrypt", &opts, Some("pw"), ct);
    assert!(p1.is_ok());
    assert_eq!(p1, p2);
}

#[test]
fn plain_container_returns_section_unchanged() {
    let r = decrypt_secret_key(b"none", b"none", b"", None, b"plain bytes").unwrap();
    assert_eq!(r, b"plain bytes");
}

const RSA_N: &[u8] = &[136, 143, 163, 131, 252, 98, 203, 1, 118, 78, 25, 30, 44, 195, 226, 93, 237, 84, 102, 223, 187, 47, 8, 63, 157, 162, 57, 71, 117, 117, 111, 87, 125, 63, 19, 249, 24, 183, 141, 202, 85, 95, 140, 176, 17, 49, 164, 195, 163, 198, 109, 91, 91, 21, 85, 251, 15, 20, 225, 188, 99, 193, 49, 155];
const RSA_E: &[u8] = &[1, 0, 1];
const RSA_D: &[u8] = &[23, 237, 243, 157, 65, 48, 158, 154, 22, 253, 0, 113, 197, 46, 94, 16, 79, 114, 38, 196, 181, 172, 60, 41, 201, 153, 143, 167, 241, 241, 46, 29, 72, 250, 194, 25, 122, 31, 47, 114, 235, 161, 223, 130, 58, 241, 111, 213, 150, 178, 68, 160, 210, 5, 82, 172, 205, 20, 238, 96, 193, 204, 167, 129];
const RSA_IQMP: &[u8] = &[127, 94, 113, 224, 226, 122, 255, 98, 81, 127, 252, 170, 156, 228, 216, 50, 184, 253, 217, 71, 225, 213, 168, 82, 39, 111, 112, 24, 53, 10, 59, 53];
const RSA_P: &[u8] = &[197, 22, 31, 148, 88, 44, 69, 228, 45, 81, 234, 45, 95, 108, 220, 232, 13, 74, 212, 163, 46, 98, 111, 44, 217, 128, 15, 70, 49, 203, 116, 81];
const RSA_Q: &[u8] = &[177, 97, 221, 52, 107, 27, 87, 48, 93, 68, 194, 110, 33, 151, 153, 153, 254, 70, 233, 225, 216, 144, 233, 202, 51, 194, 102, 21, 227, 232, 40, 43];
const RSA_DMP1: &[u8] = &[75, 108, 201, 15, 35, 163, 101, 232, 10, 52, 20, 51, 227, 22, 45, 128, 157, 61, 171, 28, 252, 46, 109, 175, 179, 89, 95, 255, 20, 37, 113, 209];
const RSA_DMQ1: &[u8] = &[124, 39, 130, 123, 193, 8, 6, 243, 204, 36, 103, 110, 76, 70, 222, 245, 1, 28, 67, 113, 151, 114, 126, 160, 207, 175, 158, 98, 109, 253, 189, 183];

#[test]
fn rsa_container_decodes_with_crt_parameters() {
    let mut sec = Vec::new();
    put_u32(&mut sec, 1);
    put_u32(&mut sec, 1);
    put_str(&mut sec, b"ssh-rsa");
    put_str(&mut sec, RSA_N);
    put_str(&mut sec, RSA_E);
    put_str(&mut sec, RSA_D);
    put_str(&mut sec, RSA_IQMP);
    put_str(&mut sec, RSA_P);
    put_str(&mut sec, RSA_Q);
    put_str(&mut sec, b"");
    let buf = container(b"none", b"none", b"", &[b""], &sec);
    let kp = decode_openssh(&buf, None).unwrap();
    match kp {
        KeyPair::RSA { key, hash } => {
            assert_eq!(hash, SignatureHash::SHA2_512);
            assert_eq!(key.n, RSA_N);
            assert_eq!(key.e, RSA_E);
            assert_eq!(key.d, RSA_D);
            assert_eq!(key.p, RSA_P);
            assert_eq!(key.q, RSA_Q);
            assert_eq!(key.iqmp, RSA_IQMP);
            assert_eq!(key.dmp1, RSA_DMP1);
            assert_eq!(key.dmq1, RSA_DMQ1);
        }
        other => panic!("unexpected key {:?}", other),
    }
}

#[test]
fn rsa_with_wrong_factor_fails_validation() {
    let mut sec = Vec::new();
    put_u32(&mut sec, 1);
    put_u32(&mut sec, 1);
    put_str(&mut sec, b"ssh-rsa");
    put_str(&mut sec, RSA_N);
    put_str(&mut sec, RSA_E);
    put_str(&mut sec, RSA_D);
    put_str(&mut sec, RSA_IQMP);
    let mut bad_p = RSA_P.to_vec();
    bad_p[31] ^= 2;
    put_str(&mut sec, &bad_p);
    put_str(&mut sec, RSA_Q);
    put_str(&mut sec, b"");
    let buf = container(b"none", b"none", b"", &[b""], &sec);
    assert_eq!(decode_openssh(&buf, None), Err(Error::CouldNotReadKey));
}

const P256_GEN_SEC1: &[u8] = &[4, 107, 23, 209, 242, 225, 44, 66, 71, 248, 188, 230, 229, 99, 164, 64, 242, 119, 3, 125, 129, 45, 235, 51, 160, 244, 161, 57, 69, 216, 152, 194, 150, 79, 227, 66, 226, 254, 26, 127, 155, 142, 231, 235, 74, 124, 15, 158, 22, 43, 206, 51, 87, 107, 49, 94, 206, 203, 182, 64, 104, 55, 191, 81, 245];

#[test]
fn p256_container_decodes_scalar_one() {
    let mut sec = Vec::new();
    put_u32(&mut sec, 1);
    put_u32(&mut sec, 1);
    put_str(&mut sec, b"ecdsa-sha2-nistp256");
    put_str(&mut sec, b"nistp256");
    put_str(&mut sec, P256_GEN_SEC1);
    put_str(&mut sec, &[1u8]);
    put_str(&mut sec, b"");
    let buf = container(b"none", b"none", b"", &[b""], &sec);
    let kp = decode_openssh(&buf, None).unwrap();
    match kp {
        KeyPair::P256(k) => {
            let mut expected = vec![0u8; 32];
            expected[31] = 1;
            assert_eq!(k.key, expected);
        }
        other => panic!("unexpected key {:?}", other),
    }
}

#[test]
fn p256_mismatched_public_point_fails() {
    let mut point = P256_GEN_SEC1.to_vec();
    point[64] ^= 1;
    let mut sec = Vec::new();
    put_u32(&mut sec, 1);
    put_u32(&mut sec, 1);
    put_str(&mut sec, b"ecdsa-sha2-nistp256");
    put_str(&mut sec, b"nistp256");
    put_str(&mut sec, &point);
    put_str(&mut sec, &[1u8]);
    put_str(&mut sec, b"");
    let buf = container(b"none", b"none", b"", &[b""], &sec);
    assert_eq!(decode_openssh(&buf, None), Err(Error::CouldNotReadKey));
}

#[test]
fn p256_zero_scalar_fails() {
    let mut sec = Vec::new();
    put_u32(&mut sec, 1);
    put_u32(&mut sec, 1);
    put_str(&mut sec, b"ecdsa-sha2-nistp256");
    put_str(&mut sec, b"nistp256");
    put_str(&mut sec, P256_GEN_SEC1);
    put_str(&mut sec, &[]);
    put_str(&mut sec, b"");
    let buf = container(b"none", b"none", b"", &[b""], &sec);
    assert_eq!(decode_openssh(&buf, None), Err(Error::CouldNotReadKey));
}

#[test]
fn truncated_private_section_fails() {
    let x = sample_public();
    let mut sec = ed25519_section(&[0u8; 32], &x, b"");
    sec.truncate(sec.len() - 40);
    let buf = container(b"none", b"none", b"", &[b""], &sec);
    assert_eq!(decode_openssh(&buf, None), Err(Error::CouldNotReadKey));
}

#[test]
fn truncated_envelope_fails() {
    let x = sample_public();
    let sec = ed25519_section(&[0u8; 32], &x, b"");
    let full = container(b"none", b"none", b"", &[b""], &sec);
    for cut in [16, 20, 25, 30, full.len() - 1] {
        let buf = &full[..cut];
        assert_eq!(decode_openssh(buf, None), Err(Error::CouldNotReadKey));
    }
}

#[test]
fn decoding_twice_gives_identical_results() {
    let x = sample_public();
    let seed = [9u8; 32];
    let plain = ed25519_section(&seed, &x, b"");
    let salt = b"twice";
    let (key, iv) = derive("pw", salt, 2, 48);
    let mut ct = plain.clone();
    let mut cipher = aes::Aes256Ctr::new_from_slices(&key, &iv).unwrap();
    cipher.apply_keystream(&mut ct);
    let buf = container(b"aes256-ctr", b"bcrypt", &bcrypt_opts(salt, 2), &[b""], &ct);
    let r1 = decode_openssh(&buf, Some("pw"));
    let r2 = decode_openssh(&buf, Some("pw"));
    assert!(r1.is_ok());
    assert_eq!(r1, r2);
}

#[test]
fn mpint_leading_zero_is_dropped() {
    // The scalar 1 written as an mpint with a leading zero byte decodes
    // to the same key as without it.
    let mut sec = Vec::new();
    put_u32(&mut sec, 1);
    put_u32(&mut sec, 1);
    put_str(&mut sec, b"ecdsa-sha2-nistp256");
    put_str(&mut sec, b"nistp256");
    put_str(&mut sec, P256_GEN_SEC1);
    put_str(&mut sec, &[0u8, 1u8]);
    put_str(&mut sec, b"");
    let buf = container(b"none", b"none", b"", &[b""], &sec);
    let kp = decode_openssh(&buf, None).unwrap();
    match kp {
        KeyPair::P256(k) => {
            let mut expected = vec![0u8; 32];
            expected[31] = 1;
            assert_eq!(k.key, expected);
        }
        other => panic!("unexpected key {:?}", other),
    }
}

#[test]
fn multiple_pubkeys_are_skipped_and_first_key_returned() {
    let x = sample_public();
    let seed = [1u8; 32];
    let mut sec = ed25519_section(&seed, &x, b"first");
    // A second record's bytes after the first are never parsed.
    sec.extend_from_slice(b"\xff\xfe\xfd");
    let buf = container(b"none", b"none", b"", &[b"blob-one", b"blob-two"], &sec);
    let kp = decode_openssh(&buf, None).unwrap();
    match kp {
        KeyPair::Ed25519(k) => assert_eq!(&k.key[32..], &x),
        other => panic!("unexpected key {:?}", other),
    }
}

#[test]
fn malformed_kdf_options_fail() {
    // The declared salt length runs past the end of the options.
    let opts = [0u8, 0, 0, 99, b's'];
    let buf = container(b"aes256-ctr", b"bcrypt", &opts, &[b""], b"ciphertext");
    assert_eq!(decode_openssh(&buf, Some("pw")), Err(Error::CouldNotReadKey));
}

#[test]
fn empty_password_fails_key_derivation() {
    let buf = container(b"aes256-ctr", b"bcrypt", &bcrypt_opts(b"salt", 4), &[b""], b"ct");
    assert_eq!(decode_openssh(&buf, Some("")), Err(Error::CouldNotReadKey));
}
