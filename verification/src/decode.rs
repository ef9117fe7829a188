//! The container decoder: envelope parsing, decryption, and per-algorithm
//! assembly of the first key record.

use vstd::prelude::*;
use crate::bytes::{
    spec_u32, spec_string, spec_mpint, spec_skip_strings, spec_fit32, be_nat, bytes_eq,
    sub_bytes, is_zero_bytes, fit32, magic, magic_bytes, tag_ed25519, tag_rsa, tag_p256,
    tag_ed25519_bytes, tag_rsa_bytes, tag_p256_bytes,
};
use crate::backend::{p256_public_of, p256_order, bn_sub, bn_mod, rsa_check, p256_derive_public};
use crate::cursor::Cursor;
use crate::decrypt::{spec_decrypt, spec_password, decrypt_secret_key};
use crate::error::{Error, ErrView};
use crate::key::{KeyPair, SignatureHash, Ed25519SecretKey, RsaPrivate, P256SecretKey};

verus! {

/// What a decode comes to, before the one step no parser can predict:
/// the arithmetic backend's RSA validity answer. Every other path
/// is a fixed function of the input.
pub enum Outcome {
    /// The decode fails with this error.
    Fail(ErrView),
    /// An Ed25519 key: the 64-byte secret, seed then public half.
    Ed25519Key(Seq<u8>),
    /// A P-256 key: the 32-byte scalar.
    P256Key(Seq<u8>),
    /// An RSA record parsed to these six fields; whether the decode
    /// returns the key or a read error depends on the backend's validity check.
    RsaProbe { n: Seq<u8>, e: Seq<u8>, d: Seq<u8>, iqmp: Seq<u8>, p: Seq<u8>, q: Seq<u8> },
}

/// The outer envelope: magic, cipher name, KDF name, KDF options, key
/// count, the skipped public-key blobs, and the private section.
pub open spec fn spec_envelope(s: Seq<u8>) -> Option<(Seq<u8>, Seq<u8>, Seq<u8>, u32, Seq<u8>)> {
    if !(s.len() >= 15 && s.subrange(0, 15) == magic()) {
        None
    } else {
        match spec_string(s, 15) {
            None => None,
            Some((cipher, i1)) => match spec_string(s, i1) {
                None => None,
                Some((kdf, i2)) => match spec_string(s, i2) {
                    None => None,
                    Some((opts, i3)) => match spec_u32(s, i3) {
                        None => None,
                        Some((nkeys, i4)) => match spec_skip_strings(s, i4, nkeys as nat) {
                            None => None,
                            Some(i5) => match spec_string(s, i5) {
                                None => None,
                                Some((enc, _i6)) => Some((cipher, kdf, opts, nkeys, enc)),
                            },
                        },
                    },
                },
            },
        }
    }
}

/// An Ed25519 record: public bytes, secret bytes, comment. The secret
/// must hold 64 bytes whose trailing 32 equal the declared public bytes.
pub open spec fn spec_ed25519_record(pt: Seq<u8>, j: int) -> Outcome {
    match spec_string(pt, j) {
        None => Outcome::Fail(ErrView::CouldNotRead),
        Some((pubk, j1)) => match spec_string(pt, j1) {
            None => Outcome::Fail(ErrView::CouldNotRead),
            Some((sec, j2)) => match spec_string(pt, j2) {
                None => Outcome::Fail(ErrView::CouldNotRead),
                Some((_comment, _j3)) => if sec.len() == 64 && pubk == sec.subrange(32, 64) {
                    Outcome::Ed25519Key(sec)
                } else {
                    Outcome::Fail(ErrView::CouldNotRead)
                },
            },
        },
    }
}

/// An RSA record: the six strings n, e, d, iqmp, p, q, in container
/// order. No comment is read: assembly returns before it.
pub open spec fn spec_rsa_record(pt: Seq<u8>, j: int) -> Outcome {
    match spec_string(pt, j) {
        None => Outcome::Fail(ErrView::CouldNotRead),
        Some((n, j1)) => match spec_string(pt, j1) {
            None => Outcome::Fail(ErrView::CouldNotRead),
            Some((e, j2)) => match spec_string(pt, j2) {
                None => Outcome::Fail(ErrView::CouldNotRead),
                Some((d, j3)) => match spec_string(pt, j3) {
                    None => Outcome::Fail(ErrView::CouldNotRead),
                    Some((iqmp, j4)) => match spec_string(pt, j4) {
                        None => Outcome::Fail(ErrView::CouldNotRead),
                        Some((p, j5)) => match spec_string(pt, j5) {
                            None => Outcome::Fail(ErrView::CouldNotRead),
                            Some((q, _j6)) => Outcome::RsaProbe { n, e, d, iqmp, p, q },
                        },
                    },
                },
            },
        },
    }
}

/// A P-256 record: curve name (not validated), declared public point,
/// secret scalar as an mpint, comment. The scalar is narrowed to 32
/// bytes, must lie in the group's scalar range, and the public point
/// derived from it must equal the declared one byte for byte.
pub open spec fn spec_p256_record(pt: Seq<u8>, j: int) -> Outcome {
    match spec_string(pt, j) {
        None => Outcome::Fail(ErrView::CouldNotRead),
        Some((_curve, j1)) => match spec_string(pt, j1) {
            None => Outcome::Fail(ErrView::CouldNotRead),
            Some((pubk, j2)) => match spec_mpint(pt, j2) {
                None => Outcome::Fail(ErrView::CouldNotRead),
                Some((sec, j3)) => match spec_string(pt, j3) {
                    None => Outcome::Fail(ErrView::CouldNotRead),
                    Some((_comment, _j4)) => {
                        let k = spec_fit32(sec);
                        if 0 < be_nat(k) < p256_order() {
                            if p256_public_of(k) == pubk {
                                Outcome::P256Key(k)
                            } else {
                                Outcome::Fail(ErrView::CouldNotRead)
                            }
                        } else {
                            Outcome::Fail(ErrView::CouldNotRead)
                        }
                    },
                },
            },
        },
    }
}

/// The decrypted private section: two check words (read but deliberately
/// not compared), then the first key record,
/// dispatched on its type tag. A container declaring no keys fails; keys
/// after the first are never parsed.
pub open spec fn spec_private(pt: Seq<u8>, nkeys: u32) -> Outcome {
    match spec_u32(pt, 0) {
        None => Outcome::Fail(ErrView::CouldNotRead),
        Some((_check0, j0)) => match spec_u32(pt, j0) {
            None => Outcome::Fail(ErrView::CouldNotRead),
            Some((_check1, j1)) => if nkeys == 0 {
                Outcome::Fail(ErrView::CouldNotRead)
            } else {
                match spec_string(pt, j1) {
                    None => Outcome::Fail(ErrView::CouldNotRead),
                    Some((tag, j2)) => if tag == tag_ed25519() {
                        spec_ed25519_record(pt, j2)
                    } else if tag == tag_rsa() {
                        spec_rsa_record(pt, j2)
                    } else if tag == tag_p256() {
                        spec_p256_record(pt, j2)
                    } else {
                        Outcome::Fail(ErrView::Unsupported(tag))
                    },
                }
            },
        },
    }
}

/// The whole decode, as far as it is a function of the input: parse the
/// envelope, decrypt the private section, parse the first record.
pub open spec fn spec_decode(s: Seq<u8>, pw: Option<Seq<char>>) -> Outcome {
    match spec_envelope(s) {
        None => Outcome::Fail(ErrView::CouldNotRead),
        Some(env) => match spec_decrypt(env.0, env.1, env.2, pw, env.4) {
            Err(ev) => Outcome::Fail(ev),
            Ok(pt) => spec_private(pt, env.3),
        },
    }
}

/// How a decode's result must relate to its outcome. A failure returns
/// exactly the outcome's error. A key is returned with exactly the bytes
/// the outcome carries. An RSA probe returns either the read error or
/// the key built from the six fields, its CRT parameters satisfying
/// dmp1 == d mod (p-1) and dmq1 == d mod (q-1), under the SHA2-512
/// signature hash.
pub open spec fn outcome_matches(o: Outcome, r: Result<KeyPair, Error>) -> bool {
    match o {
        Outcome::Fail(ev) => r matches Err(e) && e@ == ev,
        Outcome::Ed25519Key(k) => r matches Ok(kp) && kp matches KeyPair::Ed25519(sk)
            && sk.key@ == k,
        Outcome::P256Key(k) => r matches Ok(kp) && kp matches KeyPair::P256(sk)
            && sk.key@ == k,
        Outcome::RsaProbe { n, e, d, iqmp, p, q } => {
            (r matches Err(er) && er@ == ErrView::CouldNotRead)
            || (r matches Ok(kp) && kp matches KeyPair::RSA { key, hash }
                && hash == SignatureHash::SHA2_512
                && key.n@ == n && key.e@ == e && key.d@ == d
                && key.iqmp@ == iqmp && key.p@ == p && key.q@ == q
                && key.crt_consistent())
        },
    }
}

/// Any buffer shorter than the 15-byte magic fails as malformed.
pub proof fn lemma_short_buffer_fails(s: Seq<u8>, pw: Option<Seq<char>>)
    requires
        s.len() < 15,
    ensures
        spec_decode(s, pw) == Outcome::Fail(ErrView::CouldNotRead),
{
}

/// A decoded Ed25519 secret holds 64 bytes, and its trailing 32 bytes
/// equal the public bytes its record declares.
pub proof fn lemma_ed25519_secret_matches_public(pt: Seq<u8>, j: int, k: Seq<u8>)
    requires
        spec_ed25519_record(pt, j) == Outcome::Ed25519Key(k),
    ensures
        k.len() == 64,
        spec_string(pt, j) matches Some(pp) && pp.0 == k.subrange(32, 64),
{
}

/// A key-type tag that no assembler handles fails with the
/// unsupported-type error, and the error carries exactly the tag bytes
/// read from the buffer.
pub proof fn lemma_unknown_tag_reported(pt: Seq<u8>, nkeys: u32, tag: Seq<u8>)
    requires
        nkeys > 0,
        spec_u32(pt, 0) matches Some(c0) && spec_u32(pt, c0.1) matches Some(c1)
            && spec_string(pt, c1.1) matches Some(t) && t.0 == tag,
        tag != tag_ed25519(),
        tag != tag_rsa(),
        tag != tag_p256(),
    ensures
        spec_private(pt, nkeys) == Outcome::Fail(ErrView::Unsupported(tag)),
{
}

/// The parsed envelope, owned.
pub struct Envelope {
    pub ciphername: Vec<u8>,
    pub kdfname: Vec<u8>,
    pub kdfoptions: Vec<u8>,
    pub nkeys: u32,
    pub secret_section: Vec<u8>,
}

/// Parses the outer envelope, exactly as `spec_envelope` reads it.
#[verifier::loop_isolation(false)]
pub fn parse_envelope(secret: &[u8]) -> (r: Result<Envelope, Error>)
    ensures
        match spec_envelope(secret@) {
            Some(env) => r matches Ok(v) && v.ciphername@ == env.0 && v.kdfname@ == env.1
                && v.kdfoptions@ == env.2 && v.nkeys == env.3 && v.secret_section@ == env.4,
            None => r matches Err(e) && e == Error::CouldNotReadKey,
        },
{
    if secret.len() < 15 {
        return Err(Error::CouldNotReadKey);
    }
    let m = magic_bytes();
    let head = sub_bytes(secret, 0, 15);
    if !bytes_eq(head.as_slice(), m.as_slice()) {
        return Err(Error::CouldNotReadKey);
    }
    let mut cur = Cursor::new(secret, 15);
    let ciphername = match cur.read_string() {
        Ok(v) => v,
        Err(e) => {
            return Err(e);
        },
    };
    let kdfname = match cur.read_string() {
        Ok(v) => v,
        Err(e) => {
            return Err(e);
        },
    };
    let kdfoptions = match cur.read_string() {
        Ok(v) => v,
        Err(e) => {
            return Err(e);
        },
    };
    let nkeys = match cur.read_u32() {
        Ok(v) => v,
        Err(e) => {
            return Err(e);
        },
    };
    let ghost i4 = cur.at();
    let mut k: u32 = 0;
    while k < nkeys
        invariant
            cur.wf(),
            cur.buf() == secret@,
            k <= nkeys,
            spec_skip_strings(secret@, cur.at(), (nkeys - k) as nat)
                == spec_skip_strings(secret@, i4, nkeys as nat),
        decreases nkeys - k,
    {
        let ghost before = cur.at();
        match cur.read_string() {
            Ok(_) => {},
            Err(e) => {
                proof {
                    assert(spec_skip_strings(secret@, i4, nkeys as nat) is None);
                }
                return Err(e);
            },
        }
        proof {
            assert(spec_skip_strings(secret@, before, (nkeys - k) as nat)
                == spec_skip_strings(secret@, cur.at(), (nkeys - k - 1) as nat));
        }
        k += 1;
    }
    assert(spec_skip_strings(secret@, i4, nkeys as nat) == Some(cur.at()));
    let secret_section = match cur.read_string() {
        Ok(v) => v,
        Err(e) => {
            return Err(e);
        },
    };
    Ok(Envelope { ciphername, kdfname, kdfoptions, nkeys, secret_section })
}

/// Assembles an Ed25519 key from the record at the cursor.
fn assemble_ed25519(cur: &mut Cursor) -> (r: Result<KeyPair, Error>)
    requires
        old(cur).wf(),
    ensures
        outcome_matches(spec_ed25519_record(old(cur).buf(), old(cur).at()), r),
        r matches Ok(kp) ==> kp.wf(),
{
    let pubk = match cur.read_string() {
        Ok(v) => v,
        Err(e) => {
            return Err(e);
        },
    };
    let sec = match cur.read_string() {
        Ok(v) => v,
        Err(e) => {
            return Err(e);
        },
    };
    let _comment = match cur.read_string() {
        Ok(v) => v,
        Err(e) => {
            return Err(e);
        },
    };
    if sec.len() == 64 {
        let tail = sub_bytes(sec.as_slice(), 32, 64);
        if bytes_eq(pubk.as_slice(), tail.as_slice()) {
            return Ok(KeyPair::Ed25519(Ed25519SecretKey { key: sec }));
        }
    }
    Err(Error::CouldNotReadKey)
}

/// Accepts or rejects an assembled RSA key on the backend's validity
/// answer: the key is returned exactly when the check accepted it.
pub fn rsa_finish(key: RsaPrivate, ok: bool) -> (r: Result<KeyPair, Error>)
    ensures
        ok ==> (r matches Ok(kp) && kp == (KeyPair::RSA { key, hash: SignatureHash::SHA2_512 })),
        !ok ==> (r matches Err(e) && e == Error::CouldNotReadKey),
{
    if ok {
        Ok(KeyPair::RSA { key, hash: SignatureHash::SHA2_512 })
    } else {
        Err(Error::CouldNotReadKey)
    }
}

/// Assembles an RSA key from the record at the cursor: reads n, e, d,
/// iqmp, p, q, derives the CRT exponents dmp1 = d mod (p-1) and
/// dmq1 = d mod (q-1) with the multi-precision backend, and keeps the
/// key only when the backend's validity check accepts it.
fn assemble_rsa(cur: &mut Cursor) -> (r: Result<KeyPair, Error>)
    requires
        old(cur).wf(),
    ensures
        outcome_matches(spec_rsa_record(old(cur).buf(), old(cur).at()), r),
        r matches Ok(kp) ==> kp.wf(),
{
    let n = match cur.read_string() {
        Ok(v) => v,
        Err(e) => {
            return Err(e);
        },
    };
    let e = match cur.read_string() {
        Ok(v) => v,
        Err(er) => {
            return Err(er);
        },
    };
    let d = match cur.read_string() {
        Ok(v) => v,
        Err(er) => {
            return Err(er);
        },
    };
    let iqmp = match cur.read_string() {
        Ok(v) => v,
        Err(er) => {
            return Err(er);
        },
    };
    let p = match cur.read_string() {
        Ok(v) => v,
        Err(er) => {
            return Err(er);
        },
    };
    let q = match cur.read_string() {
        Ok(v) => v,
        Err(er) => {
            return Err(er);
        },
    };
    if n.len() >= 0x8000_0000 || e.len() >= 0x8000_0000 || d.len() >= 0x8000_0000
        || iqmp.len() >= 0x8000_0000 || p.len() >= 0x8000_0000 || q.len() >= 0x8000_0000 {
        return Err(Error::CouldNotReadKey);
    }
    if is_zero_bytes(p.as_slice()) || is_zero_bytes(q.as_slice()) {
        return Err(Error::CouldNotReadKey);
    }
    let one: Vec<u8> = vec![1u8];
    proof {
        assert(one@ =~= seq![1u8]);
        assert(seq![1u8].drop_last() =~= Seq::<u8>::empty());
        assert(be_nat(Seq::<u8>::empty()) == 0);
        assert(be_nat(one@) == 1);
    }
    let p1 = match bn_sub(p.as_slice(), one.as_slice()) {
        Some(v) => v,
        None => {
            return Err(Error::CouldNotReadKey);
        },
    };
    let q1 = match bn_sub(q.as_slice(), one.as_slice()) {
        Some(v) => v,
        None => {
            return Err(Error::CouldNotReadKey);
        },
    };
    if is_zero_bytes(p1.as_slice()) || is_zero_bytes(q1.as_slice()) {
        return Err(Error::CouldNotReadKey);
    }
    let dmp1 = match bn_mod(d.as_slice(), p1.as_slice()) {
        Some(v) => v,
        None => {
            return Err(Error::CouldNotReadKey);
        },
    };
    let dmq1 = match bn_mod(d.as_slice(), q1.as_slice()) {
        Some(v) => v,
        None => {
            return Err(Error::CouldNotReadKey);
        },
    };
    let ok = rsa_check(
        n.as_slice(), e.as_slice(), d.as_slice(), p.as_slice(), q.as_slice(),
        dmp1.as_slice(), dmq1.as_slice(), iqmp.as_slice(),
    );
    let key = RsaPrivate { n, e, d, p, q, dmp1, dmq1, iqmp };
    rsa_finish(key, ok)
}

/// Assembles a P-256 key from the record at the cursor: the scalar is
/// narrowed to 32 bytes, handed to the curve backend, and kept only if
/// the derived public point equals the declared one byte for byte.
fn assemble_p256(cur: &mut Cursor) -> (r: Result<KeyPair, Error>)
    requires
        old(cur).wf(),
    ensures
        outcome_matches(spec_p256_record(old(cur).buf(), old(cur).at()), r),
        r matches Ok(kp) ==> kp.wf(),
{
    let _curve = match cur.read_string() {
        Ok(v) => v,
        Err(e) => {
            return Err(e);
        },
    };
    let pub_bytes = match cur.read_string() {
        Ok(v) => v,
        Err(e) => {
            return Err(e);
        },
    };
    let sec_mp = match cur.read_mpint() {
        Ok(v) => v,
        Err(e) => {
            return Err(e);
        },
    };
    let _comment = match cur.read_string() {
        Ok(v) => v,
        Err(e) => {
            return Err(e);
        },
    };
    let scalar = fit32(sec_mp.as_slice());
    let derived = match p256_derive_public(scalar.as_slice()) {
        Some(v) => v,
        None => {
            return Err(Error::CouldNotReadKey);
        },
    };
    if bytes_eq(derived.as_slice(), pub_bytes.as_slice()) {
        Ok(KeyPair::P256(P256SecretKey { key: scalar }))
    } else {
        Err(Error::CouldNotReadKey)
    }
}

/// Decodes a private key stored in the "openssh-key-v1" container
/// format, deciphering it if needed with the supplied password.
///
/// Exactly the first declared key record is parsed; the two check words
/// at the head of the private section are read but not compared. Every
/// read is bounds-checked: malformed input fails with an error, never a
/// panic or an out-of-bounds read.
pub fn decode_openssh(secret: &[u8], password: Option<&str>) -> (r: Result<KeyPair, Error>)
    ensures
        outcome_matches(spec_decode(secret@, spec_password(password)), r),
        r matches Ok(kp) ==> kp.wf(),
{
    let env = match parse_envelope(secret) {
        Ok(v) => v,
        Err(e) => {
            return Err(e);
        },
    };
    let plain = match decrypt_secret_key(
        env.ciphername.as_slice(), env.kdfname.as_slice(), env.kdfoptions.as_slice(),
        password, env.secret_section.as_slice(),
    ) {
        Ok(v) => v,
        Err(e) => {
            return Err(e);
        },
    };
    let mut cur = Cursor::new(plain.as_slice(), 0);
    let _check0 = match cur.read_u32() {
        Ok(v) => v,
        Err(e) => {
            return Err(e);
        },
    };
    let _check1 = match cur.read_u32() {
        Ok(v) => v,
        Err(e) => {
            return Err(e);
        },
    };
    if env.nkeys == 0 {
        return Err(Error::CouldNotReadKey);
    }
    let tag = match cur.read_string() {
        Ok(v) => v,
        Err(e) => {
            return Err(e);
        },
    };
    let t_ed = tag_ed25519_bytes();
    let t_rsa = tag_rsa_bytes();
    let t_p256 = tag_p256_bytes();
    if bytes_eq(tag.as_slice(), t_ed.as_slice()) {
        assemble_ed25519(&mut cur)
    } else if bytes_eq(tag.as_slice(), t_rsa.as_slice()) {
        assemble_rsa(&mut cur)
    } else if bytes_eq(tag.as_slice(), t_p256.as_slice()) {
        assemble_p256(&mut cur)
    } else {
        Err(Error::UnsupportedKeyType(tag))
    }
}

} // verus!
