//! Byte-level model of the container format: big-endian integers,
//! length-prefixed strings, and the literal names the format uses.

use vstd::prelude::*;

verus! {

/// The value of a byte sequence read as a big-endian unsigned integer.
pub open spec fn be_nat(s: Seq<u8>) -> nat
    decreases s.len(),
{
    if s.len() == 0 {
        0
    } else {
        be_nat(s.drop_last()) * 256 + (s.last() as nat)
    }
}

/// A big-endian byte sequence is zero exactly when every byte is zero.
pub proof fn lemma_be_nat_zero(s: Seq<u8>)
    ensures
        (be_nat(s) == 0) <==> (forall|i: int| 0 <= i < s.len() ==> s[i] == 0),
    decreases s.len(),
{
    if s.len() > 0 {
        lemma_be_nat_zero(s.drop_last());
        assert(forall|i: int| 0 <= i < s.len() - 1 ==> s[i] == s.drop_last()[i]);
        if be_nat(s) == 0 {
            assert(be_nat(s.drop_last()) == 0);
            assert(s.last() == 0);
        }
        if forall|i: int| 0 <= i < s.len() ==> s[i] == 0 {
            assert(forall|i: int| 0 <= i < s.drop_last().len() ==> s.drop_last()[i] == 0);
            assert(be_nat(s.drop_last()) == 0);
            assert(s.last() == 0);
        }
    }
}

/// The 32-bit big-endian value of four bytes.
pub open spec fn u32_be(b0: u8, b1: u8, b2: u8, b3: u8) -> u32 {
    (((b0 as u32) << 24) | ((b1 as u32) << 16) | ((b2 as u32) << 8) | (b3 as u32)) as u32
}

/// Reading a 32-bit big-endian integer at position `i`: the value and the
/// position after it, or `None` if fewer than four bytes remain.
pub open spec fn spec_u32(s: Seq<u8>, i: int) -> Option<(u32, int)> {
    if 0 <= i && i + 4 <= s.len() {
        Some((u32_be(s[i], s[i + 1], s[i + 2], s[i + 3]), i + 4))
    } else {
        None
    }
}

/// Reading a length-prefixed byte string at position `i`: the bytes and the
/// position after them, or `None` if the declared length runs past the end.
pub open spec fn spec_string(s: Seq<u8>, i: int) -> Option<(Seq<u8>, int)> {
    match spec_u32(s, i) {
        None => None,
        Some((n, j)) => if j + n <= s.len() {
            Some((s.subrange(j, j + n), j + n))
        } else {
            None
        },
    }
}

/// Reading a length-prefixed multi-precision integer at position `i`:
/// the string's bytes with one leading zero byte dropped, if present,
/// as positive-sign normalization.
pub open spec fn spec_mpint(s: Seq<u8>, i: int) -> Option<(Seq<u8>, int)> {
    match spec_string(s, i) {
        None => None,
        Some((b, j)) => if b.len() > 0 && b[0] == 0 {
            Some((b.subrange(1, b.len() as int), j))
        } else {
            Some((b, j))
        },
    }
}

/// The position after `n` consecutive length-prefixed strings starting at
/// `i`, or `None` if any of them is malformed.
pub open spec fn spec_skip_strings(s: Seq<u8>, i: int, n: nat) -> Option<int>
    decreases n,
{
    if n == 0 {
        Some(i)
    } else {
        match spec_string(s, i) {
            None => None,
            Some((_b, j)) => spec_skip_strings(s, j, (n - 1) as nat),
        }
    }
}

/// A scalar forced into exactly 32 bytes: right-aligned, left-padded with
/// zeros when short, and with bytes past the 32 least-significant ones
/// dropped when long. A deliberate narrowing, not a general conversion.
pub open spec fn spec_fit32(b: Seq<u8>) -> Seq<u8> {
    if b.len() >= 32 {
        b.subrange(b.len() - 32, b.len() as int)
    } else {
        Seq::new((32 - b.len()) as nat, |i: int| 0u8) + b
    }
}

/// Byte-for-byte equality of two slices.
pub fn bytes_eq(a: &[u8], b: &[u8]) -> (r: bool)
    ensures
        r == (a@ == b@),
{
    if a.len() != b.len() {
        assert(a@ != b@);
        return false;
    }
    let n: usize = a.len();
    let mut i: usize = 0;
    while i < n
        invariant
            n == a@.len() == b@.len(),
            0 <= i <= n,
            forall|k: int| 0 <= k < i ==> a@[k] == b@[k],
        decreases n - i,
    {
        if a[i] != b[i] {
            return false;
        }
        i += 1;
    }
    proof {
        assert(a@ =~= b@);
    }
    true
}

/// A copy of the bytes of `s` from `from` (inclusive) to `to` (exclusive).
pub fn sub_bytes(s: &[u8], from: usize, to: usize) -> (r: Vec<u8>)
    requires
        from <= to <= s@.len(),
    ensures
        r@ == s@.subrange(from as int, to as int),
{
    let mut r: Vec<u8> = Vec::new();
    let mut i: usize = from;
    while i < to
        invariant
            from <= i <= to <= s@.len(),
            r@ =~= s@.subrange(from as int, i as int),
        decreases to - i,
    {
        r.push(s[i]);
        i += 1;
    }
    proof {
        assert(r@ =~= s@.subrange(from as int, to as int));
    }
    r
}

/// Whether the bytes denote the integer zero (this includes the empty
/// string).
pub fn is_zero_bytes(v: &[u8]) -> (r: bool)
    ensures
        r == (be_nat(v@) == 0),
{
    let n: usize = v.len();
    let mut i: usize = 0;
    let mut all_zero: bool = true;
    while i < n
        invariant
            n == v@.len(),
            0 <= i <= n,
            all_zero == (forall|k: int| 0 <= k < i ==> v@[k] == 0),
        decreases n - i,
    {
        if v[i] != 0 {
            all_zero = false;
        }
        i += 1;
    }
    proof {
        lemma_be_nat_zero(v@);
    }
    all_zero
}

/// The scalar-narrowing of `spec_fit32`, executable.
pub fn fit32(b: &[u8]) -> (r: Vec<u8>)
    ensures
        r@ == spec_fit32(b@),
        r@.len() == 32,
{
    if b.len() >= 32 {
        let start: usize = b.len() - 32;
        return sub_bytes(b, start, b.len());
    }
    let mut r: Vec<u8> = Vec::new();
    let pad: usize = 32 - b.len();
    let mut i: usize = 0;
    while i < pad
        invariant
            0 <= i <= pad,
            r@ =~= Seq::new(i as nat, |k: int| 0u8),
        decreases pad - i,
    {
        r.push(0u8);
        i += 1;
    }
    let mut j: usize = 0;
    while j < b.len()
        invariant
            pad == 32 - b@.len(),
            b@.len() < 32,
            0 <= j <= b@.len(),
            r@ =~= Seq::new(pad as nat, |k: int| 0u8) + b@.subrange(0, j as int),
        decreases b@.len() - j,
    {
        r.push(b[j]);
        j += 1;
    }
    proof {
        assert(b@.subrange(0, b@.len() as int) =~= b@);
        assert(r@ =~= spec_fit32(b@));
    }
    r
}

/// The magic bytes that open every container: "openssh-key-v1" and a NUL.
pub open spec fn magic() -> Seq<u8> {
    seq![111u8, 112u8, 101u8, 110u8, 115u8, 115u8, 104u8, 45u8, 107u8, 101u8, 121u8, 45u8, 118u8, 49u8, 0u8]
}

/// The cipher and KDF name "none".
pub open spec fn name_none() -> Seq<u8> {
    seq![110u8, 111u8, 110u8, 101u8]
}

/// The KDF name "bcrypt".
pub open spec fn name_bcrypt() -> Seq<u8> {
    seq![98u8, 99u8, 114u8, 121u8, 112u8, 116u8]
}

/// The cipher name "aes128-cbc".
pub open spec fn name_aes128_cbc() -> Seq<u8> {
    seq![97u8, 101u8, 115u8, 49u8, 50u8, 56u8, 45u8, 99u8, 98u8, 99u8]
}

/// The cipher name "aes128-ctr".
pub open spec fn name_aes128_ctr() -> Seq<u8> {
    seq![97u8, 101u8, 115u8, 49u8, 50u8, 56u8, 45u8, 99u8, 116u8, 114u8]
}

/// The cipher name "aes256-cbc".
pub open spec fn name_aes256_cbc() -> Seq<u8> {
    seq![97u8, 101u8, 115u8, 50u8, 53u8, 54u8, 45u8, 99u8, 98u8, 99u8]
}

/// The cipher name "aes256-ctr".
pub open spec fn name_aes256_ctr() -> Seq<u8> {
    seq![97u8, 101u8, 115u8, 50u8, 53u8, 54u8, 45u8, 99u8, 116u8, 114u8]
}

/// The key-type tag "ssh-ed25519".
pub open spec fn tag_ed25519() -> Seq<u8> {
    seq![115u8, 115u8, 104u8, 45u8, 101u8, 100u8, 50u8, 53u8, 53u8, 49u8, 57u8]
}

/// The key-type tag "ssh-rsa".
pub open spec fn tag_rsa() -> Seq<u8> {
    seq![115u8, 115u8, 104u8, 45u8, 114u8, 115u8, 97u8]
}

/// The key-type tag "ecdsa-sha2-nistp256".
pub open spec fn tag_p256() -> Seq<u8> {
    seq![101u8, 99u8, 100u8, 115u8, 97u8, 45u8, 115u8, 104u8, 97u8, 50u8, 45u8, 110u8, 105u8, 115u8, 116u8, 112u8, 50u8, 53u8, 54u8]
}

/// The magic bytes, executable.
pub fn magic_bytes() -> (v: Vec<u8>)
    ensures
        v@ == magic(),
{
    let v: Vec<u8> = vec![111u8, 112u8, 101u8, 110u8, 115u8, 115u8, 104u8, 45u8, 107u8, 101u8, 121u8, 45u8, 118u8, 49u8, 0u8];
    proof {
        assert(v@ =~= magic());
    }
    v
}

/// The name "none", executable.
pub fn name_none_bytes() -> (v: Vec<u8>)
    ensures
        v@ == name_none(),
{
    let v: Vec<u8> = vec![110u8, 111u8, 110u8, 101u8];
    proof {
        assert(v@ =~= name_none());
    }
    v
}

/// The name "bcrypt", executable.
pub fn name_bcrypt_bytes() -> (v: Vec<u8>)
    ensures
        v@ == name_bcrypt(),
{
    let v: Vec<u8> = vec![98u8, 99u8, 114u8, 121u8, 112u8, 116u8];
    proof {
        assert(v@ =~= name_bcrypt());
    }
    v
}

/// The name "aes128-cbc", executable.
pub fn name_aes128_cbc_bytes() -> (v: Vec<u8>)
    ensures
        v@ == name_aes128_cbc(),
{
    let v: Vec<u8> = vec![97u8, 101u8, 115u8, 49u8, 50u8, 56u8, 45u8, 99u8, 98u8, 99u8];
    proof {
        assert(v@ =~= name_aes128_cbc());
    }
    v
}

/// The name "aes128-ctr", executable.
pub fn name_aes128_ctr_bytes() -> (v: Vec<u8>)
    ensures
        v@ == name_aes128_ctr(),
{
    let v: Vec<u8> = vec![97u8, 101u8, 115u8, 49u8, 50u8, 56u8, 45u8, 99u8, 116u8, 114u8];
    proof {
        assert(v@ =~= name_aes128_ctr());
    }
    v
}

/// The name "aes256-cbc", executable.
pub fn name_aes256_cbc_bytes() -> (v: Vec<u8>)
    ensures
        v@ == name_aes256_cbc(),
{
    let v: Vec<u8> = vec![97u8, 101u8, 115u8, 50u8, 53u8, 54u8, 45u8, 99u8, 98u8, 99u8];
    proof {
        assert(v@ =~= name_aes256_cbc());
    }
    v
}

/// The name "aes256-ctr", executable.
pub fn name_aes256_ctr_bytes() -> (v: Vec<u8>)
    ensures
        v@ == name_aes256_ctr(),
{
    let v: Vec<u8> = vec![97u8, 101u8, 115u8, 50u8, 53u8, 54u8, 45u8, 99u8, 116u8, 114u8];
    proof {
        assert(v@ =~= name_aes256_ctr());
    }
    v
}

/// The tag "ssh-ed25519", executable.
pub fn tag_ed25519_bytes() -> (v: Vec<u8>)
    ensures
        v@ == tag_ed25519(),
{
    let v: Vec<u8> = vec![115u8, 115u8, 104u8, 45u8, 101u8, 100u8, 50u8, 53u8, 53u8, 49u8, 57u8];
    proof {
        assert(v@ =~= tag_ed25519());
    }
    v
}

/// The tag "ssh-rsa", executable.
pub fn tag_rsa_bytes() -> (v: Vec<u8>)
    ensures
        v@ == tag_rsa(),
{
    let v: Vec<u8> = vec![115u8, 115u8, 104u8, 45u8, 114u8, 115u8, 97u8];
    proof {
        assert(v@ =~= tag_rsa());
    }
    v
}

/// The tag "ecdsa-sha2-nistp256", executable.
pub fn tag_p256_bytes() -> (v: Vec<u8>)
    ensures
        v@ == tag_p256(),
{
    let v: Vec<u8> = vec![101u8, 99u8, 100u8, 115u8, 97u8, 45u8, 115u8, 104u8, 97u8, 50u8, 45u8, 110u8, 105u8, 115u8, 116u8, 112u8, 50u8, 53u8, 54u8];
    proof {
        assert(v@ =~= tag_p256());
    }
    v
}

} // verus!
