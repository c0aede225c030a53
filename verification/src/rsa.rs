//! RSA signature check for identity-provider tokens: RSASSA-PKCS1-v1_5 over
//! SHA-256 with a 2048-bit encoded message and the public exponent 65537.

use crate::bigint;
use num::BigUint;
use vstd::arithmetic::div_mod::*;
use vstd::arithmetic::power::*;
use vstd::prelude::*;

verus! {

/// Length in bytes of the encoded message that a signature opens to.
pub const ENCODED_LEN: usize = 256;

/// Length in bytes of a SHA-256 digest.
pub const DIGEST_LEN: usize = 32;

/// Number of `0xff` bytes between the block type and the separator.
pub const PADDING_LEN: usize = 202;

/// The public exponent of every accepted key.
pub const PUBLIC_EXPONENT: u32 = 65537;

/// The modulus of the provider keys, in base64url.
pub const PROVIDER_MODULUS: &'static str =
    "r6dnzQXiymQg19FInr31eQjwtm0bbRC5LHx7zaENF5PXnGy56bPOMXFClzODr07WmVBd-T73xcAwI0CX6J_a9zRPhwncErT2KLlg0X7pzQp4NIn48yYnojVNKL-kp1yxOF5ySIOHVUhuR2AUIDYzQqYUGYC-LHmIKPsv7vn-1z3BfPpvuszKlaEWju6g6r9UTHsDBDbB4WhobWRRNC7F0ipKX-n7w6j_edfBImAlZ1-FSExyt1cDEfofwpexLDVn66Mt7gsNF4KhQpEGlhZBQQKgbYiDHgUQ5Yx2BJOnrL9mi-rZJ8augIyl0lQiIoAFSnWv5xmTSfrsWFDWQXM_OQ";

/// Why a key lookup failed.
#[derive(Debug, Clone, Copy, PartialEq, Eq, Structural)]
pub enum RsaError {
    /// The provider name is not one this library holds a key for.
    UnrecognizedProvider,
}

impl RsaError {
    /// The failure in words.
    pub open spec fn text(self) -> Seq<char> {
        match self {
            RsaError::UnrecognizedProvider => "unrecognized provider"@,
        }
    }

    /// The failure in words.
    pub fn message(&self) -> (text: String)
        ensures
            text@ == self.text(),
    {
        match self {
            RsaError::UnrecognizedProvider => "unrecognized provider".to_owned(),
        }
    }
}

/// The DER header that announces a SHA-256 digest inside the encoded message.
pub open spec fn sha256_digest_info() -> Seq<u8> {
    seq![
        0x30u8, 0x31u8, 0x30u8, 0x0du8, 0x06u8, 0x09u8, 0x60u8, 0x86u8, 0x48u8, 0x01u8,
        0x65u8, 0x03u8, 0x04u8, 0x02u8, 0x01u8, 0x05u8, 0x00u8, 0x04u8, 0x20u8,
    ]
}

/// The encoded message for a digest: `00 01 ff..ff 00`, the digest header,
/// then the digest itself, 256 bytes in all for a 32-byte digest.
pub open spec fn encoded_message(digest: Seq<u8>) -> Seq<u8> {
    seq![0x00u8, 0x01u8] + Seq::new(PADDING_LEN as nat, |i: int| 0xffu8) + seq![0x00u8]
        + sha256_digest_info() + digest
}

/// `count` zero bytes followed by `bytes`.
pub open spec fn zero_extended(count: nat, bytes: Seq<u8>) -> Seq<u8> {
    Seq::new(count, |i: int| 0u8) + bytes
}

/// The number that the signature `s` opens to under the modulus `n`.
pub open spec fn recovered_value(s: nat, n: nat) -> nat {
    (pow(s as int, PUBLIC_EXPONENT as nat) % (n as int)) as nat
}

/// The inputs on which a signature check is defined: the modulus is not
/// zero and the recovered number fits the encoded message's 256 bytes.
pub open spec fn verifiable(s: nat, n: nat) -> bool {
    n != 0 && recovered_value(s, n) < pow(256, ENCODED_LEN as nat)
}

/// The signature `s` is valid for `digest` under the modulus `n`: it opens to
/// exactly the number that the encoded message of `digest` denotes.
pub open spec fn signature_valid(s: nat, n: nat, digest: Seq<u8>) -> bool {
    recovered_value(s, n) == bigint::be_value(encoded_message(digest))
}

/// The provider names that share the built-in key.
pub open spec fn known_provider(provider: Seq<char>) -> bool {
    provider == "google"@ || provider == "twitter"@
}

/// A string of zero bytes denotes zero.
pub proof fn lemma_zeros_value(count: nat)
    ensures
        bigint::be_value(Seq::new(count, |i: int| 0u8)) == 0,
    decreases count,
{
    let zeros = Seq::new(count, |i: int| 0u8);
    if count > 0 {
        assert(zeros.drop_last() =~= Seq::new((count - 1) as nat, |i: int| 0u8));
        lemma_zeros_value((count - 1) as nat);
    }
}

/// Leading zero bytes do not change the number denoted.
pub proof fn lemma_zero_extension_keeps_value(count: nat, bytes: Seq<u8>)
    ensures
        bigint::be_value(zero_extended(count, bytes)) == bigint::be_value(bytes),
    decreases bytes.len(),
{
    let zeros = Seq::new(count, |i: int| 0u8);
    if bytes.len() == 0 {
        assert(zero_extended(count, bytes) =~= zeros);
        lemma_zeros_value(count);
    } else {
        assert(zero_extended(count, bytes).drop_last() =~= zero_extended(
            count,
            bytes.drop_last(),
        ));
        lemma_zero_extension_keeps_value(count, bytes.drop_last());
    }
}

/// A string of `len` bytes denotes a number below `256^len`.
pub proof fn lemma_value_below_power(bytes: Seq<u8>)
    ensures
        bigint::be_value(bytes) < pow(256, bytes.len()),
    decreases bytes.len(),
{
    if bytes.len() == 0 {
        lemma_pow0(256);
    } else {
        let front = bytes.drop_last();
        lemma_value_below_power(front);
        assert(pow(256, bytes.len()) == 256 * pow(256, front.len())) by {
            reveal(pow);
        }
    }
}

/// A string whose first byte is not zero denotes at least `256^(len - 1)`.
pub proof fn lemma_value_at_least_power(bytes: Seq<u8>)
    requires
        bytes.len() >= 1,
        bytes[0] != 0,
    ensures
        bigint::be_value(bytes) >= pow(256, (bytes.len() - 1) as nat),
    decreases bytes.len(),
{
    if bytes.len() == 1 {
        lemma_pow0(256);
        assert(bytes.drop_last().len() == 0);
    } else {
        let front = bytes.drop_last();
        assert(front[0] == bytes[0]);
        lemma_value_at_least_power(front);
        assert(pow(256, (bytes.len() - 1) as nat) == 256 * pow(256, (front.len() - 1) as nat))
            by {
            reveal(pow);
        }
    }
}

/// Two byte strings of one length that denote the same number are equal.
pub proof fn lemma_value_determines_bytes(a: Seq<u8>, b: Seq<u8>)
    requires
        a.len() == b.len(),
        bigint::be_value(a) == bigint::be_value(b),
    ensures
        a == b,
    decreases a.len(),
{
    if a.len() == 0 {
        assert(a =~= b);
    } else {
        let x = bigint::be_value(a.drop_last());
        let y = bigint::be_value(b.drop_last());
        assert(x * 256 + a.last() as nat == y * 256 + b.last() as nat);
        assert(x == y && a.last() == b.last());
        lemma_value_determines_bytes(a.drop_last(), b.drop_last());
        assert(a =~= a.drop_last().push(a.last()));
        assert(b =~= b.drop_last().push(b.last()));
    }
}

/// A shortest-form string fits `width` bytes exactly when the number it
/// denotes is below `256^width`.
pub proof fn lemma_shortest_fits(bytes: Seq<u8>, width: nat)
    requires
        bigint::is_shortest_be(bytes),
        width >= 1,
    ensures
        bytes.len() <= width <==> bigint::be_value(bytes) < pow(256, width),
{
    lemma_value_below_power(bytes);
    if bytes.len() <= width {
        lemma_pow_increases(256, bytes.len(), width);
    } else {
        lemma_value_at_least_power(bytes);
        lemma_pow_increases(256, width, (bytes.len() - 1) as nat);
    }
}

/// A shortest-form string denotes zero exactly when it is the single byte `0`.
pub proof fn lemma_shortest_zero(bytes: Seq<u8>)
    requires
        bigint::is_shortest_be(bytes),
    ensures
        bigint::be_value(bytes) == 0 <==> (bytes.len() == 1 && bytes[0] == 0),
{
    if bytes.len() == 1 {
        assert(bigint::be_value(bytes.drop_last()) == 0);
        assert(bigint::be_value(bytes) == bytes[0] as nat);
    } else {
        lemma_value_at_least_power(bytes);
        lemma_pow_positive(256, (bytes.len() - 1) as nat);
    }
}

/// The built-in RSA modulus of an identity provider.
///
/// `"google"` and `"twitter"` share one key; every other name is refused
/// with [`RsaError::UnrecognizedProvider`].
pub fn get_rsa_pub_key(provider: &str) -> (r: Result<String, RsaError>)
    ensures
        known_provider(provider@) ==> r is Ok && r->Ok_0@ == PROVIDER_MODULUS@,
        !known_provider(provider@) ==> r == Err::<String, RsaError>(
            RsaError::UnrecognizedProvider,
        ),
{
    let name: String = provider.to_owned();
    if name == "google".to_owned() || name == "twitter".to_owned() {
        Ok(PROVIDER_MODULUS.to_owned())
    } else {
        Err(RsaError::UnrecognizedProvider)
    }
}

/// Extends `bytes` on the left with zero bytes to the encoded length.
pub fn left_pad(bytes: &Vec<u8>) -> (block: Vec<u8>)
    requires
        bytes.len() <= ENCODED_LEN,
    ensures
        block@ == zero_extended((ENCODED_LEN - bytes.len()) as nat, bytes@),
        block.len() == ENCODED_LEN,
{
    let fill: usize = ENCODED_LEN - bytes.len();
    let mut block: Vec<u8> = Vec::new();
    let mut i: usize = 0;
    while i < fill
        invariant
            i <= fill,
            block@ == Seq::new(i as nat, |k: int| 0u8),
        decreases fill - i,
    {
        block.push(0u8);
        i += 1;
        assert(block@ =~= Seq::new(i as nat, |k: int| 0u8));
    }
    let mut j: usize = 0;
    while j < bytes.len()
        invariant
            j <= bytes.len(),
            fill == ENCODED_LEN - bytes.len(),
            block@ == Seq::new(fill as nat, |k: int| 0u8) + bytes@.subrange(0, j as int),
        decreases bytes.len() - j,
    {
        block.push(bytes[j]);
        j += 1;
        assert(block@ =~= Seq::new(fill as nat, |k: int| 0u8) + bytes@.subrange(0, j as int));
    }
    assert(bytes@.subrange(0, bytes.len() as int) =~= bytes@);
    block
}

/// Whether `block` is the encoded message of `digest`.
pub fn is_encoded_message(block: &Vec<u8>, digest: &[u8; 32]) -> (ok: bool)
    ensures
        ok == (block@ == encoded_message(digest@)),
{
    if block.len() != ENCODED_LEN {
        assert(encoded_message(digest@).len() == 256);
        return false;
    }
    let header: [u8; 19] = [
        0x30, 0x31, 0x30, 0x0d, 0x06, 0x09, 0x60, 0x86, 0x48, 0x01, 0x65, 0x03, 0x04, 0x02,
        0x01, 0x05, 0x00, 0x04, 0x20,
    ];
    let ghost want = encoded_message(digest@);
    assert(header@ =~= sha256_digest_info());
    assert(want.len() == 256);
    assert(want[0] == 0x00u8 && want[1] == 0x01u8);
    if block[0] != 0x00 || block[1] != 0x01 {
        return false;
    }
    let mut i: usize = 0;
    while i < PADDING_LEN
        invariant
            i <= PADDING_LEN,
            block.len() == ENCODED_LEN,
            want == encoded_message(digest@),
            forall|k: int| 0 <= k < 2 + i ==> block@[k] == want[k],
        decreases PADDING_LEN - i,
    {
        assert(want[2 + i] == 0xffu8);
        if block[i + 2] != 0xff {
            return false;
        }
        i += 1;
    }
    assert(want[2 + PADDING_LEN] == 0x00u8);
    if block[2 + PADDING_LEN] != 0x00 {
        return false;
    }
    let mut i: usize = 0;
    while i < 19
        invariant
            i <= 19,
            block.len() == ENCODED_LEN,
            want == encoded_message(digest@),
            header@ == sha256_digest_info(),
            forall|k: int| 0 <= k < 2 + PADDING_LEN + 1 + i ==> block@[k] == want[k],
        decreases 19 - i,
    {
        assert(want[2 + PADDING_LEN + 1 + i] == header@[i as int]);
        if block[2 + PADDING_LEN + 1 + i] != header[i] {
            return false;
        }
        i += 1;
    }
    let mut i: usize = 0;
    while i < DIGEST_LEN
        invariant
            i <= DIGEST_LEN,
            block.len() == ENCODED_LEN,
            want == encoded_message(digest@),
            forall|k: int| 0 <= k < 2 + PADDING_LEN + 1 + 19 + i ==> block@[k] == want[k],
        decreases DIGEST_LEN - i,
    {
        assert(want[2 + PADDING_LEN + 1 + 19 + i] == digest@[i as int]);
        if block[2 + PADDING_LEN + 1 + 19 + i] != digest[i] {
            return false;
        }
        i += 1;
    }
    assert(block@ =~= want);
    true
}

/// Checks the RSA signature `s` over the SHA-256 digest `hash` against the
/// modulus `pub_key`, with the public exponent 65537.
///
/// The signature is raised to the exponent modulo the key, written out as
/// 256 big-endian bytes, and accepted exactly when those bytes are the
/// PKCS#1 v1.5 encoded message of the digest.
pub fn rsa_verify(s: &BigUint, pub_key: &BigUint, hash: &[u8; 32]) -> (ok: bool)
    requires
        verifiable(bigint::biguint_value(*s), bigint::biguint_value(*pub_key)),
    ensures
        ok == signature_valid(
            bigint::biguint_value(*s),
            bigint::biguint_value(*pub_key),
            hash@,
        ),
{
    let e = bigint::from_u32(PUBLIC_EXPONENT);
    let opened = bigint::modpow(s, &e, pub_key);
    let bytes = bigint::to_bytes_be(&opened);
    proof {
        lemma_shortest_fits(bytes@, ENCODED_LEN as nat);
    }
    let block = left_pad(&bytes);
    let ok = is_encoded_message(&block, hash);
    proof {
        let want = encoded_message(hash@);
        lemma_zero_extension_keeps_value((ENCODED_LEN - bytes.len()) as nat, bytes@);
        if bigint::be_value(block@) == bigint::be_value(want) {
            lemma_value_determines_bytes(block@, want);
        }
    }
    ok
}

/// [`rsa_verify`] for any key: `None` where the check is not defined (a zero
/// modulus, or a signature that opens to more than 256 bytes), otherwise the
/// verdict.
///
/// A modulus of at most 256 bytes always qualifies; a longer one is tried.
pub fn try_rsa_verify(s: &BigUint, pub_key: &BigUint, hash: &[u8; 32]) -> (r: Option<bool>)
    ensures
        r == if verifiable(bigint::biguint_value(*s), bigint::biguint_value(*pub_key)) {
            Some(
                signature_valid(
                    bigint::biguint_value(*s),
                    bigint::biguint_value(*pub_key),
                    hash@,
                ),
            )
        } else {
            None
        },
{
    let modulus = bigint::to_bytes_be(pub_key);
    proof {
        lemma_shortest_zero(modulus@);
        lemma_shortest_fits(modulus@, ENCODED_LEN as nat);
    }
    if modulus.len() == 1 && modulus[0] == 0 {
        return None;
    }
    if modulus.len() > ENCODED_LEN {
        let e = bigint::from_u32(PUBLIC_EXPONENT);
        let opened = bigint::modpow(s, &e, pub_key);
        let bytes = bigint::to_bytes_be(&opened);
        proof {
            lemma_shortest_fits(bytes@, ENCODED_LEN as nat);
        }
        if bytes.len() > ENCODED_LEN {
            return None;
        }
    } else {
        proof {
            lemma_mod_bound(
                pow(bigint::biguint_value(*s) as int, PUBLIC_EXPONENT as nat),
                bigint::biguint_value(*pub_key) as int,
            );
        }
    }
    Some(rsa_verify(s, pub_key, hash))
}

} // verus!
