//! Owner setup codes: the salted, iterated SHA-256 hash that the board stores,
//! lower-case hex encoding, and fresh random codes.
use rand::RngCore;
use sha2::Digest;
use vstd::prelude::*;
use vstd::string::StringSliceAdditionalSpecFns;

verus! {

/// The number of SHA-256 rounds that `password_hash` applies.
pub const HASH_ROUNDS: u32 = 120000;

/// The SHA-256 digest of a byte string.
pub uninterp spec fn sha256(data: Seq<u8>) -> Seq<u8>;

/// `rounds` applications of SHA-256, each to the digest of the one before.
pub open spec fn sha256_rounds(rounds: nat, data: Seq<u8>) -> Seq<u8>
    decreases rounds,
{
    if rounds == 0 {
        data
    } else {
        sha256(sha256_rounds((rounds - 1) as nat, data))
    }
}

/// The lower-case hex digit of a value below 16.
pub open spec fn hex_digit(n: int) -> char {
    if n < 10 {
        (48 + n) as char
    } else {
        (87 + n) as char
    }
}

/// `c` is one of `0`..`9`, `a`..`f`.
pub open spec fn is_lower_hex_char(c: char) -> bool {
    ('0' <= c <= '9') || ('a' <= c <= 'f')
}

/// Lower-case hex encoding: two digits per byte, high nibble first.
pub open spec fn hex_lower(data: Seq<u8>) -> Seq<char>
    decreases data.len(),
{
    if data.len() == 0 {
        Seq::empty()
    } else {
        seq![hex_digit(data[0] as int / 16), hex_digit(data[0] as int % 16)] + hex_lower(data.drop_first())
    }
}

/// The bytes that are hashed for a code: the salt, a colon, then the code,
/// each in UTF-8.
pub open spec fn salted_input(pass: Seq<char>, salt: Seq<char>) -> Seq<u8> {
    vstd::utf8::encode_utf8(salt) + seq![58u8] + vstd::utf8::encode_utf8(pass)
}

/// The stored form of a code: hex of `HASH_ROUNDS` SHA-256 rounds over the
/// salted input.
pub open spec fn password_hash_of(pass: Seq<char>, salt: Seq<char>) -> Seq<char> {
    hex_lower(sha256_rounds(HASH_ROUNDS as nat, salted_input(pass, salt)))
}

/// Hex encoding doubles the length and uses only lower-case hex digits.
pub proof fn lemma_hex_lower_shape(data: Seq<u8>)
    ensures
        hex_lower(data).len() == 2 * data.len(),
        forall|i: int| 0 <= i < hex_lower(data).len() ==> is_lower_hex_char(#[trigger] hex_lower(data)[i]),
    decreases data.len(),
{
    if data.len() > 0 {
        lemma_hex_lower_shape(data.drop_first());
        let h = hex_lower(data);
        let r = hex_lower(data.drop_first());
        assert forall|i: int| 0 <= i < h.len() implies is_lower_hex_char(#[trigger] h[i]) by {
            if i >= 2 {
                assert(h[i] == r[i - 2]);
            }
        }
    }
}

/// Hex encoding loses nothing: different byte strings have different encodings.
pub proof fn law_hex_lower_injective(a: Seq<u8>, b: Seq<u8>)
    requires
        hex_lower(a) == hex_lower(b),
    ensures
        a == b,
    decreases a.len(),
{
    lemma_hex_lower_shape(a);
    lemma_hex_lower_shape(b);
    if a.len() > 0 {
        let ha = hex_lower(a);
        let hb = hex_lower(b);
        assert(ha[0] == hb[0] && ha[1] == hb[1]);
        assert(a[0] as int / 16 == b[0] as int / 16);
        assert(a[0] as int % 16 == b[0] as int % 16);
        assert(hex_lower(a.drop_first()) =~= ha.subrange(2, ha.len() as int));
        assert(hex_lower(b.drop_first()) =~= hb.subrange(2, hb.len() as int));
        law_hex_lower_injective(a.drop_first(), b.drop_first());
        assert(a =~= seq![a[0]] + a.drop_first());
        assert(b =~= seq![b[0]] + b.drop_first());
    } else {
        assert(b.len() == 0);
        assert(a =~= b);
    }
}

/// SHA-256 of `data`, from the `sha2` crate (`Sha256::digest`). Trusted: the
/// result is the crate's digest of exactly these bytes, 32 bytes long.
#[verifier::external_body]
fn sha256_digest(data: &[u8]) -> (out: Vec<u8>)
    ensures
        out@ == sha256(data@),
        out@.len() == 32,
{
    sha2::Sha256::digest(data).to_vec()
}

/// Lower-case hex of `data`, from the `hex` crate (`hex::encode`). Trusted:
/// two digits from `0123456789abcdef` per byte, high nibble first.
#[verifier::external_body]
fn hex_encode(data: &[u8]) -> (out: String)
    ensures
        out@ == hex_lower(data@),
{
    hex::encode(data)
}

/// Overwrites `buf` with bytes from the thread-local generator of the `rand`
/// crate (`rand::rng().fill_bytes`). Trusted: only the length is kept; the
/// bytes themselves are chance.
#[verifier::external_body]
fn fill_random(buf: &mut Vec<u8>)
    ensures
        final(buf)@.len() == old(buf)@.len(),
{
    rand::rng().fill_bytes(buf.as_mut_slice())
}

/// Lower-case hex of a byte string.
pub fn to_hex(data: &[u8]) -> (out: String)
    ensures
        out@ == hex_lower(data@),
        out@.len() == 2 * data@.len(),
{
    proof {
        lemma_hex_lower_shape(data@);
    }
    hex_encode(data)
}

/// A fresh random code: `bytes` random bytes written as `2 * bytes` lower-case
/// hex digits.
pub fn random_hex(bytes: usize) -> (code: String)
    ensures
        code@.len() == 2 * bytes,
        forall|i: int| 0 <= i < code@.len() ==> is_lower_hex_char(#[trigger] code@[i]),
        exists|data: Seq<u8>| data.len() == bytes && code@ == hex_lower(data),
{
    let mut data: Vec<u8> = Vec::new();
    let mut i: usize = 0;
    while i < bytes
        invariant
            i <= bytes,
            data@.len() == i,
        decreases bytes - i,
    {
        data.push(0u8);
        i = i + 1;
    }
    fill_random(&mut data);
    proof {
        lemma_hex_lower_shape(data@);
    }
    hex_encode(data.as_slice())
}

/// The stored hash of an owner code: the salt, a colon and the code, hashed
/// with `HASH_ROUNDS` rounds of SHA-256, written in lower-case hex.
pub fn password_hash(pass: &str, salt: &str) -> (hash: String)
    ensures
        hash@ == password_hash_of(pass@, salt@),
        hash@.len() == 64,
        forall|i: int| 0 <= i < hash@.len() ==> is_lower_hex_char(#[trigger] hash@[i]),
{
    let mut block: Vec<u8> = Vec::new();
    block.extend_from_slice(salt.as_bytes());
    block.push(58u8);
    block.extend_from_slice(pass.as_bytes());
    assert(block@ =~= salted_input(pass@, salt@));
    let mut round: u32 = 0;
    while round < HASH_ROUNDS
        invariant
            round <= HASH_ROUNDS,
            block@ == sha256_rounds(round as nat, salted_input(pass@, salt@)),
            round > 0 ==> block@.len() == 32,
        decreases HASH_ROUNDS - round,
    {
        block = sha256_digest(block.as_slice());
        round = round + 1;
    }
    proof {
        lemma_hex_lower_shape(block@);
    }
    hex_encode(block.as_slice())
}

/// Equal inputs give equal stored hashes, and different hashes mean
/// different code/salt pairs.
pub proof fn law_password_hash_stable(pass1: Seq<char>, salt1: Seq<char>, pass2: Seq<char>, salt2: Seq<char>)
    requires
        pass1 == pass2,
        salt1 == salt2,
    ensures
        password_hash_of(pass1, salt1) == password_hash_of(pass2, salt2),
{
}

} // verus!
