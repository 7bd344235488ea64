//! The proof-of-work search: find the smallest nonce whose MD5 digest of
//! `data ‖ nonce` starts with at least `difficulty` zero bits.

use md5::{Digest, Md5};
use vstd::prelude::*;

verus! {

/// Number of zero bits at the start of a byte string, read from the most
/// significant bit of the first byte on.
pub open spec fn leading_zero_bits(d: Seq<u8>) -> nat
    decreases d.len(),
{
    if d.len() == 0 {
        0
    } else if d[0] == 0 {
        8 + leading_zero_bits(d.drop_first())
    } else {
        d[0].leading_zeros() as nat
    }
}

/// A count of leading zero bits as a `u8` can hold it: larger counts read 255.
pub open spec fn saturated(n: nat) -> nat {
    if n > 255 { 255 } else { n }
}

/// The four little-endian bytes of a nonce.
pub open spec fn nonce_bytes(n: u32) -> Seq<u8> {
    seq![
        (n % 0x100) as u8,
        ((n / 0x100) % 0x100) as u8,
        ((n / 0x1_0000) % 0x100) as u8,
        (n / 0x100_0000) as u8,
    ]
}

/// The MD5 digest of a byte string.
pub uninterp spec fn md5_of(b: Seq<u8>) -> Seq<u8>;

/// Whether `n` solves the puzzle posed by `data` at `difficulty`.
pub open spec fn solves(data: Seq<u8>, difficulty: u8, n: u32) -> bool {
    leading_zero_bits(md5_of(data + nonce_bytes(n))) >= difficulty
}

/// A prefix of zero bytes contributes eight bits each.
proof fn lemma_zero_prefix(d: Seq<u8>, i: int)
    requires
        0 <= i <= d.len(),
        forall|j: int| 0 <= j < i ==> d[j] == 0,
    ensures
        leading_zero_bits(d) == 8 * i + leading_zero_bits(d.subrange(i, d.len() as int)),
    decreases i,
{
    if i > 0 {
        lemma_zero_prefix(d.drop_first(), i - 1);
        assert(d.drop_first().subrange(i - 1, d.len() - 1) =~= d.subrange(i, d.len() as int));
    } else {
        assert(d.subrange(0, d.len() as int) =~= d);
    }
}

/// A byte string of `len` zero bytes has `8 * len` leading zero bits, and one
/// whose first byte has its high bit set has none.
pub proof fn lemma_leading_zero_bits_exact(len: nat, d: Seq<u8>)
    ensures
        leading_zero_bits(Seq::new(len, |j: int| 0u8)) == 8 * len,
        d.len() > 0 && d[0] >= 0x80 ==> leading_zero_bits(d) == 0,
{
    let z = Seq::new(len, |j: int| 0u8);
    lemma_zero_prefix(z, len as int);
    assert(z.subrange(len as int, len as int).len() == 0);
    if d.len() > 0 && d[0] >= 0x80 {
        let b = d[0];
        vstd::std_specs::bits::axiom_u8_leading_zeros(b);
        assert(b >= 0x80 ==> (b >> 7u8) & 1u8 != 0u8) by (bit_vector);
        if b.leading_zeros() > 0 {
            let k = b.leading_zeros();
            assert(forall|j: u8| 8 - k <= j < 8 ==> #[trigger] (b >> j) & 1u8 == 0u8);
            assert((b >> 7u8) & 1u8 == 0u8);
        }
    }
}

/// Counts the leading zero bits of a digest, stopping at the first byte that
/// is not zero; a count above 255 reads 255.
pub fn digest_leading_zeros(digest_bytes: &[u8]) -> (r: u8)
    ensures
        r as nat == saturated(leading_zero_bits(digest_bytes@)),
{
    let d = Ghost(digest_bytes@);
    let mut i: usize = 0;
    while i < digest_bytes.len()
        invariant
            d@ == digest_bytes@,
            0 <= i <= digest_bytes.len(),
            forall|j: int| 0 <= j < i ==> digest_bytes@[j] == 0,
        decreases digest_bytes.len() - i,
    {
        if i >= 32 {
            proof {
                lemma_zero_prefix(d@, i as int);
            }
            return 255;
        }
        let byte = digest_bytes[i];
        if byte != 0 {
            let lz = byte.leading_zeros();
            proof {
                lemma_zero_prefix(d@, i as int);
                vstd::std_specs::bits::axiom_u8_leading_zeros(byte);
                let rest = d@.subrange(i as int, d@.len() as int);
                assert(rest[0] == byte);
            }
            let total: u32 = 8 * (i as u32) + lz;
            if total > 255 {
                return 255;
            }
            return total as u8;
        }
        i += 1;
    }
    proof {
        lemma_zero_prefix(d@, i as int);
        assert(d@.subrange(i as int, d@.len() as int).len() == 0);
    }
    if i >= 32 {
        255
    } else {
        (8 * i) as u8
    }
}

/// Whether a digest meets a difficulty: it has at least that many leading
/// zero bits.
pub fn digest_meets(digest_bytes: &[u8], difficulty: u8) -> (r: bool)
    ensures
        r == (leading_zero_bits(digest_bytes@) >= difficulty),
{
    digest_leading_zeros(digest_bytes) >= difficulty
}

/// Relies on `md5::Md5::digest` (RustCrypto's md-5): the MD5 digest of the
/// input, sixteen bytes long.
#[verifier::external_body]
fn md5_digest(bytes: &[u8]) -> (r: Vec<u8>)
    ensures
        r@ == md5_of(bytes@),
        r@.len() == 16,
{
    Md5::digest(bytes).to_vec()
}

/// The bytes hashed for a nonce: the data followed by the nonce's four
/// little-endian bytes.
pub fn nonce_input(data: &[u8], nonce: u32) -> (r: Vec<u8>)
    ensures
        r@ == data@ + nonce_bytes(nonce),
{
    let mut buf: Vec<u8> = Vec::new();
    let mut i: usize = 0;
    while i < data.len()
        invariant
            0 <= i <= data.len(),
            buf@ == data@.subrange(0, i as int),
        decreases data.len() - i,
    {
        buf.push(data[i]);
        i += 1;
    }
    buf.push((nonce % 0x100) as u8);
    buf.push(((nonce / 0x100) % 0x100) as u8);
    buf.push(((nonce / 0x1_0000) % 0x100) as u8);
    buf.push((nonce / 0x100_0000) as u8);
    assert(buf@ =~= data@ + nonce_bytes(nonce));
    buf
}

/// Searches the nonces from 0 up to `max_nonce` and returns the first that
/// solves the puzzle, or `None` when none of them does.
pub fn search_up_to(data: &[u8], difficulty: u8, max_nonce: u32) -> (r: Option<u32>)
    ensures
        match r {
            Some(n) => n <= max_nonce && solves(data@, difficulty, n)
                && forall|m: u32| m < n ==> !solves(data@, difficulty, m),
            None => forall|m: u32| m <= max_nonce ==> !solves(data@, difficulty, m),
        },
        difficulty == 0 ==> r == Some(0u32),
{
    let mut nonce: u32 = 0;
    loop
        invariant
            nonce <= max_nonce,
            forall|m: u32| m < nonce ==> !solves(data@, difficulty, m),
            difficulty == 0 ==> nonce == 0,
        decreases max_nonce - nonce,
    {
        let input = nonce_input(data, nonce);
        let digest = md5_digest(input.as_slice());
        if digest_meets(digest.as_slice(), difficulty) {
            return Some(nonce);
        }
        if nonce == max_nonce {
            return None;
        }
        nonce += 1;
    }
}

/// Searches every 32-bit nonce from 0 upwards and returns the first that
/// solves the puzzle, or `None` when no 32-bit nonce does.
pub fn handle_request(data: &[u8], difficulty: u8) -> (r: Option<u32>)
    ensures
        match r {
            Some(n) => solves(data@, difficulty, n) && forall|m: u32| m < n ==> !solves(data@, difficulty, m),
            None => forall|m: u32| !solves(data@, difficulty, m),
        },
        difficulty == 0 ==> r == Some(0u32),
{
    search_up_to(data, difficulty, u32::MAX)
}

} // verus!
